use vstd::prelude::*;
use crate::net::{Ipv4Addr, StackError};
use crate::network::{next_port, Network};

verus! {

#[derive(Clone, Copy, Debug, PartialEq, Eq, Structural)]
pub enum IoError {
    Other(StackError),
    SocketClosed,
}

/// What the engine reports of a TCP socket after a step.
#[derive(Clone, Copy, Debug, PartialEq, Eq, Structural)]
pub struct SocketFlags {
    pub may_send: bool,
    pub may_recv: bool,
    pub can_send: bool,
    pub can_recv: bool,
    pub is_open: bool,
}

/// Where a blocking wait stands after one engine step.
#[derive(Clone, Copy, Debug, PartialEq, Eq, Structural)]
pub enum WaitOutcome {
    /// The awaited condition holds.
    Ready,
    /// Step the engine again.
    Pending,
    /// Give up with this error.
    Failed(IoError),
}

/// Where a write stands after one submission to the transmit buffer.
#[derive(Clone, Copy, Debug, PartialEq, Eq, Structural)]
pub enum SendStep {
    /// Submit the bytes from this offset on.
    Again(usize),
    /// The write is over: this many bytes were taken.
    Finished(usize),
    /// The write is over with this error.
    Failed(IoError),
}

/// A connection request for the engine.
#[derive(Clone, Copy, Debug, PartialEq, Eq, Structural)]
pub struct ConnectRequest {
    pub socket_handle: usize,
    pub remote_addr: Ipv4Addr,
    pub remote_port: u16,
    pub local_port: u16,
}

/// A blocking TCP socket over one socket of the engine.
#[derive(Clone, Copy, Debug, PartialEq, Eq, Structural)]
pub struct Socket {
    pub socket_handle: usize,
    /// The endpoints of the connection asked for last, until it is torn down.
    pub connection: Option<ConnectRequest>,
}

/// The outcome of a wait step: a failed step ends the wait with its error,
/// else the flags decide. `ready` is the awaited condition, `usable` whether
/// the socket can still get there.
pub open spec fn wait_outcome(poll: Result<bool, StackError>, ready: bool, is_open: bool, usable: bool) -> WaitOutcome {
    match poll {
        Err(e) => WaitOutcome::Failed(IoError::Other(e)),
        Ok(_) => if ready {
            WaitOutcome::Ready
        } else if !is_open || !usable {
            WaitOutcome::Failed(IoError::SocketClosed)
        } else {
            WaitOutcome::Pending
        },
    }
}

/// A read on a socket that was aborted before any byte came ends at the
/// first wait step whose engine step succeeded: with `SocketClosed`, since an
/// aborted socket is neither open nor able to receive.
pub proof fn lemma_aborted_read_fails(poll: Result<bool, StackError>, flags: SocketFlags)
    requires
        poll is Ok,
        !flags.is_open,
        !flags.may_recv,
    ensures
        wait_outcome(poll, flags.may_recv, flags.is_open, flags.can_recv) == WaitOutcome::Failed(
            IoError::SocketClosed,
        ),
{
}

impl Network {
    /// The socket over the engine's first socket; `socket_count` sockets exist.
    pub fn get_socket(&self, socket_count: usize) -> (r: Socket)
        requires
            socket_count > 0,
        ensures
            r.socket_handle == 0,
            r.connection is None,
    {
        Socket { socket_handle: 0, connection: None }
    }
}

impl Socket {
    /// Starts a connection to `addr:port` from the next local port. The engine
    /// carries out the returned request; the wait for it goes by `open_wait`.
    pub fn open(&mut self, network: &mut Network, addr: Ipv4Addr, port: u16) -> (r: ConnectRequest)
        requires
            old(network).wf(),
        ensures
            final(network).wf(),
            final(network).local_port == next_port(old(network).local_port),
            final(network).interface == old(network).interface,
            r == (ConnectRequest {
                socket_handle: old(self).socket_handle,
                remote_addr: addr,
                remote_port: port,
                local_port: old(network).local_port,
            }),
            *final(self) == (Socket { socket_handle: old(self).socket_handle, connection: Some(r) }),
    {
        let local_port = network.next_local_port();
        let request = ConnectRequest {
            socket_handle: self.socket_handle,
            remote_addr: addr,
            remote_port: port,
            local_port,
        };
        self.connection = Some(request);
        request
    }

    /// The result of handing a connection request to the engine: a refusal
    /// ends `open` with that error.
    pub fn connect_result(connected: Result<(), StackError>) -> (r: Result<(), IoError>)
        ensures
            connected is Ok ==> r is Ok,
            connected matches Err(e) ==> r == Err::<(), IoError>(IoError::Other(e)),
    {
        match connected {
            Ok(()) => Ok(()),
            Err(e) => Err(IoError::Other(e)),
        }
    }

    /// One step of the wait of `open`: a failed engine step ends it with that
    /// error; else it is over once the socket can send.
    pub fn open_wait(poll: Result<bool, StackError>, flags: SocketFlags) -> (r: WaitOutcome)
        ensures
            poll matches Err(e) ==> r == WaitOutcome::Failed(IoError::Other(e)),
            poll is Ok ==> r == if flags.can_send {
                WaitOutcome::Ready
            } else {
                WaitOutcome::Pending
            },
    {
        match poll {
            Err(e) => WaitOutcome::Failed(IoError::Other(e)),
            Ok(_) => if flags.can_send {
                WaitOutcome::Ready
            } else {
                WaitOutcome::Pending
            },
        }
    }

    /// Tears the connection down; returns the handle of the engine socket to
    /// abort, after which the engine is drained.
    pub fn disconnect(&mut self) -> (r: usize)
        ensures
            r == old(self).socket_handle,
            *final(self) == (Socket { socket_handle: old(self).socket_handle, connection: None }),
    {
        self.connection = None;
        self.socket_handle
    }

    /// One round of maintenance before an engine step; see `Network::work`.
    pub fn work(&mut self, network: &mut Network, dhcp_event: Option<crate::wifi::DhcpEvent>)
        requires
            old(network).wf(),
            (old(network).interface.dhcp_socket_handle is Some && (dhcp_event matches Some(
                crate::wifi::DhcpEvent::Configured(_),
            ))) ==> crate::net::first_ipv4_index(old(network).interface.addresses@) is Some,
        ensures
            final(network).wf(),
            final(network).local_port == old(network).local_port,
            *final(self) == *old(self),
            final(network).interface.dhcp_socket_handle == old(network).interface.dhcp_socket_handle,
            final(network).interface.current_config == old(network).interface.current_config,
            crate::wifi::dhcp_folded(old(network).interface, final(network).interface, dhcp_event),
    {
        network.work(dhcp_event);
    }

    /// One step of the wait of a read: data may be received, or the socket
    /// is closed or can receive no more.
    pub fn read_wait(poll: Result<bool, StackError>, flags: SocketFlags) -> (r: WaitOutcome)
        ensures
            r == wait_outcome(poll, flags.may_recv, flags.is_open, flags.can_recv),
    {
        match poll {
            Err(e) => WaitOutcome::Failed(IoError::Other(e)),
            Ok(_) => if flags.may_recv {
                WaitOutcome::Ready
            } else if !flags.is_open || !flags.can_recv {
                WaitOutcome::Failed(IoError::SocketClosed)
            } else {
                WaitOutcome::Pending
            },
        }
    }

    /// One step of the wait of a write: data may be sent, or the socket is
    /// closed or can send no more.
    pub fn write_wait(poll: Result<bool, StackError>, flags: SocketFlags) -> (r: WaitOutcome)
        ensures
            r == wait_outcome(poll, flags.may_send, flags.is_open, flags.can_send),
    {
        match poll {
            Err(e) => WaitOutcome::Failed(IoError::Other(e)),
            Ok(_) => if flags.may_send {
                WaitOutcome::Ready
            } else if !flags.is_open || !flags.can_send {
                WaitOutcome::Failed(IoError::SocketClosed)
            } else {
                WaitOutcome::Pending
            },
        }
    }

    /// The result of a read from what the receive buffer handed over.
    pub fn read_result(recv: Result<usize, StackError>) -> (r: Result<usize, IoError>)
        ensures
            recv matches Ok(n) ==> r == Ok::<usize, IoError>(n),
            recv matches Err(e) ==> r == Err::<usize, IoError>(IoError::Other(e)),
    {
        match recv {
            Ok(n) => Ok(n),
            Err(e) => Err(IoError::Other(e)),
        }
    }

    /// Folds one submission of `buf_len - written` bytes into a write: a
    /// fault ends it with that error; once all `buf_len` bytes are taken it
    /// ends with their number; else the rest is submitted again.
    pub fn write_progress(written: usize, buf_len: usize, sent: Result<usize, StackError>) -> (r: SendStep)
        requires
            written <= buf_len,
            sent matches Ok(n) ==> n <= buf_len - written,
        ensures
            sent matches Err(e) ==> r == SendStep::Failed(IoError::Other(e)),
            sent matches Ok(n) ==> (if written + n >= buf_len {
                r == SendStep::Finished(buf_len)
            } else {
                r == SendStep::Again((written + n) as usize)
            }),
    {
        match sent {
            Ok(n) => {
                let total = written + n;
                if total >= buf_len {
                    SendStep::Finished(total)
                } else {
                    SendStep::Again(total)
                }
            },
            Err(e) => SendStep::Failed(IoError::Other(e)),
        }
    }

    /// Whether an engine step ends a flush: it reported no work left, or it
    /// failed, which a flush takes for the same.
    pub fn flush_done(poll: Result<bool, StackError>) -> (r: bool)
        ensures
            r == !(poll == Ok::<bool, StackError>(true)),
    {
        match poll {
            Ok(more) => !more,
            Err(_) => true,
        }
    }
}

} // verus!
