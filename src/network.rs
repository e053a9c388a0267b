use vstd::prelude::*;
use crate::net::StackError;
use crate::wifi::{dhcp_folded, DhcpEvent, Wifi};

verus! {

/// The first local port handed out, and where the counter starts over.
pub const FIRST_LOCAL_PORT: u16 = 41000;

/// Local ports stay below this bound.
pub const LOCAL_PORT_LIMIT: u16 = 65535;

/// Number of distinct local ports handed out before they repeat.
pub const LOCAL_PORT_SPAN: u16 = 24535;

/// The port that follows `p` in the counter.
pub open spec fn next_port(p: u16) -> u16 {
    if p + 1 >= LOCAL_PORT_LIMIT {
        FIRST_LOCAL_PORT
    } else {
        (p + 1) as u16
    }
}

/// The port handed out by the `k`-th allocation from a fresh counter.
pub open spec fn port_after(k: nat) -> u16
    decreases k,
{
    if k == 0 {
        FIRST_LOCAL_PORT
    } else {
        next_port(port_after((k - 1) as nat))
    }
}

pub open spec fn port_in_range(p: u16) -> bool {
    FIRST_LOCAL_PORT <= p < LOCAL_PORT_LIMIT
}

/// The ports handed out from a fresh counter run through the range in order
/// and start over after its last value: the `k`-th is `41000 + k mod 24535`,
/// never 0 and always below 65535.
pub proof fn lemma_port_sequence(k: nat)
    ensures
        port_after(k) == FIRST_LOCAL_PORT + k % (LOCAL_PORT_SPAN as nat),
        port_in_range(port_after(k)),
        port_after(k) != 0,
    decreases k,
{
    if k > 0 {
        lemma_port_sequence((k - 1) as nat);
        let m = (k - 1) as nat;
        assert(m % 24535 + 1 == 24535 ==> k % 24535 == 0) by (nonlinear_arith)
            requires
                k == m + 1,
        ;
        assert(m % 24535 + 1 < 24535 ==> k % 24535 == m % 24535 + 1) by (nonlinear_arith)
            requires
                k == m + 1,
        ;
    }
}

/// After the last port of the range the counter starts over at the first.
pub proof fn lemma_port_wraps(p: u16)
    requires
        p == LOCAL_PORT_LIMIT - 1,
    ensures
        next_port(p) == FIRST_LOCAL_PORT,
{
}

/// The network: the station interface, and the counter of local ports.
pub struct Network {
    pub interface: Wifi,
    pub local_port: u16,
}

impl Network {
    pub open spec fn wf(&self) -> bool {
        &&& self.interface.wf()
        &&& port_in_range(self.local_port)
    }

    pub fn new(interface: Wifi) -> (r: Network)
        requires
            interface.wf(),
        ensures
            r.wf(),
            r.interface == interface,
            r.local_port == FIRST_LOCAL_PORT,
    {
        Network { interface, local_port: FIRST_LOCAL_PORT }
    }

    /// Lends the interface to `f`.
    pub fn with_interface<F, R>(&self, f: F) -> (r: R)
        where
            F: FnOnce(&Wifi) -> R,
        requires
            f.requires((&self.interface,)),
        ensures
            f.ensures((&self.interface,), r),
    {
        f(&self.interface)
    }

    /// Hands out the current local port and moves the counter on, starting
    /// over at the first port where it would reach the limit.
    pub fn next_local_port(&mut self) -> (r: u16)
        requires
            old(self).wf(),
        ensures
            final(self).wf(),
            r == old(self).local_port,
            port_in_range(r),
            final(self).local_port == next_port(old(self).local_port),
            final(self).interface == old(self).interface,
    {
        let port = self.local_port;
        if self.local_port + 1 >= LOCAL_PORT_LIMIT {
            self.local_port = FIRST_LOCAL_PORT;
        } else {
            self.local_port = self.local_port + 1;
        }
        port
    }

    /// One round of maintenance before an engine step: folds the pending DHCP
    /// event, if any, into the interface. A failure to install a route is
    /// dropped here; the next lease tries again.
    pub fn work(&mut self, dhcp_event: Option<DhcpEvent>)
        requires
            old(self).wf(),
            (old(self).interface.dhcp_socket_handle is Some && (dhcp_event matches Some(
                DhcpEvent::Configured(_),
            ))) ==> crate::net::first_ipv4_index(old(self).interface.addresses@) is Some,
        ensures
            final(self).wf(),
            final(self).local_port == old(self).local_port,
            final(self).interface.dhcp_socket_handle == old(self).interface.dhcp_socket_handle,
            final(self).interface.current_config == old(self).interface.current_config,
            dhcp_folded(old(self).interface, final(self).interface, dhcp_event),
    {
        let _ = self.interface.poll_dhcp(dhcp_event);
    }

    /// Whether a result of the engine's step ends a drain: it reported that no
    /// work is left. A failed step counts as more work.
    pub fn drained(poll: Result<bool, StackError>) -> (r: bool)
        ensures
            r == (poll == Ok::<bool, StackError>(false)),
    {
        match poll {
            Ok(more) => !more,
            Err(_) => false,
        }
    }
}

} // verus!
