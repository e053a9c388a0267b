use vstd::prelude::*;
use crate::net::{at_most_one_ipv4, find_ipv4, first_ipv4_index, is_first_ipv4, lemma_first_ipv4_index, IpCidr, Ipv4Addr, Ipv4Cidr, StackError};
use crate::routes::{add_default_route, default_destination, ipv4_routes, remove_default_route};

verus! {

/// Prefix length reported for an assigned address; the lease does not carry it
/// through to the status.
pub const REPORTED_PREFIX_LEN: u8 = 24;

/// The state of the radio driver.
#[derive(Clone, Copy, Debug, PartialEq, Eq, Structural)]
pub enum RadioState {
    Uninitialized,
    StationStarting,
    StationStopped,
    StationConnected,
    StationDisconnected,
    Invalid,
}

/// The addressing that the client reports once it holds an address.
#[derive(Clone, Copy, Debug, PartialEq, Eq, Structural)]
pub struct ClientSettings {
    pub ip: Ipv4Addr,
    pub gateway: Ipv4Addr,
    pub mask: u8,
    pub dns: Option<Ipv4Addr>,
    pub secondary_dns: Option<Ipv4Addr>,
}

#[derive(Clone, Copy, Debug, PartialEq, Eq, Structural)]
pub enum ClientIpStatus {
    Waiting,
    Done(ClientSettings),
}

#[derive(Clone, Copy, Debug, PartialEq, Eq, Structural)]
pub enum ClientConnectionStatus {
    Disconnected,
    Connected(ClientIpStatus),
}

/// The composite connectivity status of the station.
#[derive(Clone, Copy, Debug, PartialEq, Eq, Structural)]
pub enum ClientStatus {
    Stopped,
    Starting,
    Started(ClientConnectionStatus),
}

/// What the interface offers.
#[derive(Clone, Copy, Debug, PartialEq, Eq, Structural)]
pub enum Capability {
    Client,
    AccessPoint,
    Mixed,
}

/// A DHCP lease: an address, and the gateway and DNS servers that came with it.
#[derive(Clone, Debug)]
pub struct Lease {
    pub address: Ipv4Cidr,
    pub router: Option<Ipv4Addr>,
    pub dns_servers: Vec<Option<Ipv4Addr>>,
}

/// One event of the DHCP client.
#[derive(Clone, Debug)]
pub enum DhcpEvent {
    Deconfigured,
    Configured(Lease),
}

#[derive(Clone, Debug)]
pub struct ClientConfiguration {
    pub ssid: String,
    pub password: String,
}

#[derive(Clone, Debug)]
pub struct AccessPointConfiguration {
    pub ssid: String,
    pub password: String,
    pub channel: u8,
}

/// The wireless configuration asked for; only `Client` can be applied.
#[derive(Clone, Debug)]
pub enum Configuration {
    Disabled,
    Client(ClientConfiguration),
    AccessPoint(AccessPointConfiguration),
    Mixed(ClientConfiguration, AccessPointConfiguration),
}

/// Kinds of the sockets that an interface holds.
#[derive(Clone, Copy, Debug, PartialEq, Eq, Structural)]
pub enum SocketKind {
    Tcp,
    Udp,
    Dhcpv4,
    Other,
}

#[derive(Clone, Copy, Debug, PartialEq, Eq, Structural)]
pub enum WifiError {
    Unknown(i32),
    SmolTcpError(StackError),
}

/// The station interface: its address and route tables, the configuration
/// applied last, the lease held, and the DHCP socket among its sockets.
pub struct Wifi {
    pub addresses: Vec<IpCidr>,
    pub routes: smoltcp::iface::Routes<'static>,
    pub current_config: Configuration,
    pub network_config: Option<Lease>,
    pub dhcp_socket_handle: Option<usize>,
}

/// The address that the interface reports as its own: that of its first IPv4
/// entry.
pub open spec fn assigned_ipv4(addrs: Seq<IpCidr>) -> Option<Ipv4Addr> {
    match first_ipv4_index(addrs) {
        Some(i) => Some(addrs[i]->Ipv4_0.address),
        None => None,
    }
}

/// The address table after a lease for `address` came: its first IPv4 entry
/// replaced by the lease's address.
pub open spec fn configured_table(addrs: Seq<IpCidr>, address: Ipv4Cidr) -> Seq<IpCidr> {
    addrs.update(first_ipv4_index(addrs)->Some_0, IpCidr::Ipv4(address))
}

/// After a lease for `address` is folded into a table that holds one IPv4
/// entry, the table holds exactly one IPv4 entry, equal to `address`, and the
/// interface reports that address as its own.
pub proof fn lemma_configured_table(addrs: Seq<IpCidr>, address: Ipv4Cidr)
    requires
        at_most_one_ipv4(addrs),
        first_ipv4_index(addrs) is Some,
    ensures
        at_most_one_ipv4(configured_table(addrs, address)),
        exists|i: int|
            0 <= i < addrs.len() && configured_table(addrs, address)[i] == IpCidr::Ipv4(address),
        forall|i: int|
            0 <= i < addrs.len() && (#[trigger] configured_table(addrs, address)[i]).spec_is_ipv4()
                ==> configured_table(addrs, address)[i] == IpCidr::Ipv4(address),
        assigned_ipv4(configured_table(addrs, address)) == Some(address.address),
{
    let k = choose|i: int| is_first_ipv4(addrs, i);
    assert(is_first_ipv4(addrs, k));
    let t = configured_table(addrs, address);
    assert(t[k] == IpCidr::Ipv4(address));
    assert forall|i: int| 0 <= i < t.len() && t[i].spec_is_ipv4() implies i == k by {
        if i != k {
            assert(addrs[i].spec_is_ipv4());
        }
    }
    assert(is_first_ipv4(t, k));
    lemma_first_ipv4_index(t, k);
}

/// The address table after a sequence of DHCP events: each lease replaces the
/// first IPv4 entry, the loss of a lease leaves the table as it is.
pub open spec fn table_after(addrs: Seq<IpCidr>, events: Seq<DhcpEvent>) -> Seq<IpCidr>
    decreases events.len(),
{
    if events.len() == 0 {
        addrs
    } else {
        let before = table_after(addrs, events.drop_last());
        match events.last() {
            DhcpEvent::Configured(lease) => configured_table(before, lease.address),
            DhcpEvent::Deconfigured => before,
        }
    }
}

/// For any sequence of DHCP events on a table that holds one IPv4 entry, the
/// table keeps exactly one IPv4 entry; once a lease came, and only losses of
/// the lease followed, that entry is the lease's address.
pub proof fn lemma_table_after(addrs: Seq<IpCidr>, events: Seq<DhcpEvent>, k: int)
    requires
        at_most_one_ipv4(addrs),
        first_ipv4_index(addrs) is Some,
    ensures
        at_most_one_ipv4(table_after(addrs, events)),
        first_ipv4_index(table_after(addrs, events)) is Some,
        table_after(addrs, events).len() == addrs.len(),
        0 <= k < events.len() && events[k] is Configured && (forall|j: int|
            k < j < events.len() ==> #[trigger] events[j] is Deconfigured) ==> {
            let a = events[k]->Configured_0.address;
            &&& assigned_ipv4(table_after(addrs, events)) == Some(a.address)
            &&& forall|i: int|
                0 <= i < addrs.len() && (#[trigger] table_after(addrs, events)[i]).spec_is_ipv4()
                    ==> table_after(addrs, events)[i] == IpCidr::Ipv4(a)
        },
    decreases events.len(),
{
    if events.len() > 0 {
        let prefix = events.drop_last();
        let last = events.len() - 1;
        lemma_table_after(addrs, prefix, k);
        let before = table_after(addrs, prefix);
        match events.last() {
            DhcpEvent::Configured(lease) => {
                lemma_configured_table(before, lease.address);
                let t = configured_table(before, lease.address);
                let i = choose|i: int| 0 <= i < before.len() && t[i] == IpCidr::Ipv4(lease.address);
                assert(is_first_ipv4(t, first_ipv4_index(t)->Some_0)) by {
                    assert(t[i].spec_is_ipv4());
                    assert(exists|i: int| is_first_ipv4(t, i)) by {
                        let f = choose|f: int| is_first_ipv4(before, f);
                        assert(is_first_ipv4(before, f));
                        assert(t[f].spec_is_ipv4() || f == first_ipv4_index(before)->Some_0);
                        lemma_first_ipv4_index(before, f);
                        assert(is_first_ipv4(t, f)) by {
                            assert forall|j: int| 0 <= j < f implies !t[j].spec_is_ipv4() by {
                                assert(!before[j].spec_is_ipv4());
                            }
                        }
                    }
                }
                if 0 <= k < events.len() && events[k] is Configured && (forall|j: int|
                    k < j < events.len() ==> #[trigger] events[j] is Deconfigured) {
                    if k < last {
                        assert(events[last] is Deconfigured);
                    }
                }
            },
            DhcpEvent::Deconfigured => {
                if 0 <= k < events.len() && events[k] is Configured && (forall|j: int|
                    k < j < events.len() ==> #[trigger] events[j] is Deconfigured) {
                    assert(k != last);
                    assert(prefix[k] == events[k]);
                    assert forall|j: int| k < j < prefix.len() implies #[trigger] prefix[j] is Deconfigured by {
                        assert(prefix[j] == events[j]);
                    }
                }
            },
        }
    }
}

/// What folding a DHCP event does to the lease and the tables of `before`,
/// giving `after`. Without a DHCP socket or an event nothing changes; a lost
/// lease clears the lease and the default route; a new lease is cached,
/// replaces the first IPv4 entry, and installs its gateway where one comes
/// and the route table takes it (see `dhcp_outcome`).
pub open spec fn dhcp_folded(before: Wifi, after: Wifi, event: Option<DhcpEvent>) -> bool {
    match (before.dhcp_socket_handle, event) {
        (Some(_), Some(DhcpEvent::Deconfigured)) => {
            &&& after.network_config is None
            &&& ipv4_routes(after.routes) == ipv4_routes(before.routes).remove(default_destination())
            &&& after.addresses@ == before.addresses@
        },
        (Some(_), Some(DhcpEvent::Configured(lease))) => {
            &&& after.network_config == Some(lease)
            &&& after.addresses@ == configured_table(before.addresses@, lease.address)
            &&& match lease.router {
                Some(g) => after.routes == before.routes || ipv4_routes(after.routes) == ipv4_routes(
                    before.routes,
                ).insert(default_destination(), g),
                None => after.routes == before.routes,
            }
        },
        _ => {
            &&& after.network_config == before.network_config
            &&& after.routes == before.routes
            &&& after.addresses@ == before.addresses@
        },
    }
}

/// The result of folding a DHCP event, with the route table after it: a new
/// lease's gateway is either installed, or the table refused it, stayed as it
/// was, and the error says so. Every other fold succeeds.
pub open spec fn dhcp_outcome(before: Wifi, after: Wifi, event: Option<DhcpEvent>, r: Result<(), WifiError>) -> bool {
    match (before.dhcp_socket_handle, event) {
        (Some(_), Some(DhcpEvent::Configured(lease))) => match lease.router {
            Some(g) => {
                ||| r is Ok && ipv4_routes(after.routes) == ipv4_routes(before.routes).insert(
                    default_destination(),
                    g,
                )
                ||| r == Err::<(), WifiError>(WifiError::SmolTcpError(StackError::Exhausted))
                    && after.routes == before.routes
            },
            None => r is Ok,
        },
        _ => r is Ok,
    }
}

/// The gateway that a lease reports, `0.0.0.0` where there is none.
pub open spec fn lease_gateway(lease: Option<Lease>) -> Ipv4Addr {
    match lease {
        Some(l) => match l.router {
            Some(g) => g,
            None => Ipv4Addr { a: 0, b: 0, c: 0, d: 0 },
        },
        None => Ipv4Addr { a: 0, b: 0, c: 0, d: 0 },
    }
}

/// The first DNS server of a lease, `0.0.0.0` where there is none.
pub open spec fn lease_dns(lease: Option<Lease>) -> Ipv4Addr {
    match lease {
        Some(l) => if l.dns_servers@.len() > 0 && l.dns_servers@[0] is Some {
            l.dns_servers@[0]->Some_0
        } else {
            Ipv4Addr { a: 0, b: 0, c: 0, d: 0 }
        },
        None => Ipv4Addr { a: 0, b: 0, c: 0, d: 0 },
    }
}

/// The status of the station, from the radio's state, the address assigned to
/// the interface and the lease held.
pub open spec fn status_of(radio: RadioState, ip: Option<Ipv4Addr>, lease: Option<Lease>) -> ClientStatus {
    match radio {
        RadioState::StationStarting => ClientStatus::Starting,
        RadioState::StationDisconnected => ClientStatus::Started(ClientConnectionStatus::Disconnected),
        RadioState::StationConnected => ClientStatus::Started(
            ClientConnectionStatus::Connected(
                match ip {
                    Some(a) if !a.spec_is_unspecified() => ClientIpStatus::Done(
                        ClientSettings {
                            ip: a,
                            gateway: lease_gateway(lease),
                            mask: REPORTED_PREFIX_LEN,
                            dns: Some(lease_dns(lease)),
                            secondary_dns: Some(Ipv4Addr { a: 0, b: 0, c: 0, d: 0 }),
                        },
                    ),
                    _ => ClientIpStatus::Waiting,
                },
            ),
        ),
        _ => ClientStatus::Stopped,
    }
}

impl Wifi {
    /// The address table keeps at most one IPv4 entry.
    pub open spec fn wf(&self) -> bool {
        &&& at_most_one_ipv4(self.addresses@)
    }

    /// The handle of the last DHCP socket among `sockets`, if any.
    pub open spec fn last_dhcp(sockets: Seq<SocketKind>) -> Option<usize>
        decreases sockets.len(),
    {
        if sockets.len() == 0 {
            None
        } else if sockets.last() == SocketKind::Dhcpv4 {
            Some((sockets.len() - 1) as usize)
        } else {
            Self::last_dhcp(sockets.drop_last())
        }
    }

    /// Builds the interface model over its tables and sockets, remembering the
    /// last DHCP socket among them.
    pub fn new(addresses: Vec<IpCidr>, routes: smoltcp::iface::Routes<'static>, sockets: &Vec<SocketKind>) -> (r: Wifi)
        ensures
            r.addresses@ == addresses@,
            r.routes == routes,
            r.current_config is Disabled,
            r.network_config is None,
            r.dhcp_socket_handle == Self::last_dhcp(sockets@),
    {
        let mut dhcp_socket_handle: Option<usize> = None;
        let mut i: usize = 0;
        while i < sockets.len()
            invariant
                i <= sockets@.len(),
                dhcp_socket_handle == Self::last_dhcp(sockets@.subrange(0, i as int)),
            decreases sockets@.len() - i,
        {
            assert(sockets@.subrange(0, i + 1).drop_last() =~= sockets@.subrange(0, i as int));
            if sockets[i] == SocketKind::Dhcpv4 {
                dhcp_socket_handle = Some(i);
            }
            i = i + 1;
        }
        assert(sockets@.subrange(0, i as int) =~= sockets@);
        Wifi {
            addresses,
            routes,
            current_config: Configuration::Disabled,
            network_config: None,
            dhcp_socket_handle,
        }
    }

    /// Whether the address table holds at most one IPv4 entry.
    pub fn is_wf(&self) -> (r: bool)
        ensures
            r == self.wf(),
    {
        match find_ipv4(&self.addresses) {
            None => true,
            Some(first) => {
                let n = self.addresses.len();
                assert(first < n);
                let mut i: usize = first + 1;
                while i < self.addresses.len()
                    invariant
                        is_first_ipv4(self.addresses@, first as int),
                        first < i <= self.addresses@.len(),
                        forall|j: int| first < j < i ==> !self.addresses@[j].spec_is_ipv4(),
                    decreases self.addresses@.len() - i,
                {
                    if self.addresses[i].is_ipv4() {
                        assert(!at_most_one_ipv4(self.addresses@)) by {
                            assert(self.addresses@[first as int].spec_is_ipv4());
                            assert(self.addresses@[i as int].spec_is_ipv4());
                        }
                        return false;
                    }
                    i = i + 1;
                }
                assert forall|p: int, q: int|
                    0 <= p < self.addresses@.len() && 0 <= q < self.addresses@.len()
                        && self.addresses@[p].spec_is_ipv4()
                        && self.addresses@[q].spec_is_ipv4() implies p == q by {
                    assert(p >= first && q >= first);
                    assert(p <= first && q <= first);
                }
                true
            },
        }
    }

    /// The address of the first IPv4 entry of the address table.
    pub fn ipv4_addr(&self) -> (r: Option<Ipv4Addr>)
        ensures
            r == assigned_ipv4(self.addresses@),
    {
        match find_ipv4(&self.addresses) {
            Some(i) => match self.addresses[i] {
                IpCidr::Ipv4(c) => Some(c.address),
                IpCidr::Ipv6(_) => None,
            },
            None => None,
        }
    }

    /// The capabilities offered: the station mode alone.
    pub fn get_capabilities(&self) -> (r: Vec<Capability>)
        ensures
            r@ == seq![Capability::Client],
    {
        let mut caps: Vec<Capability> = Vec::new();
        caps.push(Capability::Client);
        assert(caps@ =~= seq![Capability::Client]);
        caps
    }

    /// The composite status, given the state that the radio driver reports.
    pub fn get_status(&self, radio: RadioState) -> (r: ClientStatus)
        ensures
            r == status_of(radio, assigned_ipv4(self.addresses@), self.network_config),
    {
        match radio {
            RadioState::Uninitialized | RadioState::StationStopped | RadioState::Invalid => {
                ClientStatus::Stopped
            },
            RadioState::StationStarting => ClientStatus::Starting,
            RadioState::StationDisconnected => ClientStatus::Started(
                ClientConnectionStatus::Disconnected,
            ),
            RadioState::StationConnected => {
                let ip_status = match self.ipv4_addr() {
                    Some(ip) => if !ip.is_unspecified() {
                        let mut gateway = Ipv4Addr::unspecified();
                        let mut dns = Ipv4Addr::unspecified();
                        match &self.network_config {
                            Some(config) => {
                                if let Some(router) = config.router {
                                    gateway = router;
                                }
                                if config.dns_servers.len() > 0 {
                                    if let Some(server) = config.dns_servers[0] {
                                        dns = server;
                                    }
                                }
                            },
                            None => {},
                        }
                        ClientIpStatus::Done(
                            ClientSettings {
                                ip,
                                gateway,
                                mask: REPORTED_PREFIX_LEN,
                                dns: Some(dns),
                                secondary_dns: Some(Ipv4Addr::unspecified()),
                            },
                        )
                    } else {
                        ClientIpStatus::Waiting
                    },
                    None => ClientIpStatus::Waiting,
                };
                ClientStatus::Started(ClientConnectionStatus::Connected(ip_status))
            },
        }
    }

    /// Folds one event of the DHCP client into the lease and the tables. A new
    /// lease replaces the address of the sole IPv4 entry and installs its
    /// gateway as the default route; losing the lease removes that route.
    pub fn poll_dhcp(&mut self, event: Option<DhcpEvent>) -> (r: Result<(), WifiError>)
        requires
            old(self).wf(),
            (old(self).dhcp_socket_handle is Some && (event matches Some(DhcpEvent::Configured(_))))
                ==> first_ipv4_index(old(self).addresses@) is Some,
        ensures
            final(self).wf(),
            final(self).dhcp_socket_handle == old(self).dhcp_socket_handle,
            final(self).current_config == old(self).current_config,
            dhcp_folded(*old(self), *final(self), event),
            dhcp_outcome(*old(self), *final(self), event, r),
    {
        if self.dhcp_socket_handle.is_none() {
            return Ok(());
        }
        match event {
            None => Ok(()),
            Some(DhcpEvent::Deconfigured) => {
                self.network_config = None;
                remove_default_route(&mut self.routes);
                Ok(())
            },
            Some(DhcpEvent::Configured(config)) => {
                let address = config.address;
                let router = config.router;
                self.network_config = Some(config);
                let i = find_ipv4(&self.addresses).unwrap();
                let ghost before = self.addresses@;
                self.addresses.set(i, IpCidr::Ipv4(address));
                assert forall|p: int, q: int|
                    0 <= p < self.addresses@.len() && 0 <= q < self.addresses@.len()
                        && self.addresses@[p].spec_is_ipv4()
                        && self.addresses@[q].spec_is_ipv4() implies p == q by {
                    assert(before[p].spec_is_ipv4() || p == i);
                    assert(before[q].spec_is_ipv4() || q == i);
                    assert(before[i as int].spec_is_ipv4());
                }
                match router {
                    Some(route) => match add_default_route(&mut self.routes, route) {
                        Ok(()) => Ok(()),
                        Err(e) => Err(WifiError::SmolTcpError(e)),
                    },
                    None => Ok(()),
                }
            },
        }
    }

    /// The configuration applied last.
    pub fn get_configuration(&self) -> (r: &Configuration)
        ensures
            *r == self.current_config,
    {
        &self.current_config
    }

    /// Records a client configuration and returns the credentials that the
    /// radio driver is to connect with; its answer goes through
    /// `connect_result`.
    pub fn set_configuration(&mut self, conf: Configuration) -> (r: ClientConfiguration)
        requires
            conf is Client,
        ensures
            r == conf->Client_0,
            final(self).current_config == conf,
            final(self).addresses@ == old(self).addresses@,
            final(self).routes == old(self).routes,
            final(self).network_config == old(self).network_config,
            final(self).dhcp_socket_handle == old(self).dhcp_socket_handle,
    {
        let request = match &conf {
            Configuration::Client(c) => ClientConfiguration {
                ssid: c.ssid.clone(),
                password: c.password.clone(),
            },
            _ => ClientConfiguration { ssid: String::new(), password: String::new() },
        };
        self.current_config = conf;
        request
    }

    /// Reads the radio driver's answer to a connect request: zero is success,
    /// any other code an error that carries it.
    pub fn connect_result(code: i32) -> (r: Result<(), WifiError>)
        ensures
            code == 0 ==> r is Ok,
            code != 0 ==> r == Err::<(), WifiError>(WifiError::Unknown(code)),
    {
        if code != 0 {
            Err(WifiError::Unknown(code))
        } else {
            Ok(())
        }
    }
}

} // verus!
