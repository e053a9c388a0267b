use wifi_interface::net::{find_ipv4, IpCidr, Ipv4Addr, Ipv4Cidr, Ipv6Cidr, StackError};
use wifi_interface::network::Network;
use smoltcp::iface::{Route, Routes};
use smoltcp::wire::{IpAddress, IpCidr as StackCidr};
use wifi_interface::scan::{
    auth_method_from_code, decode_ssid, is_known_record, scan_n, secondary_channel_from_code,
    signal_strength, AccessPointInfo, ApRecord, AuthMethod, SecondaryChannel,
};
use wifi_interface::socket::{IoError, SendStep, Socket, SocketFlags, WaitOutcome};
use wifi_interface::wifi::{
    Capability, ClientConfiguration, ClientConnectionStatus, ClientIpStatus, ClientSettings,
    ClientStatus, Configuration, DhcpEvent, Lease, RadioState, SocketKind, Wifi, WifiError,
};

fn v4(a: u8, b: u8, c: u8, d: u8, prefix: u8) -> IpCidr {
    IpCidr::Ipv4(Ipv4Cidr { address: Ipv4Addr::new(a, b, c, d), prefix_len: prefix })
}

fn v6() -> IpCidr {
    IpCidr::Ipv6(Ipv6Cidr { address: 0xfe80 << 112, prefix_len: 64 })
}

fn station(capacity: usize) -> Wifi {
    let sockets = vec![SocketKind::Tcp, SocketKind::Dhcpv4];
    Wifi::new(vec![v6(), v4(0, 0, 0, 0, 0)], routes_with_room(capacity), &sockets)
}

/// A route table with room for `n` routes.
fn routes_with_room(n: usize) -> Routes<'static> {
    let slots: Vec<Option<(StackCidr, Route)>> = vec![None; n];
    Routes::new(Box::leak(slots.into_boxed_slice()))
}

/// The gateway of the default IPv4 route of a table.
fn default_gw(routes: &mut Routes<'static>) -> Option<Ipv4Addr> {
    let mut gw = None;
    routes.update(|m| {
        if let Some(route) = m.get(&StackCidr::new(IpAddress::v4(0, 0, 0, 0), 0)) {
            if let IpAddress::Ipv4(a) = route.via_router {
                gw = Some(Ipv4Addr::new(a.0[0], a.0[1], a.0[2], a.0[3]));
            }
        }
    });
    gw
}

fn lease(router: Option<Ipv4Addr>, dns: Vec<Option<Ipv4Addr>>) -> Lease {
    Lease {
        address: Ipv4Cidr { address: Ipv4Addr::new(192, 168, 1, 50), prefix_len: 24 },
        router,
        dns_servers: dns,
    }
}

fn ipv4_entries(w: &Wifi) -> Vec<IpCidr> {
    w.addresses.iter().copied().filter(|c| c.is_ipv4()).collect()
}

fn closed_flags() -> SocketFlags {
    SocketFlags { may_send: false, may_recv: false, can_send: false, can_recv: false, is_open: false }
}

fn record(ssid: &[u8], rssi: i8, authmode: u32) -> ApRecord {
    ApRecord {
        bssid: [1, 2, 3, 4, 5, 6],
        ssid: ssid.to_vec(),
        primary: 6,
        second: 1,
        rssi,
        authmode,
    }
}

#[test]
fn new_remembers_last_dhcp_socket() {
    let sockets = vec![SocketKind::Dhcpv4, SocketKind::Tcp, SocketKind::Dhcpv4, SocketKind::Udp];
    let w = Wifi::new(vec![], routes_with_room(1), &sockets);
    assert_eq!(w.dhcp_socket_handle, Some(2));
    assert!(matches!(w.current_config, Configuration::Disabled));
    assert!(w.network_config.is_none());
    let none = Wifi::new(vec![], routes_with_room(1), &vec![SocketKind::Tcp]);
    assert_eq!(none.dhcp_socket_handle, None);
}

#[test]
fn configured_then_deconfigured() {
    let mut w = station(2);
    let gw = Ipv4Addr::new(192, 168, 1, 1);
    let r = w.poll_dhcp(Some(DhcpEvent::Configured(lease(Some(gw), vec![]))));
    assert_eq!(r, Ok(()));
    assert_eq!(ipv4_entries(&w), vec![v4(192, 168, 1, 50, 24)]);
    assert_eq!(w.addresses[0], v6());
    assert_eq!(default_gw(&mut w.routes), Some(gw));
    assert_eq!(w.ipv4_addr(), Some(Ipv4Addr::new(192, 168, 1, 50)));
    assert!(w.network_config.is_some());

    let r = w.poll_dhcp(Some(DhcpEvent::Deconfigured));
    assert_eq!(r, Ok(()));
    assert_eq!(default_gw(&mut w.routes), None);
    assert!(w.network_config.is_none());

    // a second loss of the lease changes nothing
    let r = w.poll_dhcp(Some(DhcpEvent::Deconfigured));
    assert_eq!(r, Ok(()));
    assert_eq!(default_gw(&mut w.routes), None);
}

#[test]
fn repeated_leases_keep_one_ipv4_entry() {
    let mut w = station(2);
    for last in [10u8, 20, 30] {
        let l = Lease {
            address: Ipv4Cidr { address: Ipv4Addr::new(10, 0, 0, last), prefix_len: 8 },
            router: None,
            dns_servers: vec![],
        };
        assert_eq!(w.poll_dhcp(Some(DhcpEvent::Configured(l))), Ok(()));
        assert_eq!(ipv4_entries(&w), vec![v4(10, 0, 0, last, 8)]);
        assert_eq!(default_gw(&mut w.routes), None);
    }
}

#[test]
fn full_route_table_is_an_error() {
    let mut w = station(0);
    let gw = Ipv4Addr::new(192, 168, 1, 1);
    let r = w.poll_dhcp(Some(DhcpEvent::Configured(lease(Some(gw), vec![]))));
    assert_eq!(r, Err(WifiError::SmolTcpError(StackError::Exhausted)));
    assert_eq!(default_gw(&mut w.routes), None);
    assert_eq!(ipv4_entries(&w), vec![v4(192, 168, 1, 50, 24)]);
}

#[test]
fn no_event_and_no_dhcp_socket_change_nothing() {
    let mut w = station(2);
    assert_eq!(w.poll_dhcp(None), Ok(()));
    assert_eq!(ipv4_entries(&w), vec![v4(0, 0, 0, 0, 0)]);
    let mut plain = Wifi::new(vec![v4(0, 0, 0, 0, 0)], routes_with_room(1), &vec![SocketKind::Tcp]);
    let r = plain.poll_dhcp(Some(DhcpEvent::Configured(lease(None, vec![]))));
    assert_eq!(r, Ok(()));
    assert!(plain.network_config.is_none());
    assert_eq!(ipv4_entries(&plain), vec![v4(0, 0, 0, 0, 0)]);
}

#[test]
fn local_ports_cycle_through_range() {
    let mut n = Network::new(station(1));
    let mut previous = 0u16;
    for call in 0..24535u32 {
        let p = n.next_local_port();
        assert_ne!(p, 0);
        assert!(p >= 41000 && p < 65535);
        assert_eq!(p as u32, 41000 + call);
        previous = p;
    }
    assert_eq!(previous, 65534);
    assert_eq!(n.next_local_port(), 41000);
    assert_eq!(n.next_local_port(), 41001);
}

#[test]
fn scan_clamps_to_capacity() {
    let records: Vec<ApRecord> = (0..5).map(|i| record(b"net\0", -40 - i as i8, 3)).collect();
    let (found, count) = scan_n(2, 5, &records);
    assert_eq!(count, 2);
    assert_eq!(found.len(), 2);
    assert_eq!(found[0].ssid, b"net".to_vec());
    assert_eq!(found[0].signal_strength, 40);
    assert_eq!(found[1].signal_strength, 41);
    assert_eq!(found[1].auth_method, AuthMethod::WPA2Personal);
    assert_eq!(found[1].secondary_channel, SecondaryChannel::Above);
    assert_eq!(found[1].channel, 6);
    assert_eq!(found[1].bssid, [1, 2, 3, 4, 5, 6]);
}

#[test]
fn scan_of_nothing_is_empty() {
    let (found, count): (Vec<AccessPointInfo>, usize) = scan_n(4, 0, &vec![]);
    assert_eq!(count, 0);
    assert!(found.is_empty());
}

#[test]
fn scan_below_capacity_returns_all() {
    let records = vec![record(b"a\0", 0, 0), record(b"b\0", 127, 8)];
    let (found, count) = scan_n(8, 2, &records);
    assert_eq!(count, 2);
    assert_eq!(found[0].auth_method, AuthMethod::Open);
    assert_eq!(found[0].signal_strength, 0);
    assert_eq!(found[1].auth_method, AuthMethod::WAPIPersonal);
    assert_eq!(found[1].signal_strength, 127);
}

#[test]
fn record_codes() {
    assert_eq!(auth_method_from_code(1), Some(AuthMethod::WEP));
    assert_eq!(auth_method_from_code(7), Some(AuthMethod::WPA2WPA3Personal));
    assert_eq!(auth_method_from_code(9), None);
    assert_eq!(secondary_channel_from_code(0), Some(SecondaryChannel::Absent));
    assert_eq!(secondary_channel_from_code(2), Some(SecondaryChannel::Below));
    assert_eq!(secondary_channel_from_code(3), None);
    assert!(is_known_record(&record(b"x\0", -1, 5)));
    assert!(!is_known_record(&record(b"x\0", -1, 42)));
}

#[test]
fn ssid_and_signal_decoding() {
    assert_eq!(decode_ssid(&b"home\0junk".to_vec()), b"home".to_vec());
    assert_eq!(decode_ssid(&vec![0u8; 33]), Vec::<u8>::new());
    assert_eq!(decode_ssid(&vec![b'x'; 32]), vec![b'x'; 32]);
    assert_eq!(decode_ssid(&vec![b'x'; 33]), Vec::<u8>::new());
    assert_eq!(signal_strength(-128), 128);
    assert_eq!(signal_strength(-67), 67);
    assert_eq!(signal_strength(5), 5);
}

#[test]
fn status_waits_for_an_address() {
    let mut w = station(2);
    let connected_waiting =
        ClientStatus::Started(ClientConnectionStatus::Connected(ClientIpStatus::Waiting));
    assert_eq!(w.get_status(RadioState::StationConnected), connected_waiting);
    let mut bare = Wifi::new(vec![v6()], routes_with_room(1), &vec![]);
    assert_eq!(bare.get_status(RadioState::StationConnected), connected_waiting);
    bare.addresses.clear();

    let gw = Ipv4Addr::new(192, 168, 1, 1);
    let dns = Ipv4Addr::new(8, 8, 8, 8);
    let l = lease(Some(gw), vec![Some(dns), Some(Ipv4Addr::new(1, 1, 1, 1))]);
    assert_eq!(w.poll_dhcp(Some(DhcpEvent::Configured(l))), Ok(()));
    let expected = ClientStatus::Started(ClientConnectionStatus::Connected(ClientIpStatus::Done(
        ClientSettings {
            ip: Ipv4Addr::new(192, 168, 1, 50),
            gateway: gw,
            mask: 24,
            dns: Some(dns),
            secondary_dns: Some(Ipv4Addr::new(0, 0, 0, 0)),
        },
    )));
    assert_eq!(w.get_status(RadioState::StationConnected), expected);
}

#[test]
fn status_without_lease_details_reports_zero() {
    let mut w = station(2);
    assert_eq!(w.poll_dhcp(Some(DhcpEvent::Configured(lease(None, vec![None])))), Ok(()));
    let zero = Ipv4Addr::unspecified();
    let expected = ClientStatus::Started(ClientConnectionStatus::Connected(ClientIpStatus::Done(
        ClientSettings {
            ip: Ipv4Addr::new(192, 168, 1, 50),
            gateway: zero,
            mask: 24,
            dns: Some(zero),
            secondary_dns: Some(zero),
        },
    )));
    assert_eq!(w.get_status(RadioState::StationConnected), expected);
}

#[test]
fn status_of_other_radio_states() {
    let w = station(2);
    assert_eq!(w.get_status(RadioState::Uninitialized), ClientStatus::Stopped);
    assert_eq!(w.get_status(RadioState::StationStopped), ClientStatus::Stopped);
    assert_eq!(w.get_status(RadioState::Invalid), ClientStatus::Stopped);
    assert_eq!(w.get_status(RadioState::StationStarting), ClientStatus::Starting);
    assert_eq!(
        w.get_status(RadioState::StationDisconnected),
        ClientStatus::Started(ClientConnectionStatus::Disconnected)
    );
}

#[test]
fn configuration_and_connect_codes() {
    let mut w = station(1);
    assert_eq!(w.get_capabilities(), vec![Capability::Client]);
    let conf = Configuration::Client(ClientConfiguration {
        ssid: "home".to_string(),
        password: "SECRET-REDACTED".to_string(),
    });
    let sent = w.set_configuration(conf);
    assert_eq!(sent.ssid, "home");
    assert_eq!(sent.password, "SECRET-REDACTED");
    match w.get_configuration() {
        Configuration::Client(c) => assert_eq!(c.ssid, "home"),
        _ => panic!("client configuration expected"),
    }
    assert_eq!(Wifi::connect_result(0), Ok(()));
    assert_eq!(Wifi::connect_result(12306), Err(WifiError::Unknown(12306)));
    assert_eq!(Wifi::connect_result(-1), Err(WifiError::Unknown(-1)));
}

#[test]
fn open_uses_next_local_port() {
    let mut n = Network::new(station(1));
    let mut s = n.get_socket(1);
    let remote = Ipv4Addr::new(10, 0, 0, 2);
    let first = s.open(&mut n, remote, 80);
    assert_eq!(first.local_port, 41000);
    assert_eq!(first.remote_addr, remote);
    assert_eq!(first.remote_port, 80);
    assert_eq!(s.connection, Some(first));
    let second = s.open(&mut n, remote, 443);
    assert_eq!(second.local_port, 41001);
    assert_eq!(s.disconnect(), 0);
    assert_eq!(s.connection, None);
    let mut sendable = closed_flags();
    assert_eq!(Socket::open_wait(Ok(true), sendable), WaitOutcome::Pending);
    sendable.can_send = true;
    assert_eq!(Socket::open_wait(Ok(false), sendable), WaitOutcome::Ready);
    assert_eq!(
        Socket::open_wait(Err(StackError::Unaddressable), sendable),
        WaitOutcome::Failed(IoError::Other(StackError::Unaddressable))
    );
    assert_eq!(Socket::connect_result(Ok(())), Ok(()));
    assert_eq!(
        Socket::connect_result(Err(StackError::Illegal)),
        Err(IoError::Other(StackError::Illegal))
    );
}

#[test]
fn read_on_aborted_socket_fails_closed() {
    // the peer aborted before any byte came: the first wait step gives up
    let mut steps = 0;
    let outcome = loop {
        steps += 1;
        match Socket::read_wait(Ok(false), closed_flags()) {
            WaitOutcome::Pending => assert!(steps < 100),
            other => break other,
        }
    };
    assert_eq!(outcome, WaitOutcome::Failed(IoError::SocketClosed));
    assert_eq!(steps, 1);
}

#[test]
fn read_wait_outcomes() {
    let mut f = closed_flags();
    f.is_open = true;
    f.can_recv = true;
    assert_eq!(Socket::read_wait(Ok(true), f), WaitOutcome::Pending);
    f.can_recv = false;
    assert_eq!(Socket::read_wait(Ok(true), f), WaitOutcome::Failed(IoError::SocketClosed));
    f.may_recv = true;
    f.is_open = false;
    assert_eq!(Socket::read_wait(Ok(false), f), WaitOutcome::Ready);
    assert_eq!(
        Socket::read_wait(Err(StackError::Illegal), f),
        WaitOutcome::Failed(IoError::Other(StackError::Illegal))
    );
    assert_eq!(Socket::read_result(Ok(0)), Ok(0));
    assert_eq!(Socket::read_result(Ok(7)), Ok(7));
    assert_eq!(Socket::read_result(Err(StackError::Finished)), Err(IoError::Other(StackError::Finished)));
}

#[test]
fn write_wait_outcomes() {
    let mut f = closed_flags();
    assert_eq!(Socket::write_wait(Ok(false), f), WaitOutcome::Failed(IoError::SocketClosed));
    f.is_open = true;
    f.can_send = true;
    assert_eq!(Socket::write_wait(Ok(false), f), WaitOutcome::Pending);
    f.may_send = true;
    assert_eq!(Socket::write_wait(Ok(true), f), WaitOutcome::Ready);
    assert_eq!(
        Socket::write_wait(Err(StackError::Dropped), f),
        WaitOutcome::Failed(IoError::Other(StackError::Dropped))
    );
}

fn submit_all(len: usize, answers: &[Result<usize, StackError>]) -> (Result<usize, IoError>, usize) {
    let mut written = 0usize;
    let mut attempts = 0usize;
    loop {
        let answer = answers[attempts];
        attempts += 1;
        match Socket::write_progress(written, len, answer) {
            SendStep::Again(w) => written = w,
            SendStep::Finished(n) => return (Ok(n), attempts),
            SendStep::Failed(e) => return (Err(e), attempts),
        }
    }
}

#[test]
fn write_in_two_partial_submissions() {
    assert_eq!(submit_all(10, &[Ok(4), Ok(6)]), (Ok(10), 2));
    assert_eq!(Socket::write_progress(0, 10, Ok(4)), SendStep::Again(4));
    assert_eq!(Socket::write_progress(4, 10, Ok(6)), SendStep::Finished(10));
}

#[test]
fn write_fault_on_second_submission() {
    assert_eq!(
        submit_all(10, &[Ok(4), Err(StackError::Exhausted)]),
        (Err(IoError::Other(StackError::Exhausted)), 2)
    );
}

#[test]
fn write_of_nothing_takes_one_submission() {
    assert_eq!(submit_all(0, &[Ok(0)]), (Ok(0), 1));
}

#[test]
fn drain_and_flush_ends() {
    assert!(Network::drained(Ok(false)));
    assert!(!Network::drained(Ok(true)));
    assert!(!Network::drained(Err(StackError::Illegal)));
    assert!(Socket::flush_done(Ok(false)));
    assert!(!Socket::flush_done(Ok(true)));
    assert!(Socket::flush_done(Err(StackError::Illegal)));
}

#[test]
fn work_applies_pending_lease() {
    let mut n = Network::new(station(2));
    let gw = Ipv4Addr::new(192, 168, 1, 1);
    n.work(Some(DhcpEvent::Configured(lease(Some(gw), vec![]))));
    assert_eq!(default_gw(&mut n.interface.routes), Some(gw));
    assert_eq!(n.with_interface(|w| w.ipv4_addr()), Some(Ipv4Addr::new(192, 168, 1, 50)));
    let mut s = n.get_socket(1);
    s.work(&mut n, Some(DhcpEvent::Deconfigured));
    assert_eq!(default_gw(&mut n.interface.routes), None);
    assert_eq!(n.local_port, 41000);
}

#[test]
fn route_table_replaces_default() {
    // a table with room for one route takes a second lease's gateway in place of the first
    let mut w = station(1);
    let first = lease(Some(Ipv4Addr::new(1, 1, 1, 1)), vec![]);
    assert_eq!(w.poll_dhcp(Some(DhcpEvent::Configured(first))), Ok(()));
    let second = lease(Some(Ipv4Addr::new(2, 2, 2, 2)), vec![]);
    assert_eq!(w.poll_dhcp(Some(DhcpEvent::Configured(second))), Ok(()));
    assert_eq!(default_gw(&mut w.routes), Some(Ipv4Addr::new(2, 2, 2, 2)));
    assert_eq!(w.poll_dhcp(Some(DhcpEvent::Deconfigured)), Ok(()));
    assert_eq!(default_gw(&mut w.routes), None);
    assert_eq!(find_ipv4(&vec![v6(), v6(), v4(1, 2, 3, 4, 8)]), Some(2));
    assert_eq!(find_ipv4(&vec![v6()]), None);
    assert!(Ipv4Addr::unspecified().is_unspecified());
    assert!(!Ipv4Addr::new(0, 0, 0, 1).is_unspecified());
}
