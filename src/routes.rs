use vstd::prelude::*;
use crate::net::{Ipv4Addr, Ipv4Cidr, StackError};

verus! {

#[verifier::external_type_specification]
#[verifier::external_body]
pub struct ExRoutes<'a>(smoltcp::iface::Routes<'a>);

/// The IPv4 routes that a routing table holds: gateway by destination.
pub uninterp spec fn ipv4_routes(routes: smoltcp::iface::Routes<'static>) -> Map<Ipv4Cidr, Ipv4Addr>;

/// The destination of the default IPv4 route, `0.0.0.0/0`.
pub open spec fn default_destination() -> Ipv4Cidr {
    Ipv4Cidr { address: Ipv4Addr { a: 0, b: 0, c: 0, d: 0 }, prefix_len: 0 }
}

/// The gateway of the default IPv4 route, if any.
pub open spec fn default_gateway(routes: smoltcp::iface::Routes<'static>) -> Option<Ipv4Addr> {
    if ipv4_routes(routes).contains_key(default_destination()) {
        Some(ipv4_routes(routes)[default_destination()])
    } else {
        None
    }
}

/// Relies on smoltcp's `Routes::add_default_ipv4_route`: it inserts the route
/// to `0.0.0.0/0` via `gateway`, replacing an existing one; where the storage
/// has no room it returns `Error::Exhausted` and leaves the table as it was.
#[verifier::external_body]
pub(crate) fn add_default_route(routes: &mut smoltcp::iface::Routes<'static>, gateway: Ipv4Addr) -> (r: Result<(), StackError>)
    ensures
        r is Ok ==> ipv4_routes(*final(routes)) == ipv4_routes(*old(routes)).insert(default_destination(), gateway),
        r is Err ==> r->Err_0 == StackError::Exhausted,
        r is Err ==> *final(routes) == *old(routes),
{
    let address = smoltcp::wire::Ipv4Address::new(gateway.a, gateway.b, gateway.c, gateway.d);
    match routes.add_default_ipv4_route(address) {
        Ok(_) => Ok(()),
        Err(_) => Err(StackError::Exhausted),
    }
}

/// Relies on smoltcp's `Routes::remove_default_ipv4_route`: it removes the
/// route to `0.0.0.0/0`, if there is one, and no other.
#[verifier::external_body]
pub(crate) fn remove_default_route(routes: &mut smoltcp::iface::Routes<'static>)
    ensures
        ipv4_routes(*final(routes)) == ipv4_routes(*old(routes)).remove(default_destination()),
{
    routes.remove_default_ipv4_route();
}

} // verus!
