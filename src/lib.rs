//! A blocking Wi-Fi station over a poll-driven network stack: the composite
//! connectivity status, the folding of DHCP leases into the address and route
//! tables, scan decoding, local-port allocation, and the decisions of the
//! blocking socket loops, each with a verified contract.

pub mod net;
pub mod routes;
pub mod wifi;
pub mod scan;
pub mod network;
pub mod socket;
