use vstd::prelude::*;

verus! {

/// An IPv4 address, its four octets in network order.
#[derive(Clone, Copy, Debug, PartialEq, Eq, Structural)]
pub struct Ipv4Addr {
    pub a: u8,
    pub b: u8,
    pub c: u8,
    pub d: u8,
}

impl Ipv4Addr {
    pub open spec fn spec_is_unspecified(self) -> bool {
        self.a == 0 && self.b == 0 && self.c == 0 && self.d == 0
    }

    pub fn new(a: u8, b: u8, c: u8, d: u8) -> (r: Ipv4Addr)
        ensures
            r == (Ipv4Addr { a, b, c, d }),
    {
        Ipv4Addr { a, b, c, d }
    }

    /// The all-zero address `0.0.0.0`.
    pub fn unspecified() -> (r: Ipv4Addr)
        ensures
            r == (Ipv4Addr { a: 0, b: 0, c: 0, d: 0 }),
            r.spec_is_unspecified(),
    {
        Ipv4Addr { a: 0, b: 0, c: 0, d: 0 }
    }

    pub fn is_unspecified(&self) -> (r: bool)
        ensures
            r == self.spec_is_unspecified(),
    {
        self.a == 0 && self.b == 0 && self.c == 0 && self.d == 0
    }
}

/// An IPv4 address together with the length of its network prefix.
#[derive(Clone, Copy, Debug, PartialEq, Eq, Structural)]
pub struct Ipv4Cidr {
    pub address: Ipv4Addr,
    pub prefix_len: u8,
}

/// An IPv6 address as one 128-bit integer, with its prefix length.
#[derive(Clone, Copy, Debug, PartialEq, Eq, Structural)]
pub struct Ipv6Cidr {
    pub address: u128,
    pub prefix_len: u8,
}

/// One entry of an interface's address table.
#[derive(Clone, Copy, Debug, PartialEq, Eq, Structural)]
pub enum IpCidr {
    Ipv4(Ipv4Cidr),
    Ipv6(Ipv6Cidr),
}

impl IpCidr {
    pub open spec fn spec_is_ipv4(self) -> bool {
        self is Ipv4
    }

    pub fn is_ipv4(&self) -> (r: bool)
        ensures
            r == self.spec_is_ipv4(),
    {
        match self {
            IpCidr::Ipv4(_) => true,
            IpCidr::Ipv6(_) => false,
        }
    }
}

/// Failures that the protocol stack reports.
#[derive(Clone, Copy, Debug, PartialEq, Eq, Structural)]
pub enum StackError {
    Exhausted,
    Illegal,
    Unaddressable,
    Finished,
    Truncated,
    Checksum,
    Unrecognized,
    Fragmented,
    Malformed,
    Dropped,
    NotSupported,
}

/// An address table holds at most one IPv4 entry.
pub open spec fn at_most_one_ipv4(addrs: Seq<IpCidr>) -> bool {
    forall|i: int, j: int|
        0 <= i < addrs.len() && 0 <= j < addrs.len() && addrs[i].spec_is_ipv4()
            && addrs[j].spec_is_ipv4() ==> i == j
}

pub open spec fn is_first_ipv4(addrs: Seq<IpCidr>, i: int) -> bool {
    &&& 0 <= i < addrs.len()
    &&& addrs[i].spec_is_ipv4()
    &&& forall|j: int| 0 <= j < i ==> !addrs[j].spec_is_ipv4()
}

/// Position of the first IPv4 entry of an address table, if any.
pub open spec fn first_ipv4_index(addrs: Seq<IpCidr>) -> Option<int> {
    if exists|i: int| is_first_ipv4(addrs, i) {
        Some(choose|i: int| is_first_ipv4(addrs, i))
    } else {
        None
    }
}

/// The first position is unique.
pub proof fn lemma_first_ipv4_index(addrs: Seq<IpCidr>, i: int)
    requires
        is_first_ipv4(addrs, i),
    ensures
        first_ipv4_index(addrs) == Some(i),
{
    let k = choose|k: int| is_first_ipv4(addrs, k);
    assert(is_first_ipv4(addrs, k));
    if k < i {
        assert(!addrs[k].spec_is_ipv4());
    } else if i < k {
        assert(!addrs[i].spec_is_ipv4());
    }
}

/// Finds the first IPv4 entry of an address table.
pub fn find_ipv4(addrs: &Vec<IpCidr>) -> (r: Option<usize>)
    ensures
        match r {
            Some(i) => first_ipv4_index(addrs@) == Some(i as int) && is_first_ipv4(addrs@, i as int),
            None => first_ipv4_index(addrs@) is None && forall|j: int|
                0 <= j < addrs@.len() ==> !addrs@[j].spec_is_ipv4(),
        },
{
    let mut i: usize = 0;
    while i < addrs.len()
        invariant
            i <= addrs@.len(),
            forall|j: int| 0 <= j < i ==> !addrs@[j].spec_is_ipv4(),
        decreases addrs@.len() - i,
    {
        if addrs[i].is_ipv4() {
            proof {
                lemma_first_ipv4_index(addrs@, i as int);
            }
            return Some(i);
        }
        i = i + 1;
    }
    assert(!exists|k: int| is_first_ipv4(addrs@, k));
    None
}

} // verus!
