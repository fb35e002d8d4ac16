//! The addresses that the server listens on.
use vstd::prelude::*;

verus! {

/// An IPv4 address, as the big-endian number of its four octets.
#[derive(Clone, Copy, Debug, PartialEq, Eq, Structural)]
pub struct Ipv4Addr {
    pub bits: u32,
}

/// An IPv6 address, as the big-endian number of its sixteen octets.
#[derive(Clone, Copy, Debug, PartialEq, Eq, Structural)]
pub struct Ipv6Addr {
    pub bits: u128,
}

/// An address of either family.
#[derive(Clone, Copy, Debug, PartialEq, Eq, Structural)]
pub enum IpAddr {
    V4(Ipv4Addr),
    V6(Ipv6Addr),
}

/// An address and a port on it.
#[derive(Clone, Copy, Debug, PartialEq, Eq, Structural)]
pub struct SocketAddr {
    pub ip: IpAddr,
    pub port: u16,
}

impl Ipv4Addr {
    /// Whether the address lies in `127.0.0.0/8`.
    pub open spec fn loopback(self) -> bool {
        0x7f00_0000 <= self.bits <= 0x7fff_ffff
    }

    /// Whether this is a loopback address, `127.0.0.0/8`.
    pub fn is_loopback(&self) -> (res: bool)
        ensures
            res == self.loopback(),
    {
        0x7f00_0000 <= self.bits && self.bits <= 0x7fff_ffff
    }
}

impl Ipv6Addr {
    /// Whether the address is `::1`.
    pub open spec fn loopback(self) -> bool {
        self.bits == 1
    }

    /// Whether this is the loopback address, `::1`.
    pub fn is_loopback(&self) -> (res: bool)
        ensures
            res == self.loopback(),
    {
        self.bits == 1
    }
}

impl IpAddr {
    /// Whether only this host can reach the address.
    pub open spec fn loopback(self) -> bool {
        match self {
            IpAddr::V4(ip) => ip.loopback(),
            IpAddr::V6(ip) => ip.loopback(),
        }
    }

    /// Whether this is an IPv4 address.
    pub fn is_ipv4(&self) -> (res: bool)
        ensures
            res == (*self is V4),
    {
        match self {
            IpAddr::V4(_) => true,
            IpAddr::V6(_) => false,
        }
    }
}

/// The bits of `0.0.0.0`: every IPv4 address of this host.
pub const IPV4_UNSPECIFIED: u32 = 0;

/// The bits of `127.0.0.1`.
pub const IPV4_LOCALHOST: u32 = 0x7f00_0001;

/// The bits of `::`: every IPv6 address of this host.
pub const IPV6_UNSPECIFIED: u128 = 0;

/// The loopback addresses are those whose first octet is 127, and `::1`.
pub proof fn loopback_is_127_and_one(v4: &Ipv4Addr, v6: &Ipv6Addr, v4_res: bool, v6_res: bool)
    requires
        call_ensures(Ipv4Addr::is_loopback, (v4,), v4_res),
        call_ensures(Ipv6Addr::is_loopback, (v6,), v6_res),
    ensures
        v4_res <==> v4.bits as int / 0x100_0000 == 127,
        v6_res <==> v6.bits == 1,
        IpAddr::V4(*v4).loopback() <==> v4.bits as int / 0x100_0000 == 127,
        IpAddr::V6(*v6).loopback() <==> v6.bits == 1,
{
}

/// An address is an IPv4 one just where it is no IPv6 one.
pub proof fn families_are_told_apart(ip: &IpAddr, res: bool)
    requires
        call_ensures(IpAddr::is_ipv4, (ip,), res),
    ensures
        res <==> *ip is V4,
        !res <==> *ip is V6,
{
}

} // verus!
