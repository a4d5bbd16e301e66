//! Internet addresses.

use vstd::prelude::*;

use crate::text::{decimal, lemma_decimal_digits, push_decimal};

verus! {

/// An IP address, as the number that its octets make up in network order.
#[derive(Clone, Copy, Debug, PartialEq, Eq, Structural)]
pub enum IpAddr {
    V4(u32),
    V6(u128),
}

/// An IP address and a port.
#[allow(inconsistent_fields)]
#[derive(Clone, Copy, Debug, PartialEq, Eq, Structural)]
pub enum SocketAddr {
    V4 { ip: u32, port: u16 },
    V6 { ip: u128, port: u16, flowinfo: u32, scope_id: u32 },
}

/// The socket address of an IP address and a port, with no flow and no scope.
pub open spec fn socket_addr(ip: IpAddr, port: u16) -> SocketAddr {
    match ip {
        IpAddr::V4(ip) => SocketAddr::V4 { ip, port },
        IpAddr::V6(ip) => SocketAddr::V6 { ip, port, flowinfo: 0, scope_id: 0 },
    }
}

impl SocketAddr {
    pub open spec fn ip_spec(self) -> IpAddr {
        match self {
            SocketAddr::V4 { ip, .. } => IpAddr::V4(ip),
            SocketAddr::V6 { ip, .. } => IpAddr::V6(ip),
        }
    }

    pub open spec fn port_spec(self) -> u16 {
        match self {
            SocketAddr::V4 { port, .. } => port,
            SocketAddr::V6 { port, .. } => port,
        }
    }

    pub fn new(ip: IpAddr, port: u16) -> (addr: SocketAddr)
        ensures
            addr == socket_addr(ip, port),
    {
        match ip {
            IpAddr::V4(ip) => SocketAddr::V4 { ip, port },
            IpAddr::V6(ip) => SocketAddr::V6 { ip, port, flowinfo: 0, scope_id: 0 },
        }
    }

    pub fn ip(&self) -> (ip: IpAddr)
        ensures
            ip == self.ip_spec(),
    {
        match *self {
            SocketAddr::V4 { ip, .. } => IpAddr::V4(ip),
            SocketAddr::V6 { ip, .. } => IpAddr::V6(ip),
        }
    }

    pub fn port(&self) -> (port: u16)
        ensures
            port == self.port_spec(),
    {
        match *self {
            SocketAddr::V4 { port, .. } => port,
            SocketAddr::V6 { port, .. } => port,
        }
    }
}

/// The addresses of a list of socket addresses, in order.
pub fn ips_of(addrs: &Vec<SocketAddr>) -> (ips: Vec<IpAddr>)
    ensures
        ips@ == addrs@.map_values(|addr: SocketAddr| addr.ip_spec()),
{
    let mut ips: Vec<IpAddr> = Vec::new();
    let mut i: usize = 0;
    while i < addrs.len()
        invariant
            i <= addrs.len(),
            ips.len() == i,
            forall|j: int| 0 <= j < i ==> ips@[j] == addrs@[j].ip_spec(),
        decreases addrs.len() - i,
    {
        ips.push(addrs[i].ip());
        i = i + 1;
    }
    assert(ips@ == addrs@.map_values(|addr: SocketAddr| addr.ip_spec()));
    ips
}

/// A list of addresses with one port, in order.
pub fn with_port(ips: &Vec<IpAddr>, port: u16) -> (addrs: Vec<SocketAddr>)
    ensures
        addrs@ == ips@.map_values(|ip: IpAddr| socket_addr(ip, port)),
{
    let mut addrs: Vec<SocketAddr> = Vec::new();
    let mut i: usize = 0;
    while i < ips.len()
        invariant
            i <= ips.len(),
            addrs.len() == i,
            forall|j: int| 0 <= j < i ==> addrs@[j] == socket_addr(ips@[j], port),
        decreases ips.len() - i,
    {
        addrs.push(SocketAddr::new(ips[i], port));
        i = i + 1;
    }
    assert(addrs@ == ips@.map_values(|ip: IpAddr| socket_addr(ip, port)));
    addrs
}

/// The four octets of an IPv4 address in decimal, with dots between them.
pub open spec fn dotted_decimal(ip: u32) -> Seq<char> {
    let octets = ip as nat;
    decimal(octets / 0x1000000) + seq!['.'] + decimal(
        octets / 0x10000 % 0x100,
    ) + seq!['.'] + decimal(octets / 0x100 % 0x100) + seq!['.']
        + decimal(octets % 0x100)
}

/// The text of an IPv6 address.
pub uninterp spec fn ipv6_text(ip: u128) -> Seq<char>;

/// `AAAA` of `hickory_proto` is written as the IPv6 address in it, which std
/// writes as RFC 5952 describes: hexadecimal groups with colons between them,
/// the last two groups perhaps as a dotted IPv4 address, and no brackets
/// round the whole.
#[verifier::external_body]
fn ipv6_to_string(ip: u128) -> (text: String)
    ensures
        text@ == ipv6_text(ip),
        !text@.contains('['),
        !text@.contains(']'),
{
    hickory_proto::rr::rdata::AAAA(ip.into()).to_string()
}

/// The text of an IP address: an IPv4 address in dotted decimal, an IPv6
/// address without brackets.
pub open spec fn ip_text(ip: IpAddr) -> Seq<char> {
    match ip {
        IpAddr::V4(ip) => dotted_decimal(ip),
        IpAddr::V6(ip) => ipv6_text(ip),
    }
}

impl IpAddr {
    /// Writes the address as text, an IPv6 address without brackets.
    pub fn to_text(&self) -> (text: String)
        ensures
            text@ == ip_text(*self),
            !text@.contains('['),
            !text@.contains(']'),
    {
        match *self {
            IpAddr::V4(ip) => {
                let mut text = String::new();
                push_decimal(&mut text, ip / 0x1000000);
                text.push('.');
                push_decimal(&mut text, ip / 0x10000 % 0x100);
                text.push('.');
                push_decimal(&mut text, ip / 0x100 % 0x100);
                text.push('.');
                push_decimal(&mut text, ip % 0x100);
                assert(text@ == dotted_decimal(ip));
                proof {
                    lemma_decimal_digits(ip as nat / 0x1000000);
                    lemma_decimal_digits(ip as nat / 0x10000 % 0x100);
                    lemma_decimal_digits(ip as nat / 0x100 % 0x100);
                    lemma_decimal_digits(ip as nat % 0x100);
                }
                text
            },
            IpAddr::V6(ip) => ipv6_to_string(ip),
        }
    }
}

} // verus!
