use vstd::prelude::*;

use crate::text::{decimal, push_char, push_decimal};

verus! {

/// An IPv4 address, as its four octets in network order.
#[derive(Debug, Clone, Copy, PartialEq, Eq, Hash, Structural)]
pub struct Ipv4Addr(pub u8, pub u8, pub u8, pub u8);

/// An IPv6 address, as its eight 16-bit segments in network order.
#[derive(Debug, Clone, Copy, PartialEq, Eq, Hash, Structural)]
pub struct Ipv6Addr(pub u16, pub u16, pub u16, pub u16, pub u16, pub u16, pub u16, pub u16);

/// An IPv4 or IPv6 address.
#[derive(Debug, Clone, Copy, PartialEq, Eq, Hash, Structural)]
pub enum IpAddr {
    V4(Ipv4Addr),
    V6(Ipv6Addr),
}

/// An IPv4 address with a port.
#[derive(Debug, Clone, Copy, PartialEq, Eq, Hash, Structural)]
pub struct SocketAddrV4 {
    pub ip: Ipv4Addr,
    pub port: u16,
}

/// An IPv6 address with a port, a flow label and a scope (interface) id.
#[derive(Debug, Clone, Copy, PartialEq, Eq, Hash, Structural)]
pub struct SocketAddrV6 {
    pub ip: Ipv6Addr,
    pub port: u16,
    pub flowinfo: u32,
    pub scope_id: u32,
}

/// An IPv4 or IPv6 socket address.
#[derive(Debug, Clone, Copy, PartialEq, Eq, Hash, Structural)]
pub enum SocketAddr {
    V4(SocketAddrV4),
    V6(SocketAddrV6),
}

/// Whether an IPv4 address lies in 224.0.0.0/4.
pub open spec fn ipv4_is_multicast(a: Ipv4Addr) -> bool {
    224 <= a.0 && a.0 <= 239
}

/// Whether an IPv6 address lies in ff00::/8.
pub open spec fn ipv6_is_multicast(a: Ipv6Addr) -> bool {
    a.0 & 0xff00u16 == 0xff00u16
}

pub open spec fn ip_is_multicast(a: IpAddr) -> bool {
    match a {
        IpAddr::V4(v4) => ipv4_is_multicast(v4),
        IpAddr::V6(v6) => ipv6_is_multicast(v6),
    }
}

/// Dotted-decimal text of an IPv4 address.
pub open spec fn ipv4_text(a: Ipv4Addr) -> Seq<char> {
    decimal(a.0 as nat) + seq!['.'] + decimal(a.1 as nat) + seq!['.'] + decimal(a.2 as nat)
        + seq!['.'] + decimal(a.3 as nat)
}

/// The text that the standard library's `Display` gives an IPv6 address
/// (RFC 5952 form, with `::` for the longest run of zero segments).
pub uninterp spec fn ipv6_display(a: Ipv6Addr) -> Seq<char>;

pub open spec fn ip_text(a: IpAddr) -> Seq<char> {
    match a {
        IpAddr::V4(v4) => ipv4_text(v4),
        IpAddr::V6(v6) => ipv6_display(v6),
    }
}

/// Text of a socket address: `a.b.c.d:port`, `[ip]:port`, or
/// `[ip%scope]:port` when the scope id is not zero.
pub open spec fn socket_addr_text(a: SocketAddr) -> Seq<char> {
    match a {
        SocketAddr::V4(v4) => ipv4_text(v4.ip) + seq![':'] + decimal(v4.port as nat),
        SocketAddr::V6(v6) => seq!['['] + ipv6_display(v6.ip) + (if v6.scope_id == 0 {
            Seq::<char>::empty()
        } else {
            seq!['%'] + decimal(v6.scope_id as nat)
        }) + seq![']', ':'] + decimal(v6.port as nat),
    }
}

/// The standard library's text of an IPv6 address (`Ipv6Addr`'s `Display`).
#[verifier::external_body]
fn ipv6_std_text(a: &Ipv6Addr) -> (res: String)
    ensures
        res@ == ipv6_display(*a),
{
    let std_addr = ([a.0, a.1, a.2, a.3, a.4, a.5, a.6, a.7], 0u16).into();
    // `for_address` takes std's socket address type, which fixes that of `std_addr`.
    let _family = socket2::Domain::for_address(std_addr);
    std_addr.ip().to_string()
}

impl Ipv4Addr {
    pub fn new(a: u8, b: u8, c: u8, d: u8) -> (r: Ipv4Addr)
        ensures
            r == Ipv4Addr(a, b, c, d),
    {
        Ipv4Addr(a, b, c, d)
    }

    /// 0.0.0.0
    pub fn unspecified() -> (r: Ipv4Addr)
        ensures
            r == Ipv4Addr(0, 0, 0, 0),
    {
        Ipv4Addr(0, 0, 0, 0)
    }

    /// 127.0.0.1
    pub fn localhost() -> (r: Ipv4Addr)
        ensures
            r == Ipv4Addr(127, 0, 0, 1),
    {
        Ipv4Addr(127, 0, 0, 1)
    }

    pub fn octets(&self) -> (r: [u8; 4])
        ensures
            r@ == seq![self.0, self.1, self.2, self.3],
    {
        [self.0, self.1, self.2, self.3]
    }

    pub fn is_multicast(&self) -> (r: bool)
        ensures
            r == ipv4_is_multicast(*self),
    {
        224 <= self.0 && self.0 <= 239
    }

    /// Appends the dotted-decimal text of this address.
    pub(crate) fn push_text(&self, s: &mut String)
        ensures
            final(s)@ == old(s)@ + ipv4_text(*self),
    {
        push_decimal(s, self.0 as u64);
        push_char(s, '.');
        push_decimal(s, self.1 as u64);
        push_char(s, '.');
        push_decimal(s, self.2 as u64);
        push_char(s, '.');
        push_decimal(s, self.3 as u64);
        assert(final(s)@ =~= old(s)@ + ipv4_text(*self));
    }

    pub fn to_text(&self) -> (r: String)
        ensures
            r@ == ipv4_text(*self),
    {
        let mut s = String::new();
        self.push_text(&mut s);
        assert(s@ =~= ipv4_text(*self));
        s
    }
}

impl Ipv6Addr {
    pub fn new(a: u16, b: u16, c: u16, d: u16, e: u16, f: u16, g: u16, h: u16) -> (r: Ipv6Addr)
        ensures
            r == Ipv6Addr(a, b, c, d, e, f, g, h),
    {
        Ipv6Addr(a, b, c, d, e, f, g, h)
    }

    /// ::
    pub fn unspecified() -> (r: Ipv6Addr)
        ensures
            r == Ipv6Addr(0, 0, 0, 0, 0, 0, 0, 0),
    {
        Ipv6Addr(0, 0, 0, 0, 0, 0, 0, 0)
    }

    pub fn segments(&self) -> (r: [u16; 8])
        ensures
            r@ == seq![self.0, self.1, self.2, self.3, self.4, self.5, self.6, self.7],
    {
        [self.0, self.1, self.2, self.3, self.4, self.5, self.6, self.7]
    }

    pub fn is_multicast(&self) -> (r: bool)
        ensures
            r == ipv6_is_multicast(*self),
    {
        let first = self.0;
        assert(first & 0xff00u16 == 0xff00u16 <==> first >= 0xff00u16) by (bit_vector);
        first >= 0xff00
    }

    pub fn to_text(&self) -> (r: String)
        ensures
            r@ == ipv6_display(*self),
    {
        ipv6_std_text(self)
    }
}

impl IpAddr {
    pub fn is_multicast(&self) -> (r: bool)
        ensures
            r == ip_is_multicast(*self),
    {
        match self {
            IpAddr::V4(a) => a.is_multicast(),
            IpAddr::V6(a) => a.is_multicast(),
        }
    }

    pub fn is_ipv4(&self) -> (r: bool)
        ensures
            r == (*self is V4),
    {
        match self {
            IpAddr::V4(_) => true,
            IpAddr::V6(_) => false,
        }
    }

    pub fn to_text(&self) -> (r: String)
        ensures
            r@ == ip_text(*self),
    {
        match self {
            IpAddr::V4(a) => a.to_text(),
            IpAddr::V6(a) => a.to_text(),
        }
    }
}

impl SocketAddrV6 {
    pub fn new(ip: Ipv6Addr, port: u16, flowinfo: u32, scope_id: u32) -> (r: SocketAddrV6)
        ensures
            r == (SocketAddrV6 { ip, port, flowinfo, scope_id }),
    {
        SocketAddrV6 { ip, port, flowinfo, scope_id }
    }
}

impl SocketAddr {
    /// A socket address for `ip` and `port`; an IPv6 one has flow label and scope id 0.
    pub fn new(ip: IpAddr, port: u16) -> (r: SocketAddr)
        ensures
            r == (match ip {
                IpAddr::V4(a) => SocketAddr::V4(SocketAddrV4 { ip: a, port }),
                IpAddr::V6(a) => SocketAddr::V6(SocketAddrV6 { ip: a, port, flowinfo: 0, scope_id: 0 }),
            }),
    {
        match ip {
            IpAddr::V4(a) => SocketAddr::V4(SocketAddrV4 { ip: a, port }),
            IpAddr::V6(a) => SocketAddr::V6(SocketAddrV6 { ip: a, port, flowinfo: 0, scope_id: 0 }),
        }
    }

    pub fn v4(ip: Ipv4Addr, port: u16) -> (r: SocketAddr)
        ensures
            r == SocketAddr::V4(SocketAddrV4 { ip, port }),
    {
        SocketAddr::V4(SocketAddrV4 { ip, port })
    }

    pub fn v6(ip: Ipv6Addr, port: u16) -> (r: SocketAddr)
        ensures
            r == SocketAddr::V6(SocketAddrV6 { ip, port, flowinfo: 0, scope_id: 0 }),
    {
        SocketAddr::V6(SocketAddrV6 { ip, port, flowinfo: 0, scope_id: 0 })
    }

    pub fn ip(&self) -> (r: IpAddr)
        ensures
            r == (match *self {
                SocketAddr::V4(a) => IpAddr::V4(a.ip),
                SocketAddr::V6(a) => IpAddr::V6(a.ip),
            }),
    {
        match self {
            SocketAddr::V4(a) => IpAddr::V4(a.ip),
            SocketAddr::V6(a) => IpAddr::V6(a.ip),
        }
    }

    pub fn port(&self) -> (r: u16)
        ensures
            r == self.spec_port(),
    {
        match self {
            SocketAddr::V4(a) => a.port,
            SocketAddr::V6(a) => a.port,
        }
    }

    pub open spec fn spec_port(self) -> u16 {
        match self {
            SocketAddr::V4(a) => a.port,
            SocketAddr::V6(a) => a.port,
        }
    }

    pub fn is_ipv4(&self) -> (r: bool)
        ensures
            r == (*self is V4),
    {
        match self {
            SocketAddr::V4(_) => true,
            SocketAddr::V6(_) => false,
        }
    }

    /// Appends the text of this socket address.
    pub(crate) fn push_text(&self, s: &mut String)
        ensures
            final(s)@ == old(s)@ + socket_addr_text(*self),
    {
        match self {
            SocketAddr::V4(a) => {
                a.ip.push_text(s);
                push_char(s, ':');
                push_decimal(s, a.port as u64);
            },
            SocketAddr::V6(a) => {
                push_char(s, '[');
                let ip = a.ip.to_text();
                s.append(ip.as_str());
                if a.scope_id != 0 {
                    push_char(s, '%');
                    push_decimal(s, a.scope_id as u64);
                }
                push_char(s, ']');
                push_char(s, ':');
                push_decimal(s, a.port as u64);
            },
        }
        assert(final(s)@ =~= old(s)@ + socket_addr_text(*self));
    }

    pub fn to_text(&self) -> (r: String)
        ensures
            r@ == socket_addr_text(*self),
    {
        let mut s = String::new();
        self.push_text(&mut s);
        assert(s@ =~= socket_addr_text(*self));
        s
    }
}

} // verus!
