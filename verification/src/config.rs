use vstd::prelude::*;

use crate::address::{Ipv4Addr, SocketAddr, SocketAddrV4};
use crate::interface::Interface;
use crate::membership::Membership;

verus! {

/// The settings of a multicast socket.
#[derive(Debug, Clone, PartialEq, Eq)]
pub struct MulticastConfig {
    pub bind_addr: SocketAddr,
    pub memberships: Vec<Membership>,
    pub inbound_interface: Option<Interface>,
    pub outbound_interface: Option<Interface>,
    pub reuse_addr: bool,
    pub reuse_port: bool,
    pub loopback: bool,
    pub ttl: Option<u32>,
}

/// The default settings: bound to 0.0.0.0 port 0, no memberships, no
/// interfaces, address reuse on, port reuse off, loopback on, TTL 1.
pub open spec fn is_default_config(c: MulticastConfig) -> bool {
    &&& c.bind_addr == SocketAddr::V4(SocketAddrV4 { ip: Ipv4Addr(0, 0, 0, 0), port: 0 })
    &&& c.memberships@ == Seq::<Membership>::empty()
    &&& c.inbound_interface is None
    &&& c.outbound_interface is None
    &&& c.reuse_addr
    &&& !c.reuse_port
    &&& c.loopback
    &&& c.ttl == Some(1u32)
}

/// `a` and `b` agree on everything but their memberships.
pub open spec fn same_settings(a: MulticastConfig, b: MulticastConfig) -> bool {
    &&& a.bind_addr == b.bind_addr
    &&& a.inbound_interface == b.inbound_interface
    &&& a.outbound_interface == b.outbound_interface
    &&& a.reuse_addr == b.reuse_addr
    &&& a.reuse_port == b.reuse_port
    &&& a.loopback == b.loopback
    &&& a.ttl == b.ttl
}

impl Default for MulticastConfig {
    fn default() -> (r: Self)
        ensures
            is_default_config(r),
    {
        MulticastConfig {
            bind_addr: SocketAddr::V4(SocketAddrV4 { ip: Ipv4Addr(0, 0, 0, 0), port: 0 }),
            memberships: Vec::new(),
            inbound_interface: None,
            outbound_interface: None,
            reuse_addr: true,
            reuse_port: false,
            loopback: true,
            ttl: Some(1),
        }
    }
}

/// By default an IPv4 membership uses the interface 0.0.0.0 and an IPv6 one
/// the interface index 0, when the socket is set up and when a membership is
/// changed later, and the multicast TTL is 1.
pub proof fn law_default_interfaces(c: MulticastConfig)
    requires
        is_default_config(c),
    ensures
        crate::raw::interface_v4_choice(c.inbound_interface)
            == Ok::<Ipv4Addr, crate::error::MulticastError>(Ipv4Addr(0, 0, 0, 0)),
        crate::raw::interface_v6_choice(c.inbound_interface)
            == Ok::<u32, crate::error::MulticastError>(0u32),
        crate::socket::dynamic_interface_v4(c) == Ipv4Addr(0, 0, 0, 0),
        crate::socket::dynamic_index_v6(c) == 0,
        c.ttl == Some(1u32),
{
}

} // verus!
