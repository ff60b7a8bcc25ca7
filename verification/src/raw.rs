use vstd::prelude::*;

use crate::address::{
    ip_is_multicast, ipv4_is_multicast, ipv6_is_multicast, IpAddr, Ipv4Addr, Ipv6Addr, SocketAddr,
    SocketAddrV6,
};
use crate::config::MulticastConfig;
use crate::error::MulticastError;
use crate::interface::Interface;
use crate::membership::Membership;

verus! {

/// One socket option call, bind, or group membership change on a socket.
#[allow(inconsistent_fields)]
#[derive(Debug, Clone, Copy, PartialEq, Eq, Structural)]
pub enum SocketOp {
    ReuseAddress(bool),
    Bind(SocketAddr),
    MulticastLoopV4(bool),
    MulticastTtlV4(u32),
    MulticastIfV4(Ipv4Addr),
    MulticastLoopV6(bool),
    UnicastHopsV6(u32),
    MulticastIfV6(u32),
    JoinV4 { group: Ipv4Addr, interface: Ipv4Addr },
    JoinV6 { group: Ipv6Addr, index: u32 },
    LeaveV4 { group: Ipv4Addr, interface: Ipv4Addr },
    LeaveV6 { group: Ipv6Addr, index: u32 },
    Nonblocking(bool),
}

/// A step of the socket setup sequence: an operation to perform, or the
/// error with which the setup stops at that point.
#[derive(Debug)]
pub enum SetupStep {
    Perform(SocketOp),
    Reject(MulticastError),
}

pub open spec fn deref_interface(i: Option<&Interface>) -> Option<Interface> {
    match i {
        Some(x) => Some(*x),
        None => None,
    }
}

/// The IPv4 interface for a membership: 0.0.0.0 when none is given.
pub open spec fn interface_v4_choice(i: Option<Interface>) -> core::result::Result<Ipv4Addr, MulticastError> {
    match i {
        None => Ok(Ipv4Addr(0, 0, 0, 0)),
        Some(Interface::V4(addr)) => Ok(addr),
        Some(Interface::Name(_)) => Err(MulticastError::UnsupportedOption("interface name lookup")),
        Some(Interface::V6(_)) => Err(MulticastError::UnsupportedOption("ipv6 interface on ipv4 socket")),
    }
}

/// The IPv6 interface index for a membership: 0 when none is given.
pub open spec fn interface_v6_choice(i: Option<Interface>) -> core::result::Result<u32, MulticastError> {
    match i {
        None => Ok(0u32),
        Some(Interface::V6(index)) => Ok(index),
        Some(Interface::Name(_)) => Err(MulticastError::UnsupportedOption("interface name lookup")),
        Some(Interface::V4(_)) => Err(MulticastError::UnsupportedOption("ipv4 interface on ipv6 socket")),
    }
}

/// The step that joins membership `m` while the socket is set up.
pub open spec fn join_step(m: Membership, inbound: Option<Interface>) -> SetupStep {
    match m {
        Membership::AnySource { group: IpAddr::V4(g) } => match interface_v4_choice(inbound) {
            Err(e) => SetupStep::Reject(e),
            Ok(interface) => if !ipv4_is_multicast(g) {
                SetupStep::Reject(MulticastError::InvalidGroupAddress(IpAddr::V4(g)))
            } else {
                SetupStep::Perform(SocketOp::JoinV4 { group: g, interface })
            },
        },
        Membership::AnySource { group: IpAddr::V6(g) } => match interface_v6_choice(inbound) {
            Err(e) => SetupStep::Reject(e),
            Ok(index) => if !ipv6_is_multicast(g) {
                SetupStep::Reject(MulticastError::InvalidGroupAddress(IpAddr::V6(g)))
            } else {
                SetupStep::Perform(SocketOp::JoinV6 { group: g, index })
            },
        },
        Membership::SourceSpecific { .. } => SetupStep::Reject(
            MulticastError::UnsupportedOption("source-specific multicast"),
        ),
    }
}

/// The steps that set the multicast options of the bound socket, by the
/// family of its bind address.
pub open spec fn option_steps(c: MulticastConfig) -> Seq<SetupStep> {
    match c.bind_addr {
        SocketAddr::V4(_) => seq![SetupStep::Perform(SocketOp::MulticastLoopV4(c.loopback))] + (
        match c.ttl {
            Some(ttl) => seq![SetupStep::Perform(SocketOp::MulticastTtlV4(ttl))],
            None => Seq::empty(),
        }) + (match c.outbound_interface {
            Some(Interface::V4(addr)) => seq![SetupStep::Perform(SocketOp::MulticastIfV4(addr))],
            _ => Seq::empty(),
        }),
        SocketAddr::V6(_) => seq![SetupStep::Perform(SocketOp::MulticastLoopV6(c.loopback))] + (
        match c.ttl {
            Some(ttl) => if ttl > 255 {
                seq![SetupStep::Reject(MulticastError::UnsupportedOption("ipv6 ttl > 255"))]
            } else {
                seq![SetupStep::Perform(SocketOp::UnicastHopsV6(ttl))]
            },
            None => Seq::empty(),
        }) + (match c.outbound_interface {
            Some(Interface::V6(index)) => seq![SetupStep::Perform(SocketOp::MulticastIfV6(index))],
            _ => Seq::empty(),
        }),
    }
}

/// The join step of each membership, in order.
pub open spec fn membership_steps(ms: Seq<Membership>, inbound: Option<Interface>) -> Seq<SetupStep> {
    ms.map_values(|m: Membership| join_step(m, inbound))
}

/// The whole setup of a socket after it is created: address reuse, port
/// reuse (which this platform layer, like Winsock, gives by address reuse),
/// bind, multicast options, joins, and non-blocking mode. It is carried out
/// in order and stops at its first `Reject`.
pub open spec fn setup_steps(c: MulticastConfig) -> Seq<SetupStep> {
    (if c.reuse_addr { seq![SetupStep::Perform(SocketOp::ReuseAddress(true))] } else { Seq::empty() })
        + (if c.reuse_port { seq![SetupStep::Perform(SocketOp::ReuseAddress(true))] } else { Seq::empty() })
        + seq![SetupStep::Perform(SocketOp::Bind(c.bind_addr))]
        + option_steps(c)
        + membership_steps(c.memberships@, c.inbound_interface)
        + seq![SetupStep::Perform(SocketOp::Nonblocking(true))]
}

/// The group of `m`, which must be a multicast address.
pub fn membership_target(m: &Membership) -> (r: Result<IpAddr, MulticastError>)
    ensures
        ip_is_multicast(m.spec_group()) ==> r == Ok::<IpAddr, MulticastError>(m.spec_group()),
        !ip_is_multicast(m.spec_group()) ==> r == Err::<IpAddr, MulticastError>(
            MulticastError::InvalidGroupAddress(m.spec_group()),
        ),
{
    let group = m.group();
    if !group.is_multicast() {
        return Err(MulticastError::InvalidGroupAddress(group));
    }
    Ok(group)
}

pub fn default_interface_v4(interface: Option<&Interface>) -> (r: Result<Ipv4Addr, MulticastError>)
    ensures
        r == interface_v4_choice(deref_interface(interface)),
{
    match interface {
        None => Ok(Ipv4Addr::unspecified()),
        Some(Interface::V4(addr)) => Ok(*addr),
        Some(Interface::Name(_)) => Err(MulticastError::UnsupportedOption("interface name lookup")),
        Some(Interface::V6(_)) => Err(MulticastError::UnsupportedOption("ipv6 interface on ipv4 socket")),
    }
}

pub fn default_interface_v6(interface: Option<&Interface>) -> (r: Result<u32, MulticastError>)
    ensures
        r == interface_v6_choice(deref_interface(interface)),
{
    match interface {
        None => Ok(0),
        Some(Interface::V6(index)) => Ok(*index),
        Some(Interface::Name(_)) => Err(MulticastError::UnsupportedOption("interface name lookup")),
        Some(Interface::V4(_)) => Err(MulticastError::UnsupportedOption("ipv4 interface on ipv6 socket")),
    }
}

pub fn group_as_v6_socket(group: Ipv6Addr, port: u16, scope_id: u32) -> (r: SocketAddrV6)
    ensures
        r == (SocketAddrV6 { ip: group, port, flowinfo: 0, scope_id }),
{
    SocketAddrV6::new(group, port, 0, scope_id)
}

/// The setup step that joins `membership`.
pub fn membership_join_step(membership: &Membership, inbound: Option<&Interface>) -> (r: SetupStep)
    ensures
        r == join_step(*membership, deref_interface(inbound)),
{
    match membership {
        Membership::AnySource { group: IpAddr::V4(group) } => {
            match default_interface_v4(inbound) {
                Err(e) => SetupStep::Reject(e),
                Ok(interface) => match membership_target(membership) {
                    Err(e) => SetupStep::Reject(e),
                    Ok(_) => SetupStep::Perform(SocketOp::JoinV4 { group: *group, interface }),
                },
            }
        },
        Membership::AnySource { group: IpAddr::V6(group) } => {
            match default_interface_v6(inbound) {
                Err(e) => SetupStep::Reject(e),
                Ok(index) => match membership_target(membership) {
                    Err(e) => SetupStep::Reject(e),
                    Ok(_) => SetupStep::Perform(SocketOp::JoinV6 { group: *group, index }),
                },
            }
        },
        Membership::SourceSpecific { .. } => SetupStep::Reject(
            MulticastError::UnsupportedOption("source-specific multicast"),
        ),
    }
}

fn push_option_steps(config: &MulticastConfig, steps: &mut Vec<SetupStep>)
    ensures
        final(steps)@ == old(steps)@ + option_steps(*config),
{
    match config.bind_addr {
        SocketAddr::V4(_) => {
            steps.push(SetupStep::Perform(SocketOp::MulticastLoopV4(config.loopback)));
            if let Some(ttl) = config.ttl {
                steps.push(SetupStep::Perform(SocketOp::MulticastTtlV4(ttl)));
            }
            if let Some(Interface::V4(addr)) = &config.outbound_interface {
                steps.push(SetupStep::Perform(SocketOp::MulticastIfV4(*addr)));
            }
        },
        SocketAddr::V6(_) => {
            steps.push(SetupStep::Perform(SocketOp::MulticastLoopV6(config.loopback)));
            if let Some(ttl) = config.ttl {
                if ttl > 255 {
                    steps.push(SetupStep::Reject(MulticastError::UnsupportedOption("ipv6 ttl > 255")));
                } else {
                    steps.push(SetupStep::Perform(SocketOp::UnicastHopsV6(ttl)));
                }
            }
            if let Some(Interface::V6(index)) = &config.outbound_interface {
                steps.push(SetupStep::Perform(SocketOp::MulticastIfV6(*index)));
            }
        },
    }
    assert(final(steps)@ =~= old(steps)@ + option_steps(*config));
}

/// The setup sequence of a socket with settings `config`.
pub fn setup_plan(config: &MulticastConfig) -> (r: Vec<SetupStep>)
    ensures
        r@ == setup_steps(*config),
{
    let mut steps: Vec<SetupStep> = Vec::new();
    if config.reuse_addr {
        steps.push(SetupStep::Perform(SocketOp::ReuseAddress(true)));
    }
    if config.reuse_port {
        steps.push(SetupStep::Perform(SocketOp::ReuseAddress(true)));
    }
    steps.push(SetupStep::Perform(SocketOp::Bind(config.bind_addr)));
    push_option_steps(config, &mut steps);
    let ghost prefix = steps@;
    let ghost inbound = config.inbound_interface;
    let mut i: usize = 0;
    while i < config.memberships.len()
        invariant
            0 <= i <= config.memberships@.len(),
            inbound == config.inbound_interface,
            steps@ == prefix + membership_steps(config.memberships@.take(i as int), inbound),
        decreases config.memberships@.len() - i,
    {
        let step = membership_join_step(&config.memberships[i], config.inbound_interface.as_ref());
        steps.push(step);
        i = i + 1;
        assert(membership_steps(config.memberships@.take(i as int), inbound) =~= membership_steps(
            config.memberships@.take(i - 1),
            inbound,
        ).push(join_step(config.memberships@[i - 1], inbound)));
        assert(steps@ =~= prefix + membership_steps(config.memberships@.take(i as int), inbound));
    }
    assert(config.memberships@.take(i as int) =~= config.memberships@);
    steps.push(SetupStep::Perform(SocketOp::Nonblocking(true)));
    assert(steps@ =~= setup_steps(*config));
    steps
}

/// The number of address-reuse calls a setup makes before it binds: one for
/// `reuse_addr` and one for `reuse_port`.
pub open spec fn reuse_count(c: MulticastConfig) -> int {
    (if c.reuse_addr { 1int } else { 0int }) + (if c.reuse_port { 1int } else { 0int })
}

/// A setup opens with the reuse options and then binds: address reuse is
/// switched on first whenever `reuse_addr` is set, once more for `reuse_port`
/// (this platform layer gives port reuse by address reuse), and the step right
/// after them is the bind to the configured address. Without either option
/// the setup binds first.
pub proof fn law_reuse_before_bind(c: MulticastConfig)
    ensures
        forall|i: int| 0 <= i < reuse_count(c)
            ==> #[trigger] setup_steps(c)[i] == SetupStep::Perform(SocketOp::ReuseAddress(true)),
        setup_steps(c)[reuse_count(c)] == SetupStep::Perform(SocketOp::Bind(c.bind_addr)),
        c.reuse_addr ==> setup_steps(c)[0] == SetupStep::Perform(SocketOp::ReuseAddress(true)),
        c.reuse_port ==> setup_steps(c)[0] == SetupStep::Perform(SocketOp::ReuseAddress(true)),
        !c.reuse_addr && !c.reuse_port ==> setup_steps(c)[0] == SetupStep::Perform(SocketOp::Bind(c.bind_addr)),
{
    let a = if c.reuse_addr { seq![SetupStep::Perform(SocketOp::ReuseAddress(true))] } else { Seq::<SetupStep>::empty() };
    let p = if c.reuse_port { seq![SetupStep::Perform(SocketOp::ReuseAddress(true))] } else { Seq::<SetupStep>::empty() };
    let rest = option_steps(c) + membership_steps(c.memberships@, c.inbound_interface)
        + seq![SetupStep::Perform(SocketOp::Nonblocking(true))];
    assert(setup_steps(c) =~= a + p + seq![SetupStep::Perform(SocketOp::Bind(c.bind_addr))] + rest);
    assert((a + p).len() == reuse_count(c));
    assert forall|i: int| 0 <= i < reuse_count(c) implies #[trigger] setup_steps(c)[i]
        == SetupStep::Perform(SocketOp::ReuseAddress(true)) by {
        assert(setup_steps(c)[i] == (a + p)[i]);
        if i < a.len() {
            assert((a + p)[i] == a[i]);
        } else {
            assert((a + p)[i] == p[i - a.len()]);
        }
    }
    assert(setup_steps(c)[reuse_count(c)] == SetupStep::Perform(SocketOp::Bind(c.bind_addr)));
}

/// The multicast options follow the settings: right after the bind, the
/// setup sets multicast loopback to the configured `loopback` flag (on an
/// IPv4 or IPv6 socket by its family); a configured TTL comes next, as the
/// IPv4 multicast TTL, or on an IPv6 socket as the unicast hop limit when it
/// is at most 255 and otherwise as the refusal "ipv6 ttl > 255"; then an
/// outbound interface of the socket's family, `a` or `index`, is set. The
/// setup ends by making the socket non-blocking.
pub proof fn law_options_follow_settings(c: MulticastConfig, a: Ipv4Addr, index: u32)
    ensures
        c.bind_addr is V4 ==> setup_steps(c)[reuse_count(c) + 1]
            == SetupStep::Perform(SocketOp::MulticastLoopV4(c.loopback)),
        c.bind_addr is V6 ==> setup_steps(c)[reuse_count(c) + 1]
            == SetupStep::Perform(SocketOp::MulticastLoopV6(c.loopback)),
        c.bind_addr is V4 ==> option_steps(c)[0] == SetupStep::Perform(SocketOp::MulticastLoopV4(c.loopback)),
        c.bind_addr is V6 ==> option_steps(c)[0] == SetupStep::Perform(SocketOp::MulticastLoopV6(c.loopback)),
        c.bind_addr is V4 && c.ttl is Some ==> setup_steps(c)[reuse_count(c) + 2]
            == SetupStep::Perform(SocketOp::MulticastTtlV4(c.ttl->0)),
        c.bind_addr is V6 && c.ttl is Some && c.ttl->0 <= 255 ==> setup_steps(c)[reuse_count(c) + 2]
            == SetupStep::Perform(SocketOp::UnicastHopsV6(c.ttl->0)),
        c.bind_addr is V6 && c.ttl is Some && c.ttl->0 > 255 ==> setup_steps(c)[reuse_count(c) + 2]
            == SetupStep::Reject(MulticastError::UnsupportedOption("ipv6 ttl > 255")),
        (c.bind_addr is V4 && c.outbound_interface == Some(Interface::V4(a)))
            ==> setup_steps(c)[reuse_count(c) + 2 + (if c.ttl is Some { 1int } else { 0int })]
            == SetupStep::Perform(SocketOp::MulticastIfV4(a)),
        (c.bind_addr is V6 && c.outbound_interface == Some(Interface::V6(index)))
            ==> setup_steps(c)[reuse_count(c) + 2 + (if c.ttl is Some { 1int } else { 0int })]
            == SetupStep::Perform(SocketOp::MulticastIfV6(index)),
        setup_steps(c).last() == SetupStep::Perform(SocketOp::Nonblocking(true)),
{
    law_reuse_before_bind(c);
    let ra = if c.reuse_addr { seq![SetupStep::Perform(SocketOp::ReuseAddress(true))] } else { Seq::<SetupStep>::empty() };
    let rp = if c.reuse_port { seq![SetupStep::Perform(SocketOp::ReuseAddress(true))] } else { Seq::<SetupStep>::empty() };
    let head = ra + rp + seq![SetupStep::Perform(SocketOp::Bind(c.bind_addr))];
    let tail = membership_steps(c.memberships@, c.inbound_interface)
        + seq![SetupStep::Perform(SocketOp::Nonblocking(true))];
    assert(setup_steps(c) =~= head + option_steps(c) + tail);
    assert(head.len() == reuse_count(c) + 1);
    let o = option_steps(c);
    assert(o.len() >= 1);
    assert(setup_steps(c)[reuse_count(c) + 1] == o[0]);
    if c.ttl is Some {
        assert(o.len() >= 2);
        assert(setup_steps(c)[reuse_count(c) + 2] == o[1]);
    }
    let k = 1 + (if c.ttl is Some { 1int } else { 0int });
    if (c.bind_addr is V4 && c.outbound_interface == Some(Interface::V4(a)))
        || (c.bind_addr is V6 && c.outbound_interface == Some(Interface::V6(index))) {
        assert(o.len() == k + 1);
        assert(setup_steps(c)[reuse_count(c) + 1 + k] == o[k]);
    }
}

/// While a socket is set up, a membership is joined on the inbound
/// interface: an any-source IPv4 group that is multicast on the inbound IPv4
/// address (0.0.0.0 when none is given), an IPv6 one on the inbound IPv6 index
/// (0 when none is given). A group that is not multicast is refused as an
/// invalid group address, an inbound interface of the other family or given by
/// name is refused, and a source-specific membership is refused.
pub proof fn law_setup_join_uses_inbound_interface(
    inbound: Option<Interface>,
    g4: Ipv4Addr,
    g6: Ipv6Addr,
    a: Ipv4Addr,
    index: u32,
    source: IpAddr,
    group: IpAddr,
)
    ensures
        (ipv4_is_multicast(g4) && inbound == Some(Interface::V4(a)))
            ==> join_step(Membership::AnySource { group: IpAddr::V4(g4) }, inbound)
            == SetupStep::Perform(SocketOp::JoinV4 { group: g4, interface: a }),
        (ipv4_is_multicast(g4) && inbound is None)
            ==> join_step(Membership::AnySource { group: IpAddr::V4(g4) }, inbound)
            == SetupStep::Perform(SocketOp::JoinV4 { group: g4, interface: Ipv4Addr(0, 0, 0, 0) }),
        (!ipv4_is_multicast(g4) && (inbound is None || inbound == Some(Interface::V4(a))))
            ==> join_step(Membership::AnySource { group: IpAddr::V4(g4) }, inbound)
            == SetupStep::Reject(MulticastError::InvalidGroupAddress(IpAddr::V4(g4))),
        inbound == Some(Interface::V6(index))
            ==> join_step(Membership::AnySource { group: IpAddr::V4(g4) }, inbound)
            == SetupStep::Reject(MulticastError::UnsupportedOption("ipv6 interface on ipv4 socket")),
        (ipv6_is_multicast(g6) && inbound == Some(Interface::V6(index)))
            ==> join_step(Membership::AnySource { group: IpAddr::V6(g6) }, inbound)
            == SetupStep::Perform(SocketOp::JoinV6 { group: g6, index }),
        (ipv6_is_multicast(g6) && inbound is None)
            ==> join_step(Membership::AnySource { group: IpAddr::V6(g6) }, inbound)
            == SetupStep::Perform(SocketOp::JoinV6 { group: g6, index: 0 }),
        (!ipv6_is_multicast(g6) && (inbound is None || inbound == Some(Interface::V6(index))))
            ==> join_step(Membership::AnySource { group: IpAddr::V6(g6) }, inbound)
            == SetupStep::Reject(MulticastError::InvalidGroupAddress(IpAddr::V6(g6))),
        inbound == Some(Interface::V4(a))
            ==> join_step(Membership::AnySource { group: IpAddr::V6(g6) }, inbound)
            == SetupStep::Reject(MulticastError::UnsupportedOption("ipv4 interface on ipv6 socket")),
        join_step(Membership::SourceSpecific { group, source }, inbound)
            == SetupStep::Reject(MulticastError::UnsupportedOption("source-specific multicast")),
{
}

/// The steps before the joins: reuse options, bind, multicast options.
pub open spec fn steps_before_joins(c: MulticastConfig) -> Seq<SetupStep> {
    (if c.reuse_addr { seq![SetupStep::Perform(SocketOp::ReuseAddress(true))] } else { Seq::empty() })
        + (if c.reuse_port { seq![SetupStep::Perform(SocketOp::ReuseAddress(true))] } else { Seq::empty() })
        + seq![SetupStep::Perform(SocketOp::Bind(c.bind_addr))]
        + option_steps(c)
}

/// A setup that rejects nothing holds only any-source memberships of
/// multicast groups, each with an inbound interface of its family or none,
/// and, on an IPv6 socket, a TTL of at most 255.
pub proof fn law_accepted_setup_has_valid_memberships(c: MulticastConfig)
    requires
        forall|j: int| 0 <= j < setup_steps(c).len() ==> (#[trigger] setup_steps(c)[j]) is Perform,
    ensures
        forall|i: int| 0 <= i < c.memberships@.len() ==> {
            &&& (#[trigger] c.memberships@[i]) is AnySource
            &&& ip_is_multicast(c.memberships@[i].spec_group())
            &&& c.memberships@[i].spec_group() is V4 ==> interface_v4_choice(c.inbound_interface) is Ok
            &&& c.memberships@[i].spec_group() is V6 ==> interface_v6_choice(c.inbound_interface) is Ok
        },
        c.bind_addr is V6 ==> (c.ttl matches Some(t) ==> t <= 255),
{
    let pre = steps_before_joins(c);
    let ms = membership_steps(c.memberships@, c.inbound_interface);
    assert(setup_steps(c) == pre + ms + seq![SetupStep::Perform(SocketOp::Nonblocking(true))]);
    assert forall|i: int| 0 <= i < c.memberships@.len() implies {
        &&& (#[trigger] c.memberships@[i]) is AnySource
        &&& ip_is_multicast(c.memberships@[i].spec_group())
        &&& c.memberships@[i].spec_group() is V4 ==> interface_v4_choice(c.inbound_interface) is Ok
        &&& c.memberships@[i].spec_group() is V6 ==> interface_v6_choice(c.inbound_interface) is Ok
    } by {
        let k = pre.len() + i;
        assert(setup_steps(c)[k] == ms[i]);
        assert(ms[i] == join_step(c.memberships@[i], c.inbound_interface));
        assert(setup_steps(c)[k] is Perform);
    }
    if c.bind_addr is V6 {
        if let Some(t) = c.ttl {
            let head = (if c.reuse_addr { seq![SetupStep::Perform(SocketOp::ReuseAddress(true))] } else { Seq::empty() })
                + (if c.reuse_port { seq![SetupStep::Perform(SocketOp::ReuseAddress(true))] } else { Seq::empty() })
                + seq![SetupStep::Perform(SocketOp::Bind(c.bind_addr))];
            let k = head.len() + 1int;
            assert(option_steps(c)[1] == (if t > 255 {
                SetupStep::Reject(MulticastError::UnsupportedOption("ipv6 ttl > 255"))
            } else {
                SetupStep::Perform(SocketOp::UnicastHopsV6(t))
            }));
            assert(setup_steps(c)[k] == option_steps(c)[1]);
            assert(setup_steps(c)[k] is Perform);
        }
    }
}

} // verus!
