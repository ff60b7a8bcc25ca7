use vstd::prelude::*;

use crate::address::{IpAddr, Ipv4Addr, Ipv6Addr, SocketAddr, SocketAddrV4, SocketAddrV6};
use crate::config::MulticastConfig;
use crate::error::MulticastError;
use crate::interface::Interface;
use crate::membership::{Membership, MembershipSet};
use crate::raw::{group_as_v6_socket, SocketOp};
use crate::sys::perform;
use crate::trace::{CallLog, CallRecord, SocketCall, TracedSocket};

verus! {

/// A bound and configured multicast socket, with its settings and the set of
/// memberships it holds, ready to be handed to an asynchronous runtime.
pub struct PreparedSocket {
    pub socket: socket2::Socket,
    pub config: MulticastConfig,
    pub memberships: MembershipSet,
    /// The calls that set the socket up.
    pub setup_calls: CallLog,
}

/// The group that traffic is sent to: that of the first configured
/// membership.
pub open spec fn spec_primary_group(c: MulticastConfig) -> Option<IpAddr> {
    if c.memberships@.len() > 0 {
        Some(c.memberships@[0].spec_group())
    } else {
        None
    }
}

/// The scope id of IPv6 traffic: the index of the outbound interface, else
/// that of the inbound one, else 0.
pub open spec fn spec_ipv6_scope_id(c: MulticastConfig) -> u32 {
    match c.outbound_interface {
        Some(Interface::V6(index)) => index,
        _ => match c.inbound_interface {
            Some(Interface::V6(index)) => index,
            _ => 0,
        },
    }
}

/// The address that `send_to_group` sends to: the primary group at the bind
/// port, with the IPv6 scope id for an IPv6 group.
pub open spec fn spec_group_target(c: MulticastConfig) -> core::result::Result<SocketAddr, MulticastError> {
    match spec_primary_group(c) {
        None => Err(MulticastError::NoMembershipsConfigured),
        Some(IpAddr::V4(g)) => Ok(SocketAddr::V4(SocketAddrV4 { ip: g, port: c.bind_addr.spec_port() })),
        Some(IpAddr::V6(g)) => Ok(SocketAddr::V6(SocketAddrV6 {
            ip: g,
            port: c.bind_addr.spec_port(),
            flowinfo: 0,
            scope_id: spec_ipv6_scope_id(c),
        })),
    }
}

/// The interface of a membership change on a running socket: the inbound
/// IPv4 interface, else 0.0.0.0.
pub open spec fn dynamic_interface_v4(c: MulticastConfig) -> Ipv4Addr {
    match c.inbound_interface {
        Some(Interface::V4(addr)) => addr,
        _ => Ipv4Addr(0, 0, 0, 0),
    }
}

/// The interface index of a membership change on a running socket: the
/// inbound IPv6 index, else 0.
pub open spec fn dynamic_index_v6(c: MulticastConfig) -> u32 {
    match c.inbound_interface {
        Some(Interface::V6(index)) => index,
        _ => 0,
    }
}

/// The operation that joins (`join`) or leaves membership `m` on a running
/// socket. Source-specific memberships cannot be changed there.
pub open spec fn spec_membership_op(c: MulticastConfig, m: Membership, join: bool) -> core::result::Result<SocketOp, MulticastError> {
    match m {
        Membership::AnySource { group: IpAddr::V4(g) } => Ok(if join {
            SocketOp::JoinV4 { group: g, interface: dynamic_interface_v4(c) }
        } else {
            SocketOp::LeaveV4 { group: g, interface: dynamic_interface_v4(c) }
        }),
        Membership::AnySource { group: IpAddr::V6(g) } => Ok(if join {
            SocketOp::JoinV6 { group: g, index: dynamic_index_v6(c) }
        } else {
            SocketOp::LeaveV6 { group: g, index: dynamic_index_v6(c) }
        }),
        Membership::SourceSpecific { .. } => Err(
            MulticastError::UnsupportedOption("dynamic source-specific membership"),
        ),
    }
}

/// What joining `m` on a running socket whose memberships are `s` takes:
/// nothing when it is already held (`Ok(None)`), else the operation to carry
/// out before it is recorded.
pub open spec fn join_plan(c: MulticastConfig, s: Set<Membership>, m: Membership) -> core::result::Result<Option<SocketOp>, MulticastError> {
    if s.contains(m) {
        Ok(None)
    } else {
        match spec_membership_op(c, m, true) {
            Ok(op) => Ok(Some(op)),
            Err(e) => Err(e),
        }
    }
}

/// What leaving `m` takes: nothing when it is not held, else the operation
/// to carry out before it is forgotten.
pub open spec fn leave_plan(c: MulticastConfig, s: Set<Membership>, m: Membership) -> core::result::Result<Option<SocketOp>, MulticastError> {
    if !s.contains(m) {
        Ok(None)
    } else {
        match spec_membership_op(c, m, false) {
            Ok(op) => Ok(Some(op)),
            Err(e) => Err(e),
        }
    }
}

/// The group of the first configured membership.
pub fn primary_group(config: &MulticastConfig) -> (r: Option<IpAddr>)
    ensures
        r == spec_primary_group(*config),
{
    if config.memberships.len() > 0 {
        Some(config.memberships[0].group())
    } else {
        None
    }
}

pub fn ipv6_scope_id(config: &MulticastConfig) -> (r: u32)
    ensures
        r == spec_ipv6_scope_id(*config),
{
    match &config.outbound_interface {
        Some(Interface::V6(index)) => *index,
        _ => match &config.inbound_interface {
            Some(Interface::V6(index)) => *index,
            _ => 0,
        },
    }
}

/// The destination of group traffic.
pub fn group_target(config: &MulticastConfig) -> (r: Result<SocketAddr, MulticastError>)
    ensures
        match spec_group_target(*config) {
            Ok(a) => r matches Ok(b) && a == b,
            Err(_) => r matches Err(MulticastError::NoMembershipsConfigured),
        },
{
    let port = config.bind_addr.port();
    match primary_group(config) {
        None => Err(MulticastError::NoMembershipsConfigured),
        Some(IpAddr::V4(g)) => Ok(SocketAddr::V4(SocketAddrV4 { ip: g, port })),
        Some(IpAddr::V6(g)) => {
            let scope_id = ipv6_scope_id(config);
            Ok(SocketAddr::V6(group_as_v6_socket(g, port, scope_id)))
        },
    }
}

/// The operation that joins or leaves `m` on a running socket.
pub fn membership_op(config: &MulticastConfig, m: &Membership, join: bool) -> (r: Result<SocketOp, MulticastError>)
    ensures
        match spec_membership_op(*config, *m, join) {
            Ok(op) => r matches Ok(x) && x == op,
            Err(_) => r matches Err(MulticastError::UnsupportedOption(o))
                && o == "dynamic source-specific membership",
        },
{
    match m {
        Membership::AnySource { group: IpAddr::V4(g) } => {
            let interface = match &config.inbound_interface {
                Some(Interface::V4(addr)) => *addr,
                _ => Ipv4Addr::unspecified(),
            };
            if join {
                Ok(SocketOp::JoinV4 { group: *g, interface })
            } else {
                Ok(SocketOp::LeaveV4 { group: *g, interface })
            }
        },
        Membership::AnySource { group: IpAddr::V6(g) } => {
            let index = match &config.inbound_interface {
                Some(Interface::V6(index)) => *index,
                _ => 0,
            };
            if join {
                Ok(SocketOp::JoinV6 { group: *g, index })
            } else {
                Ok(SocketOp::LeaveV6 { group: *g, index })
            }
        },
        Membership::SourceSpecific { .. } => Err(
            MulticastError::UnsupportedOption("dynamic source-specific membership"),
        ),
    }
}

/// Decides a join of `m` on a running socket with settings `config` and
/// memberships `set`.
pub fn plan_join(config: &MulticastConfig, set: &MembershipSet, m: &Membership) -> (r: Result<Option<SocketOp>, MulticastError>)
    ensures
        match join_plan(*config, set@, *m) {
            Ok(x) => r matches Ok(y) && x == y,
            Err(_) => r matches Err(MulticastError::UnsupportedOption(o))
                && o == "dynamic source-specific membership",
        },
{
    if set.contains(m) {
        return Ok(None);
    }
    match membership_op(config, m, true) {
        Ok(op) => Ok(Some(op)),
        Err(e) => Err(e),
    }
}

/// Decides a leave of `m` on a running socket.
pub fn plan_leave(config: &MulticastConfig, set: &MembershipSet, m: &Membership) -> (r: Result<Option<SocketOp>, MulticastError>)
    ensures
        match leave_plan(*config, set@, *m) {
            Ok(x) => r matches Ok(y) && x == y,
            Err(_) => r matches Err(MulticastError::UnsupportedOption(o))
                && o == "dynamic source-specific membership",
        },
{
    if !set.contains(m) {
        return Ok(None);
    }
    match membership_op(config, m, false) {
        Ok(op) => Ok(Some(op)),
        Err(e) => Err(e),
    }
}

/// Records the outcome of the join operation of `m`: on success `m` is held,
/// on failure the memberships are unchanged and the system's error is
/// returned as `Io`.
pub fn finish_join(set: &mut MembershipSet, m: Membership, outcome: std::io::Result<()>) -> (r: Result<(), MulticastError>)
    ensures
        outcome is Ok ==> r is Ok && final(set)@ == old(set)@.insert(m),
        outcome matches Err(x) ==> r == Err::<(), MulticastError>(MulticastError::Io(x)) && final(set)@ == old(set)@,
{
    match outcome {
        Ok(()) => {
            set.insert(m);
            Ok(())
        },
        Err(e) => Err(MulticastError::Io(e)),
    }
}

/// Records the outcome of the leave operation of `m`: on success `m` is no
/// longer held, on failure the memberships are unchanged and the system's
/// error is returned as `Io`.
pub fn finish_leave(set: &mut MembershipSet, m: &Membership, outcome: std::io::Result<()>) -> (r: Result<(), MulticastError>)
    ensures
        outcome is Ok ==> r is Ok && final(set)@ == old(set)@.remove(*m),
        outcome matches Err(x) ==> r == Err::<(), MulticastError>(MulticastError::Io(x)) && final(set)@ == old(set)@,
{
    match outcome {
        Ok(()) => {
            set.remove(m);
            Ok(())
        },
        Err(e) => Err(MulticastError::Io(e)),
    }
}

/// A membership change carried out on socket `s` as `plan` says, with the memberships going
/// from `s0` to `s1` (`changed` where the change takes effect) and the calls
/// on the socket from `c0` to `c1`: with nothing to do, or a refused change,
/// no call is made and the memberships stay; otherwise the one planned call
/// is made, and its success changes the memberships while its error is
/// returned as `Io` and changes nothing.
pub open spec fn change_done(
    plan: core::result::Result<Option<SocketOp>, MulticastError>,
    s: socket2::Socket,
    c0: Seq<CallRecord>,
    c1: Seq<CallRecord>,
    s0: Set<Membership>,
    s1: Set<Membership>,
    changed: Set<Membership>,
    r: Result<(), MulticastError>,
) -> bool {
    match plan {
        Ok(None) => r is Ok && s1 == s0 && c1 == c0,
        Err(e) => r == Err::<(), MulticastError>(e) && s1 == s0 && c1 == c0,
        Ok(Some(op)) => {
            &&& c1.len() == c0.len() + 1
            &&& c1.drop_last() == c0
            &&& c1.last().call == SocketCall::Op(op)
            &&& c1.last().socket == Some(s)
            &&& c1.last().received == Seq::<u8>::empty()
            &&& c1.last().address is None
            &&& match c1.last().error {
                None => r is Ok && s1 == changed,
                Some(x) => r == Err::<(), MulticastError>(MulticastError::Io(x)) && s1 == s0,
            }
        },
    }
}

/// Joins `m` on a running socket with settings `config` whose memberships
/// are `set`: a membership already held is left as it is; a source-specific
/// one is refused; otherwise the join call is made and, where it succeeds,
/// `m` is recorded.
pub fn join_on(t: &mut TracedSocket, config: &MulticastConfig, set: &mut MembershipSet, m: Membership) -> (r: Result<(), MulticastError>)
    ensures
        final(t).socket() == old(t).socket(),
        change_done(
            join_plan(*config, old(set)@, m),
            old(t).socket(),
            old(t).calls(),
            final(t).calls(),
            old(set)@,
            final(set)@,
            old(set)@.insert(m),
            r,
        ),
{
    let op = match plan_join(config, set, &m) {
        Ok(Some(op)) => op,
        Ok(None) => return Ok(()),
        Err(e) => return Err(e),
    };
    let ghost c0 = t.calls();
    let outcome = perform(t, &op);
    assert(t.calls().drop_last() =~= c0);
    finish_join(set, m, outcome)
}

/// Leaves `m` on a running socket: a membership not held is left as it is; a
/// source-specific one is refused; otherwise the leave call is made and,
/// where it succeeds, `m` is forgotten.
pub fn leave_on(t: &mut TracedSocket, config: &MulticastConfig, set: &mut MembershipSet, m: &Membership) -> (r: Result<(), MulticastError>)
    ensures
        final(t).socket() == old(t).socket(),
        change_done(
            leave_plan(*config, old(set)@, *m),
            old(t).socket(),
            old(t).calls(),
            final(t).calls(),
            old(set)@,
            final(set)@,
            old(set)@.remove(*m),
            r,
        ),
{
    let op = match plan_leave(config, set, m) {
        Ok(Some(op)) => op,
        Ok(None) => return Ok(()),
        Err(e) => return Err(e),
    };
    let ghost c0 = t.calls();
    let outcome = perform(t, &op);
    assert(t.calls().drop_last() =~= c0);
    finish_leave(set, m, outcome)
}

/// Joining a membership that is already held asks for nothing and leaves
/// the memberships as they are.
pub proof fn law_duplicate_join_is_noop(c: MulticastConfig, s: Set<Membership>, m: Membership)
    requires
        s.contains(m),
    ensures
        join_plan(c, s, m) == Ok::<Option<SocketOp>, MulticastError>(None),
        s.insert(m) == s,
{
    assert(s.insert(m) =~= s);
}

/// Once a join of `m` is recorded, joining `m` again is a no-op.
pub proof fn law_join_is_idempotent(c: MulticastConfig, s: Set<Membership>, m: Membership)
    ensures
        join_plan(c, s.insert(m), m) == Ok::<Option<SocketOp>, MulticastError>(None),
        s.insert(m).insert(m) == s.insert(m),
{
    assert(s.insert(m).insert(m) =~= s.insert(m));
}

/// Leaving a membership that is not held asks for nothing and leaves the
/// memberships as they are.
pub proof fn law_leave_absent_is_noop(c: MulticastConfig, s: Set<Membership>, m: Membership)
    requires
        !s.contains(m),
    ensures
        leave_plan(c, s, m) == Ok::<Option<SocketOp>, MulticastError>(None),
        s.remove(m) == s,
{
    assert(s.remove(m) =~= s);
}

/// Joining an any-source membership that is not held and then leaving it:
/// the join asks for the join operation of its group and interface, the
/// leave for the matching leave operation, and the memberships end as they
/// began.
pub proof fn law_join_then_leave_restores(c: MulticastConfig, s: Set<Membership>, m: Membership)
    requires
        !s.contains(m),
        m is AnySource,
    ensures
        match m.spec_group() {
            IpAddr::V4(g) => {
                &&& join_plan(c, s, m) == Ok::<Option<SocketOp>, MulticastError>(
                    Some(SocketOp::JoinV4 { group: g, interface: dynamic_interface_v4(c) }),
                )
                &&& leave_plan(c, s.insert(m), m) == Ok::<Option<SocketOp>, MulticastError>(
                    Some(SocketOp::LeaveV4 { group: g, interface: dynamic_interface_v4(c) }),
                )
            },
            IpAddr::V6(g) => {
                &&& join_plan(c, s, m) == Ok::<Option<SocketOp>, MulticastError>(
                    Some(SocketOp::JoinV6 { group: g, index: dynamic_index_v6(c) }),
                )
                &&& leave_plan(c, s.insert(m), m) == Ok::<Option<SocketOp>, MulticastError>(
                    Some(SocketOp::LeaveV6 { group: g, index: dynamic_index_v6(c) }),
                )
            },
        },
        s.insert(m).remove(m) == s,
{
    assert(s.insert(m).remove(m) =~= s);
}

/// On a running socket `sock`, a successful join of an any-source membership
/// that is not held, followed by a successful leave of it, makes exactly two
/// calls, both on `sock`: the join of its group on the socket's interface,
/// then the matching leave; and the memberships end as they began.
pub proof fn law_join_then_leave_calls(
    c: MulticastConfig,
    m: Membership,
    sock: socket2::Socket,
    s0: Set<Membership>,
    s1: Set<Membership>,
    s2: Set<Membership>,
    c0: Seq<CallRecord>,
    c1: Seq<CallRecord>,
    c2: Seq<CallRecord>,
    r1: Result<(), MulticastError>,
    r2: Result<(), MulticastError>,
)
    requires
        !s0.contains(m),
        m is AnySource,
        change_done(join_plan(c, s0, m), sock, c0, c1, s0, s1, s0.insert(m), r1),
        change_done(leave_plan(c, s1, m), sock, c1, c2, s1, s2, s1.remove(m), r2),
        r1 is Ok,
        r2 is Ok,
    ensures
        s2 == s0,
        c2.len() == c0.len() + 2,
        c2.take(c0.len() as int) == c0,
        c2[c0.len() as int].call == SocketCall::Op(spec_membership_op(c, m, true)->Ok_0),
        c2[c0.len() + 1int].call == SocketCall::Op(spec_membership_op(c, m, false)->Ok_0),
        c2[c0.len() as int].error is None,
        c2[c0.len() + 1int].error is None,
        c2[c0.len() as int].socket == Some(sock),
        c2[c0.len() + 1int].socket == Some(sock),
{
    assert(s0.insert(m).remove(m) =~= s0);
    assert(c1 =~= c0.push(c1.last()));
    assert(c2 =~= c1.push(c2.last()));
    assert(c2.take(c0.len() as int) =~= c0);
    assert(c2[c0.len() as int] == c1.last());
}

/// A membership change on a running socket uses the inbound interface: an
/// IPv4 group is joined and left on the inbound IPv4 address, or on 0.0.0.0
/// when no IPv4 inbound interface is set; an IPv6 group on the inbound IPv6
/// index, or on index 0 when none is set. A membership that is not held is
/// joined with exactly that operation, and one that is held is left with the
/// matching one.
pub proof fn law_dynamic_change_uses_inbound_interface(
    c: MulticastConfig,
    s: Set<Membership>,
    g4: Ipv4Addr,
    g6: Ipv6Addr,
    a: Ipv4Addr,
    i: u32,
)
    ensures
        c.inbound_interface == Some(Interface::V4(a)) ==> {
            &&& spec_membership_op(c, Membership::AnySource { group: IpAddr::V4(g4) }, true)
                == Ok::<SocketOp, MulticastError>(SocketOp::JoinV4 { group: g4, interface: a })
            &&& spec_membership_op(c, Membership::AnySource { group: IpAddr::V4(g4) }, false)
                == Ok::<SocketOp, MulticastError>(SocketOp::LeaveV4 { group: g4, interface: a })
        },
        !(c.inbound_interface matches Some(Interface::V4(_))) ==> {
            &&& spec_membership_op(c, Membership::AnySource { group: IpAddr::V4(g4) }, true)
                == Ok::<SocketOp, MulticastError>(SocketOp::JoinV4 { group: g4, interface: Ipv4Addr(0, 0, 0, 0) })
            &&& spec_membership_op(c, Membership::AnySource { group: IpAddr::V4(g4) }, false)
                == Ok::<SocketOp, MulticastError>(SocketOp::LeaveV4 { group: g4, interface: Ipv4Addr(0, 0, 0, 0) })
        },
        c.inbound_interface == Some(Interface::V6(i)) ==> {
            &&& spec_membership_op(c, Membership::AnySource { group: IpAddr::V6(g6) }, true)
                == Ok::<SocketOp, MulticastError>(SocketOp::JoinV6 { group: g6, index: i })
            &&& spec_membership_op(c, Membership::AnySource { group: IpAddr::V6(g6) }, false)
                == Ok::<SocketOp, MulticastError>(SocketOp::LeaveV6 { group: g6, index: i })
        },
        !(c.inbound_interface matches Some(Interface::V6(_))) ==> {
            &&& spec_membership_op(c, Membership::AnySource { group: IpAddr::V6(g6) }, true)
                == Ok::<SocketOp, MulticastError>(SocketOp::JoinV6 { group: g6, index: 0 })
            &&& spec_membership_op(c, Membership::AnySource { group: IpAddr::V6(g6) }, false)
                == Ok::<SocketOp, MulticastError>(SocketOp::LeaveV6 { group: g6, index: 0 })
        },
        forall|m: Membership| m is AnySource ==> {
            &&& (!s.contains(m) ==> join_plan(c, s, m)
                == Ok::<Option<SocketOp>, MulticastError>(Some(spec_membership_op(c, m, true)->Ok_0)))
            &&& (s.contains(m) ==> leave_plan(c, s, m)
                == Ok::<Option<SocketOp>, MulticastError>(Some(spec_membership_op(c, m, false)->Ok_0)))
            &&& #[trigger] spec_membership_op(c, m, true) is Ok
        },
{
}

/// Group traffic to an IPv6 primary group carries a scope id: the index `i`
/// of the outbound IPv6 interface whenever one is set, else the index `j` of
/// the inbound IPv6 interface, else 0; it goes to the bind port with no flow label. An
/// IPv4 primary group is sent to at the bind port.
pub proof fn law_group_target_scope(c: MulticastConfig, i: u32, j: u32)
    requires
        c.memberships@.len() > 0,
    ensures
        c.memberships@[0].spec_group() matches IpAddr::V4(g) ==> spec_group_target(c)
            == Ok::<SocketAddr, MulticastError>(SocketAddr::V4(SocketAddrV4 { ip: g, port: c.bind_addr.spec_port() })),
        c.memberships@[0].spec_group() matches IpAddr::V6(g) ==> (spec_group_target(c) matches Ok(SocketAddr::V6(a))
            && a.ip == g && a.port == c.bind_addr.spec_port() && a.flowinfo == 0),
        (c.memberships@[0].spec_group() is V6 && c.outbound_interface == Some(Interface::V6(i)))
            ==> (spec_group_target(c) matches Ok(SocketAddr::V6(a)) && a.scope_id == i),
        (c.memberships@[0].spec_group() is V6 && !(c.outbound_interface matches Some(Interface::V6(_)))
            && c.inbound_interface == Some(Interface::V6(j)))
            ==> (spec_group_target(c) matches Ok(SocketAddr::V6(a)) && a.scope_id == j),
        (c.memberships@[0].spec_group() is V6 && !(c.outbound_interface matches Some(Interface::V6(_)))
            && !(c.inbound_interface matches Some(Interface::V6(_))))
            ==> (spec_group_target(c) matches Ok(SocketAddr::V6(a)) && a.scope_id == 0),
{
}

/// A source-specific membership cannot be joined on a running socket: the
/// join is refused and nothing is recorded.
pub proof fn law_dynamic_source_specific_join_is_refused(c: MulticastConfig, s: Set<Membership>, m: Membership)
    requires
        !s.contains(m),
        m is SourceSpecific,
    ensures
        join_plan(c, s, m) == Err::<Option<SocketOp>, MulticastError>(
            MulticastError::UnsupportedOption("dynamic source-specific membership"),
        ),
{
}

/// Group traffic goes to the primary group at the bind port.
pub proof fn law_group_target_uses_bind_port(c: MulticastConfig)
    requires
        c.memberships@.len() > 0,
    ensures
        spec_group_target(c) matches Ok(a) && a.spec_port() == c.bind_addr.spec_port()
            && (match a {
                SocketAddr::V4(v4) => IpAddr::V4(v4.ip),
                SocketAddr::V6(v6) => IpAddr::V6(v6.ip),
            }) == c.memberships@[0].spec_group(),
{
}

} // verus!
