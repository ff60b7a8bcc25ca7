use vstd::prelude::*;

use crate::address::SocketAddr;
use crate::config::MulticastConfig;
use crate::error::MulticastError;
use crate::interface::Interface;
use crate::membership::Membership;
use crate::raw::{
    deref_interface, join_step, membership_join_step, membership_steps, option_steps, setup_plan,
    setup_steps, steps_before_joins, SetupStep, SocketOp,
};
use crate::trace::{
    create_socket, error_of, on_socket, record, socket_bind_v4, socket_bind_v6, socket_join_multicast_v4,
    socket_join_multicast_v6, socket_leave_multicast_v4, socket_leave_multicast_v6,
    socket_local_addr, socket_send_to_v4, socket_send_to_v6, socket_set_multicast_if_v4,
    socket_set_multicast_if_v6, socket_set_multicast_loop_v4, socket_set_multicast_loop_v6,
    socket_set_multicast_ttl_v4, socket_set_nonblocking, socket_set_reuse_address,
    socket_set_unicast_hops_v6, CallLog, CallRecord, SocketCall,
    TracedSocket,
};

verus! {

/// `std::io::Error::other` with a message.
#[verifier::external_body]
pub(crate) fn io_error_other(message: String) -> std::io::Error {
    std::io::Error::other(message)
}

/// `std::io::Error::new` of kind `InvalidData` with a message.
#[verifier::external_body]
pub(crate) fn io_error_invalid_data(message: &'static str) -> std::io::Error {
    std::io::Error::new(std::io::ErrorKind::InvalidData, message)
}

/// `std::io::Error::new` of kind `InvalidInput` with a message.
#[verifier::external_body]
pub(crate) fn io_error_invalid_input(message: &'static str) -> std::io::Error {
    std::io::Error::new(std::io::ErrorKind::InvalidInput, message)
}

/// Binds the socket to `a`.
pub fn bind(t: &mut TracedSocket, a: &SocketAddr) -> (r: std::io::Result<()>)
    ensures
        final(t).socket() == old(t).socket(),
        final(t).calls() == old(t).calls().push(record(old(t).socket(), SocketCall::Op(SocketOp::Bind(*a)), r)),
{
    match a {
        SocketAddr::V4(v4) => socket_bind_v4(t, v4),
        SocketAddr::V6(v6) => socket_bind_v6(t, v6),
    }
}

/// Sends `payload` to `target`.
pub fn send_to(t: &mut TracedSocket, payload: &[u8], target: &SocketAddr) -> (r: std::io::Result<usize>)
    ensures
        final(t).socket() == old(t).socket(),
        final(t).calls() == old(t).calls().push(
            record(old(t).socket(), SocketCall::SendTo { payload: payload@, target: *target }, r),
        ),
{
    match target {
        SocketAddr::V4(v4) => socket_send_to_v4(t, payload, v4),
        SocketAddr::V6(v6) => socket_send_to_v6(t, payload, v6),
    }
}

/// The local address of the socket: one call, whose error is returned, and
/// otherwise the address it answered. A socket of these families always has
/// an IPv4 or IPv6 address; another is reported as an error.
pub fn local_addr(t: &mut TracedSocket) -> (r: std::io::Result<SocketAddr>)
    ensures
        final(t).socket() == old(t).socket(),
        final(t).calls().len() == old(t).calls().len() + 1,
        final(t).calls().drop_last() == old(t).calls(),
        final(t).calls().last().call == SocketCall::LocalAddr,
        final(t).calls().last().received == Seq::<u8>::empty(),
        final(t).calls().last().error matches Some(e) ==> r == Err::<SocketAddr, std::io::Error>(e),
        final(t).calls().last().address matches Some(a) ==> r == Ok::<SocketAddr, std::io::Error>(a),
        r is Ok ==> final(t).calls().last().address is Some,
{
    match socket_local_addr(t) {
        Ok(Some(a)) => Ok(a),
        Ok(None) => {
            let mut message = String::new();
            message.append("local address is neither IPv4 nor IPv6");
            Err(io_error_other(message))
        },
        Err(e) => Err(e),
    }
}

/// Turns port reuse on or off, so that several sockets can bind the same port
/// and each receive the multicast traffic of their groups. This platform
/// layer follows Winsock, which has no `SO_REUSEPORT`: port reuse is the one
/// `SO_REUSEADDR` call, whose error is returned as `Io`.
pub fn set_reuse_port(t: &mut TracedSocket, enabled: bool) -> (r: Result<(), MulticastError>)
    ensures
        final(t).socket() == old(t).socket(),
        final(t).calls() == old(t).calls().push(outcome_record(old(t).socket(), SocketCall::Op(SocketOp::ReuseAddress(enabled)), r)),
        r is Ok || r matches Err(MulticastError::Io(_)),
{
    match socket_set_reuse_address(t, enabled) {
        Ok(()) => Ok(()),
        Err(e) => Err(MulticastError::Io(e)),
    }
}

/// The I/O error that an `Io` or `BindFailed` error holds.
pub open spec fn io_source_of(e: MulticastError) -> std::io::Error
    recommends
        e is Io || e is BindFailed,
{
    match e {
        MulticastError::Io(x) => x,
        MulticastError::BindFailed { source, .. } => source,
        _ => arbitrary(),
    }
}

/// The record of `call`, made on socket `s`, whose outcome the library
/// reports as `r`: no error
/// for `Ok`, the I/O error that `r` holds otherwise.
pub open spec fn outcome_record(s: socket2::Socket, call: SocketCall, r: Result<(), MulticastError>) -> CallRecord {
    CallRecord {
        call,
        error: match r {
            Ok(_) => None,
            Err(e) => Some(io_source_of(e)),
        },
        received: Seq::empty(),
        address: None,
        socket: Some(s),
    }
}

/// The index of the IPv6 loopback interface, where the platform can tell it.
/// This platform layer does not look it up.
pub fn loopback_interface_v6() -> (r: Option<u32>)
    ensures
        r is None,
{
    None
}

/// Carries out one operation on the socket: exactly the socket2 call that
/// `op` names, with its arguments.
pub fn perform(t: &mut TracedSocket, op: &SocketOp) -> (r: std::io::Result<()>)
    ensures
        final(t).socket() == old(t).socket(),
        final(t).calls() == old(t).calls().push(record(old(t).socket(), SocketCall::Op(*op), r)),
{
    match op {
        SocketOp::ReuseAddress(on) => socket_set_reuse_address(t, *on),
        SocketOp::Bind(a) => bind(t, a),
        SocketOp::MulticastLoopV4(on) => socket_set_multicast_loop_v4(t, *on),
        SocketOp::MulticastTtlV4(ttl) => socket_set_multicast_ttl_v4(t, *ttl),
        SocketOp::MulticastIfV4(a) => socket_set_multicast_if_v4(t, a),
        SocketOp::MulticastLoopV6(on) => socket_set_multicast_loop_v6(t, *on),
        SocketOp::UnicastHopsV6(hops) => socket_set_unicast_hops_v6(t, *hops),
        SocketOp::MulticastIfV6(index) => socket_set_multicast_if_v6(t, *index),
        SocketOp::JoinV4 { group, interface } => socket_join_multicast_v4(t, group, interface),
        SocketOp::JoinV6 { group, index } => socket_join_multicast_v6(t, group, *index),
        SocketOp::LeaveV4 { group, interface } => socket_leave_multicast_v4(t, group, interface),
        SocketOp::LeaveV6 { group, index } => socket_leave_multicast_v6(t, group, *index),
        SocketOp::Nonblocking(on) => socket_set_nonblocking(t, *on),
    }
}

/// The error of a failed operation: `BindFailed` with the address for a bind,
/// else `Io`, each holding the system's error.
pub open spec fn op_error(op: SocketOp, source: std::io::Error) -> MulticastError {
    match op {
        SocketOp::Bind(addr) => MulticastError::BindFailed { addr, source },
        _ => MulticastError::Io(source),
    }
}

/// What the setup makes of the outcome of one operation.
pub fn after_operation(op: &SocketOp, outcome: std::io::Result<()>) -> (r: Result<(), MulticastError>)
    ensures
        match outcome {
            Ok(()) => r is Ok,
            Err(x) => r == Err::<(), MulticastError>(op_error(*op, x)),
        },
{
    match outcome {
        Ok(()) => Ok(()),
        Err(source) => match op {
            SocketOp::Bind(addr) => Err(MulticastError::BindFailed { addr: *addr, source }),
            _ => Err(MulticastError::Io(source)),
        },
    }
}

/// `c` records that `step` was carried out.
pub open spec fn performed(step: SetupStep, c: CallRecord) -> bool {
    match step {
        SetupStep::Perform(op) => c.call == SocketCall::Op(op) && c.received == Seq::<u8>::empty(),
        SetupStep::Reject(_) => false,
    }
}

/// `calls` are the calls that carrying out `steps` made, and `r` its result:
/// the steps are carried out in order; the first failed call ends the setup
/// with its error, as `op_error` says; a `Reject` reached ends it with its
/// error; otherwise every step is carried out and the result is `Ok`.
pub open spec fn setup_run(steps: Seq<SetupStep>, calls: Seq<CallRecord>, r: Result<(), MulticastError>) -> bool {
    &&& calls.len() <= steps.len()
    &&& forall|i: int| 0 <= i < calls.len() ==> performed(#[trigger] steps[i], calls[i])
    &&& forall|i: int| 0 <= i < calls.len() - 1 ==> (#[trigger] calls[i]).error is None
    &&& match r {
        Ok(()) => calls.len() == steps.len() && (calls.len() == 0 || calls.last().error is None),
        Err(e) => {
            ||| (calls.len() > 0 && calls.last().error is Some && (steps[calls.len() - 1] matches SetupStep::Perform(op)
                && e == op_error(op, calls.last().error->0)))
            ||| (calls.len() < steps.len() && (calls.len() == 0 || calls.last().error is None)
                && steps[calls.len() as int] == SetupStep::Reject(e))
        },
    }
}

/// Carries out `steps` on the socket in order, stopping at the first `Reject`
/// or failed operation.
pub fn run_setup(t: &mut TracedSocket, steps: Vec<SetupStep>) -> (r: Result<(), MulticastError>)
    ensures
        final(t).socket() == old(t).socket(),
        final(t).calls().len() >= old(t).calls().len(),
        final(t).calls().take(old(t).calls().len() as int) == old(t).calls(),
        setup_run(steps@, final(t).calls().skip(old(t).calls().len() as int), r),
{
    let ghost all = steps@;
    let ghost base = t.calls();
    let n = steps.len();
    let mut rest = steps;
    let mut k: usize = 0;
    while rest.len() > 0
        invariant
            0 <= k <= all.len(),
            all == steps@,
            n == all.len(),
            rest@ == all.skip(k as int),
            base == old(t).calls(),
            t.socket() == old(t).socket(),
            t.calls().len() == base.len() + k,
            t.calls().take(base.len() as int) == base,
            forall|i: int| 0 <= i < k ==> performed(#[trigger] all[i], t.calls()[base.len() + i]),
            forall|i: int| 0 <= i < k ==> (#[trigger] t.calls()[base.len() + i]).error is None,
        decreases rest@.len(),
    {
        assert(rest@.len() == all.len() - k);
        let step = rest.remove(0);
        assert(step == all[k as int]);
        match step {
            SetupStep::Reject(e) => {
                proof {
                    let new = t.calls().skip(base.len() as int);
                    assert(new.len() == k);
                    assert forall|i: int| 0 <= i < new.len() implies performed(#[trigger] all[i], new[i]) by {
                        assert(new[i] == t.calls()[base.len() + i]);
                    }
                    assert forall|i: int| 0 <= i < new.len() - 1 implies (#[trigger] new[i]).error is None by {
                        assert(new[i] == t.calls()[base.len() + i]);
                    }
                    if k > 0 {
                        assert(new.last() == t.calls()[base.len() + k - 1]);
                    }
                    assert(all[k as int] == SetupStep::Reject(e));
                }
                return Err(e);
            },
            SetupStep::Perform(op) => {
                let ghost before = t.calls();
                let outcome = perform(t, &op);
                let ghost failed = error_of(outcome);
                let done = after_operation(&op, outcome);
                proof {
                    assert(t.calls() == before.push(record(t.socket(), SocketCall::Op(op), outcome)));
                    assert(t.calls().take(base.len() as int) =~= base);
                    assert forall|i: int| 0 <= i < k + 1 implies performed(#[trigger] all[i], t.calls()[base.len() + i]) by {
                        if i < k {
                            assert(t.calls()[base.len() + i] == before[base.len() + i]);
                        }
                    }
                }
                match done {
                    Ok(()) => {},
                    Err(e) => {
                        proof {
                            let new = t.calls().skip(base.len() as int);
                            assert(new.len() == k + 1);
                            assert forall|i: int| 0 <= i < new.len() implies performed(#[trigger] all[i], new[i]) by {
                                assert(new[i] == t.calls()[base.len() + i]);
                            }
                            assert forall|i: int| 0 <= i < new.len() - 1 implies (#[trigger] new[i]).error is None by {
                                assert(new[i] == t.calls()[base.len() + i]);
                                assert(t.calls()[base.len() + i] == before[base.len() + i]);
                            }
                            assert(new.last() == t.calls().last());
                            assert(all[k as int] == SetupStep::Perform(op));
                        }
                        return Err(e);
                    },
                }
                proof {
                    assert forall|i: int| 0 <= i < k + 1 implies (#[trigger] t.calls()[base.len() + i]).error is None by {
                        if i < k {
                            assert(t.calls()[base.len() + i] == before[base.len() + i]);
                        }
                    }
                }
            },
        }
        k = k + 1;
        assert(rest@ =~= all.skip(k as int));
    }
    proof {
        let new = t.calls().skip(base.len() as int);
        assert(k == all.len());
        assert(new.len() == k);
        assert forall|i: int| 0 <= i < new.len() implies performed(#[trigger] all[i], new[i]) by {
            assert(new[i] == t.calls()[base.len() + i]);
        }
        assert forall|i: int| 0 <= i < new.len() - 1 implies (#[trigger] new[i]).error is None by {
            assert(new[i] == t.calls()[base.len() + i]);
        }
        if k > 0 {
            assert(new.last() == t.calls()[base.len() + k - 1]);
        }
    }
    Ok(())
}

/// What building a socket came to: the socket or the error, and the calls
/// made, from its creation on, with their outcomes.
pub struct BuildAttempt {
    pub result: Result<socket2::Socket, MulticastError>,
    pub calls: CallLog,
}

/// The result `r` without what it holds on success.
pub open spec fn outcome_of<T>(r: Result<T, MulticastError>) -> Result<(), MulticastError> {
    match r {
        Ok(_) => Ok(()),
        Err(e) => Err(e),
    }
}

/// `calls` are the calls that building a socket with `c` made, and `r` its
/// result: a socket of the family of the bind address is created; where that
/// fails, its error is returned as `Io` and nothing else is done; otherwise
/// the setup steps are carried out on that socket, every call on it, as
/// `setup_run` says.
pub open spec fn build_run(c: MulticastConfig, calls: Seq<CallRecord>, r: Result<(), MulticastError>) -> bool {
    &&& calls.len() >= 1
    &&& calls[0].call == SocketCall::Create { v6: c.bind_addr is V6 }
    &&& calls[0].received == Seq::<u8>::empty()
    &&& match calls[0].error {
        Some(x) => calls.len() == 1 && r == Err::<(), MulticastError>(MulticastError::Io(x)),
        None => {
            &&& calls[0].socket is Some
            &&& on_socket(calls, calls[0].socket->0)
            &&& setup_run(setup_steps(c), calls.drop_first(), r)
        },
    }
}

/// Creates a UDP socket of the family of `config.bind_addr` and sets it up
/// as `setup_steps(config)` says: options, bind, multicast options, joins,
/// non-blocking mode, stopping at the first failure or rejected step.
pub fn build_std_socket(config: &MulticastConfig) -> (r: BuildAttempt)
    ensures
        build_run(*config, r.calls.calls(), outcome_of(r.result)),
        r.result matches Ok(s) ==> r.calls.calls()[0].socket == Some(s),
{
    let (created, first) = create_socket(!config.bind_addr.is_ipv4());
    let socket = match created {
        Ok(socket) => socket,
        Err(e) => return BuildAttempt { result: Err(MulticastError::Io(e)), calls: first },
    };
    let steps = setup_plan(config);
    let mut traced = TracedSocket::new(&socket);
    let result = run_setup(&mut traced, steps);
    let calls = traced.log_after(first);
    assert(traced.calls().skip(0) =~= traced.calls());
    assert(calls.calls().drop_first() =~= traced.calls());
    match result {
        Ok(()) => BuildAttempt { result: Ok(socket), calls },
        Err(e) => BuildAttempt { result: Err(e), calls },
    }
}

/// A socket `s` that was built made every call of its setup, on `s` itself, in
/// order, and each succeeded: it was created in the family of its bind
/// address, bound to that address, joined each configured membership (the join of the membership's
/// step, in the order of the memberships), and was set non-blocking last.
pub proof fn law_built_socket_is_set_up(c: MulticastConfig, calls: Seq<CallRecord>, s: socket2::Socket)
    requires
        build_run(c, calls, Ok(())),
        calls[0].socket == Some(s),
    ensures
        on_socket(calls, s),
        calls.len() == setup_steps(c).len() + 1,
        calls[0].call == (SocketCall::Create { v6: c.bind_addr is V6 }),
        forall|i: int| 0 <= i < calls.len() ==> (#[trigger] calls[i]).error is None,
        forall|i: int| 0 <= i < setup_steps(c).len() ==> performed(#[trigger] setup_steps(c)[i], calls[i + 1]),
        exists|i: int| 0 < i < calls.len() && (#[trigger] calls[i]).call == SocketCall::Op(SocketOp::Bind(c.bind_addr)),
        forall|j: int| 0 <= j < c.memberships@.len() ==> {
            &&& join_step(#[trigger] c.memberships@[j], c.inbound_interface) is Perform
            &&& calls[1 + steps_before_joins(c).len() + j].call
                == SocketCall::Op(join_step(c.memberships@[j], c.inbound_interface)->Perform_0)
        },
        calls.last().call == SocketCall::Op(SocketOp::Nonblocking(true)),
{
    let steps = setup_steps(c);
    let rest = calls.drop_first();
    assert(calls[0].error is None);
    assert forall|i: int| 0 <= i < steps.len() implies performed(#[trigger] steps[i], calls[i + 1]) by {
        assert(rest[i] == calls[i + 1]);
    }
    assert forall|i: int| 0 <= i < calls.len() implies (#[trigger] calls[i]).error is None by {
        if i > 0 {
            assert(rest[i - 1] == calls[i]);
            if i - 1 < rest.len() - 1 {
                assert(rest[i - 1].error is None);
            } else {
                assert(rest[i - 1] == rest.last());
            }
        }
    }
    let head = (if c.reuse_addr { seq![SetupStep::Perform(SocketOp::ReuseAddress(true))] } else { Seq::<SetupStep>::empty() })
        + (if c.reuse_port { seq![SetupStep::Perform(SocketOp::ReuseAddress(true))] } else { Seq::<SetupStep>::empty() });
    let pre = steps_before_joins(c);
    let ms = membership_steps(c.memberships@, c.inbound_interface);
    assert(steps == pre + ms + seq![SetupStep::Perform(SocketOp::Nonblocking(true))]);
    assert(pre == head + seq![SetupStep::Perform(SocketOp::Bind(c.bind_addr))] + option_steps(c));
    assert(steps[head.len() as int] == SetupStep::Perform(SocketOp::Bind(c.bind_addr)));
    assert(performed(steps[head.len() as int], calls[head.len() + 1int]));
    assert(calls[head.len() + 1int].call == SocketCall::Op(SocketOp::Bind(c.bind_addr)));
    assert forall|j: int| 0 <= j < c.memberships@.len() implies {
        &&& join_step(#[trigger] c.memberships@[j], c.inbound_interface) is Perform
        &&& calls[1 + steps_before_joins(c).len() + j].call
            == SocketCall::Op(join_step(c.memberships@[j], c.inbound_interface)->Perform_0)
    } by {
        let k = pre.len() + j;
        assert(steps[k] == ms[j]);
        assert(ms[j] == join_step(c.memberships@[j], c.inbound_interface));
        assert(performed(steps[k], calls[k + 1]));
    }
    assert(steps[steps.len() - 1] == SetupStep::Perform(SocketOp::Nonblocking(true)));
    assert(performed(steps[steps.len() - 1], calls[steps.len() as int]));
}

/// Joins membership `m` on the socket, with the inbound interface `inbound`,
/// as `join_step` says: a rejected membership makes no call; otherwise the
/// one join call is made, and its error is returned as `Io`.
pub fn join_membership(t: &mut TracedSocket, m: &Membership, inbound: Option<&Interface>) -> (r: Result<(), MulticastError>)
    ensures
        final(t).socket() == old(t).socket(),
        match join_step(*m, deref_interface(inbound)) {
            SetupStep::Reject(x) => r == Err::<(), MulticastError>(x) && final(t).calls() == old(t).calls(),
            SetupStep::Perform(op) => {
                &&& final(t).calls() == old(t).calls().push(outcome_record(old(t).socket(), SocketCall::Op(op), r))
                &&& r is Ok || r matches Err(MulticastError::Io(_))
            },
        },
{
    match membership_join_step(m, inbound) {
        SetupStep::Reject(e) => Err(e),
        SetupStep::Perform(op) => {
            let outcome = perform(t, &op);
            match outcome {
                Ok(()) => Ok(()),
                Err(e) => Err(MulticastError::Io(e)),
            }
        },
    }
}

} // verus!
