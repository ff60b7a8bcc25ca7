use vstd::prelude::*;

use crate::address::{
    ip_text, ipv4_text, ipv6_display, ipv6_is_multicast, socket_addr_text, IpAddr, Ipv4Addr,
    Ipv6Addr, SocketAddr, SocketAddrV4, SocketAddrV6,
};
use crate::error::{io_error_text, MulticastError};
use crate::interface::Interface;
use crate::membership::Membership;
use crate::raw::{group_as_v6_socket, SocketOp};
use crate::sys::{
    bind, io_error_invalid_data, io_error_invalid_input, io_error_other, join_membership,
    local_addr, loopback_interface_v6, perform, send_to,
};
use crate::trace::{
    create_socket, on_socket, socket_recv, socket_set_read_timeout, socket_set_reuse_address,
    CallLog, CallRecord, SocketCall, TracedSocket,
};
use crate::text::{decimal, push_char, push_decimal};

verus! {

/// The groups, IPv6 interface and receive timeout that the diagnostics use.
#[derive(Debug, Clone, Copy)]
pub struct MulticastDiagnosticConfig {
    pub ipv4_group: Ipv4Addr,
    pub ipv6_group: Ipv6Addr,
    pub ipv6_interface: Option<u32>,
    pub timeout: std::time::Duration,
}

/// The duration of `ms` milliseconds.
pub uninterp spec fn duration_millis(ms: u64) -> std::time::Duration;

/// The `Debug` text of a duration, such as `500ms`.
pub uninterp spec fn duration_debug(d: std::time::Duration) -> Seq<char>;

/// `std::time::Duration::from_millis`: the duration of `ms` milliseconds.
#[verifier::external_body]
fn duration_from_millis(ms: u64) -> (r: std::time::Duration)
    ensures
        r == duration_millis(ms),
{
    std::time::Duration::from_millis(ms)
}

/// The `Debug` text of a duration (such as `500ms`), which depends on the
/// duration alone.
#[verifier::external_body]
fn duration_debug_text(d: &std::time::Duration) -> (r: String)
    ensures
        r@ == duration_debug(*d),
{
    format!("{:?}", d)
}

/// The whole number of nanoseconds of a duration.
pub uninterp spec fn duration_nanos(d: std::time::Duration) -> u128;

/// The duration of `us` microseconds.
pub uninterp spec fn duration_micros(us: u64) -> std::time::Duration;

/// `std::time::Duration::as_nanos`: the whole number of nanoseconds.
#[verifier::external_body]
fn duration_as_nanos(d: &std::time::Duration) -> (r: u128)
    ensures
        r == duration_nanos(*d),
{
    d.as_nanos()
}

/// `std::time::Duration::from_micros`: the duration of `us` microseconds.
#[verifier::external_body]
fn duration_from_micros(us: u64) -> (r: std::time::Duration)
    ensures
        r == duration_micros(us),
{
    std::time::Duration::from_micros(us)
}

/// `std::time::Duration::is_zero`: whether the duration is zero, which is
/// the duration of zero milliseconds.
#[verifier::external_body]
fn duration_is_zero(d: &std::time::Duration) -> (r: bool)
    ensures
        r == (*d == duration_millis(0)),
{
    d.is_zero()
}

impl Default for MulticastDiagnosticConfig {
    /// Groups 239.1.1.250 and ff02::114, the loopback IPv6 interface where
    /// the platform layer knows it, and a timeout of 500 ms.
    fn default() -> (r: Self)
        ensures
            r.ipv4_group == Ipv4Addr(239, 1, 1, 250),
            r.ipv6_group == Ipv6Addr(0xff02, 0, 0, 0, 0, 0, 0, 0x114),
            r.ipv6_interface is None,
            r.timeout == duration_millis(500),
    {
        MulticastDiagnosticConfig {
            ipv4_group: Ipv4Addr::new(239, 1, 1, 250),
            ipv6_group: Ipv6Addr::new(0xff02, 0, 0, 0, 0, 0, 0, 0x114),
            ipv6_interface: loopback_interface_v6(),
            timeout: duration_from_millis(500),
        }
    }
}

/// How far a probe got: socket created, bound, group joined, loopback
/// datagram sent, loopback datagram received.
#[derive(Debug, Clone, Copy)]
pub struct ProbeStages {
    pub socket_created: bool,
    pub bound: bool,
    pub joined: bool,
    pub loopback_sent: bool,
    pub loopback_received: bool,
}

impl Default for ProbeStages {
    fn default() -> (r: Self)
        ensures
            r == ProbeStages::reached(0),
    {
        ProbeStages {
            socket_created: false,
            bound: false,
            joined: false,
            loopback_sent: false,
            loopback_received: false,
        }
    }
}

impl ProbeStages {
    /// The first `n` stages reached and no other.
    pub open spec fn reached(n: nat) -> ProbeStages {
        ProbeStages {
            socket_created: n >= 1,
            bound: n >= 2,
            joined: n >= 3,
            loopback_sent: n >= 4,
            loopback_received: n >= 5,
        }
    }

    /// A stage is reached only when every earlier one is.
    pub open spec fn in_order(self) -> bool {
        &&& self.loopback_received ==> self.loopback_sent
        &&& self.loopback_sent ==> self.joined
        &&& self.joined ==> self.bound
        &&& self.bound ==> self.socket_created
    }
}

/// Why a probe failed.
#[derive(Debug, Clone, Copy, PartialEq, Eq, Structural)]
pub enum ProbeErrorKind {
    Unavailable,
    SocketCreate,
    Bind,
    Join,
    Send,
    Receive,
    InvalidData,
    Other,
}

/// The outcome of one probe.
#[derive(Debug, Clone)]
pub struct ProbeResult {
    pub label: &'static str,
    pub supported: bool,
    pub stages: ProbeStages,
    pub error_kind: Option<ProbeErrorKind>,
    pub details: Option<String>,
    pub error: Option<String>,
}

impl ProbeResult {
    /// A probe that got through.
    pub fn success(label: &'static str, stages: ProbeStages, details: String) -> (r: Self)
        ensures
            r.label == label,
            r.supported,
            r.stages == stages,
            r.error_kind is None,
            r.details == Some(details),
            r.error is None,
    {
        ProbeResult { label, supported: true, stages, error_kind: None, details: Some(details), error: None }
    }

    /// A probe that failed with `error_kind` and the message `error`.
    pub fn failure(
        label: &'static str,
        stages: ProbeStages,
        error_kind: ProbeErrorKind,
        error: String,
        details: Option<String>,
    ) -> (r: Self)
        ensures
            r.label == label,
            !r.supported,
            r.stages == stages,
            r.error_kind == Some(error_kind),
            r.details == details,
            r.error == Some(error),
    {
        ProbeResult { label, supported: false, stages, error_kind: Some(error_kind), details, error: Some(error) }
    }
}

/// The outcome of the IPv4 and IPv6 probes.
#[derive(Debug, Clone)]
pub struct MulticastDiagnostics {
    pub ipv4: ProbeResult,
    pub ipv6: ProbeResult,
}

impl MulticastDiagnostics {
    /// Whether either family works.
    pub fn supported(&self) -> (r: bool)
        ensures
            r == (self.ipv4.supported || self.ipv6.supported),
    {
        self.ipv4.supported || self.ipv6.supported
    }
}

/// A step of a loopback probe, which is where it stops when it fails.
#[derive(Debug, Clone, Copy, PartialEq, Eq, Structural)]
pub enum ProbeStep {
    CreateReceiver,
    ReceiverReuseAddress,
    BindReceiver,
    JoinGroup,
    SetReadTimeout,
    ReceiverAddress,
    CreateSender,
    BindSender,
    SenderInterface,
    SenderLoopback,
    SenderAddress,
    Send,
    Receive,
    CheckPayload,
}

impl ProbeStep {
    /// The position of the step in a probe.
    pub open spec fn index(self) -> nat {
        match self {
            ProbeStep::CreateReceiver => 0,
            ProbeStep::ReceiverReuseAddress => 1,
            ProbeStep::BindReceiver => 2,
            ProbeStep::JoinGroup => 3,
            ProbeStep::SetReadTimeout => 4,
            ProbeStep::ReceiverAddress => 5,
            ProbeStep::CreateSender => 6,
            ProbeStep::BindSender => 7,
            ProbeStep::SenderInterface => 8,
            ProbeStep::SenderLoopback => 9,
            ProbeStep::SenderAddress => 10,
            ProbeStep::Send => 11,
            ProbeStep::Receive => 12,
            ProbeStep::CheckPayload => 13,
        }
    }

    /// The stages reached when the probe fails at this step.
    pub open spec fn spec_stages(self) -> ProbeStages {
        ProbeStages::reached(
            if self.index() == 0 { 0 }
            else if self.index() <= 2 { 1 }
            else if self.index() == 3 { 2 }
            else if self.index() <= 11 { 3 }
            else { 4 },
        )
    }

    /// The kind of failure at this step.
    pub open spec fn spec_kind(self) -> ProbeErrorKind {
        match self {
            ProbeStep::CreateReceiver | ProbeStep::CreateSender => ProbeErrorKind::SocketCreate,
            ProbeStep::BindReceiver | ProbeStep::BindSender => ProbeErrorKind::Bind,
            ProbeStep::JoinGroup => ProbeErrorKind::Join,
            ProbeStep::Send => ProbeErrorKind::Send,
            ProbeStep::Receive => ProbeErrorKind::Receive,
            ProbeStep::CheckPayload => ProbeErrorKind::InvalidData,
            _ => ProbeErrorKind::Other,
        }
    }

    pub fn stages(&self) -> (r: ProbeStages)
        ensures
            r == self.spec_stages(),
    {
        let n: u8 = match self {
            ProbeStep::CreateReceiver => 0,
            ProbeStep::ReceiverReuseAddress | ProbeStep::BindReceiver => 1,
            ProbeStep::JoinGroup => 2,
            ProbeStep::Receive | ProbeStep::CheckPayload => 4,
            _ => 3,
        };
        ProbeStages {
            socket_created: n >= 1,
            bound: n >= 2,
            joined: n >= 3,
            loopback_sent: n >= 4,
            loopback_received: false,
        }
    }

    pub fn kind(&self) -> (r: ProbeErrorKind)
        ensures
            r == self.spec_kind(),
    {
        match self {
            ProbeStep::CreateReceiver | ProbeStep::CreateSender => ProbeErrorKind::SocketCreate,
            ProbeStep::BindReceiver | ProbeStep::BindSender => ProbeErrorKind::Bind,
            ProbeStep::JoinGroup => ProbeErrorKind::Join,
            ProbeStep::Send => ProbeErrorKind::Send,
            ProbeStep::Receive => ProbeErrorKind::Receive,
            ProbeStep::CheckPayload => ProbeErrorKind::InvalidData,
            _ => ProbeErrorKind::Other,
        }
    }
}

/// A probe that got through: the local addresses of its receiver and sender
/// sockets, and the calls made on each.
pub struct ProbeSuccess {
    pub receiver_addr: SocketAddr,
    pub sender_addr: SocketAddr,
    pub receiver_calls: CallLog,
    pub sender_calls: CallLog,
}

/// Where and how a probe failed, the addresses known by then, and the calls
/// made on each socket.
pub struct ProbeFailure {
    pub step: ProbeStep,
    pub stages: ProbeStages,
    pub kind: ProbeErrorKind,
    pub error: std::io::Error,
    pub details: Option<String>,
    pub receiver_addr: Option<SocketAddr>,
    pub sender_addr: Option<SocketAddr>,
    pub receiver_calls: CallLog,
    pub sender_calls: CallLog,
}

pub open spec fn receiver_text(r: SocketAddr) -> Seq<char> {
    "receiver bound at "@ + socket_addr_text(r)
}

pub open spec fn pair_text(r: SocketAddr, s: SocketAddr) -> Seq<char> {
    receiver_text(r) + ", sender bound at "@ + socket_addr_text(s)
}

pub open spec fn pair_ifindex_text(r: SocketAddr, s: SocketAddr, ifindex: u32) -> Seq<char> {
    pair_text(r, s) + ", ifindex "@ + decimal(ifindex as nat)
}

pub open spec fn text_of(o: Option<String>) -> Option<Seq<char>> {
    match o {
        Some(s) => Some(s@),
        None => None,
    }
}

/// The unspecified IPv4 address at port 0.
pub open spec fn any_v4() -> SocketAddr {
    SocketAddr::V4(SocketAddrV4 { ip: Ipv4Addr(0, 0, 0, 0), port: 0 })
}

/// The unspecified IPv6 address at port 0.
pub open spec fn any_v6() -> SocketAddr {
    SocketAddr::V6(SocketAddrV6 { ip: Ipv6Addr(0, 0, 0, 0, 0, 0, 0, 0), port: 0, flowinfo: 0, scope_id: 0 })
}

/// The calls on the receiver of the IPv4 probe: creation, address reuse, bind to
/// 0.0.0.0:0, join `group` on 0.0.0.0, read timeout, local address, receive
/// into 16 bytes.
pub open spec fn ipv4_receiver_plan(group: Ipv4Addr, timeout: std::time::Duration) -> Seq<SocketCall> {
    seq![
        SocketCall::Create { v6: false },
        SocketCall::Op(SocketOp::ReuseAddress(true)),
        SocketCall::Op(SocketOp::Bind(any_v4())),
        SocketCall::Op(SocketOp::JoinV4 { group, interface: Ipv4Addr(0, 0, 0, 0) }),
        SocketCall::ReadTimeout(read_timeout(timeout)),
        SocketCall::LocalAddr,
        SocketCall::Recv { capacity: 16 },
    ]
}

/// The calls on the sender of the IPv4 probe: creation, bind to 0.0.0.0:0, loopback on,
/// local address, send the payload to `group` at the receiver's `port`.
pub open spec fn ipv4_sender_plan(group: Ipv4Addr, port: u16) -> Seq<SocketCall> {
    seq![
        SocketCall::Create { v6: false },
        SocketCall::Op(SocketOp::Bind(any_v4())),
        SocketCall::Op(SocketOp::MulticastLoopV4(true)),
        SocketCall::LocalAddr,
        SocketCall::SendTo {
            payload: probe_payload(),
            target: SocketAddr::V4(SocketAddrV4 { ip: group, port }),
        },
    ]
}

/// The calls on the receiver of the IPv6 probe: as for IPv4, bound to [::]:0
/// and joining `group` on interface `ifindex`.
pub open spec fn ipv6_receiver_plan(group: Ipv6Addr, ifindex: u32, timeout: std::time::Duration) -> Seq<SocketCall> {
    seq![
        SocketCall::Create { v6: true },
        SocketCall::Op(SocketOp::ReuseAddress(true)),
        SocketCall::Op(SocketOp::Bind(any_v6())),
        SocketCall::Op(SocketOp::JoinV6 { group, index: ifindex }),
        SocketCall::ReadTimeout(read_timeout(timeout)),
        SocketCall::LocalAddr,
        SocketCall::Recv { capacity: 16 },
    ]
}

/// The calls on the sender of the IPv6 probe: creation, bind to [::]:0, outbound
/// interface `ifindex`, loopback on, local address, send the payload to
/// `group` at the receiver's `port` with scope id `ifindex`.
pub open spec fn ipv6_sender_plan(group: Ipv6Addr, ifindex: u32, port: u16) -> Seq<SocketCall> {
    seq![
        SocketCall::Create { v6: true },
        SocketCall::Op(SocketOp::Bind(any_v6())),
        SocketCall::Op(SocketOp::MulticastIfV6(ifindex)),
        SocketCall::Op(SocketOp::MulticastLoopV6(true)),
        SocketCall::LocalAddr,
        SocketCall::SendTo {
            payload: probe_payload(),
            target: SocketAddr::V6(SocketAddrV6 { ip: group, port, flowinfo: 0, scope_id: ifindex }),
        },
    ]
}

/// The first `k` calls of `plan` were made, in order, and all succeeded.
pub open spec fn ran(log: Seq<CallRecord>, plan: Seq<SocketCall>, k: nat) -> bool {
    &&& log.len() == k
    &&& k <= plan.len()
    &&& forall|i: int| 0 <= i < k ==> (#[trigger] log[i]).call == plan[i] && log[i].error is None
}

/// The first `k` calls of `plan` were made, in order; all but the last
/// succeeded and the last failed with `e`.
pub open spec fn stopped(log: Seq<CallRecord>, plan: Seq<SocketCall>, k: nat, e: std::io::Error) -> bool {
    &&& 1 <= k <= plan.len()
    &&& ran(log.drop_last(), plan, (k - 1) as nat)
    &&& log.len() == k
    &&& log.last().call == plan[k - 1]
    &&& log.last().error == Some(e)
}

/// The local-address call `k` of `plan` was the last one made, and the probe
/// stopped there: with the call's error, or, where the call succeeded, because
/// the address was of neither family.
pub open spec fn stopped_at_address(log: Seq<CallRecord>, plan: Seq<SocketCall>, k: nat, e: std::io::Error) -> bool {
    &&& 1 <= k <= plan.len()
    &&& ran(log.drop_last(), plan, (k - 1) as nat)
    &&& log.len() == k
    &&& log.last().call == plan[k - 1]
    &&& log.last().error is Some ==> log.last().error == Some(e)
}

/// One more planned call that succeeded extends a run.
proof fn lemma_ran_push(log: Seq<CallRecord>, plan: Seq<SocketCall>, k: nat, c: CallRecord)
    requires
        ran(log, plan, k),
        k < plan.len(),
        c.call == plan[k as int],
        c.error is None,
    ensures
        ran(log.push(c), plan, k + 1),
{
    assert forall|i: int| 0 <= i < k + 1 implies (#[trigger] log.push(c)[i]).call == plan[i]
        && log.push(c)[i].error is None by {
        if i < k {
            assert(log.push(c)[i] == log[i]);
        }
    }
}

/// One more planned call that failed ends a run there.
proof fn lemma_stopped_push(log: Seq<CallRecord>, plan: Seq<SocketCall>, k: nat, c: CallRecord, e: std::io::Error)
    requires
        ran(log, plan, k),
        k < plan.len(),
        c.call == plan[k as int],
        c.error == Some(e),
    ensures
        stopped(log.push(c), plan, k + 1, e),
        stopped_at_address(log.push(c), plan, k + 1, e),
{
    assert(log.push(c).drop_last() =~= log);
}

/// Where planned call `k` of a run is made as the last call of `now`, after
/// the calls `base` and `before`: the run goes on where the call succeeded
/// and stops there where it failed.
proof fn step_facts(base: Seq<CallRecord>, before: Seq<CallRecord>, plan: Seq<SocketCall>, k: nat, now: Seq<CallRecord>)
    requires
        ran(base + before, plan, k),
        k < plan.len(),
        now == before.push(now.last()),
        now.last().call == plan[k as int],
    ensures
        now.last().error is None ==> ran(base + now, plan, k + 1),
        now.last().error matches Some(e) ==> stopped(base + now, plan, k + 1, e),
{
    assert(base + now =~= (base + before).push(now.last()));
    if now.last().error is None {
        lemma_ran_push(base + before, plan, k, now.last());
    }
    if let Some(e) = now.last().error {
        lemma_stopped_push(base + before, plan, k, now.last(), e);
    }
}

/// Where the planned local-address call `k` is made as the last call of
/// `now`, after the calls `base` and `before`.
proof fn address_facts(base: Seq<CallRecord>, before: Seq<CallRecord>, plan: Seq<SocketCall>, k: nat, now: Seq<CallRecord>)
    requires
        ran(base + before, plan, k),
        k < plan.len(),
        now.len() == before.len() + 1,
        now.drop_last() == before,
        now.last().call == plan[k as int],
    ensures
        now.last().error is None ==> ran(base + now, plan, k + 1),
{
    assert(now =~= before.push(now.last()));
    assert(base + now =~= (base + before).push(now.last()));
    if now.last().error is None {
        lemma_ran_push(base + before, plan, k, now.last());
    }
}

/// Where the planned local-address call `k` is made as the last call of
/// `now` and the probe stops there with `e`, the call's error if it had one.
proof fn address_stop(base: Seq<CallRecord>, before: Seq<CallRecord>, plan: Seq<SocketCall>, k: nat, now: Seq<CallRecord>, e: std::io::Error)
    requires
        ran(base + before, plan, k),
        k < plan.len(),
        now.len() == before.len() + 1,
        now.drop_last() == before,
        now.last().call == plan[k as int],
        now.last().error is Some ==> now.last().error == Some(e),
    ensures
        stopped_at_address(base + now, plan, k + 1, e),
{
    assert(now =~= before.push(now.last()));
    assert(base + now =~= (base + before).push(now.last()));
    assert((base + now).drop_last() =~= base + before);
}

/// Where the creation, planned call 0, is the one call of `log`.
proof fn creation_facts(log: Seq<CallRecord>, plan: Seq<SocketCall>)
    requires
        log.len() == 1,
        log[0].call == plan[0],
        plan.len() > 0,
    ensures
        log[0].error is None ==> ran(log, plan, 1),
        log[0].error matches Some(e) ==> stopped(log, plan, 1, e),
{
    let empty = Seq::<CallRecord>::empty();
    assert(log =~= empty.push(log[0]));
    if log[0].error is None {
        lemma_ran_push(empty, plan, 0, log[0]);
    }
    if let Some(e) = log[0].error {
        lemma_stopped_push(empty, plan, 0, log[0], e);
    }
}

/// The read timeout set for `d`: as std's sockets do, a duration under a
/// microsecond is set as one microsecond (a zero timeval would mean no
/// timeout at all).
pub open spec fn read_timeout(d: std::time::Duration) -> std::time::Duration {
    if duration_nanos(d) < 1000 {
        duration_micros(1)
    } else {
        d
    }
}

/// The std library refuses a zero read timeout: `std::time::Duration::ZERO`,
/// which is `from_millis(0)`.
pub open spec fn zero_timeout(d: std::time::Duration) -> bool {
    d == duration_millis(0)
}

/// Where the creation that opens `log` succeeded, every call of `log` was
/// made on the socket it created.
pub open spec fn one_socket(log: Seq<CallRecord>) -> bool {
    log.len() > 0 && log[0].error is None ==> log[0].socket is Some && on_socket(log, log[0].socket->0)
}

/// How the IPv4 probe of `group` with `timeout` can end, whatever the
/// network does: a success made every planned call, each succeeded, and the
/// datagram received was the payload; a failure stopped at its step, after
/// the earlier calls succeeded, with that call's error, and carries the
/// details of the addresses known by then.
pub open spec fn ipv4_outcome(group: Ipv4Addr, timeout: std::time::Duration, r: Result<ProbeSuccess, ProbeFailure>) -> bool {
    let rp = ipv4_receiver_plan(group, timeout);
    match r {
        Ok(s) => {
            &&& one_socket(s.receiver_calls.calls())
            &&& one_socket(s.sender_calls.calls())
            &&& ran(s.receiver_calls.calls(), rp, 7)
            &&& s.receiver_calls.calls()[5].address == Some(s.receiver_addr)
            &&& s.receiver_calls.calls()[6].received == probe_payload()
            &&& ran(s.sender_calls.calls(), ipv4_sender_plan(group, s.receiver_addr.spec_port()), 5)
            &&& s.sender_calls.calls()[3].address == Some(s.sender_addr)
        },
        Err(f) => {
            let rx = f.receiver_calls.calls();
            let tx = f.sender_calls.calls();
            let ra = f.receiver_addr->0;
            let sa = f.sender_addr->0;
            let tp = ipv4_sender_plan(group, ra.spec_port());
            &&& one_socket(rx)
            &&& one_socket(tx)
            &&& f.stages == f.step.spec_stages()
            &&& f.kind == f.step.spec_kind()
            &&& f.step.index() < 6 ==> f.details is None && f.receiver_addr is None && tx.len() == 0
            &&& 6 <= f.step.index() ==> f.receiver_addr is Some && ran(rx.take(6), rp, 6)
                && f.receiver_addr == rx[5].address
            &&& f.step.index() < 12 ==> f.sender_addr is None
            &&& 6 <= f.step.index() <= 11 ==> text_of(f.details) == Some(receiver_text(ra))
            &&& 12 <= f.step.index() ==> f.sender_addr is Some && ran(tx, tp, 5)
                && f.sender_addr == tx[3].address && text_of(f.details) == Some(pair_text(ra, sa))
            &&& match f.step {
                ProbeStep::CreateReceiver => stopped(rx, rp, 1, f.error),
                ProbeStep::ReceiverReuseAddress => stopped(rx, rp, 2, f.error),
                ProbeStep::BindReceiver => stopped(rx, rp, 3, f.error),
                ProbeStep::JoinGroup => stopped(rx, rp, 4, f.error),
                ProbeStep::SetReadTimeout => stopped(rx, rp, 5, f.error) || (zero_timeout(timeout) && ran(rx, rp, 4)),
                ProbeStep::ReceiverAddress => stopped_at_address(rx, rp, 6, f.error),
                ProbeStep::CreateSender => rx.len() == 6 && stopped(tx, tp, 1, f.error),
                ProbeStep::BindSender => rx.len() == 6 && stopped(tx, tp, 2, f.error),
                ProbeStep::SenderInterface => false,
                ProbeStep::SenderLoopback => rx.len() == 6 && stopped(tx, tp, 3, f.error),
                ProbeStep::SenderAddress => rx.len() == 6 && stopped_at_address(tx, tp, 4, f.error),
                ProbeStep::Send => rx.len() == 6 && stopped(tx, tp, 5, f.error),
                ProbeStep::Receive => stopped(rx, rp, 7, f.error),
                ProbeStep::CheckPayload => ran(rx, rp, 7) && rx[6].received != probe_payload(),
            }
        },
    }
}

/// How the IPv6 probe of `group` on interface `ifindex` with `timeout` can
/// end: as for IPv4, with the outbound interface set on the sender, the
/// join refused without a call when `group` is not multicast, and the
/// interface index in the details of a failed receive or check.
pub open spec fn ipv6_outcome(group: Ipv6Addr, ifindex: u32, timeout: std::time::Duration, r: Result<ProbeSuccess, ProbeFailure>) -> bool {
    let rp = ipv6_receiver_plan(group, ifindex, timeout);
    match r {
        Ok(s) => {
            &&& one_socket(s.receiver_calls.calls())
            &&& one_socket(s.sender_calls.calls())
            &&& ran(s.receiver_calls.calls(), rp, 7)
            &&& s.receiver_calls.calls()[5].address == Some(s.receiver_addr)
            &&& s.receiver_calls.calls()[6].received == probe_payload()
            &&& ran(s.sender_calls.calls(), ipv6_sender_plan(group, ifindex, s.receiver_addr.spec_port()), 6)
            &&& s.sender_calls.calls()[4].address == Some(s.sender_addr)
        },
        Err(f) => {
            let rx = f.receiver_calls.calls();
            let tx = f.sender_calls.calls();
            let ra = f.receiver_addr->0;
            let sa = f.sender_addr->0;
            let tp = ipv6_sender_plan(group, ifindex, ra.spec_port());
            &&& one_socket(rx)
            &&& one_socket(tx)
            &&& f.stages == f.step.spec_stages()
            &&& f.kind == f.step.spec_kind()
            &&& f.step.index() < 6 ==> f.details is None && f.receiver_addr is None && tx.len() == 0
            &&& 6 <= f.step.index() ==> f.receiver_addr is Some && ran(rx.take(6), rp, 6)
                && f.receiver_addr == rx[5].address
            &&& f.step.index() < 11 ==> f.sender_addr is None
            &&& 11 <= f.step.index() ==> f.sender_addr is Some && ran(tx.take(5), tp, 5)
                && f.sender_addr == tx[4].address
            &&& 6 <= f.step.index() <= 10 ==> text_of(f.details) == Some(receiver_text(ra))
            &&& f.step.index() == 11 ==> text_of(f.details) == Some(pair_text(ra, sa))
            &&& 12 <= f.step.index() ==> ran(tx, tp, 6)
                && text_of(f.details) == Some(pair_ifindex_text(ra, sa, ifindex))
            &&& match f.step {
                ProbeStep::CreateReceiver => stopped(rx, rp, 1, f.error),
                ProbeStep::ReceiverReuseAddress => stopped(rx, rp, 2, f.error),
                ProbeStep::BindReceiver => stopped(rx, rp, 3, f.error),
                ProbeStep::JoinGroup => stopped(rx, rp, 4, f.error) || (!ipv6_is_multicast(group) && ran(rx, rp, 3)),
                ProbeStep::SetReadTimeout => stopped(rx, rp, 5, f.error) || (zero_timeout(timeout) && ran(rx, rp, 4)),
                ProbeStep::ReceiverAddress => stopped_at_address(rx, rp, 6, f.error),
                ProbeStep::CreateSender => rx.len() == 6 && stopped(tx, tp, 1, f.error),
                ProbeStep::BindSender => rx.len() == 6 && stopped(tx, tp, 2, f.error),
                ProbeStep::SenderInterface => rx.len() == 6 && stopped(tx, tp, 3, f.error),
                ProbeStep::SenderLoopback => rx.len() == 6 && stopped(tx, tp, 4, f.error),
                ProbeStep::SenderAddress => rx.len() == 6 && stopped_at_address(tx, tp, 5, f.error),
                ProbeStep::Send => rx.len() == 6 && stopped(tx, tp, 6, f.error),
                ProbeStep::Receive => stopped(rx, rp, 7, f.error),
                ProbeStep::CheckPayload => ran(rx, rp, 7) && rx[6].received != probe_payload(),
            }
        },
    }
}

fn fail(
    step: ProbeStep,
    error: std::io::Error,
    details: Option<String>,
    receiver_addr: Option<SocketAddr>,
    sender_addr: Option<SocketAddr>,
    receiver_calls: CallLog,
    sender_calls: CallLog,
) -> (f: ProbeFailure)
    ensures
        f.step == step,
        f.stages == step.spec_stages(),
        f.kind == step.spec_kind(),
        f.error == error,
        f.details == details,
        f.receiver_addr == receiver_addr,
        f.sender_addr == sender_addr,
        f.receiver_calls.calls() == receiver_calls.calls(),
        f.sender_calls.calls() == sender_calls.calls(),
{
    ProbeFailure {
        step,
        stages: step.stages(),
        kind: step.kind(),
        error,
        details,
        receiver_addr,
        sender_addr,
        receiver_calls,
        sender_calls,
    }
}

fn receiver_details(r: &SocketAddr) -> (d: Option<String>)
    ensures
        text_of(d) == Some(receiver_text(*r)),
{
    let mut s = String::new();
    s.append("receiver bound at ");
    r.push_text(&mut s);
    Some(s)
}

fn pair_details(r: &SocketAddr, sender: &SocketAddr) -> (d: Option<String>)
    ensures
        text_of(d) == Some(pair_text(*r, *sender)),
{
    let mut s = String::new();
    s.append("receiver bound at ");
    r.push_text(&mut s);
    s.append(", sender bound at ");
    sender.push_text(&mut s);
    assert(s@ =~= pair_text(*r, *sender));
    Some(s)
}

fn pair_ifindex_details(r: &SocketAddr, sender: &SocketAddr, ifindex: u32) -> (d: Option<String>)
    ensures
        text_of(d) == Some(pair_ifindex_text(*r, *sender, ifindex)),
{
    let mut s = String::new();
    s.append("receiver bound at ");
    r.push_text(&mut s);
    s.append(", sender bound at ");
    sender.push_text(&mut s);
    s.append(", ifindex ");
    push_decimal(&mut s, ifindex as u64);
    assert(s@ =~= pair_ifindex_text(*r, *sender, ifindex));
    Some(s)
}

/// The payload of a loopback datagram.
pub open spec fn probe_payload() -> Seq<u8> {
    seq![100u8, 105u8, 97u8, 103u8]
}

fn diag_payload() -> (r: Vec<u8>)
    ensures
        r@ == probe_payload(),
{
    let mut v: Vec<u8> = Vec::new();
    v.push(100);
    v.push(105);
    v.push(97);
    v.push(103);
    assert(v@ =~= probe_payload());
    v
}

/// Whether the first `n` bytes of `buf` are the loopback payload.
fn is_probe_payload(buf: &Vec<u8>, n: usize) -> (r: bool)
    requires
        n <= buf@.len(),
    ensures
        r == (buf@.take(n as int) == probe_payload()),
{
    let expected = diag_payload();
    if n != expected.len() {
        assert(buf@.take(n as int).len() != probe_payload().len());
        return false;
    }
    let mut i: usize = 0;
    while i < n
        invariant
            n == expected@.len(),
            n <= buf@.len(),
            expected@ == probe_payload(),
            0 <= i <= n,
            forall|j: int| 0 <= j < i ==> buf@[j] == expected@[j],
        decreases n - i,
    {
        if buf[i] != expected[i] {
            assert(buf@.take(n as int)[i as int] != probe_payload()[i as int]);
            return false;
        }
        i = i + 1;
    }
    assert(buf@.take(n as int) =~= probe_payload());
    true
}

/// Sends a datagram to IPv4 `group` from one socket and receives it on
/// another that joined the group, waiting at most `timeout`.
pub fn try_ipv4_probe(group: Ipv4Addr, timeout: std::time::Duration) -> (r: Result<ProbeSuccess, ProbeFailure>)
    ensures
        ipv4_outcome(group, timeout, r),
{
    let ghost rp = ipv4_receiver_plan(group, timeout);
    let (created, rlog) = create_socket(false);
    let ghost base = rlog.calls();
    proof { creation_facts(base, rp); }
    let receiver = match created {
        Ok(s) => s,
        Err(e) => return Err(fail(ProbeStep::CreateReceiver, e, None, None, None, rlog, CallLog::new())),
    };
    let mut rx = TracedSocket::new(&receiver);
    assert(base + rx.calls() =~= base);
    let ghost c0 = rx.calls();
    let outcome = socket_set_reuse_address(&mut rx, true);
    proof { step_facts(base, c0, rp, 1, rx.calls()); }
    if let Err(e) = outcome {
        return Err(fail(ProbeStep::ReceiverReuseAddress, e, None, None, None, rx.log_after(rlog), CallLog::new()));
    }
    let ghost c1 = rx.calls();
    let any = SocketAddr::v4(Ipv4Addr::unspecified(), 0);
    let outcome = bind(&mut rx, &any);
    proof { step_facts(base, c1, rp, 2, rx.calls()); }
    if let Err(e) = outcome {
        return Err(fail(ProbeStep::BindReceiver, e, None, None, None, rx.log_after(rlog), CallLog::new()));
    }
    let ghost c2 = rx.calls();
    let join = SocketOp::JoinV4 { group, interface: Ipv4Addr::unspecified() };
    let outcome = perform(&mut rx, &join);
    proof { step_facts(base, c2, rp, 3, rx.calls()); }
    if let Err(e) = outcome {
        return Err(fail(ProbeStep::JoinGroup, e, None, None, None, rx.log_after(rlog), CallLog::new()));
    }
    let ghost c3 = rx.calls();
    if duration_is_zero(&timeout) {
        let e = io_error_invalid_input("cannot set a 0 duration timeout");
        return Err(fail(ProbeStep::SetReadTimeout, e, None, None, None, rx.log_after(rlog), CallLog::new()));
    }
    let effective = if duration_as_nanos(&timeout) < 1000 { duration_from_micros(1) } else { timeout };
    let outcome = socket_set_read_timeout(&mut rx, effective);
    proof { step_facts(base, c3, rp, 4, rx.calls()); }
    if let Err(e) = outcome {
        return Err(fail(ProbeStep::SetReadTimeout, e, None, None, None, rx.log_after(rlog), CallLog::new()));
    }
    let ghost c4 = rx.calls();
    let answered = local_addr(&mut rx);
    proof { address_facts(base, c4, rp, 5, rx.calls()); }
    let receiver_addr = match answered {
        Ok(a) => a,
        Err(e) => {
            proof { address_stop(base, c4, rp, 5, rx.calls(), e); }
            return Err(fail(ProbeStep::ReceiverAddress, e, None, None, None, rx.log_after(rlog), CallLog::new()));
        },
    };
    let ghost c5 = rx.calls();
    let received_so_far = rx.log_after(rlog);
    assert(received_so_far.calls().take(6) =~= received_so_far.calls());
    assert(received_so_far.calls()[5] == rx.calls().last());
    let ra = Some(receiver_addr);
    let ghost tp = ipv4_sender_plan(group, receiver_addr.spec_port());
    let (created, slog) = create_socket(false);
    let ghost tbase = slog.calls();
    proof { creation_facts(tbase, tp); }
    let sender = match created {
        Ok(s) => s,
        Err(e) => return Err(fail(ProbeStep::CreateSender, e, receiver_details(&receiver_addr), ra, None, received_so_far, slog)),
    };
    let mut tx = TracedSocket::new(&sender);
    assert(tbase + tx.calls() =~= tbase);
    let ghost t0 = tx.calls();
    let outcome = bind(&mut tx, &any);
    proof { step_facts(tbase, t0, tp, 1, tx.calls()); }
    if let Err(e) = outcome {
        return Err(fail(ProbeStep::BindSender, e, receiver_details(&receiver_addr), ra, None, received_so_far, tx.log_after(slog)));
    }
    let ghost t1 = tx.calls();
    let outcome = perform(&mut tx, &SocketOp::MulticastLoopV4(true));
    proof { step_facts(tbase, t1, tp, 2, tx.calls()); }
    if let Err(e) = outcome {
        return Err(fail(ProbeStep::SenderLoopback, e, receiver_details(&receiver_addr), ra, None, received_so_far, tx.log_after(slog)));
    }
    let ghost t2 = tx.calls();
    let answered = local_addr(&mut tx);
    proof { address_facts(tbase, t2, tp, 3, tx.calls()); }
    let sender_addr = match answered {
        Ok(a) => a,
        Err(e) => {
            proof { address_stop(tbase, t2, tp, 3, tx.calls(), e); }
            return Err(fail(ProbeStep::SenderAddress, e, receiver_details(&receiver_addr), ra, None, received_so_far, tx.log_after(slog)));
        },
    };
    let ghost t3 = tx.calls();
    assert((tbase + t3)[3] == t3.last());
    let payload = diag_payload();
    let target = SocketAddr::v4(group, receiver_addr.port());
    let outcome = send_to(&mut tx, payload.as_slice(), &target);
    proof { step_facts(tbase, t3, tp, 4, tx.calls()); }
    if let Err(e) = outcome {
        return Err(fail(ProbeStep::Send, e, receiver_details(&receiver_addr), ra, None, received_so_far, tx.log_after(slog)));
    }
    let sent = tx.log_after(slog);
    assert(sent.calls()[3] == (tbase + t3)[3]);
    let sa = Some(sender_addr);
    let mut buf: Vec<u8> = vec![0u8; 16];
    let received = socket_recv(&mut rx, &mut buf);
    proof { step_facts(base, c5, rp, 6, rx.calls()); }
    let n = match received {
        Ok(n) => n,
        Err(e) => return Err(fail(ProbeStep::Receive, e, pair_details(&receiver_addr, &sender_addr), ra, sa, rx.log_after(rlog), sent)),
    };
    let all = rx.log_after(rlog);
    assert(all.calls().take(6) =~= received_so_far.calls());
    assert(all.calls()[5] == received_so_far.calls()[5]);
    if !is_probe_payload(&buf, n) {
        let e = io_error_invalid_data("unexpected loopback payload");
        return Err(fail(ProbeStep::CheckPayload, e, pair_details(&receiver_addr, &sender_addr), ra, sa, all, sent));
    }
    Ok(ProbeSuccess { receiver_addr, sender_addr, receiver_calls: all, sender_calls: sent })
}

/// The I/O error that stands for a multicast error: its own source for `Io`
/// and `BindFailed`, else one whose message is the error's message.
pub fn map_multicast_error(err: MulticastError) -> (r: std::io::Error)
    ensures
        err matches MulticastError::Io(source) ==> r == source,
        err matches MulticastError::BindFailed { source, .. } ==> r == source,
{
    match err {
        MulticastError::Io(source) => source,
        MulticastError::BindFailed { source, .. } => source,
        other => io_error_other(other.message()),
    }
}

/// Sends a datagram to IPv6 `group` on interface `ifindex` from one socket
/// and receives it on another that joined the group there, waiting at most
/// `timeout`.
pub fn try_ipv6_probe(group: Ipv6Addr, ifindex: u32, timeout: std::time::Duration) -> (r: Result<ProbeSuccess, ProbeFailure>)
    ensures
        ipv6_outcome(group, ifindex, timeout, r),
{
    let ghost rp = ipv6_receiver_plan(group, ifindex, timeout);
    let (created, rlog) = create_socket(true);
    let ghost base = rlog.calls();
    proof { creation_facts(base, rp); }
    let receiver = match created {
        Ok(s) => s,
        Err(e) => return Err(fail(ProbeStep::CreateReceiver, e, None, None, None, rlog, CallLog::new())),
    };
    let mut rx = TracedSocket::new(&receiver);
    assert(base + rx.calls() =~= base);
    let ghost c0 = rx.calls();
    let outcome = socket_set_reuse_address(&mut rx, true);
    proof { step_facts(base, c0, rp, 1, rx.calls()); }
    if let Err(e) = outcome {
        return Err(fail(ProbeStep::ReceiverReuseAddress, e, None, None, None, rx.log_after(rlog), CallLog::new()));
    }
    let ghost c1 = rx.calls();
    let any = SocketAddr::V6(group_as_v6_socket(Ipv6Addr::unspecified(), 0, 0));
    let outcome = bind(&mut rx, &any);
    proof { step_facts(base, c1, rp, 2, rx.calls()); }
    if let Err(e) = outcome {
        return Err(fail(ProbeStep::BindReceiver, e, None, None, None, rx.log_after(rlog), CallLog::new()));
    }
    let ghost c2 = rx.calls();
    let membership = Membership::any_source(IpAddr::V6(group));
    let interface = Interface::V6(ifindex);
    let joined = join_membership(&mut rx, &membership, Some(&interface));
    proof {
        if ipv6_is_multicast(group) {
            step_facts(base, c2, rp, 3, rx.calls());
        }
    }
    if let Err(e) = joined {
        return Err(fail(ProbeStep::JoinGroup, map_multicast_error(e), None, None, None, rx.log_after(rlog), CallLog::new()));
    }
    let ghost c3 = rx.calls();
    if duration_is_zero(&timeout) {
        let e = io_error_invalid_input("cannot set a 0 duration timeout");
        return Err(fail(ProbeStep::SetReadTimeout, e, None, None, None, rx.log_after(rlog), CallLog::new()));
    }
    let effective = if duration_as_nanos(&timeout) < 1000 { duration_from_micros(1) } else { timeout };
    let outcome = socket_set_read_timeout(&mut rx, effective);
    proof { step_facts(base, c3, rp, 4, rx.calls()); }
    if let Err(e) = outcome {
        return Err(fail(ProbeStep::SetReadTimeout, e, None, None, None, rx.log_after(rlog), CallLog::new()));
    }
    let ghost c4 = rx.calls();
    let answered = local_addr(&mut rx);
    proof { address_facts(base, c4, rp, 5, rx.calls()); }
    let receiver_addr = match answered {
        Ok(a) => a,
        Err(e) => {
            proof { address_stop(base, c4, rp, 5, rx.calls(), e); }
            return Err(fail(ProbeStep::ReceiverAddress, e, None, None, None, rx.log_after(rlog), CallLog::new()));
        },
    };
    let ghost c5 = rx.calls();
    let received_so_far = rx.log_after(rlog);
    assert(received_so_far.calls().take(6) =~= received_so_far.calls());
    assert(received_so_far.calls()[5] == rx.calls().last());
    let ra = Some(receiver_addr);
    let ghost tp = ipv6_sender_plan(group, ifindex, receiver_addr.spec_port());
    let (created, slog) = create_socket(true);
    let ghost tbase = slog.calls();
    proof { creation_facts(tbase, tp); }
    let sender = match created {
        Ok(s) => s,
        Err(e) => return Err(fail(ProbeStep::CreateSender, e, receiver_details(&receiver_addr), ra, None, received_so_far, slog)),
    };
    let mut tx = TracedSocket::new(&sender);
    assert(tbase + tx.calls() =~= tbase);
    let ghost t0 = tx.calls();
    let outcome = bind(&mut tx, &any);
    proof { step_facts(tbase, t0, tp, 1, tx.calls()); }
    if let Err(e) = outcome {
        return Err(fail(ProbeStep::BindSender, e, receiver_details(&receiver_addr), ra, None, received_so_far, tx.log_after(slog)));
    }
    let ghost t1 = tx.calls();
    let outcome = perform(&mut tx, &SocketOp::MulticastIfV6(ifindex));
    proof { step_facts(tbase, t1, tp, 2, tx.calls()); }
    if let Err(e) = outcome {
        return Err(fail(ProbeStep::SenderInterface, e, receiver_details(&receiver_addr), ra, None, received_so_far, tx.log_after(slog)));
    }
    let ghost t2 = tx.calls();
    let outcome = perform(&mut tx, &SocketOp::MulticastLoopV6(true));
    proof { step_facts(tbase, t2, tp, 3, tx.calls()); }
    if let Err(e) = outcome {
        return Err(fail(ProbeStep::SenderLoopback, e, receiver_details(&receiver_addr), ra, None, received_so_far, tx.log_after(slog)));
    }
    let ghost t3 = tx.calls();
    let answered = local_addr(&mut tx);
    proof { address_facts(tbase, t3, tp, 4, tx.calls()); }
    let sender_addr = match answered {
        Ok(a) => a,
        Err(e) => {
            proof { address_stop(tbase, t3, tp, 4, tx.calls(), e); }
            return Err(fail(ProbeStep::SenderAddress, e, receiver_details(&receiver_addr), ra, None, received_so_far, tx.log_after(slog)));
        },
    };
    let ghost t4 = tx.calls();
    assert((tbase + t4)[4] == t4.last());
    let sa = Some(sender_addr);
    let payload = diag_payload();
    let target = SocketAddr::V6(group_as_v6_socket(group, receiver_addr.port(), ifindex));
    let outcome = send_to(&mut tx, payload.as_slice(), &target);
    proof { step_facts(tbase, t4, tp, 5, tx.calls()); }
    let sent = tx.log_after(slog);
    assert(sent.calls().take(5) =~= tbase + t4);
    assert(sent.calls()[4] == (tbase + t4)[4]);
    if let Err(e) = outcome {
        return Err(fail(ProbeStep::Send, e, pair_details(&receiver_addr, &sender_addr), ra, sa, received_so_far, sent));
    }
    let mut buf: Vec<u8> = vec![0u8; 16];
    let received = socket_recv(&mut rx, &mut buf);
    proof { step_facts(base, c5, rp, 6, rx.calls()); }
    let n = match received {
        Ok(n) => n,
        Err(e) => return Err(fail(
            ProbeStep::Receive,
            e,
            pair_ifindex_details(&receiver_addr, &sender_addr, ifindex),
            ra,
            sa,
            rx.log_after(rlog),
            sent,
        )),
    };
    let all = rx.log_after(rlog);
    assert(all.calls().take(6) =~= received_so_far.calls());
    assert(all.calls()[5] == received_so_far.calls()[5]);
    if !is_probe_payload(&buf, n) {
        let e = io_error_invalid_data("unexpected loopback payload");
        return Err(fail(
            ProbeStep::CheckPayload,
            e,
            pair_ifindex_details(&receiver_addr, &sender_addr, ifindex),
            ra,
            sa,
            all,
            sent,
        ));
    }
    Ok(ProbeSuccess { receiver_addr, sender_addr, receiver_calls: all, sender_calls: sent })
}

/// All five stages.
pub open spec fn all_stages() -> ProbeStages {
    ProbeStages::reached(5)
}

fn every_stage() -> (r: ProbeStages)
    ensures
        r == all_stages(),
{
    ProbeStages { socket_created: true, bound: true, joined: true, loopback_sent: true, loopback_received: true }
}

/// The result of a probe, from its outcome: a success gives every stage and
/// the details of the addresses, the group (with `%ifindex` for IPv6) and the
/// timeout text; a failure gives its stages, kind and details, and the text
/// of its error.
pub open spec fn report_of(
    r: ProbeResult,
    label: &'static str,
    group: IpAddr,
    ifindex: Option<u32>,
    timeout_text: Seq<char>,
    outcome: Result<ProbeSuccess, ProbeFailure>,
) -> bool {
    &&& r.label == label
    &&& match outcome {
        Ok(s) => {
            &&& r.supported
            &&& r.stages == all_stages()
            &&& r.error_kind is None
            &&& r.error is None
            &&& text_of(r.details) == Some(success_text(s.receiver_addr, s.sender_addr, group, ifindex, timeout_text))
        },
        Err(f) => {
            &&& !r.supported
            &&& r.stages == f.stages
            &&& r.error_kind == Some(f.kind)
            &&& r.details == f.details
            &&& r.error is Some
        },
    }
}

/// The details of a successful probe.
pub open spec fn success_text(r: SocketAddr, s: SocketAddr, group: IpAddr, ifindex: Option<u32>, timeout_text: Seq<char>) -> Seq<char> {
    "bound receiver "@ + socket_addr_text(r) + ", sent from "@ + socket_addr_text(s) + ", joined "@
        + ip_text(group) + (match ifindex {
            Some(i) => seq!['%'] + decimal(i as nat),
            None => Seq::<char>::empty(),
        }) + ", timeout "@ + timeout_text
}

/// What the IPv4 probe with `c` reports: the report of an outcome of the probe
/// of `c.ipv4_group` with `c.timeout`, with the `Debug` text of that timeout.
pub open spec fn ipv4_report(c: MulticastDiagnosticConfig, r: ProbeResult) -> bool {
    exists|o: Result<ProbeSuccess, ProbeFailure>|
        #[trigger] ipv4_outcome(c.ipv4_group, c.timeout, o)
        && report_of(r, "ipv4", IpAddr::V4(c.ipv4_group), None, duration_debug(c.timeout), o)
}

/// What the IPv6 probe with `c` reports: unavailable without an interface
/// index, else the report of an outcome of the probe of `c.ipv6_group` on that
/// interface with `c.timeout`.
pub open spec fn ipv6_report(c: MulticastDiagnosticConfig, r: ProbeResult) -> bool {
    match c.ipv6_interface {
        None => {
            &&& r.label == "ipv6"
            &&& !r.supported
            &&& r.stages == ProbeStages::reached(0)
            &&& r.error_kind == Some(ProbeErrorKind::Unavailable)
            &&& r.details is None
            &&& text_of(r.error) == Some("no loopback IPv6 interface index available"@)
        },
        Some(ifindex) => exists|o: Result<ProbeSuccess, ProbeFailure>|
            #[trigger] ipv6_outcome(c.ipv6_group, ifindex, c.timeout, o)
            && report_of(r, "ipv6", IpAddr::V6(c.ipv6_group), Some(ifindex), duration_debug(c.timeout), o),
    }
}

fn success_details(r: &SocketAddr, s: &SocketAddr, group: &IpAddr, ifindex: Option<u32>, timeout: &str) -> (d: String)
    ensures
        d@ == "bound receiver "@ + socket_addr_text(*r) + ", sent from "@
            + socket_addr_text(*s) + ", joined "@ + (match *group {
                IpAddr::V4(g) => ipv4_text(g),
                IpAddr::V6(g) => ipv6_display(g),
            }) + (match ifindex {
                Some(i) => seq!['%'] + decimal(i as nat),
                None => Seq::<char>::empty(),
            }) + ", timeout "@ + timeout@,
{
    let mut d = String::new();
    d.append("bound receiver ");
    r.push_text(&mut d);
    d.append(", sent from ");
    s.push_text(&mut d);
    d.append(", joined ");
    let g = group.to_text();
    d.append(g.as_str());
    if let Some(i) = ifindex {
        push_char(&mut d, '%');
        push_decimal(&mut d, i as u64);
    }
    d.append(", timeout ");
    d.append(timeout);
    assert(d@ =~= "bound receiver "@ + socket_addr_text(*r) + ", sent from "@
        + socket_addr_text(*s) + ", joined "@ + (match *group {
            IpAddr::V4(g) => ipv4_text(g),
            IpAddr::V6(g) => ipv6_display(g),
        }) + (match ifindex {
            Some(i) => seq!['%'] + decimal(i as nat),
            None => Seq::<char>::empty(),
        }) + ", timeout "@ + timeout@);
    d
}

/// The result of a probe from its outcome.
pub fn probe_report(
    label: &'static str,
    group: &IpAddr,
    ifindex: Option<u32>,
    timeout_text: &str,
    outcome: Result<ProbeSuccess, ProbeFailure>,
) -> (r: ProbeResult)
    ensures
        report_of(r, label, *group, ifindex, timeout_text@, outcome),
{
    match outcome {
        Ok(s) => {
            let details = success_details(&s.receiver_addr, &s.sender_addr, group, ifindex, timeout_text);
            assert(details@ =~= success_text(s.receiver_addr, s.sender_addr, *group, ifindex, timeout_text@));
            ProbeResult::success(label, every_stage(), details)
        },
        Err(f) => {
            let message = io_error_text(&f.error);
            ProbeResult::failure(label, f.stages, f.kind, message, f.details)
        },
    }
}

/// Probes IPv4 multicast loopback on the configured group.
pub fn diagnose_ipv4(config: &MulticastDiagnosticConfig) -> (r: ProbeResult)
    ensures
        ipv4_report(*config, r),
{
    let group = config.ipv4_group;
    let outcome = try_ipv4_probe(group, config.timeout);
    let ghost o = outcome;
    let t = duration_debug_text(&config.timeout);
    let r = probe_report("ipv4", &IpAddr::V4(group), None, t.as_str(), outcome);
    assert(ipv4_outcome(config.ipv4_group, config.timeout, o));
    r
}

/// Probes IPv6 multicast loopback on the configured group and interface.
pub fn diagnose_ipv6(config: &MulticastDiagnosticConfig) -> (r: ProbeResult)
    ensures
        ipv6_report(*config, r),
{
    let label = "ipv6";
    let group = config.ipv6_group;
    let ifindex = match config.ipv6_interface {
        Some(i) => i,
        None => {
            let mut message = String::new();
            message.append("no loopback IPv6 interface index available");
            return ProbeResult::failure(
                label,
                ProbeStages::default(),
                ProbeErrorKind::Unavailable,
                message,
                None,
            );
        },
    };
    let outcome = try_ipv6_probe(group, ifindex, config.timeout);
    let ghost o = outcome;
    let t = duration_debug_text(&config.timeout);
    let r = probe_report(label, &IpAddr::V6(group), Some(ifindex), t.as_str(), outcome);
    assert(ipv6_outcome(config.ipv6_group, ifindex, config.timeout, o));
    r
}

/// Probes both families with `config`.
pub fn diagnose_multicast_with_config(config: &MulticastDiagnosticConfig) -> (r: MulticastDiagnostics)
    ensures
        ipv4_report(*config, r.ipv4),
        ipv6_report(*config, r.ipv6),
{
    MulticastDiagnostics { ipv4: diagnose_ipv4(config), ipv6: diagnose_ipv6(config) }
}

/// The default diagnostics settings.
pub open spec fn default_diagnostic_config() -> MulticastDiagnosticConfig {
    MulticastDiagnosticConfig {
        ipv4_group: Ipv4Addr(239, 1, 1, 250),
        ipv6_group: Ipv6Addr(0xff02, 0, 0, 0, 0, 0, 0, 0x114),
        ipv6_interface: None,
        timeout: duration_millis(500),
    }
}

/// Probes both families with the default settings. The platform layer gives
/// no IPv6 loopback interface, so the IPv6 probe reports it unavailable.
pub fn diagnose_multicast() -> (r: MulticastDiagnostics)
    ensures
        ipv4_report(default_diagnostic_config(), r.ipv4),
        ipv6_report(default_diagnostic_config(), r.ipv6),
{
    let config = MulticastDiagnosticConfig::default();
    diagnose_multicast_with_config(&config)
}

/// The loopback datagram: the bytes of "diag".
pub open spec fn diag_bytes() -> Seq<u8> {
    seq![0x64u8, 0x69u8, 0x61u8, 0x67u8]
}

/// A successful IPv4 probe made the loopback round trip on two sockets: the
/// receiver, with address reuse on and bound to 0.0.0.0:0, joined `group` on
/// interface 0.0.0.0, set `timeout` as its read timeout (one microsecond when
/// it is shorter than that) and received exactly "diag"; the sender, bound to 0.0.0.0:0, switched
/// multicast loopback on before it sent "diag" to `group` at the receiver's
/// port; every call succeeded, each on its own socket, and the addresses
/// returned are the ones the sockets reported. A probe that got as far as
/// receiving had sent the same way.
pub proof fn law_ipv4_probe_round_trip(group: Ipv4Addr, timeout: std::time::Duration, r: Result<ProbeSuccess, ProbeFailure>)
    requires
        ipv4_outcome(group, timeout, r),
    ensures
        r matches Ok(s) ==> {
            let rx = s.receiver_calls.calls();
            let tx = s.sender_calls.calls();
            &&& rx.len() == 7 && tx.len() == 5
            &&& forall|i: int| 0 <= i < 7 ==> (#[trigger] rx[i]).error is None
            &&& forall|i: int| 0 <= i < 5 ==> (#[trigger] tx[i]).error is None
            &&& rx[0].socket is Some && on_socket(rx, rx[0].socket->0)
            &&& tx[0].socket is Some && on_socket(tx, tx[0].socket->0)
            &&& rx[2].call == SocketCall::Op(SocketOp::Bind(SocketAddr::V4(SocketAddrV4 { ip: Ipv4Addr(0, 0, 0, 0), port: 0 })))
            &&& rx[3].call == SocketCall::Op(SocketOp::JoinV4 { group, interface: Ipv4Addr(0, 0, 0, 0) })
            &&& rx[1].call == SocketCall::Op(SocketOp::ReuseAddress(true))
            &&& rx[4].call == SocketCall::ReadTimeout(
                if duration_nanos(timeout) < 1000 { duration_micros(1) } else { timeout },
            )
            &&& rx[5].address == Some(s.receiver_addr)
            &&& rx[6].received == diag_bytes()
            &&& tx[1].call == SocketCall::Op(SocketOp::Bind(SocketAddr::V4(SocketAddrV4 { ip: Ipv4Addr(0, 0, 0, 0), port: 0 })))
            &&& tx[2].call == SocketCall::Op(SocketOp::MulticastLoopV4(true))
            &&& tx[3].address == Some(s.sender_addr)
            &&& tx[4].call == (SocketCall::SendTo {
                payload: diag_bytes(),
                target: SocketAddr::V4(SocketAddrV4 { ip: group, port: s.receiver_addr.spec_port() }),
            })
        },
        r matches Err(f) ==> (f.stages.loopback_sent ==> {
            let tx = f.sender_calls.calls();
            &&& tx.len() == 5
            &&& tx[2].call == SocketCall::Op(SocketOp::MulticastLoopV4(true))
            &&& tx[2].error is None
            &&& tx[4].call == (SocketCall::SendTo {
                payload: diag_bytes(),
                target: SocketAddr::V4(SocketAddrV4 { ip: group, port: f.receiver_addr->0.spec_port() }),
            })
        }),
{
    assert(probe_payload() =~= diag_bytes());
    if let Ok(s) = r {
        let rx = s.receiver_calls.calls();
        let tx = s.sender_calls.calls();
        assert(rx[1].call == ipv4_receiver_plan(group, timeout)[1]);
        assert(rx[2].call == ipv4_receiver_plan(group, timeout)[2]);
        assert(rx[3].call == ipv4_receiver_plan(group, timeout)[3]);
        assert(rx[4].call == ipv4_receiver_plan(group, timeout)[4]);
        assert(tx[1].call == ipv4_sender_plan(group, s.receiver_addr.spec_port())[1]);
        assert(tx[2].call == ipv4_sender_plan(group, s.receiver_addr.spec_port())[2]);
        assert(tx[4].call == ipv4_sender_plan(group, s.receiver_addr.spec_port())[4]);
    }
    if let Err(f) = r {
        if f.stages.loopback_sent {
            let tx = f.sender_calls.calls();
            let tp = ipv4_sender_plan(group, f.receiver_addr->0.spec_port());
            assert(f.step.index() >= 12);
            assert(tx[2].call == tp[2]);
            assert(tx[4].call == tp[4]);
        }
    }
}

/// A successful IPv6 probe on interface `ifindex` made the loopback round
/// trip on two sockets: the receiver, with address reuse on and bound to
/// [::]:0, joined `group` on `ifindex`, set its read timeout as the IPv4
/// probe does and received exactly "diag"; the sender, bound to [::]:0, set
/// `ifindex` as its outbound interface and switched multicast loopback on
/// before it sent "diag" to `group` at the receiver's port with scope id
/// `ifindex`; every call succeeded, each on its own socket.
pub proof fn law_ipv6_probe_round_trip(
    group: Ipv6Addr,
    ifindex: u32,
    timeout: std::time::Duration,
    r: Result<ProbeSuccess, ProbeFailure>,
)
    requires
        ipv6_outcome(group, ifindex, timeout, r),
    ensures
        r matches Ok(s) ==> {
            let rx = s.receiver_calls.calls();
            let tx = s.sender_calls.calls();
            &&& rx.len() == 7 && tx.len() == 6
            &&& forall|i: int| 0 <= i < 7 ==> (#[trigger] rx[i]).error is None
            &&& forall|i: int| 0 <= i < 6 ==> (#[trigger] tx[i]).error is None
            &&& rx[0].socket is Some && on_socket(rx, rx[0].socket->0)
            &&& tx[0].socket is Some && on_socket(tx, tx[0].socket->0)
            &&& rx[3].call == SocketCall::Op(SocketOp::JoinV6 { group, index: ifindex })
            &&& rx[1].call == SocketCall::Op(SocketOp::ReuseAddress(true))
            &&& rx[4].call == SocketCall::ReadTimeout(
                if duration_nanos(timeout) < 1000 { duration_micros(1) } else { timeout },
            )
            &&& rx[5].address == Some(s.receiver_addr)
            &&& rx[6].received == diag_bytes()
            &&& tx[2].call == SocketCall::Op(SocketOp::MulticastIfV6(ifindex))
            &&& tx[3].call == SocketCall::Op(SocketOp::MulticastLoopV6(true))
            &&& tx[4].address == Some(s.sender_addr)
            &&& tx[5].call == (SocketCall::SendTo {
                payload: diag_bytes(),
                target: SocketAddr::V6(SocketAddrV6 {
                    ip: group,
                    port: s.receiver_addr.spec_port(),
                    flowinfo: 0,
                    scope_id: ifindex,
                }),
            })
        },
{
    assert(probe_payload() =~= diag_bytes());
    if let Ok(s) = r {
        let rx = s.receiver_calls.calls();
        let tx = s.sender_calls.calls();
        let tp = ipv6_sender_plan(group, ifindex, s.receiver_addr.spec_port());
        assert(rx[1].call == ipv6_receiver_plan(group, ifindex, timeout)[1]);
        assert(rx[3].call == ipv6_receiver_plan(group, ifindex, timeout)[3]);
        assert(rx[4].call == ipv6_receiver_plan(group, ifindex, timeout)[4]);
        assert(tx[2].call == tp[2]);
        assert(tx[3].call == tp[3]);
        assert(tx[5].call == tp[5]);
    }
}

/// A probe that fails at any step has reached the stages before it, in
/// order, and never the last one.
pub proof fn law_failed_probe_stages_in_order(step: ProbeStep)
    ensures
        step.spec_stages().in_order(),
        !step.spec_stages().loopback_received,
        all_stages().in_order(),
{
}

/// Every probe result explains its outcome, with details or an error; it is
/// supported exactly when it carries no error; its stages are in order.
pub proof fn law_reports_explain_outcome(c: MulticastDiagnosticConfig, r4: ProbeResult, r6: ProbeResult)
    requires
        ipv4_report(c, r4),
        ipv6_report(c, r6),
    ensures
        r4.details is Some || r4.error is Some,
        r6.details is Some || r6.error is Some,
        r4.supported <==> r4.error is None,
        r6.supported <==> r6.error is None,
        r4.stages.in_order(),
        r6.stages.in_order(),
        r4.supported ==> r4.stages.loopback_received,
        r6.supported ==> r6.stages.loopback_received,
{
    let o = choose|o: Result<ProbeSuccess, ProbeFailure>|
        #[trigger] ipv4_outcome(c.ipv4_group, c.timeout, o)
        && report_of(r4, "ipv4", IpAddr::V4(c.ipv4_group), None, duration_debug(c.timeout), o);
    if let Err(f) = o {
        law_failed_probe_stages_in_order(f.step);
    }
    if let Some(ifindex) = c.ipv6_interface {
        let o6 = choose|o: Result<ProbeSuccess, ProbeFailure>|
            #[trigger] ipv6_outcome(c.ipv6_group, ifindex, c.timeout, o)
            && report_of(r6, "ipv6", IpAddr::V6(c.ipv6_group), Some(ifindex), duration_debug(c.timeout), o);
        if let Err(f) = o6 {
            law_failed_probe_stages_in_order(f.step);
        }
    }
}

} // verus!
