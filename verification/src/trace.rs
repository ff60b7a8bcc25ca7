use vstd::prelude::*;

use crate::address::{Ipv4Addr, Ipv6Addr, SocketAddr, SocketAddrV4, SocketAddrV6};
use crate::raw::SocketOp;

verus! {

#[verifier::external_type_specification]
#[verifier::external_body]
pub struct ExSocket(socket2::Socket);

/// A call made on a socket, as the trace of a [`TracedSocket`] records it.
pub ghost enum SocketCall {
    /// Creating a UDP socket, IPv6 where `v6` holds, else IPv4.
    Create { v6: bool },
    /// An option, bind or membership call.
    Op(SocketOp),
    /// Setting the receive timeout.
    ReadTimeout(std::time::Duration),
    /// Asking for the local address.
    LocalAddr,
    /// Sending `payload` to `target`.
    SendTo { payload: Seq<u8>, target: SocketAddr },
    /// Receiving into a buffer of `capacity` bytes.
    Recv { capacity: nat },
}

/// A recorded call: what was asked, the error the system answered, if any,
/// the bytes received, for a receive, and the address answered, for a
/// local-address call whose address is IPv4 or IPv6.
pub ghost struct CallRecord {
    pub call: SocketCall,
    pub error: Option<std::io::Error>,
    pub received: Seq<u8>,
    pub address: Option<SocketAddr>,
    /// The socket the call was made on; none for a creation that failed.
    pub socket: Option<socket2::Socket>,
}

/// The error of an outcome, if it is one.
pub open spec fn error_of<T>(r: std::io::Result<T>) -> Option<std::io::Error> {
    match r {
        Ok(_) => None,
        Err(e) => Some(e),
    }
}

/// The record of `call`, made on socket `s` and answered with `r`.
pub open spec fn record<T>(s: socket2::Socket, call: SocketCall, r: std::io::Result<T>) -> CallRecord {
    CallRecord { call, error: error_of(r), received: Seq::empty(), address: None, socket: Some(s) }
}

/// The record of the creation of a UDP socket, IPv6 where `v6` holds, that
/// gave `r`: the socket created, if any.
pub open spec fn created_record(v6: bool, r: std::io::Result<socket2::Socket>) -> CallRecord {
    CallRecord {
        call: SocketCall::Create { v6 },
        error: error_of(r),
        received: Seq::empty(),
        address: None,
        socket: match r {
            Ok(s) => Some(s),
            Err(_) => None,
        },
    }
}

/// Every call of `log` was made on socket `s`.
pub open spec fn on_socket(log: Seq<CallRecord>, s: socket2::Socket) -> bool {
    forall|i: int| 0 <= i < log.len() ==> (#[trigger] log[i]).socket == Some(s)
}

/// A socket together with the trace of the calls made on it through this
/// library, in order, with their outcomes.
pub struct TracedSocket<'a> {
    socket: &'a socket2::Socket,
    trace: Ghost<Seq<CallRecord>>,
}

impl<'a> TracedSocket<'a> {
    /// Every call in the trace was made on the traced socket.
    #[verifier::type_invariant]
    spec fn calls_on_socket(&self) -> bool {
        on_socket(self.trace@, *self.socket)
    }

    /// The calls made so far, in order.
    pub closed spec fn calls(&self) -> Seq<CallRecord> {
        self.trace@
    }

    /// The socket whose calls are traced.
    pub closed spec fn socket(&self) -> socket2::Socket {
        *self.socket
    }

    /// Starts tracing the calls made on `socket`.
    pub fn new(socket: &'a socket2::Socket) -> (r: TracedSocket<'a>)
        ensures
            r.calls() == Seq::<CallRecord>::empty(),
            r.socket() == *socket,
    {
        TracedSocket { socket, trace: Ghost(Seq::empty()) }
    }
}

/// The calls made on a socket, taken from its trace: a log that only this
/// module writes.
#[derive(Clone, Copy)]
pub struct CallLog {
    trace: Ghost<Seq<CallRecord>>,
}

impl CallLog {
    /// The calls, in order.
    pub closed spec fn calls(&self) -> Seq<CallRecord> {
        self.trace@
    }

    /// A log of no calls.
    pub fn new() -> (r: CallLog)
        ensures
            r.calls() == Seq::<CallRecord>::empty(),
    {
        CallLog { trace: Ghost(Seq::empty()) }
    }
}

impl<'a> TracedSocket<'a> {
    /// The log of the calls made so far, all of them on the traced socket.
    pub fn log(&self) -> (r: CallLog)
        ensures
            r.calls() == self.calls(),
            on_socket(r.calls(), self.socket()),
    {
        proof { use_type_invariant(self); }
        CallLog { trace: Ghost(self.trace@) }
    }

    /// The log `earlier` followed by the calls made so far: where `earlier`
    /// was made on the traced socket too, so was the whole log.
    pub fn log_after(&self, earlier: CallLog) -> (r: CallLog)
        ensures
            r.calls() == earlier.calls() + self.calls(),
            on_socket(earlier.calls(), self.socket()) ==> on_socket(r.calls(), self.socket()),
    {
        proof { use_type_invariant(self); }
        let r = CallLog { trace: Ghost(earlier.trace@ + self.trace@) };
        proof {
            if on_socket(earlier.calls(), self.socket()) {
                assert forall|i: int| 0 <= i < r.calls().len() implies (#[trigger] r.calls()[i]).socket
                    == Some(self.socket()) by {
                    if i >= earlier.calls().len() {
                        assert(r.calls()[i] == self.trace@[i - earlier.calls().len()]);
                    }
                }
            }
        }
        r
    }
}

/// Creates a UDP socket, IPv6 where `v6` holds, else IPv4, and logs the
/// creation with its outcome.
pub fn create_socket(v6: bool) -> (r: (std::io::Result<socket2::Socket>, CallLog))
    ensures
        r.1.calls() == seq![created_record(v6, r.0)],
        r.0 matches Ok(s) ==> on_socket(r.1.calls(), s),
{
    let created = if v6 { socket_new_v6() } else { socket_new_v4() };
    let log = CallLog { trace: Ghost(Seq::empty().push(created_record(v6, created))) };
    proof {
        assert(log.trace@ =~= seq![created_record(v6, created)]);
    }
    (created, log)
}

// The calls below go to the operating system through socket2; what they
// return depends on the machine and its network. Each one that acts on a
// socket records itself and its outcome in the socket's trace.

/// `socket2::Socket::new` for an IPv4 UDP datagram socket.
#[verifier::external_body]
fn socket_new_v4() -> std::io::Result<socket2::Socket> {
    socket2::Socket::new(socket2::Domain::IPV4, socket2::Type::DGRAM, Some(socket2::Protocol::UDP))
}

/// `socket2::Socket::new` for an IPv6 UDP datagram socket.
#[verifier::external_body]
fn socket_new_v6() -> std::io::Result<socket2::Socket> {
    socket2::Socket::new(socket2::Domain::IPV6, socket2::Type::DGRAM, Some(socket2::Protocol::UDP))
}

/// `socket2::Socket::bind` to an IPv4 address (`SockAddr::from`).
#[verifier::external_body]
pub(crate) fn socket_bind_v4(t: &mut TracedSocket, a: &SocketAddrV4) -> (r: std::io::Result<()>)
    ensures
        final(t).socket() == old(t).socket(),
        final(t).calls() == old(t).calls().push(record(old(t).socket(), SocketCall::Op(SocketOp::Bind(SocketAddr::V4(*a))), r)),
{
    let std_addr = ([a.ip.0, a.ip.1, a.ip.2, a.ip.3], a.port).into();
    // `for_address` takes std's socket address type, which fixes that of `std_addr`.
    let _family = socket2::Domain::for_address(std_addr);
    t.socket.bind(&socket2::SockAddr::from(std_addr))
}

/// `socket2::Socket::bind` to an IPv6 address, flow label and scope id
/// included (`SockAddr::from`).
#[verifier::external_body]
pub(crate) fn socket_bind_v6(t: &mut TracedSocket, a: &SocketAddrV6) -> (r: std::io::Result<()>)
    ensures
        final(t).socket() == old(t).socket(),
        final(t).calls() == old(t).calls().push(record(old(t).socket(), SocketCall::Op(SocketOp::Bind(SocketAddr::V6(*a))), r)),
{
    let std_addr = ([a.ip.0, a.ip.1, a.ip.2, a.ip.3, a.ip.4, a.ip.5, a.ip.6, a.ip.7], a.port).into();
    // `for_address` takes std's socket address type, which fixes that of `std_addr`.
    let _family = socket2::Domain::for_address(std_addr);
    let mut v6 = match socket2::SockAddr::from(std_addr).as_socket_ipv6() {
        Some(v6) => v6,
        None => return t.socket.bind(&socket2::SockAddr::from(std_addr)),
    };
    v6.set_flowinfo(a.flowinfo);
    v6.set_scope_id(a.scope_id);
    t.socket.bind(&socket2::SockAddr::from(v6))
}

/// `socket2::Socket::send_to` an IPv4 address.
#[verifier::external_body]
pub(crate) fn socket_send_to_v4(t: &mut TracedSocket, payload: &[u8], a: &SocketAddrV4) -> (r: std::io::Result<usize>)
    ensures
        final(t).socket() == old(t).socket(),
        final(t).calls() == old(t).calls().push(
            record(old(t).socket(), SocketCall::SendTo { payload: payload@, target: SocketAddr::V4(*a) }, r),
        ),
{
    let std_addr = ([a.ip.0, a.ip.1, a.ip.2, a.ip.3], a.port).into();
    // `for_address` takes std's socket address type, which fixes that of `std_addr`.
    let _family = socket2::Domain::for_address(std_addr);
    t.socket.send_to(payload, &socket2::SockAddr::from(std_addr))
}

/// `socket2::Socket::send_to` an IPv6 address, flow label and scope id
/// included.
#[verifier::external_body]
pub(crate) fn socket_send_to_v6(t: &mut TracedSocket, payload: &[u8], a: &SocketAddrV6) -> (r: std::io::Result<usize>)
    ensures
        final(t).socket() == old(t).socket(),
        final(t).calls() == old(t).calls().push(
            record(old(t).socket(), SocketCall::SendTo { payload: payload@, target: SocketAddr::V6(*a) }, r),
        ),
{
    let std_addr = ([a.ip.0, a.ip.1, a.ip.2, a.ip.3, a.ip.4, a.ip.5, a.ip.6, a.ip.7], a.port).into();
    // `for_address` takes std's socket address type, which fixes that of `std_addr`.
    let _family = socket2::Domain::for_address(std_addr);
    let mut v6 = match socket2::SockAddr::from(std_addr).as_socket_ipv6() {
        Some(v6) => v6,
        None => return t.socket.send_to(payload, &socket2::SockAddr::from(std_addr)),
    };
    v6.set_flowinfo(a.flowinfo);
    v6.set_scope_id(a.scope_id);
    t.socket.send_to(payload, &socket2::SockAddr::from(v6))
}

/// `socket2::Socket::local_addr`, with the address it answers turned into
/// an IPv4 or IPv6 socket address (`SockAddr::as_socket_ipv4` and
/// `as_socket_ipv6`); `None` for an address of another family.
#[verifier::external_body]
pub(crate) fn socket_local_addr(t: &mut TracedSocket) -> (r: std::io::Result<Option<SocketAddr>>)
    ensures
        final(t).socket() == old(t).socket(),
        final(t).calls() == old(t).calls().push(CallRecord {
            call: SocketCall::LocalAddr,
            error: error_of(r),
            received: Seq::empty(),
            address: match r { Ok(a) => a, Err(_) => None },
            socket: Some(old(t).socket()),
        }),
{
    let a = t.socket.local_addr()?;
    if let Some(v4) = a.as_socket_ipv4() {
        let o = v4.ip().octets();
        return Ok(Some(SocketAddr::v4(Ipv4Addr(o[0], o[1], o[2], o[3]), v4.port())));
    }
    match a.as_socket_ipv6() {
        Some(v6) => {
            let g = v6.ip().segments();
            let ip = Ipv6Addr(g[0], g[1], g[2], g[3], g[4], g[5], g[6], g[7]);
            Ok(Some(SocketAddr::V6(SocketAddrV6::new(ip, v6.port(), v6.flowinfo(), v6.scope_id()))))
        },
        None => Ok(None),
    }
}

/// Receives one datagram into `buf` (`std::io::Read::read` on `&socket2::Socket`,
/// which receives). `Read::read` documents that a count it returns is at most
/// the buffer's length; the call records the bytes then held in front of the
/// buffer.
#[verifier::external_body]
pub(crate) fn socket_recv(t: &mut TracedSocket, buf: &mut Vec<u8>) -> (r: std::io::Result<usize>)
    ensures
        final(t).socket() == old(t).socket(),
        final(buf)@.len() == old(buf)@.len(),
        r matches Ok(n) ==> n <= old(buf)@.len(),
        final(t).calls() == old(t).calls().push(CallRecord {
            call: SocketCall::Recv { capacity: old(buf)@.len() },
            error: error_of(r),
            received: match r {
                Ok(n) => final(buf)@.take(n as int),
                Err(_) => Seq::empty(),
            },
            address: None,
            socket: Some(old(t).socket()),
        }),
{
    std::io::Read::read(&mut &*t.socket, buf.as_mut_slice())
}

/// `socket2::Socket::set_reuse_address`.
#[verifier::external_body]
pub(crate) fn socket_set_reuse_address(t: &mut TracedSocket, on: bool) -> (r: std::io::Result<()>)
    ensures
        final(t).socket() == old(t).socket(),
        final(t).calls() == old(t).calls().push(record(old(t).socket(), SocketCall::Op(SocketOp::ReuseAddress(on)), r)),
{
    t.socket.set_reuse_address(on)
}

/// `socket2::Socket::set_multicast_loop_v4`.
#[verifier::external_body]
pub(crate) fn socket_set_multicast_loop_v4(t: &mut TracedSocket, on: bool) -> (r: std::io::Result<()>)
    ensures
        final(t).socket() == old(t).socket(),
        final(t).calls() == old(t).calls().push(record(old(t).socket(), SocketCall::Op(SocketOp::MulticastLoopV4(on)), r)),
{
    t.socket.set_multicast_loop_v4(on)
}

/// `socket2::Socket::set_multicast_ttl_v4`.
#[verifier::external_body]
pub(crate) fn socket_set_multicast_ttl_v4(t: &mut TracedSocket, ttl: u32) -> (r: std::io::Result<()>)
    ensures
        final(t).socket() == old(t).socket(),
        final(t).calls() == old(t).calls().push(record(old(t).socket(), SocketCall::Op(SocketOp::MulticastTtlV4(ttl)), r)),
{
    t.socket.set_multicast_ttl_v4(ttl)
}

/// `socket2::Socket::set_multicast_if_v4`.
#[verifier::external_body]
pub(crate) fn socket_set_multicast_if_v4(t: &mut TracedSocket, a: &Ipv4Addr) -> (r: std::io::Result<()>)
    ensures
        final(t).socket() == old(t).socket(),
        final(t).calls() == old(t).calls().push(record(old(t).socket(), SocketCall::Op(SocketOp::MulticastIfV4(*a)), r)),
{
    t.socket.set_multicast_if_v4(&[a.0, a.1, a.2, a.3].into())
}

/// `socket2::Socket::set_multicast_loop_v6`.
#[verifier::external_body]
pub(crate) fn socket_set_multicast_loop_v6(t: &mut TracedSocket, on: bool) -> (r: std::io::Result<()>)
    ensures
        final(t).socket() == old(t).socket(),
        final(t).calls() == old(t).calls().push(record(old(t).socket(), SocketCall::Op(SocketOp::MulticastLoopV6(on)), r)),
{
    t.socket.set_multicast_loop_v6(on)
}

/// `socket2::Socket::set_unicast_hops_v6`.
#[verifier::external_body]
pub(crate) fn socket_set_unicast_hops_v6(t: &mut TracedSocket, hops: u32) -> (r: std::io::Result<()>)
    ensures
        final(t).socket() == old(t).socket(),
        final(t).calls() == old(t).calls().push(record(old(t).socket(), SocketCall::Op(SocketOp::UnicastHopsV6(hops)), r)),
{
    t.socket.set_unicast_hops_v6(hops)
}

/// `socket2::Socket::set_multicast_if_v6`.
#[verifier::external_body]
pub(crate) fn socket_set_multicast_if_v6(t: &mut TracedSocket, index: u32) -> (r: std::io::Result<()>)
    ensures
        final(t).socket() == old(t).socket(),
        final(t).calls() == old(t).calls().push(record(old(t).socket(), SocketCall::Op(SocketOp::MulticastIfV6(index)), r)),
{
    t.socket.set_multicast_if_v6(index)
}

/// `socket2::Socket::join_multicast_v4`.
#[verifier::external_body]
pub(crate) fn socket_join_multicast_v4(t: &mut TracedSocket, g: &Ipv4Addr, i: &Ipv4Addr) -> (r: std::io::Result<()>)
    ensures
        final(t).socket() == old(t).socket(),
        final(t).calls() == old(t).calls().push(
            record(old(t).socket(), SocketCall::Op(SocketOp::JoinV4 { group: *g, interface: *i }), r),
        ),
{
    t.socket.join_multicast_v4(&[g.0, g.1, g.2, g.3].into(), &[i.0, i.1, i.2, i.3].into())
}

/// `socket2::Socket::join_multicast_v6`.
#[verifier::external_body]
pub(crate) fn socket_join_multicast_v6(t: &mut TracedSocket, g: &Ipv6Addr, index: u32) -> (r: std::io::Result<()>)
    ensures
        final(t).socket() == old(t).socket(),
        final(t).calls() == old(t).calls().push(
            record(old(t).socket(), SocketCall::Op(SocketOp::JoinV6 { group: *g, index }), r),
        ),
{
    t.socket.join_multicast_v6(&[g.0, g.1, g.2, g.3, g.4, g.5, g.6, g.7].into(), index)
}

/// `socket2::Socket::leave_multicast_v4`.
#[verifier::external_body]
pub(crate) fn socket_leave_multicast_v4(t: &mut TracedSocket, g: &Ipv4Addr, i: &Ipv4Addr) -> (r: std::io::Result<()>)
    ensures
        final(t).socket() == old(t).socket(),
        final(t).calls() == old(t).calls().push(
            record(old(t).socket(), SocketCall::Op(SocketOp::LeaveV4 { group: *g, interface: *i }), r),
        ),
{
    t.socket.leave_multicast_v4(&[g.0, g.1, g.2, g.3].into(), &[i.0, i.1, i.2, i.3].into())
}

/// `socket2::Socket::leave_multicast_v6`.
#[verifier::external_body]
pub(crate) fn socket_leave_multicast_v6(t: &mut TracedSocket, g: &Ipv6Addr, index: u32) -> (r: std::io::Result<()>)
    ensures
        final(t).socket() == old(t).socket(),
        final(t).calls() == old(t).calls().push(
            record(old(t).socket(), SocketCall::Op(SocketOp::LeaveV6 { group: *g, index }), r),
        ),
{
    t.socket.leave_multicast_v6(&[g.0, g.1, g.2, g.3, g.4, g.5, g.6, g.7].into(), index)
}

/// `socket2::Socket::set_nonblocking`.
#[verifier::external_body]
pub(crate) fn socket_set_nonblocking(t: &mut TracedSocket, on: bool) -> (r: std::io::Result<()>)
    ensures
        final(t).socket() == old(t).socket(),
        final(t).calls() == old(t).calls().push(record(old(t).socket(), SocketCall::Op(SocketOp::Nonblocking(on)), r)),
{
    t.socket.set_nonblocking(on)
}

/// `socket2::Socket::set_read_timeout` with a timeout.
#[verifier::external_body]
pub(crate) fn socket_set_read_timeout(t: &mut TracedSocket, d: std::time::Duration) -> (r: std::io::Result<()>)
    ensures
        final(t).socket() == old(t).socket(),
        final(t).calls() == old(t).calls().push(record(old(t).socket(), SocketCall::ReadTimeout(d), r)),
{
    t.socket.set_read_timeout(Some(d))
}

} // verus!
