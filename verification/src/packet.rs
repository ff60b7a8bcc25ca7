use vstd::prelude::*;

use crate::address::{IpAddr, SocketAddr};
use crate::config::MulticastConfig;
use crate::interface::InterfaceId;
use crate::socket::{primary_group, spec_primary_group};

verus! {

#[verifier::external_type_specification]
#[verifier::external_body]
pub struct ExBytes(bytes::Bytes);

#[verifier::external_type_specification]
#[verifier::external_body]
pub struct ExSystemTime(std::time::SystemTime);

/// The bytes that a `bytes::Bytes` holds.
pub uninterp spec fn bytes_view(b: bytes::Bytes) -> Seq<u8>;

/// `bytes::Bytes::from(Vec<u8>)`: the buffer takes over the vector and holds
/// the same bytes.
#[verifier::external_body]
fn bytes_from_vec(v: Vec<u8>) -> (b: bytes::Bytes)
    ensures
        bytes_view(b) == v@,
{
    bytes::Bytes::from(v)
}

/// `Bytes::clone`: the clone holds the same bytes (it shares the buffer).
pub assume_specification[ <bytes::Bytes as core::clone::Clone>::clone ](b: &bytes::Bytes) -> (r: bytes::Bytes)
    ensures
        bytes_view(r) == bytes_view(*b),
;

/// What is known of a received datagram besides its payload.
#[derive(Debug, Clone)]
pub struct RecvMeta {
    pub peer: SocketAddr,
    pub local_addr: Option<SocketAddr>,
    pub interface: Option<InterfaceId>,
    pub group: Option<IpAddr>,
    pub timestamp: Option<std::time::SystemTime>,
}

/// A received datagram.
#[derive(Debug, Clone)]
pub struct Datagram {
    pub payload: bytes::Bytes,
    pub meta: RecvMeta,
}

impl Datagram {
    /// The datagram of `size` bytes received into `buf` from `peer` on a
    /// socket with settings `config` and local address `local_addr`, at
    /// `timestamp`. The payload is the first `size` bytes of `buf` (all of
    /// it when `size` is larger); the group is the primary group; the
    /// receiving interface is not known.
    pub fn from_received(
        buf: Vec<u8>,
        size: usize,
        peer: SocketAddr,
        local_addr: Option<SocketAddr>,
        config: &MulticastConfig,
        timestamp: std::time::SystemTime,
    ) -> (r: Datagram)
        ensures
            bytes_view(r.payload) == (if size <= buf@.len() { buf@.take(size as int) } else { buf@ }),
            r.meta.peer == peer,
            r.meta.local_addr == local_addr,
            r.meta.interface is None,
            r.meta.group == spec_primary_group(*config),
            r.meta.timestamp == Some(timestamp),
    {
        let mut buf = buf;
        buf.truncate(size);
        Datagram {
            payload: bytes_from_vec(buf),
            meta: RecvMeta {
                peer,
                local_addr,
                interface: None,
                group: primary_group(config),
                timestamp: Some(timestamp),
            },
        }
    }
}

} // verus!
