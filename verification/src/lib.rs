//! Helpers for UDP multicast: addresses, socket settings and their builder,
//! the verified setup sequence of a multicast socket, the bookkeeping of its
//! group memberships, received datagrams, and loopback diagnostics.

mod address;
mod builder;
mod config;
mod diagnostics;
mod error;
mod interface;
mod membership;
mod packet;
mod raw;
mod socket;
mod sys;
mod text;
mod trace;

pub use address::{IpAddr, Ipv4Addr, Ipv6Addr, SocketAddr, SocketAddrV4, SocketAddrV6};
pub use builder::MulticastSocketBuilder;
pub use config::MulticastConfig;
pub use diagnostics::{
    diagnose_ipv4, diagnose_ipv6, diagnose_multicast, diagnose_multicast_with_config,
    map_multicast_error, probe_report, try_ipv4_probe, try_ipv6_probe, MulticastDiagnosticConfig,
    MulticastDiagnostics, ProbeErrorKind, ProbeFailure, ProbeResult, ProbeStages, ProbeStep,
    ProbeSuccess,
};
pub use error::{MulticastError, Result};
pub use interface::{Interface, InterfaceId};
pub use membership::{Membership, MembershipSet};
pub use packet::{Datagram, RecvMeta};
pub use raw::{
    default_interface_v4, default_interface_v6, group_as_v6_socket, membership_join_step,
    membership_target, setup_plan, SetupStep, SocketOp,
};
pub use socket::{
    finish_join, finish_leave, group_target, ipv6_scope_id, join_on, leave_on, membership_op, plan_join,
    plan_leave, primary_group, PreparedSocket,
};
pub use sys::{
    after_operation, bind, build_std_socket, join_membership, local_addr, loopback_interface_v6,
    perform, run_setup, send_to, set_reuse_port, BuildAttempt,
};
pub use trace::{CallLog, CallRecord, SocketCall, TracedSocket};
