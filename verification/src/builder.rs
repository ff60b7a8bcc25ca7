use vstd::prelude::*;

use crate::address::{IpAddr, SocketAddr};
use crate::config::{is_default_config, same_settings, MulticastConfig};
use crate::interface::Interface;
use crate::error::MulticastError;
use crate::membership::{Membership, MembershipSet};
use crate::socket::PreparedSocket;
use crate::sys::{build_std_socket, build_run};
use crate::trace::CallRecord;

verus! {

/// Collects the settings of a multicast socket.
#[derive(Debug, Clone)]
pub struct MulticastSocketBuilder {
    config: MulticastConfig,
}

impl Default for MulticastSocketBuilder {
    fn default() -> (r: Self)
        ensures
            is_default_config(r.settings()),
    {
        MulticastSocketBuilder { config: MulticastConfig::default() }
    }
}

impl MulticastSocketBuilder {
    /// The settings collected so far.
    pub closed spec fn settings(&self) -> MulticastConfig {
        self.config
    }

    pub fn new() -> (r: Self)
        ensures
            is_default_config(r.settings()),
    {
        Self::default()
    }

    /// The settings collected so far.
    pub fn config(&self) -> (r: &MulticastConfig)
        ensures
            *r == self.settings(),
    {
        &self.config
    }

    pub fn bind(self, addr: SocketAddr) -> (r: Self)
        ensures
            r.settings() == (MulticastConfig { bind_addr: addr, ..self.settings() }),
    {
        let mut b = self;
        b.config.bind_addr = addr;
        b
    }

    /// Adds an any-source membership of `group`.
    pub fn join(self, group: IpAddr) -> (r: Self)
        ensures
            same_settings(r.settings(), self.settings()),
            r.settings().memberships@ == self.settings().memberships@.push(
                Membership::AnySource { group },
            ),
    {
        let mut b = self;
        b.config.memberships.push(Membership::any_source(group));
        b
    }

    /// Adds a source-specific membership of `group` from `source`.
    pub fn join_source(self, group: IpAddr, source: IpAddr) -> (r: Self)
        ensures
            same_settings(r.settings(), self.settings()),
            r.settings().memberships@ == self.settings().memberships@.push(
                Membership::SourceSpecific { group, source },
            ),
    {
        let mut b = self;
        b.config.memberships.push(Membership::source_specific(group, source));
        b
    }

    pub fn inbound_interface(self, interface: Interface) -> (r: Self)
        ensures
            r.settings() == (MulticastConfig {
                inbound_interface: Some(interface),
                ..self.settings()
            }),
    {
        let mut b = self;
        b.config.inbound_interface = Some(interface);
        b
    }

    pub fn outbound_interface(self, interface: Interface) -> (r: Self)
        ensures
            r.settings() == (MulticastConfig {
                outbound_interface: Some(interface),
                ..self.settings()
            }),
    {
        let mut b = self;
        b.config.outbound_interface = Some(interface);
        b
    }

    pub fn reuse_addr(self, enabled: bool) -> (r: Self)
        ensures
            r.settings() == (MulticastConfig { reuse_addr: enabled, ..self.settings() }),
    {
        let mut b = self;
        b.config.reuse_addr = enabled;
        b
    }

    pub fn reuse_port(self, enabled: bool) -> (r: Self)
        ensures
            r.settings() == (MulticastConfig { reuse_port: enabled, ..self.settings() }),
    {
        let mut b = self;
        b.config.reuse_port = enabled;
        b
    }

    pub fn loopback(self, enabled: bool) -> (r: Self)
        ensures
            r.settings() == (MulticastConfig { loopback: enabled, ..self.settings() }),
    {
        let mut b = self;
        b.config.loopback = enabled;
        b
    }

    pub fn ttl(self, ttl: u32) -> (r: Self)
        ensures
            r.settings() == (MulticastConfig { ttl: Some(ttl), ..self.settings() }),
    {
        let mut b = self;
        b.config.ttl = Some(ttl);
        b
    }

    /// Checks the settings and creates the socket: the bind port must not be
    /// 0 and there must be at least one membership; then the socket is created
    /// and set up as `build_run` says. A socket that is returned carries the
    /// calls made on it, from its own creation on; a failed setup drops the socket, and the error it
    /// returns is that of a run of those calls.
    pub fn build(self) -> (r: Result<PreparedSocket, MulticastError>)
        ensures
            self.settings().bind_addr.spec_port() == 0
                ==> r matches Err(MulticastError::BindAddressRequired),
            self.settings().bind_addr.spec_port() != 0 && self.settings().memberships@.len() == 0
                ==> r matches Err(MulticastError::NoMembershipsConfigured),
            r matches Ok(p) ==> {
                &&& self.settings().bind_addr.spec_port() != 0
                &&& self.settings().memberships@.len() > 0
                &&& p.config == self.settings()
                &&& p.memberships@ == self.settings().memberships@.to_set()
                &&& build_run(self.settings(), p.setup_calls.calls(), Ok(()))
                &&& p.setup_calls.calls()[0].socket == Some(p.socket)
            },
            self.settings().bind_addr.spec_port() != 0 && self.settings().memberships@.len() > 0
                ==> (r matches Err(e) ==> exists|calls: Seq<CallRecord>|
                    #[trigger] build_run(self.settings(), calls, Err(e))),
    {
        if self.config.bind_addr.port() == 0 {
            return Err(MulticastError::BindAddressRequired);
        }
        if self.config.memberships.len() == 0 {
            return Err(MulticastError::NoMembershipsConfigured);
        }
        let attempt = build_std_socket(&self.config);
        let socket = match attempt.result {
            Ok(socket) => socket,
            Err(e) => return Err(e),
        };
        let memberships = MembershipSet::from_slice(self.config.memberships.as_slice());
        Ok(PreparedSocket { socket, config: self.config, memberships, setup_calls: attempt.calls })
    }
}

} // verus!
