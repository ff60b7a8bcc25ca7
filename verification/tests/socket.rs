use tokio_multicast::{
    after_operation, build_std_socket, set_reuse_port, join_on, leave_on, finish_join, finish_leave, group_target, local_addr, plan_join, plan_leave, primary_group,
    Datagram, Interface, IpAddr, Ipv4Addr, Ipv6Addr, Membership, MembershipSet, MulticastConfig,
    MulticastError, MulticastSocketBuilder, SocketAddr, SocketAddrV6, SocketOp, TracedSocket,
};

fn free_port() -> u16 {
    let s = socket2::Socket::new(socket2::Domain::IPV4, socket2::Type::DGRAM, None).unwrap();
    let mut t = TracedSocket::new(&s);
    tokio_multicast::bind(&mut t, &SocketAddr::v4(Ipv4Addr::localhost(), 0)).unwrap();
    local_addr(&mut t).unwrap().port()
}

fn builder() -> MulticastSocketBuilder {
    MulticastSocketBuilder::new()
}

#[test]
fn builder_requires_bind_port() {
    let err = builder()
        .bind(SocketAddr::v4(Ipv4Addr::unspecified(), 0))
        .join(IpAddr::V4(Ipv4Addr::new(224, 0, 0, 251)))
        .build()
        .err()
        .unwrap();

    assert!(matches!(err, MulticastError::BindAddressRequired));
}

#[test]
fn builder_requires_membership() {
    let err = builder()
        .bind(SocketAddr::v4(Ipv4Addr::unspecified(), free_port()))
        .build()
        .err()
        .unwrap();

    assert!(matches!(err, MulticastError::NoMembershipsConfigured));
}

#[test]
fn builder_rejects_non_multicast_group() {
    let err = builder()
        .bind(SocketAddr::v4(Ipv4Addr::unspecified(), free_port()))
        .join(IpAddr::V4(Ipv4Addr::new(127, 0, 0, 1)))
        .build()
        .err()
        .unwrap();

    assert!(matches!(
        err,
        MulticastError::InvalidGroupAddress(IpAddr::V4(addr)) if addr == Ipv4Addr::new(127, 0, 0, 1)
    ));
}

#[test]
fn builder_rejects_source_specific_membership() {
    let err = builder()
        .bind(SocketAddr::v4(Ipv4Addr::unspecified(), free_port()))
        .join_source(
            IpAddr::V4(Ipv4Addr::new(232, 1, 1, 1)),
            IpAddr::V4(Ipv4Addr::new(192, 168, 1, 10)),
        )
        .build()
        .err()
        .unwrap();

    assert!(matches!(err, MulticastError::UnsupportedOption("source-specific multicast")));
}

#[test]
fn builder_rejects_large_ipv6_ttl() {
    let err = builder()
        .bind(SocketAddr::V6(SocketAddrV6::new(Ipv6Addr::unspecified(), free_port(), 0, 0)))
        .join(IpAddr::V6(Ipv6Addr::new(0xff02, 0, 0, 0, 0, 0, 0, 0x114)))
        .ttl(256)
        .build();
    match err {
        Err(MulticastError::UnsupportedOption(option)) => assert_eq!(option, "ipv6 ttl > 255"),
        // Machines without IPv6 fail earlier, creating or binding the socket.
        Err(MulticastError::Io(_)) | Err(MulticastError::BindFailed { .. }) => {},
        other => panic!("unexpected result: {:?}", other.map(|p| p.config)),
    }
}

#[test]
fn builder_values_reach_config() {
    let bind_addr = SocketAddr::v4(Ipv4Addr::unspecified(), free_port());
    let b = builder()
        .bind(bind_addr)
        .join(IpAddr::V4(Ipv4Addr::new(224, 0, 0, 158)))
        .reuse_addr(false)
        .reuse_port(false)
        .loopback(false)
        .ttl(16);

    let config = b.config();
    assert_eq!(config.bind_addr, bind_addr);
    assert_eq!(config.reuse_addr, false);
    assert_eq!(config.reuse_port, false);
    assert_eq!(config.loopback, false);
    assert_eq!(config.ttl, Some(16));
}

/// The settings and the membership state that a socket built from `b` starts with.
fn state_of(b: MulticastSocketBuilder) -> (MulticastConfig, MembershipSet) {
    let config = b.config().clone();
    let set = MembershipSet::from_slice(&config.memberships);
    (config, set)
}

#[test]
fn duplicate_join_plan_keeps_membership_state() {
    let group = IpAddr::V4(Ipv4Addr::new(224, 0, 0, 253));
    let (config, set) = state_of(
        builder().bind(SocketAddr::v4(Ipv4Addr::unspecified(), free_port())).join(group),
    );

    let plan = plan_join(&config, &set, &Membership::any_source(group)).unwrap();
    assert!(plan.is_none());

    let memberships = set.to_vec();
    assert_eq!(memberships.len(), 1);
    assert!(memberships.contains(&Membership::any_source(group)));
}

#[test]
fn leave_plan_of_absent_membership_is_noop() {
    let joined = IpAddr::V4(Ipv4Addr::new(224, 0, 0, 254));
    let absent = Membership::any_source(IpAddr::V4(Ipv4Addr::new(224, 0, 0, 200)));
    let (config, set) = state_of(
        builder().bind(SocketAddr::v4(Ipv4Addr::unspecified(), free_port())).join(joined),
    );

    assert!(plan_leave(&config, &set, &absent).unwrap().is_none());

    let memberships = set.to_vec();
    assert_eq!(memberships.len(), 1);
    assert!(memberships.contains(&Membership::any_source(joined)));
}

#[test]
fn dynamic_source_specific_join_plan_is_rejected() {
    let (config, set) = state_of(
        builder()
            .bind(SocketAddr::v4(Ipv4Addr::unspecified(), free_port()))
            .join(IpAddr::V4(Ipv4Addr::new(224, 0, 0, 251))),
    );

    let err = plan_join(
        &config,
        &set,
        &Membership::source_specific(
            IpAddr::V4(Ipv4Addr::new(232, 1, 1, 1)),
            IpAddr::V4(Ipv4Addr::new(192, 168, 1, 10)),
        ),
    )
    .unwrap_err();

    assert!(matches!(
        err,
        MulticastError::UnsupportedOption("dynamic source-specific membership")
    ));
}

#[test]
fn completed_leave_removes_membership_from_state() {
    let group = IpAddr::V4(Ipv4Addr::new(224, 0, 0, 155));
    let membership = Membership::any_source(group);
    let (config, mut set) = state_of(
        builder().bind(SocketAddr::v4(Ipv4Addr::unspecified(), free_port())).join(group),
    );

    let op = plan_leave(&config, &set, &membership).unwrap().unwrap();
    assert_eq!(
        op,
        SocketOp::LeaveV4 { group: Ipv4Addr::new(224, 0, 0, 155), interface: Ipv4Addr::unspecified() }
    );
    finish_leave(&mut set, &membership, Ok(())).unwrap();

    let memberships = set.to_vec();
    assert!(!memberships.contains(&membership));
    assert!(memberships.is_empty());
}

#[test]
fn join_of_new_group_is_recorded() {
    let first = IpAddr::V4(Ipv4Addr::new(224, 0, 0, 159));
    let second = Membership::any_source(IpAddr::V4(Ipv4Addr::new(224, 0, 0, 160)));
    let mut socket = builder()
        .bind(SocketAddr::v4(Ipv4Addr::unspecified(), free_port()))
        .join(first)
        .inbound_interface(Interface::V4(Ipv4Addr::new(127, 0, 0, 1)))
        .build();
    // Joining on 127.0.0.1 is refused on machines without multicast there.
    if let Ok(socket) = socket.as_mut() {
        let op = plan_join(&socket.config, &socket.memberships, &second).unwrap().unwrap();
        assert_eq!(
            op,
            SocketOp::JoinV4 {
                group: Ipv4Addr::new(224, 0, 0, 160),
                interface: Ipv4Addr::new(127, 0, 0, 1),
            }
        );
        finish_join(&mut socket.memberships, second, Ok(())).unwrap();
        let memberships = socket.memberships.to_vec();
        assert_eq!(memberships, vec![Membership::any_source(first), second]);
    }
}

#[test]
fn failed_join_leaves_state_unchanged() {
    let mut set = MembershipSet::new();
    let m = Membership::any_source(IpAddr::V4(Ipv4Addr::new(224, 0, 0, 1)));
    let err = finish_join(&mut set, m, Err(std::io::Error::other("no"))).unwrap_err();
    assert!(matches!(&err, MulticastError::Io(e) if e.to_string() == "no"));
    assert!(set.is_empty());
    finish_join(&mut set, m, Ok(())).unwrap();
    assert!(set.contains(&m));
    let err = finish_leave(&mut set, &m, Err(std::io::Error::other("no"))).unwrap_err();
    assert!(matches!(err, MulticastError::Io(_)));
    assert_eq!(set.len(), 1);
}

#[test]
fn group_target_uses_primary_group_and_bind_port() {
    let mut config = MulticastConfig::default();
    assert!(matches!(group_target(&config), Err(MulticastError::NoMembershipsConfigured)));
    config.bind_addr = SocketAddr::v4(Ipv4Addr::unspecified(), 46053);
    config.memberships.push(Membership::any_source(IpAddr::V4(Ipv4Addr::new(239, 1, 1, 10))));
    config.memberships.push(Membership::any_source(IpAddr::V4(Ipv4Addr::new(239, 1, 1, 11))));
    assert_eq!(
        group_target(&config).unwrap(),
        SocketAddr::v4(Ipv4Addr::new(239, 1, 1, 10), 46053)
    );
    assert_eq!(primary_group(&config), Some(IpAddr::V4(Ipv4Addr::new(239, 1, 1, 10))));

    let mut v6 = MulticastConfig::default();
    let group = Ipv6Addr::new(0xff02, 0, 0, 0, 0, 0, 0, 0x114);
    v6.bind_addr = SocketAddr::v6(Ipv6Addr::unspecified(), 5000);
    v6.memberships.push(Membership::any_source(IpAddr::V6(group)));
    v6.inbound_interface = Some(Interface::V6(3));
    assert_eq!(group_target(&v6).unwrap(), SocketAddr::V6(SocketAddrV6::new(group, 5000, 0, 3)));
    v6.outbound_interface = Some(Interface::V6(7));
    assert_eq!(group_target(&v6).unwrap(), SocketAddr::V6(SocketAddrV6::new(group, 5000, 0, 7)));
}

#[test]
fn datagram_keeps_received_bytes_and_primary_group() {
    let mut config = MulticastConfig::default();
    config.memberships.push(Membership::any_source(IpAddr::V4(Ipv4Addr::new(224, 0, 0, 252))));
    let peer = SocketAddr::v4(Ipv4Addr::new(10, 0, 0, 2), 4000);
    let mut buf = vec![0_u8; 32];
    buf[..4].copy_from_slice(b"meta");
    let now = std::time::SystemTime::now();
    let d = Datagram::from_received(buf, 4, peer, None, &config, now);
    assert_eq!(d.payload.as_ref(), b"meta");
    assert_eq!(d.meta.group, Some(IpAddr::V4(Ipv4Addr::new(224, 0, 0, 252))));
    assert_eq!(d.meta.peer, peer);
    assert!(d.meta.interface.is_none());
    assert_eq!(d.meta.timestamp, Some(now));
    let d = Datagram::from_received(vec![1, 2], 5, peer, None, &config, now);
    assert_eq!(d.payload.as_ref(), &[1, 2]);
}

#[test]
fn join_then_leave_restores_membership_state() {
    let (config, mut set) = state_of(
        builder()
            .bind(SocketAddr::v4(Ipv4Addr::unspecified(), 7000))
            .join(IpAddr::V4(Ipv4Addr::new(224, 0, 0, 10))),
    );
    let before = set.to_vec();
    let m = Membership::any_source(IpAddr::V6(Ipv6Addr::new(0xff02, 0, 0, 0, 0, 0, 0, 0x200)));
    let join = plan_join(&config, &set, &m).unwrap().unwrap();
    assert_eq!(
        join,
        SocketOp::JoinV6 { group: Ipv6Addr::new(0xff02, 0, 0, 0, 0, 0, 0, 0x200), index: 0 }
    );
    finish_join(&mut set, m, Ok(())).unwrap();
    assert!(plan_join(&config, &set, &m).unwrap().is_none());
    let leave = plan_leave(&config, &set, &m).unwrap().unwrap();
    assert_eq!(
        leave,
        SocketOp::LeaveV6 { group: Ipv6Addr::new(0xff02, 0, 0, 0, 0, 0, 0, 0x200), index: 0 }
    );
    finish_leave(&mut set, &m, Ok(())).unwrap();
    assert_eq!(set.to_vec(), before);
}

#[test]
fn join_on_and_leave_on_follow_the_membership_state() {
    let s = socket2::Socket::new(socket2::Domain::IPV4, socket2::Type::DGRAM, None).unwrap();
    let mut t = TracedSocket::new(&s);
    tokio_multicast::bind(&mut t, &SocketAddr::v4(Ipv4Addr::unspecified(), 0)).unwrap();
    let held = Membership::any_source(IpAddr::V4(Ipv4Addr::new(224, 0, 0, 161)));
    let fresh = Membership::any_source(IpAddr::V4(Ipv4Addr::new(224, 0, 0, 162)));
    let mut config = MulticastConfig::default();
    config.memberships.push(held);
    let mut set = MembershipSet::from_slice(&config.memberships);

    // Already held: nothing to do.
    join_on(&mut t, &config, &mut set, held).unwrap();
    assert_eq!(set.to_vec(), vec![held]);
    // Not held: nothing to leave.
    leave_on(&mut t, &config, &mut set, &fresh).unwrap();
    assert_eq!(set.to_vec(), vec![held]);
    // Source-specific memberships are refused before any call.
    let ssm = Membership::source_specific(
        IpAddr::V4(Ipv4Addr::new(232, 1, 1, 1)),
        IpAddr::V4(Ipv4Addr::new(192, 168, 1, 10)),
    );
    let err = join_on(&mut t, &config, &mut set, ssm).unwrap_err();
    assert!(matches!(err, MulticastError::UnsupportedOption("dynamic source-specific membership")));
    assert_eq!(set.to_vec(), vec![held]);
    // A fresh join is recorded when the system accepts it, and not otherwise.
    match join_on(&mut t, &config, &mut set, fresh) {
        Ok(()) => {
            assert_eq!(set.to_vec(), vec![held, fresh]);
            leave_on(&mut t, &config, &mut set, &fresh).unwrap();
            assert_eq!(set.to_vec(), vec![held]);
        }
        Err(MulticastError::Io(_)) => assert_eq!(set.to_vec(), vec![held]),
        Err(other) => panic!("unexpected error: {:?}", other),
    }
}

#[test]
fn failed_operations_carry_their_error() {
    let addr = SocketAddr::v4(Ipv4Addr::new(10, 0, 0, 1), 5000);
    let err = after_operation(&SocketOp::Bind(addr), Err(std::io::Error::other("taken"))).unwrap_err();
    match err {
        MulticastError::BindFailed { addr: a, source } => {
            assert_eq!(a, addr);
            assert_eq!(source.to_string(), "taken");
        }
        other => panic!("unexpected error: {:?}", other),
    }
    let err = after_operation(&SocketOp::MulticastLoopV4(true), Err(std::io::Error::other("off"))).unwrap_err();
    assert!(matches!(&err, MulticastError::Io(e) if e.to_string() == "off"));
    assert!(after_operation(&SocketOp::Nonblocking(true), Ok(())).is_ok());
}

#[test]
fn built_socket_is_bound_to_its_address() {
    let port = free_port();
    let mut config = MulticastConfig::default();
    config.bind_addr = SocketAddr::v4(Ipv4Addr::unspecified(), port);
    config.memberships.push(Membership::any_source(IpAddr::V4(Ipv4Addr::new(224, 0, 0, 163))));
    let attempt = build_std_socket(&config);
    match attempt.result {
        Ok(socket) => {
            let mut t = TracedSocket::new(&socket);
            assert_eq!(local_addr(&mut t).unwrap().port(), port);
            assert!(socket.nonblocking().unwrap());
        }
        // Machines without a multicast route refuse the join.
        Err(MulticastError::Io(_)) => {}
        Err(other) => panic!("unexpected error: {:?}", other),
    }
    config.ttl = Some(300);
    config.bind_addr = SocketAddr::v6(Ipv6Addr::unspecified(), port);
    config.memberships[0] = Membership::any_source(IpAddr::V6(Ipv6Addr::new(0xff02, 0, 0, 0, 0, 0, 0, 0x114)));
    match build_std_socket(&config).result {
        Err(MulticastError::UnsupportedOption(o)) => assert_eq!(o, "ipv6 ttl > 255"),
        // Machines without IPv6 fail earlier, creating or binding the socket.
        Err(MulticastError::Io(_)) | Err(MulticastError::BindFailed { .. }) => {}
        other => panic!("unexpected result: {:?}", other.err()),
    }
}

#[test]
fn port_reuse_sets_address_reuse() {
    let s = socket2::Socket::new(socket2::Domain::IPV4, socket2::Type::DGRAM, None).unwrap();
    let mut t = TracedSocket::new(&s);
    set_reuse_port(&mut t, true).unwrap();
    assert!(s.reuse_address().unwrap());
    let mut t = TracedSocket::new(&s);
    set_reuse_port(&mut t, false).unwrap();
    assert!(!s.reuse_address().unwrap());
}
