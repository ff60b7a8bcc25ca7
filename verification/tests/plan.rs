use tokio_multicast::{
    default_interface_v4, default_interface_v6, group_as_v6_socket, membership_join_step,
    membership_target, setup_plan, Interface, IpAddr, Ipv4Addr, Ipv6Addr, Membership,
    MembershipSet, MulticastConfig, MulticastError, MulticastSocketBuilder, SetupStep,
    SocketAddr, SocketAddrV6, SocketOp,
};

fn ops(steps: &[SetupStep]) -> Vec<SocketOp> {
    steps
        .iter()
        .map(|s| match s {
            SetupStep::Perform(op) => *op,
            SetupStep::Reject(e) => panic!("unexpected rejection {:?}", e),
        })
        .collect()
}

#[test]
fn default_config_values() {
    let c = MulticastConfig::default();
    assert_eq!(c.bind_addr, SocketAddr::v4(Ipv4Addr::new(0, 0, 0, 0), 0));
    assert!(c.memberships.is_empty());
    assert_eq!(c.inbound_interface, None);
    assert_eq!(c.outbound_interface, None);
    assert!(c.reuse_addr);
    assert!(!c.reuse_port);
    assert!(c.loopback);
    assert_eq!(c.ttl, Some(1));
}

#[test]
fn builder_setters_fill_config() {
    let b = MulticastSocketBuilder::new()
        .bind(SocketAddr::v4(Ipv4Addr::new(0, 0, 0, 0), 9000))
        .join(IpAddr::V4(Ipv4Addr::new(239, 0, 0, 1)))
        .join_source(IpAddr::V4(Ipv4Addr::new(232, 0, 0, 1)), IpAddr::V4(Ipv4Addr::new(10, 0, 0, 9)))
        .inbound_interface(Interface::V4(Ipv4Addr::new(10, 0, 0, 1)))
        .outbound_interface(Interface::Name(String::from("eth0")))
        .reuse_addr(false)
        .reuse_port(true)
        .loopback(false)
        .ttl(8);
    let c = b.config();
    assert_eq!(c.bind_addr.port(), 9000);
    assert_eq!(
        c.memberships,
        vec![
            Membership::any_source(IpAddr::V4(Ipv4Addr::new(239, 0, 0, 1))),
            Membership::source_specific(
                IpAddr::V4(Ipv4Addr::new(232, 0, 0, 1)),
                IpAddr::V4(Ipv4Addr::new(10, 0, 0, 9))
            ),
        ]
    );
    assert_eq!(c.inbound_interface, Some(Interface::V4(Ipv4Addr::new(10, 0, 0, 1))));
    assert_eq!(c.outbound_interface, Some(Interface::Name(String::from("eth0"))));
    assert!(!c.reuse_addr && c.reuse_port && !c.loopback);
    assert_eq!(c.ttl, Some(8));
}

#[test]
fn membership_group_of_both_kinds() {
    let g = IpAddr::V4(Ipv4Addr::new(232, 1, 1, 1));
    let s = IpAddr::V4(Ipv4Addr::new(192, 168, 1, 10));
    assert_eq!(Membership::any_source(g).group(), g);
    assert_eq!(Membership::source_specific(g, s).group(), g);
}

#[test]
fn membership_target_requires_multicast() {
    let ok = Membership::any_source(IpAddr::V4(Ipv4Addr::new(239, 255, 255, 255)));
    assert_eq!(membership_target(&ok).unwrap(), ok.group());
    let v6 = Membership::any_source(IpAddr::V6(Ipv6Addr::new(0xff05, 0, 0, 0, 0, 0, 0, 2)));
    assert_eq!(membership_target(&v6).unwrap(), v6.group());
    let bad = Membership::any_source(IpAddr::V4(Ipv4Addr::new(223, 255, 255, 255)));
    assert!(matches!(
        membership_target(&bad),
        Err(MulticastError::InvalidGroupAddress(a)) if a == bad.group()
    ));
    let bad6 = Membership::any_source(IpAddr::V6(Ipv6Addr::new(0xfe80, 0, 0, 0, 0, 0, 0, 1)));
    assert!(matches!(membership_target(&bad6), Err(MulticastError::InvalidGroupAddress(_))));
}

#[test]
fn default_interfaces() {
    assert_eq!(default_interface_v4(None).unwrap(), Ipv4Addr::new(0, 0, 0, 0));
    assert_eq!(default_interface_v6(None).unwrap(), 0);
    let v4 = Interface::V4(Ipv4Addr::new(10, 1, 2, 3));
    assert_eq!(default_interface_v4(Some(&v4)).unwrap(), Ipv4Addr::new(10, 1, 2, 3));
    assert!(matches!(
        default_interface_v6(Some(&v4)),
        Err(MulticastError::UnsupportedOption("ipv4 interface on ipv6 socket"))
    ));
    let v6 = Interface::V6(4);
    assert_eq!(default_interface_v6(Some(&v6)).unwrap(), 4);
    assert!(matches!(
        default_interface_v4(Some(&v6)),
        Err(MulticastError::UnsupportedOption("ipv6 interface on ipv4 socket"))
    ));
    let name = Interface::Name(String::from("lo"));
    assert!(matches!(
        default_interface_v4(Some(&name)),
        Err(MulticastError::UnsupportedOption("interface name lookup"))
    ));
    assert!(matches!(
        default_interface_v6(Some(&name)),
        Err(MulticastError::UnsupportedOption("interface name lookup"))
    ));
}

#[test]
fn group_as_v6_socket_sets_scope() {
    let g = Ipv6Addr::new(0xff02, 0, 0, 0, 0, 0, 0, 1);
    assert_eq!(group_as_v6_socket(g, 7, 2), SocketAddrV6::new(g, 7, 0, 2));
}

#[test]
fn join_step_order_of_checks() {
    let name = Interface::Name(String::from("eth0"));
    let bad = Membership::any_source(IpAddr::V4(Ipv4Addr::new(10, 0, 0, 1)));
    // The interface is checked before the group.
    assert!(matches!(
        membership_join_step(&bad, Some(&name)),
        SetupStep::Reject(MulticastError::UnsupportedOption("interface name lookup"))
    ));
    assert!(matches!(
        membership_join_step(&bad, None),
        SetupStep::Reject(MulticastError::InvalidGroupAddress(_))
    ));
    let ssm = Membership::source_specific(
        IpAddr::V4(Ipv4Addr::new(10, 0, 0, 1)),
        IpAddr::V4(Ipv4Addr::new(10, 0, 0, 2)),
    );
    assert!(matches!(
        membership_join_step(&ssm, Some(&name)),
        SetupStep::Reject(MulticastError::UnsupportedOption("source-specific multicast"))
    ));
    let v6 = Membership::any_source(IpAddr::V6(Ipv6Addr::new(0xff02, 0, 0, 0, 0, 0, 0, 0x114)));
    assert!(matches!(
        membership_join_step(&v6, Some(&Interface::V6(9))),
        SetupStep::Perform(SocketOp::JoinV6 { index: 9, .. })
    ));
}

#[test]
fn setup_plan_for_ipv4() {
    let mut c = MulticastConfig::default();
    c.bind_addr = SocketAddr::v4(Ipv4Addr::new(0, 0, 0, 0), 46053);
    c.memberships.push(Membership::any_source(IpAddr::V4(Ipv4Addr::new(239, 1, 1, 10))));
    c.outbound_interface = Some(Interface::V4(Ipv4Addr::new(10, 0, 0, 5)));
    c.reuse_port = true;
    let plan = setup_plan(&c);
    assert_eq!(
        ops(&plan),
        vec![
            SocketOp::ReuseAddress(true),
            SocketOp::ReuseAddress(true),
            SocketOp::Bind(c.bind_addr),
            SocketOp::MulticastLoopV4(true),
            SocketOp::MulticastTtlV4(1),
            SocketOp::MulticastIfV4(Ipv4Addr::new(10, 0, 0, 5)),
            SocketOp::JoinV4 {
                group: Ipv4Addr::new(239, 1, 1, 10),
                interface: Ipv4Addr::new(0, 0, 0, 0),
            },
            SocketOp::Nonblocking(true),
        ]
    );
}

#[test]
fn setup_plan_for_ipv6() {
    let g = Ipv6Addr::new(0xff02, 0, 0, 0, 0, 0, 0, 0x114);
    let mut c = MulticastConfig::default();
    c.bind_addr = SocketAddr::v6(Ipv6Addr::unspecified(), 5000);
    c.memberships.push(Membership::any_source(IpAddr::V6(g)));
    c.reuse_addr = false;
    c.loopback = false;
    c.ttl = None;
    c.inbound_interface = Some(Interface::V6(2));
    c.outbound_interface = Some(Interface::V6(2));
    assert_eq!(
        ops(&setup_plan(&c)),
        vec![
            SocketOp::Bind(c.bind_addr),
            SocketOp::MulticastLoopV6(false),
            SocketOp::MulticastIfV6(2),
            SocketOp::JoinV6 { group: g, index: 2 },
            SocketOp::Nonblocking(true),
        ]
    );
    c.ttl = Some(300);
    let plan = setup_plan(&c);
    assert!(matches!(plan[1], SetupStep::Perform(SocketOp::MulticastLoopV6(false))));
    assert!(matches!(plan[2], SetupStep::Reject(MulticastError::UnsupportedOption("ipv6 ttl > 255"))));
    c.ttl = Some(255);
    assert!(matches!(setup_plan(&c)[2], SetupStep::Perform(SocketOp::UnicastHopsV6(255))));
}

#[test]
fn membership_set_behaves_as_a_set() {
    let a = Membership::any_source(IpAddr::V4(Ipv4Addr::new(224, 0, 0, 1)));
    let b = Membership::any_source(IpAddr::V4(Ipv4Addr::new(224, 0, 0, 2)));
    let mut set = MembershipSet::from_slice(&[a, b, a]);
    assert_eq!(set.len(), 2);
    assert_eq!(set.to_vec(), vec![a, b]);
    assert!(!set.insert(a));
    assert_eq!(set.len(), 2);
    assert!(set.remove(&a));
    assert!(!set.remove(&a));
    assert_eq!(set.to_vec(), vec![b]);
    assert!(set.insert(a));
    assert_eq!(set.to_vec(), vec![b, a]);
    assert!(!MembershipSet::new().contains(&a));
}
