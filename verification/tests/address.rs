use tokio_multicast::{IpAddr, Ipv4Addr, Ipv6Addr, MulticastError, SocketAddr, SocketAddrV6};

#[test]
fn ipv4_text_is_dotted_decimal() {
    assert_eq!(Ipv4Addr::new(239, 1, 1, 250).to_text(), "239.1.1.250");
    assert_eq!(Ipv4Addr::new(0, 0, 0, 0).to_text(), "0.0.0.0");
    assert_eq!(Ipv4Addr::new(255, 10, 100, 9).to_text(), "255.10.100.9");
}

#[test]
fn ipv6_text_matches_std() {
    assert_eq!(Ipv6Addr::new(0xff02, 0, 0, 0, 0, 0, 0, 0x114).to_text(), "ff02::114");
    assert_eq!(Ipv6Addr::unspecified().to_text(), "::");
    assert_eq!(Ipv6Addr::new(1, 2, 3, 4, 5, 6, 7, 8).to_text(), "1:2:3:4:5:6:7:8");
}

#[test]
fn socket_addr_text() {
    assert_eq!(SocketAddr::v4(Ipv4Addr::new(127, 0, 0, 1), 8080).to_text(), "127.0.0.1:8080");
    assert_eq!(SocketAddr::v6(Ipv6Addr::unspecified(), 53).to_text(), "[::]:53");
    let scoped = SocketAddr::V6(SocketAddrV6::new(Ipv6Addr::new(0xff02, 0, 0, 0, 0, 0, 0, 1), 9, 0, 3));
    assert_eq!(scoped.to_text(), "[ff02::1%3]:9");
}

#[test]
fn multicast_ranges() {
    assert!(Ipv4Addr::new(224, 0, 0, 0).is_multicast());
    assert!(Ipv4Addr::new(239, 255, 255, 255).is_multicast());
    assert!(!Ipv4Addr::new(240, 0, 0, 0).is_multicast());
    assert!(!Ipv4Addr::new(127, 0, 0, 1).is_multicast());
    assert!(Ipv6Addr::new(0xff00, 0, 0, 0, 0, 0, 0, 0).is_multicast());
    assert!(!Ipv6Addr::new(0xfe80, 0, 0, 0, 0, 0, 0, 1).is_multicast());
    assert!(IpAddr::V6(Ipv6Addr::new(0xffff, 0, 0, 0, 0, 0, 0, 1)).is_multicast());
}

#[test]
fn socket_addr_parts() {
    let a = SocketAddr::new(IpAddr::V6(Ipv6Addr::new(1, 0, 0, 0, 0, 0, 0, 1)), 7);
    assert_eq!(a, SocketAddr::V6(SocketAddrV6::new(Ipv6Addr::new(1, 0, 0, 0, 0, 0, 0, 1), 7, 0, 0)));
    assert_eq!(a.port(), 7);
    assert!(!a.is_ipv4());
    assert_eq!(a.ip(), IpAddr::V6(Ipv6Addr::new(1, 0, 0, 0, 0, 0, 0, 1)));
    assert_eq!(Ipv4Addr::localhost().octets(), [127, 0, 0, 1]);
    assert_eq!(Ipv6Addr::new(1, 2, 3, 4, 5, 6, 7, 8).segments(), [1, 2, 3, 4, 5, 6, 7, 8]);
}

#[test]
fn error_messages() {
    let e = MulticastError::InvalidGroupAddress(IpAddr::V4(Ipv4Addr::new(127, 0, 0, 1)));
    assert_eq!(e.message(), "invalid multicast group address: 127.0.0.1");
    assert_eq!(MulticastError::BindAddressRequired.message(), "bind address is required");
    assert_eq!(
        MulticastError::NoMembershipsConfigured.message(),
        "at least one multicast membership is required"
    );
    let io = std::io::Error::other("boom");
    let e = MulticastError::BindFailed { addr: SocketAddr::v4(Ipv4Addr::new(0, 0, 0, 0), 5), source: io };
    assert_eq!(e.message(), "failed to bind 0.0.0.0:5: boom");
    assert!(e.io_source().is_some());
    assert!(MulticastError::BindAddressRequired.io_source().is_none());
    let e: MulticastError = std::io::Error::other("x").into();
    assert!(matches!(e, MulticastError::Io(_)));
    assert_eq!(e.message(), "x");
}
