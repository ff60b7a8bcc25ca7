use std::time::Duration;

use tokio_multicast::{
    diagnose_multicast, diagnose_multicast_with_config, map_multicast_error, Ipv4Addr, Ipv6Addr,
    MulticastDiagnosticConfig, MulticastDiagnostics, MulticastError, ProbeErrorKind, ProbeResult,
    ProbeStages, ProbeStep,
};
use tokio_multicast::{probe_report, try_ipv4_probe, IpAddr};

#[test]
fn diagnostics_returns_structured_report() {
    let report = diagnose_multicast();

    assert!(
        !report.ipv4.label.is_empty() && !report.ipv6.label.is_empty(),
        "probe labels should be populated"
    );
    assert!(
        report.ipv4.details.is_some() || report.ipv4.error.is_some(),
        "ipv4 probe should explain its outcome"
    );
}

#[test]
fn diagnostics_accepts_custom_config() {
    let config = MulticastDiagnosticConfig {
        timeout: Duration::from_millis(200),
        ..MulticastDiagnosticConfig::default()
    };
    let report = diagnose_multicast_with_config(&config);

    assert!(
        report.ipv4.details.as_deref().unwrap_or_default().contains("timeout")
            || report.ipv4.error.is_some()
    );
}

#[test]
fn default_diagnostic_config_values() {
    let config = MulticastDiagnosticConfig::default();
    assert_eq!(config.ipv4_group, Ipv4Addr::new(239, 1, 1, 250));
    assert_eq!(config.ipv6_group, Ipv6Addr::new(0xff02, 0, 0, 0, 0, 0, 0, 0x114));
    assert_eq!(config.ipv6_interface, None);
    assert_eq!(config.timeout, Duration::from_millis(500));
}

#[test]
fn ipv6_probe_without_interface_is_unavailable() {
    let report = diagnose_multicast();
    assert_eq!(report.ipv6.label, "ipv6");
    assert!(!report.ipv6.supported);
    assert_eq!(report.ipv6.error_kind, Some(ProbeErrorKind::Unavailable));
    assert_eq!(
        report.ipv6.error.as_deref(),
        Some("no loopback IPv6 interface index available")
    );
    assert!(report.ipv6.details.is_none());
    assert!(!report.ipv6.stages.socket_created);
    assert_eq!(report.ipv4.label, "ipv4");
    assert_eq!(report.supported(), report.ipv4.supported);
}

#[test]
fn ipv4_report_is_consistent() {
    let report = diagnose_multicast();
    let r = &report.ipv4;
    if r.supported {
        assert!(r.error.is_none() && r.error_kind.is_none());
        assert!(r.stages.loopback_received);
        let details = r.details.as_deref().unwrap();
        assert!(details.starts_with("bound receiver "));
        assert!(details.contains(", joined 239.1.1.250, timeout 500ms"));
    } else {
        assert!(r.error.is_some() && r.error_kind.is_some());
        assert!(!r.stages.loopback_received);
    }
}

#[test]
fn ipv4_probe_with_non_multicast_group_does_not_report_support() {
    let config = MulticastDiagnosticConfig {
        ipv4_group: Ipv4Addr::new(127, 0, 0, 1),
        ..MulticastDiagnosticConfig::default()
    };
    let report = diagnose_multicast_with_config(&config);
    assert!(!report.ipv4.supported);
    assert!(!report.ipv4.stages.joined);
    if report.ipv4.stages.bound {
        assert_eq!(report.ipv4.error_kind, Some(ProbeErrorKind::Join));
    }
    assert!(report.ipv4.details.is_none());
}

fn result(supported: bool) -> ProbeResult {
    if supported {
        ProbeResult::success("x", ProbeStages::default(), String::from("ok"))
    } else {
        ProbeResult::failure(
            "x",
            ProbeStages::default(),
            ProbeErrorKind::Other,
            String::from("bad"),
            None,
        )
    }
}

#[test]
fn supported_is_either_family() {
    for (a, b) in [(false, false), (true, false), (false, true), (true, true)] {
        let d = MulticastDiagnostics { ipv4: result(a), ipv6: result(b) };
        assert_eq!(d.supported(), a || b);
    }
}

#[test]
fn success_and_failure_fill_the_result() {
    let ok = ProbeResult::success("ipv4", ProbeStages::default(), String::from("fine"));
    assert!(ok.supported);
    assert_eq!(ok.details.as_deref(), Some("fine"));
    assert!(ok.error.is_none() && ok.error_kind.is_none());

    let bad = ProbeResult::failure(
        "ipv6",
        ProbeStages::default(),
        ProbeErrorKind::Bind,
        String::from("denied"),
        Some(String::from("where")),
    );
    assert!(!bad.supported);
    assert_eq!(bad.label, "ipv6");
    assert_eq!(bad.error_kind, Some(ProbeErrorKind::Bind));
    assert_eq!(bad.error.as_deref(), Some("denied"));
    assert_eq!(bad.details.as_deref(), Some("where"));
}

#[test]
fn probe_steps_have_stages_and_kinds() {
    let s = ProbeStep::CreateReceiver.stages();
    assert!(!s.socket_created);
    assert_eq!(ProbeStep::CreateReceiver.kind(), ProbeErrorKind::SocketCreate);
    let s = ProbeStep::BindReceiver.stages();
    assert!(s.socket_created && !s.bound);
    assert_eq!(ProbeStep::BindReceiver.kind(), ProbeErrorKind::Bind);
    let s = ProbeStep::JoinGroup.stages();
    assert!(s.bound && !s.joined);
    assert_eq!(ProbeStep::JoinGroup.kind(), ProbeErrorKind::Join);
    let s = ProbeStep::Send.stages();
    assert!(s.joined && !s.loopback_sent);
    assert_eq!(ProbeStep::Send.kind(), ProbeErrorKind::Send);
    let s = ProbeStep::Receive.stages();
    assert!(s.loopback_sent && !s.loopback_received);
    assert_eq!(ProbeStep::Receive.kind(), ProbeErrorKind::Receive);
    assert_eq!(ProbeStep::CheckPayload.kind(), ProbeErrorKind::InvalidData);
    assert_eq!(ProbeStep::SenderLoopback.kind(), ProbeErrorKind::Other);
}

#[test]
fn map_multicast_error_keeps_io_source() {
    let e = map_multicast_error(MulticastError::Io(std::io::Error::new(
        std::io::ErrorKind::TimedOut,
        "slow",
    )));
    assert_eq!(e.kind(), std::io::ErrorKind::TimedOut);
    let e = map_multicast_error(MulticastError::UnsupportedOption("reuse_port"));
    assert_eq!(e.to_string(), "unsupported multicast option: reuse_port");
    let e = map_multicast_error(MulticastError::InvalidGroupAddress(
        tokio_multicast::IpAddr::V4(Ipv4Addr::new(10, 0, 0, 1)),
    ));
    assert_eq!(e.to_string(), "invalid multicast group address: 10.0.0.1");
}

#[test]
fn zero_timeout_probe_stops_before_receiving() {
    match try_ipv4_probe(Ipv4Addr::new(239, 1, 1, 251), Duration::ZERO) {
        Ok(_) => panic!("a zero timeout cannot be set"),
        Err(f) => {
            assert!(f.step == ProbeStep::SetReadTimeout || f.step == ProbeStep::JoinGroup
                || f.step == ProbeStep::BindReceiver || f.step == ProbeStep::CreateReceiver
                || f.step == ProbeStep::ReceiverReuseAddress);
            if f.step == ProbeStep::SetReadTimeout {
                assert_eq!(f.error.kind(), std::io::ErrorKind::InvalidInput);
                assert_eq!(f.error.to_string(), "cannot set a 0 duration timeout");
                assert_eq!(f.kind, ProbeErrorKind::Other);
                assert!(f.stages.joined && !f.stages.loopback_sent);
            }
            assert!(f.details.is_none());
            assert!(f.receiver_addr.is_none());
        }
    }
}

#[test]
fn report_of_failed_probe_carries_its_failure() {
    let group = Ipv4Addr::new(10, 0, 0, 1);
    let outcome = try_ipv4_probe(group, Duration::from_millis(50));
    let (stages, kind, text, details) = match &outcome {
        Ok(_) => panic!("a unicast group cannot be joined"),
        Err(f) => (f.stages, f.kind, f.error.to_string(), f.details.clone()),
    };
    let r = probe_report("ipv4", &IpAddr::V4(group), None, "50ms", outcome);
    assert_eq!(r.label, "ipv4");
    assert!(!r.supported);
    assert_eq!(r.stages.joined, stages.joined);
    assert_eq!(r.stages.bound, stages.bound);
    assert_eq!(r.error_kind, Some(kind));
    assert_eq!(r.error, Some(text));
    assert_eq!(r.details, details);
    assert!(!r.stages.joined);
}
