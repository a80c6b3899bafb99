use tor_bridge::tunnel::{
    classify_failure, kind_is_transient, name_of_failure, IoKind, IoReport, TunnelFailure,
};

fn report(kind: IoKind, message: &str) -> IoReport {
    IoReport { kind, message: message.to_string() }
}

#[test]
fn transient_kinds() {
    assert!(kind_is_transient(IoKind::WouldBlock));
    assert!(kind_is_transient(IoKind::TimedOut));
    assert!(!kind_is_transient(IoKind::ConnectionRefused));
    assert!(!kind_is_transient(IoKind::Other));
}

#[test]
fn handshake_messages_mean_a_rejected_handshake() {
    for m in [
        "invalid response version",
        "no acceptable auth methods",
        "unknown auth method",
        "password authentication failed",
    ] {
        assert_eq!(classify_failure(&report(IoKind::Other, m)), TunnelFailure::HandshakeRejected);
    }
}

#[test]
fn reply_messages_mean_a_refused_target() {
    for m in [
        "general SOCKS server failure",
        "connection not allowed by ruleset",
        "network unreachable",
        "host unreachable",
        "connection refused",
        "TTL expired",
        "command not supported",
        "address kind not supported",
        "unknown error",
    ] {
        assert_eq!(classify_failure(&report(IoKind::Other, m)), TunnelFailure::TargetRefused);
    }
}

#[test]
fn message_decides_before_kind() {
    assert_eq!(
        classify_failure(&report(IoKind::ConnectionRefused, "connection refused")),
        TunnelFailure::TargetRefused
    );
}

#[test]
fn refused_connection_means_an_unreachable_proxy() {
    assert_eq!(
        classify_failure(&report(IoKind::ConnectionRefused, "Connection refused (os error 111)")),
        TunnelFailure::ProxyUnreachable
    );
}

#[test]
fn anything_else_is_an_io_failure() {
    assert_eq!(classify_failure(&report(IoKind::Other, "broken pipe")), TunnelFailure::Io);
    assert_eq!(classify_failure(&report(IoKind::TimedOut, "timed out")), TunnelFailure::Io);
    assert_eq!(classify_failure(&report(IoKind::Other, "")), TunnelFailure::Io);
    assert_eq!(
        classify_failure(&report(IoKind::Other, "Connection Refused")),
        TunnelFailure::Io
    );
}

#[test]
fn failure_names() {
    assert_eq!(name_of_failure(TunnelFailure::ProxyUnreachable), "SOCKS proxy unreachable");
    assert_eq!(name_of_failure(TunnelFailure::HandshakeRejected), "SOCKS handshake rejected");
    assert_eq!(name_of_failure(TunnelFailure::TargetRefused), "Target refused by proxy");
    assert_eq!(name_of_failure(TunnelFailure::Io), "Tunnel I/O error");
}
