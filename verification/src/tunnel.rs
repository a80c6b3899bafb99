//! What the tunnel connector reports, and how a failed attempt to open a
//! tunnel is told apart.

use vstd::prelude::*;
use vstd::string::StringExecFns;

verus! {

/// The kinds of I/O error that the client tells apart.
#[derive(Clone, Copy, Debug, PartialEq, Eq)]
pub enum IoKind {
    /// The operation would have blocked.
    WouldBlock,
    /// The time given to one read or write ran out.
    TimedOut,
    /// The peer refused the connection.
    ConnectionRefused,
    /// Any other kind.
    Other,
}

/// An I/O error as plain values: its kind and its message.
#[derive(Debug)]
pub struct IoReport {
    pub kind: IoKind,
    pub message: String,
}

/// Why no tunnel was opened.
#[derive(Clone, Copy, Debug, PartialEq, Eq)]
pub enum TunnelFailure {
    /// The proxy could not be reached.
    ProxyUnreachable,
    /// The proxy did not accept the SOCKS5 handshake.
    HandshakeRejected,
    /// The proxy answered the handshake and would not connect to the target.
    TargetRefused,
    /// Reading or writing failed during the handshake.
    Io,
}

/// Whether an error of this kind says that one read ran out of time, and no
/// more.
pub open spec fn is_transient(kind: IoKind) -> bool {
    kind == IoKind::WouldBlock || kind == IoKind::TimedOut
}

/// Whether `message` is one that tells of a proxy that answers in another
/// protocol or offers no way to authenticate.
pub open spec fn tells_of_handshake(message: Seq<char>) -> bool {
    ||| message == "invalid response version"@
    ||| message == "no acceptable auth methods"@
    ||| message == "unknown auth method"@
    ||| message == "password authentication failed"@
}

/// Whether `message` is one of the replies by which a proxy declines to
/// connect to the target.
pub open spec fn tells_of_refusal(message: Seq<char>) -> bool {
    ||| message == "general SOCKS server failure"@
    ||| message == "connection not allowed by ruleset"@
    ||| message == "network unreachable"@
    ||| message == "host unreachable"@
    ||| message == "connection refused"@
    ||| message == "TTL expired"@
    ||| message == "command not supported"@
    ||| message == "address kind not supported"@
    ||| message == "unknown error"@
}

/// Why the attempt that ended in an error of `kind` with `message` opened
/// no tunnel. The messages of the handshake and of the proxy's replies
/// decide first; of the rest, a refused connection means that the proxy
/// was not there, and anything else that I/O failed on the way.
pub open spec fn failure_of(kind: IoKind, message: Seq<char>) -> TunnelFailure {
    if tells_of_handshake(message) {
        TunnelFailure::HandshakeRejected
    } else if tells_of_refusal(message) {
        TunnelFailure::TargetRefused
    } else if kind == IoKind::ConnectionRefused {
        TunnelFailure::ProxyUnreachable
    } else {
        TunnelFailure::Io
    }
}

/// What a failure is called in an error text.
pub open spec fn failure_name(failure: TunnelFailure) -> Seq<char> {
    match failure {
        TunnelFailure::ProxyUnreachable => "SOCKS proxy unreachable"@,
        TunnelFailure::HandshakeRejected => "SOCKS handshake rejected"@,
        TunnelFailure::TargetRefused => "Target refused by proxy"@,
        TunnelFailure::Io => "Tunnel I/O error"@,
    }
}

/// Tests whether an error of this kind says that one read ran out of time.
pub fn kind_is_transient(kind: IoKind) -> (r: bool)
    ensures
        r == is_transient(kind),
{
    match kind {
        IoKind::WouldBlock => true,
        IoKind::TimedOut => true,
        _ => false,
    }
}

/// Tests whether `text` reads `literal`.
fn reads(text: &String, literal: &str) -> (r: bool)
    ensures
        r == (text@ == literal@),
{
    *text == String::from_str(literal)
}

/// Tells why a failed attempt opened no tunnel.
pub fn classify_failure(report: &IoReport) -> (r: TunnelFailure)
    ensures
        r == failure_of(report.kind, report.message@),
{
    let m = &report.message;
    if reads(m, "invalid response version") || reads(m, "no acceptable auth methods") || reads(
        m,
        "unknown auth method",
    ) || reads(m, "password authentication failed") {
        TunnelFailure::HandshakeRejected
    } else if reads(m, "general SOCKS server failure") || reads(
        m,
        "connection not allowed by ruleset",
    ) || reads(m, "network unreachable") || reads(m, "host unreachable") || reads(
        m,
        "connection refused",
    ) || reads(m, "TTL expired") || reads(m, "command not supported") || reads(
        m,
        "address kind not supported",
    ) || reads(m, "unknown error") {
        TunnelFailure::TargetRefused
    } else {
        match report.kind {
            IoKind::ConnectionRefused => TunnelFailure::ProxyUnreachable,
            _ => TunnelFailure::Io,
        }
    }
}

/// The name of a failure for an error text.
pub fn name_of_failure(failure: TunnelFailure) -> (r: &'static str)
    ensures
        r@ == failure_name(failure),
{
    match failure {
        TunnelFailure::ProxyUnreachable => "SOCKS proxy unreachable",
        TunnelFailure::HandshakeRejected => "SOCKS handshake rejected",
        TunnelFailure::TargetRefused => "Target refused by proxy",
        TunnelFailure::Io => "Tunnel I/O error",
    }
}

} // verus!
