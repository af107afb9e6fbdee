use vetis_smol::connection::{
    looks_like_tls, route_tls, ConnectionAction, ConnectionEvent, ConnectionPhase,
    ConnectionRouter, DiscardReason, ServeMode,
};
use vetis_smol::protocol::supported_alpns;

#[test]
fn supported_alpns_prefer_http2() {
    assert_eq!(supported_alpns(), vec![b"h2".to_vec(), b"http/1.1".to_vec()]);
}

#[test]
fn tls_record_prefix_is_detected() {
    assert!(looks_like_tls([0x16, 0x03]));
    assert!(!looks_like_tls([0x16, 0x02]));
    assert!(!looks_like_tls([0x03, 0x16]));
    assert!(!looks_like_tls(*b"GE"));
}

#[test]
fn h2_alpn_is_served_by_http2() {
    assert_eq!(route_tls(Some(b"h2")), ConnectionAction::Serve(ServeMode::Http2Tls));
}

#[test]
fn http1_dot_1_alpn_is_served_by_http1() {
    assert_eq!(route_tls(Some(b"http1.1")), ConnectionAction::Serve(ServeMode::Http1Tls));
}

#[test]
fn advertised_http11_alpn_is_not_dispatched() {
    // The identifier advertised for HTTP/1.1 is not the one the dispatch matches.
    assert_eq!(route_tls(Some(b"http/1.1")), ConnectionAction::Abort);
}

#[test]
fn unknown_alpn_aborts() {
    assert_eq!(route_tls(Some(b"h3")), ConnectionAction::Abort);
    assert_eq!(route_tls(Some(b"")), ConnectionAction::Abort);
}

#[test]
fn malformed_alpn_is_discarded() {
    assert_eq!(
        route_tls(Some(&[0xff, 0xfe])),
        ConnectionAction::Discard(DiscardReason::MalformedAlpn)
    );
    assert_eq!(
        route_tls(Some(&[0x68, 0xc3])),
        ConnectionAction::Discard(DiscardReason::MalformedAlpn)
    );
}

#[test]
fn no_alpn_is_ignored() {
    assert_eq!(route_tls(None), ConnectionAction::Ignore);
}

fn router(http11_only: bool) -> ConnectionRouter {
    ConnectionRouter::new(http11_only)
}

#[test]
fn accepted_connection_is_peeked() {
    let mut r = router(true);
    assert_eq!(r.phase(), ConnectionPhase::Accepting);
    assert_eq!(r.step(&ConnectionEvent::Accepted), ConnectionAction::Peek);
    assert_eq!(r.phase(), ConnectionPhase::Peeking);
}

#[test]
fn failures_discard_the_connection() {
    let mut r = router(true);
    assert_eq!(r.step(&ConnectionEvent::AcceptFailed), ConnectionAction::Discard(DiscardReason::AcceptError));
    assert_eq!(r.phase(), ConnectionPhase::Accepting);
    r.step(&ConnectionEvent::Accepted);
    assert_eq!(r.step(&ConnectionEvent::PeekFailed), ConnectionAction::Discard(DiscardReason::PeekError));
    assert_eq!(r.phase(), ConnectionPhase::Accepting);
    r.step(&ConnectionEvent::Accepted);
    r.step(&ConnectionEvent::Peeked([0x16, 0x03]));
    assert_eq!(r.step(&ConnectionEvent::HandshakeFailed), ConnectionAction::Discard(DiscardReason::HandshakeError));
    assert_eq!(r.phase(), ConnectionPhase::Accepting);
}

#[test]
fn tls_prefix_starts_handshake() {
    for http11_only in [true, false] {
        let mut r = router(http11_only);
        r.step(&ConnectionEvent::Accepted);
        assert_eq!(r.step(&ConnectionEvent::Peeked([0x16, 0x03])), ConnectionAction::StartTls);
        assert_eq!(r.phase(), ConnectionPhase::Handshaking);
    }
}

#[test]
fn plain_text_connection_stops_the_loop() {
    let mut r = router(true);
    r.step(&ConnectionEvent::Accepted);
    assert_eq!(
        r.step(&ConnectionEvent::Peeked(*b"GE")),
        ConnectionAction::ServeThenAbort(ServeMode::Http1Plain)
    );
    let mut r = router(false);
    r.step(&ConnectionEvent::Accepted);
    assert_eq!(r.step(&ConnectionEvent::Peeked(*b"GE")), ConnectionAction::Abort);
    assert_eq!(r.phase(), ConnectionPhase::Accepting);
}

fn after_handshake(alpn: Option<Vec<u8>>) -> ConnectionAction {
    let mut r = router(true);
    r.step(&ConnectionEvent::Accepted);
    r.step(&ConnectionEvent::Peeked([0x16, 0x03]));
    let action = r.step(&ConnectionEvent::HandshakeDone(alpn));
    assert_eq!(r.phase(), ConnectionPhase::Accepting);
    action
}

#[test]
fn handshake_outcome_is_routed_by_alpn() {
    assert_eq!(after_handshake(Some(b"h2".to_vec())), ConnectionAction::Serve(ServeMode::Http2Tls));
    assert_eq!(after_handshake(Some(b"http1.1".to_vec())), ConnectionAction::Serve(ServeMode::Http1Tls));
    assert_eq!(after_handshake(Some(b"http/1.1".to_vec())), ConnectionAction::Abort);
    assert_eq!(after_handshake(None), ConnectionAction::Ignore);
    assert_eq!(
        after_handshake(Some(vec![0xc0, 0x80])),
        ConnectionAction::Discard(DiscardReason::MalformedAlpn)
    );
}
