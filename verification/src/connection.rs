use vstd::prelude::*;
use vstd::utf8::valid_utf8;

use crate::protocol::{advertised_alpns, alpn_h2, alpn_http11};

verus! {

/// Where the accept loop stands with the connection it handles.
#[derive(Clone, Copy, Debug, PartialEq, Eq, Structural)]
pub enum ConnectionPhase {
    /// Waiting for the next connection.
    Accepting,
    /// A connection was accepted; its first two bytes are being peeked.
    Peeking,
    /// A TLS handshake runs on the connection.
    Handshaking,
}

/// What the accept loop learned about a connection since its last step.
pub enum ConnectionEvent {
    /// Accepting the next connection failed.
    AcceptFailed,
    /// A connection was accepted.
    Accepted,
    /// The first two bytes of a new connection could not be peeked.
    PeekFailed,
    /// The first two bytes the client sent, left in the stream.
    Peeked([u8; 2]),
    /// The TLS handshake started on the connection failed.
    HandshakeFailed,
    /// The TLS handshake succeeded with the ALPN protocol it negotiated, if any.
    HandshakeDone(Option<Vec<u8>>),
}

/// Why a connection is dropped without being served.
#[derive(Clone, Copy, Debug, PartialEq, Eq, Structural)]
pub enum DiscardReason {
    AcceptError,
    PeekError,
    HandshakeError,
    /// The negotiated ALPN protocol is not valid UTF-8.
    MalformedAlpn,
}

/// How an HTTP connection is served.
#[derive(Clone, Copy, Debug, PartialEq, Eq, Structural)]
pub enum ServeMode {
    /// HTTP/1.1 over the plain stream.
    Http1Plain,
    /// HTTP/1.1 over the TLS stream.
    Http1Tls,
    /// HTTP/2 over the TLS stream.
    Http2Tls,
}

/// What the accept loop does next with the connection.
#[derive(Clone, Copy, Debug, PartialEq, Eq, Structural)]
pub enum ConnectionAction {
    /// Drop the connection, report the reason and accept the next one.
    Discard(DiscardReason),
    /// Peek the first two bytes of the accepted connection.
    Peek,
    /// Run the TLS handshake on the connection.
    StartTls,
    /// Spawn a task that serves the connection.
    Serve(ServeMode),
    /// Spawn a task that serves the connection, then stop the accept loop
    /// with the "Unsupported protocol" failure.
    ServeThenAbort(ServeMode),
    /// Stop the accept loop with the "Unsupported protocol" failure.
    Abort,
    /// The handshake negotiated no protocol: the connection is dropped silently.
    Ignore,
}

/// The ALPN identifier `http1.1` that selects HTTP/1.1 over TLS.
pub open spec fn alpn_http1_dot_1() -> Seq<u8> {
    seq![0x68u8, 0x74u8, 0x74u8, 0x70u8, 0x31u8, 0x2eu8, 0x31u8]
}

/// A connection opens with a TLS record of type handshake (0x16) and major
/// version 3 (0x03).
pub open spec fn is_tls_prefix(peeked: [u8; 2]) -> bool {
    peeked[0] == 0x16u8 && peeked[1] == 0x03u8
}

/// Routing of a plain-text connection. This build serves both HTTP/1.1 and
/// HTTP/2, and with HTTP/2 enabled a plain-text connection always stops the
/// accept loop; a listener whose protocols include HTTP/1.1 first hands the
/// connection to an HTTP/1.1 server.
pub open spec fn plain_route(http11_only: bool) -> ConnectionAction {
    if http11_only {
        ConnectionAction::ServeThenAbort(ServeMode::Http1Plain)
    } else {
        ConnectionAction::Abort
    }
}

/// Routing of a TLS connection by its negotiated ALPN protocol. HTTP/1.1 is
/// selected by the identifier `http1.1`, not by `http/1.1`, the identifier
/// the server advertises for it: a client that negotiates the advertised
/// `http/1.1` stops the accept loop.
pub open spec fn tls_route(alpn: Option<Seq<u8>>) -> ConnectionAction {
    match alpn {
        None => ConnectionAction::Ignore,
        Some(id) => if !valid_utf8(id) {
            ConnectionAction::Discard(DiscardReason::MalformedAlpn)
        } else if id == alpn_http1_dot_1() {
            ConnectionAction::Serve(ServeMode::Http1Tls)
        } else if id == alpn_h2() {
            ConnectionAction::Serve(ServeMode::Http2Tls)
        } else {
            ConnectionAction::Abort
        },
    }
}

/// The view of an optional byte vector.
pub open spec fn bytes_view(alpn: Option<Vec<u8>>) -> Option<Seq<u8>> {
    match alpn {
        None => None,
        Some(v) => Some(v@),
    }
}

/// The events the accept loop can report in `phase`.
pub open spec fn event_fits(phase: ConnectionPhase, event: ConnectionEvent) -> bool {
    match phase {
        ConnectionPhase::Accepting => event is AcceptFailed || event is Accepted,
        ConnectionPhase::Peeking => event is PeekFailed || event is Peeked,
        ConnectionPhase::Handshaking => event is HandshakeFailed || event is HandshakeDone,
    }
}

/// The accept loop's next phase and action for one event.
pub open spec fn transition(http11_only: bool, event: ConnectionEvent) -> (ConnectionPhase, ConnectionAction) {
    match event {
        ConnectionEvent::AcceptFailed => (ConnectionPhase::Accepting, ConnectionAction::Discard(DiscardReason::AcceptError)),
        ConnectionEvent::Accepted => (ConnectionPhase::Peeking, ConnectionAction::Peek),
        ConnectionEvent::PeekFailed => (ConnectionPhase::Accepting, ConnectionAction::Discard(DiscardReason::PeekError)),
        ConnectionEvent::Peeked(bytes) => if is_tls_prefix(bytes) {
            (ConnectionPhase::Handshaking, ConnectionAction::StartTls)
        } else {
            (ConnectionPhase::Accepting, plain_route(http11_only))
        },
        ConnectionEvent::HandshakeFailed => (ConnectionPhase::Accepting, ConnectionAction::Discard(DiscardReason::HandshakeError)),
        ConnectionEvent::HandshakeDone(alpn) => (ConnectionPhase::Accepting, tls_route(bytes_view(alpn))),
    }
}

/// The phase the accept loop reaches from `phase` through `events`: the
/// phase the last event leads to, as each event decides the next phase.
pub open spec fn phase_after(http11_only: bool, phase: ConnectionPhase, events: Seq<ConnectionEvent>) -> ConnectionPhase {
    if events.len() == 0 {
        phase
    } else {
        transition(http11_only, events.last()).0
    }
}

/// Every event of `events` is one the loop can report where it stands.
pub open spec fn fits_run(http11_only: bool, phase: ConnectionPhase, events: Seq<ConnectionEvent>) -> bool {
    forall|k: int| 0 <= k < events.len() ==> event_fits(phase_after(http11_only, phase, #[trigger] events.take(k)), events[k])
}

/// The action the loop takes for the event at `k` of `events`.
pub open spec fn action_at(http11_only: bool, events: Seq<ConnectionEvent>, k: int) -> ConnectionAction {
    transition(http11_only, events[k]).1
}

/// Over any run of the accept loop from `Accepting`, a connection is served
/// without stopping the loop only right after its peeked bytes opened a TLS
/// handshake and that handshake negotiated `http1.1` (HTTP/1.1) or `h2`
/// (HTTP/2).
pub proof fn lemma_served_only_over_negotiated_tls(http11_only: bool, events: Seq<ConnectionEvent>, k: int)
    requires
        fits_run(http11_only, ConnectionPhase::Accepting, events),
        0 <= k < events.len(),
        action_at(http11_only, events, k) is Serve,
    ensures
        k >= 1,
        events[k - 1] matches ConnectionEvent::Peeked(bytes) && is_tls_prefix(bytes),
        events[k] matches ConnectionEvent::HandshakeDone(Some(id)) && {
            ||| (id@ == alpn_http1_dot_1() && action_at(http11_only, events, k) == ConnectionAction::Serve(ServeMode::Http1Tls))
            ||| (id@ == alpn_h2() && action_at(http11_only, events, k) == ConnectionAction::Serve(ServeMode::Http2Tls))
        },
{
    let prefix = events.take(k);
    assert(event_fits(phase_after(http11_only, ConnectionPhase::Accepting, prefix), events[k]));
    assert(events[k] is HandshakeDone);
    assert(phase_after(http11_only, ConnectionPhase::Accepting, prefix) == ConnectionPhase::Handshaking);
    assert(prefix.len() > 0);
    assert(prefix.last() == events[k - 1]);
}

/// Of the ALPN identifiers the server advertises, every one but `http/1.1`
/// is served over TLS when the handshake negotiates it: `h2` by HTTP/2.
pub proof fn lemma_advertised_alpn_served(i: int)
    requires
        0 <= i < advertised_alpns().len(),
        advertised_alpns()[i] != alpn_http11(),
    ensures
        tls_route(Some(advertised_alpns()[i])) == ConnectionAction::Serve(ServeMode::Http2Tls),
{
    reveal_with_fuel(valid_utf8, 3);
    assert(advertised_alpns()[i] == alpn_h2());
    assert(alpn_h2() != alpn_http1_dot_1()) by {
        assert(alpn_h2().len() != alpn_http1_dot_1().len());
    }
    assert(valid_utf8(alpn_h2()));
}

/// A connection is taken for TLS exactly when its first peeked byte is
/// 0x16 (a handshake record) and its second 0x03 (major version 3); every
/// other pair of bytes is plain text, on any listener.
pub proof fn lemma_tls_detected_by_record_header(http11_only: bool, peeked: [u8; 2])
    ensures
        is_tls_prefix(peeked) <==> (peeked[0] == 0x16u8 && peeked[1] == 0x03u8),
        (transition(http11_only, ConnectionEvent::Peeked(peeked)).1 == ConnectionAction::StartTls)
            <==> (peeked[0] == 0x16u8 && peeked[1] == 0x03u8),
        (transition(http11_only, ConnectionEvent::Peeked(peeked)).0 == ConnectionPhase::Handshaking)
            <==> (peeked[0] == 0x16u8 && peeked[1] == 0x03u8),
{
}

/// Accepting a connection leads to peeking it; a failed accept, peek or
/// handshake drops the connection for that reason; and after each of these
/// failures the loop waits for the next connection. Neither depends on the
/// listener's protocols.
pub proof fn lemma_loop_steps_and_failures(http11_only: bool)
    ensures
        transition(http11_only, ConnectionEvent::Accepted) == (ConnectionPhase::Peeking, ConnectionAction::Peek),
        transition(http11_only, ConnectionEvent::AcceptFailed)
            == (ConnectionPhase::Accepting, ConnectionAction::Discard(DiscardReason::AcceptError)),
        transition(http11_only, ConnectionEvent::PeekFailed)
            == (ConnectionPhase::Accepting, ConnectionAction::Discard(DiscardReason::PeekError)),
        transition(http11_only, ConnectionEvent::HandshakeFailed)
            == (ConnectionPhase::Accepting, ConnectionAction::Discard(DiscardReason::HandshakeError)),
{
}

/// Every plain-text connection, whatever bytes it opens with, is routed by
/// the listener's protocols alone: handed to an HTTP/1.1 server and then the
/// loop stops when they include HTTP/1.1, else the loop stops; the loop then
/// waits for the next connection.
pub proof fn lemma_plain_text_routed_by_protocols(http11_only: bool, peeked: [u8; 2])
    requires
        !(peeked[0] == 0x16u8 && peeked[1] == 0x03u8),
    ensures
        transition(http11_only, ConnectionEvent::Peeked(peeked)).0 == ConnectionPhase::Accepting,
        http11_only ==> transition(http11_only, ConnectionEvent::Peeked(peeked)).1
            == ConnectionAction::ServeThenAbort(ServeMode::Http1Plain),
        !http11_only ==> transition(http11_only, ConnectionEvent::Peeked(peeked)).1 == ConnectionAction::Abort,
{
}

/// The outcome of a TLS handshake is routed the same way on every listener,
/// whether or not its protocols include HTTP/1.1: `h2` is served by HTTP/2
/// and `http1.1` by HTTP/1.1 over TLS, no ALPN protocol leaves the
/// connection alone, and the loop then waits for the next connection.
pub proof fn lemma_handshake_routed_by_alpn_alone(http11_only: bool, other: bool, alpn: Option<Vec<u8>>)
    ensures
        transition(http11_only, ConnectionEvent::HandshakeDone(alpn))
            == transition(other, ConnectionEvent::HandshakeDone(alpn)),
        transition(http11_only, ConnectionEvent::HandshakeDone(alpn)).0 == ConnectionPhase::Accepting,
        alpn is None ==> transition(http11_only, ConnectionEvent::HandshakeDone(alpn)).1 == ConnectionAction::Ignore,
        (alpn matches Some(id) && id@ == seq![0x68u8, 0x32u8]) ==> transition(
            http11_only,
            ConnectionEvent::HandshakeDone(alpn),
        ).1 == ConnectionAction::Serve(ServeMode::Http2Tls),
        (alpn matches Some(id) && id@ == seq![0x68u8, 0x74u8, 0x74u8, 0x70u8, 0x31u8, 0x2eu8, 0x31u8])
            ==> transition(http11_only, ConnectionEvent::HandshakeDone(alpn)).1
            == ConnectionAction::Serve(ServeMode::Http1Tls),
        (alpn matches Some(id) && !valid_utf8(id@)) ==> transition(http11_only, ConnectionEvent::HandshakeDone(alpn)).1
            == ConnectionAction::Discard(DiscardReason::MalformedAlpn),
        (alpn matches Some(id) && valid_utf8(id@) && id@ != seq![0x68u8, 0x32u8]
            && id@ != seq![0x68u8, 0x74u8, 0x74u8, 0x70u8, 0x31u8, 0x2eu8, 0x31u8])
            ==> transition(http11_only, ConnectionEvent::HandshakeDone(alpn)).1 == ConnectionAction::Abort,
{
    reveal_with_fuel(valid_utf8, 8);
    match alpn {
        Some(id) => {
            if id@ == seq![0x68u8, 0x32u8] {
                assert(id@ != alpn_http1_dot_1()) by {
                    assert(id@.len() != alpn_http1_dot_1().len());
                }
                assert(id@ =~= alpn_h2());
                assert(valid_utf8(id@));
            }
            if id@ == seq![0x68u8, 0x74u8, 0x74u8, 0x70u8, 0x31u8, 0x2eu8, 0x31u8] {
                assert(id@ =~= alpn_http1_dot_1());
                assert(valid_utf8(id@));
            }
        },
        None => {},
    }
}

/// `String::from_utf8_lossy` borrows its input, with no replacement
/// character inserted, exactly when the input is valid UTF-8; this reports
/// which of its two results it gave.
#[verifier::external_body]
fn decodes_without_replacement(bytes: &[u8]) -> (valid: bool)
    ensures
        valid == valid_utf8(bytes@),
{
    match String::from_utf8_lossy(bytes) {
        std::borrow::Cow::Borrowed(_) => true,
        std::borrow::Cow::Owned(_) => false,
    }
}

fn bytes_equal(a: &[u8], b: &[u8]) -> (same: bool)
    ensures
        same == (a@ == b@),
{
    if a.len() != b.len() {
        return false;
    }
    let mut i: usize = 0;
    while i < a.len()
        invariant
            a.len() == b.len(),
            i <= a.len(),
            forall|j: int| 0 <= j < i ==> a@[j] == b@[j],
        decreases a.len() - i,
    {
        if a[i] != b[i] {
            return false;
        }
        i = i + 1;
    }
    assert(a@ =~= b@);
    true
}

/// Whether the first two bytes of a connection open a TLS handshake.
pub fn looks_like_tls(peeked: [u8; 2]) -> (tls: bool)
    ensures
        tls == is_tls_prefix(peeked),
{
    peeked[0] == 0x16u8 && peeked[1] == 0x03u8
}

/// How a TLS connection is served once the handshake negotiated `alpn`.
pub fn route_tls(alpn: Option<&[u8]>) -> (action: ConnectionAction)
    ensures
        action == tls_route(match alpn { None => None, Some(id) => Some(id@) }),
{
    match alpn {
        None => ConnectionAction::Ignore,
        Some(id) => {
            if !decodes_without_replacement(id) {
                return ConnectionAction::Discard(DiscardReason::MalformedAlpn);
            }
            let http1_dot_1: [u8; 7] = [0x68u8, 0x74u8, 0x74u8, 0x70u8, 0x31u8, 0x2eu8, 0x31u8];
            let h2: [u8; 2] = [0x68u8, 0x32u8];
            if bytes_equal(id, &http1_dot_1) {
                assert(http1_dot_1@ =~= alpn_http1_dot_1());
                ConnectionAction::Serve(ServeMode::Http1Tls)
            } else if bytes_equal(id, &h2) {
                assert(h2@ =~= alpn_h2());
                ConnectionAction::Serve(ServeMode::Http2Tls)
            } else {
                assert(http1_dot_1@ =~= alpn_http1_dot_1());
                assert(h2@ =~= alpn_h2());
                ConnectionAction::Abort
            }
        },
    }
}

/// The accept loop of a listener, one connection at a time: where it
/// stands and whether the listener's protocols include HTTP/1.1.
pub struct ConnectionRouter {
    http11_only: bool,
    phase: ConnectionPhase,
}

impl ConnectionRouter {
    /// Where the loop stands.
    pub closed spec fn phase_view(&self) -> ConnectionPhase {
        self.phase
    }

    /// Whether the listener's protocols include HTTP/1.1.
    pub closed spec fn http11_only_view(&self) -> bool {
        self.http11_only
    }

    /// A loop waiting for its first connection.
    pub fn new(http11_only: bool) -> (router: Self)
        ensures
            router.phase_view() == ConnectionPhase::Accepting,
            router.http11_only_view() == http11_only,
    {
        ConnectionRouter { http11_only, phase: ConnectionPhase::Accepting }
    }

    /// Where the loop stands.
    pub fn phase(&self) -> (phase: ConnectionPhase)
        ensures
            phase == self.phase_view(),
    {
        self.phase
    }

    /// Takes the event the loop reports where it stands, moves on and
    /// gives what the loop does next.
    pub fn step(&mut self, event: &ConnectionEvent) -> (action: ConnectionAction)
        requires
            event_fits(old(self).phase_view(), *event),
        ensures
            (final(self).phase_view(), action) == transition(old(self).http11_only_view(), *event),
            final(self).http11_only_view() == old(self).http11_only_view(),
    {
        let (phase, action) = match event {
            ConnectionEvent::AcceptFailed => (ConnectionPhase::Accepting, ConnectionAction::Discard(DiscardReason::AcceptError)),
            ConnectionEvent::Accepted => (ConnectionPhase::Peeking, ConnectionAction::Peek),
            ConnectionEvent::PeekFailed => (ConnectionPhase::Accepting, ConnectionAction::Discard(DiscardReason::PeekError)),
            ConnectionEvent::Peeked(bytes) => {
                if looks_like_tls(*bytes) {
                    (ConnectionPhase::Handshaking, ConnectionAction::StartTls)
                } else if self.http11_only {
                    (ConnectionPhase::Accepting, ConnectionAction::ServeThenAbort(ServeMode::Http1Plain))
                } else {
                    (ConnectionPhase::Accepting, ConnectionAction::Abort)
                }
            },
            ConnectionEvent::HandshakeFailed => (ConnectionPhase::Accepting, ConnectionAction::Discard(DiscardReason::HandshakeError)),
            ConnectionEvent::HandshakeDone(alpn) => {
                let action = match alpn {
                    None => route_tls(None),
                    Some(id) => route_tls(Some(id.as_slice())),
                };
                (ConnectionPhase::Accepting, action)
            },
        };
        self.phase = phase;
        action
    }
}

} // verus!
