use vstd::prelude::*;

verus! {

/// The HTTP protocol versions a listener can be configured with.
#[derive(Clone, Copy, Debug, PartialEq, Eq, Structural)]
pub enum HttpVersion {
    Http09,
    Http10,
    Http11,
    Http2,
    Http3,
}

/// The ALPN identifier `h2`.
pub open spec fn alpn_h2() -> Seq<u8> {
    seq![0x68u8, 0x32u8]
}

/// The ALPN identifier `http/1.1`.
pub open spec fn alpn_http11() -> Seq<u8> {
    seq![0x68u8, 0x74u8, 0x74u8, 0x70u8, 0x2fu8, 0x31u8, 0x2eu8, 0x31u8]
}

/// The ALPN identifiers this build advertises, most preferred first.
pub open spec fn advertised_alpns() -> Seq<Seq<u8>> {
    seq![alpn_h2(), alpn_http11()]
}

/// The server advertises exactly two ALPN identifiers: `h2` first, then
/// `http/1.1`.
pub proof fn lemma_advertised_alpn_bytes()
    ensures
        advertised_alpns() == seq![
            seq![0x68u8, 0x32u8],
            seq![0x68u8, 0x74u8, 0x74u8, 0x70u8, 0x2fu8, 0x31u8, 0x2eu8, 0x31u8],
        ],
{
}

/// The ALPN identifiers offered during the TLS handshake: HTTP/2 first,
/// then HTTP/1.1.
pub fn supported_alpns() -> (alpns: Vec<Vec<u8>>)
    ensures
        alpns.len() == advertised_alpns().len(),
        forall|i: int| 0 <= i < alpns.len() ==> #[trigger] alpns[i]@ == advertised_alpns()[i],
{
    let h2: Vec<u8> = vec![0x68u8, 0x32u8];
    let http11: Vec<u8> = vec![0x68u8, 0x74u8, 0x74u8, 0x70u8, 0x2fu8, 0x31u8, 0x2eu8, 0x31u8];
    let alpns = vec![h2, http11];
    assert(alpns[0]@ == alpn_h2());
    assert(alpns[1]@ == alpn_http11());
    alpns
}

} // verus!
