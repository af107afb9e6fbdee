use vstd::prelude::*;

verus! {

/// Builds the TLS side of the server's listeners.
pub struct TlsFactory {}

/// The protocol parameters of the server's TLS configuration.
pub struct TlsParameters {
    /// The ALPN identifiers offered in the handshake, most preferred first.
    pub alpn_protocols: Vec<Vec<u8>>,
    /// The largest amount of early (0-RTT) data accepted, in bytes.
    pub max_early_data_size: u32,
}

impl TlsFactory {
    /// The parameters of a server TLS configuration that offers
    /// `alpn_protocols`, in the order given, and accepts early data up to
    /// the largest size the configuration can hold.
    pub fn server_parameters(alpn_protocols: Vec<Vec<u8>>) -> (params: TlsParameters)
        ensures
            params.alpn_protocols@ == alpn_protocols@,
            params.max_early_data_size == u32::MAX,
    {
        TlsParameters { alpn_protocols, max_early_data_size: u32::MAX }
    }
}

} // verus!
