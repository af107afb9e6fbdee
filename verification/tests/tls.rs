use vetis_smol::protocol::supported_alpns;
use vetis_smol::tls::TlsFactory;

#[test]
fn test_tls_factory_struct_exists() {
    // This test ensures the TlsFactory struct is accessible
    let _factory = TlsFactory {};
}

#[test]
fn tls_parameters_keep_requested_alpns() {
    let params = TlsFactory::server_parameters(vec![b"h2".to_vec(), b"http/1.1".to_vec()]);
    assert_eq!(params.alpn_protocols, vec![b"h2".to_vec(), b"http/1.1".to_vec()]);
    assert_eq!(params.max_early_data_size, u32::MAX);
}

#[test]
fn tls_parameters_with_empty_alpn() {
    let params = TlsFactory::server_parameters(vec![]);
    assert!(params.alpn_protocols.is_empty());
    assert_eq!(params.max_early_data_size, u32::MAX);
}

#[test]
fn tls_parameters_from_supported_alpns() {
    let params = TlsFactory::server_parameters(supported_alpns());
    assert_eq!(params.alpn_protocols, vec![b"h2".to_vec(), b"http/1.1".to_vec()]);
}
