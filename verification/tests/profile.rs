use rustls::client::ResolvesClientCert;
use crawlberg::{ChromeLikeTlsProfile, NoTlsSpoof, TlsProfileProvider};

#[test]
fn no_tls_spoof_is_a_noop() {
    assert!(NoTlsSpoof.client_config().is_none());
}

#[test]
fn chrome_profile_yields_a_chrome_like_config() {
    let cfg = ChromeLikeTlsProfile
        .client_config()
        .expect("chrome profile must produce a config");
    assert!(cfg.alpn_protocols.iter().any(|p| p == b"h2"), "missing h2 ALPN");
    assert!(
        cfg.alpn_protocols.iter().any(|p| p == b"http/1.1"),
        "missing http/1.1 ALPN"
    );
    assert!(cfg.enable_early_data, "early data should be enabled");
}

#[test]
fn chrome_profile_uses_ring_defaults_and_safe_versions() {
    let cfg = ChromeLikeTlsProfile.client_config().expect("chrome profile must produce a config");
    let suites: Vec<u16> = cfg
        .crypto_provider()
        .cipher_suites
        .iter()
        .map(|s| u16::from(s.suite()))
        .collect();
    assert_eq!(suites, vec![0x1302, 0x1301, 0x1303, 0xc02c, 0xc02b, 0xcca9, 0xc030, 0xc02f, 0xcca8]);
    let groups: Vec<u16> = cfg.crypto_provider().kx_groups.iter().map(|g| u16::from(g.name())).collect();
    assert_eq!(groups, vec![0x001d, 0x0017, 0x0018]);
    assert!(!cfg.client_auth_cert_resolver.has_certs());
    assert_eq!(cfg.alpn_protocols, vec![b"h2".to_vec(), b"http/1.1".to_vec()]);
    assert!(format!("{cfg:?}").contains("versions: [TLSv1_2, TLSv1_3]"));
}
