//! TLS ClientHello fingerprint profiles for the HTTP path.
//!
//! [`TlsProfileProvider`] lets callers swap in a Chrome-like profile
//! ([`ChromeLikeTlsProfile`]) without touching fetch logic; [`NoTlsSpoof`]
//! (the default) keeps the stack's own TLS behaviour.

use vstd::prelude::*;
use std::sync::Arc;

verus! {

#[verifier::external_type_specification]
#[verifier::external_body]
pub struct ExClientConfig(rustls::ClientConfig);

#[verifier::external_type_specification]
#[verifier::external_body]
pub struct ExRootCertStore(rustls::RootCertStore);

#[verifier::external_type_specification]
#[verifier::external_body]
pub struct ExCryptoProvider(rustls::crypto::CryptoProvider);

/// Concrete client config type handed to `reqwest::ClientBuilder::use_preconfigured_tls`.
pub type TlsClientConfig = Arc<rustls::ClientConfig>;

/// A trust anchor as plain values: subject, subject public key info, and
/// name constraints (DER bytes).
pub type AnchorView = (Seq<u8>, Seq<u8>, Option<Seq<u8>>);

/// The ALPN protocols a client config offers (its `alpn_protocols` field).
pub uninterp spec fn alpn_protocols_of(config: rustls::ClientConfig) -> Seq<Seq<u8>>;

/// Whether a client config sends 0-RTT early data (its `enable_early_data` field).
pub uninterp spec fn early_data_of(config: rustls::ClientConfig) -> bool;

/// The TLS protocol versions a client config enables, as wire numbers
/// (0x0303 for TLS 1.2, 0x0304 for TLS 1.3).
pub uninterp spec fn enabled_versions_of(config: rustls::ClientConfig) -> Set<u16>;

/// The trust anchors of the server certificate verifier of a client config.
pub uninterp spec fn trusted_anchors_of(config: rustls::ClientConfig) -> Seq<AnchorView>;

/// Whether a client config can offer a client certificate (`has_certs` of its
/// `client_auth_cert_resolver`).
pub uninterp spec fn offers_client_certs_of(config: rustls::ClientConfig) -> bool;

/// The crypto provider of a client config (`ClientConfig::crypto_provider`).
pub uninterp spec fn provider_of(config: rustls::ClientConfig) -> rustls::crypto::CryptoProvider;

/// The cipher suites of a crypto provider, as IANA numbers, in order.
pub uninterp spec fn cipher_suite_ids_of(provider: rustls::crypto::CryptoProvider) -> Seq<u16>;

/// The key-exchange groups of a crypto provider, as IANA numbers, in order.
pub uninterp spec fn kx_group_ids_of(provider: rustls::crypto::CryptoProvider) -> Seq<u16>;

/// `ConfigBuilder::with_protocol_versions` accepts this provider with the safe
/// default versions: some cipher suite serves TLS 1.3 or 1.2, the
/// key-exchange groups are not empty, and they cover the key exchange of every
/// cipher suite.
pub uninterp spec fn serves_default_versions(provider: rustls::crypto::CryptoProvider) -> bool;

/// The trust anchors of a root store (its `roots` field), in order.
pub uninterp spec fn root_anchors_of(store: rustls::RootCertStore) -> Seq<AnchorView>;

/// `anchors` followed by the anchors of `webpki_roots::TLS_SERVER_ROOTS`.
pub uninterp spec fn webpki_extended(anchors: Seq<AnchorView>) -> Seq<AnchorView>;

/// TLS 1.2 and TLS 1.3, the versions rustls enables by default.
pub open spec fn default_tls_versions() -> Set<u16> {
    set![0x0303u16, 0x0304u16]
}

/// The cipher suites of rustls's ring provider: the three TLS 1.3 suites,
/// then the six ECDHE TLS 1.2 suites.
pub open spec fn ring_cipher_suite_ids() -> Seq<u16> {
    seq![0x1302u16, 0x1301u16, 0x1303u16, 0xc02cu16, 0xc02bu16, 0xcca9u16, 0xc030u16, 0xc02fu16, 0xcca8u16]
}

/// The key-exchange groups of rustls's ring provider: X25519, P-256, P-384.
pub open spec fn ring_kx_group_ids() -> Seq<u16> {
    seq![0x001du16, 0x0017u16, 0x0018u16]
}

/// Calls `RootCertStore::empty`, a store without anchors.
#[verifier::external_body]
fn empty_root_store() -> (r: rustls::RootCertStore)
    ensures
        root_anchors_of(r) == Seq::<AnchorView>::empty(),
{
    rustls::RootCertStore::empty()
}

/// Calls `RootCertStore::extend` with the trust anchors of
/// `webpki_roots::TLS_SERVER_ROOTS` (Mozilla's root program), which appends
/// them to the store's anchors.
#[verifier::external_body]
fn add_webpki_roots(store: &mut rustls::RootCertStore)
    ensures
        root_anchors_of(*final(store)) == webpki_extended(root_anchors_of(*old(store))),
{
    store.extend(webpki_roots::TLS_SERVER_ROOTS.iter().cloned());
}

/// Calls `rustls::crypto::ring::default_provider`: the ring cipher suites
/// and key-exchange groups listed in the ring module of rustls (with its
/// `tls12` feature). The provider serves the safe default versions: it has
/// TLS 1.3 suites, its groups are not empty, and they cover the ECDHE exchange
/// of its TLS 1.2 suites, which is all that `with_protocol_versions` checks.
#[verifier::external_body]
fn ring_provider() -> (r: rustls::crypto::CryptoProvider)
    ensures
        cipher_suite_ids_of(r) == ring_cipher_suite_ids(),
        kx_group_ids_of(r) == ring_kx_group_ids(),
        serves_default_versions(r),
{
    rustls::crypto::ring::default_provider()
}

/// Calls `ClientConfig::builder_with_provider(provider)`, then
/// `with_safe_default_protocol_versions` (its error becomes `None`),
/// `with_root_certificates(roots)` and `with_no_client_auth`, one builder
/// stage after the other. A built config enables TLS 1.2 and 1.3, trusts the
/// store's anchors, has no client certificate, keeps the provider, and starts
/// with no ALPN protocols and early data off.
#[verifier::external_body]
fn build_client_config(
    provider: Arc<rustls::crypto::CryptoProvider>,
    roots: rustls::RootCertStore,
) -> (r: Option<rustls::ClientConfig>)
    ensures
        r is Some <==> serves_default_versions(*provider),
        r matches Some(c) ==> {
            &&& alpn_protocols_of(c) == Seq::<Seq<u8>>::empty()
            &&& !early_data_of(c)
            &&& enabled_versions_of(c) == default_tls_versions()
            &&& trusted_anchors_of(c) == root_anchors_of(roots)
            &&& !offers_client_certs_of(c)
            &&& provider_of(c) == *provider
        },
{
    let builder = rustls::ClientConfig::builder_with_provider(provider);
    match builder.with_safe_default_protocol_versions() {
        Ok(b) => Some(b.with_root_certificates(roots).with_no_client_auth()),
        Err(_) => None,
    }
}

/// The settings of `b` other than ALPN and early data are those of `a`.
pub open spec fn same_base(a: rustls::ClientConfig, b: rustls::ClientConfig) -> bool {
    &&& enabled_versions_of(b) == enabled_versions_of(a)
    &&& trusted_anchors_of(b) == trusted_anchors_of(a)
    &&& offers_client_certs_of(b) == offers_client_certs_of(a)
    &&& provider_of(b) == provider_of(a)
}

/// Sets the `alpn_protocols` field of a client config; the other observed
/// settings are other fields and stay.
#[verifier::external_body]
fn set_alpn_protocols(config: &mut rustls::ClientConfig, protocols: Vec<Vec<u8>>)
    ensures
        alpn_protocols_of(*final(config)) == protocols@.map_values(|p: Vec<u8>| p@),
        early_data_of(*final(config)) == early_data_of(*old(config)),
        same_base(*old(config), *final(config)),
{
    config.alpn_protocols = protocols;
}

/// Sets the `enable_early_data` field of a client config; the other observed
/// settings are other fields and stay.
#[verifier::external_body]
fn set_early_data(config: &mut rustls::ClientConfig, enabled: bool)
    ensures
        early_data_of(*final(config)) == enabled,
        alpn_protocols_of(*final(config)) == alpn_protocols_of(*old(config)),
        same_base(*old(config), *final(config)),
{
    config.enable_early_data = enabled;
}

/// Provider that resolves to an optional preconfigured TLS client config.
///
/// Implementors return `None` to keep the default TLS behaviour, or
/// `Some(config)` to embed a custom client config into the HTTP client.
pub trait TlsProfileProvider: Send + Sync + std::fmt::Debug {
    /// Return the client config to apply, or `None` for default behavior.
    fn client_config(&self) -> Option<TlsClientConfig>;
}

/// Type-erased TLS profile provider.
pub type DynTlsProfileProvider = Arc<dyn TlsProfileProvider>;

/// Default provider: applies no TLS spoofing, preserving current behavior.
#[derive(Debug, Default)]
pub struct NoTlsSpoof;

impl TlsProfileProvider for NoTlsSpoof {
    fn client_config(&self) -> (r: Option<TlsClientConfig>)
        ensures
            r is None,
    {
        None
    }
}

/// The ALPN protocols of a modern Chrome: `h2`, then `http/1.1`.
pub open spec fn chrome_alpn() -> Seq<Seq<u8>> {
    seq![seq![104u8, 50u8], seq![104u8, 116u8, 116u8, 112u8, 47u8, 49u8, 46u8, 49u8]]
}

/// Turns the base config of the Chrome-like profile into the profile's
/// config: no config when the base could not be built, else the base with the
/// ALPN protocols `h2, http/1.1` and 0-RTT early data enabled.
pub fn chrome_like_config(base: Option<rustls::ClientConfig>) -> (r: Option<TlsClientConfig>)
    ensures
        r is Some <==> base is Some,
        r matches Some(c) ==> alpn_protocols_of(*c) == chrome_alpn() && early_data_of(*c)
            && same_base(base->0, *c),
{
    let mut config = match base {
        Some(c) => c,
        None => return None,
    };
    let h2: Vec<u8> = vec![104u8, 50u8];
    let http11: Vec<u8> = vec![104u8, 116u8, 116u8, 112u8, 47u8, 49u8, 46u8, 49u8];
    let protocols: Vec<Vec<u8>> = vec![h2, http11];
    assert(protocols@.map_values(|p: Vec<u8>| p@) =~= chrome_alpn());
    set_alpn_protocols(&mut config, protocols);
    set_early_data(&mut config, true);
    Some(Arc::new(config))
}

/// Mimics a modern Chrome (>= 120) TLS ClientHello: ALPN `h2,http/1.1` and
/// TLS 1.2/1.3 with 0-RTT early data.
#[derive(Debug, Default)]
pub struct ChromeLikeTlsProfile;

impl TlsProfileProvider for ChromeLikeTlsProfile {
    fn client_config(&self) -> (r: Option<TlsClientConfig>)
        ensures
            r is Some,
            r matches Some(c) ==> {
                &&& alpn_protocols_of(*c) == chrome_alpn()
                &&& early_data_of(*c)
                &&& enabled_versions_of(*c) == default_tls_versions()
                &&& trusted_anchors_of(*c) == webpki_extended(Seq::empty())
                &&& !offers_client_certs_of(*c)
                &&& cipher_suite_ids_of(provider_of(*c)) == ring_cipher_suite_ids()
                &&& kx_group_ids_of(provider_of(*c)) == ring_kx_group_ids()
            },
    {
        let mut root_store = empty_root_store();
        add_webpki_roots(&mut root_store);
        let provider = ring_provider();
        chrome_like_config(build_client_config(Arc::new(provider), root_store))
    }
}

} // verus!
