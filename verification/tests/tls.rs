use std::sync::Arc;

use h12tiny::connector::Connector;
use h12tiny::tls::{default_tls_config, offer_protocols, ClientTlsConfigBuilder, TlsVersion};

type Plain = Connector<&'static str, &'static str, &'static str>;

/// A self-signed certificate that belongs to nobody.
const CERTIFICATE: [u8; 384] = [
    48, 130, 1, 124, 48, 130, 1, 33, 160, 3, 2, 1, 2, 2, 20, 36, 114, 16, 195, 44, 44, 177, 178,
    193, 17, 28, 225, 31, 211, 86, 143, 73, 23, 221, 147, 48, 10, 6, 8, 42, 134, 72, 206, 61, 4,
    3, 2, 48, 18, 49, 16, 48, 14, 6, 3, 85, 4, 3, 12, 7, 102, 105, 120, 116, 117, 114, 101, 48,
    32, 23, 13, 50, 54, 49, 49, 49, 53, 48, 53, 52, 51, 48, 55, 90, 24, 15, 50, 49, 50, 54, 49,
    48, 50, 50, 48, 53, 52, 51, 48, 55, 90, 48, 18, 49, 16, 48, 14, 6, 3, 85, 4, 3, 12, 7, 102,
    105, 120, 116, 117, 114, 101, 48, 89, 48, 19, 6, 7, 42, 134, 72, 206, 61, 2, 1, 6, 8, 42,
    134, 72, 206, 61, 3, 1, 7, 3, 66, 0, 4, 39, 216, 86, 250, 196, 74, 39, 50, 63, 205, 156,
    168, 242, 90, 47, 246, 251, 89, 93, 214, 203, 167, 60, 49, 20, 67, 154, 2, 94, 251, 201,
    113, 126, 114, 255, 151, 134, 242, 188, 93, 78, 208, 105, 161, 172, 44, 39, 156, 63, 99, 27,
    67, 244, 168, 253, 54, 246, 210, 82, 100, 195, 70, 218, 173, 163, 83, 48, 81, 48, 29, 6, 3,
    85, 29, 14, 4, 22, 4, 20, 135, 168, 159, 231, 68, 94, 231, 0, 207, 206, 53, 132, 252, 64,
    15, 110, 100, 234, 55, 89, 48, 31, 6, 3, 85, 29, 35, 4, 24, 48, 22, 128, 20, 135, 168, 159,
    231, 68, 94, 231, 0, 207, 206, 53, 132, 252, 64, 15, 110, 100, 234, 55, 89, 48, 15, 6, 3,
    85, 29, 19, 1, 1, 255, 4, 5, 48, 3, 1, 1, 255, 48, 10, 6, 8, 42, 134, 72, 206, 61, 4, 3, 2,
    3, 73, 0, 48, 70, 2, 33, 0, 185, 61, 59, 105, 251, 56, 148, 192, 111, 97, 74, 57, 253, 206,
    96, 88, 10, 109, 87, 138, 234, 9, 187, 16, 199, 149, 39, 3, 18, 219, 211, 94, 2, 33, 0, 176,
    20, 169, 21, 167, 73, 2, 4, 255, 127, 117, 29, 240, 224, 104, 131, 25, 194, 145, 140, 248,
    13, 77, 22, 173, 222, 128, 72, 161, 247, 74, 165,
];

/// The key of that certificate.
const KEY: [u8; 138] = [
    48, 129, 135, 2, 1, 0, 48, 19, 6, 7, 42, 134, 72, 206, 61, 2, 1, 6, 8, 42, 134, 72, 206, 61,
    3, 1, 7, 4, 109, 48, 107, 2, 1, 1, 4, 32, 121, 146, 11, 230, 244, 57, 47, 26, 119, 141, 3,
    200, 198, 69, 252, 226, 35, 191, 104, 128, 80, 5, 211, 76, 150, 43, 205, 93, 100, 212, 171,
    22, 161, 68, 3, 66, 0, 4, 39, 216, 86, 250, 196, 74, 39, 50, 63, 205, 156, 168, 242, 90, 47,
    246, 251, 89, 93, 214, 203, 167, 60, 49, 20, 67, 154, 2, 94, 251, 201, 113, 126, 114, 255,
    151, 134, 242, 188, 93, 78, 208, 105, 161, 172, 44, 39, 156, 63, 99, 27, 67, 244, 168, 253,
    54, 246, 210, 82, 100, 195, 70, 218, 173,
];

fn certificate() -> rustls::pki_types::CertificateDer<'static> {
    rustls::pki_types::CertificateDer::from(CERTIFICATE.to_vec())
}

fn private_key() -> rustls::pki_types::PrivateKeyDer<'static> {
    rustls::pki_types::PrivateKeyDer::Pkcs8(rustls::pki_types::PrivatePkcs8KeyDer::from(
        KEY.to_vec(),
    ))
}

#[test]
fn default_config_offers_h2_then_http11() {
    assert_eq!(
        default_tls_config().alpn_protocols,
        vec![b"h2".to_vec(), b"http/1.1".to_vec()]
    );
}

#[test]
fn tls_builder_constructs_an_explicit_graviola_config() {
    let config = ClientTlsConfigBuilder::new()
        .alpn_protocols(vec![b"http/1.1".to_vec()])
        .build()
        .unwrap();

    assert_eq!(config.alpn_protocols, vec![b"http/1.1".to_vec()]);
}

#[test]
fn tls_builder_accepts_an_explicit_provider() {
    let provider = Arc::new(rustls_graviola::default_provider());
    let config = ClientTlsConfigBuilder::with_provider(provider)
        .build()
        .unwrap();

    assert_eq!(
        config.alpn_protocols,
        vec![b"h2".to_vec(), b"http/1.1".to_vec()]
    );
}

#[test]
fn tls_builder_accepts_explicit_protocol_versions() {
    let config = ClientTlsConfigBuilder::new()
        .protocol_versions(vec![TlsVersion::Tls13])
        .build()
        .unwrap();

    assert_eq!(
        config.alpn_protocols,
        vec![b"h2".to_vec(), b"http/1.1".to_vec()]
    );
}

#[test]
fn tls_builder_accepts_the_older_version_alone() {
    assert!(ClientTlsConfigBuilder::new()
        .protocol_versions(vec![TlsVersion::Tls12])
        .build()
        .is_ok());
}

#[test]
fn an_empty_version_list_is_refused_with_and_without_a_client_certificate() {
    assert!(ClientTlsConfigBuilder::new()
        .protocol_versions(Vec::new())
        .build()
        .is_err());
    let key = rustls::pki_types::PrivateKeyDer::Pkcs8(rustls::pki_types::PrivatePkcs8KeyDer::from(
        vec![0u8; 4],
    ));
    assert!(ClientTlsConfigBuilder::new()
        .protocol_versions(Vec::new())
        .client_auth(Vec::new(), key)
        .build()
        .is_err());
}

#[test]
fn a_provider_without_cipher_suites_is_refused() {
    let mut provider = rustls_graviola::default_provider();
    provider.cipher_suites.clear();
    let provider = Arc::new(provider);
    assert!(ClientTlsConfigBuilder::with_provider(provider.clone())
        .build()
        .is_err());
    assert!(Plain::with_tls_provider(provider.clone()).is_err());
    assert!(Plain::builder().tls_provider(provider).is_err());
}

#[test]
fn a_provider_without_key_exchange_is_refused() {
    let mut provider = rustls_graviola::default_provider();
    provider.kx_groups.clear();
    assert!(ClientTlsConfigBuilder::with_provider(Arc::new(provider))
        .build()
        .is_err());
}

#[test]
fn a_supplied_provider_gets_the_standard_policy() {
    let provider = Arc::new(rustls_graviola::default_provider());
    let connector = Plain::with_tls_provider(provider.clone()).unwrap();
    assert_eq!(
        connector.tls_config().unwrap().alpn_protocols,
        vec![b"h2".to_vec(), b"http/1.1".to_vec()]
    );
    let connector = Plain::builder().tls_provider(provider).unwrap().build();
    assert_eq!(
        connector.tls_config().unwrap().alpn_protocols,
        vec![b"h2".to_vec(), b"http/1.1".to_vec()]
    );
}

#[test]
fn a_supplied_provider_is_the_one_that_is_used() {
    let provider = Arc::new(rustls_graviola::default_provider());
    let config = ClientTlsConfigBuilder::with_provider(provider.clone())
        .build()
        .unwrap();
    assert!(Arc::ptr_eq(config.crypto_provider(), &provider));
    let config = ClientTlsConfigBuilder::with_provider(provider.clone())
        .client_auth(vec![certificate()], private_key())
        .build()
        .unwrap();
    assert!(Arc::ptr_eq(config.crypto_provider(), &provider));
    let config = ClientTlsConfigBuilder::with_provider(provider.clone())
        .protocol_versions(vec![TlsVersion::Tls13])
        .client_auth(vec![certificate()], private_key())
        .build()
        .unwrap();
    assert!(Arc::ptr_eq(config.crypto_provider(), &provider));

    let mut connector = Plain::with_tls_provider(provider.clone()).unwrap();
    connector.force_http1();
    let config = connector.tls_config().unwrap();
    assert!(Arc::ptr_eq(config.crypto_provider(), &provider));
    let connector = Plain::builder()
        .tls_provider(provider.clone())
        .unwrap()
        .build();
    let config = connector.tls_config().unwrap();
    assert!(Arc::ptr_eq(config.crypto_provider(), &provider));
}

#[test]
fn a_client_certificate_needs_a_chain_and_its_own_key() {
    assert!(ClientTlsConfigBuilder::new()
        .client_auth(Vec::new(), private_key())
        .build()
        .is_err());
    let mut other = KEY.to_vec();
    other[36] ^= 1;
    let other = rustls::pki_types::PrivateKeyDer::Pkcs8(
        rustls::pki_types::PrivatePkcs8KeyDer::from(other),
    );
    assert!(ClientTlsConfigBuilder::new()
        .client_auth(vec![certificate()], other)
        .build()
        .is_err());
    let mislabelled = rustls::pki_types::PrivateKeyDer::Sec1(
        rustls::pki_types::PrivateSec1KeyDer::from(KEY.to_vec()),
    );
    assert!(ClientTlsConfigBuilder::new()
        .client_auth(vec![certificate()], mislabelled)
        .build()
        .is_err());
}

#[test]
fn a_useless_private_key_is_refused() {
    let key = rustls::pki_types::PrivateKeyDer::Pkcs8(rustls::pki_types::PrivatePkcs8KeyDer::from(
        vec![0u8; 4],
    ));
    let chain = vec![rustls::pki_types::CertificateDer::from(vec![0u8; 4])];
    assert!(ClientTlsConfigBuilder::new()
        .client_auth(chain, key)
        .build()
        .is_err());
}

#[test]
fn dropping_client_authentication_restores_the_anonymous_client() {
    let key = rustls::pki_types::PrivateKeyDer::Pkcs8(rustls::pki_types::PrivatePkcs8KeyDer::from(
        vec![0u8; 4],
    ));
    let config = ClientTlsConfigBuilder::new()
        .client_auth(Vec::new(), key)
        .no_client_auth()
        .build()
        .unwrap();
    assert!(!config.client_auth_cert_resolver.has_certs());
}

#[test]
fn a_certificate_that_is_no_trust_anchor_is_refused() {
    let certificate = rustls::pki_types::CertificateDer::from(vec![1u8, 2, 3]);
    assert!(ClientTlsConfigBuilder::new()
        .add_root_certificate(certificate)
        .is_err_and(|error| matches!(error, rustls::Error::InvalidCertificate(_))));
}

#[test]
fn an_empty_root_store_still_gives_a_configuration() {
    let config = ClientTlsConfigBuilder::new()
        .root_certificates(rustls::RootCertStore::empty())
        .alpn_protocols(Vec::new())
        .build()
        .unwrap();
    assert!(config.alpn_protocols.is_empty());
}

#[test]
fn protocols_are_offered_on_what_was_built_and_errors_are_handed_on() {
    let built = ClientTlsConfigBuilder::new().build();
    let config = offer_protocols(built, vec![b"x".to_vec()]).unwrap();
    assert_eq!(config.alpn_protocols, vec![b"x".to_vec()]);

    let failed = ClientTlsConfigBuilder::new()
        .protocol_versions(Vec::new())
        .build();
    assert!(offer_protocols(failed, vec![b"x".to_vec()]).is_err());
}

#[test]
fn default_builder_is_the_standard_one() {
    let config = ClientTlsConfigBuilder::default().build().unwrap();
    assert_eq!(
        config.alpn_protocols,
        vec![b"h2".to_vec(), b"http/1.1".to_vec()]
    );
}

#[test]
fn forcing_http1_replaces_even_a_custom_h2_alpn_policy() {
    let config = ClientTlsConfigBuilder::new().build().unwrap();
    let mut connector = Plain::with_tls_config(config);
    connector.force_http1();
    assert_eq!(
        connector.tls_config().unwrap().alpn_protocols,
        vec![b"http/1.1".to_vec()]
    );
}

#[test]
fn forcing_http1_on_a_copy_leaves_the_connector_alone() {
    let config = ClientTlsConfigBuilder::new().build().unwrap();
    let connector = Plain::with_tls_config(config);
    let mut copy = connector.clone();
    assert!(Arc::ptr_eq(
        copy.tls_config().unwrap(),
        connector.tls_config().unwrap()
    ));
    copy.force_http1();
    assert_eq!(
        copy.tls_config().unwrap().alpn_protocols,
        vec![b"http/1.1".to_vec()]
    );
    assert_eq!(
        connector.tls_config().unwrap().alpn_protocols,
        vec![b"h2".to_vec(), b"http/1.1".to_vec()]
    );
    assert!(Plain::without_tls().clone().tls_config().is_none());
}

#[test]
fn a_failed_build_tells_why() {
    let text = |error: rustls::Error| match error {
        rustls::Error::General(text) => text,
        other => panic!("expected a plain text, not {other:?}"),
    };
    let mut provider = rustls_graviola::default_provider();
    provider.cipher_suites.clear();
    let error = Plain::with_tls_provider(Arc::new(provider)).err().unwrap();
    assert_eq!(text(error), "no usable cipher suites configured");
    let mut provider = rustls_graviola::default_provider();
    provider.kx_groups.clear();
    let error = Plain::builder().tls_provider(Arc::new(provider)).err().unwrap();
    assert_eq!(text(error), "no kx groups configured");
    let error = ClientTlsConfigBuilder::new()
        .protocol_versions(Vec::new())
        .client_auth(vec![certificate()], private_key())
        .build()
        .unwrap_err();
    assert_eq!(text(error), "no usable cipher suites configured");
    let error = ClientTlsConfigBuilder::new()
        .client_auth(Vec::new(), private_key())
        .build()
        .unwrap_err();
    assert!(matches!(error, rustls::Error::NoCertificatesPresented));
}

#[test]
fn forcing_http1_without_tls_changes_nothing() {
    let mut connector = Plain::without_tls();
    connector.force_http1();
    assert!(connector.tls_config().is_none());
}

#[test]
fn forcing_http1_leaves_other_users_of_a_policy_alone() {
    let config = ClientTlsConfigBuilder::new().build().unwrap();
    let mut connector = Plain::with_tls_config(config);
    let before = connector.tls_config().unwrap().clone();
    connector.force_http1();
    assert_eq!(
        before.alpn_protocols,
        vec![b"h2".to_vec(), b"http/1.1".to_vec()]
    );
}

#[test]
fn a_client_certificate_is_used_with_default_and_with_chosen_versions() {
    let config = ClientTlsConfigBuilder::new()
        .client_auth(vec![certificate()], private_key())
        .build()
        .unwrap();
    assert!(config.client_auth_cert_resolver.has_certs());
    assert_eq!(
        config.alpn_protocols,
        vec![b"h2".to_vec(), b"http/1.1".to_vec()]
    );
    let config = ClientTlsConfigBuilder::new()
        .protocol_versions(vec![TlsVersion::Tls13])
        .client_auth(vec![certificate()], private_key())
        .build()
        .unwrap();
    assert!(config.client_auth_cert_resolver.has_certs());
}

#[test]
fn a_private_trust_anchor_is_accepted() {
    let builder = ClientTlsConfigBuilder::new()
        .add_root_certificate(certificate())
        .unwrap();
    assert!(builder.build().is_ok());
}
