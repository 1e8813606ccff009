//! TLS client policy.

use std::sync::Arc;

use rustls::Error as TlsError;
use vstd::prelude::*;

use crate::text::byte_strings;

verus! {

#[verifier::external_type_specification]
#[verifier::external_body]
pub struct ExClientConfig(rustls::ClientConfig);

#[verifier::external_type_specification]
#[verifier::external_body]
pub struct ExRootCertStore(rustls::RootCertStore);

#[verifier::external_type_specification]
#[verifier::external_body]
pub struct ExCryptoProvider(rustls::crypto::CryptoProvider);

#[verifier::external_type_specification]
#[verifier::external_body]
pub struct ExCertificateDer<'a>(rustls::pki_types::CertificateDer<'a>);

#[verifier::external_type_specification]
#[verifier::external_body]
pub struct ExPrivateKeyDer<'a>(rustls::pki_types::PrivateKeyDer<'a>);

#[verifier::external_type_specification]
#[verifier::external_body]
pub struct ExTlsError(TlsError);

/// A TLS protocol version.
#[derive(Clone, Copy, Debug, PartialEq, Eq, Structural)]
pub enum TlsVersion {
    Tls12,
    Tls13,
}

/// How the bytes of a private key are to be read.
#[derive(Clone, Copy, Debug, PartialEq, Eq, Structural)]
pub enum KeyEncoding {
    Pkcs1,
    Sec1,
    Pkcs8,
}

/// What a server's certificate chain can end in.
pub ghost struct Anchor {
    pub subject: Seq<u8>,
    pub public_key: Seq<u8>,
    pub name_constraints: Option<Seq<u8>>,
}

/// What a client authenticates itself with.
pub ghost struct Identity {
    pub chain: Seq<Seq<u8>>,
    pub encoding: KeyEncoding,
    pub key: Seq<u8>,
}

/// Both protocol versions, which are the safe default.
pub open spec fn both_versions() -> Set<TlsVersion> {
    set![TlsVersion::Tls12, TlsVersion::Tls13]
}

/// The protocol versions that a provider has cipher suites for. A provider with
/// a cipher suite that none of its key-exchange groups can serve, or with no
/// key-exchange group, counts as having none.
pub uninterp spec fn usable_versions(provider: rustls::crypto::CryptoProvider) -> Set<TlsVersion>;

/// Whether a provider is the one that Graviola offers by default.
pub uninterp spec fn is_graviola(provider: rustls::crypto::CryptoProvider) -> bool;

/// What Graviola says of a private key and the certificate chain that goes with
/// it: it refuses a key that it cannot load, and a chain that is empty or that it
/// finds to be unreadable or made for another key.
pub uninterp spec fn graviola_verdict(
    chain: Seq<Seq<u8>>,
    encoding: KeyEncoding,
    key: Seq<u8>,
) -> Result<(), TlsError>;

/// Why a provider can serve none of some protocol versions.
pub uninterp spec fn version_error(
    provider: rustls::crypto::CryptoProvider,
    versions: Set<TlsVersion>,
) -> TlsError;

/// Whether trust anchors are the WebPKI roots, in their order.
pub uninterp spec fn are_webpki_roots(roots: Seq<Anchor>) -> bool;

/// The trust anchors of a store, in order.
pub uninterp spec fn anchors(store: rustls::RootCertStore) -> Seq<Anchor>;

/// The bytes of a certificate.
pub uninterp spec fn certificate_bytes(
    certificate: rustls::pki_types::CertificateDer<'static>,
) -> Seq<u8>;

/// The bytes of a private key.
pub uninterp spec fn private_key_bytes(key: rustls::pki_types::PrivateKeyDer<'static>) -> Seq<u8>;

/// How a private key is encoded.
pub uninterp spec fn private_key_encoding(
    key: rustls::pki_types::PrivateKeyDer<'static>,
) -> KeyEncoding;

/// The trust anchor that a certificate stands for, or why it stands for none.
pub uninterp spec fn trust_anchor(certificate: Seq<u8>) -> Result<Anchor, TlsError>;

/// The application protocols that a configuration offers, most preferred first.
pub uninterp spec fn offered_alpn(config: rustls::ClientConfig) -> Seq<Seq<u8>>;

/// The trust anchors that a configuration validates servers against.
pub uninterp spec fn trusted_anchors(config: rustls::ClientConfig) -> Seq<Anchor>;

/// The protocol versions that a configuration negotiates.
pub uninterp spec fn enabled_versions(config: rustls::ClientConfig) -> Set<TlsVersion>;

/// The certificate chain and private key that a configuration authenticates the
/// client with, where it does.
pub uninterp spec fn client_identity(config: rustls::ClientConfig) -> Option<Identity>;

/// The provider that a configuration does its cryptography with.
pub uninterp spec fn configured_provider(
    config: rustls::ClientConfig,
) -> rustls::crypto::CryptoProvider;

/// All of a configuration but the application protocols that it offers: its
/// verifier, provider, versions and client identity, how it resumes sessions,
/// whether it names the server, where it logs keys, and the rest.
pub uninterp spec fn besides_alpn(config: rustls::ClientConfig) -> rustls::ClientConfig;

/// The bytes of each certificate of a chain.
pub open spec fn chain_bytes(
    chain: Seq<rustls::pki_types::CertificateDer<'static>>,
) -> Seq<Seq<u8>> {
    chain.map_values(|c: rustls::pki_types::CertificateDer<'static>| certificate_bytes(c))
}

/// A verdict that refuses with this error.
pub open spec fn refused_with(verdict: Result<(), TlsError>, error: TlsError) -> bool {
    verdict matches Err(refusal) && refusal == error
}

/// A configuration that was built from these choices, before any application
/// protocol has been chosen.
pub open spec fn built_from(
    config: rustls::ClientConfig,
    provider: rustls::crypto::CryptoProvider,
    roots: Seq<Anchor>,
    versions: Set<TlsVersion>,
    identity: Option<Identity>,
) -> bool {
    &&& offered_alpn(config) == Seq::<Seq<u8>>::empty()
    &&& trusted_anchors(config) == roots
    &&& enabled_versions(config) == versions
    &&& client_identity(config) == identity
    &&& configured_provider(config) == provider
}

/// Two configurations differ in nothing but the application protocols that they
/// offer.
pub open spec fn same_but_alpn(before: rustls::ClientConfig, after: rustls::ClientConfig) -> bool {
    &&& trusted_anchors(after) == trusted_anchors(before)
    &&& enabled_versions(after) == enabled_versions(before)
    &&& client_identity(after) == client_identity(before)
    &&& configured_provider(after) == configured_provider(before)
    &&& besides_alpn(after) == besides_alpn(before)
}

/// Whether some version is both wanted and usable.
pub open spec fn negotiable(
    provider: rustls::crypto::CryptoProvider,
    versions: Set<TlsVersion>,
) -> bool {
    exists|version: TlsVersion|
        versions.contains(version) && #[trigger] usable_versions(provider).contains(version)
}

/// Calls `rustls_graviola::default_provider`.
///
/// Taken on trust: it is Graviola's provider; its cipher suites cover both protocol
/// versions, and its key-exchange groups serve each of them.
#[verifier::external_body]
fn graviola_provider() -> (provider: rustls::crypto::CryptoProvider)
    ensures
        is_graviola(provider),
        usable_versions(provider) == both_versions(),
{
    rustls_graviola::default_provider()
}

/// Calls `rustls::RootCertStore::from_iter` on `webpki_roots::TLS_SERVER_ROOTS`.
///
/// Taken on trust: the store holds the roots of that crate in their order, and is
/// not empty. Which roots those are depends on the release of that crate.
#[verifier::external_body]
fn webpki_root_store() -> (store: rustls::RootCertStore)
    ensures
        are_webpki_roots(anchors(store)),
        anchors(store).len() > 0,
{
    rustls::RootCertStore::from_iter(webpki_roots::TLS_SERVER_ROOTS.iter().cloned())
}

/// Calls `rustls::RootCertStore::add`.
///
/// Taken on trust: a certificate that can stand for a trust anchor is added at
/// the end; any other is refused and leaves the store as it was. The anchor, or
/// the error, is a function of the certificate's bytes.
#[verifier::external_body]
fn add_anchor(
    store: &mut rustls::RootCertStore,
    certificate: rustls::pki_types::CertificateDer<'static>,
) -> (added: Result<(), TlsError>)
    ensures
        match trust_anchor(certificate_bytes(certificate)) {
            Ok(anchor) => {
                &&& added is Ok
                &&& anchors(*final(store)) == anchors(*old(store)).push(anchor)
            },
            Err(error) => {
                &&& added == Err::<(), TlsError>(error)
                &&& anchors(*final(store)) == anchors(*old(store))
            },
        },
{
    store.add(certificate)
}

/// Calls `rustls::ClientConfig::builder_with_provider`, then
/// `with_safe_default_protocol_versions`, `with_root_certificates` and
/// `with_no_client_auth`.
///
/// Taken on trust: it fails exactly where the provider can serve neither version,
/// with an error that the provider and the versions decide; a configuration that
/// comes out does its cryptography with `provider`, validates against `roots`,
/// negotiates both versions, has no client identity and offers no application
/// protocol.
#[verifier::external_body]
fn config_for_default_versions(
    provider: Arc<rustls::crypto::CryptoProvider>,
    roots: rustls::RootCertStore,
) -> (config: Result<rustls::ClientConfig, TlsError>)
    ensures
        config is Ok <==> negotiable(*provider, both_versions()),
        config matches Err(error) ==> error == version_error(*provider, both_versions()),
        config matches Ok(config) ==> built_from(
            config,
            *provider,
            anchors(roots),
            both_versions(),
            None,
        ),
{
    Ok(rustls::ClientConfig::builder_with_provider(provider)
        .with_safe_default_protocol_versions()?
        .with_root_certificates(roots)
        .with_no_client_auth())
}

/// Calls `rustls::ClientConfig::builder_with_provider`, then
/// `with_protocol_versions`, `with_root_certificates` and `with_no_client_auth`.
///
/// Taken on trust: it fails exactly where the provider can serve none of
/// `versions`, with an error that the provider and the set of versions decide; a
/// configuration that comes out does its cryptography with `provider`, validates
/// against `roots`, negotiates those versions, has no client identity and offers
/// no application protocol.
#[verifier::external_body]
fn config_for_versions(
    provider: Arc<rustls::crypto::CryptoProvider>,
    versions: &Vec<TlsVersion>,
    roots: rustls::RootCertStore,
) -> (config: Result<rustls::ClientConfig, TlsError>)
    ensures
        config is Ok <==> negotiable(*provider, versions@.to_set()),
        config matches Err(error) ==> error == version_error(*provider, versions@.to_set()),
        config matches Ok(config) ==> built_from(
            config,
            *provider,
            anchors(roots),
            versions@.to_set(),
            None,
        ),
{
    let versions: Vec<&'static rustls::SupportedProtocolVersion> = versions
        .iter()
        .map(|version| match version {
            TlsVersion::Tls12 => &rustls::version::TLS12,
            TlsVersion::Tls13 => &rustls::version::TLS13,
        })
        .collect();
    Ok(rustls::ClientConfig::builder_with_provider(provider)
        .with_protocol_versions(&versions)?
        .with_root_certificates(roots)
        .with_no_client_auth())
}

/// Calls `rustls::ClientConfig::builder_with_provider`, then
/// `with_safe_default_protocol_versions`, `with_root_certificates` and
/// `with_client_auth_cert`.
///
/// Taken on trust: it fails where the provider can serve neither version, with an
/// error that the provider and the versions decide; a configuration that comes out
/// does its cryptography with `provider`, validates against `roots`, negotiates
/// both versions, authenticates with `chain` and `key`, and offers no application
/// protocol. Graviola's provider decides about the key by the bytes of the chain
/// and by the key's encoding and bytes alone, which decide the error too, and
/// nothing else makes it fail. Of another provider, whose keys may lie in
/// hardware, it is not stated which keys it accepts.
#[verifier::external_body]
fn authenticated_config_for_default_versions(
    provider: Arc<rustls::crypto::CryptoProvider>,
    roots: rustls::RootCertStore,
    chain: Vec<rustls::pki_types::CertificateDer<'static>>,
    key: rustls::pki_types::PrivateKeyDer<'static>,
) -> (config: Result<rustls::ClientConfig, TlsError>)
    ensures
        config is Ok ==> negotiable(*provider, both_versions()),
        config matches Ok(config) ==> built_from(
            config,
            *provider,
            anchors(roots),
            both_versions(),
            Some(
                (Identity {
                    chain: chain_bytes(chain@),
                    encoding: private_key_encoding(key),
                    key: private_key_bytes(key),
                }),
            ),
        ),
        config is Ok && is_graviola(*provider) ==> graviola_verdict(
            chain_bytes(chain@),
            private_key_encoding(key),
            private_key_bytes(key),
        ) is Ok,
        config matches Err(error) ==> !negotiable(*provider, both_versions()) ==> error
            == version_error(*provider, both_versions()),
        config matches Err(error) ==> is_graviola(*provider) && negotiable(
            *provider,
            both_versions(),
        ) ==> refused_with(
            graviola_verdict(
                chain_bytes(chain@),
                private_key_encoding(key),
                private_key_bytes(key),
            ),
            error,
        ),
{
    rustls::ClientConfig::builder_with_provider(provider)
        .with_safe_default_protocol_versions()?
        .with_root_certificates(roots)
        .with_client_auth_cert(chain, key)
}

/// Calls `rustls::ClientConfig::builder_with_provider`, then
/// `with_protocol_versions`, `with_root_certificates` and
/// `with_client_auth_cert`.
///
/// Taken on trust: it fails where the provider can serve none of `versions`, with
/// an error that the provider and the set of versions decide; a configuration that
/// comes out does its cryptography with `provider`, validates against `roots`,
/// negotiates those versions, authenticates with `chain` and `key`, and offers no
/// application protocol. Graviola's provider decides about the key by the bytes of
/// the chain and by the key's encoding and bytes alone, which decide the error
/// too, and nothing else makes it fail. Of another provider, whose keys may lie in
/// hardware, it is not stated which keys it accepts.
#[verifier::external_body]
fn authenticated_config_for_versions(
    provider: Arc<rustls::crypto::CryptoProvider>,
    versions: &Vec<TlsVersion>,
    roots: rustls::RootCertStore,
    chain: Vec<rustls::pki_types::CertificateDer<'static>>,
    key: rustls::pki_types::PrivateKeyDer<'static>,
) -> (config: Result<rustls::ClientConfig, TlsError>)
    ensures
        config is Ok ==> negotiable(*provider, versions@.to_set()),
        config matches Ok(config) ==> built_from(
            config,
            *provider,
            anchors(roots),
            versions@.to_set(),
            Some(
                (Identity {
                    chain: chain_bytes(chain@),
                    encoding: private_key_encoding(key),
                    key: private_key_bytes(key),
                }),
            ),
        ),
        config is Ok && is_graviola(*provider) ==> graviola_verdict(
            chain_bytes(chain@),
            private_key_encoding(key),
            private_key_bytes(key),
        ) is Ok,
        config matches Err(error) ==> !negotiable(*provider, versions@.to_set()) ==> error
            == version_error(*provider, versions@.to_set()),
        config matches Err(error) ==> is_graviola(*provider) && negotiable(
            *provider,
            versions@.to_set(),
        ) ==> refused_with(
            graviola_verdict(
                chain_bytes(chain@),
                private_key_encoding(key),
                private_key_bytes(key),
            ),
            error,
        ),
{
    let versions: Vec<&'static rustls::SupportedProtocolVersion> = versions
        .iter()
        .map(|version| match version {
            TlsVersion::Tls12 => &rustls::version::TLS12,
            TlsVersion::Tls13 => &rustls::version::TLS13,
        })
        .collect();
    rustls::ClientConfig::builder_with_provider(provider)
        .with_protocol_versions(&versions)?
        .with_root_certificates(roots)
        .with_client_auth_cert(chain, key)
}

/// Sets `rustls::ClientConfig::alpn_protocols`.
///
/// Taken on trust: the configuration then offers exactly `protocols`, and is
/// otherwise as it was.
#[verifier::external_body]
fn set_alpn(config: &mut rustls::ClientConfig, protocols: Vec<Vec<u8>>)
    ensures
        offered_alpn(*final(config)) == byte_strings(protocols@),
        trusted_anchors(*final(config)) == trusted_anchors(*old(config)),
        enabled_versions(*final(config)) == enabled_versions(*old(config)),
        client_identity(*final(config)) == client_identity(*old(config)),
        configured_provider(*final(config)) == configured_provider(*old(config)),
        besides_alpn(*final(config)) == besides_alpn(*old(config)),
{
    config.alpn_protocols = protocols;
}

/// Calls `<rustls::ClientConfig as Clone>::clone`.
///
/// Taken on trust: the copy makes the same choices.
#[verifier::external_body]
fn clone_config(config: &rustls::ClientConfig) -> (copy: rustls::ClientConfig)
    ensures
        offered_alpn(copy) == offered_alpn(*config),
        trusted_anchors(copy) == trusted_anchors(*config),
        enabled_versions(copy) == enabled_versions(*config),
        client_identity(copy) == client_identity(*config),
        configured_provider(copy) == configured_provider(*config),
        besides_alpn(copy) == besides_alpn(*config),
{
    config.clone()
}

/// How the client authenticates itself to servers.
enum ClientAuthentication {
    Anonymous,
    Certificates {
        certificate_chain: Vec<rustls::pki_types::CertificateDer<'static>>,
        private_key: rustls::pki_types::PrivateKeyDer<'static>,
    },
}

/// Builds a TLS client configuration without relying on process-global provider
/// selection.
///
/// [`ClientTlsConfigBuilder::new`] uses the Graviola provider, the WebPKI roots,
/// no client certificate, and offers HTTP/2 and then HTTP/1.1. Each of these can
/// be replaced, and the TLS protocol versions restricted.
pub struct ClientTlsConfigBuilder {
    provider: Arc<rustls::crypto::CryptoProvider>,
    roots: rustls::RootCertStore,
    alpn_protocols: Vec<Vec<u8>>,
    protocol_versions: Option<Vec<TlsVersion>>,
    client_auth: ClientAuthentication,
}

/// What a [`ClientTlsConfigBuilder`] stands for.
pub ghost struct TlsPolicy {
    pub provider: rustls::crypto::CryptoProvider,
    pub roots: Seq<Anchor>,
    pub alpn: Seq<Seq<u8>>,
    /// The versions chosen, where the default was replaced.
    pub versions: Option<Seq<TlsVersion>>,
    /// The certificate chain and private key of the client, where it has them.
    pub identity: Option<Identity>,
}

impl View for ClientTlsConfigBuilder {
    type V = TlsPolicy;

    closed spec fn view(&self) -> TlsPolicy {
        TlsPolicy {
            provider: *self.provider,
            roots: anchors(self.roots),
            alpn: byte_strings(self.alpn_protocols@),
            versions: match self.protocol_versions {
                Some(versions) => Some(versions@),
                None => None,
            },
            identity: match self.client_auth {
                ClientAuthentication::Anonymous => None,
                ClientAuthentication::Certificates { certificate_chain, private_key } => Some(
                    Identity {
                        chain: chain_bytes(certificate_chain@),
                        encoding: private_key_encoding(private_key),
                        key: private_key_bytes(private_key),
                    },
                ),
            },
        }
    }
}

/// `h2`, as it is offered in ALPN.
pub open spec fn alpn_h2() -> Seq<u8> {
    seq![104u8, 50u8]
}

/// `http/1.1`, as it is offered in ALPN.
pub open spec fn alpn_http11() -> Seq<u8> {
    seq![104u8, 116u8, 116u8, 112u8, 47u8, 49u8, 46u8, 49u8]
}

impl TlsPolicy {
    /// The versions that a configuration built under this policy negotiates.
    pub open spec fn wanted_versions(self) -> Set<TlsVersion> {
        match self.versions {
            Some(versions) => versions.to_set(),
            None => both_versions(),
        }
    }

    /// Whether the provider can serve one of the wanted versions.
    pub open spec fn supported(self) -> bool {
        negotiable(self.provider, self.wanted_versions())
    }

    /// Whether `config` carries out this policy.
    pub open spec fn realized_by(self, config: rustls::ClientConfig) -> bool {
        &&& offered_alpn(config) == self.alpn
        &&& trusted_anchors(config) == self.roots
        &&& enabled_versions(config) == self.wanted_versions()
        &&& client_identity(config) == self.identity
        &&& configured_provider(config) == self.provider
    }

    /// What Graviola says of the client identity, where there is one.
    pub open spec fn identity_verdict(self) -> Result<(), TlsError> {
        match self.identity {
            Some(identity) => graviola_verdict(identity.chain, identity.encoding, identity.key),
            None => Ok(()),
        }
    }

    /// What building a configuration under this policy comes to where the provider
    /// is Graviola's.
    pub open spec fn graviola_outcome(self) -> Result<(), TlsError> {
        if self.supported() {
            self.identity_verdict()
        } else {
            Err(version_error(self.provider, self.wanted_versions()))
        }
    }
}

/// `h2`, as it is offered in ALPN.
pub(crate) fn h2_protocol() -> (protocol: Vec<u8>)
    ensures
        protocol@ == alpn_h2(),
{
    let protocol: Vec<u8> = vec![104, 50];
    assert(protocol@ =~= alpn_h2());
    protocol
}

/// `http/1.1`, as it is offered in ALPN.
pub(crate) fn http11_protocol() -> (protocol: Vec<u8>)
    ensures
        protocol@ == alpn_http11(),
{
    let protocol: Vec<u8> = vec![104, 116, 116, 112, 47, 49, 46, 49];
    assert(protocol@ =~= alpn_http11());
    protocol
}

/// Chooses the application protocols of a configuration that has been built, and
/// hands on the error of one that has not.
pub fn offer_protocols(
    built: Result<rustls::ClientConfig, TlsError>,
    protocols: Vec<Vec<u8>>,
) -> (config: Result<rustls::ClientConfig, TlsError>)
    ensures
        match built {
            Ok(before) => {
                &&& config matches Ok(after)
                &&& offered_alpn(after) == byte_strings(protocols@)
                &&& same_but_alpn(before, after)
            },
            Err(error) => config == Err::<rustls::ClientConfig, TlsError>(error),
        },
{
    match built {
        Ok(before) => {
            let mut config = before;
            set_alpn(&mut config, protocols);
            Ok(config)
        },
        Err(error) => Err(error),
    }
}

impl ClientTlsConfigBuilder {
    /// Starts with the Graviola provider and standard HTTPS client defaults.
    pub fn new() -> (builder: Self)
        ensures
            is_graviola(builder@.provider),
            usable_versions(builder@.provider) == both_versions(),
            are_webpki_roots(builder@.roots),
            builder@.roots.len() > 0,
            builder@.alpn == seq![alpn_h2(), alpn_http11()],
            builder@.versions is None,
            builder@.identity is None,
            builder@.supported(),
    {
        let provider = graviola_provider();
        proof {
            assert(usable_versions(provider).contains(TlsVersion::Tls13));
        }
        ClientTlsConfigBuilder::with_provider(Arc::new(provider))
    }

    /// Starts with an explicitly supplied provider and standard HTTPS client
    /// defaults. [`Self::build`] reports a provider that cannot serve them.
    pub fn with_provider(provider: Arc<rustls::crypto::CryptoProvider>) -> (builder: Self)
        ensures
            builder@.provider == *provider,
            are_webpki_roots(builder@.roots),
            builder@.roots.len() > 0,
            builder@.alpn == seq![alpn_h2(), alpn_http11()],
            builder@.versions is None,
            builder@.identity is None,
    {
        let mut alpn_protocols: Vec<Vec<u8>> = Vec::new();
        alpn_protocols.push(h2_protocol());
        alpn_protocols.push(http11_protocol());
        assert(byte_strings(alpn_protocols@) =~= seq![alpn_h2(), alpn_http11()]);
        ClientTlsConfigBuilder {
            provider,
            roots: webpki_root_store(),
            alpn_protocols,
            protocol_versions: None,
            client_auth: ClientAuthentication::Anonymous,
        }
    }

    /// Replaces the trust store used for server certificate validation.
    pub fn root_certificates(self, roots: rustls::RootCertStore) -> (builder: Self)
        ensures
            builder@ == (TlsPolicy { roots: anchors(roots), ..self@ }),
    {
        ClientTlsConfigBuilder { roots, ..self }
    }

    /// Adds one trust anchor to the existing trust store.
    pub fn add_root_certificate(
        self,
        certificate: rustls::pki_types::CertificateDer<'static>,
    ) -> (builder: Result<Self, TlsError>)
        ensures
            match trust_anchor(certificate_bytes(certificate)) {
                Ok(anchor) => {
                    &&& builder matches Ok(builder)
                    &&& builder@ == (TlsPolicy { roots: self@.roots.push(anchor), ..self@ })
                },
                Err(error) => builder == Err::<Self, TlsError>(error),
            },
    {
        let mut builder = self;
        match add_anchor(&mut builder.roots, certificate) {
            Ok(()) => Ok(builder),
            Err(error) => Err(error),
        }
    }

    /// Replaces the application protocols offered during TLS negotiation.
    ///
    /// The default offers HTTP/2 followed by HTTP/1.1. An empty list disables
    /// ALPN negotiation.
    pub fn alpn_protocols(self, protocols: Vec<Vec<u8>>) -> (builder: Self)
        ensures
            builder@ == (TlsPolicy { alpn: byte_strings(protocols@), ..self@ }),
    {
        ClientTlsConfigBuilder { alpn_protocols: protocols, ..self }
    }

    /// Restricts TLS negotiation to exactly these protocol versions.
    ///
    /// By default both versions are negotiated. An empty list makes
    /// [`Self::build`] fail rather than silently broaden the policy.
    pub fn protocol_versions(self, versions: Vec<TlsVersion>) -> (builder: Self)
        ensures
            builder@ == (TlsPolicy { versions: Some(versions@), ..self@ }),
    {
        ClientTlsConfigBuilder { protocol_versions: Some(versions), ..self }
    }

    /// Configures no TLS client authentication, which is the default.
    pub fn no_client_auth(self) -> (builder: Self)
        ensures
            builder@ == (TlsPolicy { identity: None, ..self@ }),
    {
        ClientTlsConfigBuilder { client_auth: ClientAuthentication::Anonymous, ..self }
    }

    /// Configures a certificate chain and private key for mutual TLS.
    pub fn client_auth(
        self,
        certificate_chain: Vec<rustls::pki_types::CertificateDer<'static>>,
        private_key: rustls::pki_types::PrivateKeyDer<'static>,
    ) -> (builder: Self)
        ensures
            builder@ == (TlsPolicy {
                identity: Some(
                    Identity {
                        chain: chain_bytes(certificate_chain@),
                        encoding: private_key_encoding(private_key),
                        key: private_key_bytes(private_key),
                    },
                ),
                ..self@
            }),
    {
        ClientTlsConfigBuilder {
            client_auth: ClientAuthentication::Certificates { certificate_chain, private_key },
            ..self
        }
    }

    /// Finishes the configuration.
    ///
    /// Without client authentication it fails exactly where the provider can serve
    /// none of the wanted versions, with an error that these decide. With client
    /// authentication the provider can refuse the key as well; Graviola does so
    /// exactly for a key that it cannot load and for a chain that does not fit the
    /// key.
    pub fn build(self) -> (config: Result<rustls::ClientConfig, TlsError>)
        ensures
            config matches Ok(config) ==> self@.supported() && self@.realized_by(config),
            !self@.supported() ==> config is Err,
            self@.supported() && self@.identity is None ==> config is Ok,
            config matches Err(error) ==> !self@.supported() || self@.identity is None ==> error
                == version_error(self@.provider, self@.wanted_versions()),
            is_graviola(self@.provider) ==> match self@.graviola_outcome() {
                Ok(_) => config is Ok,
                Err(error) => config == Err::<rustls::ClientConfig, TlsError>(error),
            },
    {
        let built = match (self.protocol_versions, self.client_auth) {
            (Some(versions), ClientAuthentication::Anonymous) => config_for_versions(
                self.provider,
                &versions,
                self.roots,
            ),
            (None, ClientAuthentication::Anonymous) => config_for_default_versions(
                self.provider,
                self.roots,
            ),
            (
                Some(versions),
                ClientAuthentication::Certificates { certificate_chain, private_key },
            ) => authenticated_config_for_versions(
                self.provider,
                &versions,
                self.roots,
                certificate_chain,
                private_key,
            ),
            (
                None,
                ClientAuthentication::Certificates { certificate_chain, private_key },
            ) => authenticated_config_for_default_versions(
                self.provider,
                self.roots,
                certificate_chain,
                private_key,
            ),
        };
        offer_protocols(built, self.alpn_protocols)
    }
}

impl Default for ClientTlsConfigBuilder {
    fn default() -> (builder: Self)
        ensures
            is_graviola(builder@.provider),
            usable_versions(builder@.provider) == both_versions(),
            are_webpki_roots(builder@.roots),
            builder@.roots.len() > 0,
            builder@.alpn == seq![alpn_h2(), alpn_http11()],
            builder@.versions is None,
            builder@.identity is None,
            builder@.supported(),
    {
        ClientTlsConfigBuilder::new()
    }
}

/// The standard policy: Graviola, the WebPKI roots, both versions, no client
/// authentication, HTTP/2 and then HTTP/1.1.
pub fn default_tls_config() -> (config: rustls::ClientConfig)
    ensures
        offered_alpn(config) == seq![alpn_h2(), alpn_http11()],
        are_webpki_roots(trusted_anchors(config)),
        trusted_anchors(config).len() > 0,
        enabled_versions(config) == both_versions(),
        client_identity(config) is None,
        is_graviola(configured_provider(config)),
{
    match ClientTlsConfigBuilder::new().build() {
        Ok(config) => config,
        Err(_) => {
            assert(false);
            vstd::pervasive::unreached()
        },
    }
}

/// The same policy, offering HTTP/1.1 alone.
pub(crate) fn http1_only_config(config: &rustls::ClientConfig) -> (restricted: rustls::ClientConfig)
    ensures
        offered_alpn(restricted) == seq![alpn_http11()],
        same_but_alpn(*config, restricted),
{
    let mut restricted = clone_config(config);
    let mut protocols: Vec<Vec<u8>> = Vec::new();
    protocols.push(http11_protocol());
    assert(byte_strings(protocols@) =~= seq![alpn_http11()]);
    set_alpn(&mut restricted, protocols);
    restricted
}

/// A policy that allows no protocol version at all is refused, whatever the
/// provider.
pub proof fn empty_version_list_is_refused(policy: TlsPolicy)
    requires
        policy.versions == Some(Seq::<TlsVersion>::empty()),
    ensures
        !policy.supported(),
{
}

/// A configuration that is built does what was chosen and nothing else: it offers the
/// application protocols in their order, trusts the chosen roots, negotiates the chosen
/// versions or else both, does its cryptography with the chosen provider, and has
/// exactly the client identity that was given. Without a client identity one is built
/// exactly where the provider can serve one of those versions.
pub proof fn configurations_do_what_was_chosen(
    builder: ClientTlsConfigBuilder,
    built: Result<rustls::ClientConfig, TlsError>,
    version: TlsVersion,
)
    requires
        call_ensures(ClientTlsConfigBuilder::build, (builder,), built),
    ensures
        built matches Ok(config) ==> {
            &&& offered_alpn(config) == builder@.alpn
            &&& trusted_anchors(config) == builder@.roots
            &&& configured_provider(config) == builder@.provider
            &&& client_identity(config) == builder@.identity
            &&& enabled_versions(config).contains(version) <==> (builder@.versions matches Some(
                versions,
            ) ==> versions.contains(version))
        },
        builder@.identity is None && usable_versions(builder@.provider).contains(version) && (
        builder@.versions matches Some(versions) ==> versions.contains(version)) ==> built is Ok,
        built is Ok ==> exists|usable: TlsVersion| #[trigger]
            usable_versions(builder@.provider).contains(usable) && (
            builder@.versions matches Some(versions) ==> versions.contains(usable)),
{
    let wanted = builder@.wanted_versions();
    assert(both_versions().contains(TlsVersion::Tls12) && both_versions().contains(
        TlsVersion::Tls13,
    ));
    assert(both_versions().contains(version));
    if built is Ok {
        let usable = choose|usable: TlsVersion|
            wanted.contains(usable) && #[trigger] usable_versions(builder@.provider).contains(
                usable,
            );
        assert(usable_versions(builder@.provider).contains(usable));
    }
}

/// The standard policy offers `h2` and then `http/1.1`, trusts the WebPKI roots,
/// restricts no version and authenticates nobody; each choice replaces one part of it.
pub proof fn tls_choices_replace_one_part(
    fresh: ClientTlsConfigBuilder,
    before: ClientTlsConfigBuilder,
    roots: rustls::RootCertStore,
    protocols: Vec<Vec<u8>>,
    versions: Vec<TlsVersion>,
    after: (
        ClientTlsConfigBuilder,
        ClientTlsConfigBuilder,
        ClientTlsConfigBuilder,
        ClientTlsConfigBuilder,
    ),
)
    requires
        call_ensures(ClientTlsConfigBuilder::new, (), fresh),
        call_ensures(ClientTlsConfigBuilder::root_certificates, (before, roots), after.0),
        call_ensures(ClientTlsConfigBuilder::alpn_protocols, (before, protocols), after.1),
        call_ensures(ClientTlsConfigBuilder::protocol_versions, (before, versions), after.2),
        call_ensures(ClientTlsConfigBuilder::no_client_auth, (before,), after.3),
    ensures
        is_graviola(fresh@.provider),
        are_webpki_roots(fresh@.roots),
        fresh@.alpn == seq![
            seq![104u8, 50u8],
            seq![104u8, 116u8, 116u8, 112u8, 47u8, 49u8, 46u8, 49u8],
        ],
        fresh@.versions is None,
        fresh@.identity is None,
        after.0@ == (TlsPolicy { roots: anchors(roots), ..before@ }),
        after.1@.alpn.len() == protocols@.len(),
        forall|i: int|
            0 <= i < protocols@.len() ==> #[trigger] after.1@.alpn[i] == protocols@[i]@,
        after.1@ == (TlsPolicy { alpn: after.1@.alpn, ..before@ }),
        after.2@ == (TlsPolicy { versions: Some(versions@), ..before@ }),
        after.3@ == (TlsPolicy { identity: None, ..before@ }),
{
}

/// A trust anchor is added at the end, a client identity replaces the one before, and
/// a certificate that is no anchor is refused with its own error. Offering protocols
/// changes nothing else, and a build that failed stays failed.
pub proof fn anchors_identities_and_protocols_are_added(
    builder: ClientTlsConfigBuilder,
    certificate: rustls::pki_types::CertificateDer<'static>,
    trusting: Result<ClientTlsConfigBuilder, TlsError>,
    chain: Vec<rustls::pki_types::CertificateDer<'static>>,
    key: rustls::pki_types::PrivateKeyDer<'static>,
    identified: ClientTlsConfigBuilder,
    built: Result<rustls::ClientConfig, TlsError>,
    protocols: Vec<Vec<u8>>,
    offering: Result<rustls::ClientConfig, TlsError>,
)
    requires
        call_ensures(
            ClientTlsConfigBuilder::add_root_certificate,
            (builder, certificate),
            trusting,
        ),
        call_ensures(ClientTlsConfigBuilder::client_auth, (builder, chain, key), identified),
        call_ensures(offer_protocols, (built, protocols), offering),
    ensures
        trust_anchor(certificate_bytes(certificate)) matches Ok(anchor) ==> {
            &&& trusting matches Ok(trusting)
            &&& trusting@.roots.len() == builder@.roots.len() + 1
            &&& trusting@.roots.last() == anchor
            &&& trusting@.roots.drop_last() == builder@.roots
            &&& trusting@ == (TlsPolicy { roots: trusting@.roots, ..builder@ })
        },
        trust_anchor(certificate_bytes(certificate)) matches Err(error) ==> trusting == Err::<
            ClientTlsConfigBuilder,
            TlsError,
        >(error),
        identified@ == (TlsPolicy { identity: identified@.identity, ..builder@ }),
        identified@.identity matches Some(identity) && identity.key == private_key_bytes(key)
            && identity.encoding == private_key_encoding(key) && identity.chain.len() == chain@.len()
            && forall|i: int|
            0 <= i < chain@.len() ==> #[trigger] identity.chain[i] == certificate_bytes(chain@[i]),
        built matches Err(error) ==> offering == Err::<rustls::ClientConfig, TlsError>(error),
        built matches Ok(before) ==> {
            &&& offering matches Ok(after)
            &&& besides_alpn(after) == besides_alpn(before)
            &&& configured_provider(after) == configured_provider(before)
            &&& trusted_anchors(after) == trusted_anchors(before)
            &&& enabled_versions(after) == enabled_versions(before)
            &&& client_identity(after) == client_identity(before)
            &&& offered_alpn(after).len() == protocols@.len()
            &&& forall|i: int|
                0 <= i < protocols@.len() ==> #[trigger] offered_alpn(after)[i] == protocols@[i]@
        },
{
    if let Ok(trusting) = trusting {
        assert(trusting@.roots.drop_last() =~= builder@.roots);
    }
}

} // verus!
