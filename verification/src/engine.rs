//! Trusted boundary to the TLS engine (rustls, tokio-rustls) and the PEM
//! decoder (rustls-pemfile).
//!
//! Every item here is believed, not proved: each contract states only what
//! the named outside function's source or documentation shows. All verified
//! reasoning in the crate rests on these contracts alone.
use vstd::prelude::*;

use crate::error::TlsError;
use crate::pem::{KeyDer, PemBlock, PemEntry, PrivateKey};
use rustls::pki_types::{CertificateDer, PrivateKeyDer};
use rustls_pemfile::Item;

verus! {

#[verifier::external_type_specification]
#[verifier::external_body]
pub struct ExRootCertStore(rustls::RootCertStore);

#[verifier::external_type_specification]
#[verifier::external_body]
pub struct ExClientConfig(rustls::ClientConfig);

#[verifier::external_type_specification]
#[verifier::external_body]
pub struct ExServerConfig(rustls::ServerConfig);

#[verifier::external_type_specification]
#[verifier::external_body]
pub struct ExTlsConnector(tokio_rustls::TlsConnector);

#[verifier::external_type_specification]
#[verifier::external_body]
pub struct ExTlsAcceptor(tokio_rustls::TlsAcceptor);

#[verifier::external_type_specification]
#[verifier::external_body]
pub struct ExServerName<'a>(rustls::pki_types::ServerName<'a>);

/// The PEM blocks the decoder recognises in `bytes`, in file order, paired
/// with whether the whole buffer was consumed without a framing or base64
/// error. Blocks after the first error are not part of the model.
pub uninterp spec fn pem_scan(bytes: Seq<u8>) -> (Seq<PemEntry>, bool);

/// Whether webpki accepts this DER certificate as a trust anchor.
pub uninterp spec fn is_valid_root(der: Seq<u8>) -> bool;

/// The DER contents of the trust anchors a root store holds, in insertion
/// order.
pub uninterp spec fn root_store_model(s: rustls::RootCertStore) -> Seq<Seq<u8>>;

/// Whether the TLS engine's compiled-in provider accepts this chain/key pair
/// for client authentication.
pub uninterp spec fn client_cert_key_ok(chain: Seq<Seq<u8>>, key: KeyDer) -> bool;

/// Whether the TLS engine's compiled-in provider accepts this chain/key pair
/// as a server identity.
pub uninterp spec fn server_cert_key_ok(chain: Seq<Seq<u8>>, key: KeyDer) -> bool;

/// Whether the string is a well-formed DNS name.
pub uninterp spec fn dns_name_ok(name: Seq<char>) -> bool;

/// Relies on rustls_pemfile::read_one_from_slice: yields each recognised PEM
/// section with its decoded DER contents, in file order, until the buffer is
/// exhausted (`true`) or its framing/base64 content fails to parse (`false`).
#[verifier::external_body]
pub(crate) fn scan_pem(bytes: &[u8]) -> (r: (Vec<PemBlock>, bool))
    ensures
        r.0.deep_view() == pem_scan(bytes@).0,
        r.1 == pem_scan(bytes@).1,
{
    let mut rest: &[u8] = bytes;
    let mut out: Vec<PemBlock> = Vec::new();
    while let Ok(Some((item, rem))) = rustls_pemfile::read_one_from_slice(rest) {
        rest = rem;
        out.push(match item {
            Item::X509Certificate(d) => PemBlock::Certificate(d.as_ref().to_vec()),
            Item::Pkcs1Key(d) => PemBlock::Pkcs1Key(d.secret_pkcs1_der().to_vec()),
            Item::Pkcs8Key(d) => PemBlock::Pkcs8Key(d.secret_pkcs8_der().to_vec()),
            Item::Sec1Key(d) => PemBlock::Sec1Key(d.secret_sec1_der().to_vec()),
            _ => PemBlock::Other,
        });
    }
    (out, rustls_pemfile::read_one_from_slice(rest).is_ok())
}

/// Relies on rustls::RootCertStore::empty: a store holding no roots.
#[verifier::external_body]
pub(crate) fn root_store_new() -> (s: rustls::RootCertStore)
    ensures
        root_store_model(s) == Seq::<Seq<u8>>::empty(),
{
    rustls::RootCertStore::empty()
}

/// Relies on rustls::RootCertStore::add: the DER certificate is parsed by
/// webpki and appended as a trust anchor exactly when that parse succeeds;
/// on failure the store is unchanged.
#[verifier::external_body]
pub(crate) fn root_store_add(s: &mut rustls::RootCertStore, der: Vec<u8>) -> (ok: bool)
    ensures
        ok == is_valid_root(der@),
        root_store_model(*final(s)) == if is_valid_root(der@) {
            root_store_model(*old(s)).push(der@)
        } else {
            root_store_model(*old(s))
        },
{
    s.add(rustls::pki_types::CertificateDer::from(der)).is_ok()
}

/// Relies on rustls::RootCertStore::is_empty.
#[verifier::external_body]
pub(crate) fn root_store_is_empty(s: &rustls::RootCertStore) -> (r: bool)
    ensures
        r == (root_store_model(*s).len() == 0),
{
    s.is_empty()
}

/// Relies on rustls::RootCertStore's derived Clone: the anchors are
/// duplicated unchanged.
#[verifier::external_body]
pub(crate) fn clone_root_store(s: &rustls::RootCertStore) -> (r: rustls::RootCertStore)
    ensures
        root_store_model(r) == root_store_model(*s),
{
    s.clone()
}

/// Relies on rustls::ClientConfig::builder().with_root_certificates(..)
/// .with_client_auth_cert(..), which fails exactly when the provider rejects
/// the private key or it does not match the leaf certificate. The builder
/// panics only when the process provider cannot be resolved or supports no
/// default protocol version, which cannot happen with the compiled-in
/// provider.
#[verifier::external_body]
pub(crate) fn client_config_with_auth(
    trust: rustls::RootCertStore,
    chain: Vec<Vec<u8>>,
    key: PrivateKey,
) -> (r: Option<rustls::ClientConfig>)
    ensures
        r is Some <==> client_cert_key_ok(chain.deep_view(), key@),
{
    let certs: Vec<CertificateDer<'static>> = chain.into_iter().map(CertificateDer::from).collect();
    let key_der = match key {
        PrivateKey::Pkcs1(d) => PrivateKeyDer::Pkcs1(d.into()),
        PrivateKey::Pkcs8(d) => PrivateKeyDer::Pkcs8(d.into()),
        PrivateKey::Sec1(d) => PrivateKeyDer::Sec1(d.into()),
    };
    rustls::ClientConfig::builder().with_root_certificates(trust).with_client_auth_cert(certs, key_der).ok()
}

/// Relies on rustls::ClientConfig::builder().with_root_certificates(..)
/// .with_no_client_auth(), which cannot fail with the compiled-in provider.
#[verifier::external_body]
pub(crate) fn client_config_no_auth(trust: rustls::RootCertStore) -> (r: rustls::ClientConfig) {
    rustls::ClientConfig::builder().with_root_certificates(trust).with_no_client_auth()
}

/// Relies on rustls::server::WebPkiClientVerifier::builder(..).build(),
/// which, with no revocation lists supplied, fails exactly when the root
/// store is empty; and on rustls::ServerConfig::builder()
/// .with_client_cert_verifier(..).with_single_cert(..), which fails exactly
/// when the provider rejects the private key or it does not match the leaf
/// certificate. The builders panic only when the process provider cannot be
/// resolved, which cannot happen with the compiled-in provider.
#[verifier::external_body]
pub(crate) fn mutual_server_config(
    trust: rustls::RootCertStore,
    chain: Vec<Vec<u8>>,
    key: PrivateKey,
) -> (r: Result<rustls::ServerConfig, TlsError>)
    ensures
        r is Ok <==> (root_store_model(trust).len() > 0 && server_cert_key_ok(chain.deep_view(), key@)),
        r matches Err(e) ==> (e == TlsError::ClientVerifierRejected <==> root_store_model(trust).len() == 0),
        r matches Err(e) ==> (e == TlsError::CertKeyRejected <==> (root_store_model(trust).len() > 0 && !server_cert_key_ok(chain.deep_view(), key@))),
{
    let verifier = match rustls::server::WebPkiClientVerifier::builder(std::sync::Arc::new(trust)).build() {
        Ok(v) => v,
        Err(_) => return Err(TlsError::ClientVerifierRejected),
    };
    let certs: Vec<CertificateDer<'static>> = chain.into_iter().map(CertificateDer::from).collect();
    let key_der = match key {
        PrivateKey::Pkcs1(d) => PrivateKeyDer::Pkcs1(d.into()),
        PrivateKey::Pkcs8(d) => PrivateKeyDer::Pkcs8(d.into()),
        PrivateKey::Sec1(d) => PrivateKeyDer::Sec1(d.into()),
    };
    rustls::ServerConfig::builder().with_client_cert_verifier(verifier).with_single_cert(certs, key_der).map_err(|_| TlsError::CertKeyRejected)
}

/// Relies on rustls::ServerConfig::builder().with_no_client_auth()
/// .with_single_cert(..), which fails exactly when the provider rejects the
/// private key or it does not match the leaf certificate. The builder panics
/// only when the process provider cannot be resolved, which cannot happen
/// with the compiled-in provider.
#[verifier::external_body]
pub(crate) fn open_server_config(chain: Vec<Vec<u8>>, key: PrivateKey) -> (r: Option<
    rustls::ServerConfig,
>)
    ensures
        r is Some <==> server_cert_key_ok(chain.deep_view(), key@),
{
    let certs: Vec<CertificateDer<'static>> = chain.into_iter().map(CertificateDer::from).collect();
    let key_der = match key {
        PrivateKey::Pkcs1(d) => PrivateKeyDer::Pkcs1(d.into()),
        PrivateKey::Pkcs8(d) => PrivateKeyDer::Pkcs8(d.into()),
        PrivateKey::Sec1(d) => PrivateKeyDer::Sec1(d.into()),
    };
    rustls::ServerConfig::builder().with_no_client_auth().with_single_cert(certs, key_der).ok()
}

/// Relies on tokio_rustls::TlsConnector::from(Arc<ClientConfig>).
#[verifier::external_body]
pub(crate) fn connector_from_config(config: rustls::ClientConfig) -> (r: tokio_rustls::TlsConnector) {
    tokio_rustls::TlsConnector::from(std::sync::Arc::new(config))
}

/// Relies on tokio_rustls::TlsAcceptor::from(Arc<ServerConfig>).
#[verifier::external_body]
pub(crate) fn acceptor_from_config(config: rustls::ServerConfig) -> (r: tokio_rustls::TlsAcceptor) {
    tokio_rustls::TlsAcceptor::from(std::sync::Arc::new(config))
}

/// Relies on rustls::pki_types::DnsName::try_from(&str), a pure syntax check
/// of DNS-name form, succeeding exactly on well-formed names; the owned
/// result is wrapped as a ServerName.
#[verifier::external_body]
pub(crate) fn parse_dns_name(name: &str) -> (r: Option<rustls::pki_types::ServerName<'static>>)
    ensures
        r is Some <==> dns_name_ok(name@),
{
    match rustls::pki_types::DnsName::try_from(name) {
        Ok(dns) => Some(rustls::pki_types::ServerName::DnsName(dns.to_owned())),
        Err(_) => None,
    }
}

/// Relies on rustls::pki_types::ServerName's derived Clone: the name value
/// is duplicated unchanged.
#[verifier::external_body]
pub(crate) fn clone_server_name(name: &rustls::pki_types::ServerName<'static>) -> (r:
    rustls::pki_types::ServerName<'static>)
    ensures
        r == *name,
{
    name.clone()
}

/// Relies on tokio_rustls::TlsConnector's derived Clone, which duplicates
/// the shared handle to the same client configuration.
#[verifier::external_body]
pub(crate) fn clone_tls_connector(c: &tokio_rustls::TlsConnector) -> (r: tokio_rustls::TlsConnector) {
    c.clone()
}

/// Relies on tokio_rustls::TlsAcceptor's derived Clone, which duplicates
/// the shared handle to the same server configuration.
#[verifier::external_body]
pub(crate) fn clone_tls_acceptor(a: &tokio_rustls::TlsAcceptor) -> (r: tokio_rustls::TlsAcceptor) {
    a.clone()
}

/// Relies on rustls::crypto::CryptoProvider::{get_default, install_default}
/// with the aws-lc-rs provider: the first caller installs it, later callers
/// find it present and do nothing; a concurrent race is settled by the
/// engine's one-time cell, so exactly one installation ever takes effect.
#[verifier::external_body]
pub(crate) fn install_default_provider() {
    if rustls::crypto::CryptoProvider::get_default().is_none() {
        let _ = rustls::crypto::aws_lc_rs::default_provider().install_default();
    }
}

} // verus!
