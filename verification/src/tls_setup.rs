//! The TLS configuration builders.
//!
//! Raw PEM bytes are turned into one of three immutable trust-mode
//! configurations: `MutualTls` (present a certificate and verify the peer),
//! `OpenServerTls` (present a certificate, verify no client) and
//! `ClientVerifyServerTls` (verify the server, present nothing). Building is
//! fail-closed: an empty trust store or missing key is an error, never a
//! silently degraded configuration.
use vstd::prelude::*;

use crate::engine::{
    acceptor_from_config, client_config_no_auth, client_config_with_auth, client_cert_key_ok,
    clone_root_store, is_valid_root, mutual_server_config, open_server_config, root_store_add,
    root_store_is_empty, root_store_model, root_store_new, server_cert_key_ok,
};
use crate::error::TlsError;
use crate::pem::{
    certs_outcome, clone_bytes, key_outcome, parse_certificates, parse_key, KeyDer, PrivateKey,
};

verus! {

/// Namespace for the configuration builders.
pub struct TlsSetup;

/// An endpoint identity: a DER certificate chain (leaf first) paired with
/// its private key.
pub(crate) struct Certificate {
    cert_chain: Vec<Vec<u8>>,
    private_key: PrivateKey,
}

/// The model of an endpoint identity.
pub struct BundleView {
    pub chain: Seq<Seq<u8>>,
    pub key: KeyDer,
}

impl View for Certificate {
    type V = BundleView;

    closed spec fn view(&self) -> BundleView {
        BundleView { chain: self.cert_chain.deep_view(), key: self.private_key@ }
    }
}

impl Clone for Certificate {
    /// Cloning duplicates the chain and the key material.
    fn clone(&self) -> (r: Self)
        ensures
            r@ == self@,
    {
        Certificate {
            cert_chain: clone_der_list(&self.cert_chain),
            private_key: self.private_key.clone(),
        }
    }
}

/// Copies a list of DER buffers.
fn clone_der_list(v: &Vec<Vec<u8>>) -> (r: Vec<Vec<u8>>)
    ensures
        r.deep_view() == v.deep_view(),
{
    let mut r: Vec<Vec<u8>> = Vec::new();
    let mut i: usize = 0;
    while i < v.len()
        invariant
            i <= v.len(),
            r.deep_view() == v.deep_view().take(i as int),
        decreases v.len() - i,
    {
        let ghost prefix = r.deep_view();
        r.push(clone_bytes(&v[i]));
        proof {
            assert(r.deep_view() =~~= prefix.push(v@[i as int].deep_view()));
            assert(v.deep_view().take(i + 1 as int) =~= v.deep_view().take(i as int).push(
                v.deep_view()[i as int],
            ));
        }
        i = i + 1;
    }
    proof {
        assert(v.deep_view().take(v@.len() as int) =~= v.deep_view());
    }
    r
}

/// The roots among `certs` that the trust library accepts, in order.
pub open spec fn valid_roots(certs: Seq<Seq<u8>>) -> Seq<Seq<u8>>
    decreases certs.len(),
{
    if certs.len() == 0 {
        Seq::empty()
    } else if is_valid_root(certs.last()) {
        valid_roots(certs.drop_last()).push(certs.last())
    } else {
        valid_roots(certs.drop_last())
    }
}

/// A mutual-trust configuration: this endpoint's identity plus the roots
/// used to verify the peer, usable on either side of a connection.
pub struct MutualTls {
    trust: rustls::RootCertStore,
    cert: Certificate,
}

/// The model of a mutual-trust configuration.
pub struct MutualView {
    pub trust: Seq<Seq<u8>>,
    pub chain: Seq<Seq<u8>>,
    pub key: KeyDer,
}

impl View for MutualTls {
    type V = MutualView;

    closed spec fn view(&self) -> MutualView {
        MutualView {
            trust: root_store_model(self.trust),
            chain: self.cert.cert_chain.deep_view(),
            key: self.cert.private_key@,
        }
    }
}

impl MutualTls {
    /// A built configuration always holds at least one trust root and at
    /// least one certificate.
    #[verifier::type_invariant]
    pub open spec fn well_formed(self) -> bool {
        self@.trust.len() > 0 && self@.chain.len() > 0
    }
}

impl Clone for MutualTls {
    fn clone(&self) -> (r: Self)
        ensures
            r@ == self@,
    {
        proof {
            use_type_invariant(self);
        }
        MutualTls { trust: clone_root_store(&self.trust), cert: self.cert.clone() }
    }
}

/// A server-side configuration that presents an identity but performs no
/// client verification.
pub struct OpenServerTls {
    cert: Certificate,
}

impl View for OpenServerTls {
    type V = BundleView;

    closed spec fn view(&self) -> BundleView {
        self.cert@
    }
}

impl OpenServerTls {
    /// A built configuration always holds at least one certificate.
    #[verifier::type_invariant]
    pub open spec fn well_formed(self) -> bool {
        self@.chain.len() > 0
    }
}

impl Clone for OpenServerTls {
    fn clone(&self) -> (r: Self)
        ensures
            r@ == self@,
    {
        proof {
            use_type_invariant(self);
        }
        OpenServerTls { cert: self.cert.clone() }
    }
}

/// A client-side configuration that verifies the server against a trust
/// store and presents no client identity.
pub struct ClientVerifyServerTls {
    trust: rustls::RootCertStore,
}

impl View for ClientVerifyServerTls {
    type V = Seq<Seq<u8>>;

    closed spec fn view(&self) -> Seq<Seq<u8>> {
        root_store_model(self.trust)
    }
}

impl ClientVerifyServerTls {
    /// A built configuration always holds at least one trust root.
    #[verifier::type_invariant]
    pub open spec fn well_formed(self) -> bool {
        self@.len() > 0
    }
}

impl Clone for ClientVerifyServerTls {
    fn clone(&self) -> (r: Self)
        ensures
            r@ == self@,
    {
        proof {
            use_type_invariant(self);
        }
        ClientVerifyServerTls { trust: clone_root_store(&self.trust) }
    }
}

/// The outcome the mutual builder owes for given inputs: each parse and
/// validation step in the order the builder performs them.
pub open spec fn mutual_outcome(
    trust_pem: Seq<u8>,
    key_data: Seq<u8>,
    cert_data: Seq<u8>,
) -> Result<MutualView, TlsError> {
    match certs_outcome(trust_pem) {
        Result::Err(e) => Err(e),
        Result::Ok(trust_certs) => {
            if valid_roots(trust_certs).len() == 0 {
                Err(TlsError::NoTrustAnchors)
            } else {
                match certs_outcome(
                    if cert_data.len() == 0 {
                        key_data
                    } else {
                        cert_data
                    },
                ) {
                    Result::Err(e) => Err(e),
                    Result::Ok(chain) => match key_outcome(key_data) {
                        Result::Err(e) => Err(e),
                        Result::Ok(key) => Ok(
                            MutualView { trust: valid_roots(trust_certs), chain, key },
                        ),
                    },
                }
            }
        },
    }
}

/// The outcome the open-server builder owes for given inputs.
pub open spec fn server_outcome(key_data: Seq<u8>, cert_data: Seq<u8>) -> Result<
    BundleView,
    TlsError,
> {
    match certs_outcome(cert_data) {
        Result::Err(e) => Err(e),
        Result::Ok(chain) => match key_outcome(key_data) {
            Result::Err(e) => Err(e),
            Result::Ok(key) => Ok(BundleView { chain, key }),
        },
    }
}

/// The outcome the client builder owes for given inputs.
pub open spec fn client_outcome(trust_pem: Seq<u8>) -> Result<Seq<Seq<u8>>, TlsError> {
    match certs_outcome(trust_pem) {
        Result::Err(e) => Err(e),
        Result::Ok(trust_certs) => {
            if valid_roots(trust_certs).len() == 0 {
                Err(TlsError::NoTrustAnchors)
            } else {
                Ok(valid_roots(trust_certs))
            }
        },
    }
}

/// Fills a root store with every accepted certificate, in order.
fn build_trust_store(certs: &Vec<Vec<u8>>) -> (r: rustls::RootCertStore)
    ensures
        root_store_model(r) == valid_roots(certs.deep_view()),
{
    let ghost ders = certs.deep_view();
    let mut store = root_store_new();
    let mut i: usize = 0;
    while i < certs.len()
        invariant
            i <= certs.len(),
            ders == certs.deep_view(),
            root_store_model(store) == valid_roots(ders.take(i as int)),
        decreases certs.len() - i,
    {
        let der = clone_bytes(&certs[i]);
        proof {
            assert(der@ =~= ders[i as int]);
            assert(ders.take(i + 1 as int).drop_last() =~= ders.take(i as int));
            assert(ders.take(i + 1 as int).last() == ders[i as int]);
        }
        let _ = root_store_add(&mut store, der);
        i = i + 1;
    }
    proof {
        assert(ders.take(certs@.len() as int) =~= ders);
    }
    store
}

impl TlsSetup {
    /// Builds a mutual-trust configuration: `trust_ca_pem` becomes the trust
    /// store (an empty result is an error), the certificate chain comes from
    /// `cert_data`, or from `key_data` when `cert_data` is empty (the
    /// combined-file convention), and the private key from `key_data`.
    pub fn build_mutual(trust_ca_pem: &[u8], key_data: &[u8], cert_data: &[u8]) -> (r: Result<
        MutualTls,
        TlsError,
    >)
        ensures
            r matches Ok(m) ==> mutual_outcome(trust_ca_pem@, key_data@, cert_data@) == Ok::<
                MutualView,
                TlsError,
            >(m@),
            r matches Err(e) ==> mutual_outcome(trust_ca_pem@, key_data@, cert_data@) == Err::<
                MutualView,
                TlsError,
            >(e),
    {
        let trust_certs = match parse_certificates(trust_ca_pem) {
            Ok(v) => v,
            Err(e) => return Err(e),
        };
        let store = build_trust_store(&trust_certs);
        if root_store_is_empty(&store) {
            return Err(TlsError::NoTrustAnchors);
        }
        let chain_source: &[u8] = if cert_data.len() == 0 {
            key_data
        } else {
            cert_data
        };
        let cert_chain = match parse_certificates(chain_source) {
            Ok(v) => v,
            Err(e) => return Err(e),
        };
        let private_key = match parse_key(key_data) {
            Ok(k) => k,
            Err(e) => return Err(e),
        };
        Ok(MutualTls { trust: store, cert: Certificate { cert_chain, private_key } })
    }

    /// Builds an open-server configuration: an identity from `cert_data` and
    /// `key_data`, with no client verification.
    pub fn build_server(key_data: &[u8], cert_data: &[u8]) -> (r: Result<OpenServerTls, TlsError>)
        ensures
            r matches Ok(s) ==> server_outcome(key_data@, cert_data@) == Ok::<
                BundleView,
                TlsError,
            >(s@),
            r matches Err(e) ==> server_outcome(key_data@, cert_data@) == Err::<
                BundleView,
                TlsError,
            >(e),
    {
        let cert_chain = match parse_certificates(cert_data) {
            Ok(v) => v,
            Err(e) => return Err(e),
        };
        let private_key = match parse_key(key_data) {
            Ok(k) => k,
            Err(e) => return Err(e),
        };
        Ok(OpenServerTls { cert: Certificate { cert_chain, private_key } })
    }

    /// Builds a server-verifying client configuration from trust anchors; an
    /// empty resulting trust store is an error.
    pub fn build_client(trust_ca_pem: &[u8]) -> (r: Result<ClientVerifyServerTls, TlsError>)
        ensures
            r matches Ok(c) ==> client_outcome(trust_ca_pem@) == Ok::<Seq<Seq<u8>>, TlsError>(c@),
            r matches Err(e) ==> client_outcome(trust_ca_pem@) == Err::<Seq<Seq<u8>>, TlsError>(e),
    {
        let trust_certs = match parse_certificates(trust_ca_pem) {
            Ok(v) => v,
            Err(e) => return Err(e),
        };
        let store = build_trust_store(&trust_certs);
        if root_store_is_empty(&store) {
            return Err(TlsError::NoTrustAnchors);
        }
        Ok(ClientVerifyServerTls { trust: store })
    }
}

} // verus!

verus! {

impl MutualTls {
    /// Converts into a client configuration that presents this identity and
    /// verifies the server against the trust store; fails exactly when the
    /// TLS engine rejects the chain/key pair.
    pub fn into_client_config(self) -> (r: Result<rustls::ClientConfig, TlsError>)
        ensures
            r is Ok <==> client_cert_key_ok(self@.chain, self@.key),
            r matches Err(e) ==> e == TlsError::CertKeyRejected,
    {
        let MutualTls { trust, cert } = self;
        let Certificate { cert_chain, private_key } = cert;
        match client_config_with_auth(trust, cert_chain, private_key) {
            Some(config) => Ok(config),
            None => Err(TlsError::CertKeyRejected),
        }
    }

    /// Converts into a reusable client-side connector.
    pub fn into_connector(self) -> (r: Result<tokio_rustls::TlsConnector, TlsError>)
        ensures
            r is Ok <==> client_cert_key_ok(self@.chain, self@.key),
            r matches Err(e) ==> e == TlsError::CertKeyRejected,
    {
        match self.into_client_config() {
            Ok(config) => Ok(crate::engine::connector_from_config(config)),
            Err(e) => Err(e),
        }
    }

    /// Converts into a server configuration that presents this identity and
    /// requires and verifies a client certificate against the trust store;
    /// fails exactly when the TLS engine rejects the chain/key pair (the
    /// trust store is never empty here, so verifier construction succeeds).
    pub fn into_server_config(self) -> (r: Result<rustls::ServerConfig, TlsError>)
        ensures
            r is Ok <==> server_cert_key_ok(self@.chain, self@.key),
            r matches Err(e) ==> e == TlsError::CertKeyRejected,
    {
        proof {
            use_type_invariant(&self);
        }
        let MutualTls { trust, cert } = self;
        let Certificate { cert_chain, private_key } = cert;
        mutual_server_config(trust, cert_chain, private_key)
    }

    /// Converts into a reusable server-side acceptor.
    pub fn into_acceptor(self) -> (r: Result<tokio_rustls::TlsAcceptor, TlsError>)
        ensures
            r is Ok <==> server_cert_key_ok(self@.chain, self@.key),
            r matches Err(e) ==> e == TlsError::CertKeyRejected,
    {
        match self.into_server_config() {
            Ok(config) => Ok(acceptor_from_config(config)),
            Err(e) => Err(e),
        }
    }
}

impl OpenServerTls {
    /// Converts into a server configuration that presents this identity and
    /// performs no client verification; fails exactly when the TLS engine
    /// rejects the chain/key pair.
    pub fn into_server_config(self) -> (r: Result<rustls::ServerConfig, TlsError>)
        ensures
            r is Ok <==> server_cert_key_ok(self@.chain, self@.key),
            r matches Err(e) ==> e == TlsError::CertKeyRejected,
    {
        let OpenServerTls { cert } = self;
        let Certificate { cert_chain, private_key } = cert;
        match open_server_config(cert_chain, private_key) {
            Some(config) => Ok(config),
            None => Err(TlsError::CertKeyRejected),
        }
    }

    /// Converts into a reusable server-side acceptor.
    pub fn into_acceptor(self) -> (r: Result<tokio_rustls::TlsAcceptor, TlsError>)
        ensures
            r is Ok <==> server_cert_key_ok(self@.chain, self@.key),
            r matches Err(e) ==> e == TlsError::CertKeyRejected,
    {
        match self.into_server_config() {
            Ok(config) => Ok(acceptor_from_config(config)),
            Err(e) => Err(e),
        }
    }
}

impl ClientVerifyServerTls {
    /// Converts into a client configuration that verifies the server and
    /// presents no identity; this conversion cannot fail.
    pub fn into_client_config(self) -> (r: Result<rustls::ClientConfig, TlsError>)
        ensures
            r is Ok,
    {
        let ClientVerifyServerTls { trust } = self;
        Ok(client_config_no_auth(trust))
    }

    /// Converts into a reusable client-side connector; cannot fail.
    pub fn into_connector(self) -> (r: Result<tokio_rustls::TlsConnector, TlsError>)
        ensures
            r is Ok,
    {
        match self.into_client_config() {
            Ok(config) => Ok(crate::engine::connector_from_config(config)),
            Err(e) => Err(e),
        }
    }
}

/// A client-side trust mode: mutual trust or server verification only.
pub enum ClientTls {
    Mutual(MutualTls),
    VerifyServer(ClientVerifyServerTls),
}

/// A server-side trust mode: mutual trust or an open server.
pub enum ServerTls {
    Mutual(MutualTls),
    OpenServer(OpenServerTls),
}

impl ClientTls {
    /// Whether conversion into a client configuration will succeed: always,
    /// except when a mutual identity is rejected by the TLS engine.
    pub open spec fn conversion_ok(self) -> bool {
        match self {
            ClientTls::Mutual(m) => client_cert_key_ok(m@.chain, m@.key),
            ClientTls::VerifyServer(_) => true,
        }
    }

    /// The name of the active trust mode.
    pub open spec fn spec_kind_name(self) -> Seq<char> {
        match self {
            ClientTls::Mutual(_) => "ClientTls::Mutual"@,
            ClientTls::VerifyServer(_) => "ClientTls::VerifyServer"@,
        }
    }

    pub fn kind_name(&self) -> (name: &'static str)
        ensures
            name@ == self.spec_kind_name(),
    {
        match self {
            ClientTls::Mutual(_) => "ClientTls::Mutual",
            ClientTls::VerifyServer(_) => "ClientTls::VerifyServer",
        }
    }

    /// Dispatches to the active mode's client-configuration conversion.
    pub fn into_client_config(self) -> (r: Result<rustls::ClientConfig, TlsError>)
        ensures
            r is Ok <==> self.conversion_ok(),
            r matches Err(e) ==> e == TlsError::CertKeyRejected,
    {
        match self {
            ClientTls::Mutual(m) => m.into_client_config(),
            ClientTls::VerifyServer(c) => c.into_client_config(),
        }
    }

    /// Dispatches to the active mode's connector conversion.
    pub fn into_connector(self) -> (r: Result<tokio_rustls::TlsConnector, TlsError>)
        ensures
            r is Ok <==> self.conversion_ok(),
            r matches Err(e) ==> e == TlsError::CertKeyRejected,
    {
        match self {
            ClientTls::Mutual(m) => m.into_connector(),
            ClientTls::VerifyServer(c) => c.into_connector(),
        }
    }
}

impl ServerTls {
    /// Whether conversion into a server configuration will succeed: exactly
    /// when the TLS engine accepts the identity's chain/key pair.
    pub open spec fn conversion_ok(self) -> bool {
        match self {
            ServerTls::Mutual(m) => server_cert_key_ok(m@.chain, m@.key),
            ServerTls::OpenServer(s) => server_cert_key_ok(s@.chain, s@.key),
        }
    }

    /// The name of the active trust mode.
    pub open spec fn spec_kind_name(self) -> Seq<char> {
        match self {
            ServerTls::Mutual(_) => "ServerTls::Mutual"@,
            ServerTls::OpenServer(_) => "ServerTls::OpenServer"@,
        }
    }

    pub fn kind_name(&self) -> (name: &'static str)
        ensures
            name@ == self.spec_kind_name(),
    {
        match self {
            ServerTls::Mutual(_) => "ServerTls::Mutual",
            ServerTls::OpenServer(_) => "ServerTls::OpenServer",
        }
    }

    /// Dispatches to the active mode's server-configuration conversion.
    pub fn into_server_config(self) -> (r: Result<rustls::ServerConfig, TlsError>)
        ensures
            r is Ok <==> self.conversion_ok(),
            r matches Err(e) ==> e == TlsError::CertKeyRejected,
    {
        match self {
            ServerTls::Mutual(m) => m.into_server_config(),
            ServerTls::OpenServer(s) => s.into_server_config(),
        }
    }

    /// Dispatches to the active mode's acceptor conversion.
    pub fn into_acceptor(self) -> (r: Result<tokio_rustls::TlsAcceptor, TlsError>)
        ensures
            r is Ok <==> self.conversion_ok(),
            r matches Err(e) ==> e == TlsError::CertKeyRejected,
    {
        match self {
            ServerTls::Mutual(m) => m.into_acceptor(),
            ServerTls::OpenServer(s) => s.into_acceptor(),
        }
    }
}

impl Clone for ClientTls {
    /// A cloned value is in the same trust mode and converts exactly like
    /// the original.
    fn clone(&self) -> (r: Self)
        ensures
            r.conversion_ok() == self.conversion_ok(),
            r.spec_kind_name() == self.spec_kind_name(),
    {
        match self {
            ClientTls::Mutual(m) => ClientTls::Mutual(m.clone()),
            ClientTls::VerifyServer(c) => ClientTls::VerifyServer(c.clone()),
        }
    }
}

impl Clone for ServerTls {
    /// A cloned value is in the same trust mode and converts exactly like
    /// the original.
    fn clone(&self) -> (r: Self)
        ensures
            r.conversion_ok() == self.conversion_ok(),
            r.spec_kind_name() == self.spec_kind_name(),
    {
        match self {
            ServerTls::Mutual(m) => ServerTls::Mutual(m.clone()),
            ServerTls::OpenServer(s) => ServerTls::OpenServer(s.clone()),
        }
    }
}

impl From<MutualTls> for ClientTls {
    fn from(value: MutualTls) -> (r: Self) {
        ClientTls::Mutual(value)
    }
}

impl vstd::std_specs::convert::FromSpecImpl<MutualTls> for ClientTls {
    open spec fn obeys_from_spec() -> bool {
        true
    }

    open spec fn from_spec(t: MutualTls) -> Self {
        ClientTls::Mutual(t)
    }
}

impl From<MutualTls> for ServerTls {
    fn from(value: MutualTls) -> (r: Self) {
        ServerTls::Mutual(value)
    }
}

impl vstd::std_specs::convert::FromSpecImpl<MutualTls> for ServerTls {
    open spec fn obeys_from_spec() -> bool {
        true
    }

    open spec fn from_spec(t: MutualTls) -> Self {
        ServerTls::Mutual(t)
    }
}

impl From<OpenServerTls> for ServerTls {
    fn from(value: OpenServerTls) -> (r: Self) {
        ServerTls::OpenServer(value)
    }
}

impl vstd::std_specs::convert::FromSpecImpl<OpenServerTls> for ServerTls {
    open spec fn obeys_from_spec() -> bool {
        true
    }

    open spec fn from_spec(t: OpenServerTls) -> Self {
        ServerTls::OpenServer(t)
    }
}

impl From<ClientVerifyServerTls> for ClientTls {
    fn from(value: ClientVerifyServerTls) -> (r: Self) {
        ClientTls::VerifyServer(value)
    }
}

impl vstd::std_specs::convert::FromSpecImpl<ClientVerifyServerTls> for ClientTls {
    open spec fn obeys_from_spec() -> bool {
        true
    }

    open spec fn from_spec(t: ClientVerifyServerTls) -> Self {
        ClientTls::VerifyServer(t)
    }
}

} // verus!

verus! {

/// No builder that consumes trust anchors ever returns a configuration
/// backed by an empty trust store: a successful build carries at least one
/// accepted root, and trust material whose certificates are all rejected (or
/// absent, or unparseable) fails with a data-validation error.
pub proof fn lemma_empty_trust_rejected(trust_pem: Seq<u8>, key_data: Seq<u8>, cert_data: Seq<u8>)
    ensures
        mutual_outcome(trust_pem, key_data, cert_data) matches Ok(m) ==> m.trust.len() > 0,
        client_outcome(trust_pem) matches Ok(roots) ==> roots.len() > 0,
        certs_outcome(trust_pem) matches Ok(tc) && valid_roots(tc).len() == 0 ==> mutual_outcome(
            trust_pem,
            key_data,
            cert_data,
        ) == Err::<MutualView, TlsError>(TlsError::NoTrustAnchors) && client_outcome(trust_pem)
            == Err::<Seq<Seq<u8>>, TlsError>(TlsError::NoTrustAnchors),
        certs_outcome(trust_pem) matches Err(e) ==> mutual_outcome(trust_pem, key_data, cert_data)
            == Err::<MutualView, TlsError>(e) && client_outcome(trust_pem) == Err::<
            Seq<Seq<u8>>,
            TlsError,
        >(e) && e.spec_category() == crate::error::ErrorCategory::InvalidData,
{
}

/// Trust material whose scanned blocks include no certificate block at all
/// is rejected by every builder that consumes it.
pub proof fn lemma_trust_without_certificates_rejected(
    trust_pem: Seq<u8>,
    key_data: Seq<u8>,
    cert_data: Seq<u8>,
)
    ensures
        (forall|i: int|
            0 <= i < crate::engine::pem_scan(trust_pem).0.len() ==> !crate::pem::is_cert_entry(
                #[trigger] crate::engine::pem_scan(trust_pem).0[i],
            )) ==> mutual_outcome(trust_pem, key_data, cert_data) is Err && client_outcome(
            trust_pem,
        ) is Err,
{
    crate::pem::lemma_missing_certificates_reported(crate::engine::pem_scan(trust_pem).0);
}

/// Valid mutual-trust material is accepted: when the trust bytes yield at
/// least one accepted root, the certificate source (the certificate bytes,
/// or the key bytes when those are empty) parses to a chain, and the key
/// bytes yield a supported key, the mutual builder succeeds, and the built
/// configuration carries exactly those roots, that chain and that key.
pub proof fn lemma_valid_mutual_material_accepted(
    trust_pem: Seq<u8>,
    key_data: Seq<u8>,
    cert_data: Seq<u8>,
)
    ensures
        ({
            let source = if cert_data.len() == 0 {
                key_data
            } else {
                cert_data
            };
            (certs_outcome(trust_pem) matches Ok(tc) && valid_roots(tc).len() > 0 && certs_outcome(
                source,
            ) is Ok && key_outcome(key_data) is Ok) ==> (mutual_outcome(
                trust_pem,
                key_data,
                cert_data,
            ) matches Ok(m) && m.trust == valid_roots(certs_outcome(trust_pem)->Ok_0)
                && m.chain == certs_outcome(source)->Ok_0 && m.key == key_outcome(key_data)->Ok_0)
        }),
{
}

} // verus!

verus! {

/// Where key and certificate material live for a given key path: one
/// combined file holding both, or a `.key`/`.crt` pair of files sharing the
/// base name.
pub enum KeySource {
    Combined(String),
    Split { key_path: String, cert_path: String },
}

/// Whether `s` ends with `suffix`.
pub open spec fn ends_with(s: Seq<char>, suffix: Seq<char>) -> bool {
    s.len() >= suffix.len() && s.subrange(s.len() - suffix.len(), s.len() as int) == suffix
}

/// The path with a trailing `.crt` or `.key` suffix removed.
pub open spec fn base_path(p: Seq<char>) -> Seq<char> {
    if ends_with(p, ".crt"@) || ends_with(p, ".key"@) {
        p.take(p.len() - 4)
    } else {
        p
    }
}

fn has_suffix(s: &str, suffix: &str) -> (b: bool)
    ensures
        b == ends_with(s@, suffix@),
{
    let n = s.unicode_len();
    let m = suffix.unicode_len();
    if n < m {
        return false;
    }
    let mut i: usize = 0;
    while i < m
        invariant
            n == s@.len(),
            m == suffix@.len(),
            m <= n,
            i <= m,
            forall|j: int| 0 <= j < i ==> s@[n - m + j] == suffix@[j],
        decreases m - i,
    {
        let a = s.get_char(n - m + i);
        let b = suffix.get_char(i);
        if a != b {
            proof {
                assert(s@.subrange(n - m, n as int)[i as int] == s@[n - m + i as int]);
            }
            return false;
        }
        i = i + 1;
    }
    proof {
        assert(s@.subrange(n - m, n as int) =~= suffix@);
    }
    true
}

impl TlsSetup {
    /// Resolves the key-path convention of the file loader: a `.pem` path
    /// holds certificate and key together; any other path names a
    /// `.key`/`.crt` pair with the same base name (a trailing `.key` or
    /// `.crt` is first stripped).
    pub fn key_material_paths(key_path: &str) -> (r: KeySource)
        ensures
            ends_with(key_path@, ".pem"@) ==> (r matches KeySource::Combined(p) && p@
                == key_path@),
            !ends_with(key_path@, ".pem"@) ==> (r matches KeySource::Split { key_path: k, cert_path: c }
                && k@ == base_path(key_path@) + ".key"@ && c@ == base_path(key_path@) + ".crt"@),
    {
        if has_suffix(key_path, ".pem") {
            return KeySource::Combined(key_path.to_owned());
        }
        let crt_suffix = has_suffix(key_path, ".crt");
        let key_suffix = has_suffix(key_path, ".key");
        let base: &str = if crt_suffix || key_suffix {
            proof {
                reveal_strlit(".crt");
                reveal_strlit(".key");
            }
            let n = key_path.unicode_len();
            key_path.substring_char(0, n - 4)
        } else {
            key_path
        };
        let key_file = base.to_owned().concat(".key");
        let cert_file = base.to_owned().concat(".crt");
        KeySource::Split { key_path: key_file, cert_path: cert_file }
    }
}

} // verus!
