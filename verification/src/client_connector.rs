//! Connector and acceptor handles.
//!
//! A handle selects plaintext or TLS once, at construction time, and is then
//! shared read-only across any number of connection attempts. The server
//! name a TLS connector verifies is validated as a well-formed DNS name
//! here, at construction, so a malformed configuration fails before any
//! connection is tried.
use vstd::prelude::*;

use crate::engine::{
    clone_server_name, clone_tls_acceptor, clone_tls_connector, dns_name_ok, parse_dns_name,
};
use crate::error::TlsError;

verus! {

/// Opens client-side connections, either plaintext or TLS against a
/// validated server name.
pub struct ClientConnector {
    tls_connector: Option<(rustls::pki_types::ServerName<'static>, tokio_rustls::TlsConnector)>,
}

impl ClientConnector {
    /// Whether this handle performs a TLS handshake on connect.
    pub closed spec fn is_tls_spec(&self) -> bool {
        self.tls_connector is Some
    }

    /// A TLS connector against `name`; fails exactly when `name` is not a
    /// well-formed DNS name, so misconfiguration surfaces before any
    /// connection attempt.
    pub fn tls(name: &str, connector: tokio_rustls::TlsConnector) -> (r: Result<
        ClientConnector,
        TlsError,
    >)
        ensures
            r is Ok <==> dns_name_ok(name@),
            r matches Ok(c) ==> c.is_tls_spec(),
            r matches Err(e) ==> e == TlsError::InvalidDnsName,
    {
        match parse_dns_name(name) {
            Some(server_name) => Ok(
                ClientConnector { tls_connector: Some((server_name, connector)) },
            ),
            None => Err(TlsError::InvalidDnsName),
        }
    }

    /// A plaintext connector: connect returns the raw stream unchanged.
    pub fn plain() -> (r: ClientConnector)
        ensures
            !r.is_tls_spec(),
    {
        ClientConnector { tls_connector: None }
    }

    pub fn is_tls(&self) -> (b: bool)
        ensures
            b == self.is_tls_spec(),
    {
        self.tls_connector.is_some()
    }

    /// The validated server name and TLS engine handle, present exactly when
    /// this connector is TLS-configured.
    pub fn tls_parts(&self) -> (r: Option<
        &(rustls::pki_types::ServerName<'static>, tokio_rustls::TlsConnector),
    >)
        ensures
            r is Some <==> self.is_tls_spec(),
    {
        self.tls_connector.as_ref()
    }
}

impl Clone for ClientConnector {
    /// A cloned handle is in the same mode and shares the same engine
    /// configuration.
    fn clone(&self) -> (r: Self)
        ensures
            r.is_tls_spec() == self.is_tls_spec(),
    {
        match &self.tls_connector {
            Some(pair) => ClientConnector {
                tls_connector: Some((clone_server_name(&pair.0), clone_tls_connector(&pair.1))),
            },
            None => ClientConnector { tls_connector: None },
        }
    }
}

/// Accepts server-side connections, either plaintext or TLS.
pub struct ClientAcceptor {
    tls_acceptor: Option<tokio_rustls::TlsAcceptor>,
}

impl ClientAcceptor {
    /// Whether this handle performs a TLS handshake on accept.
    pub closed spec fn is_tls_spec(&self) -> bool {
        self.tls_acceptor is Some
    }

    /// A TLS acceptor backed by the given engine handle.
    pub fn tls(acceptor: tokio_rustls::TlsAcceptor) -> (r: ClientAcceptor)
        ensures
            r.is_tls_spec(),
    {
        ClientAcceptor { tls_acceptor: Some(acceptor) }
    }

    /// A plaintext acceptor: accept returns the raw stream unchanged.
    pub fn plain() -> (r: ClientAcceptor)
        ensures
            !r.is_tls_spec(),
    {
        ClientAcceptor { tls_acceptor: None }
    }

    pub fn is_tls(&self) -> (b: bool)
        ensures
            b == self.is_tls_spec(),
    {
        self.tls_acceptor.is_some()
    }

    /// The TLS engine handle, present exactly when this acceptor is
    /// TLS-configured.
    pub fn tls_parts(&self) -> (r: Option<&tokio_rustls::TlsAcceptor>)
        ensures
            r is Some <==> self.is_tls_spec(),
    {
        self.tls_acceptor.as_ref()
    }
}

impl Clone for ClientAcceptor {
    /// A cloned handle is in the same mode and shares the same engine
    /// configuration.
    fn clone(&self) -> (r: Self)
        ensures
            r.is_tls_spec() == self.is_tls_spec(),
    {
        match &self.tls_acceptor {
            Some(acceptor) => ClientAcceptor { tls_acceptor: Some(clone_tls_acceptor(acceptor)) },
            None => ClientAcceptor { tls_acceptor: None },
        }
    }
}

} // verus!
