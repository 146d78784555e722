//! Transport-unification layer for services that speak either plaintext or
//! TLS through one interface: PEM certificate/key ingestion, validated
//! trust-mode configuration building, and connector/acceptor construction.
use vstd::prelude::*;

pub mod client_connector;
pub mod engine;
pub mod error;
pub mod pem;
pub mod tls_setup;

verus! {

/// Installs the process-wide cryptographic provider once; later calls are
/// no-ops. Safe to call from any number of callers.
pub fn install_crypto() {
    crate::engine::install_default_provider();
}

} // verus!
