//! Structured configuration errors, split into the two fatal categories the
//! builders report: malformed arguments and semantically insufficient data.
use vstd::prelude::*;

verus! {

/// The two categories of configuration-time failure: `InvalidInput` for
/// malformed arguments, `InvalidData` for content that parses but is
/// semantically insufficient (an empty trust store, a missing key).
#[derive(Clone, Copy, Debug, PartialEq, Eq, Structural)]
pub enum ErrorCategory {
    InvalidInput,
    InvalidData,
}

/// A configuration-time failure. None of these is ever retried: each is
/// fatal to the configuration attempt that produced it.
#[derive(Clone, Copy, Debug, PartialEq, Eq, Structural)]
pub enum TlsError {
    /// PEM framing or base64 content could not be parsed at all.
    MalformedPem,
    /// The PEM content parsed but held no certificate block.
    NoCertificates,
    /// Certificate blocks were found, but none was accepted as a trust root.
    NoTrustAnchors,
    /// The PEM content held no block of a supported private-key encoding.
    NoPrivateKey,
    /// The client-certificate verifier could not be built from the trust store.
    ClientVerifierRejected,
    /// The TLS engine rejected the certificate chain / private key pair.
    CertKeyRejected,
    /// The server name is not a well-formed DNS name.
    InvalidDnsName,
}

impl TlsError {
    /// Which failure category this error belongs to.
    pub open spec fn spec_category(self) -> ErrorCategory {
        match self {
            TlsError::MalformedPem => ErrorCategory::InvalidData,
            TlsError::NoCertificates => ErrorCategory::InvalidData,
            TlsError::NoTrustAnchors => ErrorCategory::InvalidData,
            TlsError::NoPrivateKey => ErrorCategory::InvalidData,
            TlsError::ClientVerifierRejected => ErrorCategory::InvalidData,
            TlsError::CertKeyRejected => ErrorCategory::InvalidInput,
            TlsError::InvalidDnsName => ErrorCategory::InvalidInput,
        }
    }

    pub fn category(&self) -> (c: ErrorCategory)
        ensures
            c == self.spec_category(),
    {
        match self {
            TlsError::MalformedPem => ErrorCategory::InvalidData,
            TlsError::NoCertificates => ErrorCategory::InvalidData,
            TlsError::NoTrustAnchors => ErrorCategory::InvalidData,
            TlsError::NoPrivateKey => ErrorCategory::InvalidData,
            TlsError::ClientVerifierRejected => ErrorCategory::InvalidData,
            TlsError::CertKeyRejected => ErrorCategory::InvalidInput,
            TlsError::InvalidDnsName => ErrorCategory::InvalidInput,
        }
    }

    /// A human-readable description of which requirement failed.
    pub open spec fn spec_message(self) -> Seq<char> {
        match self {
            TlsError::MalformedPem => "could not parse PEM content"@,
            TlsError::NoCertificates => "no certifiates in file"@,
            TlsError::NoTrustAnchors => "no CA certificate found"@,
            TlsError::NoPrivateKey => "could not find valid private key"@,
            TlsError::ClientVerifierRejected => "invalid client certs"@,
            TlsError::CertKeyRejected => "invalid certificate or key"@,
            TlsError::InvalidDnsName => "invalid dnsname"@,
        }
    }

    pub fn message(&self) -> (m: &'static str)
        ensures
            m@ == self.spec_message(),
    {
        match self {
            TlsError::MalformedPem => "could not parse PEM content",
            TlsError::NoCertificates => "no certifiates in file",
            TlsError::NoTrustAnchors => "no CA certificate found",
            TlsError::NoPrivateKey => "could not find valid private key",
            TlsError::ClientVerifierRejected => "invalid client certs",
            TlsError::CertKeyRejected => "invalid certificate or key",
            TlsError::InvalidDnsName => "invalid dnsname",
        }
    }
}

} // verus!
