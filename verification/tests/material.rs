//! Tests for PEM material parsing, the configuration builders, the error
//! taxonomy, the key-path convention and provider installation. All
//! certificate and key material is generated at runtime.
use maybe_tls::error::{ErrorCategory, TlsError};
use maybe_tls::pem::{parse_certificates, parse_key, PrivateKey};
use maybe_tls::tls_setup::{KeySource, TlsSetup};

/// A freshly generated pair of CAs with one signed end-entity identity each.
struct TestPki {
    server_ca: String,
    server_cert: String,
    server_key: String,
    client_ca: String,
    client_key: String,
}

fn test_pki() -> TestPki {
    let server_ca_key = rcgen::KeyPair::generate().unwrap();
    let mut server_ca_params = rcgen::CertificateParams::new(Vec::new()).unwrap();
    server_ca_params.is_ca = rcgen::IsCa::Ca(rcgen::BasicConstraints::Unconstrained);
    let server_ca = server_ca_params.self_signed(&server_ca_key).unwrap();

    let server_key = rcgen::KeyPair::generate().unwrap();
    let server_params =
        rcgen::CertificateParams::new(vec!["s1.testing-server.playit.cloud".to_string()]).unwrap();
    let server_cert = server_params
        .signed_by(&server_key, &server_ca, &server_ca_key)
        .unwrap();

    let client_ca_key = rcgen::KeyPair::generate().unwrap();
    let mut client_ca_params = rcgen::CertificateParams::new(Vec::new()).unwrap();
    client_ca_params.is_ca = rcgen::IsCa::Ca(rcgen::BasicConstraints::Unconstrained);
    let client_ca = client_ca_params.self_signed(&client_ca_key).unwrap();

    let client_key = rcgen::KeyPair::generate().unwrap();

    TestPki {
        server_ca: server_ca.pem(),
        server_cert: server_cert.pem(),
        server_key: server_key.serialize_pem(),
        client_ca: client_ca.pem(),
        client_key: client_key.serialize_pem(),
    }
}

/// Wraps a base64 body in PEM framing under the given label.
fn pem_block(label: &str, body: &str) -> String {
    format!("-----BEGIN {label}-----\n{body}\n-----END {label}-----\n")
}

fn expect_err<T>(r: Result<T, TlsError>) -> TlsError {
    match r {
        Err(e) => e,
        Ok(_) => panic!("expected an error"),
    }
}

#[test]
fn parses_certificates_in_order() {
    let pki = test_pki();
    let two = format!("{}{}", pki.server_ca, pki.client_ca);
    let certs = parse_certificates(two.as_bytes()).unwrap();
    assert_eq!(certs.len(), 2);
    let first = parse_certificates(pki.server_ca.as_bytes()).unwrap();
    let second = parse_certificates(pki.client_ca.as_bytes()).unwrap();
    assert_eq!(certs[0], first[0]);
    assert_eq!(certs[1], second[0]);
}

#[test]
fn certificate_parsing_skips_other_blocks() {
    let pki = test_pki();
    let mixed = format!("{}{}", pki.server_key, pki.server_cert);
    let certs = parse_certificates(mixed.as_bytes()).unwrap();
    assert_eq!(certs.len(), 1);
    let direct = parse_certificates(pki.server_cert.as_bytes()).unwrap();
    assert_eq!(certs, direct);
}

#[test]
fn no_certificates_is_a_validation_error() {
    let pki = test_pki();
    let err = expect_err(parse_certificates(pki.server_key.as_bytes()));
    assert_eq!(err, TlsError::NoCertificates);
    assert_eq!(err.category(), ErrorCategory::InvalidData);
}

#[test]
fn malformed_pem_is_a_parse_error() {
    let broken = pem_block("CERTIFICATE", "not base64 at all!!");
    let err = expect_err(parse_certificates(broken.as_bytes()));
    assert_eq!(err, TlsError::MalformedPem);
}

#[test]
fn key_parsing_supports_all_three_encodings() {
    // The scan does not decode DER, so any base64 body stands for a key of
    // that encoding; "AAEC" decodes to the bytes 0, 1, 2.
    let pkcs1 = pem_block("RSA PRIVATE KEY", "AAEC");
    match parse_key(pkcs1.as_bytes()) {
        Ok(PrivateKey::Pkcs1(der)) => assert_eq!(der, vec![0u8, 1, 2]),
        _ => panic!("expected a PKCS#1 key"),
    }
    let sec1 = pem_block("EC PRIVATE KEY", "AAEC");
    match parse_key(sec1.as_bytes()) {
        Ok(PrivateKey::Sec1(der)) => assert_eq!(der, vec![0u8, 1, 2]),
        _ => panic!("expected a SEC1 key"),
    }
    let pki = test_pki();
    assert!(matches!(
        parse_key(pki.server_key.as_bytes()),
        Ok(PrivateKey::Pkcs8(_))
    ));
}

#[test]
fn key_parsing_takes_first_key_after_other_blocks() {
    let pki = test_pki();
    let sec1 = pem_block("EC PRIVATE KEY", "AAEC");
    let mixed = format!("{}{}{}", pki.server_cert, sec1, pki.server_key);
    match parse_key(mixed.as_bytes()) {
        Ok(PrivateKey::Sec1(der)) => assert_eq!(der, vec![0u8, 1, 2]),
        _ => panic!("expected the SEC1 key to be selected first"),
    }
}

#[test]
fn key_parsing_without_key_block_fails() {
    let pki = test_pki();
    let certs_only = format!("{}{}", pki.server_ca, pki.server_cert);
    let err = expect_err(parse_key(certs_only.as_bytes()));
    assert_eq!(err, TlsError::NoPrivateKey);
    assert_eq!(err.category(), ErrorCategory::InvalidData);
    assert_eq!(err.message(), "could not find valid private key");
}

#[test]
fn build_mutual_accepts_valid_material() {
    let pki = test_pki();
    let built = TlsSetup::build_mutual(
        pki.client_ca.as_bytes(),
        pki.server_key.as_bytes(),
        pki.server_cert.as_bytes(),
    );
    assert!(built.is_ok());
}

#[test]
fn build_mutual_uses_key_bytes_when_cert_bytes_empty() {
    let pki = test_pki();
    let combined = format!("{}{}", pki.server_key, pki.server_cert);
    let built = TlsSetup::build_mutual(pki.client_ca.as_bytes(), combined.as_bytes(), b"");
    assert!(built.is_ok());
    let acceptor = built.ok().unwrap().into_acceptor();
    assert!(acceptor.is_ok());
}

#[test]
fn build_mutual_rejects_trust_without_certificates() {
    let pki = test_pki();
    let err = expect_err(TlsSetup::build_mutual(
        pki.server_key.as_bytes(),
        pki.server_key.as_bytes(),
        pki.server_cert.as_bytes(),
    ));
    assert_eq!(err, TlsError::NoCertificates);
    assert_eq!(err.category(), ErrorCategory::InvalidData);
}

#[test]
fn build_mutual_rejects_missing_key() {
    let pki = test_pki();
    let err = expect_err(TlsSetup::build_mutual(
        pki.client_ca.as_bytes(),
        pki.server_cert.as_bytes(),
        pki.server_cert.as_bytes(),
    ));
    assert_eq!(err, TlsError::NoPrivateKey);
}

#[test]
fn build_server_builds_open_server() {
    let pki = test_pki();
    let built = TlsSetup::build_server(pki.server_key.as_bytes(), pki.server_cert.as_bytes());
    assert!(built.is_ok());
    assert!(built.ok().unwrap().into_server_config().is_ok());
}

#[test]
fn build_client_rejects_key_material_as_trust() {
    // A CA file holding a private key block instead of a certificate is a
    // data-validation failure, not a parse failure.
    let pki = test_pki();
    let err = expect_err(TlsSetup::build_client(pki.client_key.as_bytes()));
    assert_eq!(err, TlsError::NoCertificates);
    assert_ne!(err, TlsError::MalformedPem);
    assert_eq!(err.category(), ErrorCategory::InvalidData);
    assert_eq!(err.message(), "no certifiates in file");
}

#[test]
fn build_client_accepts_valid_trust() {
    let pki = test_pki();
    assert!(TlsSetup::build_client(pki.server_ca.as_bytes()).is_ok());
    let client = TlsSetup::build_client(pki.server_ca.as_bytes()).ok().unwrap();
    assert!(client.into_connector().is_ok());
}

#[test]
fn cloned_configurations_convert_like_the_original() {
    let pki = test_pki();
    let built = TlsSetup::build_mutual(
        pki.client_ca.as_bytes(),
        pki.server_key.as_bytes(),
        pki.server_cert.as_bytes(),
    )
    .ok()
    .unwrap();
    let copy = built.clone();
    assert!(built.into_acceptor().is_ok());
    assert!(copy.into_connector().is_ok());
}

#[test]
fn key_material_paths_follow_the_convention() {
    match TlsSetup::key_material_paths("identity.pem") {
        KeySource::Combined(p) => assert_eq!(p, "identity.pem"),
        _ => panic!("expected a combined source"),
    }
    match TlsSetup::key_material_paths("server.crt") {
        KeySource::Split { key_path, cert_path } => {
            assert_eq!(key_path, "server.key");
            assert_eq!(cert_path, "server.crt");
        }
        _ => panic!("expected a split source"),
    }
    match TlsSetup::key_material_paths("server.key") {
        KeySource::Split { key_path, cert_path } => {
            assert_eq!(key_path, "server.key");
            assert_eq!(cert_path, "server.crt");
        }
        _ => panic!("expected a split source"),
    }
    match TlsSetup::key_material_paths("server") {
        KeySource::Split { key_path, cert_path } => {
            assert_eq!(key_path, "server.key");
            assert_eq!(cert_path, "server.crt");
        }
        _ => panic!("expected a split source"),
    }
    match TlsSetup::key_material_paths("bundle.txt") {
        KeySource::Split { key_path, cert_path } => {
            assert_eq!(key_path, "bundle.txt.key");
            assert_eq!(cert_path, "bundle.txt.crt");
        }
        _ => panic!("expected a split source"),
    }
}

#[test]
fn install_crypto_is_idempotent() {
    maybe_tls::install_crypto();
    assert!(rustls::crypto::CryptoProvider::get_default().is_some());
    maybe_tls::install_crypto();
    assert!(rustls::crypto::CryptoProvider::get_default().is_some());
}

#[test]
fn empty_input_reports_missing_material() {
    assert_eq!(expect_err(parse_certificates(b"").map(|_| ())), TlsError::NoCertificates);
    assert_eq!(expect_err(parse_key(b"").map(|_| ())), TlsError::NoPrivateKey);
}

#[test]
fn trust_material_with_no_accepted_root_is_rejected() {
    // Well-formed PEM framing around DER that webpki rejects: the block is
    // parsed, but no trust anchor comes out of it.
    let pki = test_pki();
    let bogus = pem_block("CERTIFICATE", "AAAA");
    let err = expect_err(TlsSetup::build_client(bogus.as_bytes()));
    assert_eq!(err, TlsError::NoTrustAnchors);
    assert_eq!(err.category(), ErrorCategory::InvalidData);
    assert_eq!(err.message(), "no CA certificate found");
    let err = expect_err(TlsSetup::build_mutual(
        bogus.as_bytes(),
        pki.server_key.as_bytes(),
        pki.server_cert.as_bytes(),
    ));
    assert_eq!(err, TlsError::NoTrustAnchors);
}

#[test]
fn mismatched_key_and_certificate_are_rejected_at_conversion() {
    maybe_tls::install_crypto();
    // The client key does not match the server certificate; the engine
    // rejects the pair when the configuration is converted.
    let pki = test_pki();
    let server_side = TlsSetup::build_mutual(
        pki.client_ca.as_bytes(),
        pki.client_key.as_bytes(),
        pki.server_cert.as_bytes(),
    )
    .ok()
    .unwrap();
    let err = expect_err(server_side.into_acceptor().map(|_| ()));
    assert_eq!(err, TlsError::CertKeyRejected);
    assert_eq!(err.category(), ErrorCategory::InvalidInput);

    let client_side = TlsSetup::build_mutual(
        pki.server_ca.as_bytes(),
        pki.client_key.as_bytes(),
        pki.server_cert.as_bytes(),
    )
    .ok()
    .unwrap();
    let err = expect_err(client_side.into_connector().map(|_| ()));
    assert_eq!(err, TlsError::CertKeyRejected);
}

#[test]
fn private_key_clone_duplicates_material() {
    let pki = test_pki();
    let key = match parse_key(pki.client_key.as_bytes()) {
        Ok(k) => k,
        Err(_) => panic!("expected a key"),
    };
    let copy = key.clone();
    let (a, b) = match (key, copy) {
        (PrivateKey::Pkcs8(a), PrivateKey::Pkcs8(b)) => (a, b),
        _ => panic!("expected two PKCS#8 keys"),
    };
    assert_eq!(a, b);
}
