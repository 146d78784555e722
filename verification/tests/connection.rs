//! End-to-end connection scenarios over in-memory duplex pipes: mutual TLS
//! both ways, server shutdown semantics, and plaintext pass-through. All
//! certificate and key material is generated at runtime.
use maybe_tls::client_connector::{ClientAcceptor, ClientConnector};
use maybe_tls::error::TlsError;
use maybe_tls::tls_setup::TlsSetup;
use tokio::io::{AsyncReadExt, AsyncWriteExt};

const SERVER_NAME: &str = "s1.testing-server.playit.cloud";

/// A freshly generated pair of CAs, each with one signed end-entity
/// identity: a server certificate for SERVER_NAME and a client certificate.
struct TestPki {
    server_ca: String,
    server_cert: String,
    server_key: String,
    client_ca: String,
    client_cert: String,
    client_key: String,
}

fn test_pki() -> TestPki {
    let server_ca_key = rcgen::KeyPair::generate().unwrap();
    let mut server_ca_params = rcgen::CertificateParams::new(Vec::new()).unwrap();
    server_ca_params.is_ca = rcgen::IsCa::Ca(rcgen::BasicConstraints::Unconstrained);
    let server_ca = server_ca_params.self_signed(&server_ca_key).unwrap();

    let server_key = rcgen::KeyPair::generate().unwrap();
    let server_params = rcgen::CertificateParams::new(vec![SERVER_NAME.to_string()]).unwrap();
    let server_cert = server_params
        .signed_by(&server_key, &server_ca, &server_ca_key)
        .unwrap();

    let client_ca_key = rcgen::KeyPair::generate().unwrap();
    let mut client_ca_params = rcgen::CertificateParams::new(Vec::new()).unwrap();
    client_ca_params.is_ca = rcgen::IsCa::Ca(rcgen::BasicConstraints::Unconstrained);
    let client_ca = client_ca_params.self_signed(&client_ca_key).unwrap();

    let client_key = rcgen::KeyPair::generate().unwrap();
    let client_params = rcgen::CertificateParams::new(vec!["test-client".to_string()]).unwrap();
    let client_cert = client_params
        .signed_by(&client_key, &client_ca, &client_ca_key)
        .unwrap();

    TestPki {
        server_ca: server_ca.pem(),
        server_cert: server_cert.pem(),
        server_key: server_key.serialize_pem(),
        client_ca: client_ca.pem(),
        client_cert: client_cert.pem(),
        client_key: client_key.serialize_pem(),
    }
}

fn runtime() -> tokio::runtime::Runtime {
    tokio::runtime::Builder::new_current_thread()
        .enable_all()
        .build()
        .unwrap()
}

#[test]
fn simple_tls_connection_test() {
    maybe_tls::install_crypto();
    let pki = test_pki();
    let server = TlsSetup::build_mutual(
        pki.client_ca.as_bytes(),
        pki.server_key.as_bytes(),
        pki.server_cert.as_bytes(),
    )
    .ok()
    .unwrap();

    let client = TlsSetup::build_mutual(
        pki.server_ca.as_bytes(),
        pki.client_key.as_bytes(),
        pki.client_cert.as_bytes(),
    )
    .ok()
    .unwrap();

    let acceptor = server.into_acceptor().unwrap();
    let connector = client.into_connector().unwrap();

    runtime().block_on(async move {
        let (server_io, client_io) = tokio::io::duplex(1024);

        let server_accept_task = tokio::spawn(async move { acceptor.accept(server_io).await });
        let client_connector = ClientConnector::tls(SERVER_NAME, connector).unwrap();

        let (name, tls) = client_connector.tls_parts().unwrap();
        let mut client_io = tls.connect(name.clone(), client_io).await.unwrap();
        let mut server_io = server_accept_task.await.unwrap().unwrap();

        let client_send = "hello world".as_bytes();
        client_io.write_all(client_send).await.unwrap();

        let mut recv_buffer = Vec::with_capacity(1024);
        recv_buffer.resize(client_send.len(), 0u8);

        server_io.read_exact(&mut recv_buffer).await.unwrap();
        assert_eq!(&recv_buffer, client_send);

        let server_send = "i feel welcome, i am world".as_bytes();
        server_io.write_all(server_send).await.unwrap();
        recv_buffer.resize(server_send.len(), 0u8);
        client_io.read_exact(&mut recv_buffer).await.unwrap();
        assert_eq!(&recv_buffer, server_send);

        server_io.write_all("I'm done".as_bytes()).await.unwrap();
        server_io.shutdown().await.unwrap();

        recv_buffer.clear();
        client_io.read_to_end(&mut recv_buffer).await.unwrap();
        assert_eq!("I'm done".as_bytes(), &recv_buffer);
    });
}

#[test]
fn server_shutdown_delivers_exact_tail() {
    maybe_tls::install_crypto();
    let pki = test_pki();
    let server = TlsSetup::build_server(pki.server_key.as_bytes(), pki.server_cert.as_bytes())
        .ok()
        .unwrap();
    let client = TlsSetup::build_client(pki.server_ca.as_bytes()).ok().unwrap();

    let acceptor = server.into_acceptor().unwrap();
    let connector = client.into_connector().unwrap();

    runtime().block_on(async move {
        let (server_io, client_io) = tokio::io::duplex(1024);
        let server_task = tokio::spawn(async move {
            let mut server_io = acceptor.accept(server_io).await.unwrap();
            server_io.write_all("I'm done".as_bytes()).await.unwrap();
            server_io.shutdown().await.unwrap();
        });

        let client_connector = ClientConnector::tls(SERVER_NAME, connector).unwrap();
        let (name, tls) = client_connector.tls_parts().unwrap();
        let mut client_io = tls.connect(name.clone(), client_io).await.unwrap();

        let mut received = Vec::new();
        client_io.read_to_end(&mut received).await.unwrap();
        assert_eq!("I'm done".as_bytes(), &received);
        server_task.await.unwrap();
    });
}

#[test]
fn plaintext_connector_passes_bytes_through_unchanged() {
    let connector = ClientConnector::plain();
    assert!(!connector.is_tls());
    assert!(connector.tls_parts().is_none());

    let acceptor = ClientAcceptor::plain();
    assert!(!acceptor.is_tls());
    assert!(acceptor.tls_parts().is_none());

    runtime().block_on(async move {
        // With no TLS configured the stream is used as handed over: what one
        // side writes is exactly what the other reads.
        let (mut server_io, mut client_io) = tokio::io::duplex(1024);
        client_io.write_all(b"hello world").await.unwrap();
        client_io.shutdown().await.unwrap();
        let mut received = Vec::new();
        server_io.read_to_end(&mut received).await.unwrap();
        assert_eq!(b"hello world".as_slice(), &received);
    });
}

#[test]
fn connector_rejects_malformed_dns_name() {
    maybe_tls::install_crypto();
    let pki = test_pki();
    let client = TlsSetup::build_client(pki.server_ca.as_bytes()).ok().unwrap();
    let connector = client.into_connector().unwrap();
    let err = match ClientConnector::tls("not a dns name!", connector) {
        Err(e) => e,
        Ok(_) => panic!("expected an invalid DNS name error"),
    };
    assert_eq!(err, TlsError::InvalidDnsName);
    assert_eq!(err.message(), "invalid dnsname");
}

#[test]
fn tls_acceptor_handle_reports_mode() {
    maybe_tls::install_crypto();
    let pki = test_pki();
    let server = TlsSetup::build_server(pki.server_key.as_bytes(), pki.server_cert.as_bytes())
        .ok()
        .unwrap();
    let acceptor = ClientAcceptor::tls(server.into_acceptor().unwrap());
    assert!(acceptor.is_tls());
    assert!(acceptor.clone().is_tls());
    assert!(acceptor.tls_parts().is_some());
}

#[test]
fn trust_mode_names_are_stable() {
    let pki = test_pki();
    let client = TlsSetup::build_client(pki.server_ca.as_bytes()).ok().unwrap();
    let client_mode = maybe_tls::tls_setup::ClientTls::from(client);
    assert_eq!(client_mode.kind_name(), "ClientTls::VerifyServer");
    let server = TlsSetup::build_server(pki.server_key.as_bytes(), pki.server_cert.as_bytes())
        .ok()
        .unwrap();
    let server_mode = maybe_tls::tls_setup::ServerTls::from(server);
    assert_eq!(server_mode.kind_name(), "ServerTls::OpenServer");
}
