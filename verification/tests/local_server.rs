//! Lookups through a DoH server in this process.

use std::future::Future;
use std::io;
use std::pin::Pin;
use std::sync::Arc;
use std::time::Duration;

use doh_resolver::doh::{
    finish_doh_config, resolve_doh_config, DohConfigStep, DohServerConfig, DohSettings,
};
use doh_resolver::lookup::{
    lookup_via_doh_first, Answer, Attempt, Lookup, LookupEvent, Progress, Source,
};
use doh_resolver::resolver::try_resolver_config_with;
use hickory_proto::h2::HttpsClientConnect;
use hickory_proto::op::{Message, MessageType, OpCode, ResponseCode};
use hickory_proto::rr::rdata::A;
use hickory_proto::rr::{RData, Record, RecordType};
use hickory_proto::runtime::iocompat::AsyncIoTokioAsStd;
use hickory_proto::runtime::{TokioRuntimeProvider, TokioTime};
use hickory_proto::xfer::{DnsExchange, Protocol};
use hickory_proto::ProtoError;
use hickory_resolver::config::{NameServerConfig, ResolverConfig, ResolverOpts};
use hickory_resolver::name_server::{ConnectionProvider, TokioConnectionProvider};
use hickory_resolver::system_conf::read_system_conf;
use hickory_resolver::{Resolver, TokioResolver};
use tokio::io::DuplexStream;

/// A real TLS + HTTP/2 DoH server for `127.0.0.1`, answering every A query with
/// 192.0.2.1, and the CA PEM that its clients must trust.
fn local_doh_server() -> (tokio_rustls::TlsAcceptor, String) {
    let mut params = rcgen::CertificateParams::new(vec!["localhost".to_owned()]);
    params
        .subject_alt_names
        .push(rcgen::SanType::IpAddress("127.0.0.1".parse().unwrap()));
    let cert = rcgen::Certificate::from_params(params).unwrap();
    let cert_pem = cert.serialize_pem().unwrap();
    let cert_der = cert.serialize_der().unwrap();
    let key_der = cert.get_key_pair().serialize_der();

    let mut server_config = rustls::ServerConfig::builder_with_provider(Arc::new(
        rustls::crypto::ring::default_provider(),
    ))
    .with_safe_default_protocol_versions()
    .unwrap()
    .with_no_client_auth()
    .with_single_cert(
        vec![rustls::pki_types::CertificateDer::from(cert_der)],
        rustls::pki_types::PrivatePkcs8KeyDer::from(key_der).into(),
    )
    .unwrap();
    server_config.alpn_protocols = vec![b"h2".to_vec()];
    (tokio_rustls::TlsAcceptor::from(Arc::new(server_config)), cert_pem)
}

async fn serve_doh_over_h2(tls: tokio_rustls::server::TlsStream<DuplexStream>) {
    let mut conn = match h2::server::handshake(tls).await {
        Ok(conn) => conn,
        Err(_) => return,
    };
    while let Some(accepted) = conn.accept().await {
        let (request, mut respond) = match accepted {
            Ok(accepted) => accepted,
            Err(_) => return,
        };
        assert_eq!(request.uri().path(), "/dns-query");
        let (_, mut body) = request.into_parts();
        let mut query = Vec::new();
        while let Some(chunk) = body.data().await {
            match chunk {
                Ok(chunk) => {
                    let _ = body.flow_control().release_capacity(chunk.len());
                    query.extend_from_slice(&chunk);
                }
                Err(_) => break,
            }
        }
        let response_bytes = build_doh_response(&query);
        let http_response = http::Response::builder()
            .status(200)
            .header("content-type", "application/dns-message")
            .body(())
            .unwrap();
        if let Ok(mut send) = respond.send_response(http_response, false) {
            let _ = send.send_data(response_bytes.into(), true);
        }
    }
}

fn build_doh_response(query: &[u8]) -> Vec<u8> {
    let request = Message::from_vec(query).expect("valid dns query");
    let q = request.queries().first().expect("query present").clone();
    let mut response = Message::new();
    response.set_id(request.id());
    response.set_message_type(MessageType::Response);
    response.set_op_code(OpCode::Query);
    response.set_response_code(ResponseCode::NoError);
    // hickory only trusts empty/negative answers from authoritative servers
    response.set_authoritative(true);
    response.add_query(q.clone());
    if q.query_type() == RecordType::A {
        response.add_answer(Record::from_rdata(
            q.name().clone(),
            60,
            RData::A(A::new(192, 0, 2, 1)),
        ));
    }
    response.to_vec().expect("serialize dns response")
}

fn configs(doh: Option<&DohServerConfig>) -> (ResolverConfig, ResolverOpts) {
    try_resolver_config_with(doh, read_system_conf().ok()).expect("CA certificates")
}

/// Connects a resolver to the server in this process, whose address it has to
/// be after, over https only.
#[derive(Clone)]
struct LocalConnector {
    server: tokio_rustls::TlsAcceptor,
}

impl ConnectionProvider for LocalConnector {
    type Conn = DnsExchange;
    type FutureConn = Pin<Box<dyn Future<Output = Result<DnsExchange, ProtoError>> + Send>>;
    type RuntimeProvider = TokioRuntimeProvider;

    fn new_connection(
        &self,
        config: &NameServerConfig,
        options: &ResolverOpts,
    ) -> Result<Self::FutureConn, io::Error> {
        assert_eq!(config.protocol, Protocol::Https);
        assert_eq!(config.socket_addr, "127.0.0.1:8443".parse().unwrap());
        let (client, server_side) = tokio::io::duplex(65536);
        let server = self.server.clone();
        tokio::spawn(async move {
            if let Ok(tls) = server.accept(server_side).await {
                serve_doh_over_h2(tls).await;
            }
        });
        let stream = HttpsClientConnect::new(
            std::future::ready(Ok(AsyncIoTokioAsStd(client))),
            Arc::new(options.tls_config.clone()),
            config.socket_addr,
            config.tls_dns_name.clone().unwrap(),
            config.http_endpoint.clone().unwrap(),
        );
        let connect = DnsExchange::connect::<_, _, TokioTime>(stream);
        Ok(Box::pin(async move {
            let (exchange, background) = connect.await?;
            tokio::spawn(background);
            Ok(exchange)
        }))
    }
}

/// A resolver that reaches the server in this process.
fn build_resolver(
    server: &tokio_rustls::TlsAcceptor,
    doh: Option<&DohServerConfig>,
) -> Resolver<LocalConnector> {
    let (config, options) = configs(doh);
    Resolver::builder_with_config(config, LocalConnector { server: server.clone() })
        .with_options(options)
        .build()
}

fn runtime() -> tokio::runtime::Runtime {
    tokio::runtime::Builder::new_multi_thread()
        .worker_threads(2)
        .enable_all()
        .build()
        .unwrap()
}

#[test]
fn resolves_through_local_tls_h2_doh_server() {
    runtime().block_on(async {
        let (server, pem) = local_doh_server();

        let settings = DohSettings {
            url: "https://127.0.0.1:8443/dns-query".to_owned(),
            bootstrap_ip: None,
            tls_name: None,
            // only=true so the test cannot silently leak to plaintext servers
            only: true,
            ca_cert_path: Some("ca.pem".to_owned()),
        };
        let config = match resolve_doh_config(&settings) {
            Ok(DohConfigStep::ReadCa { path, name_server }) => {
                finish_doh_config(&settings, &path, name_server, Ok(pem)).unwrap()
            }
            other => panic!("no CA certificates wanted: {:?}", other),
        };
        let resolver = build_resolver(&server, Some(&config));
        let ips: Vec<_> = resolver
            .lookup_ip("doh-test.example.com")
            .await
            .expect("DoH lookup over local TLS+H2 server")
            .iter()
            .collect();
        assert!(ips.contains(&"192.0.2.1".parse().unwrap()), "ips: {ips:?}");
    });
}

#[test]
fn server_of_another_ca_is_not_trusted() {
    runtime().block_on(async {
        let (server, _) = local_doh_server();
        let (_, other_pem) = local_doh_server();

        let mut settings = DohSettings {
            url: "https://127.0.0.1:8443/dns-query".to_owned(),
            bootstrap_ip: None,
            tls_name: None,
            only: true,
            ca_cert_path: None,
        };
        let config = match resolve_doh_config(&settings) {
            Ok(DohConfigStep::Done(config)) => config,
            other => panic!("not complete: {:?}", other),
        };
        let error = build_resolver(&server, Some(&config))
            .lookup_ip("doh-test.example.com")
            .await
            .unwrap_err();
        assert!(error.to_string().contains("certificate"), "error: {error}");

        settings.ca_cert_path = Some("other.pem".to_owned());
        let config = match resolve_doh_config(&settings) {
            Ok(DohConfigStep::ReadCa { path, name_server }) => {
                finish_doh_config(&settings, &path, name_server, Ok(other_pem)).unwrap()
            }
            other => panic!("no CA certificates wanted: {:?}", other),
        };
        let error = build_resolver(&server, Some(&config))
            .lookup_ip("doh-test.example.com")
            .await
            .unwrap_err();
        assert!(error.to_string().contains("certificate"), "error: {error}");
    });
}

#[test]
fn server_of_another_name_is_not_trusted() {
    runtime().block_on(async {
        let (server, pem) = local_doh_server();

        let settings = DohSettings {
            url: "https://127.0.0.1:8443/dns-query".to_owned(),
            bootstrap_ip: None,
            tls_name: Some("dns.example.com".to_owned()),
            only: true,
            ca_cert_path: Some("ca.pem".to_owned()),
        };
        let config = match resolve_doh_config(&settings) {
            Ok(DohConfigStep::ReadCa { path, name_server }) => {
                finish_doh_config(&settings, &path, name_server, Ok(pem)).unwrap()
            }
            other => panic!("no CA certificates wanted: {:?}", other),
        };
        let error = build_resolver(&server, Some(&config))
            .lookup_ip("doh-test.example.com")
            .await
            .unwrap_err();
        assert!(error.to_string().contains("certificate"), "error: {error}");
    });
}

/// Asks a DoH resolver within the time of an attempt.
async fn ask(resolver: &TokioResolver, attempt: Attempt, host: &str) -> LookupEvent {
    let timeout = Duration::from_millis(attempt.timeout_ms.unwrap());
    match tokio::time::timeout(timeout, resolver.lookup_ip(host)).await {
        Ok(Ok(_)) => LookupEvent::Answered(Answer::Ips(Vec::new())),
        Ok(Err(error)) => LookupEvent::Failed(error.to_string()),
        Err(_) => LookupEvent::TimedOut,
    }
}

#[test]
fn only_mode_never_falls_back_to_plaintext() {
    runtime().block_on(async {
        // closed loopback port: the DoH connection is refused instantly
        let settings = DohSettings {
            url: "https://127.0.0.1:1/dns-query".to_owned(),
            bootstrap_ip: None,
            tls_name: None,
            only: true,
            ca_cert_path: None,
        };
        let config = match resolve_doh_config(&settings) {
            Ok(DohConfigStep::Done(config)) => config,
            other => panic!("not complete: {:?}", other),
        };
        let (resolver_config, options) = configs(Some(&config));
        let resolver = TokioResolver::builder_with_config(
            resolver_config,
            TokioConnectionProvider::default(),
        )
        .with_options(options)
        .build();
        let plan = lookup_via_doh_first(Some(&config), Source::Doh, Some(Source::System));
        let lookup = Lookup::start(plan);
        let event = ask(&resolver, lookup.attempt(), "doh-test.example.com").await;
        match lookup.on_event(event) {
            Progress::Failed(_) => {}
            Progress::Ask(_) => panic!("plaintext fallback must not run in only mode"),
            Progress::Done(_) => panic!("only mode must fail when DoH is down"),
        }
    });
}
