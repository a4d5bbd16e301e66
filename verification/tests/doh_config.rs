//! DoH settings, urls and the configurations that come of them.

use std::sync::Arc;

use doh_resolver::addr::{IpAddr, SocketAddr};
use doh_resolver::doh::{
    build_doh_name_server, current_doh, finish_doh_config, init_doh, resolve_doh_bootstrap,
    resolve_doh_config, resume_doh_config, start_doh_config, DohConfigStep, DohServerConfig,
    DohSettings,
};
use doh_resolver::doh_url::{check_doh_url, locate_doh_server, parse_doh_url};
use doh_resolver::endpoint::{url_parts, DohUrlHost, UrlParts};
use doh_resolver::error::{DnsError, DnsErrorKind};
use doh_resolver::pem::parse_pem_certs;
use hickory_proto::rr::rdata::{A, AAAA};
use hickory_proto::xfer::Protocol;

fn ip(s: &str) -> IpAddr {
    if s.contains(':') {
        IpAddr::V6(s.parse::<AAAA>().unwrap().0.into())
    } else {
        IpAddr::V4(s.parse::<A>().unwrap().0.into())
    }
}

fn settings(url: &str, bootstrap_ip: Option<IpAddr>, only: bool) -> DohSettings {
    DohSettings { url: url.to_owned(), bootstrap_ip, tls_name: None, only, ca_cert_path: None }
}

fn done(step: Result<DohConfigStep, DnsError>) -> DohServerConfig {
    match step {
        Ok(DohConfigStep::Done(config)) => config,
        other => panic!("not complete: {:?}", other),
    }
}

fn prefer_config(url: &str, bootstrap: Option<IpAddr>) -> DohServerConfig {
    done(resolve_doh_config(&settings(url, bootstrap, false)))
}

fn only_config(url: &str, bootstrap: Option<IpAddr>) -> DohServerConfig {
    done(resolve_doh_config(&settings(url, bootstrap, true)))
}

#[test]
fn parses_ip_host_doh_url() {
    let name_server = build_doh_name_server("https://1.1.1.1/dns-query", None, None).unwrap();
    assert_eq!(name_server.socket_addr, "1.1.1.1:443".parse().unwrap());
    assert_eq!(name_server.protocol, Protocol::Https);
    assert_eq!(name_server.tls_dns_name.as_deref(), Some("1.1.1.1"));
    assert_eq!(name_server.http_endpoint.as_deref(), Some("/dns-query"));
    assert!(name_server.trust_negative_responses);
    assert_eq!(name_server.bind_addr, None);
}

#[test]
fn parses_domain_with_bootstrap_and_custom_port_path() {
    let name_server = build_doh_name_server(
        "https://dns.google:8443/custom-dns",
        Some(ip("8.8.8.8")),
        None,
    )
    .unwrap();
    assert_eq!(name_server.socket_addr, "8.8.8.8:8443".parse().unwrap());
    assert_eq!(name_server.protocol, Protocol::Https);
    assert_eq!(name_server.tls_dns_name.as_deref(), Some("dns.google"));
    assert_eq!(name_server.http_endpoint.as_deref(), Some("/custom-dns"));
}

#[test]
fn tls_name_override_wins_over_host() {
    let name_server =
        build_doh_name_server("https://1.1.1.1/dns-query", None, Some("cloudflare-dns.com"))
            .unwrap();
    assert_eq!(name_server.tls_dns_name.as_deref(), Some("cloudflare-dns.com"));
    assert_eq!(name_server.socket_addr, "1.1.1.1:443".parse().unwrap());
}

#[test]
fn rejects_non_https_scheme() {
    assert!(build_doh_name_server("http://1.1.1.1/dns-query", None, None).is_err());
    let error = parse_doh_url("http://1.1.1.1/dns-query").unwrap_err();
    assert_eq!(error.kind, DnsErrorKind::DohUrlNotHttps);
    assert_eq!(
        error.message(),
        "DoH url must use the https scheme: http://1.1.1.1/dns-query"
    );
}

#[test]
fn rejects_query_string_in_url() {
    assert!(build_doh_name_server("https://1.1.1.1/dns-query?extra=1", None, None).is_err());
    let error = parse_doh_url("https://1.1.1.1/dns-query?extra=1").unwrap_err();
    assert_eq!(error.kind, DnsErrorKind::DohUrlHasQuery);
    assert_eq!(
        error.message(),
        "DoH url must not contain a query string: https://1.1.1.1/dns-query?extra=1"
    );
}

#[test]
fn rejects_what_is_no_url() {
    let error = parse_doh_url("dns.google").unwrap_err();
    assert_eq!(error.kind, DnsErrorKind::InvalidDohUrl);
    assert_eq!(error.message(), "invalid DoH url: dns.google");
    assert_eq!(error.cause.as_deref(), Some("relative URL without a base"));
    let error = parse_doh_url("https://1.1.1.1:x/").unwrap_err();
    assert_eq!(error.cause.as_deref(), Some("invalid port number"));
}

#[test]
fn rejects_parts_without_host() {
    let parts = UrlParts {
        scheme: "https".to_owned(),
        host: None,
        port: None,
        known_port: Some(443),
        path: "/".to_owned(),
        query: None,
    };
    let error = check_doh_url("https:", parts).unwrap_err();
    assert_eq!(error.kind, DnsErrorKind::DohUrlWithoutHost);
    assert_eq!(error.message(), "DoH url has no host: https:");
}

#[test]
fn domain_without_bootstrap_is_rejected() {
    assert!(build_doh_name_server("https://dns.google/dns-query", None, None).is_err());
    let error = build_doh_name_server("https://dns.google/dns-query", None, None).unwrap_err();
    assert_eq!(error.kind, DnsErrorKind::DohWithoutBootstrap);
    assert_eq!(
        error.message(),
        "DoH url host is a domain (dns.google), a bootstrap ip is required"
    );
}

#[test]
fn only_mode_domain_requires_bootstrap() {
    let error = resolve_doh_config(&settings("https://dns.google/dns-query", None, true))
        .unwrap_err();
    assert!(error.message().contains("bootstrap"), "error: {:?}", error);
    assert_eq!(
        error.message(),
        "doh_only requires a bootstrap ip when the DoH url host is a domain (dns.google)"
    );
}

#[test]
fn ip_host_needs_no_bootstrap_even_in_only_mode() {
    let config = only_config("https://1.1.1.1/dns-query", None);
    assert_eq!(config.name_server.socket_addr, "1.1.1.1:443".parse().unwrap());
    assert!(config.only);
}

#[test]
fn parses_ipv6_literal_doh_url() {
    let name_server =
        build_doh_name_server("https://[2606:4700:4700::1111]/dns-query", None, None).unwrap();
    assert_eq!(
        name_server.socket_addr,
        "[2606:4700:4700::1111]:443".parse().unwrap()
    );
    assert_eq!(name_server.protocol, Protocol::Https);
    // no brackets in the tls name so rustls parses it as an IP server name
    assert_eq!(
        name_server.tls_dns_name.as_deref(),
        Some("2606:4700:4700::1111")
    );
    assert_eq!(name_server.http_endpoint.as_deref(), Some("/dns-query"));
}

#[test]
fn ipv6_literal_needs_no_bootstrap_even_in_only_mode() {
    let config = only_config("https://[2606:4700:4700::1111]/dns-query", None);
    assert_eq!(
        config.name_server.socket_addr,
        "[2606:4700:4700::1111]:443".parse().unwrap()
    );
    assert!(config.only);
}

#[test]
fn domain_with_ipv6_bootstrap_resolves_to_v6_socket() {
    let name_server = build_doh_name_server(
        "https://dns.google/dns-query",
        Some(ip("2001:4860:4860::8888")),
        None,
    )
    .unwrap();
    assert_eq!(
        name_server.socket_addr,
        "[2001:4860:4860::8888]:443".parse().unwrap()
    );
    assert_eq!(name_server.tls_dns_name.as_deref(), Some("dns.google"));
}

#[test]
fn missing_path_becomes_the_default_one() {
    for url in ["https://1.1.1.1", "https://1.1.1.1/"] {
        let (_, port, endpoint) = parse_doh_url(url).unwrap();
        assert_eq!(port, 443);
        assert_eq!(endpoint, "/dns-query");
    }
    let parts = UrlParts {
        scheme: "https".to_owned(),
        host: Some(DohUrlHost::Ip(ip("1.1.1.1"))),
        port: None,
        known_port: None,
        path: String::new(),
        query: None,
    };
    let (_, port, endpoint) = check_doh_url("https://1.1.1.1", parts).unwrap();
    assert_eq!(port, 443);
    assert_eq!(endpoint, "/dns-query");
}

#[test]
fn urls_are_taken_apart() {
    let parts = url_parts(&url::Url::parse("ws://Example.COM:8080/a/b?c=d#e").unwrap());
    assert_eq!(parts.scheme, "ws");
    assert!(matches!(&parts.host, Some(DohUrlHost::Domain(domain)) if domain == "example.com"));
    assert_eq!(parts.port, Some(8080));
    assert_eq!(parts.known_port, Some(8080));
    assert_eq!(parts.path, "/a/b");
    assert_eq!(parts.query.as_deref(), Some("c=d"));

    let cases = [
        ("http://a", Some(80)),
        ("ws://a", Some(80)),
        ("https://a", Some(443)),
        ("wss://a", Some(443)),
        ("ftp://a", Some(21)),
        ("tcp://a", None),
    ];
    for (url, known_port) in cases {
        let parts = url_parts(&url::Url::parse(url).unwrap());
        assert_eq!(parts.port, None);
        assert_eq!(parts.known_port, known_port, "{}", url);
        assert_eq!(parts.query, None);
    }
    let parts = url_parts(&url::Url::parse("https://a:443/").unwrap());
    assert_eq!(parts.port, None);
    let parts = url_parts(&url::Url::parse("mailto:someone").unwrap());
    assert!(parts.host.is_none());
}

#[test]
fn address_in_url_wins_over_pinned_one() {
    let server = locate_doh_server(
        DohUrlHost::Ip(ip("1.1.1.1")),
        443,
        "/q".to_owned(),
        Some(ip("8.8.8.8")),
        None,
    )
    .unwrap();
    assert_eq!(server.ip, ip("1.1.1.1"));
    assert_eq!(server.port, 443);
    assert_eq!(server.tls_name, "1.1.1.1");
    assert_eq!(server.endpoint, "/q");
}

#[test]
fn pinned_address_does_not_change_the_tls_name() {
    let url = "https://dns.google/dns-query";
    let first = build_doh_name_server(url, Some(ip("8.8.8.8")), None).unwrap();
    let second = build_doh_name_server(url, Some(ip("8.8.4.4")), None).unwrap();
    assert_eq!(first.tls_dns_name, second.tls_dns_name);
    assert_ne!(first.socket_addr, second.socket_addr);
}

#[test]
fn preferred_domain_is_looked_up_once() {
    let settings = settings("https://dns.google:8443/dns-query", None, false);
    match resolve_doh_config(&settings).unwrap() {
        DohConfigStep::Bootstrap { domain, port } => {
            assert_eq!(domain, "dns.google");
            assert_eq!(port, 8443);
        }
        other => panic!("unexpected: {:?}", other),
    }
    let found = Ok(vec![
        SocketAddr::new(ip("8.8.4.4"), 8443),
        SocketAddr::new(ip("8.8.8.8"), 8443),
    ]);
    let config = done(resume_doh_config(&settings, "dns.google", found));
    assert_eq!(config.name_server.socket_addr, "8.8.4.4:8443".parse().unwrap());
    assert_eq!(config.name_server.tls_dns_name.as_deref(), Some("dns.google"));
    assert!(!config.only);

    // as if the address had been pinned
    let pinned = prefer_config("https://dns.google:8443/dns-query", Some(ip("8.8.4.4")));
    assert_eq!(pinned.name_server.socket_addr, config.name_server.socket_addr);
    assert_eq!(pinned.name_server.tls_dns_name, config.name_server.tls_dns_name);
    assert_eq!(pinned.name_server.http_endpoint, config.name_server.http_endpoint);
}

#[test]
fn failed_bootstrap_lookups_are_told() {
    let settings = settings("https://dns.google/dns-query", None, false);
    let error =
        resume_doh_config(&settings, "dns.google", Err("no route".to_owned())).unwrap_err();
    assert_eq!(error.kind, DnsErrorKind::BootstrapLookupFailed);
    assert_eq!(
        error.message(),
        "failed to bootstrap resolve DoH server domain: dns.google"
    );
    assert_eq!(error.cause.as_deref(), Some("no route"));
    let error = resume_doh_config(&settings, "dns.google", Ok(Vec::new())).unwrap_err();
    assert_eq!(error.kind, DnsErrorKind::BootstrapLookupEmpty);
    assert_eq!(
        error.message(),
        "DoH server domain resolved to no addresses: dns.google"
    );
    assert_eq!(error.cause, None);
    let first = resolve_doh_bootstrap("a", Ok(vec![SocketAddr::new(ip("::1"), 1)]));
    assert_eq!(first.unwrap(), ip("::1"));
}

#[test]
fn invalid_url_is_rejected_before_anything_else() {
    let error = resolve_doh_config(&settings("dns.google", None, true)).unwrap_err();
    assert_eq!(error.kind, DnsErrorKind::InvalidDohUrl);
}

#[test]
fn ca_certificates_are_asked_for() {
    let mut settings = settings("https://1.1.1.1/dns-query", None, true);
    settings.ca_cert_path = Some("/ca.pem".to_owned());
    let (path, server) = match start_doh_config(
        &settings,
        DohUrlHost::Ip(ip("1.1.1.1")),
        443,
        "/dns-query".to_owned(),
    )
    .unwrap()
    {
        DohConfigStep::ReadCa { path, name_server } => (path, name_server),
        other => panic!("unexpected: {:?}", other),
    };
    assert_eq!(path, "/ca.pem");

    let error =
        finish_doh_config(&settings, &path, server.clone(), Err("no such file".to_owned()))
            .unwrap_err();
    assert_eq!(error.kind, DnsErrorKind::CaFileUnreadable);
    assert_eq!(error.message(), "failed to read DoH CA cert file: /ca.pem");
    assert_eq!(error.cause.as_deref(), Some("no such file"));

    let error =
        finish_doh_config(&settings, &path, server.clone(), Ok("not a pem".to_owned()))
            .unwrap_err();
    assert_eq!(error.kind, DnsErrorKind::PemWithoutCertificates);

    // base64 of something else than a certificate
    let no_cert = "-----BEGIN CERTIFICATE-----\nAQID\n-----END CERTIFICATE-----\n";
    let error = finish_doh_config(&settings, &path, server.clone(), Ok(no_cert.to_owned()))
        .unwrap_err();
    assert_eq!(error.kind, DnsErrorKind::CaNotCertificate);
    assert_eq!(error.message(), "invalid certificate in PEM file /ca.pem");

    let params = rcgen::CertificateParams::new(vec!["localhost".to_owned()]);
    let pem = rcgen::Certificate::from_params(params).unwrap().serialize_pem().unwrap();
    let error =
        finish_doh_config(&settings, &path, server.clone(), Ok(format!("{pem}{no_cert}")))
            .unwrap_err();
    assert_eq!(error.kind, DnsErrorKind::CaNotCertificate);

    let config = finish_doh_config(&settings, &path, server, Ok(pem.clone())).unwrap();
    assert_eq!(config.ca_certs_der, parse_pem_certs("/ca.pem", &pem).unwrap());
    assert!(config.only);
    // what was built can be used
    let _tls = config.tls_client_config();
    assert_eq!(config.name_server.socket_addr, "1.1.1.1:443".parse().unwrap());
}

#[test]
fn installed_configuration_is_current() {
    let mut current: Option<Arc<DohServerConfig>> = None;
    assert!(current_doh(&current).is_none());

    let config = only_config("https://1.1.1.1/dns-query", None);
    assert!(init_doh(&mut current, Ok(config)).is_ok());
    assert!(current_doh(&current).unwrap().only);

    let error = DnsError::new(DnsErrorKind::InvalidDohUrl, "x");
    let error = init_doh(&mut current, Err(error)).unwrap_err();
    assert_eq!(error.kind, DnsErrorKind::InvalidDohUrl);
    assert!(current_doh(&current).unwrap().only);

    let config = prefer_config("https://1.1.1.1/dns-query", None);
    assert!(init_doh(&mut current, Ok(config)).is_ok());
    assert!(!current_doh(&current).unwrap().only);
}

#[test]
fn settings_and_hosts_are_copied() {
    let settings = DohSettings {
        url: "https://a/".to_owned(),
        bootstrap_ip: Some(ip("::1")),
        tls_name: Some("b".to_owned()),
        only: true,
        ca_cert_path: Some("c".to_owned()),
    };
    let copy = settings.clone();
    assert_eq!(copy.url, "https://a/");
    assert_eq!(copy.bootstrap_ip, Some(ip("::1")));
    assert_eq!(copy.tls_name.as_deref(), Some("b"));
    assert!(copy.only);
    assert_eq!(copy.ca_cert_path.as_deref(), Some("c"));

    let host = DohUrlHost::Domain("a".to_owned());
    assert_eq!(host.clone(), host);
    assert_ne!(host, DohUrlHost::Ip(ip("::1")));
}
