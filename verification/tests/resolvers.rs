//! The configurations of resolvers.

use doh_resolver::addr::IpAddr;
use doh_resolver::doh::{resolve_doh_config, DohConfigStep, DohServerConfig, DohSettings};
use doh_resolver::name_servers::{append_legacy_name_servers, get_default_resolver_config};
use doh_resolver::resolver::{
    resolver_config_with, resolver_options, try_resolver_config_with,
};
use hickory_proto::xfer::Protocol;
use hickory_resolver::config::{
    LookupIpStrategy, ResolveHosts, ResolverConfig, ResolverOpts, ServerOrderingStrategy,
};
use hickory_resolver::system_conf::read_system_conf;

fn config(url: &str, bootstrap_ip: Option<IpAddr>, only: bool) -> DohServerConfig {
    let settings = DohSettings {
        url: url.to_owned(),
        bootstrap_ip,
        tls_name: None,
        only,
        ca_cert_path: None,
    };
    match resolve_doh_config(&settings) {
        Ok(DohConfigStep::Done(config)) => config,
        other => panic!("not complete: {:?}", other),
    }
}

fn prefer_config(url: &str, bootstrap: Option<IpAddr>) -> DohServerConfig {
    config(url, bootstrap, false)
}

fn only_config(url: &str, bootstrap: Option<IpAddr>) -> DohServerConfig {
    config(url, bootstrap, true)
}

fn system() -> (ResolverConfig, ResolverOpts) {
    hickory_resolver::system_conf::parse_resolv_conf(
        "nameserver 192.0.2.53\nnameserver 2001:db8::53\noptions ndots:3 timeout:7\n",
    )
    .unwrap()
}

#[test]
fn default_name_servers_are_asked_over_udp() {
    let config = get_default_resolver_config();
    let servers = config.name_servers();
    assert_eq!(servers.len(), 2);
    assert_eq!(servers[0].socket_addr, "223.5.5.5:53".parse().unwrap());
    assert_eq!(servers[1].socket_addr, "180.184.1.1:53".parse().unwrap());
    for server in servers {
        assert_eq!(server.protocol, Protocol::Udp);
        assert_eq!(server.tls_dns_name, None);
        assert_eq!(server.http_endpoint, None);
        assert!(server.trust_negative_responses);
        assert_eq!(server.bind_addr, None);
    }
}

#[test]
fn legacy_name_servers_go_behind() {
    let mut config = get_default_resolver_config();
    append_legacy_name_servers(&mut config, Some(&system().0));
    let addrs: Vec<String> =
        config.name_servers().iter().map(|server| server.to_string()).collect();
    assert_eq!(
        addrs,
        vec![
            "udp:223.5.5.5:53",
            "udp:180.184.1.1:53",
            "udp:223.5.5.5:53",
            "udp:180.184.1.1:53",
            "udp:192.0.2.53:53",
            "tcp:192.0.2.53:53",
            "udp:[2001:db8::53]:53",
            "tcp:[2001:db8::53]:53",
        ]
    );
    assert!(!config.name_servers()[4].trust_negative_responses);
}

#[test]
fn only_resolver_config_has_no_plaintext_name_servers() {
    let config = only_config("https://1.1.1.1/dns-query", None);
    let (resolver_config, _) = resolver_config_with(Some(&config), read_system_conf().ok());
    let name_servers = resolver_config.name_servers();
    assert_eq!(name_servers.len(), 1, "name_servers: {:?}", name_servers);
    assert_eq!(name_servers[0].protocol, Protocol::Https);

    let (resolver_config, _) = resolver_config_with(Some(&config), Some(system()));
    assert_eq!(resolver_config.name_servers().len(), 1);
    assert_eq!(resolver_config.name_servers()[0].protocol, Protocol::Https);
}

#[test]
fn prefer_resolver_config_keeps_plaintext_fallback_after_doh() {
    let config = prefer_config("https://1.1.1.1/dns-query", None);
    let (resolver_config, _) = resolver_config_with(Some(&config), read_system_conf().ok());
    let name_servers = resolver_config.name_servers();
    assert!(name_servers.len() >= 2, "name_servers: {:?}", name_servers);
    assert_eq!(name_servers[0].protocol, Protocol::Https);
    assert!(name_servers[1..].iter().any(|ns| ns.protocol == Protocol::Udp));

    let (resolver_config, _) = resolver_config_with(Some(&config), Some(system()));
    let name_servers = resolver_config.name_servers();
    assert_eq!(name_servers.len(), 7);
    assert_eq!(name_servers[0].tls_dns_name.as_deref(), Some("1.1.1.1"));
    assert_eq!(name_servers[1].socket_addr, "223.5.5.5:53".parse().unwrap());
    assert_eq!(name_servers[3].socket_addr, "192.0.2.53:53".parse().unwrap());
}

#[test]
fn resolver_config_without_doh_matches_legacy_behavior() {
    let (resolver_config, _) = resolver_config_with(None, read_system_conf().ok());
    assert!(!resolver_config.name_servers().is_empty());
    assert!(resolver_config
        .name_servers()
        .iter()
        .all(|ns| ns.protocol != Protocol::Https));

    let (resolver_config, _) = resolver_config_with(None, Some(system()));
    assert_eq!(resolver_config.name_servers().len(), 6);
}

#[test]
fn both_kinds_of_addresses_are_looked_up() {
    let config = prefer_config("https://1.1.1.1/dns-query", None);
    for doh in [None, Some(&config)] {
        let (_, options) = resolver_config_with(doh, None);
        assert_eq!(options.ip_strategy, LookupIpStrategy::Ipv4AndIpv6);
        let (_, options) = resolver_config_with(doh, Some(system()));
        assert_eq!(options.ip_strategy, LookupIpStrategy::Ipv4AndIpv6);
    }
}

#[test]
fn options_of_the_system_are_kept() {
    let (_, options) = resolver_config_with(None, Some(system()));
    assert_eq!(options.ndots, 3);
    assert_eq!(options.timeout.as_secs(), 7);
    let (_, options) = resolver_config_with(None, None);
    assert_eq!(options.ndots, ResolverOpts::default().ndots);
    let options = resolver_options(system().1, None);
    assert_eq!(options.ndots, 3);
}

#[test]
fn bytes_that_are_no_certificate_are_noticed() {
    let mut config = prefer_config("https://1.1.1.1/dns-query", None);
    assert!(config.try_tls_client_config().is_some());
    assert!(try_resolver_config_with(Some(&config), None).is_some());
    assert!(try_resolver_config_with(None, None).is_some());

    config.ca_certs_der = vec![vec![1, 2, 3]];
    assert!(config.try_tls_client_config().is_none());
    assert!(try_resolver_config_with(Some(&config), None).is_none());
}

#[test]
fn settings_are_the_default_ones_where_the_system_says_nothing() {
    let config = prefer_config("https://1.1.1.1/dns-query", None);
    for doh in [None, Some(&config)] {
        let (_, options) = resolver_config_with(doh, None);
        assert_eq!(options.ndots, 1);
        assert_eq!(options.timeout.as_secs(), 5);
        assert_eq!(options.attempts, 2);
        assert!(options.check_names);
        assert!(!options.edns0);
        assert!(!options.validate);
        assert_eq!(options.cache_size, 32);
        assert_eq!(options.use_hosts_file, ResolveHosts::Auto);
        assert_eq!(options.positive_min_ttl, None);
        assert_eq!(options.negative_min_ttl, None);
        assert_eq!(options.positive_max_ttl, None);
        assert_eq!(options.negative_max_ttl, None);
        assert_eq!(options.num_concurrent_reqs, 2);
        assert!(options.preserve_intermediates);
        assert!(!options.try_tcp_on_error);
        assert_eq!(
            options.server_ordering_strategy,
            ServerOrderingStrategy::QueryStatistics
        );
        assert!(options.recursion_desired);
        assert!(options.avoid_local_udp_ports.is_empty());
        assert!(!options.os_port_selection);
        assert!(!options.case_randomization);
        assert_eq!(options.trust_anchor, None);
    }
}

#[test]
fn domains_of_the_system_are_not_searched() {
    let system = || {
        hickory_resolver::system_conf::parse_resolv_conf(
            "domain example.com\nsearch a.example.com b.example.com\nnameserver 192.0.2.53\n",
        )
        .unwrap()
    };
    assert_eq!(system().0.search().len(), 2);
    let (config, _) = resolver_config_with(None, Some(system()));
    assert_eq!(config.domain(), None);
    assert!(config.search().is_empty());
}

#[test]
fn tls_clients_show_no_certificate() {
    let config = prefer_config("https://1.1.1.1/dns-query", None);
    let tls = config.tls_client_config();
    assert!(!tls.client_auth_cert_resolver.has_certs());
    assert!(tls.enable_sni);
    assert!(tls.alpn_protocols.is_empty());
}

/// How many roots a TLS configuration trusts, as its debug text tells.
fn root_count(options: &ResolverOpts) -> usize {
    let text = format!("{:?}", options.tls_config);
    let end = text.find(" roots)").expect("a count of roots");
    let start = text[..end].rfind('(').unwrap() + 1;
    text[start..end].parse().unwrap()
}

#[test]
fn roots_are_trusted_where_a_server_needs_them() {
    let (_, options) = resolver_config_with(None, None);
    assert_eq!(root_count(&options), 0);
    assert!(!options.tls_config.client_auth_cert_resolver.has_certs());
    assert!(options.tls_config.alpn_protocols.is_empty());
    assert!(options.tls_config.enable_sni);

    let mut config = prefer_config("https://1.1.1.1/dns-query", None);
    for system in [None, Some(system())] {
        let (_, options) = resolver_config_with(Some(&config), system);
        assert_eq!(root_count(&options), webpki_roots::TLS_SERVER_ROOTS.len());
    }

    let params = rcgen::CertificateParams::new(vec!["localhost".to_owned()]);
    let der = rcgen::Certificate::from_params(params).unwrap().serialize_der().unwrap();
    config.ca_certs_der = vec![der.clone(), der];
    let (_, options) = resolver_config_with(Some(&config), None);
    assert_eq!(root_count(&options), 2);
}
