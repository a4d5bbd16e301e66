//! The socket addresses of urls, and what addresses look like.

use doh_resolver::addr::{ips_of, with_port, IpAddr, SocketAddr};
use doh_resolver::doh::{resolve_doh_config, DohConfigStep, DohServerConfig, DohSettings};
use doh_resolver::endpoint::DohUrlHost;
use doh_resolver::error::DnsErrorKind;
use doh_resolver::lookup::{Answer, LookupFailure, Source};
use doh_resolver::socket::{
    resolve_target_system_only, socket_addrs, socket_addrs_with_system_resolver, socket_target,
    url_target, SocketAddrsLookup, SocketAddrsStep, SocketTarget,
};
use hickory_proto::rr::rdata::{A, AAAA};

fn ip(s: &str) -> IpAddr {
    if s.contains(':') {
        IpAddr::V6(s.parse::<AAAA>().unwrap().0.into())
    } else {
        IpAddr::V4(s.parse::<A>().unwrap().0.into())
    }
}

fn config(only: bool) -> DohServerConfig {
    let settings = DohSettings {
        url: "https://1.1.1.1/dns-query".to_owned(),
        bootstrap_ip: None,
        tls_name: None,
        only,
        ca_cert_path: None,
    };
    match resolve_doh_config(&settings) {
        Ok(DohConfigStep::Done(config)) => config,
        other => panic!("not complete: {:?}", other),
    }
}

fn ask(step: SocketAddrsStep) -> SocketAddrsLookup {
    match step {
        SocketAddrsStep::Ask(lookup) => lookup,
        other => panic!("nothing to look up: {:?}", other),
    }
}

fn sources(lookup: &SocketAddrsLookup) -> Vec<Source> {
    lookup.plan.attempts.iter().map(|attempt| attempt.source).collect()
}

#[test]
fn test_socket_addrs() {
    let url = url::Url::parse("tcp://github-ci-test.easytier.cn:80").unwrap();
    let lookup = ask(socket_addrs(&url, || Some(80), None).unwrap());
    assert_eq!(lookup.host, "github-ci-test.easytier.cn");
    assert_eq!(lookup.system_target(), "github-ci-test.easytier.cn:80");
    assert_eq!(sources(&lookup), vec![Source::System, Source::Resolver]);
    let addrs = lookup.finish(Answer::Addrs(vec![
        SocketAddr::new(ip("192.0.2.1"), 80),
        SocketAddr::new(ip("2001:db8::1"), 80),
    ]));
    assert_eq!(2, addrs.len(), "addrs: {:?}", addrs);

    let lookup =
        ask(socket_addrs_with_system_resolver(&url, || Some(80), false, None).unwrap());
    assert_eq!(sources(&lookup), vec![Source::Resolver]);
    let addrs = lookup.finish(Answer::Ips(vec![ip("192.0.2.1"), ip("2001:db8::1")]));
    assert_eq!(2, addrs.len(), "addrs: {:?}", addrs);
    assert_eq!(addrs[0], SocketAddr::new(ip("192.0.2.1"), 80));
    assert_eq!(addrs[1], SocketAddr::new(ip("2001:db8::1"), 80));
}

#[test]
fn socket_addrs_preserves_explicit_zero_port() {
    let cases = [
        ("ws://127.0.0.1:0", 80, 0),
        ("wss://127.0.0.1:0", 443, 0),
        ("ws://127.0.0.1", 80, 80),
        ("wss://127.0.0.1", 443, 443),
    ];

    for (raw_url, default_port, expected_port) in cases {
        let url = url::Url::parse(raw_url).unwrap();
        match socket_addrs(&url, || Some(default_port), None).unwrap() {
            SocketAddrsStep::Done(addrs) => assert_eq!(
                addrs,
                vec![SocketAddr::V4 { ip: 0x7f000001, port: expected_port }]
            ),
            other => panic!("unexpected: {:?}", other),
        }
    }
}

#[test]
fn address_needs_no_lookup() {
    let url = url::Url::parse("tcp://[::1]:7").unwrap();
    for doh in [None, Some(&config(true))] {
        match socket_addrs_with_system_resolver(&url, || None, false, doh).unwrap() {
            SocketAddrsStep::Done(addrs) => {
                assert_eq!(
                    addrs,
                    vec![SocketAddr::V6 { ip: 1, port: 7, flowinfo: 0, scope_id: 0 }]
                )
            }
            other => panic!("unexpected: {:?}", other),
        }
    }
}

#[test]
fn default_port_is_asked_for_only_where_it_is_needed() {
    for raw_url in ["tcp://a:1", "tcp://1.1.1.1:0", "unix:/run/socket"] {
        let url = url::Url::parse(raw_url).unwrap();
        let _ = socket_addrs(&url, || panic!("asked for the port of {raw_url}"), None);
    }
}

#[test]
fn url_needs_a_host_and_a_port() {
    let url = url::Url::parse("tcp://a").unwrap();
    let error = socket_addrs(&url, || None, None).unwrap_err();
    assert_eq!(error.kind, DnsErrorKind::InvalidUrl);
    assert_eq!(error.subject, "tcp://a");
    assert_eq!(error.message(), "invalid url: tcp://a");

    let url = url::Url::parse("unix:/run/socket").unwrap();
    let error = url_target(&url, || Some(1)).unwrap_err();
    assert_eq!(error.kind, DnsErrorKind::InvalidUrl);
    assert_eq!(error.subject, "unix:/run/socket");

    assert!(socket_target("x", None, Some(1)).is_err());
    assert!(socket_target("x", Some(DohUrlHost::Ip(ip("::1"))), None).is_err());
    assert!(matches!(
        socket_target("x", Some(DohUrlHost::Domain("a".to_owned())), Some(1)),
        Ok(SocketTarget::Name { host, port: 1 }) if host == "a"
    ));
}

#[test]
fn doh_comes_first_where_it_is_configured() {
    let url = url::Url::parse("tcp://a:5").unwrap();
    let prefer = config(false);
    let only = config(true);

    let lookup = ask(socket_addrs(&url, || None, Some(&prefer)).unwrap());
    assert_eq!(sources(&lookup), vec![Source::Doh, Source::System]);
    let lookup = ask(socket_addrs(&url, || None, Some(&only)).unwrap());
    assert_eq!(sources(&lookup), vec![Source::Doh]);
    let lookup = ask(
        socket_addrs_with_system_resolver(&url, || None, false, Some(&prefer)).unwrap(),
    );
    assert_eq!(sources(&lookup), vec![Source::Doh]);
    assert_eq!(
        lookup.fail(LookupFailure::SystemDisabled).kind,
        DnsErrorKind::SystemResolverDisabled
    );
}

#[test]
fn answers_of_the_system_are_kept_unless_doh_was_tried() {
    let url = url::Url::parse("tcp://a:5").unwrap();
    let scoped = SocketAddr::V6 { ip: 1, port: 5, flowinfo: 2, scope_id: 3 };

    let lookup = ask(socket_addrs(&url, || None, None).unwrap());
    assert_eq!(lookup.finish(Answer::Addrs(vec![scoped])), vec![scoped]);

    let config = config(false);
    let lookup = ask(socket_addrs(&url, || None, Some(&config)).unwrap());
    assert_eq!(
        lookup.finish(Answer::Addrs(vec![scoped])),
        vec![SocketAddr::new(IpAddr::V6(1), 5)]
    );
}

#[test]
fn failures_tell_host_and_port() {
    let url = url::Url::parse("tcp://a:65535").unwrap();
    let lookup = ask(socket_addrs(&url, || None, None).unwrap());
    let failure = LookupFailure::Source { source: Source::Resolver, text: "x".to_owned() };
    assert_eq!(
        lookup.fail(failure).message(),
        "hickory dns lookup_ip failed, host: a, port: 65535"
    );
    let failure = LookupFailure::Source { source: Source::Doh, text: "x".to_owned() };
    assert_eq!(
        lookup.fail(failure).message(),
        "DoH lookup_ip failed, host: a, port: 65535"
    );
    let failure = LookupFailure::Source { source: Source::System, text: "x".to_owned() };
    assert_eq!(lookup.fail(failure).message(), "x");
}

#[test]
fn system_resolver_alone_is_asked_once() {
    let step = resolve_target_system_only(SocketTarget::Name { host: "a".to_owned(), port: 1 });
    assert_eq!(sources(&ask(step)), vec![Source::System]);
    let addr = SocketAddr::new(ip("127.0.0.1"), 1);
    match resolve_target_system_only(SocketTarget::Addr(addr)) {
        SocketAddrsStep::Done(addrs) => assert_eq!(addrs, vec![addr]),
        other => panic!("unexpected: {:?}", other),
    }
}

#[test]
fn addresses_are_written_like_those_of_std() {
    let texts = [
        "0.0.0.0",
        "1.1.1.1",
        "10.20.30.40",
        "255.255.255.255",
        "::",
        "::1",
        "2606:4700:4700::1111",
        "::ffff:192.0.2.1",
        "1:2:3:4:5:6:7:8",
    ];
    for text in texts {
        assert_eq!(ip(text).to_text(), text);
    }
}

#[test]
fn ports_are_put_to_addresses_and_taken_off() {
    let ips = vec![ip("192.0.2.1"), ip("::1")];
    let addrs = with_port(&ips, 53);
    assert_eq!(addrs[0].port(), 53);
    assert_eq!(addrs[1].port(), 53);
    assert_eq!(addrs[1].ip(), ip("::1"));
    assert_eq!(ips_of(&addrs), ips);
}
