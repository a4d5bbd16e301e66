//! How lookups are routed by their context.

use doh_resolver::addr::{IpAddr, SocketAddr};
use doh_resolver::context::{
    connect_result, ConnectEvent, ConnectFailure, NetNamespace, RuntimeDnsIoContext,
    RuntimeDnsIoProvider, SocketContext, Wait,
};
use doh_resolver::doh::{resolve_doh_config, DohConfigStep, DohServerConfig, DohSettings};
use doh_resolver::error::DnsErrorKind;
use doh_resolver::lookup::{
    Exhausted, Lookup, LookupEvent, LookupFailure, Plan, Progress, Source,
};
use doh_resolver::runtime::{
    system_only_route, system_only_srv, system_only_txt, DnsQuery, RecordRoute,
    RuntimeDnsResolver, SystemOnlyRoute,
};

fn config(only: bool) -> DohServerConfig {
    let settings = DohSettings {
        url: "https://1.1.1.1/dns-query".to_owned(),
        bootstrap_ip: None,
        tls_name: None,
        only,
        ca_cert_path: None,
    };
    match resolve_doh_config(&settings) {
        Ok(DohConfigStep::Done(config)) => config,
        other => panic!("not complete: {:?}", other),
    }
}

fn query(netns: Option<&str>, socket_mark: Option<u32>) -> DnsQuery {
    let netns = netns.map(|token| NetNamespace::new(token.to_owned()));
    DnsQuery {
        host: "example.com".to_owned(),
        context: SocketContext::default().with_netns(netns).with_socket_mark(socket_mark),
    }
}

fn sources(plan: &Plan) -> Vec<(Source, Option<u64>, bool)> {
    plan.attempts
        .iter()
        .map(|attempt| (attempt.source, attempt.timeout_ms, attempt.needs_slot))
        .collect()
}

#[test]
fn runtime_dns_context_preserves_process_routing_inputs() {
    let context = SocketContext::default()
        .with_socket_mark(Some(0))
        .with_netns(Some(NetNamespace::new("instance-a".to_owned())));

    let io_context = RuntimeDnsIoContext::from_socket_context(&context);
    assert_eq!(
        io_context,
        RuntimeDnsIoContext {
            netns: Some("instance-a".to_owned()),
            socket_mark: Some(0),
        }
    );
    assert_eq!(io_context.netns().name().as_deref(), Some("instance-a"));

    let back = io_context.socket_context();
    assert_eq!(back.netns.unwrap().token(), "instance-a");
    assert_eq!(back.socket_mark, Some(0));
}

#[test]
fn only_an_unbound_context_is_the_default_of_the_process() {
    let cases = [
        (None, None, false, true),
        (None, None, true, false),
        (Some("a"), None, false, false),
        (None, Some(0), false, false),
    ];
    for (netns, mark, protection, expected) in cases {
        let query = query(netns, mark);
        let context = RuntimeDnsIoContext::from_socket_context(&query.context);
        assert_eq!(context.is_process_default(protection), expected);
        let route = RuntimeDnsResolver::record_route(&query, protection);
        assert_eq!(matches!(route, RecordRoute::Process), expected);
        if let RecordRoute::Contextual(context) = route {
            assert_eq!(context.netns.as_deref(), netns);
            assert_eq!(context.socket_mark, mark);
        }
    }
}

#[test]
fn unbound_lookups_ask_the_system_first() {
    let resolver = RuntimeDnsResolver::new();
    let plan = resolver.resolve(&query(None, None), None, false).1.plan;
    assert_eq!(
        sources(&plan),
        vec![(Source::System, Some(800), true), (Source::Resolver, None, false)]
    );
    assert_eq!(plan.exhausted, Exhausted::LastFailure);
}

#[test]
fn unbound_lookups_ask_doh_first_where_it_is_configured() {
    let resolver = RuntimeDnsResolver::new();
    let plan = resolver.resolve(&query(None, None), Some(&config(false)), false).1.plan;
    assert_eq!(
        sources(&plan),
        vec![(Source::Doh, Some(5000), false), (Source::System, None, false)]
    );
    let plan = resolver.resolve(&query(None, None), Some(&config(true)), false).1.plan;
    assert_eq!(sources(&plan), vec![(Source::Doh, Some(5000), false)]);
    assert_eq!(plan.exhausted, Exhausted::DohOnly);
}

#[test]
fn lookups_in_a_namespace_ask_the_system_from_within() {
    let resolver = RuntimeDnsResolver::new();
    let (context, lookup) = resolver.resolve(&query(Some("a"), None), None, false);
    let plan = lookup.plan;
    assert_eq!(context.netns.as_deref(), Some("a"));
    assert_eq!(
        sources(&plan),
        vec![(Source::NamespaceSystem, Some(800), true), (Source::Contextual, None, false)]
    );
    let plan = resolver.resolve(&query(Some("a"), None), Some(&config(false)), false).1.plan;
    assert_eq!(
        sources(&plan),
        vec![
            (Source::Contextual, Some(5000), false),
            (Source::NamespaceSystem, Some(800), true),
            (Source::Contextual, None, false),
        ]
    );
}

#[test]
fn marked_or_protected_lookups_never_ask_the_system() {
    let resolver = RuntimeDnsResolver::new();
    for (mark, protection) in [(Some(7), false), (None, true), (Some(7), true)] {
        let query = query(Some("a"), mark);
        let plan = resolver.resolve(&query, None, protection).1.plan;
        assert_eq!(sources(&plan), vec![(Source::Contextual, None, false)]);
        let plan = resolver.resolve(&query, Some(&config(false)), protection).1.plan;
        assert_eq!(
            sources(&plan),
            vec![(Source::Contextual, Some(5000), false), (Source::Contextual, None, false)]
        );
    }
}

#[test]
fn contextual_lookups_ask_nothing_but_doh_in_only_mode() {
    let resolver = RuntimeDnsResolver::new();
    for (netns, mark) in [(Some("a"), None), (None, Some(1)), (Some("a"), Some(1))] {
        let plan = resolver.resolve(&query(netns, mark), Some(&config(true)), false).1.plan;
        assert_eq!(sources(&plan), vec![(Source::Contextual, Some(5000), false)]);
        assert_eq!(plan.exhausted, Exhausted::LastFailure);
    }
}

#[test]
fn contextual_lookups_fail_in_time_in_only_mode() {
    let resolver = RuntimeDnsResolver::new();
    let start = || {
        let (_, lookup) = resolver.resolve(&query(None, Some(1)), Some(&config(true)), false);
        Lookup::start(lookup.plan)
    };
    match start().on_event(LookupEvent::TimedOut) {
        Progress::Failed(failure) => {
            assert!(matches!(failure, LookupFailure::TimedOut { source: Source::Contextual }));
            let error = failure.into_error("example.com");
            assert_eq!(error.kind, DnsErrorKind::LookupTimedOut);
            assert_eq!(error.message(), "dns lookup timed out, host: example.com");
        }
        other => panic!("unexpected: {:?}", other),
    }
    match start().on_event(LookupEvent::Failed("refused".to_owned())) {
        Progress::Failed(failure) => {
            let error = failure.into_error("example.com");
            assert_eq!(error.kind, DnsErrorKind::ContextualLookupFailed);
            assert_eq!(error.cause.as_deref(), Some("refused"));
        }
        other => panic!("unexpected: {:?}", other),
    }
}

#[test]
fn lookups_keep_their_host() {
    let resolver = RuntimeDnsResolver::new();
    for (netns, mark) in [(None, None), (Some("a"), None), (None, Some(1))] {
        let (_, lookup) = resolver.resolve(&query(netns, mark), None, false);
        assert_eq!(lookup.host, "example.com");
    }
    let lookup = resolver.resolve_process_ips("a.b", Some(&config(true)));
    assert_eq!(lookup.host, "a.b");
    let error = lookup.fail(LookupFailure::TimedOut { source: Source::Doh });
    assert_eq!(error.message(), "dns lookup timed out, host: a.b");
    let context = RuntimeDnsIoContext { netns: None, socket_mark: Some(1) };
    let lookup = resolver.resolve_contextual_ips(&context, "c.d", None, false);
    assert_eq!(lookup.host, "c.d");
}

#[test]
fn connections_give_what_came_of_them() {
    assert!(matches!(connect_result::<u8, &str>(ConnectEvent::Connected(7)), Ok(7)));
    assert!(matches!(
        connect_result::<u8, &str>(ConnectEvent::Failed("refused")),
        Err(ConnectFailure::Failed("refused"))
    ));
    assert!(matches!(
        connect_result::<u8, &str>(ConnectEvent::TimedOut),
        Err(ConnectFailure::TimedOut)
    ));
}

#[test]
fn sockets_are_bound_to_the_context() {
    let context = RuntimeDnsIoContext { netns: Some("a".to_owned()), socket_mark: Some(3) };
    let provider = RuntimeDnsIoProvider::new(context.clone());
    let addr = SocketAddr::new(IpAddr::V4(0x7f000001), 0);

    let options = provider.connect_tcp(Some(addr));
    assert_eq!(options.context.netns.unwrap().token(), "a");
    assert_eq!(options.context.socket_mark, Some(3));
    assert_eq!(options.local_addr, Some(addr));
    assert_eq!(options.bind_device.as_deref(), Some(""));
    assert!(!options.reuse_addr);

    let options = provider.bind_udp(addr);
    assert_eq!(options.context.netns.unwrap().token(), "a");
    assert_eq!(options.context.socket_mark, Some(3));
    assert_eq!(options.local_addr, Some(addr));

    assert_eq!(RuntimeDnsIoProvider::connect_wait(None), Wait { secs: 5, nanos: 0 });
    let wait = Wait { secs: 1, nanos: 2 };
    assert_eq!(RuntimeDnsIoProvider::connect_wait(Some(wait)), wait);
}

#[test]
fn system_resolver_alone_can_neither_mark_nor_protect() {
    for (mark, protection) in [(Some(7), false), (None, true)] {
        let error = system_only_route(&query(None, mark), protection).unwrap_err();
        assert_eq!(error.kind, DnsErrorKind::NeedsResolver);
        assert_eq!(
            error.message(),
            "socket-marked or VPN-protected DNS requires DNS resolver support"
        );
    }
    assert!(matches!(
        system_only_route(&query(None, None), false),
        Ok(SystemOnlyRoute::Process)
    ));
    match system_only_route(&query(Some("a"), None), false) {
        Ok(SystemOnlyRoute::Namespace(netns)) => assert_eq!(netns.name().as_deref(), Some("a")),
        other => panic!("unexpected: {:?}", other),
    }
    assert_eq!(
        system_only_txt().message(),
        "this build does not include TXT DNS resolution"
    );
    assert_eq!(
        system_only_srv().message(),
        "this build does not include SRV DNS resolution"
    );
}
