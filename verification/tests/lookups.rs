//! The order in which sources are tried.

use doh_resolver::addr::{IpAddr, SocketAddr};
use doh_resolver::doh::{resolve_doh_config, DohConfigStep, DohServerConfig, DohSettings};
use doh_resolver::error::DnsErrorKind;
use doh_resolver::lookup::{
    lookup_via_doh_first, lookup_via_doh_first_with_timeout, Answer, Attempt, Exhausted, Lookup,
    LookupEvent, LookupFailure, Plan, Progress, Source,
};
use doh_resolver::system_dns::SystemDnsResolver;
use hickory_proto::rr::rdata::{A, AAAA};

fn ip(s: &str) -> IpAddr {
    if s.contains(':') {
        IpAddr::V6(s.parse::<AAAA>().unwrap().0.into())
    } else {
        IpAddr::V4(s.parse::<A>().unwrap().0.into())
    }
}

fn config(url: &str, only: bool) -> DohServerConfig {
    let settings = DohSettings {
        url: url.to_owned(),
        bootstrap_ip: None,
        tls_name: None,
        only,
        ca_cert_path: None,
    };
    match resolve_doh_config(&settings) {
        Ok(DohConfigStep::Done(config)) => config,
        other => panic!("not complete: {:?}", other),
    }
}

/// Runs a plan, and lists the sources that were asked.
fn run(
    plan: Plan,
    mut ask: impl FnMut(Attempt) -> LookupEvent,
) -> (Vec<Source>, Result<Vec<IpAddr>, LookupFailure>) {
    let mut asked: Vec<Source> = Vec::new();
    let mut lookup = Lookup::start(plan);
    loop {
        let attempt = lookup.attempt();
        asked.push(attempt.source);
        match lookup.on_event(ask(attempt)) {
            Progress::Ask(next) => lookup = next,
            Progress::Done(answer) => return (asked, Ok(answer.into_ips())),
            Progress::Failed(failure) => return (asked, Err(failure)),
        }
    }
}

fn found(ips: &[IpAddr]) -> LookupEvent {
    LookupEvent::Answered(Answer::Ips(ips.to_vec()))
}

/// One request to the system resolver whose lookup never ends, counted.
fn stuck_request(
    resolver: &mut SystemDnsResolver,
    system_calls: &mut usize,
    fallback_calls: &mut usize,
    expected: &[IpAddr],
) -> Vec<IpAddr> {
    let plan = resolver.resolve(Source::System, Source::Resolver);
    let (_, result) = run(plan, |attempt| {
        if attempt.needs_slot {
            if resolver.request_slot() {
                *system_calls += 1;
            }
            assert_eq!(attempt.timeout_ms, Some(10));
            LookupEvent::TimedOut
        } else {
            *fallback_calls += 1;
            found(expected)
        }
    });
    result.unwrap()
}

#[test]
fn timed_out_system_lookup_is_not_retried() {
    let mut resolver = SystemDnsResolver::new(10);
    let mut system_calls: usize = 0;
    let mut fallback_calls: usize = 0;
    let expected = vec![ip("127.0.0.1")];

    let first =
        stuck_request(&mut resolver, &mut system_calls, &mut fallback_calls, &expected);
    let second =
        stuck_request(&mut resolver, &mut system_calls, &mut fallback_calls, &expected);

    assert_eq!(first, expected);
    assert_eq!(second, expected);
    assert_eq!(system_calls, 1);
    assert_eq!(fallback_calls, 2);

    // once the lookup ended, the system resolver can be used again
    resolver.end_lookup();
    stuck_request(&mut resolver, &mut system_calls, &mut fallback_calls, &expected);
    assert_eq!(system_calls, 2);
}

#[test]
fn successful_system_lookup_skips_hickory() {
    let mut resolver = SystemDnsResolver::new(10);
    let mut fallback_calls: usize = 0;
    let expected = vec![ip("127.0.0.1")];
    let system_result = expected.clone();

    let plan = resolver.resolve(Source::System, Source::Resolver);
    let (asked, addresses) = run(plan, |attempt| {
        if attempt.needs_slot {
            assert!(resolver.request_slot());
            found(&system_result)
        } else {
            fallback_calls += 1;
            found(&[])
        }
    });

    assert_eq!(addresses.unwrap(), expected);
    assert_eq!(asked, vec![Source::System]);
    assert_eq!(fallback_calls, 0);
}

#[test]
fn failed_system_lookup_falls_back() {
    let resolver = SystemDnsResolver::default();
    let plan = resolver.resolve(Source::NamespaceSystem, Source::Contextual);
    assert_eq!(plan.attempts[0].timeout_ms, Some(800));
    let (asked, addresses) = run(plan, |attempt| match attempt.source {
        Source::NamespaceSystem => LookupEvent::Failed("no such host".to_owned()),
        _ => found(&[ip("::1")]),
    });
    assert_eq!(asked, vec![Source::NamespaceSystem, Source::Contextual]);
    assert_eq!(addresses.unwrap(), vec![ip("::1")]);
}

#[test]
fn doh_failure_falls_back_when_prefer() {
    let config = config("https://1.1.1.1/dns-query", false);
    let plan =
        lookup_via_doh_first_with_timeout(&config, 50, Source::Doh, Some(Source::System));
    let (asked, result) = run(plan, |attempt| match attempt.source {
        Source::Doh => LookupEvent::Failed("DoH server unreachable".to_owned()),
        _ => found(&[ip("127.0.0.1")]),
    });
    assert_eq!(result.unwrap(), vec![ip("127.0.0.1")]);
    assert_eq!(asked, vec![Source::Doh, Source::System]);
}

#[test]
fn doh_failure_bails_when_only() {
    let config = config("https://1.1.1.1/dns-query", true);
    let plan =
        lookup_via_doh_first_with_timeout(&config, 50, Source::Doh, Some(Source::System));
    let (asked, result) = run(plan, |attempt| match attempt.source {
        Source::Doh => LookupEvent::Failed("DoH server unreachable".to_owned()),
        _ => found(&[ip("127.0.0.1")]),
    });
    assert!(result.is_err());
    assert_eq!(asked, vec![Source::Doh]);
    let error = result.unwrap_err().into_error("host");
    assert_eq!(error.kind, DnsErrorKind::DohOnlyLookupFailed);
    assert_eq!(
        error.message(),
        "DoH lookup failed and plaintext DNS is disabled (doh_only)"
    );
}

#[test]
fn doh_success_skips_plaintext_fallback() {
    let config = config("https://1.1.1.1/dns-query", false);
    let plan =
        lookup_via_doh_first_with_timeout(&config, 50, Source::Doh, Some(Source::System));
    let (_, result) = run(plan, |attempt| match attempt.source {
        Source::Doh => found(&[ip("192.0.2.1")]),
        _ => panic!("plaintext fallback must not be called"),
    });
    assert_eq!(result.unwrap(), vec![ip("192.0.2.1")]);
}

#[test]
fn doh_timeout_falls_back_when_prefer() {
    let config = config("https://1.1.1.1/dns-query", false);
    let plan =
        lookup_via_doh_first_with_timeout(&config, 10, Source::Doh, Some(Source::System));
    let (_, result) = run(plan, |attempt| match attempt.source {
        Source::Doh => {
            assert_eq!(attempt.timeout_ms, Some(10));
            LookupEvent::TimedOut
        }
        _ => found(&[ip("127.0.0.2")]),
    });
    assert_eq!(result.unwrap(), vec![ip("127.0.0.2")]);
}

#[test]
fn doh_timeout_bails_when_only() {
    let config = config("https://1.1.1.1/dns-query", true);
    let plan =
        lookup_via_doh_first_with_timeout(&config, 10, Source::Doh, Some(Source::System));
    let (_, result) = run(plan, |attempt| match attempt.source {
        Source::Doh => LookupEvent::TimedOut,
        _ => found(&[ip("127.0.0.2")]),
    });
    assert!(result.is_err());
}

#[test]
fn doh_lookups_have_five_seconds() {
    let config = config("https://1.1.1.1/dns-query", false);
    let plan = lookup_via_doh_first(Some(&config), Source::Doh, Some(Source::System));
    assert_eq!(plan.attempts[0].timeout_ms, Some(5000));
    assert_eq!(plan.attempts.len(), 2);

    let plan = lookup_via_doh_first(None, Source::Doh, Some(Source::System));
    assert_eq!(plan.attempts.len(), 1);
    assert_eq!(plan.attempts[0].timeout_ms, None);
    assert_eq!(plan.exhausted, Exhausted::LastFailure);
}

#[test]
fn missing_fallback_is_told() {
    let config = config("https://1.1.1.1/dns-query", false);
    let plan = lookup_via_doh_first(Some(&config), Source::Doh, None);
    let (asked, result) = run(plan, |_| LookupEvent::TimedOut);
    assert_eq!(asked, vec![Source::Doh]);
    let error = result.unwrap_err().into_error("host");
    assert_eq!(error.kind, DnsErrorKind::SystemResolverDisabled);
    assert_eq!(error.message(), "system resolver is disabled for this lookup");
}

#[test]
fn last_failure_is_told() {
    let cases = [
        (Source::Doh, DnsErrorKind::DohLookupFailed, "DoH lookup_ip failed, host: h"),
        (
            Source::Resolver,
            DnsErrorKind::ResolverLookupFailed,
            "hickory dns lookup_ip failed, host: h",
        ),
        (
            Source::Contextual,
            DnsErrorKind::ContextualLookupFailed,
            "contextual hickory lookup_ip failed, host: h",
        ),
        (Source::System, DnsErrorKind::SystemLookupFailed, "broken"),
        (Source::NamespaceSystem, DnsErrorKind::SystemLookupFailed, "broken"),
    ];
    for (source, kind, message) in cases {
        let plan = lookup_via_doh_first(None, source, None);
        let (_, result) = run(plan, |_| LookupEvent::Failed("broken".to_owned()));
        let error = result.unwrap_err().into_error("h");
        assert_eq!(error.kind, kind);
        assert_eq!(error.message(), message);
        let is_system = kind == DnsErrorKind::SystemLookupFailed;
        assert_eq!(error.cause.as_deref(), if is_system { None } else { Some("broken") });
    }
}

#[test]
fn answers_of_the_system_lose_their_ports() {
    let answer = Answer::Addrs(vec![
        SocketAddr::new(ip("192.0.2.1"), 7),
        SocketAddr::V6 { ip: 1, port: 8, flowinfo: 2, scope_id: 3 },
    ]);
    assert_eq!(answer.into_ips(), vec![ip("192.0.2.1"), ip("::1")]);
}
