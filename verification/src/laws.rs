//! What holds of the library as a whole.

use vstd::prelude::*;

use crate::addr::IpAddr;
use crate::context::ContextView;
use crate::doh::{
    ca_step, config_with_ca, doh_name_server_of_text, first_step, DohConfigStepView,
    DohServerConfigView, DohSettingsView,
};
use crate::doh_url::{
    doh_endpoint, doh_endpoint_of_text, doh_server, DohEndpointView, DOH_DEFAULT_PORT,
};
use crate::endpoint::{
    parsed_url, parts_of, url_port, DohUrlHostView, UrlPartsView,
};
use crate::error::{DnsErrorKind, DnsErrorView};
use crate::lookup::{
    bounded, exhausted_failure, is_system, progress, AnswerView, Attempt, LookupEventView,
    LookupFailureView, LookupView, PlanView, ProgressView, Source, DOH_LOOKUP_TIMEOUT_MS,
};
use crate::name_servers::{default_name_servers, NameServer, Protocol};
use crate::pem::{
    begin_marker, blocks_of_lines, certs_of, end_marker, first_fault, lemma_no_fault, pem_blocks,
    with_body, PemBlocksView,
};
use crate::resolver::resolver_servers;
use crate::runtime::{contextual_plan, process_plan, resolve_plan};
use crate::socket::{answer_addrs, socket_plan, target_of, SocketTargetView};
use crate::system_dns::{busy_after, starts, SlotEvent};
use crate::text::{lemma_line_end_is, trim, trimmed_lines};

pub mod config;
pub mod routes;
pub mod sockets;
pub mod texts;

verus! {

/// The attempts that a lookup makes when the given things come of them, one
/// after the other.
pub open spec fn asked(lookup: LookupView, events: Seq<LookupEventView>) -> Seq<Attempt>
    decreases events.len(),
{
    let now = seq![lookup.plan.attempts[lookup.running]];
    if events.len() == 0 {
        now
    } else {
        match progress(lookup, events[0]) {
            ProgressView::Ask(next) => now + asked(next, events.drop_first()),
            _ => now,
        }
    }
}

/// Where a lookup stands when the given things came of its attempts, one
/// after the other.
pub open spec fn outcome(lookup: LookupView, events: Seq<LookupEventView>) -> ProgressView
    decreases events.len(),
{
    if events.len() == 0 {
        ProgressView::Ask(lookup)
    } else {
        match progress(lookup, events[0]) {
            ProgressView::Ask(next) => outcome(next, events.drop_first()),
            end => end,
        }
    }
}

/// A lookup that begins with the first source of a plan.
pub open spec fn started(plan: PlanView) -> LookupView {
    LookupView { plan, running: 0 }
}

/// The attempts of a lookup from one of them on are made in the order of its
/// plan, none of them twice and none left out in between.
pub proof fn law_attempts_follow_plan(lookup: LookupView, events: Seq<LookupEventView>)
    requires
        lookup.wf(),
    ensures
        asked(lookup, events).is_prefix_of(lookup.plan.attempts.skip(lookup.running)),
    decreases events.len(),
{
    let rest = lookup.plan.attempts.skip(lookup.running);
    assert(rest[0] == lookup.plan.attempts[lookup.running]);
    if events.len() > 0 {
        if let ProgressView::Ask(next) = progress(lookup, events[0]) {
            law_attempts_follow_plan(next, events.drop_first());
            assert(rest == seq![rest[0]] + next.plan.attempts.skip(next.running));
        }
    }
}

/// The first answer ends a lookup: it is the result, and no source behind the
/// one that gave it is asked.
pub proof fn law_first_answer_wins(
    lookup: LookupView,
    events: Seq<LookupEventView>,
    answered: int,
)
    requires
        lookup.wf(),
        0 <= answered < events.len(),
        lookup.running + answered < lookup.plan.attempts.len(),
        forall|i: int| 0 <= i < answered ==> !(events[i] is Answered),
        events[answered] is Answered,
    ensures
        outcome(lookup, events) == ProgressView::Done(events[answered]->Answered_0),
        asked(lookup, events) == lookup.plan.attempts.subrange(
            lookup.running,
            lookup.running + answered + 1,
        ),
    decreases answered,
{
    let attempts = lookup.plan.attempts;
    if answered == 0 {
        assert(attempts.subrange(lookup.running, lookup.running + 1) == seq![
            attempts[lookup.running],
        ]);
    } else {
        let next = LookupView { running: lookup.running + 1, ..lookup };
        let later = events.drop_first();
        assert(progress(lookup, events[0]) == ProgressView::Ask(next));
        assert(forall|i: int| 0 <= i < later.len() ==> later[i] == events[i + 1]);
        law_first_answer_wins(next, later, answered - 1);
        assert(attempts.subrange(lookup.running, lookup.running + answered + 1) == seq![
            attempts[lookup.running],
        ] + attempts.subrange(next.running, lookup.running + answered + 1));
    }
}

/// A lookup without an answer asks every source of its plan, and then fails
/// with what the plan says.
pub proof fn law_unanswered_lookup_fails(lookup: LookupView, events: Seq<LookupEventView>)
    requires
        lookup.wf(),
        events.len() == lookup.plan.attempts.len() - lookup.running,
        forall|i: int| 0 <= i < events.len() ==> !(events[i] is Answered),
    ensures
        outcome(lookup, events) == ProgressView::Failed(
            exhausted_failure(
                LookupView { running: lookup.plan.attempts.len() - 1, ..lookup },
                events.last(),
            ),
        ),
        asked(lookup, events) == lookup.plan.attempts.skip(lookup.running),
    decreases events.len(),
{
    let attempts = lookup.plan.attempts;
    if events.len() == 1 {
        assert(attempts.skip(lookup.running) == seq![attempts[lookup.running]]);
    } else {
        let next = LookupView { running: lookup.running + 1, ..lookup };
        let later = events.drop_first();
        assert(progress(lookup, events[0]) == ProgressView::Ask(next));
        assert(forall|i: int| 0 <= i < later.len() ==> later[i] == events[i + 1]);
        law_unanswered_lookup_fails(next, later);
        assert(attempts.skip(lookup.running) == seq![attempts[lookup.running]] + attempts.skip(
            next.running,
        ));
    }
}

/// Where plaintext DNS is forbidden, no plan has the system resolver among
/// its sources, whatever a lookup is bound to.
pub proof fn law_doh_only_plans_avoid_system(
    context: ContextView,
    native_protection: bool,
    system_timeout_ms: u64,
    allow_system_resolver: bool,
)
    ensures
        resolve_plan(context, Some(true), native_protection, system_timeout_ms).avoids_system(),
        socket_plan(Some(true), allow_system_resolver).avoids_system(),
{
}

/// Where plaintext DNS is forbidden, a lookup never asks the system resolver,
/// whatever comes of its attempts.
pub proof fn law_doh_only_never_asks_system(
    context: ContextView,
    native_protection: bool,
    system_timeout_ms: u64,
    allow_system_resolver: bool,
    events: Seq<LookupEventView>,
)
    ensures
        ({
            let plan = resolve_plan(context, Some(true), native_protection, system_timeout_ms);
            forall|i: int|
                #![trigger asked(started(plan), events)[i]]
                0 <= i < asked(started(plan), events).len() ==> !is_system(
                    asked(started(plan), events)[i].source,
                )
        }),
        ({
            let plan = socket_plan(Some(true), allow_system_resolver);
            forall|i: int|
                #![trigger asked(started(plan), events)[i]]
                0 <= i < asked(started(plan), events).len() ==> !is_system(
                    asked(started(plan), events)[i].source,
                )
        }),
{
    lemma_asked_avoids_system(
        resolve_plan(context, Some(true), native_protection, system_timeout_ms),
        events,
    );
    lemma_asked_avoids_system(socket_plan(Some(true), allow_system_resolver), events);
}

proof fn lemma_asked_avoids_system(plan: PlanView, events: Seq<LookupEventView>)
    requires
        plan.wf(),
        plan.avoids_system(),
    ensures
        forall|i: int|
            #![trigger asked(started(plan), events)[i]]
            0 <= i < asked(started(plan), events).len() ==> !is_system(
                asked(started(plan), events)[i].source,
            ),
{
    law_attempts_follow_plan(started(plan), events);
    assert(plan.attempts.skip(0) == plan.attempts);
    assert forall|i: int|
        #![trigger asked(started(plan), events)[i]]
        0 <= i < asked(started(plan), events).len() implies !is_system(
        asked(started(plan), events)[i].source,
    ) by {
        assert(asked(started(plan), events)[i] == plan.attempts[i]);
    }
}

/// A lookup whose sockets have to be marked or protected never asks the
/// system resolver, which can do neither.
pub proof fn law_marked_lookup_never_asks_system(
    context: ContextView,
    only: Option<bool>,
    native_protection: bool,
    system_timeout_ms: u64,
    events: Seq<LookupEventView>,
)
    requires
        context.socket_mark is Some || native_protection,
    ensures
        ({
            let plan = resolve_plan(context, only, native_protection, system_timeout_ms);
            &&& plan.avoids_system()
            &&& forall|i: int|
                #![trigger asked(started(plan), events)[i]]
                0 <= i < asked(started(plan), events).len() ==> !is_system(
                    asked(started(plan), events)[i].source,
                )
        }),
{
    lemma_asked_avoids_system(
        resolve_plan(context, only, native_protection, system_timeout_ms),
        events,
    );
}

/// Where plaintext DNS is allowed, a lookup in a context asks the DoH server
/// first, for some time, and then goes on as it would without DoH.
pub proof fn law_contextual_doh_comes_first(
    context: ContextView,
    native_protection: bool,
    system_timeout_ms: u64,
)
    ensures
        ({
            let plain = contextual_plan(context, None, native_protection, system_timeout_ms);
            let plan = contextual_plan(context, Some(false), native_protection, system_timeout_ms);
            &&& plan.attempts == seq![bounded(Source::Contextual, DOH_LOOKUP_TIMEOUT_MS)]
                + plain.attempts
            &&& plan.exhausted == plain.exhausted
        }),
{
}

/// Where DoH is configured, a lookup that is bound to nothing asks it first
/// and, unless plaintext DNS is forbidden, the system resolver when DoH fails
/// or runs out of time. Where plaintext DNS is forbidden, it fails.
pub proof fn law_doh_failure_falls_back_or_fails(
    event: LookupEventView,
    only: bool,
    system_timeout_ms: u64,
)
    requires
        !(event is Answered),
    ensures
        ({
            let plan = process_plan(Some(only), system_timeout_ms);
            let next = progress(started(plan), event);
            &&& plan.attempts[0].source == Source::Doh
            &&& !only ==> next == ProgressView::Ask(LookupView { plan, running: 1 })
                && plan.attempts[1].source == Source::System
            &&& only ==> next is Failed
        }),
{
}

/// Where DoH is configured, a lookup gives it no more than the time for DoH
/// lookups, whatever the lookup is bound to. Where plaintext DNS is forbidden,
/// that is all: when the time is over, the lookup fails.
pub proof fn law_doh_lookup_ends_in_time(
    context: ContextView,
    only: bool,
    native_protection: bool,
    system_timeout_ms: u64,
    allow_system_resolver: bool,
)
    ensures
        ({
            let plan = resolve_plan(context, Some(only), native_protection, system_timeout_ms);
            &&& plan.attempts[0].timeout_ms == Some(DOH_LOOKUP_TIMEOUT_MS)
            &&& only ==> plan.attempts.len() == 1 && progress(
                started(plan),
                LookupEventView::TimedOut,
            ) is Failed
        }),
        ({
            let plan = socket_plan(Some(only), allow_system_resolver);
            &&& plan.attempts[0].timeout_ms == Some(DOH_LOOKUP_TIMEOUT_MS)
            &&& only ==> plan.attempts.len() == 1 && progress(
                started(plan),
                LookupEventView::TimedOut,
            ) is Failed
        }),
{
}

/// Where plaintext DNS is forbidden, a lookup in a context fails with what the
/// DoH lookup failed with, as it was told.
pub proof fn law_contextual_doh_failure_is_kept(
    context: ContextView,
    native_protection: bool,
    system_timeout_ms: u64,
    text: Seq<char>,
)
    ensures
        progress(
            started(contextual_plan(context, Some(true), native_protection, system_timeout_ms)),
            LookupEventView::Failed(text),
        ) == ProgressView::Failed(LookupFailureView::Source { source: Source::Contextual, text }),
{
}

/// Where plaintext DNS is forbidden, a resolver knows no name server but the
/// DoH server. So where that one is asked over https, all are.
pub proof fn law_doh_only_servers_are_https(doh: DohServerConfigView, system: Seq<NameServer>)
    requires
        doh.only,
        doh.name_server.protocol == Protocol::Https,
    ensures
        resolver_servers(Some(doh), system) == seq![doh.name_server],
        forall|i: int|
            0 <= i < resolver_servers(Some(doh), system).len() ==> (#[trigger] resolver_servers(
                Some(doh),
                system,
            )[i]).protocol == Protocol::Https,
{
}

/// Where plaintext DNS is allowed, a resolver knows the DoH server first, and
/// behind it the default name servers, which are asked over UDP, and those of
/// the system.
pub proof fn law_preferred_doh_keeps_plaintext_behind(
    doh: DohServerConfigView,
    system: Seq<NameServer>,
)
    requires
        !doh.only,
    ensures
        ({
            let servers = resolver_servers(Some(doh), system);
            &&& servers[0] == doh.name_server
            &&& servers.subrange(1, 3) == default_name_servers()
            &&& servers[1].protocol == Protocol::Udp
            &&& servers.skip(3) == system
        }),
{
    let servers = resolver_servers(Some(doh), system);
    assert(servers.subrange(1, 3) == default_name_servers());
    assert(servers.skip(3) == system);
    assert(servers[1] == servers.subrange(1, 3)[0]);
}

/// Without DoH a resolver knows the default name servers and those of the
/// system, and asks none over https that the system does not.
pub proof fn law_without_doh_servers_are_legacy(system: Seq<NameServer>)
    ensures
        resolver_servers(None, system) == default_name_servers() + system,
        resolver_servers(None, system).len() > 0,
        (forall|i: int|
            0 <= i < system.len() ==> (#[trigger] system[i]).protocol != Protocol::Https) ==> forall|
            i: int,
        |
            0 <= i < resolver_servers(None, system).len() ==> (#[trigger] resolver_servers(
                None,
                system,
            )[i]).protocol != Protocol::Https,
{
    let servers = resolver_servers(None, system);
    assert(servers == default_name_servers() + system);
    assert(default_name_servers().len() == 2);
    assert(forall|i: int| 2 <= i < servers.len() ==> servers[i] == system[i - 2]);
}

/// A url is accepted as that of a DoH server if and only if it has the scheme
/// https, no query string, and a host; its http path is then never empty.
pub proof fn law_doh_url_accepted(url: Seq<char>, parts: UrlPartsView)
    ensures
        doh_endpoint(url, parts) is Ok <==> parts.scheme == "https"@ && parts.query is None
            && parts.host is Some,
        doh_endpoint(url, parts) matches Ok(endpoint) ==> endpoint.path.len() > 0,
{
    reveal_strlit("/dns-query");
}

/// The port of a DoH server is the one that its url names, or else 443.
pub proof fn law_doh_port_is_named_or_default(text: Seq<char>)
    ensures
        doh_endpoint_of_text(text) matches Ok(endpoint) ==> {
            &&& parsed_url(text) is Ok
            &&& endpoint.port == (match url_port(parsed_url(text)->Ok_0) {
                Some(port) => port,
                None => DOH_DEFAULT_PORT,
            })
        },
{
    reveal_strlit("https");
    reveal_strlit("http");
    reveal_strlit("ws");
    if let Ok(url) = parsed_url(text) {
        if parts_of(url).scheme == "https"@ {
            assert("https"@.len() == 5 && "http"@.len() == 4 && "ws"@.len() == 2);
        }
    }
}

/// The TLS name and the http path of a DoH server do not depend on the pinned
/// address through which it is reached, and its socket address does not
/// depend on the override of its TLS name.
pub proof fn law_certificate_name_is_independent_of_route(
    endpoint: DohEndpointView,
    first_ip: IpAddr,
    second_ip: IpAddr,
    first_name: Option<Seq<char>>,
    second_name: Option<Seq<char>>,
)
    ensures
        ({
            let first = doh_server(endpoint, Some(first_ip), first_name);
            let second = doh_server(endpoint, Some(second_ip), first_name);
            let third = doh_server(endpoint, Some(first_ip), second_name);
            &&& first is Ok && second is Ok && third is Ok
            &&& first->Ok_0.tls_name == second->Ok_0.tls_name
            &&& first->Ok_0.endpoint == second->Ok_0.endpoint
            &&& first->Ok_0.ip == third->Ok_0.ip
            &&& first->Ok_0.port == third->Ok_0.port
        }),
{
}

/// A DoH server whose url names its address is reached at that address,
/// whatever is pinned, and needs no lookup to be configured, whether or not
/// plaintext DNS is forbidden.
pub proof fn law_address_needs_no_bootstrap(
    settings: DohSettingsView,
    endpoint: DohEndpointView,
    ip: IpAddr,
)
    requires
        endpoint.host == DohUrlHostView::Ip(ip),
    ensures
        first_step(settings, endpoint) is Ok,
        !(first_step(settings, endpoint)->Ok_0 is Bootstrap),
        doh_server(endpoint, settings.bootstrap_ip, settings.tls_name) matches Ok(server)
            && server.ip == ip && server.port == endpoint.port,
{
}

/// Where plaintext DNS is forbidden, the domain of a DoH server is never
/// looked up: without a pinned address, the settings are refused.
pub proof fn law_doh_only_never_bootstraps(settings: DohSettingsView, endpoint: DohEndpointView)
    requires
        settings.only,
    ensures
        first_step(settings, endpoint) matches Ok(step) ==> !(step is Bootstrap),
        endpoint.host is Domain && settings.bootstrap_ip is None ==> first_step(
            settings,
            endpoint,
        ) is Err && first_step(settings, endpoint)->Err_0.kind
            == DnsErrorKind::DohOnlyWithoutBootstrap,
{
}

/// A lookup for the configuration of a DoH server asks for nothing but the
/// domain and the port of the server itself, and only where no address is
/// pinned and plaintext DNS is allowed.
pub proof fn law_bootstrap_reveals_only_the_server(
    settings: DohSettingsView,
    endpoint: DohEndpointView,
    domain: Seq<char>,
    port: u16,
)
    requires
        first_step(settings, endpoint) == Ok::<DohConfigStepView, DnsErrorView>(
            DohConfigStepView::Bootstrap { domain, port },
        ),
    ensures
        endpoint.host == DohUrlHostView::Domain(domain),
        endpoint.port == port,
        settings.bootstrap_ip is None,
        !settings.only,
{
    if let Ok(server) = doh_server(endpoint, settings.bootstrap_ip, settings.tls_name) {
        assert(!(ca_step(settings, crate::doh::doh_name_server(server)) is Bootstrap));
    }
}

/// The name server that a step is about.
pub open spec fn step_server(step: DohConfigStepView) -> Option<NameServer> {
    match step {
        DohConfigStepView::Bootstrap { .. } => None,
        DohConfigStepView::ReadCa { name_server, .. } => Some(name_server),
        DohConfigStepView::Done(config) => Some(config.name_server),
    }
}

/// A DoH server is configured to be asked over https, and with what the
/// settings say about plaintext DNS, on whatever way its configuration is
/// completed.
pub proof fn law_configured_server_is_https(
    settings: DohSettingsView,
    endpoint: DohEndpointView,
    ip: IpAddr,
    path: Seq<char>,
    content: Result<Seq<char>, Seq<char>>,
)
    ensures
        first_step(settings, endpoint) matches Ok(step) ==> {
            &&& step_server(step) matches Some(server) ==> server.protocol == Protocol::Https
            &&& step matches DohConfigStepView::Done(config) ==> config.only == settings.only
        },
        doh_name_server_of_text(settings.url, Some(ip), settings.tls_name) matches Ok(server) ==> {
            &&& server.protocol == Protocol::Https
            &&& ca_step(settings, server) matches DohConfigStepView::Done(config) ==> config.only
                == settings.only
            &&& config_with_ca(server, settings.only, path, content) matches Ok(config) ==> {
                &&& config.name_server == server
                &&& config.only == settings.only
            }
        },
{
}

/// What a DoH server's configuration holds as certificates are certificates, on
/// whatever way the configuration is completed: it can be used to reach the
/// server without another test.
pub proof fn law_built_config_is_validated(
    settings: DohSettingsView,
    endpoint: DohEndpointView,
    server: NameServer,
    path: Seq<char>,
    content: Result<Seq<char>, Seq<char>>,
)
    ensures
        first_step(settings, endpoint) matches Ok(DohConfigStepView::Done(config))
            ==> config.validated(),
        ca_step(settings, server) matches DohConfigStepView::Done(config) ==> config.validated(),
        config_with_ca(server, settings.only, path, content) matches Ok(config)
            ==> config.validated(),
{
}

/// Settings that forbid plaintext DNS lead to a resolver whose only name server
/// is asked over https, whatever the system's configuration says, and whether
/// or not CA certificates are read.
pub proof fn law_doh_only_settings_know_only_https(
    settings: DohSettingsView,
    endpoint: DohEndpointView,
    server: NameServer,
    path: Seq<char>,
    content: Result<Seq<char>, Seq<char>>,
    config: DohServerConfigView,
    system: Seq<NameServer>,
)
    requires
        settings.only,
        first_step(settings, endpoint) == Ok::<DohConfigStepView, DnsErrorView>(
            DohConfigStepView::Done(config),
        ) || {
            &&& first_step(settings, endpoint) == Ok::<DohConfigStepView, DnsErrorView>(
                DohConfigStepView::ReadCa { path, name_server: server },
            )
            &&& config_with_ca(server, settings.only, path, content) == Ok::<
                DohServerConfigView,
                DnsErrorView,
            >(config)
        },
    ensures
        resolver_servers(Some(config), system) == seq![config.name_server],
        config.name_server.protocol == Protocol::Https,
{
    assert(config.only);
    law_doh_only_servers_are_https(config, system);
}

/// Looking up the domain of a DoH server leads to the configuration that
/// pinning the address found would have led to.
pub proof fn law_bootstrap_is_like_pinning(
    settings: DohSettingsView,
    endpoint: DohEndpointView,
    ip: IpAddr,
)
    requires
        doh_endpoint_of_text(settings.url) == Ok::<DohEndpointView, DnsErrorView>(endpoint),
        endpoint.host is Domain,
    ensures
        doh_name_server_of_text(settings.url, Some(ip), settings.tls_name) matches Ok(server)
            && first_step(
            DohSettingsView { bootstrap_ip: Some(ip), ..settings },
            endpoint,
        ) == Ok::<DohConfigStepView, DnsErrorView>(ca_step(settings, server)),
{
}

/// The port that a url names is kept, whether the url names an address or a
/// host, and in every address that is found through a resolver or by way of
/// DoH.
pub proof fn law_named_port_is_kept(
    url: Seq<char>,
    host: DohUrlHostView,
    port: u16,
    answer: AnswerView,
    via_doh: bool,
)
    ensures
        target_of(url, Some(host), Some(port)) matches Ok(target) && match target {
            SocketTargetView::Addr(addr) => addr.port_spec() == port,
            SocketTargetView::Name { port: kept, .. } => kept == port,
        },
        answer is Ips || via_doh ==> forall|i: int|
            0 <= i < answer_addrs(answer, port, via_doh).len() ==> (#[trigger] answer_addrs(
                answer,
                port,
                via_doh,
            )[i]).port_spec() == port,
{
}

/// How many lookups of the system resolver have started, if `busy` tells
/// whether one ran before.
pub open spec fn lookups_started(busy: bool, events: Seq<SlotEvent>) -> nat
    decreases events.len(),
{
    if events.len() == 0 {
        0
    } else {
        let first: nat = if starts(busy, events[0]) {
            1
        } else {
            0
        };
        first + lookups_started(busy_after(busy, events[0]), events.drop_first())
    }
}

/// How many times a lookup of the system resolver has ended.
pub open spec fn lookups_ended(events: Seq<SlotEvent>) -> nat
    decreases events.len(),
{
    if events.len() == 0 {
        0
    } else {
        let first: nat = if events[0] is Ended {
            1
        } else {
            0
        };
        first + lookups_ended(events.drop_first())
    }
}

/// Whether a lookup runs after a number of things happened.
pub open spec fn busy_after_all(busy: bool, events: Seq<SlotEvent>) -> bool
    decreases events.len(),
{
    if events.len() == 0 {
        busy
    } else {
        busy_after_all(busy_after(busy, events[0]), events.drop_first())
    }
}

/// Whether a lookup ends only where one runs.
pub open spec fn ends_what_runs(busy: bool, events: Seq<SlotEvent>) -> bool
    decreases events.len(),
{
    events.len() == 0 || {
        &&& events[0] is Ended ==> busy
        &&& ends_what_runs(busy_after(busy, events[0]), events.drop_first())
    }
}

/// How many lookups a slot stands for.
pub open spec fn running(busy: bool) -> int {
    if busy {
        1
    } else {
        0
    }
}

/// At most one lookup of the system resolver runs at a time: however many
/// requests come and give up, the lookups that started and have not ended are
/// none or one, as the slot tells. In particular, a lookup that ran out of
/// time is not started again before it ends.
pub proof fn law_one_system_lookup_at_a_time(busy: bool, events: Seq<SlotEvent>)
    ensures
        lookups_started(busy, events) <= lookups_ended(events) + 1 - running(busy),
        ends_what_runs(busy, events) ==> running(busy) + lookups_started(busy, events)
            - lookups_ended(events) == running(busy_after_all(busy, events)),
    decreases events.len(),
{
    if events.len() > 0 {
        law_one_system_lookup_at_a_time(busy_after(busy, events[0]), events.drop_first());
    }
}

/// Once the lookup that kept the slot has ended, the next request starts one.
pub proof fn law_slot_is_free_again(busy: bool)
    ensures
        starts(busy_after(busy, SlotEvent::Ended), SlotEvent::Requested),
{
}

/// A text made of lines, each ended by a line feed.
pub open spec fn text_of_lines(lines: Seq<Seq<char>>) -> Seq<char>
    decreases lines.len(),
{
    if lines.len() == 0 {
        Seq::empty()
    } else {
        lines[0].push('\n') + text_of_lines(lines.drop_first())
    }
}

/// The lines of a text are the ones that it was made of, without the white
/// space around them.
pub proof fn law_lines_read_back(lines: Seq<Seq<char>>)
    requires
        forall|i: int| 0 <= i < lines.len() ==> !(#[trigger] lines[i]).contains('\n'),
    ensures
        trimmed_lines(text_of_lines(lines)) == lines.map_values(|line: Seq<char>| trim(line)),
    decreases lines.len(),
{
    let trimmed = lines.map_values(|line: Seq<char>| trim(line));
    if lines.len() == 0 {
        assert(trimmed == Seq::<Seq<char>>::empty());
    } else {
        let rest = lines.drop_first();
        let text = text_of_lines(lines);
        let end = lines[0].len() as int;
        assert forall|i: int| 0 <= i < end implies text[i] != '\n' by {
            assert(text[i] == lines[0][i]);
        }
        assert(text[end] == '\n');
        lemma_line_end_is(text, end);
        assert(text.take(end) == lines[0]);
        assert(text.skip(end + 1) == text_of_lines(rest));
        law_lines_read_back(rest);
        assert(trimmed == seq![trim(lines[0])] + rest.map_values(|line: Seq<char>| trim(line)));
    }
}

/// Whether a line is a marker.
pub open spec fn is_marker(line: Seq<char>) -> bool {
    line == begin_marker() || line == end_marker()
}

/// Whether none of a list of lines is a marker.
pub open spec fn no_markers(lines: Seq<Seq<char>>) -> bool {
    forall|i: int| 0 <= i < lines.len() ==> !is_marker(#[trigger] lines[i])
}

/// The lines of a certificate between its markers.
pub open spec fn block_lines(body: Seq<Seq<char>>) -> Seq<Seq<char>> {
    seq![begin_marker()] + body + seq![end_marker()]
}

/// The lines of a list of certificates, one behind the other.
pub open spec fn all_block_lines(bodies: Seq<Seq<Seq<char>>>) -> Seq<Seq<char>>
    decreases bodies.len(),
{
    if bodies.len() == 0 {
        Seq::empty()
    } else {
        block_lines(bodies[0]) + all_block_lines(bodies.drop_first())
    }
}

/// The lines of a body, put together.
pub open spec fn put_together(lines: Seq<Seq<char>>) -> Seq<char>
    decreases lines.len(),
{
    if lines.len() == 0 {
        Seq::empty()
    } else {
        lines[0] + put_together(lines.drop_first())
    }
}

proof fn lemma_markers_differ()
    ensures
        begin_marker() != end_marker(),
{
    reveal_strlit("-----BEGIN CERTIFICATE-----");
    reveal_strlit("-----END CERTIFICATE-----");
    assert(begin_marker().len() != end_marker().len());
}

/// Lines before the first start marker are skipped.
pub proof fn law_text_outside_is_skipped(outside: Seq<Seq<char>>, lines: Seq<Seq<char>>)
    requires
        no_markers(outside),
    ensures
        blocks_of_lines(outside + lines, None) == blocks_of_lines(lines, None),
    decreases outside.len(),
{
    let all = outside + lines;
    if outside.len() == 0 {
        assert(all == lines);
    } else {
        let later = outside.drop_first();
        assert(all[0] == outside[0]);
        assert(all.drop_first() == later + lines);
        assert(no_markers(later)) by {
            assert(forall|i: int| 0 <= i < later.len() ==> later[i] == outside[i + 1]);
        }
        law_text_outside_is_skipped(later, lines);
    }
}

proof fn lemma_open_block(body: Seq<Seq<char>>, read: Seq<char>, lines: Seq<Seq<char>>)
    requires
        no_markers(body),
    ensures
        blocks_of_lines(body + seq![end_marker()] + lines, Some(read)) == with_body(
            read + put_together(body),
            blocks_of_lines(lines, None),
        ),
    decreases body.len(),
{
    lemma_markers_differ();
    let all = body + seq![end_marker()] + lines;
    if body.len() == 0 {
        assert(all[0] == end_marker());
        assert(all.drop_first() == lines);
        assert(read + put_together(body) == read);
    } else {
        let later = body.drop_first();
        assert(all[0] == body[0]);
        assert(all.drop_first() == later + seq![end_marker()] + lines);
        assert(no_markers(later)) by {
            assert(forall|i: int| 0 <= i < later.len() ==> later[i] == body[i + 1]);
        }
        lemma_open_block(later, read + body[0], lines);
        assert(read + body[0] + put_together(later) == read + put_together(body));
    }
}

/// A certificate that stands before other lines is read as the lines between
/// its markers, put together.
pub proof fn law_block_is_read(body: Seq<Seq<char>>, lines: Seq<Seq<char>>)
    requires
        no_markers(body),
    ensures
        blocks_of_lines(block_lines(body) + lines, None) == with_body(
            put_together(body),
            blocks_of_lines(lines, None),
        ),
{
    let all = block_lines(body) + lines;
    assert(all[0] == begin_marker());
    assert(all.drop_first() == body + seq![end_marker()] + lines);
    lemma_open_block(body, Seq::empty(), lines);
    assert(Seq::<char>::empty() + put_together(body) == put_together(body));
}

/// A list of certificates is read back, in order.
pub proof fn law_blocks_read_back(bodies: Seq<Seq<Seq<char>>>)
    requires
        forall|i: int| 0 <= i < bodies.len() ==> no_markers(#[trigger] bodies[i]),
    ensures
        blocks_of_lines(all_block_lines(bodies), None) == (PemBlocksView {
            bodies: bodies.map_values(|body: Seq<Seq<char>>| put_together(body)),
            stray_end: false,
        }),
    decreases bodies.len(),
{
    let read = bodies.map_values(|body: Seq<Seq<char>>| put_together(body));
    if bodies.len() == 0 {
        assert(read == Seq::<Seq<char>>::empty());
    } else {
        let later = bodies.drop_first();
        assert(forall|i: int| 0 <= i < later.len() ==> later[i] == bodies[i + 1]);
        law_blocks_read_back(later);
        law_block_is_read(bodies[0], all_block_lines(later));
        assert(read == seq![put_together(bodies[0])] + later.map_values(
            |body: Seq<Seq<char>>| put_together(body),
        ));
    }
}

/// A PEM text that lists certificates is read back, in order: each body is
/// its lines, without the white space around them, put together.
pub proof fn law_pem_text_reads_back(bodies: Seq<Seq<Seq<char>>>, text: Seq<Seq<char>>)
    requires
        forall|i: int| 0 <= i < text.len() ==> !(#[trigger] text[i]).contains('\n'),
        text.map_values(|line: Seq<char>| trim(line)) == all_block_lines(bodies),
        forall|i: int| 0 <= i < bodies.len() ==> no_markers(#[trigger] bodies[i]),
    ensures
        pem_blocks(text_of_lines(text)) == (PemBlocksView {
            bodies: bodies.map_values(|body: Seq<Seq<char>>| put_together(body)),
            stray_end: false,
        }),
{
    law_lines_read_back(text);
    law_blocks_read_back(bodies);
}

/// Where certificates are read, there is at least one, and one for each body.
pub proof fn law_certificates_are_never_empty(
    path: Seq<char>,
    decoded: Seq<Result<Seq<u8>, Seq<char>>>,
    stray_end: bool,
)
    ensures
        certs_of(path, decoded, stray_end) matches Ok(certs) ==> {
            &&& certs.len() > 0
            &&& certs.len() == decoded.len()
            &&& forall|i: int|
                0 <= i < certs.len() ==> decoded[i] == Ok::<Seq<u8>, Seq<char>>(#[trigger] certs[i])
        },
{
    if first_fault(decoded) is None {
        lemma_no_fault(decoded);
    }
}

} // verus!
