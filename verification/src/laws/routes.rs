//! What holds of how lookups are routed, and of how they go on.

use vstd::prelude::*;

use crate::addr::{IpAddr, SocketAddr};
use crate::context::{
    connect_result, ConnectEvent, ConnectFailure, ContextView, NetNS, NetNamespace,
    RuntimeDnsIoContext, RuntimeDnsIoProvider, SocketContext, TcpBindOptions, UdpBindOptions, Wait,
};
use crate::doh::DohServerConfig;
use crate::error::{DnsError, DnsErrorKind};
use crate::lookup::{
    lookup_via_doh_first, lookup_via_doh_first_with_timeout, Answer, Attempt, Exhausted, Lookup,
    LookupEvent, LookupFailure, Plan, Progress, Source,
};
use crate::runtime::{
    contextual_plan, resolve_plan, system_only_route, system_only_srv, system_only_txt, DnsQuery,
    HostLookup, RecordRoute, RuntimeDnsResolver, SystemOnlyRoute,
};
use crate::system_dns::SystemDnsResolver;

verus! {

/// Whether the sockets of a lookup have to be bound to something: to a network
/// namespace, to a mark, or to what the platform protects.
pub open spec fn is_bound(context: SocketContext, native_protection: bool) -> bool {
    context.netns is Some || context.socket_mark is Some || native_protection
}

/// Whether the sockets of a lookup have to be marked or protected.
pub open spec fn is_marked(context: SocketContext, native_protection: bool) -> bool {
    context.socket_mark is Some || native_protection
}

/// Every source that a bound lookup asks is bound to its context: a resolver
/// whose sockets are, or the system's from within the namespace. Where a mark
/// or protection is wanted, it is the former.
pub proof fn law_bound_plans_ask_bound_sources(
    context: ContextView,
    only: Option<bool>,
    native_protection: bool,
    system_timeout_ms: u64,
    i: int,
)
    requires
        context.netns is Some || context.socket_mark is Some || native_protection,
        0 <= i < resolve_plan(context, only, native_protection, system_timeout_ms).attempts.len(),
    ensures
        ({
            let source = resolve_plan(
                context,
                only,
                native_protection,
                system_timeout_ms,
            ).attempts[i].source;
            &&& source == Source::Contextual || source == Source::NamespaceSystem
            &&& context.socket_mark is Some || native_protection ==> source == Source::Contextual
        }),
{
}

/// The same holds of a plan for a context, whether or not it binds anything.
pub proof fn law_contextual_plans_ask_bound_sources(
    context: ContextView,
    only: Option<bool>,
    native_protection: bool,
    system_timeout_ms: u64,
    i: int,
)
    requires
        0 <= i < contextual_plan(
            context,
            only,
            native_protection,
            system_timeout_ms,
        ).attempts.len(),
    ensures
        ({
            let source = contextual_plan(
                context,
                only,
                native_protection,
                system_timeout_ms,
            ).attempts[i].source;
            &&& source == Source::Contextual || source == Source::NamespaceSystem
            &&& context.socket_mark is Some || native_protection ==> source == Source::Contextual
        }),
{
}

/// A lookup asks for the host of its query, in the context of its query.
pub proof fn law_lookup_is_for_its_query(
    resolver: RuntimeDnsResolver,
    query: DnsQuery,
    doh: Option<&DohServerConfig>,
    native_protection: bool,
    r: (RuntimeDnsIoContext, HostLookup),
)
    requires
        call_ensures(RuntimeDnsResolver::resolve, (&resolver, &query, doh, native_protection), r),
    ensures
        r.1.host@ == query.host@,
        r.0.socket_mark == query.context.socket_mark,
        r.0.netns is Some <==> query.context.netns is Some,
        r.0.netns is Some ==> r.0.netns->0@ == query.context.netns->0.token_spec(),
{
}

/// What a bound lookup asks is bound to its context.
pub proof fn law_bound_lookup_asks_bound_sources(
    resolver: RuntimeDnsResolver,
    query: DnsQuery,
    doh: Option<&DohServerConfig>,
    native_protection: bool,
    r: (RuntimeDnsIoContext, HostLookup),
    i: int,
)
    requires
        call_ensures(RuntimeDnsResolver::resolve, (&resolver, &query, doh, native_protection), r),
        is_bound(query.context, native_protection),
        0 <= i < r.1.plan.attempts@.len(),
    ensures
        ({
            let source = r.1.plan.attempts@[i].source;
            &&& source != Source::Resolver && source != Source::Doh && source != Source::System
            &&& is_marked(query.context, native_protection) ==> source == Source::Contextual
        }),
{
}

/// What a lookup that is bound to nothing asks is shared by the process.
pub proof fn law_free_lookup_asks_shared_sources(
    resolver: RuntimeDnsResolver,
    query: DnsQuery,
    doh: Option<&DohServerConfig>,
    native_protection: bool,
    r: (RuntimeDnsIoContext, HostLookup),
    i: int,
)
    requires
        call_ensures(RuntimeDnsResolver::resolve, (&resolver, &query, doh, native_protection), r),
        !is_bound(query.context, native_protection),
        0 <= i < r.1.plan.attempts@.len(),
    ensures
        r.1.plan.attempts@[i].source != Source::Contextual,
        r.1.plan.attempts@[i].source != Source::NamespaceSystem,
{
}

/// How many sources a lookup asks at most: where plaintext DNS is forbidden, one.
/// Else the DoH server is asked in addition to the sources of a lookup in a
/// context, and in place of one of those of a free lookup. Without DoH, the
/// system resolver and another one are asked, or only the other one where the
/// sockets have to be marked or protected.
pub proof fn law_number_of_sources(
    resolver: RuntimeDnsResolver,
    query: DnsQuery,
    doh: Option<&DohServerConfig>,
    native_protection: bool,
    r: (RuntimeDnsIoContext, HostLookup),
)
    requires
        call_ensures(RuntimeDnsResolver::resolve, (&resolver, &query, doh, native_protection), r),
    ensures
        ({
            let n = r.1.plan.attempts@.len();
            let marked = is_marked(query.context, native_protection);
            let bound = is_bound(query.context, native_protection);
            &&& doh is Some && doh->0.only ==> n == 1
            &&& doh is None ==> n == (if marked {
                1int
            } else {
                2
            })
            &&& doh is Some && !doh->0.only && !bound ==> n == 2
            &&& doh is Some && !doh->0.only && bound ==> n == (if marked {
                2int
            } else {
                3
            })
        }),
{
}

/// Where DoH is configured, a lookup begins with it and gives it five seconds.
pub proof fn law_lookup_begins_with_doh(
    resolver: RuntimeDnsResolver,
    query: DnsQuery,
    doh: &DohServerConfig,
    native_protection: bool,
    r: (RuntimeDnsIoContext, HostLookup),
)
    requires
        call_ensures(
            RuntimeDnsResolver::resolve,
            (&resolver, &query, Some(doh), native_protection),
            r,
        ),
    ensures
        ({
            let first = r.1.plan.attempts@[0];
            &&& first.timeout_ms == Some(5000u64)
            &&& !first.needs_slot
            &&& first.source == (if is_bound(query.context, native_protection) {
                Source::Contextual
            } else {
                Source::Doh
            })
        }),
{
}

/// Where plaintext DNS is allowed, the last source may take its time, waits for
/// nobody, and tells what the lookup fails with. It is the resolver that suits
/// the context, but for a free lookup with DoH, which ends with the system's.
pub proof fn law_lookup_ends_with_a_fallback(
    resolver: RuntimeDnsResolver,
    query: DnsQuery,
    doh: Option<&DohServerConfig>,
    native_protection: bool,
    r: (RuntimeDnsIoContext, HostLookup),
)
    requires
        call_ensures(RuntimeDnsResolver::resolve, (&resolver, &query, doh, native_protection), r),
        doh is Some ==> !doh->0.only,
    ensures
        ({
            let last = r.1.plan.attempts@.last();
            &&& r.1.plan.exhausted == Exhausted::LastFailure
            &&& last.timeout_ms is None
            &&& !last.needs_slot
            &&& last.source == (if is_bound(query.context, native_protection) {
                Source::Contextual
            } else if doh is Some {
                Source::System
            } else {
                Source::Resolver
            })
        }),
{
}

/// A lookup asks the system resolver right before its last source, for the
/// system's time and in its slot, unless its sockets have to be marked or
/// protected, plaintext DNS is forbidden, or DoH has taken that place. It asks
/// from within the namespace where there is one.
pub proof fn law_system_is_asked_before_the_last_source(
    resolver: RuntimeDnsResolver,
    query: DnsQuery,
    doh: Option<&DohServerConfig>,
    native_protection: bool,
    r: (RuntimeDnsIoContext, HostLookup),
)
    requires
        call_ensures(RuntimeDnsResolver::resolve, (&resolver, &query, doh, native_protection), r),
        !is_marked(query.context, native_protection),
        doh is Some ==> !doh->0.only && query.context.netns is Some,
    ensures
        ({
            let attempts = r.1.plan.attempts@;
            let attempt = attempts[attempts.len() - 2];
            &&& attempt.source == (if query.context.netns is Some {
                Source::NamespaceSystem
            } else {
                Source::System
            })
            &&& attempt.timeout_ms == Some(resolver.system_dns@.timeout_ms)
            &&& attempt.needs_slot
        }),
{
}

/// What a lookup fails with where plaintext DNS is forbidden: that, or, in a
/// context, what the resolver failed with.
pub proof fn law_forbidden_plaintext_is_told(
    resolver: RuntimeDnsResolver,
    query: DnsQuery,
    doh: &DohServerConfig,
    native_protection: bool,
    r: (RuntimeDnsIoContext, HostLookup),
)
    requires
        call_ensures(
            RuntimeDnsResolver::resolve,
            (&resolver, &query, Some(doh), native_protection),
            r,
        ),
        doh.only,
    ensures
        r.1.plan.exhausted == (if is_bound(query.context, native_protection) {
            Exhausted::LastFailure
        } else {
            Exhausted::DohOnly
        }),
{
}

/// Only the system resolver has a slot to wait for, and whoever waits for it has
/// the system's time.
pub proof fn law_slot_is_for_the_system_only(
    resolver: RuntimeDnsResolver,
    query: DnsQuery,
    doh: Option<&DohServerConfig>,
    native_protection: bool,
    r: (RuntimeDnsIoContext, HostLookup),
    i: int,
)
    requires
        call_ensures(RuntimeDnsResolver::resolve, (&resolver, &query, doh, native_protection), r),
        0 <= i < r.1.plan.attempts@.len(),
        r.1.plan.attempts@[i].needs_slot,
    ensures
        ({
            let attempt = r.1.plan.attempts@[i];
            &&& attempt.source == Source::System || attempt.source == Source::NamespaceSystem
            &&& attempt.timeout_ms == Some(resolver.system_dns@.timeout_ms)
        }),
{
}

/// How a lookup is routed depends on whether there is a mark and a namespace,
/// not on which, nor on the host, nor on anything but the mode of DoH.
pub proof fn law_routing_ignores_names(
    resolver: RuntimeDnsResolver,
    first: DnsQuery,
    second: DnsQuery,
    first_doh: Option<&DohServerConfig>,
    second_doh: Option<&DohServerConfig>,
    native_protection: bool,
    r: (RuntimeDnsIoContext, HostLookup),
    s: (RuntimeDnsIoContext, HostLookup),
)
    requires
        call_ensures(
            RuntimeDnsResolver::resolve,
            (&resolver, &first, first_doh, native_protection),
            r,
        ),
        call_ensures(
            RuntimeDnsResolver::resolve,
            (&resolver, &second, second_doh, native_protection),
            s,
        ),
        first.context.netns is Some <==> second.context.netns is Some,
        first.context.socket_mark is Some <==> second.context.socket_mark is Some,
        first_doh is Some <==> second_doh is Some,
        first_doh is Some ==> first_doh->0.only == second_doh->0.only,
    ensures
        r.1.plan.attempts@ == s.1.plan.attempts@,
        r.1.plan.exhausted == s.1.plan.exhausted,
{
}

/// A lookup without a context is the lookup of a query that binds nothing.
pub proof fn law_process_lookup_is_that_of_a_free_query(
    resolver: RuntimeDnsResolver,
    query: DnsQuery,
    host: &str,
    doh: Option<&DohServerConfig>,
    r: (RuntimeDnsIoContext, HostLookup),
    lookup: HostLookup,
)
    requires
        call_ensures(RuntimeDnsResolver::resolve, (&resolver, &query, doh, false), r),
        call_ensures(RuntimeDnsResolver::resolve_process_ips, (&resolver, host, doh), lookup),
        !is_bound(query.context, false),
    ensures
        lookup.host@ == host@,
        lookup.plan.attempts@ == r.1.plan.attempts@,
        lookup.plan.exhausted == r.1.plan.exhausted,
{
}

/// A lookup in a context is the lookup of a query in that context, where it
/// binds something.
pub proof fn law_contextual_lookup_is_that_of_a_bound_query(
    resolver: RuntimeDnsResolver,
    query: DnsQuery,
    context: RuntimeDnsIoContext,
    host: &str,
    doh: Option<&DohServerConfig>,
    native_protection: bool,
    r: (RuntimeDnsIoContext, HostLookup),
    lookup: HostLookup,
)
    requires
        call_ensures(RuntimeDnsResolver::resolve, (&resolver, &query, doh, native_protection), r),
        call_ensures(
            RuntimeDnsResolver::resolve_contextual_ips,
            (&resolver, &context, host, doh, native_protection),
            lookup,
        ),
        is_bound(query.context, native_protection),
        context.netns is Some <==> query.context.netns is Some,
        context.socket_mark is Some <==> query.context.socket_mark is Some,
    ensures
        lookup.host@ == host@,
        lookup.plan.attempts@ == r.1.plan.attempts@,
        lookup.plan.exhausted == r.1.plan.exhausted,
{
}

/// A lookup in a context that binds nothing goes like one in a namespace.
pub proof fn law_contextual_lookup_without_a_namespace(
    resolver: RuntimeDnsResolver,
    first: RuntimeDnsIoContext,
    second: RuntimeDnsIoContext,
    host: &str,
    doh: Option<&DohServerConfig>,
    native_protection: bool,
    r: HostLookup,
    s: HostLookup,
)
    requires
        call_ensures(
            RuntimeDnsResolver::resolve_contextual_ips,
            (&resolver, &first, host, doh, native_protection),
            r,
        ),
        call_ensures(
            RuntimeDnsResolver::resolve_contextual_ips,
            (&resolver, &second, host, doh, native_protection),
            s,
        ),
        first.socket_mark is Some <==> second.socket_mark is Some,
    ensures
        r.plan.attempts@ == s.plan.attempts@,
        r.plan.exhausted == s.plan.exhausted,
        r.host@ == s.host@,
{
}

/// A new resolver gives the system 800 milliseconds.
pub proof fn law_new_resolver_is_free(resolver: RuntimeDnsResolver)
    requires
        call_ensures(RuntimeDnsResolver::new, (), resolver),
    ensures
        resolver.system_dns@.timeout_ms == 800,
        !resolver.system_dns@.busy,
{
}

/// A request for the slot starts a lookup if and only if none runs; one runs
/// afterwards. The time limit stays.
pub proof fn law_free_slot_is_granted(resolver: &mut SystemDnsResolver, started: bool)
    requires
        call_ensures(SystemDnsResolver::request_slot, (resolver,), started),
    ensures
        started <==> !old(resolver)@.busy,
        final(resolver)@.busy,
        final(resolver)@.timeout_ms == old(resolver)@.timeout_ms,
{
}

/// Once a lookup has ended, none runs. The time limit stays.
pub proof fn law_ended_lookup_frees_the_slot(resolver: &mut SystemDnsResolver)
    requires
        call_ensures(SystemDnsResolver::end_lookup, (resolver,), ()),
    ensures
        !final(resolver)@.busy,
        final(resolver)@.timeout_ms == old(resolver)@.timeout_ms,
{
}

/// A system resolver has the time limit that it was made with.
pub proof fn law_system_resolver_keeps_its_time(timeout_ms: u64, resolver: SystemDnsResolver)
    requires
        call_ensures(SystemDnsResolver::new, (timeout_ms,), resolver),
    ensures
        resolver@.timeout_ms == timeout_ms,
        !resolver@.busy,
{
}

/// A lookup through the system resolver asks it first, in its slot and for its
/// time, and then the fallback, without a limit.
pub proof fn law_system_lookup_has_one_fallback(
    resolver: SystemDnsResolver,
    system_lookup: Source,
    fallback_lookup: Source,
    plan: Plan,
)
    requires
        call_ensures(SystemDnsResolver::resolve, (&resolver, system_lookup, fallback_lookup), plan),
    ensures
        plan.attempts@.len() == 2,
        plan.attempts@[0].source == system_lookup,
        plan.attempts@[0].timeout_ms == Some(resolver@.timeout_ms),
        plan.attempts@[0].needs_slot,
        plan.attempts@[1].source == fallback_lookup,
        plan.attempts@[1].timeout_ms is None,
        !plan.attempts@[1].needs_slot,
        plan.exhausted == Exhausted::LastFailure,
{
}

/// A DoH lookup with a limit is tried first and for that time. Its fallback comes
/// next, without a limit, if there is one and plaintext DNS is allowed; else the
/// lookup says what was missing.
pub proof fn law_limited_doh_comes_first(
    doh: &DohServerConfig,
    timeout_ms: u64,
    doh_lookup: Source,
    fallback: Option<Source>,
    plan: Plan,
)
    requires
        call_ensures(
            lookup_via_doh_first_with_timeout,
            (doh, timeout_ms, doh_lookup, fallback),
            plan,
        ),
    ensures
        plan.attempts@[0].source == doh_lookup,
        plan.attempts@[0].timeout_ms == Some(timeout_ms),
        forall|i: int| 0 <= i < plan.attempts@.len() ==> !(#[trigger] plan.attempts@[i]).needs_slot,
        plan.attempts@.len() == 2 <==> !doh.only && fallback is Some,
        plan.attempts@.len() == 1 <==> doh.only || fallback is None,
        plan.attempts@.len() == 2 ==> plan.attempts@[1].source == fallback->0
            && plan.attempts@[1].timeout_ms is None,
        doh.only <==> plan.exhausted == Exhausted::DohOnly,
        !doh.only && fallback is None <==> plan.exhausted == Exhausted::SystemDisabled,
{
}

/// With DoH, a lookup is one with a limit of five seconds. Without, it asks the
/// one source without a limit, and never falls back.
pub proof fn law_doh_comes_first(
    doh: &DohServerConfig,
    doh_lookup: Source,
    fallback: Option<Source>,
    with: Plan,
    limited: Plan,
    without: Plan,
)
    requires
        call_ensures(lookup_via_doh_first, (Some(doh), doh_lookup, fallback), with),
        call_ensures(
            lookup_via_doh_first_with_timeout,
            (doh, 5000u64, doh_lookup, fallback),
            limited,
        ),
        call_ensures(
            lookup_via_doh_first,
            (None::<&DohServerConfig>, doh_lookup, fallback),
            without,
        ),
    ensures
        with.attempts@ == limited.attempts@,
        with.exhausted == limited.exhausted,
        without.attempts@.len() == 1,
        without.attempts@[0].source == doh_lookup,
        without.attempts@[0].timeout_ms is None,
        !without.attempts@[0].needs_slot,
        without.exhausted == Exhausted::LastFailure,
{
}

/// A lookup begins with the first attempt of its plan.
pub proof fn law_lookup_starts_at_the_front(plan: Plan, lookup: Lookup, attempt: Attempt)
    requires
        plan.attempts@.len() > 0,
        call_ensures(Lookup::start, (plan,), lookup),
        call_ensures(Lookup::attempt, (&lookup,), attempt),
    ensures
        lookup.running == 0,
        lookup.plan.attempts@ == plan.attempts@,
        lookup.plan.exhausted == plan.exhausted,
        attempt == plan.attempts@[0],
{
}

/// The attempt under way is the one at the place where the lookup stands.
pub proof fn law_attempt_is_the_running_one(lookup: Lookup, attempt: Attempt)
    requires
        lookup.running < lookup.plan.attempts@.len(),
        call_ensures(Lookup::attempt, (&lookup,), attempt),
    ensures
        attempt == lookup.plan.attempts@[lookup.running as int],
{
}

/// An answer ends a lookup, and is its result as it came.
pub proof fn law_answer_ends_lookup(lookup: Lookup, answer: Answer, next: Progress)
    requires
        lookup.running < lookup.plan.attempts@.len(),
        call_ensures(Lookup::on_event, (lookup, LookupEvent::Answered(answer)), next),
    ensures
        next is Done,
        answer matches Answer::Ips(ips) ==> next->Done_0 is Ips && next->Done_0->Ips_0@ == ips@,
        answer matches Answer::Addrs(addrs) ==> next->Done_0 is Addrs && next->Done_0->Addrs_0@
            == addrs@,
{
}

/// Without an answer, a lookup goes on with the next attempt of its plan, if
/// there is one.
pub proof fn law_next_source_is_asked(lookup: Lookup, event: LookupEvent, next: Progress)
    requires
        lookup.running + 1 < lookup.plan.attempts@.len(),
        !(event is Answered),
        call_ensures(Lookup::on_event, (lookup, event), next),
    ensures
        next is Ask,
        next->Ask_0.running == lookup.running + 1,
        next->Ask_0.plan.attempts@ == lookup.plan.attempts@,
        next->Ask_0.plan.exhausted == lookup.plan.exhausted,
{
}

/// Without an answer from the last source, a lookup fails: because plaintext DNS
/// is forbidden or the system resolver may not be used, where its plan says so,
/// and else with what the last source said, or with its running out of time.
pub proof fn law_last_failure_is_told(lookup: Lookup, event: LookupEvent, next: Progress)
    requires
        lookup.running + 1 == lookup.plan.attempts@.len(),
        !(event is Answered),
        call_ensures(Lookup::on_event, (lookup, event), next),
    ensures
        next is Failed,
        next->Failed_0 is DohOnly <==> lookup.plan.exhausted == Exhausted::DohOnly,
        next->Failed_0 is SystemDisabled <==> lookup.plan.exhausted == Exhausted::SystemDisabled,
        lookup.plan.exhausted == Exhausted::LastFailure ==> match event {
            LookupEvent::Failed(said) => {
                &&& next->Failed_0 is Source
                &&& next->Failed_0->text@ == said@
                &&& next->Failed_0->Source_source == lookup.plan.attempts@.last().source
            },
            _ => {
                &&& next->Failed_0 is TimedOut
                &&& next->Failed_0->TimedOut_source == lookup.plan.attempts@.last().source
            },
        },
{
}

/// The addresses in an answer are those that were found, in order, none added
/// and none left out.
pub proof fn law_answer_keeps_its_addresses(answer: Answer, ips: Vec<IpAddr>)
    requires
        call_ensures(Answer::into_ips, (answer,), ips),
    ensures
        answer matches Answer::Ips(found) ==> ips@ == found@,
        answer matches Answer::Addrs(found) ==> ips@.len() == found@.len() && forall|i: int|
            0 <= i < found@.len() ==> (match found@[i] {
                SocketAddr::V4 { ip, .. } => #[trigger] ips@[i] == IpAddr::V4(ip),
                SocketAddr::V6 { ip, .. } => ips@[i] == IpAddr::V6(ip),
            }),
{
}

/// The failure of a resolver names the host and keeps what the resolver said;
/// that of the system is what the system said.
pub proof fn law_source_failure_is_told(
    source: Source,
    text: String,
    host: &str,
    error: DnsError,
)
    requires
        call_ensures(
            LookupFailure::into_error,
            (LookupFailure::Source { source, text }, host),
            error,
        ),
    ensures
        source == Source::System || source == Source::NamespaceSystem ==> error.kind
            == DnsErrorKind::SystemLookupFailed && error.subject@ == text@ && error.cause is None,
        source == Source::Doh || source == Source::Resolver || source == Source::Contextual ==> {
            &&& error.subject@ == host@
            &&& error.cause is Some
            &&& error.cause->0@ == text@
        },
        source == Source::Doh ==> error.kind == DnsErrorKind::DohLookupFailed,
        source == Source::Resolver ==> error.kind == DnsErrorKind::ResolverLookupFailed,
        source == Source::Contextual ==> error.kind == DnsErrorKind::ContextualLookupFailed,
{
}

/// The other failures of a lookup are told by their kind alone; running out of
/// time names the host.
pub proof fn law_other_failures_are_told(failure_of: LookupFailure, host: &str, error: DnsError)
    requires
        call_ensures(LookupFailure::into_error, (failure_of, host), error),
        !(failure_of is Source),
    ensures
        error.cause is None,
        failure_of is DohOnly ==> error.kind == DnsErrorKind::DohOnlyLookupFailed
            && error.subject@.len() == 0,
        failure_of is SystemDisabled ==> error.kind == DnsErrorKind::SystemResolverDisabled
            && error.subject@.len() == 0,
        failure_of is TimedOut ==> error.kind == DnsErrorKind::LookupTimedOut && error.subject@
            == host@,
{
}

/// The failure of a lookup of a host is told with that host.
pub proof fn law_host_lookup_fails_with_its_host(
    lookup: HostLookup,
    host: &str,
    failure_of: LookupFailure,
    error: DnsError,
    told: DnsError,
)
    requires
        lookup.host@ == host@,
        call_ensures(HostLookup::fail, (&lookup, failure_of), error),
        call_ensures(LookupFailure::into_error, (failure_of, host), told),
    ensures
        error.kind == told.kind,
        error.subject@ == told.subject@,
        error.cause is Some <==> told.cause is Some,
        error.cause is Some ==> error.cause->0@ == told.cause->0@,
{
}

/// A question for records goes to the resolver of the process if and only if its
/// context binds nothing. Else it goes to one that is bound to just that context.
pub proof fn law_records_are_asked_for_in_context(
    query: DnsQuery,
    native_protection: bool,
    route: RecordRoute,
)
    requires
        call_ensures(RuntimeDnsResolver::record_route, (&query, native_protection), route),
    ensures
        route is Process <==> !is_bound(query.context, native_protection),
        route matches RecordRoute::Contextual(context) ==> {
            &&& context.socket_mark == query.context.socket_mark
            &&& context.netns is Some <==> query.context.netns is Some
            &&& context.netns is Some ==> context.netns->0@ == query.context.netns->0.token_spec()
        },
{
}

/// Without a resolver but the system's, a lookup is refused if and only if its
/// sockets have to be marked or protected. Else it runs in the namespace of its
/// context, if there is one.
pub proof fn law_system_alone_refuses_marks(
    query: DnsQuery,
    native_protection: bool,
    r: Result<SystemOnlyRoute, DnsError>,
)
    requires
        call_ensures(system_only_route, (&query, native_protection), r),
    ensures
        r is Err <==> is_marked(query.context, native_protection),
        r is Err ==> r->Err_0.kind == DnsErrorKind::NeedsResolver && r->Err_0.subject@.len() == 0,
        r is Ok ==> (r->Ok_0 is Process <==> query.context.netns is None),
        r matches Ok(SystemOnlyRoute::Namespace(netns)) ==> netns.name_spec() == Some(
            query.context.netns->0.token_spec(),
        ),
{
}

/// Without a resolver but the system's, records cannot be asked for.
pub proof fn law_system_alone_has_no_records(txt: DnsError, srv: DnsError)
    requires
        call_ensures(system_only_txt, (), txt),
        call_ensures(system_only_srv, (), srv),
    ensures
        txt.kind == DnsErrorKind::TxtUnsupported,
        srv.kind == DnsErrorKind::SrvUnsupported,
        txt.subject@.len() == 0,
        srv.subject@.len() == 0,
{
}

/// What a lookup keeps of a socket context is its namespace and its mark, and
/// the sockets of the lookup get them back.
pub proof fn law_context_is_kept(
    context: SocketContext,
    io_context: RuntimeDnsIoContext,
    back: SocketContext,
)
    requires
        call_ensures(RuntimeDnsIoContext::from_socket_context, (&context,), io_context),
        call_ensures(RuntimeDnsIoContext::socket_context, (&io_context,), back),
    ensures
        io_context.socket_mark == context.socket_mark,
        back.socket_mark == context.socket_mark,
        io_context.netns is Some <==> context.netns is Some,
        back.netns is Some <==> context.netns is Some,
        context.netns is Some ==> io_context.netns->0@ == context.netns->0.token_spec()
            && back.netns->0.token_spec() == context.netns->0.token_spec(),
{
}

/// A socket context is made of what it is given, each part by itself.
pub proof fn law_socket_context_is_made_of_its_parts(
    context: SocketContext,
    netns: Option<NetNamespace>,
    socket_mark: Option<u32>,
    with_netns: SocketContext,
    with_mark: SocketContext,
)
    requires
        call_ensures(SocketContext::with_netns, (context, netns), with_netns),
        call_ensures(SocketContext::with_socket_mark, (context, socket_mark), with_mark),
    ensures
        with_netns.socket_mark == context.socket_mark,
        with_netns.netns is Some <==> netns is Some,
        netns is Some ==> with_netns.netns->0.token_spec() == netns->0.token_spec(),
        with_mark.socket_mark == socket_mark,
        with_mark.netns is Some <==> context.netns is Some,
        context.netns is Some ==> with_mark.netns->0.token_spec() == context.netns->0.token_spec(),
{
}

/// A namespace keeps the name that it was made with.
pub proof fn law_namespace_keeps_its_name(
    token: String,
    namespace: NetNamespace,
    token_back: &str,
    name: Option<String>,
    netns: NetNS,
    name_back: Option<String>,
)
    requires
        call_ensures(NetNamespace::new, (token,), namespace),
        call_ensures(NetNamespace::token, (&namespace,), token_back),
        call_ensures(NetNS::new, (name,), netns),
        call_ensures(NetNS::name, (&netns,), name_back),
    ensures
        token_back@ == token@,
        name_back is Some <==> name is Some,
        name is Some ==> name_back->0@ == name->0@,
{
}

/// A copy of a context binds the same.
pub proof fn law_context_is_copied(context: RuntimeDnsIoContext, copy: RuntimeDnsIoContext)
    requires
        call_ensures(RuntimeDnsIoContext::clone, (&context,), copy),
    ensures
        copy.socket_mark == context.socket_mark,
        copy.netns is Some <==> context.netns is Some,
        copy.netns is Some ==> copy.netns->0@ == context.netns->0@,
{
}

/// The namespace to enter is that of the context.
pub proof fn law_namespace_is_that_of_the_context(context: RuntimeDnsIoContext, netns: NetNS)
    requires
        call_ensures(RuntimeDnsIoContext::netns, (&context,), netns),
    ensures
        netns.name_spec() is Some <==> context.netns is Some,
        context.netns is Some ==> netns.name_spec()->0 == context.netns->0@,
{
}

/// A context is the default of the process if and only if it binds nothing and
/// the platform protects nothing.
pub proof fn law_default_binds_nothing(
    context: RuntimeDnsIoContext,
    native_protection: bool,
    r: bool,
)
    requires
        call_ensures(RuntimeDnsIoContext::is_process_default, (&context, native_protection), r),
    ensures
        r <==> context.netns is None && context.socket_mark is None && !native_protection,
{
}

/// The sockets of a contextual resolver are bound to its context, at the address
/// that is asked for. TCP sockets are bound to no device by name, and do not
/// share their address.
pub proof fn law_sockets_are_bound_to_the_context(
    provider: RuntimeDnsIoProvider,
    bind_addr: Option<SocketAddr>,
    local_addr: SocketAddr,
    tcp: TcpBindOptions,
    udp: UdpBindOptions,
)
    requires
        call_ensures(RuntimeDnsIoProvider::connect_tcp, (&provider, bind_addr), tcp),
        call_ensures(RuntimeDnsIoProvider::bind_udp, (&provider, local_addr), udp),
    ensures
        tcp.context.socket_mark == provider.context.socket_mark,
        udp.context.socket_mark == provider.context.socket_mark,
        tcp.context.netns is Some <==> provider.context.netns is Some,
        udp.context.netns is Some <==> provider.context.netns is Some,
        provider.context.netns is Some ==> tcp.context.netns->0.token_spec()
            == provider.context.netns->0@ && udp.context.netns->0.token_spec()
            == provider.context.netns->0@,
        tcp.local_addr == bind_addr,
        udp.local_addr == Some(local_addr),
        tcp.bind_device is Some,
        tcp.bind_device->0@.len() == 0,
        !tcp.reuse_addr,
{
}

/// A connection may take as long as its caller says, and else five seconds.
pub proof fn law_connection_has_its_time(wait: Wait, asked: Wait, unasked: Wait)
    requires
        call_ensures(RuntimeDnsIoProvider::connect_wait, (Some(wait),), asked),
        call_ensures(RuntimeDnsIoProvider::connect_wait, (None::<Wait>,), unasked),
    ensures
        asked == wait,
        unasked.secs == 5,
        unasked.nanos == 0,
{
}

/// A connection that is made in time is what connecting gives, a failure in time
/// is kept, and running out of time is told as such.
pub proof fn law_connection_gives_what_came<S, E>(
    event: ConnectEvent<S, E>,
    r: Result<S, ConnectFailure<E>>,
)
    requires
        call_ensures(connect_result::<S, E>, (event,), r),
    ensures
        r is Ok <==> event is Connected,
        r is Ok ==> r->Ok_0 == event->Connected_0,
        r is Err ==> (r->Err_0 is TimedOut <==> event is TimedOut),
        r is Err && event is Failed ==> r->Err_0->Failed_0 == event->Failed_0,
{
}

} // verus!
