//! How the lookups of an instance are routed.

use vstd::prelude::*;

use crate::context::{
    process_default, ContextView, NetNS, RuntimeDnsIoContext, SocketContext,
};
use crate::doh::DohServerConfig;
use crate::error::{failure, DnsError, DnsErrorKind, DnsErrorView};
use crate::lookup::{
    bounded, doh_first, doh_mode, failure_error, lookup_via_doh_first, unbounded, Attempt,
    Exhausted, LookupFailure, Plan, PlanView, Source, DOH_LOOKUP_TIMEOUT_MS,
};
use crate::system_dns::{system_first, SystemDnsResolver, SystemDnsView};

verus! {

/// A question for the addresses or records of a host.
#[derive(Debug)]
pub struct DnsQuery {
    pub host: String,
    pub context: SocketContext,
}

/// Which resolver a question for records goes to.
#[derive(Debug)]
pub enum RecordRoute {
    /// The resolver of the process.
    Process,
    /// A resolver of its own, whose sockets are bound to the context. It is
    /// made for one question, so that its sockets do not outlive a namespace
    /// that is deleted and made anew.
    Contextual(RuntimeDnsIoContext),
}

/// What a [`RecordRoute`] says: the context that it is bound to, if any.
pub open spec fn route_view(route: RecordRoute) -> Option<ContextView> {
    match route {
        RecordRoute::Process => None,
        RecordRoute::Contextual(context) => Some(context@),
    }
}

/// The route for questions in a context.
pub open spec fn record_route_of(context: ContextView, native_protection: bool) -> Option<
    ContextView,
> {
    if process_default(context, native_protection) {
        None
    } else {
        Some(context)
    }
}

/// The plan for lookups that are bound to nothing.
pub open spec fn process_plan(only: Option<bool>, system_timeout_ms: u64) -> PlanView {
    match only {
        Some(_) => doh_first(only, Source::Doh, Some(Source::System)),
        None => system_first(system_timeout_ms, Source::System, Source::Resolver),
    }
}

/// The plan for lookups in a context, without DoH: the system's resolver can
/// be asked in a namespace, but cannot mark or protect its sockets.
pub open spec fn plain_contextual_plan(
    context: ContextView,
    native_protection: bool,
    system_timeout_ms: u64,
) -> PlanView {
    if context.socket_mark is Some || native_protection {
        PlanView {
            attempts: seq![unbounded(Source::Contextual)],
            exhausted: Exhausted::LastFailure,
        }
    } else {
        system_first(system_timeout_ms, Source::NamespaceSystem, Source::Contextual)
    }
}

/// The plan for lookups in a context. A contextual resolver asks the DoH
/// server, where there is one, for some time; it is all that is asked where
/// plaintext DNS is forbidden.
pub open spec fn contextual_plan(
    context: ContextView,
    only: Option<bool>,
    native_protection: bool,
    system_timeout_ms: u64,
) -> PlanView {
    let plain = plain_contextual_plan(context, native_protection, system_timeout_ms);
    match only {
        None => plain,
        Some(true) => PlanView {
            attempts: seq![bounded(Source::Contextual, DOH_LOOKUP_TIMEOUT_MS)],
            exhausted: Exhausted::LastFailure,
        },
        Some(false) => PlanView {
            attempts: seq![bounded(Source::Contextual, DOH_LOOKUP_TIMEOUT_MS)] + plain.attempts,
            exhausted: plain.exhausted,
        },
    }
}

/// The plan for lookups, whatever they are bound to.
pub open spec fn resolve_plan(
    context: ContextView,
    only: Option<bool>,
    native_protection: bool,
    system_timeout_ms: u64,
) -> PlanView {
    if process_default(context, native_protection) {
        process_plan(only, system_timeout_ms)
    } else {
        contextual_plan(context, only, native_protection, system_timeout_ms)
    }
}

/// A plan with one attempt, which fails with what that one fails with.
fn single_plan(attempt: Attempt) -> (plan: Plan)
    ensures
        plan@ == (PlanView { attempts: seq![attempt], exhausted: Exhausted::LastFailure }),
        plan@.wf(),
{
    let mut attempts: Vec<Attempt> = Vec::new();
    attempts.push(attempt);
    let plan = Plan { attempts, exhausted: Exhausted::LastFailure };
    assert(plan@.attempts =~= seq![attempt]);
    plan
}

/// A lookup of the addresses of a host.
#[derive(Debug)]
pub struct HostLookup {
    pub host: String,
    pub plan: Plan,
}

/// What a [`HostLookup`] says.
#[verifier::ext_equal]
pub struct HostLookupView {
    pub host: Seq<char>,
    pub plan: PlanView,
}

impl View for HostLookup {
    type V = HostLookupView;

    open spec fn view(&self) -> HostLookupView {
        HostLookupView { host: self.host@, plan: self.plan@ }
    }
}

impl HostLookup {
    /// What the failure of the lookup is told as.
    pub fn fail(&self, failure_of: LookupFailure) -> (error: DnsError)
        ensures
            error@ == failure_error(failure_of@, self@.host),
    {
        failure_of.into_error(self.host.as_str())
    }
}

/// The resolver of an instance.
#[derive(Debug)]
pub struct RuntimeDnsResolver {
    pub system_dns: SystemDnsResolver,
}

impl Default for RuntimeDnsResolver {
    fn default() -> (resolver: RuntimeDnsResolver)
        ensures
            resolver.system_dns@ == (SystemDnsView {
                busy: false,
                timeout_ms: crate::system_dns::SYSTEM_DNS_LOOKUP_TIMEOUT_MS,
            }),
    {
        let system_dns: SystemDnsResolver = SystemDnsResolver::default();
        RuntimeDnsResolver { system_dns }
    }
}

impl RuntimeDnsResolver {
    pub fn new() -> (resolver: RuntimeDnsResolver)
        ensures
            resolver.system_dns@ == (SystemDnsView {
                busy: false,
                timeout_ms: crate::system_dns::SYSTEM_DNS_LOOKUP_TIMEOUT_MS,
            }),
    {
        RuntimeDnsResolver::default()
    }

    /// Plans the lookup of a host that is bound to nothing.
    pub fn resolve_process_ips(&self, host: &str, doh: Option<&DohServerConfig>) -> (lookup:
        HostLookup)
        ensures
            lookup@ == (HostLookupView {
                host: host@,
                plan: process_plan(doh_mode(doh), self.system_dns@.timeout_ms),
            }),
            lookup.plan@.wf(),
    {
        let plan = if doh.is_some() {
            lookup_via_doh_first(doh, Source::Doh, Some(Source::System))
        } else {
            self.system_dns.resolve(Source::System, Source::Resolver)
        };
        HostLookup { host: host.to_owned(), plan }
    }

    /// Plans the lookup of a host in a context.
    pub fn resolve_contextual_ips(
        &self,
        context: &RuntimeDnsIoContext,
        host: &str,
        doh: Option<&DohServerConfig>,
        native_protection: bool,
    ) -> (lookup: HostLookup)
        ensures
            lookup@ == (HostLookupView {
                host: host@,
                plan: contextual_plan(
                    context@,
                    doh_mode(doh),
                    native_protection,
                    self.system_dns@.timeout_ms,
                ),
            }),
            lookup.plan@.wf(),
    {
        let host = host.to_owned();
        let doh_attempt = Attempt {
            source: Source::Contextual,
            timeout_ms: Some(DOH_LOOKUP_TIMEOUT_MS),
            needs_slot: false,
        };
        if let Some(doh) = doh {
            if doh.only {
                return HostLookup { host, plan: single_plan(doh_attempt) };
            }
        }
        let mut plan = if context.socket_mark.is_some() || native_protection {
            single_plan(
                Attempt { source: Source::Contextual, timeout_ms: None, needs_slot: false },
            )
        } else {
            self.system_dns.resolve(Source::NamespaceSystem, Source::Contextual)
        };
        let ghost plain = plan@;
        if doh.is_some() {
            plan.attempts.insert(0, doh_attempt);
            assert(plan@.attempts =~= seq![doh_attempt] + plain.attempts);
        }
        HostLookup { host, plan }
    }

    /// Plans the lookup of the addresses of a host, and tells the context in
    /// which it runs.
    pub fn resolve(
        &self,
        query: &DnsQuery,
        doh: Option<&DohServerConfig>,
        native_protection: bool,
    ) -> (r: (RuntimeDnsIoContext, HostLookup))
        ensures
            r.0@ == query.context@,
            r.1@ == (HostLookupView {
                host: query.host@,
                plan: resolve_plan(
                    query.context@,
                    doh_mode(doh),
                    native_protection,
                    self.system_dns@.timeout_ms,
                ),
            }),
            r.1.plan@.wf(),
    {
        let context = RuntimeDnsIoContext::from_socket_context(&query.context);
        let host = query.host.as_str();
        let lookup = if context.is_process_default(native_protection) {
            self.resolve_process_ips(host, doh)
        } else {
            self.resolve_contextual_ips(&context, host, doh, native_protection)
        };
        (context, lookup)
    }

    /// Finds the resolver for a question for TXT or SRV records.
    pub fn record_route(query: &DnsQuery, native_protection: bool) -> (route: RecordRoute)
        ensures
            route_view(route) == record_route_of(query.context@, native_protection),
    {
        let context = RuntimeDnsIoContext::from_socket_context(&query.context);
        if context.is_process_default(native_protection) {
            RecordRoute::Process
        } else {
            RecordRoute::Contextual(context)
        }
    }
}

/// How a lookup runs where there is no resolver but the system's.
#[derive(Debug)]
pub enum SystemOnlyRoute {
    /// Like any other lookup of the process.
    Process,
    /// From within a network namespace.
    Namespace(NetNS),
}

/// What a result of [`system_only_route`] tells: the namespace to enter, if
/// any.
pub open spec fn system_only_view(r: Result<SystemOnlyRoute, DnsError>) -> Result<
    Option<Seq<char>>,
    DnsErrorView,
> {
    match r {
        Ok(SystemOnlyRoute::Process) => Ok(None),
        Ok(SystemOnlyRoute::Namespace(netns)) => Ok(netns.name_spec()),
        Err(error) => Err(error@),
    }
}

/// How a lookup in a context runs where there is no resolver but the
/// system's: its sockets can neither be marked nor be protected.
pub open spec fn system_only(context: ContextView, native_protection: bool) -> Result<
    Option<Seq<char>>,
    DnsErrorView,
> {
    if context.socket_mark is Some || native_protection {
        Err(failure(DnsErrorKind::NeedsResolver, Seq::empty()))
    } else {
        Ok(context.netns)
    }
}

/// An error that is about nothing in particular.
fn bare_error(kind: DnsErrorKind) -> (error: DnsError)
    ensures
        error@ == failure(kind, Seq::empty()),
{
    DnsError { kind, subject: String::new(), cause: None }
}

/// Finds out how a lookup runs where there is no resolver but the system's.
pub fn system_only_route(query: &DnsQuery, native_protection: bool) -> (r: Result<
    SystemOnlyRoute,
    DnsError,
>)
    ensures
        system_only_view(r) == system_only(query.context@, native_protection),
        r matches Ok(SystemOnlyRoute::Namespace(netns)) ==> netns.name_spec() is Some,
{
    let context = RuntimeDnsIoContext::from_socket_context(&query.context);
    if context.socket_mark.is_some() || native_protection {
        return Err(bare_error(DnsErrorKind::NeedsResolver));
    }
    if context.netns.is_none() {
        return Ok(SystemOnlyRoute::Process);
    }
    Ok(SystemOnlyRoute::Namespace(context.netns()))
}

/// What a question for TXT records is answered where there is no resolver but
/// the system's.
pub fn system_only_txt() -> (error: DnsError)
    ensures
        error@ == failure(DnsErrorKind::TxtUnsupported, Seq::empty()),
{
    bare_error(DnsErrorKind::TxtUnsupported)
}

/// What a question for SRV records is answered where there is no resolver but
/// the system's.
pub fn system_only_srv() -> (error: DnsError)
    ensures
        error@ == failure(DnsErrorKind::SrvUnsupported, Seq::empty()),
{
    bare_error(DnsErrorKind::SrvUnsupported)
}

} // verus!
