//! The socket addresses that a url stands for.

use vstd::prelude::*;

use crate::addr::{ips_of, socket_addr, with_port, IpAddr, SocketAddr};
use crate::doh::DohServerConfig;
use crate::endpoint::{
    host_of, host_of_url, port_of_url, text_of_url, url_host, url_port, url_text, DohUrlHost,
    DohUrlHostView,
};
use crate::error::{failure, DnsError, DnsErrorKind, DnsErrorView};
use crate::lookup::{
    answer_ips, doh_first, doh_mode, failure_error, lookup_via_doh_first, unbounded, Answer,
    AnswerView, Attempt, Exhausted, LookupFailure, Plan, PlanView, Source,
};
use crate::text::{decimal, push_decimal};

verus! {

/// What a url stands for: an address, or a host whose addresses have to be
/// looked up.
#[derive(Debug)]
pub enum SocketTarget {
    Addr(SocketAddr),
    Name { host: String, port: u16 },
}

/// What a [`SocketTarget`] says.
#[verifier::ext_equal]
pub enum SocketTargetView {
    Addr(SocketAddr),
    Name { host: Seq<char>, port: u16 },
}

impl View for SocketTarget {
    type V = SocketTargetView;

    open spec fn view(&self) -> SocketTargetView {
        match *self {
            SocketTarget::Addr(addr) => SocketTargetView::Addr(addr),
            SocketTarget::Name { host, port } => SocketTargetView::Name { host: host@, port },
        }
    }
}

/// What a result of [`socket_target`] tells.
pub open spec fn target_view(r: Result<SocketTarget, DnsError>) -> Result<
    SocketTargetView,
    DnsErrorView,
> {
    match r {
        Ok(target) => Ok(target@),
        Err(error) => Err(error@),
    }
}

/// What a host and a port stand for. `url` is the text of the url that they
/// are from.
pub open spec fn target_of(
    url: Seq<char>,
    host: Option<DohUrlHostView>,
    port: Option<u16>,
) -> Result<SocketTargetView, DnsErrorView> {
    match (host, port) {
        (Some(DohUrlHostView::Ip(ip)), Some(port)) => Ok(
            SocketTargetView::Addr(socket_addr(ip, port)),
        ),
        (Some(DohUrlHostView::Domain(host)), Some(port)) => Ok(
            SocketTargetView::Name { host, port },
        ),
        _ => Err(failure(DnsErrorKind::InvalidUrl, url)),
    }
}

/// Finds out what the host and the port of a url stand for.
pub fn socket_target(url: &str, host: Option<DohUrlHost>, port: Option<u16>) -> (r: Result<
    SocketTarget,
    DnsError,
>)
    ensures
        target_view(r) == target_of(url@, host_of(host), port),
{
    match (host, port) {
        (Some(DohUrlHost::Ip(ip)), Some(port)) => Ok(SocketTarget::Addr(SocketAddr::new(ip, port))),
        (Some(DohUrlHost::Domain(host)), Some(port)) => Ok(SocketTarget::Name { host, port }),
        _ => Err(DnsError::new(DnsErrorKind::InvalidUrl, url)),
    }
}

/// A lookup of the addresses of a host.
#[derive(Debug)]
pub struct SocketAddrsLookup {
    pub host: String,
    pub port: u16,
    pub plan: Plan,
    /// Whether only addresses are taken from what the system finds, and the
    /// port put to them.
    pub via_doh: bool,
}

/// What a [`SocketAddrsLookup`] says.
#[verifier::ext_equal]
pub struct SocketAddrsLookupView {
    pub host: Seq<char>,
    pub port: u16,
    pub plan: PlanView,
    pub via_doh: bool,
}

impl View for SocketAddrsLookup {
    type V = SocketAddrsLookupView;

    open spec fn view(&self) -> SocketAddrsLookupView {
        SocketAddrsLookupView {
            host: self.host@,
            port: self.port,
            plan: self.plan@,
            via_doh: self.via_doh,
        }
    }
}

/// How the socket addresses of a url are found.
#[derive(Debug)]
pub enum SocketAddrsStep {
    /// The url names them.
    Done(Vec<SocketAddr>),
    /// They have to be looked up.
    Ask(SocketAddrsLookup),
}

/// What a [`SocketAddrsStep`] says.
#[verifier::ext_equal]
pub enum SocketAddrsStepView {
    Done(Seq<SocketAddr>),
    Ask(SocketAddrsLookupView),
}

impl View for SocketAddrsStep {
    type V = SocketAddrsStepView;

    open spec fn view(&self) -> SocketAddrsStepView {
        match *self {
            SocketAddrsStep::Done(addrs) => SocketAddrsStepView::Done(addrs@),
            SocketAddrsStep::Ask(lookup) => SocketAddrsStepView::Ask(lookup@),
        }
    }
}

/// What a result of [`socket_addrs`] tells.
pub open spec fn step_view(r: Result<SocketAddrsStep, DnsError>) -> Result<
    SocketAddrsStepView,
    DnsErrorView,
> {
    match r {
        Ok(step) => Ok(step@),
        Err(error) => Err(error@),
    }
}

/// The plan for the addresses of a host: DoH first where it is configured,
/// else the system resolver, if it may be used, and then the resolver of the
/// process.
pub open spec fn socket_plan(only: Option<bool>, allow_system_resolver: bool) -> PlanView {
    let system = if allow_system_resolver {
        Some(Source::System)
    } else {
        None
    };
    match only {
        Some(_) => doh_first(only, Source::Doh, system),
        None => PlanView {
            attempts: if allow_system_resolver {
                seq![unbounded(Source::System), unbounded(Source::Resolver)]
            } else {
                seq![unbounded(Source::Resolver)]
            },
            exhausted: Exhausted::LastFailure,
        },
    }
}

/// How the socket addresses of a target are found.
pub open spec fn target_step(
    target: Result<SocketTargetView, DnsErrorView>,
    only: Option<bool>,
    allow_system_resolver: bool,
) -> Result<SocketAddrsStepView, DnsErrorView> {
    match target {
        Err(error) => Err(error),
        Ok(SocketTargetView::Addr(addr)) => Ok(SocketAddrsStepView::Done(seq![addr])),
        Ok(SocketTargetView::Name { host, port }) => Ok(
            SocketAddrsStepView::Ask(
                SocketAddrsLookupView {
                    host,
                    port,
                    plan: socket_plan(only, allow_system_resolver),
                    via_doh: only is Some,
                },
            ),
        ),
    }
}

/// Plans the lookup of the addresses of a host.
fn plan_socket_lookup(doh: Option<&DohServerConfig>, allow_system_resolver: bool) -> (plan: Plan)
    ensures
        plan@ == socket_plan(doh_mode(doh), allow_system_resolver),
        plan@.wf(),
{
    if doh.is_some() {
        let fallback = if allow_system_resolver {
            Some(Source::System)
        } else {
            None
        };
        return lookup_via_doh_first(doh, Source::Doh, fallback);
    }
    let mut attempts: Vec<Attempt> = Vec::new();
    if allow_system_resolver {
        attempts.push(Attempt { source: Source::System, timeout_ms: None, needs_slot: false });
    }
    attempts.push(Attempt { source: Source::Resolver, timeout_ms: None, needs_slot: false });
    let plan = Plan { attempts, exhausted: Exhausted::LastFailure };
    assert(plan@.attempts =~= socket_plan(None, allow_system_resolver).attempts);
    plan
}

/// Finds out how the socket addresses of a target are found.
pub fn resolve_target(
    target: SocketTarget,
    doh: Option<&DohServerConfig>,
    allow_system_resolver: bool,
) -> (step: SocketAddrsStep)
    ensures
        Ok::<SocketAddrsStepView, DnsErrorView>(step@) == target_step(
            Ok(target@),
            doh_mode(doh),
            allow_system_resolver,
        ),
        step matches SocketAddrsStep::Ask(lookup) ==> lookup.plan@.wf(),
{
    match target {
        SocketTarget::Addr(addr) => {
            let mut addrs: Vec<SocketAddr> = Vec::new();
            addrs.push(addr);
            assert(addrs@ =~= seq![addr]);
            SocketAddrsStep::Done(addrs)
        },
        SocketTarget::Name { host, port } => SocketAddrsStep::Ask(
            SocketAddrsLookup {
                host,
                port,
                plan: plan_socket_lookup(doh, allow_system_resolver),
                via_doh: doh.is_some(),
            },
        ),
    }
}

/// Finds out what a url stands for. The port is the one that the url names,
/// or else the one that the caller knows, who is asked for it only where the
/// url has a host.
pub fn url_target(url: &url::Url, default_port_number: impl Fn() -> Option<u16>) -> (r: Result<
    SocketTarget,
    DnsError,
>)
    requires
        url_host(*url) is Some && url_port(*url) is None ==> default_port_number.requires(()),
    ensures
        url_port(*url) is Some ==> target_view(r) == target_of(
            url_text(*url),
            url_host(*url),
            url_port(*url),
        ),
        url_port(*url) is None && url_host(*url) is Some ==> exists|port: Option<u16>|
            default_port_number.ensures((), port) && target_view(r) == target_of(
                url_text(*url),
                url_host(*url),
                port,
            ),
        url_host(*url) is None ==> target_view(r) == Err::<SocketTargetView, DnsErrorView>(
            failure(DnsErrorKind::InvalidUrl, url_text(*url)),
        ),
{
    let host = host_of_url(url);
    let text = text_of_url(url);
    if host.is_none() {
        return Err(DnsError { kind: DnsErrorKind::InvalidUrl, subject: text, cause: None });
    }
    let port: Option<u16> = match port_of_url(url) {
        Some(port) => Some(port),
        None => default_port_number(),
    };
    socket_target(text.as_str(), host, port)
}

/// Finds out how the socket addresses that a url stands for are found.
/// `default_port_number` knows the port of a url that names none; for other
/// urls it is not asked.
pub fn socket_addrs_with_system_resolver(
    url: &url::Url,
    default_port_number: impl Fn() -> Option<u16>,
    allow_system_resolver: bool,
    doh: Option<&DohServerConfig>,
) -> (r: Result<SocketAddrsStep, DnsError>)
    requires
        url_host(*url) is Some && url_port(*url) is None ==> default_port_number.requires(()),
    ensures
        url_port(*url) is Some ==> step_view(r) == target_step(
            target_of(url_text(*url), url_host(*url), url_port(*url)),
            doh_mode(doh),
            allow_system_resolver,
        ),
        url_port(*url) is None && url_host(*url) is Some ==> exists|port: Option<u16>|
            default_port_number.ensures((), port) && step_view(r) == target_step(
                #[trigger] target_of(url_text(*url), url_host(*url), port),
                doh_mode(doh),
                allow_system_resolver,
            ),
        url_host(*url) is None ==> step_view(r) == Err::<SocketAddrsStepView, DnsErrorView>(
            failure(DnsErrorKind::InvalidUrl, url_text(*url)),
        ),
        r matches Ok(SocketAddrsStep::Ask(lookup)) ==> lookup.plan@.wf(),
{
    match url_target(url, default_port_number) {
        Ok(target) => Ok(resolve_target(target, doh, allow_system_resolver)),
        Err(error) => Err(error),
    }
}

/// Finds out how the socket addresses that a url stands for are found, with
/// the system resolver among the sources.
pub fn socket_addrs(
    url: &url::Url,
    default_port_number: impl Fn() -> Option<u16>,
    doh: Option<&DohServerConfig>,
) -> (r: Result<SocketAddrsStep, DnsError>)
    requires
        url_host(*url) is Some && url_port(*url) is None ==> default_port_number.requires(()),
    ensures
        url_port(*url) is Some ==> step_view(r) == target_step(
            target_of(url_text(*url), url_host(*url), url_port(*url)),
            doh_mode(doh),
            true,
        ),
        url_port(*url) is None && url_host(*url) is Some ==> exists|port: Option<u16>|
            default_port_number.ensures((), port) && step_view(r) == target_step(
                #[trigger] target_of(url_text(*url), url_host(*url), port),
                doh_mode(doh),
                true,
            ),
        url_host(*url) is None ==> step_view(r) == Err::<SocketAddrsStepView, DnsErrorView>(
            failure(DnsErrorKind::InvalidUrl, url_text(*url)),
        ),
        r matches Ok(SocketAddrsStep::Ask(lookup)) ==> lookup.plan@.wf(),
{
    socket_addrs_with_system_resolver(url, default_port_number, true, doh)
}

/// A host and a port, as the system resolver is asked for them.
pub open spec fn host_and_port(host: Seq<char>, port: u16) -> Seq<char> {
    host + ":"@ + decimal(port as nat)
}

/// A host and a port, as a failure tells them.
pub open spec fn host_with_port(host: Seq<char>, port: u16) -> Seq<char> {
    host + ", port: "@ + decimal(port as nat)
}

/// The socket addresses that an answer gives. What the system finds is kept
/// as it is, unless DoH was tried first.
pub open spec fn answer_addrs(answer: AnswerView, port: u16, via_doh: bool) -> Seq<SocketAddr> {
    match answer {
        AnswerView::Addrs(addrs) if !via_doh => addrs,
        _ => answer_ips(answer).map_values(|ip: IpAddr| socket_addr(ip, port)),
    }
}

impl SocketAddrsLookup {
    /// The host and the port to ask the system resolver for.
    pub fn system_target(&self) -> (text: String)
        ensures
            text@ == host_and_port(self@.host, self@.port),
    {
        let mut text = self.host.clone();
        text.append(":");
        push_decimal(&mut text, self.port as u32);
        text
    }

    /// The socket addresses that an answer gives.
    pub fn finish(&self, answer: Answer) -> (addrs: Vec<SocketAddr>)
        ensures
            addrs@ == answer_addrs(answer@, self@.port, self@.via_doh),
    {
        match answer {
            Answer::Ips(ips) => with_port(&ips, self.port),
            Answer::Addrs(addrs) => if self.via_doh {
                with_port(&ips_of(&addrs), self.port)
            } else {
                addrs
            },
        }
    }

    /// What the failure of the lookup is told as.
    pub fn fail(&self, failure_of: LookupFailure) -> (error: DnsError)
        ensures
            error@ == failure_error(failure_of@, host_with_port(self@.host, self@.port)),
    {
        let mut text = self.host.clone();
        text.append(", port: ");
        push_decimal(&mut text, self.port as u32);
        failure_of.into_error(text.as_str())
    }
}

/// How the socket addresses of a target are found where there is no resolver
/// but the system's.
pub open spec fn system_only_step(target: SocketTargetView) -> SocketAddrsStepView {
    match target {
        SocketTargetView::Addr(addr) => SocketAddrsStepView::Done(seq![addr]),
        SocketTargetView::Name { host, port } => SocketAddrsStepView::Ask(
            SocketAddrsLookupView {
                host,
                port,
                plan: PlanView {
                    attempts: seq![unbounded(Source::System)],
                    exhausted: Exhausted::LastFailure,
                },
                via_doh: false,
            },
        ),
    }
}

/// Finds out how the socket addresses of a target are found where there is no
/// resolver but the system's.
pub fn resolve_target_system_only(target: SocketTarget) -> (step: SocketAddrsStep)
    ensures
        step@ == system_only_step(target@),
        step matches SocketAddrsStep::Ask(lookup) ==> lookup.plan@.wf(),
{
    match target {
        SocketTarget::Addr(addr) => {
            let mut addrs: Vec<SocketAddr> = Vec::new();
            addrs.push(addr);
            assert(addrs@ =~= seq![addr]);
            SocketAddrsStep::Done(addrs)
        },
        SocketTarget::Name { host, port } => {
            let mut attempts: Vec<Attempt> = Vec::new();
            attempts.push(Attempt { source: Source::System, timeout_ms: None, needs_slot: false });
            let plan = Plan { attempts, exhausted: Exhausted::LastFailure };
            assert(plan@.attempts =~= seq![unbounded(Source::System)]);
            SocketAddrsStep::Ask(SocketAddrsLookup { host, port, plan, via_doh: false })
        },
    }
}

} // verus!
