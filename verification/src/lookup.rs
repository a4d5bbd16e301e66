//! The order in which the sources of a lookup are tried.

use vstd::prelude::*;

use crate::addr::{ips_of, IpAddr, SocketAddr};
use crate::doh::DohServerConfig;
use crate::error::{failure, failure_because, DnsError, DnsErrorKind, DnsErrorView};

verus! {

/// How many milliseconds a DoH lookup may take before falling back (or
/// failing, where plaintext DNS is forbidden). Cold lookups pay one TCP + TLS
/// + HTTP/2 handshake.
pub const DOH_LOOKUP_TIMEOUT_MS: u64 = 5000;

/// Who is asked for the addresses of a host.
#[derive(Clone, Copy, Debug, PartialEq, Eq, Structural)]
pub enum Source {
    /// The resolver of the process, for its DoH server.
    Doh,
    /// The resolver of the process.
    Resolver,
    /// A resolver of its own, whose sockets are bound to the context.
    Contextual,
    /// The resolver of the system.
    System,
    /// The resolver of the system, asked from within a network namespace.
    NamespaceSystem,
}

/// Whether a source is the system's resolver, which speaks plaintext DNS.
pub open spec fn is_system(source: Source) -> bool {
    source == Source::System || source == Source::NamespaceSystem
}

/// One source, and how it is asked.
#[derive(Clone, Copy, Debug, PartialEq, Eq, Structural)]
pub struct Attempt {
    pub source: Source,
    /// How long the answer may take. The time runs from when the source's turn
    /// comes, and so while the attempt waits for the slot.
    pub timeout_ms: Option<u64>,
    /// Whether the lookup slot of the system resolver has to be free.
    pub needs_slot: bool,
}

/// A source that may take its time.
pub open spec fn unbounded(source: Source) -> Attempt {
    Attempt { source, timeout_ms: None, needs_slot: false }
}

/// A source that may take some time.
pub open spec fn bounded(source: Source, timeout_ms: u64) -> Attempt {
    Attempt { source, timeout_ms: Some(timeout_ms), needs_slot: false }
}

/// What a lookup fails with when no source is left.
#[derive(Clone, Copy, Debug, PartialEq, Eq, Structural)]
pub enum Exhausted {
    /// What the last source failed with, or that it ran out of time.
    LastFailure,
    /// That plaintext DNS is forbidden.
    DohOnly,
    /// That the system resolver may not be used.
    SystemDisabled,
}

/// The sources of a lookup, in the order in which they are tried until one
/// has an answer.
#[derive(Debug)]
pub struct Plan {
    pub attempts: Vec<Attempt>,
    pub exhausted: Exhausted,
}

/// What a [`Plan`] says.
#[verifier::ext_equal]
pub struct PlanView {
    pub attempts: Seq<Attempt>,
    pub exhausted: Exhausted,
}

impl View for Plan {
    type V = PlanView;

    open spec fn view(&self) -> PlanView {
        PlanView { attempts: self.attempts@, exhausted: self.exhausted }
    }
}

impl PlanView {
    /// Whether there is a source.
    pub open spec fn wf(self) -> bool {
        self.attempts.len() > 0
    }

    /// Whether no source is the system's resolver.
    pub open spec fn avoids_system(self) -> bool {
        forall|i: int|
            0 <= i < self.attempts.len() ==> !is_system((#[trigger] self.attempts[i]).source)
    }
}

/// The plan that tries DoH first, for some time. `fallback` is tried next,
/// unless plaintext DNS is forbidden; there is none where the system resolver
/// may not be used.
pub open spec fn doh_first_within(
    only: bool,
    timeout_ms: u64,
    doh_lookup: Source,
    fallback: Option<Source>,
) -> PlanView {
    let first = bounded(doh_lookup, timeout_ms);
    if only {
        PlanView { attempts: seq![first], exhausted: Exhausted::DohOnly }
    } else {
        match fallback {
            Some(fallback) => PlanView {
                attempts: seq![first, unbounded(fallback)],
                exhausted: Exhausted::LastFailure,
            },
            None => PlanView { attempts: seq![first], exhausted: Exhausted::SystemDisabled },
        }
    }
}

/// The plan that tries DoH first where it is configured, which `only` tells
/// along with whether plaintext DNS is forbidden.
pub open spec fn doh_first(
    only: Option<bool>,
    doh_lookup: Source,
    fallback: Option<Source>,
) -> PlanView {
    match only {
        Some(only) => doh_first_within(only, DOH_LOOKUP_TIMEOUT_MS, doh_lookup, fallback),
        None => PlanView {
            attempts: seq![unbounded(doh_lookup)],
            exhausted: Exhausted::LastFailure,
        },
    }
}

/// Whether DoH is configured, and whether it forbids plaintext DNS.
pub open spec fn doh_mode(doh: Option<&DohServerConfig>) -> Option<bool> {
    match doh {
        Some(doh) => Some(doh.only),
        None => None,
    }
}

/// Plans a lookup that tries DoH first, for some time.
pub fn lookup_via_doh_first_with_timeout(
    doh: &DohServerConfig,
    timeout_ms: u64,
    doh_lookup: Source,
    fallback: Option<Source>,
) -> (plan: Plan)
    ensures
        plan@ == doh_first_within(doh.only, timeout_ms, doh_lookup, fallback),
        plan@.wf(),
{
    let mut attempts: Vec<Attempt> = Vec::new();
    attempts.push(
        Attempt { source: doh_lookup, timeout_ms: Some(timeout_ms), needs_slot: false },
    );
    let exhausted = if doh.only {
        Exhausted::DohOnly
    } else {
        match fallback {
            Some(fallback) => {
                attempts.push(Attempt { source: fallback, timeout_ms: None, needs_slot: false });
                Exhausted::LastFailure
            },
            None => Exhausted::SystemDisabled,
        }
    };
    let plan = Plan { attempts, exhausted };
    assert(plan@ =~= doh_first_within(doh.only, timeout_ms, doh_lookup, fallback));
    plan
}

/// Plans a lookup that tries the DoH resolver first, and falls back to the
/// given source only when plaintext DNS is allowed.
pub fn lookup_via_doh_first(
    doh: Option<&DohServerConfig>,
    doh_lookup: Source,
    fallback: Option<Source>,
) -> (plan: Plan)
    ensures
        plan@ == doh_first(doh_mode(doh), doh_lookup, fallback),
        plan@.wf(),
{
    match doh {
        Some(doh) => lookup_via_doh_first_with_timeout(
            doh,
            DOH_LOOKUP_TIMEOUT_MS,
            doh_lookup,
            fallback,
        ),
        None => {
            let mut attempts: Vec<Attempt> = Vec::new();
            attempts.push(Attempt { source: doh_lookup, timeout_ms: None, needs_slot: false });
            let plan = Plan { attempts, exhausted: Exhausted::LastFailure };
            assert(plan@ =~= doh_first(None, doh_lookup, fallback));
            plan
        },
    }
}

/// What a source found.
#[derive(Debug)]
pub enum Answer {
    /// A resolver finds addresses.
    Ips(Vec<IpAddr>),
    /// The system finds socket addresses.
    Addrs(Vec<SocketAddr>),
}

/// What an [`Answer`] holds.
#[verifier::ext_equal]
pub enum AnswerView {
    Ips(Seq<IpAddr>),
    Addrs(Seq<SocketAddr>),
}

impl View for Answer {
    type V = AnswerView;

    open spec fn view(&self) -> AnswerView {
        match *self {
            Answer::Ips(ips) => AnswerView::Ips(ips@),
            Answer::Addrs(addrs) => AnswerView::Addrs(addrs@),
        }
    }
}

/// The addresses in an answer.
pub open spec fn answer_ips(answer: AnswerView) -> Seq<IpAddr> {
    match answer {
        AnswerView::Ips(ips) => ips,
        AnswerView::Addrs(addrs) => addrs.map_values(|addr: SocketAddr| addr.ip_spec()),
    }
}

impl Answer {
    /// The addresses that were found.
    pub fn into_ips(self) -> (ips: Vec<IpAddr>)
        ensures
            ips@ == answer_ips(self@),
    {
        match self {
            Answer::Ips(ips) => ips,
            Answer::Addrs(addrs) => ips_of(&addrs),
        }
    }
}

/// What came of asking a source.
#[derive(Debug)]
pub enum LookupEvent {
    Answered(Answer),
    /// The source failed, with what it said.
    Failed(String),
    /// The source did not answer in time.
    TimedOut,
}

/// What a [`LookupEvent`] tells.
#[verifier::ext_equal]
pub enum LookupEventView {
    Answered(AnswerView),
    Failed(Seq<char>),
    TimedOut,
}

impl View for LookupEvent {
    type V = LookupEventView;

    open spec fn view(&self) -> LookupEventView {
        match *self {
            LookupEvent::Answered(answer) => LookupEventView::Answered(answer@),
            LookupEvent::Failed(text) => LookupEventView::Failed(text@),
            LookupEvent::TimedOut => LookupEventView::TimedOut,
        }
    }
}

/// What a lookup fails with.
#[derive(Debug)]
pub enum LookupFailure {
    DohOnly,
    SystemDisabled,
    /// What the last source failed with.
    Source { source: Source, text: String },
    /// The last source did not answer in time.
    TimedOut { source: Source },
}

/// What a [`LookupFailure`] tells.
#[verifier::ext_equal]
pub enum LookupFailureView {
    DohOnly,
    SystemDisabled,
    Source { source: Source, text: Seq<char> },
    TimedOut { source: Source },
}

impl View for LookupFailure {
    type V = LookupFailureView;

    open spec fn view(&self) -> LookupFailureView {
        match *self {
            LookupFailure::DohOnly => LookupFailureView::DohOnly,
            LookupFailure::SystemDisabled => LookupFailureView::SystemDisabled,
            LookupFailure::Source { source, text } => LookupFailureView::Source {
                source,
                text: text@,
            },
            LookupFailure::TimedOut { source } => LookupFailureView::TimedOut { source },
        }
    }
}

/// The failure of a lookup of `host`, in the terms of [`DnsError`].
pub open spec fn failure_error(failure_of: LookupFailureView, host: Seq<char>) -> DnsErrorView {
    match failure_of {
        LookupFailureView::DohOnly => failure(DnsErrorKind::DohOnlyLookupFailed, Seq::empty()),
        LookupFailureView::SystemDisabled => failure(
            DnsErrorKind::SystemResolverDisabled,
            Seq::empty(),
        ),
        LookupFailureView::Source { source, text } => match source {
            Source::Doh => failure_because(DnsErrorKind::DohLookupFailed, host, text),
            Source::Resolver => failure_because(DnsErrorKind::ResolverLookupFailed, host, text),
            Source::Contextual => failure_because(DnsErrorKind::ContextualLookupFailed, host, text),
            Source::System => failure(DnsErrorKind::SystemLookupFailed, text),
            Source::NamespaceSystem => failure(DnsErrorKind::SystemLookupFailed, text),
        },
        LookupFailureView::TimedOut { .. } => failure(DnsErrorKind::LookupTimedOut, host),
    }
}

impl LookupFailure {
    /// The failure of a lookup of `host`.
    pub fn into_error(self, host: &str) -> (error: DnsError)
        ensures
            error@ == failure_error(self@, host@),
    {
        match self {
            LookupFailure::DohOnly => DnsError {
                kind: DnsErrorKind::DohOnlyLookupFailed,
                subject: String::new(),
                cause: None,
            },
            LookupFailure::SystemDisabled => DnsError {
                kind: DnsErrorKind::SystemResolverDisabled,
                subject: String::new(),
                cause: None,
            },
            LookupFailure::TimedOut { .. } => DnsError::new(DnsErrorKind::LookupTimedOut, host),
            LookupFailure::Source { source, text } => match source {
                Source::Doh => DnsError::because(DnsErrorKind::DohLookupFailed, host, text),
                Source::Resolver => DnsError::because(
                    DnsErrorKind::ResolverLookupFailed,
                    host,
                    text,
                ),
                Source::Contextual => DnsError::because(
                    DnsErrorKind::ContextualLookupFailed,
                    host,
                    text,
                ),
                Source::System => DnsError {
                    kind: DnsErrorKind::SystemLookupFailed,
                    subject: text,
                    cause: None,
                },
                Source::NamespaceSystem => DnsError {
                    kind: DnsErrorKind::SystemLookupFailed,
                    subject: text,
                    cause: None,
                },
            },
        }
    }
}

/// A lookup that waits for what comes of asking one of its sources.
#[derive(Debug)]
pub struct Lookup {
    pub plan: Plan,
    /// Which attempt of the plan is under way.
    pub running: usize,
}

/// What a [`Lookup`] is about.
#[verifier::ext_equal]
pub struct LookupView {
    pub plan: PlanView,
    pub running: int,
}

impl View for Lookup {
    type V = LookupView;

    open spec fn view(&self) -> LookupView {
        LookupView { plan: self.plan@, running: self.running as int }
    }
}

impl LookupView {
    /// Whether an attempt of a proper plan is under way.
    pub open spec fn wf(self) -> bool {
        self.plan.wf() && 0 <= self.running < self.plan.attempts.len()
    }

    /// Whether something can come of the attempt under way: it runs out of
    /// time only where its time is limited.
    pub open spec fn admits(self, event: LookupEventView) -> bool {
        event is TimedOut ==> self.plan.attempts[self.running].timeout_ms is Some
    }
}

/// How a lookup goes on.
#[derive(Debug)]
pub enum Progress {
    /// Another source is asked: [`Lookup::attempt`].
    Ask(Lookup),
    Done(Answer),
    Failed(LookupFailure),
}

/// What [`Progress`] tells.
#[verifier::ext_equal]
pub enum ProgressView {
    Ask(LookupView),
    Done(AnswerView),
    Failed(LookupFailureView),
}

impl View for Progress {
    type V = ProgressView;

    open spec fn view(&self) -> ProgressView {
        match *self {
            Progress::Ask(lookup) => ProgressView::Ask(lookup@),
            Progress::Done(answer) => ProgressView::Done(answer@),
            Progress::Failed(failure_of) => ProgressView::Failed(failure_of@),
        }
    }
}

/// What a lookup fails with when its last source failed or ran out of time.
pub open spec fn exhausted_failure(
    lookup: LookupView,
    event: LookupEventView,
) -> LookupFailureView {
    match lookup.plan.exhausted {
        Exhausted::DohOnly => LookupFailureView::DohOnly,
        Exhausted::SystemDisabled => LookupFailureView::SystemDisabled,
        Exhausted::LastFailure => {
            let source = lookup.plan.attempts[lookup.running].source;
            match event {
                LookupEventView::Failed(text) => LookupFailureView::Source { source, text },
                _ => LookupFailureView::TimedOut { source },
            }
        },
    }
}

/// How a lookup goes on: an answer ends it, and anything else moves it on to
/// the next source, as long as there is one.
pub open spec fn progress(lookup: LookupView, event: LookupEventView) -> ProgressView {
    match event {
        LookupEventView::Answered(answer) => ProgressView::Done(answer),
        _ => if lookup.running + 1 < lookup.plan.attempts.len() {
            ProgressView::Ask(LookupView { running: lookup.running + 1, ..lookup })
        } else {
            ProgressView::Failed(exhausted_failure(lookup, event))
        },
    }
}

impl Lookup {
    /// Begins with the first source of a plan.
    pub fn start(plan: Plan) -> (lookup: Lookup)
        requires
            plan@.wf(),
        ensures
            lookup@ == (LookupView { plan: plan@, running: 0 }),
            lookup@.wf(),
    {
        Lookup { plan, running: 0 }
    }

    /// The source that is asked, and how.
    pub fn attempt(&self) -> (attempt: Attempt)
        requires
            self@.wf(),
        ensures
            attempt == self@.plan.attempts[self@.running],
    {
        self.plan.attempts[self.running]
    }

    /// Takes in what came of asking the source.
    pub fn on_event(self, event: LookupEvent) -> (next: Progress)
        requires
            self@.wf(),
            self@.admits(event@),
        ensures
            next@ == progress(self@, event@),
            next matches Progress::Ask(lookup) ==> lookup@.wf(),
    {
        let text = match event {
            LookupEvent::Answered(answer) => return Progress::Done(answer),
            LookupEvent::Failed(text) => Some(text),
            LookupEvent::TimedOut => None,
        };
        if self.running < self.plan.attempts.len() - 1 {
            return Progress::Ask(Lookup { running: self.running + 1, plan: self.plan });
        }
        let source = self.plan.attempts[self.running].source;
        match self.plan.exhausted {
            Exhausted::DohOnly => Progress::Failed(LookupFailure::DohOnly),
            Exhausted::SystemDisabled => Progress::Failed(LookupFailure::SystemDisabled),
            Exhausted::LastFailure => match text {
                Some(text) => Progress::Failed(LookupFailure::Source { source, text }),
                None => Progress::Failed(LookupFailure::TimedOut { source }),
            },
        }
    }
}

} // verus!
