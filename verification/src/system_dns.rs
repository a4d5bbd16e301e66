//! The resolver of the system, of which at most one lookup runs at a time.

use vstd::prelude::*;

use crate::lookup::{unbounded, Attempt, Exhausted, Plan, PlanView, Source};

verus! {

/// How many milliseconds a lookup through the system resolver may take, the wait
/// for its slot included, before another source is asked.
pub const SYSTEM_DNS_LOOKUP_TIMEOUT_MS: u64 = 800;

/// The resolver of the system. A lookup cannot be cancelled: one that ran out
/// of time keeps the slot until it ends, so that further requests do not pile
/// up blocked lookups. Once it ends, they can use the system resolver again.
#[derive(Debug)]
pub struct SystemDnsResolver {
    busy: bool,
    timeout_ms: u64,
}

/// What a [`SystemDnsResolver`] is up to.
#[verifier::ext_equal]
pub struct SystemDnsView {
    /// Whether a lookup runs.
    pub busy: bool,
    pub timeout_ms: u64,
}

impl View for SystemDnsResolver {
    type V = SystemDnsView;

    closed spec fn view(&self) -> SystemDnsView {
        SystemDnsView { busy: self.busy, timeout_ms: self.timeout_ms }
    }
}

/// Something that happens to the slot of the system resolver.
pub enum SlotEvent {
    /// A request asks for the slot.
    Requested,
    /// A request no longer waits, for the slot or for its lookup. A lookup
    /// that runs keeps running.
    GivenUp,
    /// A lookup ends.
    Ended,
}

/// Whether a lookup runs after something happened.
pub open spec fn busy_after(busy: bool, event: SlotEvent) -> bool {
    match event {
        SlotEvent::Requested => true,
        SlotEvent::GivenUp => busy,
        SlotEvent::Ended => false,
    }
}

/// Whether a lookup starts when something happens.
pub open spec fn starts(busy: bool, event: SlotEvent) -> bool {
    event is Requested && !busy
}

/// The plan that asks the system resolver first, once its slot is free, and then
/// another source. The wait for the slot and the lookup share one time limit.
pub open spec fn system_first(
    timeout_ms: u64,
    system_lookup: Source,
    fallback_lookup: Source,
) -> PlanView {
    PlanView {
        attempts: seq![
            Attempt { source: system_lookup, timeout_ms: Some(timeout_ms), needs_slot: true },
            unbounded(fallback_lookup),
        ],
        exhausted: Exhausted::LastFailure,
    }
}

impl Default for SystemDnsResolver {
    fn default() -> (resolver: SystemDnsResolver)
        ensures
            resolver@ == (SystemDnsView { busy: false, timeout_ms: SYSTEM_DNS_LOOKUP_TIMEOUT_MS }),
    {
        SystemDnsResolver::new(SYSTEM_DNS_LOOKUP_TIMEOUT_MS)
    }
}

impl SystemDnsResolver {
    pub fn new(timeout_ms: u64) -> (resolver: SystemDnsResolver)
        ensures
            resolver@ == (SystemDnsView { busy: false, timeout_ms }),
    {
        SystemDnsResolver { busy: false, timeout_ms }
    }

    /// Plans a lookup that asks the system resolver first. The time limit covers
    /// the wait for the slot.
    pub fn resolve(&self, system_lookup: Source, fallback_lookup: Source) -> (plan: Plan)
        ensures
            plan@ == system_first(self@.timeout_ms, system_lookup, fallback_lookup),
            plan@.wf(),
    {
        let mut attempts: Vec<Attempt> = Vec::new();
        attempts.push(
            Attempt { source: system_lookup, timeout_ms: Some(self.timeout_ms), needs_slot: true },
        );
        attempts.push(Attempt { source: fallback_lookup, timeout_ms: None, needs_slot: false });
        let plan = Plan { attempts, exhausted: Exhausted::LastFailure };
        assert(plan@ =~= system_first(self@.timeout_ms, system_lookup, fallback_lookup));
        plan
    }

    /// Asks for the slot, and tells whether it was free. Where it was, a
    /// lookup runs from now on.
    pub fn request_slot(&mut self) -> (started: bool)
        ensures
            started == starts(old(self)@.busy, SlotEvent::Requested),
            final(self)@ == (SystemDnsView {
                busy: busy_after(old(self)@.busy, SlotEvent::Requested),
                ..old(self)@
            }),
    {
        let started = !self.busy;
        self.busy = true;
        started
    }

    /// Takes in that the lookup ended.
    pub fn end_lookup(&mut self)
        ensures
            final(self)@ == (SystemDnsView {
                busy: busy_after(old(self)@.busy, SlotEvent::Ended),
                ..old(self)@
            }),
    {
        self.busy = false;
    }
}

} // verus!
