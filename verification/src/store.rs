//! The Counter Store and the shared-state recovery policy.
//!
//! Rate metrics are computed from monotonically increasing OS counters, so
//! the previous raw reading of every counter family must be kept between
//! samples. The store is pure data: a slot per family, read with `current`
//! and written wholesale with `replace`.
//!
//! The store is process-wide mutable state. Exclusive access to it is
//! managed outside this crate (a lock); what is decided here is the recovery
//! policy: when acquiring exclusive access reveals that a previous holder
//! terminated abnormally, the resource is reinitialized to a fresh default
//! and use continues, rather than propagating the failure.

use vstd::prelude::*;

verus! {

/// One per-core reading of the CPU tick counters: time units spent in each
/// state since boot. Monotonically increasing on a real host, but nothing
/// here assumes that; regressions are handled by the sampler.
#[derive(Clone, Copy, Debug, PartialEq, Eq, Structural)]
pub struct CpuTicks {
    pub user: u64,
    pub nice: u64,
    pub system: u64,
    pub idle: u64,
}

/// One raw CPU sample: the per-core tick counters together with the
/// wall-clock timestamp (in milliseconds) at which they were read.
/// Replaced wholesale on every sample, never merged field by field.
#[derive(Debug)]
pub struct CpuSample {
    pub ts_ms: u64,
    pub cores: Vec<CpuTicks>,
}

/// A slot holding the most recent raw reading of one counter family, or
/// nothing right after process start or a recovery reset.
pub struct Slot<T> {
    pub value: Option<T>,
}

impl<T> Slot<T> {
    /// A slot with no prior reading.
    pub fn empty() -> (s: Self)
        ensures
            s.value is None,
    {
        Slot { value: None }
    }

    /// The reading currently held, if any.
    pub fn current(&self) -> (r: &Option<T>)
        ensures
            r == &self.value,
    {
        &self.value
    }

    /// Stores a new reading and hands back the previous one.
    pub fn replace(&mut self, new: T) -> (prev: Option<T>)
        ensures
            final(self).value == Some(new),
            prev == old(self).value,
    {
        let mut taken = Slot { value: Some(new) };
        core::mem::swap(self, &mut taken);
        taken.value
    }

    /// Clears the slot and hands back the previous reading, returning the
    /// slot to its "no prior sample" state.
    pub fn take(&mut self) -> (prev: Option<T>)
        ensures
            final(self).value is None,
            prev == old(self).value,
    {
        let mut taken = Slot { value: None };
        core::mem::swap(self, &mut taken);
        taken.value
    }
}

/// The Counter Store: the previous raw reading of each counter family.
/// The CPU family keeps the full per-core tick sample; the network family
/// needs only the timestamp of the previous poll, because the OS already
/// reports per-interface bytes since the last poll.
pub struct CounterStore {
    pub cpu: Slot<CpuSample>,
    pub net_prev_ms: Slot<u64>,
}

impl CounterStore {
    /// True when no family holds a prior reading: the state right after
    /// process start or after a recovery reset.
    pub open spec fn is_fresh(self) -> bool {
        self.cpu.value is None && self.net_prev_ms.value is None
    }

    /// A store with no prior readings.
    pub fn empty() -> (s: Self)
        ensures
            s.is_fresh(),
    {
        CounterStore { cpu: Slot::empty(), net_prev_ms: Slot::empty() }
    }
}

/// What acquiring exclusive access to a shared resource observed: either the
/// resource in a healthy state, or the evidence that a previous holder
/// terminated abnormally while holding it.
pub enum LockOutcome<T> {
    Healthy(T),
    Poisoned,
}

/// The shared-state recovery policy: a healthy resource is used as found; a
/// poisoned one is replaced by the supplied fresh default and use continues.
/// The failure is never propagated to the caller.
pub fn recover<T>(outcome: LockOutcome<T>, fresh: T) -> (r: T)
    ensures
        match outcome {
            LockOutcome::Healthy(v) => r == v,
            LockOutcome::Poisoned => r == fresh,
        },
{
    match outcome {
        LockOutcome::Healthy(v) => v,
        LockOutcome::Poisoned => fresh,
    }
}

/// The recovery policy applied to the Counter Store: after an abnormal
/// termination the store comes back fresh, so the next sample behaves
/// exactly like the first sample after process start.
pub fn recover_store(outcome: LockOutcome<CounterStore>) -> (r: CounterStore)
    ensures
        (outcome matches LockOutcome::Healthy(v) ==> r == v),
        (outcome is Poisoned ==> r.is_fresh()),
{
    recover(outcome, CounterStore::empty())
}

} // verus!
