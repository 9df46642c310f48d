//! The frequency control: the single shared tuning knob that subscribers
//! write and every producer reads once per cycle.
//!
//! The knob holds the current inter-tick interval in milliseconds, always
//! inside `[FREQ_MIN_MS, FREQ_MAX_MS]`.  A write clamps its argument to that
//! range before storing it; no ordering is imposed between concurrent
//! writers (last write wins).  Sharing across tasks is the caller's affair:
//! the type itself is a plain value with a narrow read/write interface.

use vstd::prelude::*;

verus! {

/// Smallest inter-tick interval the control will store, in milliseconds.
pub const FREQ_MIN_MS: u64 = 10;

/// Largest inter-tick interval the control will store, in milliseconds.
pub const FREQ_MAX_MS: u64 = 1000;

/// Interval the control holds at process start, in milliseconds.
pub const FREQ_DEFAULT_MS: u64 = 50;

/// The value the control holds after `v` has been written to it.
pub open spec fn spec_clamp_frequency(v: u64) -> u64 {
    if v < FREQ_MIN_MS {
        FREQ_MIN_MS
    } else if v > FREQ_MAX_MS {
        FREQ_MAX_MS
    } else {
        v
    }
}

/// A clamped frequency always lies inside the accepted range.
pub proof fn lemma_clamp_frequency_in_range(v: u64)
    ensures
        FREQ_MIN_MS <= spec_clamp_frequency(v) <= FREQ_MAX_MS,
{
}

/// Clamp a requested inter-tick interval to the accepted range.
pub fn clamp_frequency(v: u64) -> (r: u64)
    ensures
        r == spec_clamp_frequency(v),
{
    if v < FREQ_MIN_MS {
        FREQ_MIN_MS
    } else if v > FREQ_MAX_MS {
        FREQ_MAX_MS
    } else {
        v
    }
}

/// The frequency control itself: one integer, read by producers and written
/// (through a clamp) by sessions on behalf of subscribers.
pub struct FrequencyControl {
    ms: u64,
}

impl FrequencyControl {
    /// The stored interval is always inside the accepted range.
    pub closed spec fn wf(&self) -> bool {
        FREQ_MIN_MS <= self.ms <= FREQ_MAX_MS
    }

    /// The interval currently stored, in milliseconds.
    pub closed spec fn spec_ms(&self) -> u64 {
        self.ms
    }

    /// A fresh control holding the default interval.
    pub fn new() -> (r: FrequencyControl)
        ensures
            r.wf(),
            r.spec_ms() == FREQ_DEFAULT_MS,
    {
        FrequencyControl { ms: FREQ_DEFAULT_MS }
    }

    /// Read the current interval; what producers call once per cycle.
    pub fn read(&self) -> (r: u64)
        ensures
            r == self.spec_ms(),
    {
        self.ms
    }

    /// Store a requested interval, clamped to the accepted range.  After this
    /// call every read returns `spec_clamp_frequency(v)` until the next write:
    /// the round trip holds for every integer `v`.
    pub fn write(&mut self, v: u64)
        ensures
            final(self).spec_ms() == spec_clamp_frequency(v),
            final(self).wf(),
    {
        self.ms = clamp_frequency(v);
    }
}

} // verus!
