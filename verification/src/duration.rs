//! Execution time of one run, derived from the element's cycle counter.

use vstd::prelude::*;

verus! {

/// Nanoseconds in one second.
pub const NANOS_PER_SEC: u32 = 1_000_000_000;

/// A span of time in whole seconds and nanoseconds.
#[derive(Clone, Copy, Debug, PartialEq, Eq, Structural)]
pub struct RunDuration {
    /// Whole seconds.
    pub secs: u64,
    /// The part below one second, in nanoseconds.
    pub nanos: u32,
}

/// Upper half of a cycle counter.
pub open spec fn counter_high(counter: u64) -> int {
    counter as int / 0x1_0000_0000
}

/// Lower half of a cycle counter.
pub open spec fn counter_low(counter: u64) -> int {
    counter as int % 0x1_0000_0000
}

impl RunDuration {
    /// The nanosecond part is below one second.
    pub open spec fn wf(self) -> bool {
        self.nanos < NANOS_PER_SEC
    }

    /// The whole span in nanoseconds.
    pub open spec fn total_nanos(self) -> int {
        self.secs as int * 1_000_000_000 + self.nanos as int
    }

    /// The duration that a cycle counter stands for: its upper half counts
    /// seconds, its lower half nanoseconds.
    pub open spec fn of_cycles(counter: u64) -> Self {
        RunDuration {
            secs: (counter_high(counter) + counter_low(counter) / 1_000_000_000) as u64,
            nanos: (counter_low(counter) % 1_000_000_000) as u32,
        }
    }

    /// Converts a cycle counter at one cycle per nanosecond, whatever the
    /// element's clock is.
    pub fn from_cycles(counter: u64) -> (r: Self)
        ensures
            r == Self::of_cycles(counter),
            r.wf(),
            r.total_nanos() == counter_high(counter) * 1_000_000_000 + counter_low(counter),
    {
        assert(counter >> 32 == counter / 0x1_0000_0000) by (bit_vector);
        assert(counter & 0xffff_ffff == counter % 0x1_0000_0000) by (bit_vector);
        let high: u64 = counter >> 32;
        let low: u64 = counter & 0xffff_ffff;
        let carry: u64 = low / 1_000_000_000;
        let rest: u64 = low % 1_000_000_000;
        RunDuration { secs: high + carry, nanos: rest as u32 }
    }

    /// Whole seconds of the span.
    pub fn as_secs(&self) -> (r: u64)
        ensures
            r == self.secs,
    {
        self.secs
    }

    /// The part of the span below one second, in nanoseconds.
    pub fn subsec_nanos(&self) -> (r: u32)
        ensures
            r == self.nanos,
    {
        self.nanos
    }
}

/// Two well-formed durations of the same length are the same.
pub proof fn lemma_total_nanos_injective(a: RunDuration, b: RunDuration)
    requires
        a.wf(),
        b.wf(),
        a.total_nanos() == b.total_nanos(),
    ensures
        a == b,
{
}

} // verus!
