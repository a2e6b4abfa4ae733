//! A plain-valued span of time, standing in for `std::time::Duration`.
use vstd::prelude::*;

verus! {

/// Whole seconds plus a sub-second nanosecond part.
#[derive(Clone, Copy, Debug, PartialEq, Eq, Structural)]
pub struct Duration {
    secs: u64,
    nanos: u32,
}

impl Duration {
    /// Number of whole seconds.
    pub closed spec fn secs_of(self) -> nat {
        self.secs as nat
    }

    /// Sub-second part, in nanoseconds.
    pub closed spec fn nanos_of(self) -> nat {
        self.nanos as nat
    }

    /// The nanosecond part stays below one second.
    pub closed spec fn wf(self) -> bool {
        self.nanos < 1_000_000_000
    }

    /// A duration of `secs` seconds and `nanos` nanoseconds; whole seconds
    /// in `nanos` are carried into the seconds. A carry that overflows the
    /// seconds is left out, as std panics on it.
    pub fn new(secs: u64, nanos: u32) -> (d: Duration)
        requires
            secs + nanos / 1_000_000_000 <= u64::MAX,
        ensures
            d.secs_of() == secs + nanos / 1_000_000_000,
            d.nanos_of() == nanos % 1_000_000_000,
            d.wf(),
    {
        let carry: u64 = (nanos / 1_000_000_000) as u64;
        Duration { secs: secs + carry, nanos: nanos % 1_000_000_000 }
    }

    /// A duration of exactly `secs` seconds.
    pub fn from_secs(secs: u64) -> (d: Duration)
        ensures
            d.secs_of() == secs,
            d.nanos_of() == 0,
            d.wf(),
    {
        Duration { secs, nanos: 0 }
    }

    /// The empty duration.
    pub fn zero() -> (d: Duration)
        ensures
            d.secs_of() == 0,
            d.nanos_of() == 0,
            d.wf(),
    {
        Duration { secs: 0, nanos: 0 }
    }

    /// Whole seconds.
    pub fn as_secs(&self) -> (s: u64)
        ensures
            s == self.secs_of(),
    {
        self.secs
    }

    /// Sub-second nanoseconds.
    pub fn subsec_nanos(&self) -> (n: u32)
        ensures
            n == self.nanos_of(),
    {
        self.nanos
    }
}

/// Two durations with the same seconds and nanoseconds are the same.
pub proof fn lemma_duration_ext(a: Duration, b: Duration)
    requires
        a.secs_of() == b.secs_of(),
        a.nanos_of() == b.nanos_of(),
    ensures
        a == b,
{
}

} // verus!
