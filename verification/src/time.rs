//! Spans of time.

use vstd::prelude::*;

verus! {

/// The number of nanoseconds of a second.
pub const NANOSEC_PER_SEC: u64 = 1_000_000_000;

/// A span of time: whole seconds, and nanoseconds below one second.
#[derive(Copy, Clone, Debug, PartialEq, Eq)]
pub struct Duration {
    secs: u64,
    nanos: u32,
}

impl Duration {
    #[verifier::type_invariant]
    spec fn nanos_below_second(self) -> bool {
        self.nanos < NANOSEC_PER_SEC
    }

    /// The whole seconds of the span.
    pub closed spec fn secs(&self) -> u64 {
        self.secs
    }

    /// The nanoseconds of the span below one second.
    pub closed spec fn nanos(&self) -> u32 {
        self.nanos
    }

    /// The span in nanoseconds.
    pub open spec fn view(&self) -> nat {
        (self.secs() * NANOSEC_PER_SEC + self.nanos()) as nat
    }

    /// A span of `secs` seconds and `nanos` nanoseconds, where `nanos` is
    /// less than a second.
    pub fn new(secs: u64, nanos: u32) -> (r: Self)
        requires
            nanos < NANOSEC_PER_SEC,
        ensures
            r.secs() == secs,
            r.nanos() == nanos,
    {
        Self { secs, nanos }
    }

    /// A span of no time.
    pub fn zero() -> (r: Self)
        ensures
            r@ == 0,
            r.secs() == 0,
            r.nanos() == 0,
    {
        Self { secs: 0, nanos: 0 }
    }

    /// A span of whole seconds.
    pub fn from_secs(secs: u64) -> (r: Self)
        ensures
            r.secs() == secs,
            r.nanos() == 0,
    {
        Self { secs, nanos: 0 }
    }

    /// The whole seconds of the span.
    pub fn as_secs(&self) -> (r: u64)
        ensures
            r == self.secs(),
    {
        self.secs
    }

    /// The nanoseconds of the span below one second.
    pub fn subsec_nanos(&self) -> (r: u32)
        ensures
            r == self.nanos(),
            r < NANOSEC_PER_SEC,
    {
        proof {
            use_type_invariant(self);
        }
        self.nanos
    }

    /// The microseconds of the span below one second.
    pub fn subsec_micros(&self) -> (r: u32)
        ensures
            r == self.nanos() / 1000,
    {
        self.nanos / 1000
    }

    /// The span in nanoseconds.
    pub fn as_nanos(&self) -> (r: u128)
        ensures
            r == self@,
    {
        proof {
            use_type_invariant(self);
            assert(self.secs * NANOSEC_PER_SEC <= 0xffff_ffff_ffff_ffff * 1_000_000_000)
                by (nonlinear_arith)
                requires
                    self.secs <= 0xffff_ffff_ffff_ffff,
                    NANOSEC_PER_SEC == 1_000_000_000,
            ;
        }
        (self.secs as u128) * (NANOSEC_PER_SEC as u128) + (self.nanos as u128)
    }

    /// Whether the span is shorter than `other`.
    pub fn lt(&self, other: &Duration) -> (r: bool)
        ensures
            r == (self@ < other@),
    {
        proof {
            use_type_invariant(self);
            use_type_invariant(other);
            assert(self.secs < other.secs ==> self.secs * NANOSEC_PER_SEC + NANOSEC_PER_SEC
                <= other.secs * NANOSEC_PER_SEC) by (nonlinear_arith);
            assert(self.secs > other.secs ==> other.secs * NANOSEC_PER_SEC + NANOSEC_PER_SEC
                <= self.secs * NANOSEC_PER_SEC) by (nonlinear_arith);
        }
        self.secs < other.secs || (self.secs == other.secs && self.nanos < other.nanos)
    }
}

} // verus!
