//! Architectural timer primitives: the counter of the generic timer, which
//! counts at a fixed frequency, and its conversion to and from spans of
//! time.

use crate::time::{Duration, NANOSEC_PER_SEC};
use vstd::arithmetic::div_mod::{
    lemma_div_is_ordered, lemma_fundamental_div_mod, lemma_hoist_over_denominator,
};
use vstd::prelude::*;

verus! {

/// The message of a span of time that the counter cannot measure.
pub open spec fn duration_too_big() -> &'static str {
    "Conversion error. Duration too big"
}

/// A value of the generic timer's counter.
#[derive(Copy, Clone, Debug, PartialEq, Eq)]
pub struct GenericTimerCounterValue(pub u64);

/// The whole seconds that pass while a counter of `frequency` ticks per
/// second counts to `value`.
pub open spec fn counter_secs(value: u64, frequency: u32) -> int {
    value as int / frequency as int
}

/// The nanoseconds, below one second, that pass while a counter of
/// `frequency` ticks per second counts to `value`.
pub open spec fn counter_subsec_nanos(value: u64, frequency: u32) -> int {
    (value as int % frequency as int) * NANOSEC_PER_SEC / frequency as int
}

/// The ticks that a counter of `frequency` ticks per second counts in a
/// span of `nanos` nanoseconds.
pub open spec fn duration_ticks(nanos: nat, frequency: u32) -> int {
    nanos * frequency / NANOSEC_PER_SEC as int
}

/// The nanoseconds below one second are less than a second.
proof fn lemma_subsec_nanos_bound(value: u64, frequency: u32)
    requires
        frequency > 0,
    ensures
        0 <= counter_subsec_nanos(value, frequency) < NANOSEC_PER_SEC,
{
    let rest = value as int % frequency as int;
    let f = frequency as int;
    let n = NANOSEC_PER_SEC as int;
    assert(0 <= rest < f);
    assert(0 <= rest * n <= (f - 1) * n) by (nonlinear_arith)
        requires
            0 <= rest < f,
            n > 0,
    ;
    lemma_div_is_ordered(rest * n, (f - 1) * n, f);
    lemma_div_is_ordered(0, rest * n, f);
    assert(((f - 1) * n) / f < n) by {
        lemma_fundamental_div_mod((f - 1) * n, f);
        let q = ((f - 1) * n) / f;
        assert(q < n) by (nonlinear_arith)
            requires
                f > 0,
                (f - 1) * n == f * q + ((f - 1) * n) % f,
                0 <= ((f - 1) * n) % f,
                n > 0,
        ;
    }
}

/// The span in which a counter counts to a value, in nanoseconds.
pub open spec fn counter_nanos(value: u64, frequency: u32) -> int {
    value * NANOSEC_PER_SEC / frequency as int
}

/// Seconds and nanoseconds of a counter value make up its span, which
/// grows with the value.
proof fn lemma_counter_nanos(value: u64, frequency: u32)
    requires
        frequency > 0,
    ensures
        counter_secs(value, frequency) * NANOSEC_PER_SEC + counter_subsec_nanos(value, frequency)
            == counter_nanos(value, frequency),
        0 <= counter_secs(value, frequency) <= u64::MAX,
        0 <= counter_nanos(value, frequency),
        forall|other: u64|
            value <= other ==> counter_nanos(value, frequency) <= #[trigger] counter_nanos(
                other,
                frequency,
            ),
{
    let f = frequency as int;
    let n = NANOSEC_PER_SEC as int;
    let v = value as int;
    let q = v / f;
    let rest = v % f;
    lemma_fundamental_div_mod(v, f);
    lemma_hoist_over_denominator(rest * n, q * n, f as nat);
    assert(rest * n + q * n * f == v * n) by (nonlinear_arith)
        requires
            v == f * q + rest,
    ;
    assert(0 <= q <= v) by (nonlinear_arith)
        requires
            v == f * q + rest,
            0 <= rest < f,
            v >= 0,
    ;
    lemma_div_is_ordered(0, v * n, f);
    assert forall|other: u64| value <= other implies counter_nanos(value, frequency)
        <= #[trigger] counter_nanos(other, frequency) by {
        assert(v * n <= other * n) by (nonlinear_arith)
            requires
                v <= other,
                n >= 0,
        ;
        lemma_div_is_ordered(v * n, other * n, f);
    }
}

impl GenericTimerCounterValue {
    /// The largest value of the counter.
    pub fn max() -> (r: Self)
        ensures
            r.0 == u64::MAX,
    {
        GenericTimerCounterValue(u64::MAX)
    }

    /// The counter after `rhs` more ticks; it wraps around at its largest
    /// value.
    pub fn add(self, rhs: Self) -> (r: Self)
        ensures
            r.0 == (self.0 + rhs.0) % 0x1_0000_0000_0000_0000,
    {
        let sum = self.0.wrapping_add(rhs.0);
        assert(sum == (self.0 + rhs.0) % 0x1_0000_0000_0000_0000) by {
            if self.0 + rhs.0 > u64::MAX {
                assert(sum == self.0 + rhs.0 - 0x1_0000_0000_0000_0000);
            }
        }
        GenericTimerCounterValue(sum)
    }

    /// The span of time in which a counter of `frequency` ticks per second
    /// counts to this value.
    pub fn to_duration(self, frequency: u32) -> (r: Duration)
        requires
            frequency > 0,
        ensures
            r.secs() == counter_secs(self.0, frequency),
            r.nanos() == counter_subsec_nanos(self.0, frequency),
            r@ == counter_nanos(self.0, frequency),
    {
        proof {
            lemma_counter_nanos(self.0, frequency);
        }
        if self.0 == 0 {
            return Duration::zero();
        }
        let frequency: u64 = frequency as u64;
        let secs = self.0 / frequency;
        let sub_second_counter_value = self.0 % frequency;
        proof {
            lemma_subsec_nanos_bound(self.0, frequency as u32);
            assert(sub_second_counter_value * NANOSEC_PER_SEC <= 0xffff_ffff * NANOSEC_PER_SEC)
                by (nonlinear_arith)
                requires
                    sub_second_counter_value <= 0xffff_ffff,
            ;
        }
        let nanos = (sub_second_counter_value * NANOSEC_PER_SEC / frequency) as u32;
        Duration::new(secs, nanos)
    }

    /// The value that a counter of `frequency` ticks per second reaches in
    /// the given span of time, or an error for a span longer than the
    /// counter can measure.
    pub fn try_from_duration(value: Duration, frequency: u32) -> (r: Result<Self, &'static str>)
        requires
            frequency > 0,
        ensures
            match r {
                Ok(counter) => counter.0 == duration_ticks(value@, frequency),
                Err(message) => message == duration_too_big(),
            },
            r is Err <==> value@ > max_duration_nanos(frequency),
    {
        if value.lt(&resolution(frequency)) {
            proof {
                let f = frequency as int;
                let n = NANOSEC_PER_SEC as int;
                let v = value@ as int;
                lemma_counter_nanos(1, frequency);
                lemma_max_duration(frequency);
                lemma_counter_nanos(u64::MAX, frequency);
                lemma_fundamental_div_mod(n, f);
                assert(v * f < n) by (nonlinear_arith)
                    requires
                        0 <= v < n / f,
                        n == f * (n / f) + n % f,
                        0 <= n % f,
                        f > 0,
                ;
                assert(0 <= v * f) by (nonlinear_arith)
                    requires
                        0 <= v,
                        0 < f,
                ;
            }
            return Ok(GenericTimerCounterValue(0));
        }
        if max_duration(frequency).lt(&value) {
            return Err("Conversion error. Duration too big");
        }
        let frequency_wide: u128 = frequency as u128;
        let duration: u128 = value.as_nanos();
        proof {
            lemma_max_duration(frequency);
            let f = frequency as int;
            let n = NANOSEC_PER_SEC as int;
            let d = duration as int;
            assert(d * f <= 0xffff_ffff_ffff_ffff * n) by (nonlinear_arith)
                requires
                    0 <= d <= max_duration_nanos(frequency),
                    max_duration_nanos(frequency) * f <= 0xffff_ffff_ffff_ffff * n,
                    f > 0,
            ;
            lemma_div_is_ordered(d * f, 0xffff_ffff_ffff_ffff * n, n);
            assert((0xffff_ffff_ffff_ffff * n) / n == 0xffff_ffff_ffff_ffff) by (nonlinear_arith)
                requires
                    n == 1_000_000_000,
            ;
        }
        let counter_value = duration * frequency_wide / (NANOSEC_PER_SEC as u128);
        Ok(GenericTimerCounterValue(counter_value as u64))
    }
}

/// The longest span of time that a counter of `frequency` ticks per second
/// can measure, in nanoseconds.
pub open spec fn max_duration_nanos(frequency: u32) -> nat {
    (counter_secs(u64::MAX, frequency) * NANOSEC_PER_SEC + counter_subsec_nanos(
        u64::MAX,
        frequency,
    )) as nat
}

/// The ticks of the longest span are not more than the counter holds.
proof fn lemma_max_duration(frequency: u32)
    requires
        frequency > 0,
    ensures
        max_duration_nanos(frequency) * frequency <= u64::MAX * NANOSEC_PER_SEC,
        max_duration_nanos(frequency) == counter_secs(u64::MAX, frequency) * NANOSEC_PER_SEC
            + counter_subsec_nanos(u64::MAX, frequency),
{
    let f = frequency as int;
    let n = NANOSEC_PER_SEC as int;
    let m = u64::MAX as int;
    let q = m / f;
    let rest = m % f;
    let sub = (rest * n) / f;
    lemma_subsec_nanos_bound(u64::MAX, frequency);
    lemma_fundamental_div_mod(m, f);
    lemma_fundamental_div_mod(rest * n, f);
    assert(q >= 0) by (nonlinear_arith)
        requires
            m == f * q + rest,
            0 <= rest < f,
            m >= 0,
            f > 0,
    ;
    assert((q * n + sub) * f <= m * n) by (nonlinear_arith)
        requires
            m == f * q + rest,
            rest * n == f * sub + (rest * n) % f,
            0 <= (rest * n) % f,
    ;
    assert(q * n >= 0) by (nonlinear_arith)
        requires
            q >= 0,
            n >= 0,
    ;
}

/// The longest span of time that a counter of `frequency` ticks per second
/// can measure.
pub fn max_duration(frequency: u32) -> (r: Duration)
    requires
        frequency > 0,
    ensures
        r@ == max_duration_nanos(frequency),
{
    proof {
        lemma_max_duration(frequency);
    }
    GenericTimerCounterValue::max().to_duration(frequency)
}

/// The timer's resolution: the span of one tick.
pub fn resolution(frequency: u32) -> (r: Duration)
    requires
        frequency > 0,
    ensures
        r.secs() == counter_secs(1, frequency),
        r.nanos() == counter_subsec_nanos(1, frequency),
        r@ == counter_nanos(1, frequency),
{
    GenericTimerCounterValue(1).to_duration(frequency)
}

/// The uptime since power-on of the device, by the value of the counter.
pub fn uptime(counter: GenericTimerCounterValue, frequency: u32) -> (r: Duration)
    requires
        frequency > 0,
    ensures
        r.secs() == counter_secs(counter.0, frequency),
        r.nanos() == counter_subsec_nanos(counter.0, frequency),
        r@ == counter_nanos(counter.0, frequency),
{
    counter.to_duration(frequency)
}

/// The value of the counter at which a spin of the given span ends, when it
/// begins at `current`: `None` for a span that the counter cannot measure,
/// which is not waited for.
pub fn spin_for(current: GenericTimerCounterValue, duration: Duration, frequency: u32) -> (r:
    Option<GenericTimerCounterValue>)
    requires
        frequency > 0,
    ensures
        duration@ > max_duration_nanos(frequency) ==> r.is_none(),
        duration@ <= max_duration_nanos(frequency) ==> r.is_some() && r.unwrap().0 == (current.0
            + duration_ticks(duration@, frequency)) % 0x1_0000_0000_0000_0000,
{
    match GenericTimerCounterValue::try_from_duration(duration, frequency) {
        Err(_) => None,
        Ok(delta) => Some(current.add(delta)),
    }
}

/// Whether a spin that ends at `target` goes on at the counter value `now`.
pub fn spin_continues(now: GenericTimerCounterValue, target: GenericTimerCounterValue) -> (r: bool)
    ensures
        r == (now.0 < target.0),
{
    now.0 < target.0
}

} // verus!
