//! Timer primitives.

use crate::time::Duration;
use crate::timer::{
    self, counter_nanos, counter_secs, counter_subsec_nanos, duration_ticks, max_duration_nanos,
    GenericTimerCounterValue,
};
use vstd::prelude::*;

verus! {

/// Provides time management functions, for a counter that counts at a fixed
/// frequency.
pub struct TimerManager {
    frequency: u32,
}

impl TimerManager {
    #[verifier::type_invariant]
    spec fn counts(self) -> bool {
        self.frequency > 0
    }

    /// The ticks of the counter per second.
    pub closed spec fn frequency(&self) -> u32 {
        self.frequency
    }

    /// Create an instance for a counter of `frequency` ticks per second.
    pub fn new(frequency: u32) -> (r: Self)
        requires
            frequency > 0,
        ensures
            r.frequency() == frequency,
    {
        Self { frequency }
    }

    /// The timer's resolution.
    pub fn resolution(&self) -> (r: Duration)
        ensures
            r@ == counter_nanos(1, self.frequency()),
            r.secs() == counter_secs(1, self.frequency()),
            r.nanos() == counter_subsec_nanos(1, self.frequency()),
    {
        proof {
            use_type_invariant(self);
        }
        timer::resolution(self.frequency)
    }

    /// The uptime since power-on of the device, by the value of the counter.
    pub fn uptime(&self, counter: GenericTimerCounterValue) -> (r: Duration)
        ensures
            r@ == counter_nanos(counter.0, self.frequency()),
            r.secs() == counter_secs(counter.0, self.frequency()),
            r.nanos() == counter_subsec_nanos(counter.0, self.frequency()),
    {
        proof {
            use_type_invariant(self);
        }
        timer::uptime(counter, self.frequency)
    }

    /// The value of the counter at which a spin of the given span ends, when
    /// it begins at `current`: `None` for a span that the counter cannot
    /// measure, which is not waited for.
    pub fn spin_for(&self, current: GenericTimerCounterValue, duration: Duration) -> (r: Option<
        GenericTimerCounterValue,
    >)
        ensures
            duration@ > max_duration_nanos(self.frequency()) ==> r.is_none(),
            duration@ <= max_duration_nanos(self.frequency()) ==> r.is_some() && r.unwrap().0 == (
            current.0 + duration_ticks(duration@, self.frequency())) % 0x1_0000_0000_0000_0000,
    {
        proof {
            use_type_invariant(self);
        }
        timer::spin_for(current, duration, self.frequency)
    }
}

/// Return the time manager for a counter of `frequency` ticks per second.
pub fn timer_manager(frequency: u32) -> (r: TimerManager)
    requires
        frequency > 0,
    ensures
        r.frequency() == frequency,
{
    TimerManager::new(frequency)
}

} // verus!
