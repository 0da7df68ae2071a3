//! The kernel's phase: it starts in the init phase on a single core and is
//! moved on when bring-up is done. What may be changed depends on the phase.

use vstd::prelude::*;

verus! {

/// The phases of the kernel.
#[derive(Copy, Clone, Debug, PartialEq, Eq)]
pub enum State {
    /// The kernel is bringing itself up, on one core.
    Init,
    /// The kernel runs its main code on one core.
    SingleCoreMain,
    /// The kernel runs its main code on several cores.
    MultiCoreMain,
}

/// Keeps the kernel's phase.
pub struct StateManager {
    state: State,
}

impl StateManager {
    /// The phase.
    pub closed spec fn view(&self) -> State {
        self.state
    }

    /// Create an instance, in the init phase.
    pub fn new() -> (r: Self)
        ensures
            r@ == State::Init,
    {
        Self { state: State::Init }
    }

    /// Return whether the kernel is in its init phase.
    pub fn is_init(&self) -> (r: bool)
        ensures
            r == (self@ == State::Init),
    {
        match self.state {
            State::Init => true,
            _ => false,
        }
    }

    /// Return whether the kernel runs its main code on one core.
    pub fn is_single_core_main(&self) -> (r: bool)
        ensures
            r == (self@ == State::SingleCoreMain),
    {
        match self.state {
            State::SingleCoreMain => true,
            _ => false,
        }
    }

    /// Return whether the kernel runs its main code on several cores.
    pub fn is_multi_core_main(&self) -> (r: bool)
        ensures
            r == (self@ == State::MultiCoreMain),
    {
        match self.state {
            State::MultiCoreMain => true,
            _ => false,
        }
    }

    /// Leave the init phase.
    pub fn transition_to_single_core_main(&mut self)
        requires
            old(self)@ == State::Init,
        ensures
            final(self)@ == State::SingleCoreMain,
    {
        self.state = State::SingleCoreMain;
    }

    /// Start the other cores' phase.
    pub fn transition_to_multi_core_main(&mut self)
        requires
            old(self)@ == State::SingleCoreMain,
        ensures
            final(self)@ == State::MultiCoreMain,
    {
        self.state = State::MultiCoreMain;
    }
}

} // verus!
