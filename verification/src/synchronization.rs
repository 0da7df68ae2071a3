//! Synchronization primitives: wrappers that own their data and hand it to
//! a closure for the time of one call.

use crate::exception::asynchronous::{local_irq_mask_save, local_irq_restore, Daif};
use crate::state::{State, StateManager};
use vstd::prelude::*;

verus! {

/// Any object implementing this trait guarantees exclusive access to the
/// data wrapped within the mutex for the duration of the provided closure.
///
/// `T` is the type of the data that is wrapped by the mutex.
pub trait Mutex<T> {
    /// The wrapped data.
    spec fn data(&self) -> T;

    /// Locks the mutex and grants the closure temporary mutable access to the
    /// wrapped data. The interrupt mask bits of the core are the same after
    /// the call as before.
    fn lock<R, F: FnOnce(&mut T) -> R>(&mut self, daif: &mut Daif, f: F) -> (r: R)
        requires
            forall|d: &mut T| *d == old(self).data() ==> #[trigger] call_requires(f, (d,)),
        ensures
            final(daif)@ == old(daif)@,
            exists|d: &mut T|
                *d == old(self).data() && *final(d) == final(self).data() && #[trigger] call_ensures(
                    f,
                    (d,),
                    r,
                ),
    ;
}

/// A reader-writer exclusion type.
///
/// `T` is the type of the encapsulated data.
pub trait ReadWriteEx<T> {
    /// The encapsulated data.
    spec fn data(&self) -> T;

    /// Grants temporary mutable access to the encapsulated data. Writing is
    /// for the init phase, with interrupts masked on the core.
    fn write<R, F: FnOnce(&mut T) -> R>(
        &mut self,
        state: &StateManager,
        daif: &Daif,
        f: F,
    ) -> (r: R)
        requires
            write_permitted(state@, *daif),
            forall|d: &mut T| *d == old(self).data() ==> #[trigger] call_requires(f, (d,)),
        ensures
            exists|d: &mut T|
                *d == old(self).data() && *final(d) == final(self).data() && #[trigger] call_ensures(
                    f,
                    (d,),
                    r,
                ),
    ;

    /// Grants temporary immutable access to the encapsulated data.
    fn read<R, F: FnOnce(&T) -> R>(&self, f: F) -> (r: R)
        requires
            call_requires(f, (&self.data(),)),
        ensures
            call_ensures(f, (&self.data(),), r),
    ;
}

/// Whether encapsulated data may be written: the kernel is in its init
/// phase and interrupts are masked on the core.
pub open spec fn write_permitted(state: State, daif: Daif) -> bool {
    state == State::Init && daif.irq_masked()
}

/// Decides `write_permitted`.
pub fn is_write_permitted(state: &StateManager, daif: &Daif) -> (r: bool)
    ensures
        r == write_permitted(state@, *daif),
{
    state.is_init() && daif.mask_state().irq
}

/// A lock that takes its exclusion on trust: it is for code that runs on a
/// single core and cannot be interrupted by another user of the data.
pub struct NullLock<T> {
    data: T,
}

/// A lock that masks interrupts on the core while the data is in use, so
/// that the core's own interrupt handlers cannot reach the data meanwhile.
pub struct IrqSafeNullLock<T> {
    data: T,
}

/// A lock that is read-write during the single-core kernel init phase and
/// read-only afterwards.
pub struct InitStateLock<T> {
    data: T,
}

impl<T> NullLock<T> {
    /// The wrapped data.
    pub closed spec fn view(&self) -> T {
        self.data
    }

    /// Create an instance.
    pub fn new(data: T) -> (r: Self)
        ensures
            r@ == data,
    {
        Self { data }
    }
}

impl<T> Mutex<T> for NullLock<T> {
    open spec fn data(&self) -> T {
        self@
    }

    fn lock<R, F: FnOnce(&mut T) -> R>(&mut self, daif: &mut Daif, f: F) -> (r: R) {
        f(&mut self.data)
    }
}

impl<T> IrqSafeNullLock<T> {
    /// The wrapped data.
    pub closed spec fn view(&self) -> T {
        self.data
    }

    /// Create an instance.
    pub fn new(data: T) -> (r: Self)
        ensures
            r@ == data,
    {
        Self { data }
    }
}

impl<T> IrqSafeNullLock<T> {
    /// A look at the data, for reading only.
    pub fn peek(&self) -> (r: &T)
        ensures
            *r == self@,
    {
        &self.data
    }
}

impl<T> Mutex<T> for IrqSafeNullLock<T> {
    open spec fn data(&self) -> T {
        self@
    }

    fn lock<R, F: FnOnce(&mut T) -> R>(&mut self, daif: &mut Daif, f: F) -> (r: R) {
        // Execute the closure while IRQs are masked.
        let saved = local_irq_mask_save(daif);
        let ret = f(&mut self.data);
        local_irq_restore(daif, saved);
        ret
    }
}

impl<T> InitStateLock<T> {
    /// The encapsulated data.
    pub closed spec fn view(&self) -> T {
        self.data
    }

    /// Create an instance.
    pub fn new(data: T) -> (r: Self)
        ensures
            r@ == data,
    {
        Self { data }
    }
}

impl<T> ReadWriteEx<T> for InitStateLock<T> {
    open spec fn data(&self) -> T {
        self@
    }

    fn write<R, F: FnOnce(&mut T) -> R>(&mut self, state: &StateManager, daif: &Daif, f: F) -> (r:
        R) {
        f(&mut self.data)
    }

    fn read<R, F: FnOnce(&T) -> R>(&self, f: F) -> (r: R) {
        f(&self.data)
    }
}

/// Encapsulated data may be written in the init phase with interrupts
/// masked, and in no other phase; neither the phase nor the mask bits stand
/// in the way of reading.
pub proof fn law_write_only_during_init(state: State, daif: Daif)
    ensures
        state == State::Init && daif.irq_masked() ==> write_permitted(state, daif),
        state != State::Init ==> !write_permitted(state, daif),
        !daif.irq_masked() ==> !write_permitted(state, daif),
{
}

} // verus!
