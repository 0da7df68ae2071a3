//! Common device driver code.

use vstd::prelude::*;

verus! {

/// The registers of a device: where the block lies in memory, and the values
/// that its registers hold. `T` is the layout of the register block.
pub struct MmioDerefWrapper<T> {
    base_addr: usize,
    registers: T,
}

impl<T> MmioDerefWrapper<T> {
    /// The values of the registers.
    pub closed spec fn view(&self) -> T {
        self.registers
    }

    /// The address of the first register.
    pub closed spec fn spec_base_addr(&self) -> usize {
        self.base_addr
    }

    /// Create an instance.
    pub fn new(base_addr: usize, registers: T) -> (r: Self)
        ensures
            r@ == registers,
            r.spec_base_addr() == base_addr,
    {
        Self { base_addr, registers }
    }

    /// The address of the first register.
    pub fn base_addr(&self) -> (r: usize)
        ensures
            r == self.spec_base_addr(),
    {
        self.base_addr
    }

    /// The registers.
    pub fn get(&self) -> (r: &T)
        ensures
            *r == self@,
    {
        &self.registers
    }

    /// The registers, to be changed.
    pub fn get_mut(&mut self) -> (r: &mut T)
        ensures
            *r == old(self)@,
            final(self)@ == *final(r),
            final(self).spec_base_addr() == old(self).spec_base_addr(),
    {
        &mut self.registers
    }
}

/// A wrapper type for usize with integrated range bound check.
#[derive(Copy, Clone, Debug, PartialEq, Eq)]
pub struct BoundedUsize<const MAX_INCLUSIVE: usize>(usize);

impl<const MAX_INCLUSIVE: usize> BoundedUsize<MAX_INCLUSIVE> {
    #[verifier::type_invariant]
    spec fn in_bounds(self) -> bool {
        self.0 <= MAX_INCLUSIVE
    }

    /// The wrapped number.
    pub closed spec fn view(&self) -> usize {
        self.0
    }

    /// The largest number that the type holds.
    pub fn max_inclusive() -> (r: usize)
        ensures
            r == MAX_INCLUSIVE,
    {
        MAX_INCLUSIVE
    }

    /// Creates a new instance; `number` is at most `MAX_INCLUSIVE`.
    pub fn new(number: usize) -> (r: Self)
        requires
            number <= MAX_INCLUSIVE,
        ensures
            r@ == number,
    {
        Self(number)
    }

    /// Creates a new instance if `number` is at most `MAX_INCLUSIVE`.
    pub fn try_new(number: usize) -> (r: Option<Self>)
        ensures
            number <= MAX_INCLUSIVE ==> r.is_some() && r.unwrap()@ == number,
            number > MAX_INCLUSIVE ==> r.is_none(),
    {
        if number <= MAX_INCLUSIVE {
            Some(Self(number))
        } else {
            None
        }
    }

    /// Return the wrapped number.
    pub fn get(self) -> (r: usize)
        ensures
            r == self@,
            r <= MAX_INCLUSIVE,
    {
        proof {
            use_type_invariant(self);
        }
        self.0
    }
}

} // verus!
