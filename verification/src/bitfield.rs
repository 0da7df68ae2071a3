//! Register bit fields. A field is given by its mask, not yet shifted, and
//! by the number of bits it is shifted to the left. The encoding itself is
//! left to `tock_registers`, which the platform layer uses on the hardware
//! registers.

use tock_registers::fields::{Field, FieldValue};
use vstd::prelude::*;

verus! {

/// `FieldValue::<u64, ()>::new(mask, shift, value).value`: `value`, cut to the
/// field's mask and moved to the field's place in a 64-bit register.
#[verifier::external_body]
pub(crate) fn field_value_u64(mask: u64, shift: usize, value: u64) -> (bits: u64)
    requires
        shift < 64,
    ensures
        bits == (value & mask) << shift,
{
    FieldValue::<u64, ()>::new(mask, shift, value).value
}

/// `FieldValue::<u32, ()>::new(mask, shift, value).value`: `value`, cut to the
/// field's mask and moved to the field's place in a 32-bit register.
#[verifier::external_body]
pub(crate) fn field_value_u32(mask: u32, shift: usize, value: u32) -> (bits: u32)
    requires
        shift < 32,
    ensures
        bits == (value & mask) << shift,
{
    FieldValue::<u32, ()>::new(mask, shift, value).value
}

/// `Field::<u32, ()>::new(mask, shift).read(register)`: the field's bits of
/// `register`, moved down to bit 0.
#[verifier::external_body]
pub(crate) fn field_read_u32(mask: u32, shift: usize, register: u32) -> (value: u32)
    requires
        shift < 32,
    ensures
        value == (register & (mask << shift)) >> shift,
{
    Field::<u32, ()>::new(mask, shift).read(register)
}

} // verus!
