//! Processor code.

use vstd::prelude::*;

verus! {

/// The core that brings the kernel up.
pub const BOOT_CORE_ID: u64 = 0;

/// The bits of the multiprocessor affinity register that number the core.
pub const CORE_ID_MASK: u64 = 0b11;

/// The number of the core, by its multiprocessor affinity register.
pub fn core_id(mpidr_el1: u64) -> (r: u64)
    ensures
        r == mpidr_el1 & CORE_ID_MASK,
        r <= 3,
{
    assert(mpidr_el1 & 0b11 <= 3) by (bit_vector);
    mpidr_el1 & CORE_ID_MASK
}

} // verus!
