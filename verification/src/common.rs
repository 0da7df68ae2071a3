//! General purpose code.

use vstd::prelude::*;

verus! {

/// The number of bytes of a KiB.
pub const KIB: usize = 1024;

/// The number of bytes of a MiB.
pub const MIB: usize = 0x10_0000;

/// The number of bytes of a GiB.
pub const GIB: usize = 0x4000_0000;

/// The number of units of `unit` bytes that hold `size` bytes.
pub open spec fn div_ceil(size: usize, unit: usize) -> int {
    (size + unit - 1) / (unit as int)
}

/// A size in the largest unit of which it holds at least one, rounded up to
/// whole units.
pub open spec fn human_readable_ceil(size: usize) -> (usize, &'static str) {
    if size >= GIB {
        (div_ceil(size, GIB) as usize, "GiB")
    } else if size >= MIB {
        (div_ceil(size, MIB) as usize, "MiB")
    } else if size >= KIB {
        (div_ceil(size, KIB) as usize, "KiB")
    } else {
        (size, "Byte")
    }
}

/// Convert a size into human readable format.
pub fn size_human_readable_ceil(size: usize) -> (r: (usize, &'static str))
    ensures
        r == human_readable_ceil(size),
{
    if size / GIB > 0 {
        (size / GIB + if size % GIB != 0 {
            1
        } else {
            0
        }, "GiB")
    } else if size / MIB > 0 {
        (size / MIB + if size % MIB != 0 {
            1
        } else {
            0
        }, "MiB")
    } else if size / KIB > 0 {
        (size / KIB + if size % KIB != 0 {
            1
        } else {
            0
        }, "KiB")
    } else {
        (size, "Byte")
    }
}

} // verus!
