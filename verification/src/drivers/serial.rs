//! Serial drivers.

use vstd::prelude::*;

pub mod pl011_uart;

verus! {

/// Whether the dividers for a baud rate can be computed: the rate is not
/// zero, and sixteen times the rate is within the range of the registers'
/// arithmetic.
pub open spec fn baud_supported(baud: u32) -> bool {
    0 < baud && 16 * baud <= u32::MAX
}

/// UART functions.
pub trait Uart {
    /// Set up baud rate and characteristics.
    fn set_baud(&mut self, baud: u32)
        requires
            baud_supported(baud),
    ;
}

} // verus!
