//! GPIO drivers.

use vstd::prelude::*;

pub mod bcm2711_gpio;

verus! {

/// The direction of a pin.
#[derive(Copy, Clone, Debug, PartialEq, Eq)]
pub enum GpioDirect {
    In,
    Out,
}

/// The level of a pin.
#[derive(Copy, Clone, Debug, PartialEq, Eq)]
pub enum GpioLevel {
    Low,
    High,
}

/// The pull resistor of a pin.
#[derive(Copy, Clone, Debug, PartialEq, Eq)]
pub enum GpioPupPdn {
    Off,
    PullUp,
    PullDown,
}

/// GPIO functions.
pub trait Gpio {
    /// Makes a pin an input or an output.
    fn set_direct(&mut self, pin: usize, io: GpioDirect);

    /// Sets the level of an output pin.
    fn set_level(&mut self, pin: usize, level: GpioLevel);

    /// Sets the pull resistor of a pin.
    fn set_pup_pdn(&mut self, pin: usize, pup_pdn: GpioPupPdn);

    /// Gives a pin one of its alternate functions, 0 to 5.
    fn set_func(&mut self, pin: usize, func: u8);
}

} // verus!
