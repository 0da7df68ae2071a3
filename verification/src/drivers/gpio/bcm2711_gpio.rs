//! BCM2711 GPIO Driver.

use crate::drivers::common::MmioDerefWrapper;
use crate::drivers::gpio::{Gpio, GpioDirect, GpioLevel, GpioPupPdn};
use crate::exception::asynchronous::Daif;
use crate::synchronization::{Mutex, NullLock};
use vstd::prelude::*;

verus! {

/// Offset of the first function select register.
pub const GPFSEL: usize = 0x00;

/// Offset of the first pull-up and pull-down control register.
pub const GPPUPPDN: usize = 0xe4;

/// The largest pin number.
pub const MAX_PIN: usize = 57;

/// The GPIO registers that the driver uses.
pub struct RegisterBlock {
    /// Function select registers: three bits for each pin, ten pins to a
    /// register.
    pub gpfsel: [u32; 6],
    /// Pull-up and pull-down control registers: two bits for each pin,
    /// sixteen pins to a register.
    pub gppuppdn: [u32; 4],
}

/// Abstraction for the associated MMIO registers.
pub type Registers = MmioDerefWrapper<RegisterBlock>;

/// A register in which the field of `mask`, `shift` bits to the left, holds
/// `value` and every other bit is as in `register`.
pub open spec fn with_field(register: u32, mask: u32, shift: usize, value: u32) -> u32 {
    (register & !(mask << shift)) | ((value & mask) << shift)
}

/// The function select code of a direction.
pub open spec fn direction_code(io: GpioDirect) -> u32 {
    match io {
        GpioDirect::In => 0b000,
        GpioDirect::Out => 0b001,
    }
}

/// The function select code of an alternate function.
pub open spec fn alt_func_code(func: u8) -> u32 {
    if func == 1 {
        0b101
    } else if func == 2 {
        0b110
    } else if func == 3 {
        0b111
    } else if func == 4 {
        0b011
    } else if func == 5 {
        0b010
    } else {
        0b100
    }
}

/// The code of a pull resistor.
pub open spec fn pull_code(pup_pdn: GpioPupPdn) -> u32 {
    match pup_pdn {
        GpioPupPdn::Off => 0b00,
        GpioPupPdn::PullUp => 0b01,
        GpioPupPdn::PullDown => 0b10,
    }
}

impl RegisterBlock {
    /// Create an instance, with every register zero.
    pub fn new() -> (r: Self)
        ensures
            forall|i: int| 0 <= i < 6 ==> r.gpfsel@[i] == 0,
            forall|i: int| 0 <= i < 4 ==> r.gppuppdn@[i] == 0,
    {
        Self { gpfsel: [0u32;6], gppuppdn: [0u32;4] }
    }
}

/// The GPIO hardware.
pub struct Bcm2711GpioInner {
    register: Registers,
}

impl Bcm2711GpioInner {
    /// The registers.
    pub closed spec fn view(&self) -> RegisterBlock {
        self.register@
    }

    /// The registers after the function select code of `pin` was set: the
    /// pin's three bits hold the code, and nothing else has changed. A pin
    /// beyond the largest changes nothing.
    pub open spec fn has_func(&self, before: Self, pin: usize, code: u32) -> bool {
        &&& self@.gppuppdn == before@.gppuppdn
        &&& if pin > MAX_PIN {
            self@.gpfsel == before@.gpfsel
        } else {
            self@.gpfsel@ == before@.gpfsel@.update(
                pin as int / 10,
                with_field(before@.gpfsel@[pin as int / 10], 0b111, ((pin % 10) * 3) as usize, code),
            )
        }
    }

    /// The registers after the pull resistor code of `pin` was set: the
    /// pin's two bits hold the code, and nothing else has changed. A pin
    /// beyond the largest changes nothing.
    pub open spec fn has_pull(&self, before: Self, pin: usize, code: u32) -> bool {
        &&& self@.gpfsel == before@.gpfsel
        &&& if pin > MAX_PIN {
            self@.gppuppdn == before@.gppuppdn
        } else {
            self@.gppuppdn@ == before@.gppuppdn@.update(
                pin as int / 16,
                with_field(before@.gppuppdn@[pin as int / 16], 0b11, ((pin % 16) * 2) as usize, code),
            )
        }
    }

    /// Create an instance, with every register zero.
    pub fn new(base_addr: usize) -> (r: Self)
        ensures
            forall|i: int| 0 <= i < 6 ==> r@.gpfsel@[i] == 0,
            forall|i: int| 0 <= i < 4 ==> r@.gppuppdn@[i] == 0,
    {
        Self { register: Registers::new(base_addr, RegisterBlock::new()) }
    }

    /// Create an instance from the values that the registers hold.
    pub fn from_registers(base_addr: usize, registers: RegisterBlock) -> (r: Self)
        ensures
            r@ == registers,
    {
        Self { register: Registers::new(base_addr, registers) }
    }

    /// Sets the function select code of a pin.
    pub fn set_func_reg(&mut self, pin: usize, alt_func: u32)
        ensures
            final(self).has_func(*old(self), pin, alt_func),
    {
        if pin > MAX_PIN {
            return ;
        }
        let reg = pin / 10;
        let shift = (pin % 10) * 3;
        let block = self.register.get_mut();
        let mut v = block.gpfsel[reg];
        v = v & !(0b111u32 << shift);
        v = v | ((alt_func & 0b111) << shift);
        block.gpfsel[reg] = v;
    }

    /// The registers.
    pub fn registers(&self) -> (r: &RegisterBlock)
        ensures
            *r == self@,
    {
        self.register.get()
    }
}

impl Gpio for Bcm2711GpioInner {
    fn set_direct(&mut self, pin: usize, io: GpioDirect)
        ensures
            final(self).has_func(*old(self), pin, direction_code(io)),
    {
        let alt_func = match io {
            GpioDirect::In => 0b000,
            GpioDirect::Out => 0b001,
        };
        self.set_func_reg(pin, alt_func);
    }

    fn set_level(&mut self, _pin: usize, _level: GpioLevel)
        ensures
            *final(self) == *old(self),
    {
    }

    fn set_pup_pdn(&mut self, pin: usize, pup_pdn: GpioPupPdn)
        ensures
            final(self).has_pull(*old(self), pin, pull_code(pup_pdn)),
    {
        if pin > MAX_PIN {
            return ;
        }
        let pud: u32 = match pup_pdn {
            GpioPupPdn::Off => 0b00,
            GpioPupPdn::PullUp => 0b01,
            GpioPupPdn::PullDown => 0b10,
        };
        let reg = pin / 16;
        let shift = (pin % 16) * 2;
        let block = self.register.get_mut();
        let mut v = block.gppuppdn[reg];
        v = v & !(0b11u32 << shift);
        v = v | ((pud & 0b11) << shift);
        block.gppuppdn[reg] = v;
    }

    fn set_func(&mut self, pin: usize, func: u8)
        ensures
            if func > 5 {
                *final(self) == *old(self)
            } else {
                final(self).has_func(*old(self), pin, alt_func_code(func))
            },
    {
        if func > 5 {
            return ;
        }
        let alt_func: u32 = if func == 1 {
            0b101
        } else if func == 2 {
            0b110
        } else if func == 3 {
            0b111
        } else if func == 4 {
            0b011
        } else if func == 5 {
            0b010
        } else {
            0b100
        };
        self.set_func_reg(pin, alt_func);
    }
}

/// The compatibility string of the driver.
pub const COMPATIBLE: &'static str = "BCM2711 GPIO";

/// Representation of the GPIO HW.
pub struct Bcm2711Gpio {
    inner: NullLock<Bcm2711GpioInner>,
}

impl Bcm2711Gpio {
    /// The GPIO hardware.
    pub closed spec fn view(&self) -> Bcm2711GpioInner {
        self.inner@
    }

    /// Create an instance, with every register zero.
    pub fn new(mmio_base_addr: usize) -> (r: Self)
        ensures
            forall|i: int| 0 <= i < 6 ==> r@@.gpfsel@[i] == 0,
            forall|i: int| 0 <= i < 4 ==> r@@.gppuppdn@[i] == 0,
    {
        Self { inner: NullLock::new(Bcm2711GpioInner::new(mmio_base_addr)) }
    }

    /// Create an instance from the values that the registers hold.
    pub fn from_registers(mmio_base_addr: usize, registers: RegisterBlock) -> (r: Self)
        ensures
            r@@ == registers,
    {
        Self { inner: NullLock::new(Bcm2711GpioInner::from_registers(mmio_base_addr, registers)) }
    }

    /// Return a compatibility string for identifying the driver.
    pub fn compatible(&self) -> (r: &'static str)
        ensures
            r == COMPATIBLE,
    {
        COMPATIBLE
    }

    /// Makes a pin an input or an output.
    pub fn set_direct(&mut self, daif: &mut Daif, pin: usize, io: GpioDirect)
        ensures
            final(daif)@ == old(daif)@,
            final(self)@.has_func(old(self)@, pin, direction_code(io)),
    {
        let set = |inner: &mut Bcm2711GpioInner| -> (r: ())
            ensures
                final(inner).has_func(*old(inner), pin, direction_code(io)),
            {
                inner.set_direct(pin, io);
            };
        self.inner.lock(daif, set);
    }

    /// Sets the level of an output pin.
    pub fn set_level(&mut self, daif: &mut Daif, pin: usize, level: GpioLevel)
        ensures
            final(daif)@ == old(daif)@,
            final(self)@ == old(self)@,
    {
        let set = |inner: &mut Bcm2711GpioInner| -> (r: ())
            ensures
                *final(inner) == *old(inner),
            {
                inner.set_level(pin, level);
            };
        self.inner.lock(daif, set);
    }

    /// Sets the pull resistor of a pin.
    pub fn set_pup_pdn(&mut self, daif: &mut Daif, pin: usize, pup_pdn: GpioPupPdn)
        ensures
            final(daif)@ == old(daif)@,
            final(self)@.has_pull(old(self)@, pin, pull_code(pup_pdn)),
    {
        let set = |inner: &mut Bcm2711GpioInner| -> (r: ())
            ensures
                final(inner).has_pull(*old(inner), pin, pull_code(pup_pdn)),
            {
                inner.set_pup_pdn(pin, pup_pdn);
            };
        self.inner.lock(daif, set);
    }

    /// Gives a pin one of its alternate functions, 0 to 5.
    pub fn set_func(&mut self, daif: &mut Daif, pin: usize, func: u8)
        ensures
            final(daif)@ == old(daif)@,
            if func > 5 {
                final(self)@ == old(self)@
            } else {
                final(self)@.has_func(old(self)@, pin, alt_func_code(func))
            },
    {
        let set = |inner: &mut Bcm2711GpioInner| -> (r: ())
            ensures
                if func > 5 {
                    *final(inner) == *old(inner)
                } else {
                    final(inner).has_func(*old(inner), pin, alt_func_code(func))
                },
            {
                inner.set_func(pin, func);
            };
        self.inner.lock(daif, set);
    }

    /// The registers.
    pub fn registers(&mut self, daif: &mut Daif) -> (r: RegisterBlock)
        ensures
            final(daif)@ == old(daif)@,
            final(self)@ == old(self)@,
            r.gpfsel == old(self)@@.gpfsel,
            r.gppuppdn == old(self)@@.gppuppdn,
    {
        let get = |inner: &mut Bcm2711GpioInner| -> (r: RegisterBlock)
            ensures
                *final(inner) == *old(inner),
                r.gpfsel == old(inner)@.gpfsel,
                r.gppuppdn == old(inner)@.gppuppdn,
            {
                let registers = inner.registers();
                RegisterBlock { gpfsel: registers.gpfsel, gppuppdn: registers.gppuppdn }
            };
        self.inner.lock(daif, get)
    }
}

} // verus!
