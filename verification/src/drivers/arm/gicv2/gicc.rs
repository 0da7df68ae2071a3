//! GICC Driver - GIC CPU interface.

use crate::bitfield::{field_read_u32, field_value_u32};
use crate::drivers::common::MmioDerefWrapper;
use crate::exception::asynchronous::IrqContext;
use vstd::prelude::*;

verus! {

/// Offset of the CPU interface control register.
pub const GICC_CTLR: usize = 0x000;

/// Offset of the interrupt priority mask register.
pub const GICC_PMR: usize = 0x004;

/// Offset of the interrupt acknowledge register.
pub const GICC_IAR: usize = 0x00c;

/// Offset of the end of interrupt register.
pub const GICC_EOIR: usize = 0x010;

/// The field of the acknowledge and end of interrupt registers that holds an
/// interrupt number (bits 9..0).
pub const INTERRUPT_ID: u32 = 0x3ff;

/// The priority mask that lets interrupts of every priority pass.
pub const PRIORITY_ACCEPT_ALL: u32 = 255;

/// The registers of the CPU interface.
pub struct RegisterBlock {
    /// CPU interface control register; bit 0 enables the interface.
    pub ctlr: u32,
    /// Interrupt priority mask register; bits 7..0 hold the priority.
    pub pmr: u32,
    /// Interrupt acknowledge register; bits 9..0 hold the number of the
    /// pending interrupt of highest priority.
    pub iar: u32,
    /// End of interrupt register; bits 9..0 take the number of the interrupt
    /// whose handling is complete.
    pub eoir: u32,
}

/// Abstraction for the associated MMIO registers.
pub type Registers = MmioDerefWrapper<RegisterBlock>;

/// The interrupt number that an acknowledge register holds.
pub open spec fn pending_irq_number(iar: u32) -> usize {
    (iar & INTERRUPT_ID) as usize
}

impl RegisterBlock {
    /// Create an instance, with every register zero.
    pub fn new() -> (r: Self)
        ensures
            r.ctlr == 0,
            r.pmr == 0,
            r.iar == 0,
            r.eoir == 0,
    {
        Self { ctlr: 0, pmr: 0, iar: 0, eoir: 0 }
    }
}

/// Representation of the GIC CPU interface.
pub struct GicC {
    registers: Registers,
}

impl GicC {
    /// The registers of the executing core's interface.
    pub closed spec fn view(&self) -> RegisterBlock {
        self.registers@
    }

    /// The address of the register block.
    pub closed spec fn mmio_base_addr(&self) -> usize {
        self.registers.spec_base_addr()
    }

    /// Create an instance, with every register zero.
    pub fn new(mmio_base_addr: usize) -> (r: Self)
        ensures
            r.mmio_base_addr() == mmio_base_addr,
            r@.ctlr == 0,
            r@.pmr == 0,
            r@.iar == 0,
            r@.eoir == 0,
    {
        Self { registers: Registers::new(mmio_base_addr, RegisterBlock::new()) }
    }

    /// Create an instance from the values that the registers hold.
    pub fn from_registers(mmio_base_addr: usize, registers: RegisterBlock) -> (r: Self)
        ensures
            r.mmio_base_addr() == mmio_base_addr,
            r@ == registers,
    {
        Self { registers: Registers::new(mmio_base_addr, registers) }
    }

    /// Accept interrupts of any priority.
    pub fn priority_accept_all(&mut self)
        ensures
            final(self).mmio_base_addr() == old(self).mmio_base_addr(),
            final(self)@.pmr == PRIORITY_ACCEPT_ALL,
            final(self)@.ctlr == old(self)@.ctlr,
            final(self)@.iar == old(self)@.iar,
            final(self)@.eoir == old(self)@.eoir,
    {
        assert((255u32 & 0xff) << 0 == 255) by (bit_vector);
        self.registers.get_mut().pmr = field_value_u32(0xff, 0, 255);
    }

    /// Enable the interface - start accepting IRQs.
    pub fn enable(&mut self)
        ensures
            final(self).mmio_base_addr() == old(self).mmio_base_addr(),
            final(self)@.ctlr == 1,
            final(self)@.pmr == old(self)@.pmr,
            final(self)@.iar == old(self)@.iar,
            final(self)@.eoir == old(self)@.eoir,
    {
        assert((1u32 & 1) << 0 == 1) by (bit_vector);
        self.registers.get_mut().ctlr = field_value_u32(0x1, 0, 1);
    }

    /// Extract the number of the highest-priority pending IRQ.
    pub fn pending_irq_number<'irq_context>(&self, _ic: &IrqContext<'irq_context>) -> (r: usize)
        ensures
            r == pending_irq_number(self@.iar),
            r <= INTERRUPT_ID,
    {
        let iar = self.registers.get().iar;
        assert((iar & (0x3ffu32 << 0)) >> 0 == iar & 0x3ff && iar & 0x3ff <= 0x3ffu32)
            by (bit_vector);
        field_read_u32(0x3ff, 0, iar) as usize
    }

    /// Complete handling of the currently active IRQ.
    pub fn mark_comleted<'irq_context>(&mut self, irq_number: u32, _ic: &IrqContext<'irq_context>)
        ensures
            final(self).mmio_base_addr() == old(self).mmio_base_addr(),
            final(self)@.eoir == irq_number & INTERRUPT_ID,
            final(self)@.ctlr == old(self)@.ctlr,
            final(self)@.pmr == old(self)@.pmr,
            final(self)@.iar == old(self)@.iar,
    {
        assert((irq_number & 0x3ff) << 0 == irq_number & 0x3ff) by (bit_vector);
        self.registers.get_mut().eoir = field_value_u32(0x3ff, 0, irq_number);
    }

    /// The registers of the executing core's interface.
    pub fn registers(&self) -> (r: &RegisterBlock)
        ensures
            *r == self@,
    {
        self.registers.get()
    }

    /// Takes over the value that the hardware's acknowledge register holds.
    pub fn set_iar(&mut self, iar: u32)
        ensures
            final(self).mmio_base_addr() == old(self).mmio_base_addr(),
            final(self)@.iar == iar,
            final(self)@.ctlr == old(self)@.ctlr,
            final(self)@.pmr == old(self)@.pmr,
            final(self)@.eoir == old(self)@.eoir,
    {
        self.registers.get_mut().iar = iar;
    }
}

} // verus!
