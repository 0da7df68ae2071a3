//! The board's physical memory map.

use vstd::prelude::*;

pub mod mmu;

verus! {

/// The inclusive end address of the memory map.
pub const END_INCLUSIVE: usize = 0xffff_ffff;

/// Offset of the GPIO registers within the MMIO range.
pub const GPIO_OFFSET: usize = 0x0020_0000;

/// Offset of the UART registers within the MMIO range.
pub const UART_OFFSET: usize = 0x0020_1000;

/// Start of the MMIO range.
pub const MMIO_BASE: usize = 0xfe00_0000;

/// Address of the GPIO registers.
pub const MMIO_GPIO_BASE: usize = 0xfe20_0000;

/// Address of the UART registers.
pub const MMIO_UART_BASE: usize = 0xfe20_1000;

/// Address of the interrupt distributor's registers.
pub const MMIO_GICD_BASE: usize = 0xff84_1000;

/// Address of the CPU interface's registers.
pub const MMIO_GICC_BASE: usize = 0xff84_2000;

/// The inclusive end address of the MMIO range.
pub const MMIO_END_INCLUSIVE: usize = 0xff84_ffff;

/// The device addresses are the range's start plus the device's offset.
pub proof fn law_device_addresses()
    ensures
        MMIO_GPIO_BASE == MMIO_BASE + GPIO_OFFSET,
        MMIO_UART_BASE == MMIO_BASE + UART_OFFSET,
        MMIO_BASE <= MMIO_GPIO_BASE < MMIO_UART_BASE < MMIO_GICD_BASE < MMIO_GICC_BASE
            <= MMIO_END_INCLUSIVE <= END_INCLUSIVE,
{
}

} // verus!
