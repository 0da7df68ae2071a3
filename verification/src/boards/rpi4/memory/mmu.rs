//! The board's virtual memory layout.

use crate::boards::rpi4::memory::{END_INCLUSIVE, MMIO_BASE, MMIO_END_INCLUSIVE};
use crate::memory::mmu::translation_table::FixedSizeTranslationTable;
use crate::memory::mmu::{
    AccessPermissions, AddressSpace, AttributeFields, KernelVirtualLayout, MemAttributes,
    Translation, TranslationDescriptor,
};
use core::ops::RangeInclusive;
use vstd::prelude::*;

verus! {

/// The kernel's address space defined by this board: 4 GiB.
pub type KernelAddrSpace = AddressSpace<0x1_0000_0000>;

/// A translation table type for the kernel space: eight windows of 512 MiB.
pub type KernelTranslationTable = FixedSizeTranslationTable<8>;

/// The number of ranges of the layout.
pub const NUM_MEM_RANGES: usize = 2;

/// The attributes of the kernel's code and read-only data: cacheable,
/// read-only, executable.
pub open spec fn code_attributes() -> AttributeFields {
    AttributeFields {
        mem_attributes: MemAttributes::CacheableDram,
        acc_perms: AccessPermissions::ReadOnly,
        execute_never: false,
    }
}

/// The attributes of device registers: device memory, read-write, never
/// executable.
pub open spec fn mmio_attributes() -> AttributeFields {
    AttributeFields {
        mem_attributes: MemAttributes::Device,
        acc_perms: AccessPermissions::ReadWrite,
        execute_never: true,
    }
}

/// The range of the kernel's code and read-only data.
pub fn code_range_inclusive(code_start: usize, code_end_exclusive: usize) -> (r: RangeInclusive<
    usize,
>)
    requires
        code_end_exclusive > 0,
    ensures
        r@.start == code_start,
        r@.end == code_end_exclusive - 1,
        !r@.exhausted,
{
    RangeInclusive::new(code_start, code_end_exclusive - 1)
}

/// The range of the device registers.
pub fn mmio_range_inclusive() -> (r: RangeInclusive<usize>)
    ensures
        r@.start == MMIO_BASE,
        r@.end == MMIO_END_INCLUSIVE,
        !r@.exhausted,
{
    RangeInclusive::new(MMIO_BASE, MMIO_END_INCLUSIVE)
}

/// The virtual memory layout: the kernel's code and read-only data, between
/// the two addresses that the linker gives, and the device registers. Both
/// are mapped to themselves; the rest of the address space has the default
/// attributes.
pub fn virt_mem_layout(code_start: usize, code_end_exclusive: usize) -> (r: KernelVirtualLayout<2>)
    requires
        code_end_exclusive > 0,
    ensures
        r.wf(),
        r.max_virt_addr_inclusive() == END_INCLUSIVE,
        r.descriptors().len() == 2,
        r.descriptors()[0].name == "Kernel code and RO data",
        r.descriptors()[0].virtual_range@.start == code_start,
        r.descriptors()[0].virtual_range@.end == code_end_exclusive - 1,
        !r.descriptors()[0].virtual_range@.exhausted,
        r.descriptors()[0].physical_range_translation == Translation::Identity,
        r.descriptors()[0].attribute_fields == code_attributes(),
        r.descriptors()[1].name == "Device MMIO",
        r.descriptors()[1].virtual_range@.start == MMIO_BASE,
        r.descriptors()[1].virtual_range@.end == MMIO_END_INCLUSIVE,
        !r.descriptors()[1].virtual_range@.exhausted,
        r.descriptors()[1].physical_range_translation == Translation::Identity,
        r.descriptors()[1].attribute_fields == mmio_attributes(),
{
    KernelVirtualLayout::new(
        END_INCLUSIVE,
        [
            TranslationDescriptor {
                name: "Kernel code and RO data",
                virtual_range: code_range_inclusive(code_start, code_end_exclusive),
                physical_range_translation: Translation::Identity,
                attribute_fields: AttributeFields {
                    mem_attributes: MemAttributes::CacheableDram,
                    acc_perms: AccessPermissions::ReadOnly,
                    execute_never: false,
                },
            },
            TranslationDescriptor {
                name: "Device MMIO",
                virtual_range: mmio_range_inclusive(),
                physical_range_translation: Translation::Identity,
                attribute_fields: AttributeFields {
                    mem_attributes: MemAttributes::Device,
                    acc_perms: AccessPermissions::ReadWrite,
                    execute_never: true,
                },
            },
        ],
    )
}

} // verus!
