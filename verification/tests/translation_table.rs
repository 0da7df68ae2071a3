use ros_bringup::boards::rpi4::memory::mmu::virt_mem_layout;
use ros_bringup::memory::mmu::arch_mmu::{mmu, MemoryManagementUnit, MmuStep};
use ros_bringup::memory::mmu::translation_table::{
    attribute_field_values, FixedSizeTranslationTable, PageDescriptor, TableDescriptor,
};
use ros_bringup::memory::mmu::{
    AccessPermissions, AttributeFields, KernelVirtualLayout, MemAttributes, Mmu, MmuEnableError,
    Translation, TranslationDescriptor,
};

const UXN: u64 = 1 << 54;
const PXN: u64 = 1 << 53;
const AF: u64 = 1 << 10;
const SH_INNER: u64 = 0b11 << 8;
const SH_OUTER: u64 = 0b10 << 8;
const AP_RO: u64 = 0b10 << 6;
const ATTR_NORMAL: u64 = 1 << 2;
const PAGE_VALID: u64 = 0b11;

fn code() -> AttributeFields {
    AttributeFields {
        mem_attributes: MemAttributes::CacheableDram,
        acc_perms: AccessPermissions::ReadOnly,
        execute_never: false,
    }
}

fn device() -> AttributeFields {
    AttributeFields {
        mem_attributes: MemAttributes::Device,
        acc_perms: AccessPermissions::ReadWrite,
        execute_never: true,
    }
}

#[test]
fn zeroed_descriptors() {
    assert_eq!(TableDescriptor::new_zeroed().value(), 0);
    assert_eq!(PageDescriptor::new_zeroed().value(), 0);
}

#[test]
fn table_descriptor_holds_address_bits_and_is_a_valid_table() {
    assert_eq!(TableDescriptor::from_next_lvl_table_addr(0x1234_0000).value(), 0x1234_0003);
    // Bits below the granule are not stored.
    assert_eq!(TableDescriptor::from_next_lvl_table_addr(0x1234_ffff).value(), 0x1234_0003);
    assert_eq!(TableDescriptor::from_next_lvl_table_addr(0).value(), 0x3);
    // Bits from 48 on are not stored.
    assert_eq!(
        TableDescriptor::from_next_lvl_table_addr(0xffff_8000_0001_0000).value(),
        0x0000_8000_0001_0003
    );
}

#[test]
fn attribute_bits_of_each_attribute() {
    assert_eq!(attribute_field_values(code()), SH_INNER | ATTR_NORMAL | AP_RO | UXN);
    assert_eq!(attribute_field_values(device()), SH_OUTER | PXN | UXN);
    assert_eq!(
        attribute_field_values(AttributeFields::default()),
        SH_INNER | ATTR_NORMAL | PXN | UXN
    );
    assert_eq!(
        attribute_field_values(AttributeFields {
            mem_attributes: MemAttributes::Device,
            acc_perms: AccessPermissions::ReadOnly,
            execute_never: false,
        }),
        SH_OUTER | AP_RO | UXN
    );
}

#[test]
fn page_descriptor_of_code_page() {
    let d = PageDescriptor::from_output_addr(0x8_0000, &code());
    assert_eq!(d.value(), 0x0040_0000_0008_0787);
    assert_eq!(d.value(), 0x8_0000 | AF | PAGE_VALID | SH_INNER | ATTR_NORMAL | AP_RO | UXN);
}

#[test]
fn page_descriptor_of_device_page() {
    let d = PageDescriptor::from_output_addr(0xfe20_0000, &device());
    assert_eq!(d.value(), 0x0060_0000_fe20_0603);
    // Bits below the granule are not stored.
    let e = PageDescriptor::from_output_addr(0xfe20_1000, &device());
    assert_eq!(e.value(), 0x0060_0000_fe20_0603);
}

#[test]
fn page_descriptor_of_default_page() {
    let d = PageDescriptor::from_output_addr(0x4000_0000, &AttributeFields::default());
    assert_eq!(d.value(), 0x0060_0000_4000_0707);
}

fn one_window_layout(max: usize) -> KernelVirtualLayout<2> {
    KernelVirtualLayout::new(
        max,
        [
            TranslationDescriptor {
                name: "code",
                virtual_range: 0x8_0000..=0x8_ffff,
                physical_range_translation: Translation::Identity,
                attribute_fields: code(),
            },
            TranslationDescriptor {
                name: "devices",
                virtual_range: 0x1000_0000..=0x1fff_ffff,
                physical_range_translation: Translation::Offset(0xf000_0000),
                attribute_fields: device(),
            },
        ],
    )
}

#[test]
fn placement_of_a_table() {
    assert!(FixedSizeTranslationTable::<1>::is_placeable(0x10_0000));
    assert!(FixedSizeTranslationTable::<8>::is_placeable(0));
    // Not on a 64 KiB boundary.
    assert!(!FixedSizeTranslationTable::<1>::is_placeable(0x10_8000));
    // No table.
    assert!(!FixedSizeTranslationTable::<0>::is_placeable(0x10_0000));
    // The table ends beyond the address range.
    assert!(!FixedSizeTranslationTable::<1>::is_placeable(usize::MAX - 0xffff));
}

#[test]
fn new_table_is_zeroed_and_knows_its_base() {
    let table = FixedSizeTranslationTable::<2>::new(0x20_0000);
    // Two level-3 tables of 64 KiB come first.
    assert_eq!(table.phys_base_address(), 0x22_0000);
    assert_eq!(table.lvl2_entry(0).value(), 0);
    assert_eq!(table.lvl2_entry(1).value(), 0);
    assert_eq!(table.lvl3_entry(0, 0).value(), 0);
    assert_eq!(table.lvl3_entry(1, 8191).value(), 0);
}

#[test]
fn population_fills_every_entry() {
    let layout = one_window_layout(0x1fff_ffff);
    let mut table = FixedSizeTranslationTable::<1>::new(0x4000_0000);
    assert_eq!(table.populate_tt_entries(&layout), Ok(()));
    assert_eq!(table.lvl2_entry(0).value(), 0x4000_0003);
    // The page of the code.
    assert_eq!(table.lvl3_entry(0, 8).value(), 0x0040_0000_0008_0787);
    // A page that no descriptor covers.
    assert_eq!(
        table.lvl3_entry(0, 9).value(),
        PageDescriptor::from_output_addr(0x9_0000, &AttributeFields::default()).value()
    );
    // The first and the last page of the devices.
    assert_eq!(table.lvl3_entry(0, 0x1000).value(), 0x0060_0000_f000_0603);
    assert_eq!(table.lvl3_entry(0, 0x1fff).value(), 0x0060_0000_ffff_0603);
    // Every entry is valid and has the access flag.
    for l3 in 0..8192 {
        let v = table.lvl3_entry(0, l3).value();
        assert_eq!(v & 0x403, 0x403);
        let virt = l3 << 16;
        let (phys, attrs) = layout.virt_addr_properties(virt).unwrap();
        assert_eq!(v, PageDescriptor::from_output_addr(phys, &attrs).value());
    }
}

#[test]
fn population_of_two_windows_points_each_level_2_entry_to_its_table() {
    let layout: KernelVirtualLayout<0> = KernelVirtualLayout::new(0x3fff_ffff, []);
    let mut table = FixedSizeTranslationTable::<2>::new(0x8000_0000);
    assert_eq!(table.populate_tt_entries(&layout), Ok(()));
    assert_eq!(table.lvl2_entry(0).value(), 0x8000_0003);
    assert_eq!(table.lvl2_entry(1).value(), 0x8001_0003);
    assert_eq!(
        table.lvl3_entry(1, 0).value(),
        PageDescriptor::from_output_addr(0x2000_0000, &AttributeFields::default()).value()
    );
    assert_eq!(
        table.lvl3_entry(1, 8191).value(),
        PageDescriptor::from_output_addr(0x3fff_0000, &AttributeFields::default()).value()
    );
}

#[test]
fn population_stops_at_the_first_page_beyond_the_address_space() {
    // The address space ends within page 0x1000 of the second window.
    let layout: KernelVirtualLayout<0> = KernelVirtualLayout::new(0x3000_0000, []);
    let mut table = FixedSizeTranslationTable::<2>::new(0x8000_0000);
    assert_eq!(table.populate_tt_entries(&layout), Err("Address out of range"));
    assert_eq!(table.lvl2_entry(0).value(), 0x8000_0003);
    assert_eq!(table.lvl2_entry(1).value(), 0x8001_0003);
    assert_ne!(table.lvl3_entry(0, 8191).value(), 0);
    assert_ne!(table.lvl3_entry(1, 0x1000).value(), 0);
    assert_eq!(table.lvl3_entry(1, 0x1001).value(), 0);
    assert_eq!(table.lvl3_entry(1, 8191).value(), 0);
}

#[test]
fn population_that_fails_in_the_first_window_leaves_the_second_untouched() {
    let layout: KernelVirtualLayout<0> = KernelVirtualLayout::new(0xffff, []);
    let mut table = FixedSizeTranslationTable::<2>::new(0x8000_0000);
    assert_eq!(table.populate_tt_entries(&layout), Err("Address out of range"));
    assert_eq!(table.lvl2_entry(0).value(), 0x8000_0003);
    assert_eq!(table.lvl2_entry(1).value(), 0);
    assert_ne!(table.lvl3_entry(0, 0).value(), 0);
    assert_eq!(table.lvl3_entry(0, 1).value(), 0);
}

#[test]
fn mmu_and_mair_and_tcr_values() {
    let unit: MemoryManagementUnit = mmu();
    assert_eq!(unit.set_up_mair(), 0xff04);
    // 4 GiB: 32 address bits, 32 bits not translated.
    assert_eq!(unit.configure_translation_control(32), 0x2_0080_7520);
    // 512 MiB: 29 address bits.
    assert_eq!(unit.configure_translation_control(29), 0x2_0080_7523);
    // 48 bits.
    assert_eq!(unit.configure_translation_control(48), 0x2_0080_7510);
}

#[test]
fn mmu_is_enabled_by_bit_0() {
    let unit = mmu();
    assert!(!unit.is_enabled(0));
    assert!(unit.is_enabled(1));
    assert!(!unit.is_enabled(0x30d0_0800));
    assert!(unit.is_enabled(0x30d0_0801));
}

#[test]
fn enable_fails_when_already_enabled() {
    let layout = one_window_layout(0x1fff_ffff);
    let mut table = FixedSizeTranslationTable::<1>::new(0x4000_0000);
    let r = mmu().enable_mmu_and_caching(0x1, 0, &mut table, &layout);
    assert_eq!(r, Err(MmuEnableError::AlreadyEnabled));
    assert_eq!(table.lvl2_entry(0).value(), 0);
    assert_eq!(table.lvl3_entry(0, 0).value(), 0);
}

#[test]
fn enable_fails_when_granule_is_not_supported() {
    let layout = one_window_layout(0x1fff_ffff);
    let mut table = FixedSizeTranslationTable::<1>::new(0x4000_0000);
    let r = mmu().enable_mmu_and_caching(0, 0x0f00_0000, &mut table, &layout);
    assert_eq!(r, Err(MmuEnableError::Other("Translation granule not supported in HW")));
    assert_eq!(table.lvl2_entry(0).value(), 0);
    // Any value of the field but zero.
    let r = mmu().enable_mmu_and_caching(0, 0x0100_0000, &mut table, &layout);
    assert_eq!(r, Err(MmuEnableError::Other("Translation granule not supported in HW")));
}

#[test]
fn enabled_is_checked_before_the_granule() {
    let layout = one_window_layout(0x1fff_ffff);
    let mut table = FixedSizeTranslationTable::<1>::new(0x4000_0000);
    let r = mmu().enable_mmu_and_caching(0x1, 0x0f00_0000, &mut table, &layout);
    assert_eq!(r, Err(MmuEnableError::AlreadyEnabled));
}

#[test]
fn enable_fails_when_the_layout_is_smaller_than_the_table() {
    let layout = one_window_layout(0x0fff_ffff);
    let mut table = FixedSizeTranslationTable::<1>::new(0x4000_0000);
    let r = mmu().enable_mmu_and_caching(0, 0, &mut table, &layout);
    assert_eq!(r, Err(MmuEnableError::Other("Address out of range")));
}

#[test]
fn enable_gives_the_register_writes_in_order() {
    let layout = one_window_layout(0x1fff_ffff);
    let mut table = FixedSizeTranslationTable::<1>::new(0x4000_0000);
    let r = mmu().enable_mmu_and_caching(0x30d0_0800, 0x1122, &mut table, &layout);
    assert_eq!(
        r,
        Ok([
            MmuStep::SetMemoryAttributes(0xff04),
            MmuStep::SetTranslationTableBase(0x4001_0000),
            MmuStep::SetTranslationControl(0x2_0080_7523),
            MmuStep::InstructionBarrier,
            MmuStep::SetSystemControl(0x30d0_1805),
            MmuStep::InstructionBarrier,
        ])
    );
    assert_eq!(table.lvl2_entry(0).value(), 0x4000_0003);
    assert_eq!(table.lvl3_entry(0, 8).value(), 0x0040_0000_0008_0787);
}

#[test]
fn enable_for_the_board_layout() {
    let layout = virt_mem_layout(0x8_0000, 0x9_0000);
    let mut table = FixedSizeTranslationTable::<8>::new(0x10_0000);
    let r = mmu().enable_mmu_and_caching(0, 0, &mut table, &layout);
    assert_eq!(
        r,
        Ok([
            MmuStep::SetMemoryAttributes(0xff04),
            MmuStep::SetTranslationTableBase(0x18_0000),
            MmuStep::SetTranslationControl(0x2_0080_7520),
            MmuStep::InstructionBarrier,
            MmuStep::SetSystemControl(0x1005),
            MmuStep::InstructionBarrier,
        ])
    );
    // Code, read-only and executable.
    assert_eq!(table.lvl3_entry(0, 8).value(), 0x0040_0000_0008_0787);
    // The page after the code has the default attributes.
    assert_eq!(table.lvl3_entry(0, 9).value(), 0x0060_0000_0009_0707);
    // The first page of the device registers, in the last window.
    assert_eq!(table.lvl3_entry(7, 0x1e00).value(), 0x0060_0000_fe00_0603);
    assert_eq!(table.lvl2_entry(7).value(), 0x17_0003);
}

#[test]
fn board_layout() {
    let layout = virt_mem_layout(0x8_0000, 0x9_0000);
    assert_eq!(layout.virt_addr_properties(0x8_0000), Ok((0x8_0000, code())));
    assert_eq!(layout.virt_addr_properties(0x8_ffff), Ok((0x8_ffff, code())));
    assert_eq!(layout.virt_addr_properties(0x9_0000), Ok((0x9_0000, AttributeFields::default())));
    assert_eq!(layout.virt_addr_properties(0xfe00_0000), Ok((0xfe00_0000, device())));
    assert_eq!(layout.virt_addr_properties(0xff84_ffff), Ok((0xff84_ffff, device())));
    assert_eq!(
        layout.virt_addr_properties(0xff85_0000),
        Ok((0xff85_0000, AttributeFields::default()))
    );
    assert_eq!(layout.virt_addr_properties(0xffff_ffff).map(|r| r.0), Ok(0xffff_ffff));
    assert_eq!(layout.virt_addr_properties(0x1_0000_0000), Err("Address out of range"));
    assert_eq!(
        layout.print_layout(),
        vec![
            "      0x00080000 - 0x0008ffff |  64 KiB | C   RO PX  | Kernel code and RO data"
                .to_string(),
            "      0xfe000000 - 0xff84ffff |  25 MiB | Dev RW PXN | Device MMIO".to_string(),
        ]
    );
}
