//! Translation table descriptors for a 64 KiB granule, and the two-level
//! table that maps the kernel's address space.

use crate::bitfield::field_value_u64;
use crate::memory::mmu::{
    out_of_range, AccessPermissions, AttributeFields, KernelVirtualLayout, MemAttributes,
};
use vstd::prelude::*;

verus! {

/// The size of a level-3 page.
pub const GRANULE_64KIB: usize = 0x1_0000;

/// The size of the window of one level-2 entry.
pub const GRANULE_512MIB: usize = 0x2000_0000;

/// The number of pages in the window of one level-2 entry.
pub const PAGES_PER_TABLE: usize = 8192;

/// Index of device memory in the memory attribute indirection register.
pub const MAIR_DEVICE: u64 = 0;

/// Index of normal cacheable memory in the memory attribute indirection
/// register.
pub const MAIR_NORMAL: u64 = 1;

/// Bits 47..16 of a descriptor: bits 47..16 of the address it points to.
pub const DESCRIPTOR_ADDRESS_BITS: u64 = 0x0000_ffff_ffff_0000;

/// Bit 0 of a descriptor: the entry is valid.
pub const DESCRIPTOR_VALID: u64 = 0x1;

/// Bit 1 of a descriptor: a table at level 2, a page at level 3.
pub const DESCRIPTOR_TYPE: u64 = 0x2;

/// Bit 10 of a page descriptor: the access flag.
pub const PAGE_ACCESS_FLAG: u64 = 0x400;

/// Bits 9..8 of a page descriptor, inner shareable.
pub const PAGE_INNER_SHAREABLE: u64 = 0x300;

/// Bits 9..8 of a page descriptor, outer shareable.
pub const PAGE_OUTER_SHAREABLE: u64 = 0x200;

/// Bits 7..6 of a page descriptor, read-only at the kernel's level.
pub const PAGE_READ_ONLY: u64 = 0x80;

/// Bits 4..2 of a page descriptor, index of normal cacheable memory.
pub const PAGE_ATTR_NORMAL: u64 = 0x4;

/// Bit 53 of a page descriptor: privileged execute-never.
pub const PAGE_PXN: u64 = 0x0020_0000_0000_0000;

/// Bit 54 of a page descriptor: unprivileged execute-never.
pub const PAGE_UXN: u64 = 0x0040_0000_0000_0000;

/// The word of a level-2 descriptor that points to the level-3 table at
/// `phys_next_lvl_table_addr`.
pub open spec fn table_descriptor_value(phys_next_lvl_table_addr: usize) -> u64 {
    (phys_next_lvl_table_addr as u64 & DESCRIPTOR_ADDRESS_BITS) | DESCRIPTOR_TYPE
        | DESCRIPTOR_VALID
}

/// The bits of a page descriptor that depend on the attributes: shareability
/// and memory attribute index by memory class, the access permission, and
/// the two execute-never bits, of which the unprivileged one is always set.
pub open spec fn attribute_bits(attribute_fields: AttributeFields) -> u64 {
    (match attribute_fields.mem_attributes {
        MemAttributes::CacheableDram => PAGE_INNER_SHAREABLE | PAGE_ATTR_NORMAL,
        MemAttributes::Device => PAGE_OUTER_SHAREABLE,
    }) | (match attribute_fields.acc_perms {
        AccessPermissions::ReadOnly => PAGE_READ_ONLY,
        AccessPermissions::ReadWrite => 0,
    }) | (if attribute_fields.execute_never {
        PAGE_PXN
    } else {
        0
    }) | PAGE_UXN
}

/// The word of a level-3 descriptor that maps a page to `phys_output_addr`
/// with the given attributes.
pub open spec fn page_descriptor_value(
    phys_output_addr: usize,
    attribute_fields: AttributeFields,
) -> u64 {
    (phys_output_addr as u64 & DESCRIPTOR_ADDRESS_BITS) | PAGE_ACCESS_FLAG | DESCRIPTOR_TYPE
        | DESCRIPTOR_VALID | attribute_bits(attribute_fields)
}

/// Whether a descriptor word is marked valid and, by its type bit, a table
/// (at level 2) or a page (at level 3).
pub open spec fn is_valid_descriptor(value: u64) -> bool {
    value & (DESCRIPTOR_TYPE | DESCRIPTOR_VALID) == DESCRIPTOR_TYPE | DESCRIPTOR_VALID
}

/// Every table descriptor made from an address is valid, and keeps bits
/// 47..16 of the address.
pub proof fn lemma_table_descriptor_valid(phys_next_lvl_table_addr: usize)
    ensures
        is_valid_descriptor(table_descriptor_value(phys_next_lvl_table_addr)),
        table_descriptor_value(phys_next_lvl_table_addr) & DESCRIPTOR_ADDRESS_BITS
            == phys_next_lvl_table_addr as u64 & DESCRIPTOR_ADDRESS_BITS,
{
    let a = phys_next_lvl_table_addr as u64;
    assert((((a & 0x0000_ffff_ffff_0000) | 2 | 1) & (2u64 | 1) == 2u64 | 1) && (((a
        & 0x0000_ffff_ffff_0000) | 2 | 1) & 0x0000_ffff_ffff_0000 == a & 0x0000_ffff_ffff_0000))
        by (bit_vector);
}

/// Every page descriptor made from an address and attributes is valid, has
/// its access flag set, and keeps bits 47..16 of the address.
pub proof fn lemma_page_descriptor_valid(phys_output_addr: usize, attribute_fields: AttributeFields)
    ensures
        is_valid_descriptor(page_descriptor_value(phys_output_addr, attribute_fields)),
        page_descriptor_value(phys_output_addr, attribute_fields) & PAGE_ACCESS_FLAG
            == PAGE_ACCESS_FLAG,
        page_descriptor_value(phys_output_addr, attribute_fields) & DESCRIPTOR_ADDRESS_BITS
            == phys_output_addr as u64 & DESCRIPTOR_ADDRESS_BITS,
{
    let a = phys_output_addr as u64;
    let m: u64 = match attribute_fields.mem_attributes {
        MemAttributes::CacheableDram => PAGE_INNER_SHAREABLE | PAGE_ATTR_NORMAL,
        MemAttributes::Device => PAGE_OUTER_SHAREABLE,
    };
    let p: u64 = match attribute_fields.acc_perms {
        AccessPermissions::ReadOnly => PAGE_READ_ONLY,
        AccessPermissions::ReadWrite => 0,
    };
    let x: u64 = if attribute_fields.execute_never {
        PAGE_PXN
    } else {
        0
    };
    assert((m == 0x300 | 0x4 || m == 0x200) && (p == 0x80 || p == 0) && (x
        == 0x0020_0000_0000_0000 || x == 0) ==> {
        let v = (a & 0x0000_ffff_ffff_0000) | 0x400 | 2 | 1 | (m | p | x | 0x0040_0000_0000_0000);
        &&& v & (2u64 | 1) == 2u64 | 1
        &&& v & 0x400 == 0x400
        &&& v & 0x0000_ffff_ffff_0000 == a & 0x0000_ffff_ffff_0000
    }) by (bit_vector);
}

/// A table descriptor for a 64 KiB aperture.
#[derive(Copy, Clone, Debug, PartialEq, Eq)]
pub struct TableDescriptor {
    value: u64,
}

/// A page descriptor with a 64 KiB aperture.
#[derive(Copy, Clone, Debug, PartialEq, Eq)]
pub struct PageDescriptor {
    value: u64,
}

impl TableDescriptor {
    /// The descriptor's word.
    pub closed spec fn view(&self) -> u64 {
        self.value
    }

    /// Create an instance.
    pub fn new_zeroed() -> (r: Self)
        ensures
            r@ == 0,
    {
        Self { value: 0 }
    }

    /// Create an instance pointing to the supplied address.
    pub fn from_next_lvl_table_addr(phys_next_lvl_table_addr: usize) -> (r: Self)
        ensures
            r@ == table_descriptor_value(phys_next_lvl_table_addr),
    {
        let addr = phys_next_lvl_table_addr as u64;
        let shifted = addr >> 16;
        let next_level = field_value_u64(0xffff_ffff, 16, shifted);
        let table = field_value_u64(0x1, 1, 1);
        let valid = field_value_u64(0x1, 0, 1);
        assert(((addr >> 16) & 0xffff_ffff) << 16 == addr & 0x0000_ffff_ffff_0000
            && (1u64 & 1) << 1 == 2 && (1u64 & 1) << 0 == 1) by (bit_vector);
        Self { value: next_level | table | valid }
    }

    /// The descriptor's word.
    pub fn value(&self) -> (r: u64)
        ensures
            r == self@,
    {
        self.value
    }
}

/// The attribute bits of a page descriptor.
pub fn attribute_field_values(attribute_fields: AttributeFields) -> (r: u64)
    ensures
        r == attribute_bits(attribute_fields),
{
    let mem = match attribute_fields.mem_attributes {
        MemAttributes::CacheableDram => field_value_u64(0x3, 8, 0b11) | field_value_u64(
            0x7,
            2,
            MAIR_NORMAL,
        ),
        MemAttributes::Device => {
            let r = field_value_u64(0x3, 8, 0b10) | field_value_u64(0x7, 2, MAIR_DEVICE);
            assert(((0b10u64 & 3) << 8) | ((0u64 & 7) << 2) == 0x200) by (bit_vector);
            r
        },
    };
    let access = match attribute_fields.acc_perms {
        AccessPermissions::ReadOnly => field_value_u64(0x3, 6, 0b10),
        AccessPermissions::ReadWrite => field_value_u64(0x3, 6, 0b00),
    };
    let pxn = if attribute_fields.execute_never {
        field_value_u64(0x1, 53, 1)
    } else {
        field_value_u64(0x1, 53, 0)
    };
    let uxn = field_value_u64(0x1, 54, 1);
    assert((0b11u64 & 3) << 8 == 0x300 && (0b10u64 & 3) << 8 == 0x200 && (1u64 & 7) << 2 == 4 && (
    0u64 & 7) << 2 == 0 && (0b10u64 & 3) << 6 == 0x80 && (0u64 & 3) << 6 == 0 && (1u64 & 1) << 53
        == 0x0020_0000_0000_0000 && (0u64 & 1) << 53 == 0 && (1u64 & 1) << 54
        == 0x0040_0000_0000_0000) by (bit_vector);
    mem | access | pxn | uxn
}

impl PageDescriptor {
    /// The descriptor's word.
    pub closed spec fn view(&self) -> u64 {
        self.value
    }

    /// Create an instance.
    pub fn new_zeroed() -> (r: Self)
        ensures
            r@ == 0,
    {
        Self { value: 0 }
    }

    /// Create an instance.
    pub fn from_output_addr(phys_output_addr: usize, attribute_fields: &AttributeFields) -> (r:
        Self)
        ensures
            r@ == page_descriptor_value(phys_output_addr, *attribute_fields),
    {
        let addr = phys_output_addr as u64;
        let shifted = addr >> 16;
        let output = field_value_u64(0xffff_ffff, 16, shifted);
        let access_flag = field_value_u64(0x1, 10, 1);
        let page = field_value_u64(0x1, 1, 1);
        let valid = field_value_u64(0x1, 0, 1);
        assert(((addr >> 16) & 0xffff_ffff) << 16 == addr & 0x0000_ffff_ffff_0000
            && (1u64 & 1) << 10 == 0x400 && (1u64 & 1) << 1 == 2 && (1u64 & 1) << 0 == 1)
            by (bit_vector);
        Self {
            value: output | access_flag | page | valid | attribute_field_values(*attribute_fields),
        }
    }

    /// The descriptor's word.
    pub fn value(&self) -> (r: u64)
        ensures
            r == self@,
    {
        self.value
    }
}

/// The two-level translation table: one level-2 descriptor for each 512 MiB
/// window, each pointing to a level-3 table of 8192 page descriptors.
///
/// In memory the level-3 tables come first, 64 KiB each, followed by the
/// level-2 table; `phys_start_addr` is where the first of them lies.
pub struct FixedSizeTranslationTable<const NUM_TABLES: usize> {
    /// Page descriptors, covering 64 KiB windows per entry.
    lvl3: Vec<[PageDescriptor; 8192]>,
    /// Table descriptors, covering 512 MiB windows.
    lvl2: [TableDescriptor; NUM_TABLES],
    /// The physical address of the first level-3 table.
    phys_start_addr: usize,
}

/// The virtual address at which the window of a page begins.
pub open spec fn page_virt_addr(l2_nr: int, l3_nr: int) -> int {
    l2_nr * GRANULE_512MIB + l3_nr * GRANULE_64KIB
}

/// The page descriptor word that a layout asks for at a virtual address
/// (0 where the layout has no answer).
pub open spec fn layout_page_value<const N: usize>(
    layout: &KernelVirtualLayout<N>,
    virt_addr: usize,
) -> u64 {
    match layout.properties(virt_addr) {
        Ok((phys_output_addr, attribute_fields)) => page_descriptor_value(
            phys_output_addr,
            attribute_fields,
        ),
        Err(_) => 0,
    }
}

/// The number of pages that begin within the address space of a layout.
pub open spec fn pages_within<const N: usize>(layout: &KernelVirtualLayout<N>) -> int {
    layout.max_virt_addr_inclusive() / GRANULE_64KIB + 1
}

impl<const NUM_TABLES: usize> FixedSizeTranslationTable<NUM_TABLES> {
    /// The physical address of the first level-3 table.
    pub closed spec fn phys_start_addr(&self) -> usize {
        self.phys_start_addr
    }

    /// The word of a level-2 entry.
    pub closed spec fn lvl2_value(&self, l2_nr: int) -> u64 {
        self.lvl2@[l2_nr]@
    }

    /// The word of a level-3 entry.
    pub closed spec fn lvl3_value(&self, l2_nr: int, l3_nr: int) -> u64 {
        self.lvl3@[l2_nr]@[l3_nr]@
    }

    /// The table has all its level-3 tables.
    pub closed spec fn complete(&self) -> bool {
        self.lvl3@.len() == NUM_TABLES
    }

    /// Whether a table of this size can lie at `phys_start_addr`: it is not
    /// empty, starts on a 64 KiB boundary, and both the table and the
    /// address space it maps end within the machine's address range.
    pub open spec fn placeable(phys_start_addr: usize) -> bool {
        &&& NUM_TABLES > 0
        &&& phys_start_addr % GRANULE_64KIB == 0
        &&& phys_start_addr + NUM_TABLES * GRANULE_64KIB + NUM_TABLES * 8 <= usize::MAX
        &&& NUM_TABLES * GRANULE_512MIB - 1 <= usize::MAX
    }

    /// The table is complete and lies where it can.
    pub open spec fn wf(&self) -> bool {
        &&& self.complete()
        &&& Self::placeable(self.phys_start_addr())
    }

    /// The physical address of a level-3 table.
    pub open spec fn lvl3_table_addr(&self, l2_nr: int) -> int {
        self.phys_start_addr() + l2_nr * GRANULE_64KIB
    }

    /// The first `tables` level-2 entries and the first `pages` level-3
    /// entries, counted through the tables in order, hold what `layout` asks
    /// for; every other entry is as it was in `before`.
    pub open spec fn filled<const N: usize>(
        &self,
        before: Self,
        layout: &KernelVirtualLayout<N>,
        tables: int,
        pages: int,
    ) -> bool {
        &&& forall|i: int|
            0 <= i < NUM_TABLES ==> #[trigger] self.lvl2_value(i) == if i < tables {
                table_descriptor_value(self.lvl3_table_addr(i) as usize)
            } else {
                before.lvl2_value(i)
            }
        &&& forall|i: int, j: int|
            0 <= i < NUM_TABLES && 0 <= j < PAGES_PER_TABLE ==> #[trigger] self.lvl3_value(i, j)
                == if i * PAGES_PER_TABLE + j < pages {
                layout_page_value(layout, page_virt_addr(i, j) as usize)
            } else {
                before.lvl3_value(i, j)
            }
    }

    /// Decides `placeable`.
    pub fn is_placeable(phys_start_addr: usize) -> (r: bool)
        ensures
            r == Self::placeable(phys_start_addr),
    {
        if NUM_TABLES == 0 || phys_start_addr % GRANULE_64KIB != 0 {
            return false;
        }
        if (usize::MAX - (GRANULE_512MIB - 1)) / GRANULE_512MIB < NUM_TABLES - 1 {
            return false;
        }
        let size = NUM_TABLES * GRANULE_64KIB + NUM_TABLES * 8;
        phys_start_addr <= usize::MAX - size
    }

    /// Create an instance, with every entry zero.
    pub fn new(phys_start_addr: usize) -> (r: Self)
        requires
            Self::placeable(phys_start_addr),
        ensures
            r.wf(),
            r.phys_start_addr() == phys_start_addr,
            forall|i: int| 0 <= i < NUM_TABLES ==> #[trigger] r.lvl2_value(i) == 0,
            forall|i: int, j: int|
                0 <= i < NUM_TABLES && 0 <= j < PAGES_PER_TABLE ==> #[trigger] r.lvl3_value(i, j)
                    == 0,
    {
        let mut lvl3: Vec<[PageDescriptor; 8192]> = Vec::new();
        let mut i: usize = 0;
        while i < NUM_TABLES
            invariant
                i <= NUM_TABLES,
                lvl3@.len() == i,
                forall|a: int, b: int|
                    0 <= a < i && 0 <= b < PAGES_PER_TABLE ==> (#[trigger] lvl3@[a]@[b])@ == 0,
            decreases NUM_TABLES - i,
        {
            lvl3.push([PageDescriptor::new_zeroed();8192]);
            i += 1;
        }
        Self { lvl3, lvl2: [TableDescriptor::new_zeroed();NUM_TABLES], phys_start_addr }
    }

    /// Iterates over all table entries and fills them from `layout`: each
    /// level-2 entry points to its level-3 table, each level-3 entry maps its
    /// page as the layout resolves the page's first address.
    ///
    /// The entries are filled in the order of their addresses. Where a page
    /// begins beyond the end of the layout's address space, the lookup's
    /// error is returned and the entries from that page on stay as they were.
    pub fn populate_tt_entries<const N: usize>(&mut self, layout: &KernelVirtualLayout<N>) -> (r:
        Result<(), &'static str>)
        requires
            old(self).wf(),
            layout.wf(),
        ensures
            final(self).wf(),
            final(self).phys_start_addr() == old(self).phys_start_addr(),
            if pages_within(layout) >= NUM_TABLES * PAGES_PER_TABLE {
                &&& r == Ok::<(), &'static str>(())
                &&& final(self).filled(
                    *old(self),
                    layout,
                    NUM_TABLES as int,
                    NUM_TABLES * PAGES_PER_TABLE,
                )
            } else {
                &&& r == Err::<(), &'static str>(out_of_range())
                &&& final(self).filled(
                    *old(self),
                    layout,
                    pages_within(layout) / (PAGES_PER_TABLE as int) + 1,
                    pages_within(layout),
                )
            },
    {
        let ghost first_beyond: int = pages_within(layout);
        let mut l2_nr: usize = 0;
        while l2_nr < NUM_TABLES
            invariant
                l2_nr <= NUM_TABLES,
                self.wf(),
                layout.wf(),
                self.phys_start_addr() == old(self).phys_start_addr(),
                first_beyond == pages_within(layout),
                l2_nr * PAGES_PER_TABLE <= first_beyond,
                self.filled(*old(self), layout, l2_nr as int, l2_nr * PAGES_PER_TABLE),
            decreases NUM_TABLES - l2_nr,
        {
            let ghost prev = *self;
            self.lvl2[l2_nr] = TableDescriptor::from_next_lvl_table_addr(
                self.phys_start_addr + l2_nr * GRANULE_64KIB,
            );
            proof {
                assert forall|i: int| 0 <= i < NUM_TABLES implies #[trigger] self.lvl2_value(i)
                    == if i < l2_nr + 1 {
                    table_descriptor_value(self.lvl3_table_addr(i) as usize)
                } else {
                    old(self).lvl2_value(i)
                } by {
                    assert(prev.lvl2_value(i) == prev.lvl2@[i]@);
                }
                assert forall|i: int, j: int|
                    0 <= i < NUM_TABLES && 0 <= j < PAGES_PER_TABLE implies #[trigger] self.lvl3_value(
                    i,
                    j,
                ) == if i * PAGES_PER_TABLE + j < l2_nr * PAGES_PER_TABLE {
                    layout_page_value(layout, page_virt_addr(i, j) as usize)
                } else {
                    old(self).lvl3_value(i, j)
                } by {
                    assert(self.lvl3_value(i, j) == prev.lvl3_value(i, j));
                }
            }
            let mut l3_nr: usize = 0;
            while l3_nr < PAGES_PER_TABLE
                invariant
                    l2_nr < NUM_TABLES,
                    l3_nr <= PAGES_PER_TABLE,
                    self.wf(),
                    layout.wf(),
                    self.phys_start_addr() == old(self).phys_start_addr(),
                    first_beyond == pages_within(layout),
                    l2_nr * PAGES_PER_TABLE + l3_nr <= first_beyond,
                    self.filled(
                        *old(self),
                        layout,
                        l2_nr + 1,
                        l2_nr * PAGES_PER_TABLE + l3_nr,
                    ),
                decreases PAGES_PER_TABLE - l3_nr,
            {
                let virt_addr = l2_nr * GRANULE_512MIB + l3_nr * GRANULE_64KIB;
                let ghost prev = *self;
                match layout.virt_addr_properties(virt_addr) {
                    Err(e) => {
                        return Err(e);
                    },
                    Ok((phys_output_addr, attribute_fields)) => {
                        self.lvl3[l2_nr][l3_nr] = PageDescriptor::from_output_addr(
                            phys_output_addr,
                            &attribute_fields,
                        );
                    },
                }
                proof {
                    assert forall|i: int| 0 <= i < NUM_TABLES implies #[trigger] self.lvl2_value(i)
                        == prev.lvl2_value(i) by {}
                    assert forall|i: int, j: int|
                        0 <= i < NUM_TABLES && 0 <= j < PAGES_PER_TABLE implies #[trigger] self.lvl3_value(
                        i,
                        j,
                    ) == if i * PAGES_PER_TABLE + j < l2_nr * PAGES_PER_TABLE + l3_nr + 1 {
                        layout_page_value(layout, page_virt_addr(i, j) as usize)
                    } else {
                        old(self).lvl3_value(i, j)
                    } by {
                        if i == l2_nr && j == l3_nr {
                            assert(self.lvl3_value(i, j) == layout_page_value(layout, virt_addr));
                        } else {
                            assert(self.lvl3_value(i, j) == prev.lvl3_value(i, j));
                        }
                    }
                }
                l3_nr += 1;
            }
            l2_nr += 1;
        }
        Ok(())
    }

    /// A level-2 entry.
    pub fn lvl2_entry(&self, l2_nr: usize) -> (r: TableDescriptor)
        requires
            l2_nr < NUM_TABLES,
        ensures
            r@ == self.lvl2_value(l2_nr as int),
    {
        self.lvl2[l2_nr]
    }

    /// A level-3 entry.
    pub fn lvl3_entry(&self, l2_nr: usize, l3_nr: usize) -> (r: PageDescriptor)
        requires
            self.complete(),
            l2_nr < NUM_TABLES,
            l3_nr < PAGES_PER_TABLE,
        ensures
            r@ == self.lvl3_value(l2_nr as int, l3_nr as int),
    {
        self.lvl3[l2_nr][l3_nr]
    }

    /// The translation table's base address to be used for programming the
    /// MMU: the address of the level-2 table.
    pub fn phys_base_address(&self) -> (r: u64)
        requires
            self.wf(),
        ensures
            r == self.phys_start_addr() + NUM_TABLES * GRANULE_64KIB,
    {
        (self.phys_start_addr + NUM_TABLES * GRANULE_64KIB) as u64
    }
}

/// Filling succeeds for an address space that is a whole number of 512 MiB
/// windows, with one level-2 entry for each: every page of the table then
/// begins within the address space.
pub proof fn law_whole_windows_are_within<const N: usize>(
    layout: KernelVirtualLayout<N>,
    num_tables: usize,
)
    requires
        layout.max_virt_addr_inclusive() + 1 == num_tables * GRANULE_512MIB,
    ensures
        pages_within(&layout) == num_tables * PAGES_PER_TABLE,
{
}

/// A table filled completely, from a layout whose address space reaches the
/// end of the table's, has no invalid entry: every level-2 entry is a valid
/// table descriptor that holds the address of its level-3 table, and every
/// level-3 entry is a valid page descriptor, with the access flag, made from
/// what the layout resolves the page's first address to.
pub proof fn law_filled_table_has_no_invalid_entry<const NUM_TABLES: usize, const N: usize>(
    table: FixedSizeTranslationTable<NUM_TABLES>,
    before: FixedSizeTranslationTable<NUM_TABLES>,
    layout: KernelVirtualLayout<N>,
)
    requires
        table.wf(),
        layout.wf(),
        pages_within(&layout) >= NUM_TABLES * PAGES_PER_TABLE,
        table.filled(before, &layout, NUM_TABLES as int, NUM_TABLES * PAGES_PER_TABLE),
    ensures
        forall|i: int|
            0 <= i < NUM_TABLES ==> {
                &&& is_valid_descriptor(#[trigger] table.lvl2_value(i))
                &&& table.lvl2_value(i) & DESCRIPTOR_ADDRESS_BITS == table.lvl3_table_addr(i) as u64
                    & DESCRIPTOR_ADDRESS_BITS
            },
        forall|i: int, j: int|
            0 <= i < NUM_TABLES && 0 <= j < PAGES_PER_TABLE ==> {
                &&& is_valid_descriptor(#[trigger] table.lvl3_value(i, j))
                &&& table.lvl3_value(i, j) & PAGE_ACCESS_FLAG == PAGE_ACCESS_FLAG
                &&& layout.properties(page_virt_addr(i, j) as usize) matches Ok(
                    (phys_output_addr, attribute_fields),
                ) && table.lvl3_value(i, j) == page_descriptor_value(
                    phys_output_addr,
                    attribute_fields,
                )
            },
{
    assert forall|i: int| 0 <= i < NUM_TABLES implies {
        &&& is_valid_descriptor(#[trigger] table.lvl2_value(i))
        &&& table.lvl2_value(i) & DESCRIPTOR_ADDRESS_BITS == table.lvl3_table_addr(i) as u64
            & DESCRIPTOR_ADDRESS_BITS
    } by {
        lemma_table_descriptor_valid(table.lvl3_table_addr(i) as usize);
    }
    assert forall|i: int, j: int| 0 <= i < NUM_TABLES && 0 <= j < PAGES_PER_TABLE implies {
        &&& is_valid_descriptor(#[trigger] table.lvl3_value(i, j))
        &&& table.lvl3_value(i, j) & PAGE_ACCESS_FLAG == PAGE_ACCESS_FLAG
        &&& layout.properties(page_virt_addr(i, j) as usize) matches Ok(
            (phys_output_addr, attribute_fields),
        ) && table.lvl3_value(i, j) == page_descriptor_value(phys_output_addr, attribute_fields)
    } by {
        let virt_addr = page_virt_addr(i, j) as usize;
        assert(virt_addr <= layout.max_virt_addr_inclusive());
        match layout.properties(virt_addr) {
            Ok((phys_output_addr, attribute_fields)) => {
                lemma_page_descriptor_valid(phys_output_addr, attribute_fields);
            },
            Err(_) => {},
        }
    }
}

} // verus!
