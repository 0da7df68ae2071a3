//! The kernel's virtual memory layout: an ordered list of address ranges,
//! each with a translation and a set of attributes, and the lookup that
//! resolves a virtual address against it.

use crate::common::{human_readable_ceil, size_human_readable_ceil};
use core::ops::RangeInclusive;
use vstd::arithmetic::logarithm::{lemma_log_pow, log};
use vstd::arithmetic::power2::{is_pow2, lemma2_to64, lemma_pow2, lemma_pow2_unfold, pow2};
use vstd::prelude::*;

pub mod arch_mmu;
pub mod translation_table;

verus! {

/// `RangeInclusive::start`: the lower bound of a range that has not been
/// iterated to exhaustion.
pub assume_specification<Idx>[ RangeInclusive::<Idx>::start ](r: &RangeInclusive<Idx>) -> (ret:
    &Idx)
    ensures
        !r@.exhausted ==> *ret == r@.start,
;

/// `RangeInclusive::end`: the upper bound of a range that has not been
/// iterated to exhaustion.
pub assume_specification<Idx>[ RangeInclusive::<Idx>::end ](r: &RangeInclusive<Idx>) -> (ret: &Idx)
    ensures
        !r@.exhausted ==> *ret == r@.end,
;

/// Why translation could not be switched on.
#[derive(Copy, Clone, Debug, PartialEq, Eq)]
pub enum MmuEnableError {
    AlreadyEnabled,
    Other(&'static str),
}

impl MmuEnableError {
    /// The text of the error.
    pub fn message(&self) -> (r: &'static str)
        ensures
            r == match *self {
                MmuEnableError::AlreadyEnabled => "MMU is already enabled",
                MmuEnableError::Other(x) => x,
            },
    {
        match self {
            MmuEnableError::AlreadyEnabled => "MMU is already enabled",
            MmuEnableError::Other(x) => x,
        }
    }
}

/// Memory management unit interface.
pub trait Mmu {
    /// Whether the system control register says that translation is on.
    spec fn enabled(&self, sctlr_el1: u64) -> bool;

    /// Called by the kernel during early init. Fills `tables` from `layout`
    /// and returns the register writes that install and activate them. The
    /// arguments are the current values of the system control register and
    /// of the memory model feature register.
    fn enable_mmu_and_caching<const NUM_TABLES: usize, const N: usize>(
        &self,
        sctlr_el1: u64,
        id_aa64mmfr0_el1: u64,
        tables: &mut translation_table::FixedSizeTranslationTable<NUM_TABLES>,
        layout: &KernelVirtualLayout<N>,
    ) -> (r: Result<[arch_mmu::MmuStep; 6], MmuEnableError>)
        requires
            old(tables).wf(),
            layout.wf(),
            arch_mmu::table_count_supported(NUM_TABLES),
        ensures
            self.enabled(sctlr_el1) ==> r == Err::<[arch_mmu::MmuStep; 6], MmuEnableError>(
                MmuEnableError::AlreadyEnabled,
            ) && *final(tables) == *old(tables),
    ;

    /// Returns true if the MMU is enabled, false otherwise.
    fn is_enabled(&self, sctlr_el1: u64) -> (r: bool)
        ensures
            r == self.enabled(sctlr_el1),
    ;
}

/// Describes the characteristics of a translation granule.
pub struct TranslationGranule<const GRANULE_SIZE: usize>;

/// Describes properties of an address space.
pub struct AddressSpace<const AS_SIZE: usize>;

/// Whether `n` is a power of two.
pub fn is_power_of_two(n: usize) -> (r: bool)
    ensures
        r == is_pow2(n as int),
{
    if n == 0 {
        reveal_with_fuel(is_pow2, 2);
        return false;
    }
    let mut m = n;
    while m % 2 == 0
        invariant
            0 < m <= n,
            is_pow2(m as int) == is_pow2(n as int),
        decreases m,
    {
        reveal_with_fuel(is_pow2, 2);
        m = m / 2;
    }
    reveal_with_fuel(is_pow2, 2);
    m == 1
}

/// The binary logarithm of a power of two.
pub fn shift_of(n: usize) -> (r: usize)
    requires
        is_pow2(n as int),
    ensures
        pow2(r as nat) == n,
        r == log(2, n as int),
        r < 64,
{
    let mut m = n;
    let mut shift: usize = 0;
    proof {
        reveal_with_fuel(is_pow2, 2);
        lemma2_to64();
    }
    while m > 1
        invariant
            0 < m <= n,
            is_pow2(m as int),
            m * pow2(shift as nat) == n,
            shift < 64,
        decreases m,
    {
        proof {
            let next = (shift + 1) as nat;
            reveal_with_fuel(is_pow2, 2);
            lemma_pow2_unfold(next);
            assert((m / 2) * pow2(next) == n) by (nonlinear_arith)
                requires
                    m == 2 * (m / 2),
                    m * pow2(shift as nat) == n,
                    pow2(next) == 2 * pow2(shift as nat),
            ;
            if next >= 64 {
                lemma2_to64();
                assert((m / 2) * pow2(next) >= pow2(next)) by (nonlinear_arith)
                    requires
                        m / 2 >= 1,
                ;
            }
        }
        m = m / 2;
        shift = shift + 1;
    }
    proof {
        lemma_pow2(shift as nat);
        lemma_log_pow(2, shift as nat);
    }
    shift
}

impl<const GRANULE_SIZE: usize> TranslationGranule<GRANULE_SIZE> {
    /// The size is a power of two.
    pub open spec fn valid() -> bool {
        is_pow2(GRANULE_SIZE as int)
    }

    /// Decides `valid`.
    pub fn is_valid() -> (r: bool)
        ensures
            r == Self::valid(),
    {
        is_power_of_two(GRANULE_SIZE)
    }

    /// The granule's size.
    pub fn size() -> (r: usize)
        requires
            Self::valid(),
        ensures
            r == GRANULE_SIZE,
    {
        GRANULE_SIZE
    }

    /// The granule's shift, aka log2(size).
    pub fn shift() -> (r: usize)
        requires
            Self::valid(),
        ensures
            pow2(r as nat) == GRANULE_SIZE,
            r == log(2, GRANULE_SIZE as int),
            r < 64,
    {
        shift_of(GRANULE_SIZE)
    }
}

impl<const AS_SIZE: usize> AddressSpace<AS_SIZE> {
    /// The size is a power of two that the architecture can map.
    pub open spec fn valid() -> bool {
        is_pow2(AS_SIZE as int) && arch_mmu::address_space_size_supported(AS_SIZE)
    }

    /// Decides `valid`.
    pub fn is_valid() -> (r: bool)
        ensures
            r == Self::valid(),
    {
        is_power_of_two(AS_SIZE) && Self::arch_address_space_size_sanity_checks()
    }

    /// The address space size.
    pub fn size() -> (r: usize)
        requires
            Self::valid(),
        ensures
            r == AS_SIZE,
    {
        AS_SIZE
    }

    /// The address space shift, aka log2(size).
    pub fn size_shift() -> (r: usize)
        requires
            Self::valid(),
        ensures
            pow2(r as nat) == AS_SIZE,
            r == log(2, AS_SIZE as int),
            r < 64,
    {
        shift_of(AS_SIZE)
    }
}

/// How a virtual range maps onto physical memory.
#[derive(Copy, Clone, Debug, PartialEq, Eq)]
pub enum Translation {
    /// Physical address equals virtual address.
    Identity,
    /// The range starts at the given physical address.
    Offset(usize),
}

/// Memory classes.
#[derive(Copy, Clone, Debug, PartialEq, Eq)]
pub enum MemAttributes {
    CacheableDram,
    Device,
}

/// Access permissions.
#[derive(Copy, Clone, Debug, PartialEq, Eq)]
pub enum AccessPermissions {
    ReadOnly,
    ReadWrite,
}

/// The attributes of a mapping.
#[derive(Copy, Clone, Debug, PartialEq, Eq)]
pub struct AttributeFields {
    pub mem_attributes: MemAttributes,
    pub acc_perms: AccessPermissions,
    pub execute_never: bool,
}

/// One named range of the layout.
pub struct TranslationDescriptor {
    pub name: &'static str,
    pub virtual_range: RangeInclusive<usize>,
    pub physical_range_translation: Translation,
    pub attribute_fields: AttributeFields,
}

/// The kernel's virtual memory layout.
pub struct KernelVirtualLayout<const NUM_SPECIAL_RANGES: usize> {
    /// The last (inclusive) address of the address space.
    max_virt_addr_inclusive: usize,
    /// The ranges that differ from the default mapping, in declaration order.
    inner: [TranslationDescriptor; NUM_SPECIAL_RANGES],
}

/// The attributes of every address that no descriptor covers: read-write,
/// cacheable, never executable.
pub open spec fn default_attribute_fields() -> AttributeFields {
    AttributeFields {
        mem_attributes: MemAttributes::CacheableDram,
        acc_perms: AccessPermissions::ReadWrite,
        execute_never: true,
    }
}

impl Default for AttributeFields {
    fn default() -> (r: Self)
        ensures
            r == default_attribute_fields(),
    {
        Self {
            mem_attributes: MemAttributes::CacheableDram,
            acc_perms: AccessPermissions::ReadWrite,
            execute_never: true,
        }
    }
}

impl TranslationDescriptor {
    /// Whether `virt_addr` lies in the descriptor's range.
    pub open spec fn covers(&self, virt_addr: usize) -> bool {
        &&& self.virtual_range@.start <= virt_addr
        &&& if self.virtual_range@.exhausted {
            virt_addr < self.virtual_range@.end
        } else {
            virt_addr <= self.virtual_range@.end
        }
    }

    /// The physical address that the descriptor gives to a virtual address
    /// of its range.
    pub open spec fn translate(&self, virt_addr: usize) -> int {
        match self.physical_range_translation {
            Translation::Identity => virt_addr as int,
            Translation::Offset(a) => a + (virt_addr - self.virtual_range@.start),
        }
    }

    /// The physical image of the range ends within the address space of the
    /// machine.
    pub open spec fn image_fits(&self) -> bool {
        self.physical_range_translation matches Translation::Offset(a) ==> (self.virtual_range@.start
            <= self.virtual_range@.end ==> a + (self.virtual_range@.end
            - self.virtual_range@.start) <= usize::MAX)
    }

    /// The range is as it was made, not one that an iteration has used up,
    /// and its physical image ends within the address space of the machine.
    pub open spec fn wf(&self) -> bool {
        !self.virtual_range@.exhausted && self.image_fits()
    }

    /// Decides `wf` for a range as it was made.
    pub fn is_wf(&self) -> (r: bool)
        requires
            !self.virtual_range@.exhausted,
        ensures
            r == self.wf(),
    {
        let start = *self.virtual_range.start();
        let end = *self.virtual_range.end();
        match self.physical_range_translation {
            Translation::Identity => true,
            Translation::Offset(a) => start > end || a <= usize::MAX - (end - start),
        }
    }
}

/// What a descriptor's line of the layout table shows.
#[derive(Copy, Clone, Debug, PartialEq, Eq)]
pub struct LayoutLine {
    /// The first address of the range.
    pub start: usize,
    /// The last address of the range.
    pub end: usize,
    /// The size of the range, in units of `unit`, rounded up.
    pub size: usize,
    /// The unit of `size`.
    pub unit: &'static str,
    /// The memory class: "C" for cacheable, "Dev" for device memory.
    pub mem_attributes: &'static str,
    /// The access permission: "RO" or "RW".
    pub acc_perms: &'static str,
    /// Whether the range can be executed: "PXN" where it cannot, else "PX".
    pub execute: &'static str,
    /// The descriptor's name.
    pub name: &'static str,
}

/// The text of a line of the layout table: the first and the last address in
/// hexadecimal with ten characters each, the size on at least three columns
/// with its unit, the codes of memory class, access permission and
/// execution, and the name.
pub uninterp spec fn layout_line_text(
    start: usize,
    end: usize,
    size: usize,
    unit: Seq<char>,
    mem_attributes: Seq<char>,
    acc_perms: Seq<char>,
    execute: Seq<char>,
    name: Seq<char>,
) -> Seq<char>;

/// `format!` with the pattern of a line of the layout table.
#[verifier::external_body]
fn format_layout_line(line: &LayoutLine) -> (r: String)
    ensures
        r@ == layout_line_text(
            line.start,
            line.end,
            line.size,
            line.unit@,
            line.mem_attributes@,
            line.acc_perms@,
            line.execute@,
            line.name@,
        ),
{
    format!(
        "      {:#010x} - {:#010x} | {: >3} {} | {: <3} {} {: <3} | {}",
        line.start,
        line.end,
        line.size,
        line.unit,
        line.mem_attributes,
        line.acc_perms,
        line.execute,
        line.name
    )
}

impl LayoutLine {
    /// The text of the line.
    pub open spec fn text(&self) -> Seq<char> {
        layout_line_text(
            self.start,
            self.end,
            self.size,
            self.unit@,
            self.mem_attributes@,
            self.acc_perms@,
            self.execute@,
            self.name@,
        )
    }

    /// The text of the line.
    pub fn to_string(&self) -> (r: String)
        ensures
            r@ == self.text(),
    {
        format_layout_line(self)
    }
}

impl TranslationDescriptor {
    /// The range is as it was made and not empty, and the number of its
    /// addresses can be counted.
    pub open spec fn printable(&self) -> bool {
        &&& !self.virtual_range@.exhausted
        &&& self.virtual_range@.start <= self.virtual_range@.end
        &&& self.virtual_range@.end - self.virtual_range@.start < usize::MAX
    }

    /// What the descriptor's line of the layout table shows.
    pub open spec fn layout_line(&self) -> LayoutLine {
        let size = (self.virtual_range@.end - self.virtual_range@.start + 1) as usize;
        LayoutLine {
            start: self.virtual_range@.start,
            end: self.virtual_range@.end,
            size: human_readable_ceil(size).0,
            unit: human_readable_ceil(size).1,
            mem_attributes: match self.attribute_fields.mem_attributes {
                MemAttributes::CacheableDram => "C",
                MemAttributes::Device => "Dev",
            },
            acc_perms: match self.attribute_fields.acc_perms {
                AccessPermissions::ReadOnly => "RO",
                AccessPermissions::ReadWrite => "RW",
            },
            execute: if self.attribute_fields.execute_never {
                "PXN"
            } else {
                "PX"
            },
            name: self.name,
        }
    }

    /// Decides `printable` for a range as it was made.
    pub fn is_printable(&self) -> (r: bool)
        requires
            !self.virtual_range@.exhausted,
        ensures
            r == self.printable(),
    {
        let start = *self.virtual_range.start();
        let end = *self.virtual_range.end();
        start <= end && end - start < usize::MAX
    }

    /// What the descriptor's line of the layout table shows.
    pub fn line(&self) -> (r: LayoutLine)
        requires
            self.printable(),
        ensures
            r == self.layout_line(),
    {
        let start = *self.virtual_range.start();
        let end = *self.virtual_range.end();
        let size = end - start + 1;
        let (size, unit) = size_human_readable_ceil(size);
        let attr = match self.attribute_fields.mem_attributes {
            MemAttributes::CacheableDram => "C",
            MemAttributes::Device => "Dev",
        };
        let acc_p = match self.attribute_fields.acc_perms {
            AccessPermissions::ReadOnly => "RO",
            AccessPermissions::ReadWrite => "RW",
        };
        let xn = if self.attribute_fields.execute_never {
            "PXN"
        } else {
            "PX"
        };
        LayoutLine {
            start,
            end,
            size,
            unit,
            mem_attributes: attr,
            acc_perms: acc_p,
            execute: xn,
            name: self.name,
        }
    }

    /// The descriptor's line of the layout table.
    pub fn to_string(&self) -> (r: String)
        requires
            self.printable(),
        ensures
            r@ == self.layout_line().text(),
    {
        self.line().to_string()
    }
}

/// The message of a lookup beyond the end of the address space.
pub open spec fn out_of_range() -> &'static str {
    "Address out of range"
}

/// The index of the first descriptor from `from` on that covers
/// `virt_addr`, or the length of the list where none does.
pub open spec fn first_covering(
    descriptors: Seq<TranslationDescriptor>,
    virt_addr: usize,
    from: int,
) -> int
    decreases descriptors.len() - from,
{
    if from < 0 || from >= descriptors.len() {
        descriptors.len() as int
    } else if descriptors[from].covers(virt_addr) {
        from
    } else {
        first_covering(descriptors, virt_addr, from + 1)
    }
}

/// What `first_covering` finds: a covering descriptor that none before it
/// (from `from` on) covers, or the end of the list.
pub proof fn lemma_first_covering(
    descriptors: Seq<TranslationDescriptor>,
    virt_addr: usize,
    from: int,
)
    requires
        0 <= from <= descriptors.len(),
    ensures
        from <= first_covering(descriptors, virt_addr, from) <= descriptors.len(),
        first_covering(descriptors, virt_addr, from) < descriptors.len()
            ==> descriptors[first_covering(descriptors, virt_addr, from)].covers(virt_addr),
        forall|j: int|
            from <= j < first_covering(descriptors, virt_addr, from)
                ==> !(#[trigger] descriptors[j]).covers(virt_addr),
    decreases descriptors.len() - from,
{
    if from < descriptors.len() && !descriptors[from].covers(virt_addr) {
        lemma_first_covering(descriptors, virt_addr, from + 1);
    }
}

impl<const NUM_SPECIAL_RANGES: usize> KernelVirtualLayout<NUM_SPECIAL_RANGES> {
    /// The last (inclusive) address of the address space.
    pub closed spec fn max_virt_addr_inclusive(&self) -> usize {
        self.max_virt_addr_inclusive
    }

    /// The descriptors in declaration order.
    pub closed spec fn descriptors(&self) -> Seq<TranslationDescriptor> {
        self.inner@
    }

    /// Every descriptor is well formed.
    pub open spec fn wf(&self) -> bool {
        &&& self.descriptors().len() == NUM_SPECIAL_RANGES
        &&& forall|i: int|
            0 <= i < self.descriptors().len() ==> (#[trigger] self.descriptors()[i]).wf()
    }

    /// The physical address and attributes of a virtual address: an error
    /// beyond the end of the address space, else what the first covering
    /// descriptor says, else the address itself with the default attributes.
    pub open spec fn properties(&self, virt_addr: usize) -> Result<
        (usize, AttributeFields),
        &'static str,
    > {
        let i = first_covering(self.descriptors(), virt_addr, 0);
        if virt_addr > self.max_virt_addr_inclusive() {
            Err(out_of_range())
        } else if i < self.descriptors().len() {
            Ok(
                (
                    self.descriptors()[i].translate(virt_addr) as usize,
                    self.descriptors()[i].attribute_fields,
                ),
            )
        } else {
            Ok((virt_addr, default_attribute_fields()))
        }
    }

    /// Create an instance.
    pub fn new(max: usize, layout: [TranslationDescriptor; NUM_SPECIAL_RANGES]) -> (r: Self)
        requires
            forall|i: int| 0 <= i < layout@.len() ==> (#[trigger] layout@[i]).wf(),
        ensures
            r.wf(),
            r.max_virt_addr_inclusive() == max,
            r.descriptors() == layout@,
    {
        Self { max_virt_addr_inclusive: max, inner: layout }
    }

    /// Print the memory layout: the lines of the layout table, one for each
    /// descriptor in declaration order.
    pub fn print_layout(&self) -> (r: Vec<String>)
        requires
            forall|i: int|
                0 <= i < self.descriptors().len() ==> (#[trigger] self.descriptors()[i]).printable(),
        ensures
            r@.len() == self.descriptors().len(),
            forall|i: int|
                0 <= i < r@.len() ==> (#[trigger] r@[i])@ == self.descriptors()[i].layout_line().text(),
    {
        let mut lines: Vec<String> = Vec::new();
        let mut i: usize = 0;
        while i < NUM_SPECIAL_RANGES
            invariant
                i <= NUM_SPECIAL_RANGES == self.descriptors().len(),
                lines@.len() == i,
                forall|k: int|
                    0 <= k < self.descriptors().len() ==> (#[trigger] self.descriptors()[k]).printable(),
                forall|k: int|
                    0 <= k < lines@.len() ==> (#[trigger] lines@[k])@
                        == self.descriptors()[k].layout_line().text(),
            decreases NUM_SPECIAL_RANGES - i,
        {
            lines.push(self.inner[i].to_string());
            i += 1;
        }
        lines
    }

    /// For a virtual address, find and return the physical output address and
    /// corresponding attributes.
    pub fn virt_addr_properties(&self, virt_addr: usize) -> (r: Result<
        (usize, AttributeFields),
        &'static str,
    >)
        requires
            self.wf(),
        ensures
            r == self.properties(virt_addr),
    {
        if virt_addr > self.max_virt_addr_inclusive {
            return Err("Address out of range");
        }
        let mut i: usize = 0;
        while i < NUM_SPECIAL_RANGES
            invariant
                i <= NUM_SPECIAL_RANGES,
                self.wf(),
                virt_addr <= self.max_virt_addr_inclusive(),
                first_covering(self.descriptors(), virt_addr, 0) == first_covering(
                    self.descriptors(),
                    virt_addr,
                    i as int,
                ),
            decreases NUM_SPECIAL_RANGES - i,
        {
            if self.inner[i].virtual_range.contains(&virt_addr) {
                let output_addr = match self.inner[i].physical_range_translation {
                    Translation::Identity => virt_addr,
                    Translation::Offset(a) => a + (virt_addr - *self.inner[i].virtual_range.start()),
                };
                return Ok((output_addr, self.inner[i].attribute_fields));
            }
            i += 1;
        }
        Ok((virt_addr, AttributeFields::default()))
    }
}

/// An address within the address space resolves through the first descriptor
/// that covers it: to itself under `Identity`, and under `Offset(k)` to `k`
/// plus its distance from the start of the range.
pub proof fn law_covered_address_translates<const N: usize>(
    layout: KernelVirtualLayout<N>,
    virt_addr: usize,
    i: int,
)
    requires
        layout.wf(),
        virt_addr <= layout.max_virt_addr_inclusive(),
        0 <= i < layout.descriptors().len(),
        layout.descriptors()[i].covers(virt_addr),
        forall|j: int| 0 <= j < i ==> !(#[trigger] layout.descriptors()[j]).covers(virt_addr),
    ensures
        layout.properties(virt_addr) matches Ok((phys_addr, attributes)) && attributes
            == layout.descriptors()[i].attribute_fields
            && match layout.descriptors()[i].physical_range_translation {
            Translation::Identity => phys_addr == virt_addr,
            Translation::Offset(k) => phys_addr == k + (virt_addr
                - layout.descriptors()[i].virtual_range@.start),
        },
{
    lemma_first_covering(layout.descriptors(), virt_addr, 0);
}

/// An address within the address space that no descriptor covers maps to
/// itself with the default attributes.
pub proof fn law_uncovered_address_is_default<const N: usize>(
    layout: KernelVirtualLayout<N>,
    virt_addr: usize,
)
    requires
        virt_addr <= layout.max_virt_addr_inclusive(),
        forall|i: int|
            0 <= i < layout.descriptors().len() ==> !(#[trigger] layout.descriptors()[i]).covers(
                virt_addr,
            ),
    ensures
        layout.properties(virt_addr) == Ok::<(usize, AttributeFields), &'static str>(
            (virt_addr, default_attribute_fields()),
        ),
{
    lemma_first_covering(layout.descriptors(), virt_addr, 0);
}

/// An address beyond the end of the address space is an error, whatever the
/// descriptors say.
pub proof fn law_beyond_max_is_error<const N: usize>(
    layout: KernelVirtualLayout<N>,
    virt_addr: usize,
)
    requires
        virt_addr > layout.max_virt_addr_inclusive(),
    ensures
        layout.properties(virt_addr) == Err::<(usize, AttributeFields), &'static str>(
            out_of_range(),
        ),
{
}

/// Where several descriptors cover an address, the one declared first
/// decides: the result is that of a covering descriptor at or before any
/// other covering one, with no covering descriptor before it.
pub proof fn law_earliest_descriptor_wins<const N: usize>(
    layout: KernelVirtualLayout<N>,
    virt_addr: usize,
    j: int,
)
    requires
        layout.wf(),
        virt_addr <= layout.max_virt_addr_inclusive(),
        0 <= j < layout.descriptors().len(),
        layout.descriptors()[j].covers(virt_addr),
    ensures
        ({
            let i = first_covering(layout.descriptors(), virt_addr, 0);
            &&& 0 <= i <= j
            &&& layout.descriptors()[i].covers(virt_addr)
            &&& forall|k: int| 0 <= k < i ==> !(#[trigger] layout.descriptors()[k]).covers(virt_addr)
            &&& layout.properties(virt_addr) == Ok::<(usize, AttributeFields), &'static str>(
                (
                    layout.descriptors()[i].translate(virt_addr) as usize,
                    layout.descriptors()[i].attribute_fields,
                ),
            )
            &&& layout.descriptors()[i].translate(virt_addr) <= usize::MAX
        }),
{
    lemma_first_covering(layout.descriptors(), virt_addr, 0);
}

} // verus!
