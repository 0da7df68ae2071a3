//! The memory management unit of the processor: what its registers are to
//! hold for the kernel's address space, and the order in which they are
//! written.

use crate::memory::mmu::translation_table::{
    pages_within, FixedSizeTranslationTable, GRANULE_512MIB, GRANULE_64KIB, PAGES_PER_TABLE,
};
use crate::memory::mmu::{
    is_power_of_two, out_of_range, shift_of, AddressSpace, KernelVirtualLayout, Mmu, MmuEnableError,
    TranslationGranule,
};
use aarch64_cpu::registers::{ID_AA64MMFR0_EL1, MAIR_EL1, SCTLR_EL1, TCR_EL1};
use vstd::arithmetic::logarithm::{lemma_log_is_ordered, lemma_log_pow, log};
use vstd::arithmetic::power2::{is_pow2, lemma2_to64, lemma_pow2};
use vstd::prelude::*;

verus! {

/// The window of a level-2 table entry.
pub type Granule512MiB = TranslationGranule<0x2000_0000>;

/// The page of a level-3 table entry.
pub type Granule64KiB = TranslationGranule<0x1_0000>;

/// The largest address space that every version of the architecture maps:
/// 48 bits.
pub const MAX_ADDRESS_SPACE_SIZE: u64 = 0x1_0000_0000_0000;

/// The memory attribute indirection register with two classes: attribute 1
/// is normal memory, write-back, non-transient, read- and write-allocating,
/// inner (bits 11..8) and outer (bits 15..12); attribute 0 is device memory,
/// non-gathering, non-reordering, with early write acknowledge (bits 7..0).
pub const MAIR_EL1_VALUE: u64 = 0xff04;

/// The translation control register without the size of the address space:
/// 40 bits of physical address (bits 34..32), no walks through the second
/// table base register (bit 23), a 64 KiB granule (bits 15..14), inner
/// shareable (bits 13..12), table walks write-back, read- and
/// write-allocating, outer (bits 11..10) and inner (bits 9..8).
pub const TCR_EL1_POLICY: u64 = 0x2_0080_7500;

/// The field of the translation control register that holds the number of
/// address bits that are not translated (bits 5..0).
pub const TCR_EL1_T0SZ: u64 = 0x3f;

/// The bits of the system control register that switch on translation
/// (bit 0), the data cache (bit 2) and the instruction cache (bit 12).
pub const SCTLR_EL1_MMU_AND_CACHES: u64 = 0x1005;

/// Bit 0 of the system control register: translation is on.
pub const SCTLR_EL1_MMU: u64 = 0x1;

/// The field of the memory model feature register that says whether the
/// 64 KiB granule is supported (bits 27..24); zero means it is.
pub const ID_AA64MMFR0_EL1_TGRAN64: u64 = 0x0f00_0000;

/// The message of a processor without the 64 KiB granule.
pub open spec fn granule_not_supported() -> &'static str {
    "Translation granule not supported in HW"
}

/// An address space of this size is made of whole 512 MiB windows and has
/// at most 48 bits.
pub open spec fn address_space_size_supported(size: usize) -> bool {
    size % GRANULE_512MIB == 0 && size <= MAX_ADDRESS_SPACE_SIZE
}

/// The largest number of level-2 entries: together they map 48 bits.
pub const MAX_NUM_TABLES: usize = 0x8_0000;

/// A table with this many level-2 entries maps an address space that the
/// architecture supports: a power of two of at most 48 bits.
pub open spec fn table_count_supported(num_tables: usize) -> bool {
    is_pow2(num_tables as int) && num_tables <= MAX_NUM_TABLES
}

/// Decides `table_count_supported`.
pub fn table_count_is_supported(num_tables: usize) -> (r: bool)
    ensures
        r == table_count_supported(num_tables),
{
    is_power_of_two(num_tables) && num_tables <= MAX_NUM_TABLES
}

/// The number of address bits of the address space that a table with
/// `num_tables` level-2 entries maps: 29 for one 512 MiB window, and the
/// binary logarithm of the number of windows.
pub open spec fn address_space_bits(num_tables: usize) -> int {
    29 + log(2, num_tables as int)
}

/// The translation control register for an address space of
/// `2^(64 - t0sz)` bytes.
pub open spec fn translation_control_value(t0sz: u64) -> u64 {
    TCR_EL1_POLICY | (t0sz & TCR_EL1_T0SZ)
}

/// Whether the system control register says that translation is on.
pub open spec fn mmu_enabled(sctlr_el1: u64) -> bool {
    sctlr_el1 & SCTLR_EL1_MMU == SCTLR_EL1_MMU
}

/// Whether the memory model feature register says that the 64 KiB granule
/// is supported.
pub open spec fn granule_64kib_supported(id_aa64mmfr0_el1: u64) -> bool {
    id_aa64mmfr0_el1 & ID_AA64MMFR0_EL1_TGRAN64 == 0
}

/// One step of switching on translation.
#[derive(Copy, Clone, Debug, PartialEq, Eq)]
pub enum MmuStep {
    /// Write the memory attribute indirection register.
    SetMemoryAttributes(u64),
    /// Set the base address in the translation table base register.
    SetTranslationTableBase(u64),
    /// Write the translation control register.
    SetTranslationControl(u64),
    /// Issue an instruction synchronization barrier.
    InstructionBarrier,
    /// Write the system control register.
    SetSystemControl(u64),
}

/// The steps that switch on translation, in the order in which they are
/// taken: the memory attributes, the table base and the translation
/// control; then, between two barriers, the system control register with
/// translation and both caches on.
pub open spec fn enable_steps(phys_base_address: u64, t0sz: u64, sctlr_el1: u64) -> Seq<MmuStep> {
    seq![
        MmuStep::SetMemoryAttributes(MAIR_EL1_VALUE),
        MmuStep::SetTranslationTableBase(phys_base_address),
        MmuStep::SetTranslationControl(translation_control_value(t0sz)),
        MmuStep::InstructionBarrier,
        MmuStep::SetSystemControl(sctlr_el1 | SCTLR_EL1_MMU_AND_CACHES),
        MmuStep::InstructionBarrier,
    ]
}

/// Translation is switched on between two barriers, by a value of the system
/// control register that reads as enabled and differs from the value before
/// in nothing but the bits of translation and of the two caches.
pub proof fn law_enable_steps_switch_translation_on(
    phys_base_address: u64,
    t0sz: u64,
    sctlr_el1: u64,
)
    ensures
        enable_steps(phys_base_address, t0sz, sctlr_el1).len() == 6,
        enable_steps(phys_base_address, t0sz, sctlr_el1)[3] == MmuStep::InstructionBarrier,
        enable_steps(phys_base_address, t0sz, sctlr_el1)[4] == MmuStep::SetSystemControl(
            sctlr_el1 | SCTLR_EL1_MMU_AND_CACHES,
        ),
        enable_steps(phys_base_address, t0sz, sctlr_el1)[5] == MmuStep::InstructionBarrier,
        mmu_enabled(sctlr_el1 | SCTLR_EL1_MMU_AND_CACHES),
        (sctlr_el1 | SCTLR_EL1_MMU_AND_CACHES) & !SCTLR_EL1_MMU_AND_CACHES == sctlr_el1
            & !SCTLR_EL1_MMU_AND_CACHES,
{
    assert((sctlr_el1 | 0x1005) & 0x1 == 0x1 && (sctlr_el1 | 0x1005) & !0x1005u64 == sctlr_el1
        & !0x1005u64) by (bit_vector);
}

/// The fields that `aarch64_cpu` names `Attr1_Normal_Outer` and
/// `Attr1_Normal_Inner`, both `WriteBack_NonTransient_ReadWriteAlloc`, and
/// `Attr0_Device::nonGathering_nonReordering_EarlyWriteAck` of `MAIR_EL1`,
/// in one register value.
#[verifier::external_body]
fn mair_el1_value() -> (r: u64)
    ensures
        r == MAIR_EL1_VALUE,
{
    (MAIR_EL1::Attr1_Normal_Outer::WriteBack_NonTransient_ReadWriteAlloc
        + MAIR_EL1::Attr1_Normal_Inner::WriteBack_NonTransient_ReadWriteAlloc
        + MAIR_EL1::Attr0_Device::nonGathering_nonReordering_EarlyWriteAck).value
}

/// The fields of `TCR_EL1` as `aarch64_cpu` encodes them, in one register
/// value: `TBI0::Used`, `IPS::Bits_40`, `TG0::KiB_64`, `SH0::Inner`, `ORGN0`
/// and `IRGN0` both `WriteBack_ReadAlloc_WriteAlloc_Cacheable`,
/// `EPD0::EnableTTBR0Walks`, `A1::TTBR0`, `EPD1::DisableTTBR1Walks`, and
/// `T0SZ` holding the low six bits of `t0sz`.
#[verifier::external_body]
fn tcr_el1_value(t0sz: u64) -> (r: u64)
    ensures
        r == translation_control_value(t0sz),
{
    (TCR_EL1::TBI0::Used + TCR_EL1::IPS::Bits_40 + TCR_EL1::TG0::KiB_64 + TCR_EL1::SH0::Inner
        + TCR_EL1::ORGN0::WriteBack_ReadAlloc_WriteAlloc_Cacheable
        + TCR_EL1::IRGN0::WriteBack_ReadAlloc_WriteAlloc_Cacheable
        + TCR_EL1::EPD0::EnableTTBR0Walks + TCR_EL1::A1::TTBR0 + TCR_EL1::T0SZ.val(t0sz)
        + TCR_EL1::EPD1::DisableTTBR1Walks).value
}

/// `sctlr_el1` with the fields `M::Enable`, `C::Cacheable` and
/// `I::Cacheable` of `SCTLR_EL1` set as `aarch64_cpu` encodes them, and
/// every other bit as it was.
#[verifier::external_body]
fn sctlr_el1_with_mmu_and_caches(sctlr_el1: u64) -> (r: u64)
    ensures
        r == sctlr_el1 | SCTLR_EL1_MMU_AND_CACHES,
{
    (SCTLR_EL1::M::Enable + SCTLR_EL1::C::Cacheable + SCTLR_EL1::I::Cacheable).modify(sctlr_el1)
}

/// Whether `sctlr_el1` holds `M::Enable` of `SCTLR_EL1` as `aarch64_cpu`
/// encodes it.
#[verifier::external_body]
fn sctlr_el1_mmu_enabled(sctlr_el1: u64) -> (r: bool)
    ensures
        r == mmu_enabled(sctlr_el1),
{
    SCTLR_EL1::M::Enable.matches_all(sctlr_el1)
}

/// Whether `id_aa64mmfr0_el1` holds `TGran64::Supported` of
/// `ID_AA64MMFR0_EL1` as `aarch64_cpu` encodes it.
#[verifier::external_body]
fn id_aa64mmfr0_el1_tgran64_supported(id_aa64mmfr0_el1: u64) -> (r: bool)
    ensures
        r == granule_64kib_supported(id_aa64mmfr0_el1),
{
    ID_AA64MMFR0_EL1::TGran64::Supported.matches_all(id_aa64mmfr0_el1)
}

impl<const AS_SIZE: usize> AddressSpace<AS_SIZE> {
    /// Checks for architectural restrictions.
    pub fn arch_address_space_size_sanity_checks() -> (r: bool)
        ensures
            r == address_space_size_supported(AS_SIZE),
    {
        AS_SIZE % GRANULE_512MIB == 0 && AS_SIZE as u64 <= MAX_ADDRESS_SPACE_SIZE
    }
}

/// The memory management unit.
pub struct MemoryManagementUnit;

impl MemoryManagementUnit {
    /// The value of the memory attribute indirection register.
    pub fn set_up_mair(&self) -> (r: u64)
        ensures
            r == MAIR_EL1_VALUE,
    {
        mair_el1_value()
    }

    /// The value of the translation control register for an address space of
    /// `2^address_space_shift` bytes.
    pub fn configure_translation_control(&self, address_space_shift: usize) -> (r: u64)
        requires
            address_space_shift <= 64,
        ensures
            r == translation_control_value((64 - address_space_shift) as u64),
    {
        let t0sz = (64 - address_space_shift) as u64;
        tcr_el1_value(t0sz)
    }
}

impl Mmu for MemoryManagementUnit {
    open spec fn enabled(&self, sctlr_el1: u64) -> bool {
        mmu_enabled(sctlr_el1)
    }

    fn enable_mmu_and_caching<const NUM_TABLES: usize, const N: usize>(
        &self,
        sctlr_el1: u64,
        id_aa64mmfr0_el1: u64,
        tables: &mut FixedSizeTranslationTable<NUM_TABLES>,
        layout: &KernelVirtualLayout<N>,
    ) -> (r: Result<[MmuStep; 6], MmuEnableError>)
        ensures
            final(tables).wf(),
            final(tables).phys_start_addr() == old(tables).phys_start_addr(),
            !mmu_enabled(sctlr_el1) && !granule_64kib_supported(id_aa64mmfr0_el1) ==> r == Err::<
                [MmuStep; 6],
                MmuEnableError,
            >(MmuEnableError::Other(granule_not_supported())) && *final(tables) == *old(tables),
            !mmu_enabled(sctlr_el1) && granule_64kib_supported(id_aa64mmfr0_el1) && pages_within(
                layout,
            ) < NUM_TABLES * PAGES_PER_TABLE ==> r == Err::<[MmuStep; 6], MmuEnableError>(
                MmuEnableError::Other(out_of_range()),
            ) && final(tables).filled(
                *old(tables),
                layout,
                pages_within(layout) / (PAGES_PER_TABLE as int) + 1,
                pages_within(layout),
            ),
            !mmu_enabled(sctlr_el1) && granule_64kib_supported(id_aa64mmfr0_el1) && pages_within(
                layout,
            ) >= NUM_TABLES * PAGES_PER_TABLE ==> final(tables).filled(
                *old(tables),
                layout,
                NUM_TABLES as int,
                NUM_TABLES * PAGES_PER_TABLE,
            ) && r.is_ok() && r.unwrap()@ == enable_steps(
                (old(tables).phys_start_addr() + NUM_TABLES * GRANULE_64KIB) as u64,
                (64 - address_space_bits(NUM_TABLES)) as u64,
                sctlr_el1,
            ),
    {
        if self.is_enabled(sctlr_el1) {
            return Err(MmuEnableError::AlreadyEnabled);
        }
        // Fail early if translation granule is not supported.

        if !id_aa64mmfr0_el1_tgran64_supported(id_aa64mmfr0_el1) {
            return Err(MmuEnableError::Other("Translation granule not supported in HW"));
        }
        // Prepare the memory attribute indirection register.

        let mair = self.set_up_mair();

        // Populate translation tables.
        match tables.populate_tt_entries(layout) {
            Err(e) => {
                return Err(MmuEnableError::Other(e));
            },
            Ok(()) => {},
        }

        // Set the "Translation Table Base Register".
        let base = tables.phys_base_address();

        let shift = 29 + shift_of(NUM_TABLES);
        proof {
            lemma2_to64();
            lemma_pow2(19);
            lemma_log_pow(2, 19);
            lemma_log_is_ordered(2, NUM_TABLES as int, MAX_NUM_TABLES as int);
        }
        let tcr = self.configure_translation_control(shift);

        // Switch the MMU on, between two barriers: all previous changes are
        // seen before, and the switch is complete before the next instruction.
        let sctlr = sctlr_el1_with_mmu_and_caches(sctlr_el1);
        let steps = [
            MmuStep::SetMemoryAttributes(mair),
            MmuStep::SetTranslationTableBase(base),
            MmuStep::SetTranslationControl(tcr),
            MmuStep::InstructionBarrier,
            MmuStep::SetSystemControl(sctlr),
            MmuStep::InstructionBarrier,
        ];
        assert(steps@ =~= enable_steps(base, (64 - shift) as u64, sctlr_el1));
        assert(shift == address_space_bits(NUM_TABLES));
        Ok(steps)
    }

    fn is_enabled(&self, sctlr_el1: u64) -> (r: bool) {
        sctlr_el1_mmu_enabled(sctlr_el1)
    }
}

/// Return the MMU instance.
pub fn mmu() -> MemoryManagementUnit {
    MemoryManagementUnit
}

} // verus!
