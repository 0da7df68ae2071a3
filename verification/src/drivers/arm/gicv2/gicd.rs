//! GICD Driver - GIC Distributor.

use crate::bitfield::{field_read_u32, field_value_u32};
use crate::drivers::common::MmioDerefWrapper;
use crate::exception::asynchronous::{Daif, IrqNumber};
use crate::state::{State, StateManager};
use crate::synchronization::{IrqSafeNullLock, Mutex};
use vstd::prelude::*;

verus! {

/// Offset of the distributor control register.
pub const GICD_CTLR: usize = 0x000;

/// Offset of the interrupt controller type register.
pub const GICD_TYPER: usize = 0x004;

/// Offset of the banked set-enable register, for the interrupts that are
/// private to a core.
pub const GICD_ISENABLER_BANKED: usize = 0x100;

/// Offset of the first shared set-enable register.
pub const GICD_ISENABLER_SHARED: usize = 0x104;

/// Offset of the first banked processor targets register.
pub const GICD_ITARGETSR_BANKED: usize = 0x800;

/// Offset of the first shared processor targets register.
pub const GICD_ITARGETSR_SHARED: usize = 0x820;

/// The number of shared set-enable registers.
pub const NUM_ISENABLER_SHARED: usize = 31;

/// The number of shared processor targets registers.
pub const NUM_ITARGETSR_SHARED: usize = 248;

/// The number of interrupts that are private to a core.
pub const NUM_PRIVATE_IRQS: usize = 32;

/// The offset of a shared set-enable register.
pub open spec fn isenabler_offset(index: int) -> int {
    GICD_ISENABLER_SHARED + 4 * index
}

/// The offset of a shared processor targets register.
pub open spec fn itargetsr_offset(index: int) -> int {
    GICD_ITARGETSR_SHARED + 4 * index
}

/// The layout of the register block: the shared set-enable registers follow
/// the banked one and end at 0x180; the shared processor targets registers
/// follow the eight banked ones and end at 0xc00; and every interrupt number
/// has its set-enable bit and its target byte in one of them.
pub proof fn law_register_block_layout()
    ensures
        isenabler_offset(0) == GICD_ISENABLER_BANKED + 4,
        isenabler_offset(NUM_ISENABLER_SHARED as int) == 0x180,
        itargetsr_offset(0) == GICD_ITARGETSR_BANKED + 8 * 4,
        itargetsr_offset(NUM_ITARGETSR_SHARED as int) == 0xc00,
        (NUM_ISENABLER_SHARED + 1) * 32 == 1024,
        NUM_ITARGETSR_SHARED * 4 + NUM_PRIVATE_IRQS == 1024,
{
}

/// The registers that all cores share.
pub struct SharedRegisterBlock {
    /// Distributor control register; bit 0 enables the distributor.
    pub ctlr: u32,
    /// Interrupt controller type register; bits 4..0 hold the number of
    /// implemented interrupt lines, in units of 32, less one.
    pub typer: u32,
    /// Set-enable registers of the shared interrupts, one bit each.
    pub isenabler: [u32; 31],
    /// Processor targets registers of the shared interrupts, one byte each.
    pub itargetsr: [u32; 248],
}

/// The registers of which every core has its own copy.
pub struct BankedRegisterBlock {
    /// Set-enable register of the private interrupts, one bit each.
    pub isenabler: u32,
    /// Processor targets registers of the private interrupts; every byte
    /// reads as the mask of the reading core.
    pub itargetsr: [u32; 8],
}

/// Abstraction for the non-banked parts of the associated MMIO registers.
pub type SharedRegisters = MmioDerefWrapper<SharedRegisterBlock>;

/// Abstraction for the banked parts of the associated MMIO registers.
pub type BankedRegisters = MmioDerefWrapper<BankedRegisterBlock>;

/// The number of interrupts that the hardware implements, by its type
/// register.
pub open spec fn num_irqs(typer: u32) -> int {
    ((typer & 0x1f) + 1) * 32
}

/// The number of implemented processor targets registers of shared
/// interrupts: one for every four interrupts beyond the private ones.
pub open spec fn num_implemented_itargetsr(typer: u32) -> int {
    (num_irqs(typer) - NUM_PRIVATE_IRQS) / 4
}

/// The mask of the core that reads the banked processor targets register.
pub open spec fn local_gic_target_mask(banked_itargetsr0: u32) -> u32 {
    banked_itargetsr0 & 0xff
}

/// A processor targets register that routes its four interrupts to the
/// cores of `mask`.
pub open spec fn itargetsr_value(mask: u32) -> u32 {
    ((mask & 0xff) << 24) | ((mask & 0xff) << 16) | ((mask & 0xff) << 8) | ((mask & 0xff) << 0)
}

/// The bit of an interrupt in its set-enable register.
pub open spec fn enable_bit(irq_num: usize) -> u32 {
    1u32 << (irq_num % 32)
}

/// The index of the shared set-enable register of a shared interrupt.
pub open spec fn shared_enable_index(irq_num: usize) -> int {
    irq_num / 32 - 1
}

/// Register index and bit of an interrupt, by the bits of its number: the
/// number shifted right by five is the index among all set-enable registers,
/// of which the first is the banked one; the low five bits are the bit.
pub proof fn law_enable_index_and_bit(irq_num: usize)
    ensures
        shared_enable_index(irq_num) == (irq_num >> 5) - 1,
        irq_num % 32 == irq_num & 0x1f,
{
    assert(irq_num / 32 == irq_num >> 5 && irq_num % 32 == irq_num & 0x1f) by (bit_vector);
}

impl SharedRegisterBlock {
    /// Create an instance, with every register zero.
    pub fn new() -> (r: Self)
        ensures
            r.ctlr == 0,
            r.typer == 0,
            forall|i: int| 0 <= i < 31 ==> r.isenabler@[i] == 0,
            forall|i: int| 0 <= i < 248 ==> r.itargetsr@[i] == 0,
    {
        Self { ctlr: 0, typer: 0, isenabler: [0u32;31], itargetsr: [0u32;248] }
    }

    /// Return the number of IRQs that this HW implements.
    pub fn num_irqs(&self) -> (r: usize)
        ensures
            r == num_irqs(self.typer),
            32 <= r <= 1024,
    {
        let lines = field_read_u32(0x1f, 0, self.typer);
        let typer = self.typer;
        assert((typer & (0x1fu32 << 0)) >> 0 == typer & 0x1f && typer & 0x1f <= 31u32)
            by (bit_vector);
        ((lines as usize) + 1) * 32
    }

    /// The number of implemented processor targets registers.
    pub fn num_implemented_itargetsr(&self) -> (r: usize)
        ensures
            r == num_implemented_itargetsr(self.typer),
            r <= NUM_ITARGETSR_SHARED,
    {
        (self.num_irqs() - NUM_PRIVATE_IRQS) / 4
    }

    /// Routes every implemented shared interrupt to the cores of `mask`, and
    /// enables the distributor.
    pub fn route_all_and_enable(&mut self, mask: u32)
        ensures
            final(self).ctlr == 1,
            final(self).typer == old(self).typer,
            final(self).isenabler == old(self).isenabler,
            forall|i: int|
                0 <= i < NUM_ITARGETSR_SHARED ==> #[trigger] final(self).itargetsr@[i] == if i
                    < num_implemented_itargetsr(old(self).typer) {
                    itargetsr_value(mask)
                } else {
                    old(self).itargetsr@[i]
                },
    {
        let implemented = self.num_implemented_itargetsr();
        let value = field_value_u32(0xff, 24, mask) | field_value_u32(0xff, 16, mask)
            | field_value_u32(0xff, 8, mask) | field_value_u32(0xff, 0, mask);
        let mut i: usize = 0;
        while i < implemented
            invariant
                i <= implemented <= NUM_ITARGETSR_SHARED,
                value == itargetsr_value(mask),
                self.ctlr == old(self).ctlr,
                self.typer == old(self).typer,
                self.isenabler == old(self).isenabler,
                forall|k: int|
                    0 <= k < NUM_ITARGETSR_SHARED ==> #[trigger] self.itargetsr@[k] == if k < i {
                        value
                    } else {
                        old(self).itargetsr@[k]
                    },
            decreases implemented - i,
        {
            self.itargetsr[i] = value;
            i += 1;
        }
        self.ctlr = field_value_u32(0x1, 0, 1);
        assert((1u32 & 1) << 0 == 1) by (bit_vector);
    }
}

impl BankedRegisterBlock {
    /// Create an instance, with every register zero.
    pub fn new() -> (r: Self)
        ensures
            r.isenabler == 0,
            forall|i: int| 0 <= i < 8 ==> r.itargetsr@[i] == 0,
    {
        Self { isenabler: 0, itargetsr: [0u32;8] }
    }
}

/// Representation of the GIC Distributor.
pub struct GicD {
    /// Access to shared registers is guarded with a lock.
    shared_registers: IrqSafeNullLock<SharedRegisters>,
    /// Access to banked registers is unguarded.
    banked_registers: BankedRegisters,
}

impl GicD {
    /// The registers that all cores share.
    pub closed spec fn shared(&self) -> SharedRegisterBlock {
        self.shared_registers@@
    }

    /// The registers of the executing core.
    pub closed spec fn banked(&self) -> BankedRegisterBlock {
        self.banked_registers@
    }

    /// The address of the register block.
    pub closed spec fn mmio_base_addr(&self) -> usize {
        self.banked_registers.spec_base_addr()
    }

    /// The distributor as it is after `before` has routed every implemented
    /// shared interrupt to the core that executes, and has been enabled: the
    /// implemented processor targets registers hold the core's mask in each
    /// byte, the control register holds the enable bit, and nothing else has
    /// changed.
    pub open spec fn routes_all_to_local_core(&self, before: GicD) -> bool {
        &&& self.mmio_base_addr() == before.mmio_base_addr()
        &&& self.banked() == before.banked()
        &&& self.shared().ctlr == 1
        &&& self.shared().typer == before.shared().typer
        &&& self.shared().isenabler == before.shared().isenabler
        &&& forall|i: int|
            0 <= i < NUM_ITARGETSR_SHARED ==> #[trigger] self.shared().itargetsr@[i] == if i
                < num_implemented_itargetsr(before.shared().typer) {
                itargetsr_value(local_gic_target_mask(before.banked().itargetsr@[0]))
            } else {
                before.shared().itargetsr@[i]
            }
    }

    /// The distributor as it is after `before` has enabled an interrupt: the
    /// bit of a private interrupt is set in the banked set-enable register,
    /// that of a shared interrupt in the shared set-enable register that
    /// holds it, and nothing else has changed.
    pub open spec fn has_enabled(&self, before: GicD, irq_num: usize) -> bool {
        &&& self.mmio_base_addr() == before.mmio_base_addr()
        &&& self.shared().ctlr == before.shared().ctlr
        &&& self.shared().typer == before.shared().typer
        &&& self.shared().itargetsr == before.shared().itargetsr
        &&& self.banked().itargetsr == before.banked().itargetsr
        &&& irq_num < NUM_PRIVATE_IRQS ==> {
            &&& self.banked().isenabler == before.banked().isenabler | enable_bit(irq_num)
            &&& self.shared().isenabler == before.shared().isenabler
        }
        &&& irq_num >= NUM_PRIVATE_IRQS ==> {
            &&& self.banked().isenabler == before.banked().isenabler
            &&& self.shared().isenabler@ == before.shared().isenabler@.update(
                shared_enable_index(irq_num),
                before.shared().isenabler@[shared_enable_index(irq_num)] | enable_bit(irq_num),
            )
        }
    }

    /// Create an instance, with every register zero.
    pub fn new(mmio_base_addr: usize) -> (r: Self)
        ensures
            r.mmio_base_addr() == mmio_base_addr,
            r.shared().ctlr == 0,
            r.shared().typer == 0,
            r.banked().isenabler == 0,
            forall|i: int| 0 <= i < 31 ==> r.shared().isenabler@[i] == 0,
            forall|i: int| 0 <= i < 248 ==> r.shared().itargetsr@[i] == 0,
            forall|i: int| 0 <= i < 8 ==> r.banked().itargetsr@[i] == 0,
    {
        Self {
            shared_registers: IrqSafeNullLock::new(
                SharedRegisters::new(mmio_base_addr, SharedRegisterBlock::new()),
            ),
            banked_registers: BankedRegisters::new(mmio_base_addr, BankedRegisterBlock::new()),
        }
    }

    /// Create an instance from the values that the registers hold.
    pub fn from_registers(
        mmio_base_addr: usize,
        shared: SharedRegisterBlock,
        banked: BankedRegisterBlock,
    ) -> (r: Self)
        ensures
            r.mmio_base_addr() == mmio_base_addr,
            r.shared() == shared,
            r.banked() == banked,
    {
        Self {
            shared_registers: IrqSafeNullLock::new(SharedRegisters::new(mmio_base_addr, shared)),
            banked_registers: BankedRegisters::new(mmio_base_addr, banked),
        }
    }

    /// Use a banked ITARGETSR to retrieve the executing core's GIC target
    /// mask.
    pub fn local_gic_target_mask(&self) -> (r: u32)
        ensures
            r == local_gic_target_mask(self.banked().itargetsr@[0]),
    {
        let register = self.banked_registers.get().itargetsr[0];
        assert((register & (0xffu32 << 0)) >> 0 == register & 0xff) by (bit_vector);
        field_read_u32(0xff, 0, register)
    }

    /// Route all SPIs to the boot core and enable the distributor. This is
    /// for the boot core, during the kernel's init phase.
    pub fn boot_core_init(&mut self, state: &StateManager, daif: &mut Daif)
        requires
            state@ == State::Init,
        ensures
            final(daif)@ == old(daif)@,
            final(self).routes_all_to_local_core(*old(self)),
    {
        // Target all SPIs to the boot core only.
        let mask = self.local_gic_target_mask();
        let route = |regs: &mut SharedRegisters| -> (r: ())
            ensures
                final(regs).spec_base_addr() == old(regs).spec_base_addr(),
                final(regs)@.ctlr == 1,
                final(regs)@.typer == old(regs)@.typer,
                final(regs)@.isenabler == old(regs)@.isenabler,
                forall|i: int|
                    0 <= i < NUM_ITARGETSR_SHARED ==> #[trigger] final(regs)@.itargetsr@[i] == if i
                        < num_implemented_itargetsr(old(regs)@.typer) {
                        itargetsr_value(mask)
                    } else {
                        old(regs)@.itargetsr@[i]
                    },
            {
                regs.get_mut().route_all_and_enable(mask);
            };
        self.shared_registers.lock(daif, route);
    }

    /// Enable an interrupt: a private one in the banked set-enable register
    /// of the executing core, a shared one in the shared set-enable register
    /// that holds its bit.
    pub fn enable(&mut self, daif: &mut Daif, irq_num: &IrqNumber)
        ensures
            final(daif)@ == old(daif)@,
            final(self).has_enabled(*old(self), irq_num@),
    {
        let irq_num = irq_num.get();

        // Each bit in the u32 enable register corresponds to one IRQ number:
        // the number divided by 32 is the index of the register that holds it.
        let enable_reg_index = irq_num / 32;
        let enable_bit: u32 = 1u32 << (irq_num % 32);

        // Check if we are handling a private or shared IRQ.
        if irq_num < NUM_PRIVATE_IRQS {
            // Private.
            let banked = self.banked_registers.get_mut();
            banked.isenabler = banked.isenabler | enable_bit;
        } else {
            // Shared.
            let enable_reg_index_shared = enable_reg_index - 1;
            let set = |regs: &mut SharedRegisters| -> (r: ())
                requires
                    enable_reg_index_shared < NUM_ISENABLER_SHARED,
                ensures
                    final(regs).spec_base_addr() == old(regs).spec_base_addr(),
                    final(regs)@.ctlr == old(regs)@.ctlr,
                    final(regs)@.typer == old(regs)@.typer,
                    final(regs)@.itargetsr == old(regs)@.itargetsr,
                    final(regs)@.isenabler@ == old(regs)@.isenabler@.update(
                        enable_reg_index_shared as int,
                        old(regs)@.isenabler@[enable_reg_index_shared as int] | enable_bit,
                    ),
                {
                    let block = regs.get_mut();
                    block.isenabler[enable_reg_index_shared] =
                        block.isenabler[enable_reg_index_shared] | enable_bit;
                };
            self.shared_registers.lock(daif, set);
        }
    }

    /// Takes over the values that the hardware's registers hold.
    pub fn load(&mut self, shared: SharedRegisterBlock, banked: BankedRegisterBlock)
        ensures
            final(self).mmio_base_addr() == old(self).mmio_base_addr(),
            final(self).shared() == shared,
            final(self).banked() == banked,
    {
        let base = self.banked_registers.base_addr();
        self.shared_registers = IrqSafeNullLock::new(SharedRegisters::new(base, shared));
        self.banked_registers = BankedRegisters::new(base, banked);
    }

    /// The registers that all cores share.
    pub fn shared_registers(&self) -> (r: &SharedRegisterBlock)
        ensures
            *r == self.shared(),
    {
        self.shared_registers.peek().get()
    }

    /// The registers of the executing core.
    pub fn banked_registers(&self) -> (r: &BankedRegisterBlock)
        ensures
            *r == self.banked(),
    {
        self.banked_registers.get()
    }
}

} // verus!
