//! GICv2 Driver - ARM Generic Interrupt Controller v2.
//!
//! The controller has two halves. The distributor routes and enables
//! interrupts for all cores; the CPU interface acknowledges and completes
//! them for one core. On top of both sits the table of handlers, which is
//! filled during the kernel's init phase and only read afterwards.

use crate::cpu::BOOT_CORE_ID;
use crate::exception::asynchronous::{
    Daif, IrqContext, IrqDispatch, IrqDispatchError, IrqHandlerDescriptor, MAX_IRQ_NUMBER,
};
use crate::state::{State, StateManager};
use crate::synchronization::{write_permitted, InitStateLock, ReadWriteEx};
use vstd::prelude::*;

pub mod gicc;
pub mod gicd;

pub use crate::exception::asynchronous::IrqNumber;

verus! {

/// The number of entries of the handler table: one for every interrupt
/// number.
pub const NUM_HANDLERS: usize = 301;

/// The table of registered handlers, by interrupt number.
pub type HandlerTable = [Option<IrqHandlerDescriptor<IrqNumber>>; 301];

/// The message of a second registration for one interrupt number.
pub open spec fn already_registered() -> &'static str {
    "IRQ handler already registered"
}

/// Registration of a handler in a table: the table afterwards, and what the
/// caller is told. The handler is installed at its interrupt number, unless
/// a handler is installed there already; then the table stays as it is.
pub open spec fn register_in(
    table: Seq<Option<IrqHandlerDescriptor<IrqNumber>>>,
    descriptor: IrqHandlerDescriptor<IrqNumber>,
) -> (Seq<Option<IrqHandlerDescriptor<IrqNumber>>>, Result<(), &'static str>) {
    if table[descriptor.spec_number()@ as int] is Some {
        (table, Err(already_registered()))
    } else {
        (table.update(descriptor.spec_number()@ as int, Some(descriptor)), Ok(()))
    }
}

/// Whatever becomes of a first registration for an interrupt number, a
/// second one for the same number fails and leaves the table as the first
/// one left it; and where no handler was installed for the number before,
/// the first one succeeds and its handler stays installed.
pub proof fn law_second_registration_fails(
    table: Seq<Option<IrqHandlerDescriptor<IrqNumber>>>,
    first: IrqHandlerDescriptor<IrqNumber>,
    second: IrqHandlerDescriptor<IrqNumber>,
)
    requires
        table.len() == NUM_HANDLERS,
        first.spec_number()@ <= MAX_IRQ_NUMBER,
        second.spec_number()@ == first.spec_number()@,
    ensures
        register_in(register_in(table, first).0, second) == (
            register_in(table, first).0,
            Err::<(), &'static str>(already_registered()),
        ),
        table[first.spec_number()@ as int] is None ==> {
            &&& register_in(table, first).1 == Ok::<(), &'static str>(())
            &&& register_in(register_in(table, first).0, second).0[first.spec_number()@ as int]
                == Some(first)
        },
{
}

/// What a pending interrupt with a handler comes to, by what the handler
/// returned: handled, or failed with the handler's message.
pub open spec fn handler_outcome(irq_number: usize, result: Result<(), &'static str>) -> Result<
    IrqDispatch,
    IrqDispatchError,
> {
    match result {
        Ok(()) => Ok(IrqDispatch::Handled(irq_number)),
        Err(message) => Err(IrqDispatchError::HandlerFailed(irq_number, message)),
    }
}

/// Decides what a pending interrupt with a handler comes to, by what the
/// handler returned.
pub fn dispatch_outcome(irq_number: usize, result: Result<(), &'static str>) -> (r: Result<
    IrqDispatch,
    IrqDispatchError,
>)
    ensures
        r == handler_outcome(irq_number, result),
{
    match result {
        Ok(()) => Ok(IrqDispatch::Handled(irq_number)),
        Err(message) => Err(IrqDispatchError::HandlerFailed(irq_number, message)),
    }
}

/// The registered handlers from interrupt number `from` on, each with its
/// number and name, in the order of their numbers.
pub open spec fn handlers_from(
    table: Seq<Option<IrqHandlerDescriptor<IrqNumber>>>,
    from: int,
) -> Seq<(usize, &'static str)>
    decreases table.len() - from,
{
    if from < 0 || from >= table.len() {
        Seq::empty()
    } else {
        (match table[from] {
            Some(descriptor) => seq![(from as usize, descriptor.spec_name())],
            None => Seq::empty(),
        }) + handlers_from(table, from + 1)
    }
}

/// Representation of the GIC.
pub struct GicV2 {
    /// The Distributor.
    gicd: gicd::GicD,
    /// The CPU Interface.
    gicc: gicc::GicC,
    /// Stores registered IRQ handlers. Writable only during kernel init. RO
    /// afterwards.
    handler_table: InitStateLock<HandlerTable>,
}

impl GicV2 {
    /// The distributor.
    pub closed spec fn distributor(&self) -> gicd::GicD {
        self.gicd
    }

    /// The CPU interface.
    pub closed spec fn cpu_interface(&self) -> gicc::GicC {
        self.gicc
    }

    /// The registered handlers, by interrupt number.
    pub closed spec fn handlers(&self) -> Seq<Option<IrqHandlerDescriptor<IrqNumber>>> {
        self.handler_table@@
    }

    /// Create an instance, with every register zero and no handler.
    pub fn new(gicd_mmio_base_addr: usize, gicc_mmio_base_addr: usize) -> (r: Self)
        ensures
            r.handlers().len() == NUM_HANDLERS,
            forall|i: int| 0 <= i < NUM_HANDLERS ==> r.handlers()[i] is None,
            r.distributor().mmio_base_addr() == gicd_mmio_base_addr,
            r.cpu_interface().mmio_base_addr() == gicc_mmio_base_addr,
    {
        Self {
            gicd: gicd::GicD::new(gicd_mmio_base_addr),
            gicc: gicc::GicC::new(gicc_mmio_base_addr),
            handler_table: InitStateLock::new([None;301]),
        }
    }

    /// Return a compatibility string for identifying the driver.
    pub fn compatible(&self) -> (r: &'static str)
        ensures
            r == "GICv2 (ARM Generic Interrupt Controller v2)",
    {
        "GICv2 (ARM Generic Interrupt Controller v2)"
    }

    /// Brings the controller up on the core `core_id`: the boot core first
    /// routes the shared interrupts to itself and enables the distributor;
    /// every core then lets interrupts of any priority pass and enables its
    /// CPU interface.
    pub fn init(&mut self, state: &StateManager, daif: &mut Daif, core_id: u64) -> (r: Result<
        (),
        &'static str,
    >)
        requires
            core_id == BOOT_CORE_ID ==> state@ == State::Init,
        ensures
            r == Ok::<(), &'static str>(()),
            final(daif)@ == old(daif)@,
            final(self).handlers() == old(self).handlers(),
            if core_id == BOOT_CORE_ID {
                final(self).distributor().routes_all_to_local_core(old(self).distributor())
            } else {
                final(self).distributor() == old(self).distributor()
            },
            final(self).cpu_interface().mmio_base_addr() == old(
                self,
            ).cpu_interface().mmio_base_addr(),
            final(self).cpu_interface()@.pmr == gicc::PRIORITY_ACCEPT_ALL,
            final(self).cpu_interface()@.ctlr == 1,
            final(self).cpu_interface()@.iar == old(self).cpu_interface()@.iar,
            final(self).cpu_interface()@.eoir == old(self).cpu_interface()@.eoir,
    {
        if core_id == BOOT_CORE_ID {
            self.gicd.boot_core_init(state, daif);
        }
        self.gicc.priority_accept_all();
        self.gicc.enable();
        Ok(())
    }

    /// Register a handler: it is installed at its interrupt number, unless a
    /// handler is installed there already.
    pub fn register_handler(
        &mut self,
        state: &StateManager,
        daif: &Daif,
        irq_handler_descriptor: IrqHandlerDescriptor<IrqNumber>,
    ) -> (r: Result<(), &'static str>)
        requires
            write_permitted(state@, *daif),
        ensures
            final(self).distributor() == old(self).distributor(),
            final(self).cpu_interface() == old(self).cpu_interface(),
            irq_handler_descriptor.spec_number()@ <= MAX_IRQ_NUMBER,
            (final(self).handlers(), r) == register_in(old(self).handlers(), irq_handler_descriptor),
    {
        let irq_number = irq_handler_descriptor.number().get();
        let install = |table: &mut HandlerTable| -> (r: Result<(), &'static str>)
            requires
                irq_number < NUM_HANDLERS,
            ensures
                if old(table)@[irq_number as int] is Some {
                    &&& r == Err::<(), &'static str>(already_registered())
                    &&& final(table)@ == old(table)@
                } else {
                    &&& r == Ok::<(), &'static str>(())
                    &&& final(table)@ == old(table)@.update(
                        irq_number as int,
                        Some(irq_handler_descriptor),
                    )
                },
            {
                if table[irq_number].is_some() {
                    Err("IRQ handler already registered")
                } else {
                    table[irq_number] = Some(irq_handler_descriptor);
                    Ok(())
                }
            };
        self.handler_table.write(state, daif, install)
    }

    /// Enable an interrupt in the controller.
    pub fn enable(&mut self, daif: &mut Daif, irq_number: &IrqNumber)
        ensures
            final(daif)@ == old(daif)@,
            final(self).handlers() == old(self).handlers(),
            final(self).cpu_interface() == old(self).cpu_interface(),
            final(self).distributor().has_enabled(old(self).distributor(), irq_number@),
    {
        self.gicd.enable(daif, irq_number);
    }

    /// Handle the pending interrupt of highest priority: where the CPU
    /// interface reports a number beyond the largest interrupt number,
    /// nothing is done; else the handler registered for the number runs,
    /// and the CPU interface is told that handling is complete. A number
    /// without a handler and a handler that fails are errors, and leave the
    /// interrupt uncompleted.
    pub fn handle_pending_irqs<'irq_context>(
        &'irq_context mut self,
        ic: &IrqContext<'irq_context>,
    ) -> (r: Result<IrqDispatch, IrqDispatchError>)
        ensures
            final(self).handlers() == old(self).handlers(),
            final(self).distributor() == old(self).distributor(),
            ({
                let irq_number = gicc::pending_irq_number(old(self).cpu_interface()@.iar);
                if irq_number > MAX_IRQ_NUMBER {
                    &&& r == Ok::<IrqDispatch, IrqDispatchError>(IrqDispatch::OutOfRange(irq_number))
                    &&& final(self).cpu_interface() == old(self).cpu_interface()
                } else if old(self).handlers()[irq_number as int] is None {
                    &&& r == Err::<IrqDispatch, IrqDispatchError>(
                        IrqDispatchError::NoHandler(irq_number),
                    )
                    &&& final(self).cpu_interface() == old(self).cpu_interface()
                } else {
                    &&& exists|result: Result<(), &'static str>|
                        r == #[trigger] handler_outcome(irq_number, result)
                    &&& r is Err ==> final(self).cpu_interface() == old(self).cpu_interface()
                    &&& r is Ok ==> {
                        &&& final(self).cpu_interface()@.eoir == irq_number
                        &&& final(self).cpu_interface()@.iar == old(self).cpu_interface()@.iar
                        &&& final(self).cpu_interface()@.ctlr == old(self).cpu_interface()@.ctlr
                        &&& final(self).cpu_interface()@.pmr == old(self).cpu_interface()@.pmr
                        &&& final(self).cpu_interface().mmio_base_addr() == old(
                            self,
                        ).cpu_interface().mmio_base_addr()
                    }
                }
            }),
    {
        // Extract the highest priority pending IRQ number from the IAR.
        let irq_number = self.gicc.pending_irq_number(ic);
        if irq_number > MAX_IRQ_NUMBER {
            return Ok(IrqDispatch::OutOfRange(irq_number));
        }
        let lookup = |table: &HandlerTable| -> (r: Option<IrqHandlerDescriptor<IrqNumber>>)
            requires
                irq_number < NUM_HANDLERS,
            ensures
                r == table@[irq_number as int],
            {
                table[irq_number]
            };
        match self.handler_table.read(lookup) {
            None => Err(IrqDispatchError::NoHandler(irq_number)),
            Some(descriptor) => {
                // Call the IRQ handler.
                let result = descriptor.handler().handle();
                let outcome = dispatch_outcome(irq_number, result);
                if outcome.is_ok() {
                    // Signal completion of handling.
                    assert(irq_number as u32 & 0x3ff == irq_number as u32) by (bit_vector)
                        requires
                            irq_number <= 300,
                    ;
                    self.gicc.mark_comleted(irq_number as u32, ic);
                }
                outcome
            },
        }
    }

    /// The registered handlers of the shared interrupts, each with its
    /// number and name, in the order of their numbers.
    pub fn print_handler(&self) -> (r: Vec<(usize, &'static str)>)
        ensures
            r@ == handlers_from(self.handlers(), 32),
    {
        let copy = |table: &HandlerTable| -> (r: HandlerTable)
            ensures
                r@ == table@,
            {
                *table
            };
        let table = self.handler_table.read(copy);
        let mut lines: Vec<(usize, &'static str)> = Vec::new();
        let mut i: usize = 32;
        while i < NUM_HANDLERS
            invariant
                32 <= i <= NUM_HANDLERS,
                table@.len() == NUM_HANDLERS,
                lines@ + handlers_from(table@, i as int) == handlers_from(table@, 32),
            decreases NUM_HANDLERS - i,
        {
            let ghost before = lines@;
            match table[i] {
                Some(handler) => {
                    lines.push((i, handler.name()));
                },
                None => {},
            }
            proof {
                let tail = handlers_from(table@, i + 1);
                assert(lines@ + tail =~= before + handlers_from(table@, i as int));
            }
            i += 1;
        }
        assert(lines@ + Seq::<(usize, &'static str)>::empty() =~= lines@);
        lines
    }

    /// The distributor.
    pub fn gicd(&self) -> (r: &gicd::GicD)
        ensures
            *r == self.distributor(),
    {
        &self.gicd
    }

    /// The CPU interface.
    pub fn gicc(&self) -> (r: &gicc::GicC)
        ensures
            *r == self.cpu_interface(),
    {
        &self.gicc
    }

    /// The distributor, to take over what its registers hold.
    pub fn gicd_mut(&mut self) -> (r: &mut gicd::GicD)
        ensures
            *r == old(self).distributor(),
            final(self).distributor() == *final(r),
            final(self).cpu_interface() == old(self).cpu_interface(),
            final(self).handlers() == old(self).handlers(),
    {
        &mut self.gicd
    }

    /// The CPU interface, to take over what its registers hold.
    pub fn gicc_mut(&mut self) -> (r: &mut gicc::GicC)
        ensures
            *r == old(self).cpu_interface(),
            final(self).cpu_interface() == *final(r),
            final(self).distributor() == old(self).distributor(),
            final(self).handlers() == old(self).handlers(),
    {
        &mut self.gicc
    }
}

} // verus!
