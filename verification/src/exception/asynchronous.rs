//! Asynchronous exceptions: the interrupt mask of the executing core, the
//! token that stands for interrupt context, and what handlers and interrupt
//! managers offer.

use crate::drivers::common::BoundedUsize;
use crate::state::StateManager;
use crate::synchronization::{write_permitted, InitStateLock, ReadWriteEx};
use aarch64_cpu::registers::DAIF;
use core::marker::PhantomData;
use vstd::prelude::*;

verus! {

/// Bit 9 of the interrupt mask bits: debug exceptions are masked.
pub const DAIF_DEBUG: u64 = 0x200;

/// Bit 8 of the interrupt mask bits: system errors are masked.
pub const DAIF_SERROR: u64 = 0x100;

/// Bit 7 of the interrupt mask bits: interrupts are masked.
pub const DAIF_IRQ: u64 = 0x80;

/// Bit 6 of the interrupt mask bits: fast interrupts are masked.
pub const DAIF_FIQ: u64 = 0x40;

/// The interrupt mask bits of the executing core.
#[derive(Copy, Clone, Debug, PartialEq, Eq)]
pub struct Daif {
    bits: u64,
}

/// Which kinds of exception are masked.
#[derive(Copy, Clone, Debug, PartialEq, Eq)]
pub struct MaskState {
    pub debug: bool,
    pub serror: bool,
    pub irq: bool,
    pub fiq: bool,
}

/// Whether the fields `D`, `A`, `I` and `F` of `DAIF`, as `aarch64_cpu`
/// places them, are set in `daif`.
#[verifier::external_body]
fn daif_fields_set(daif: u64) -> (r: MaskState)
    ensures
        r.debug == (daif & DAIF_DEBUG != 0),
        r.serror == (daif & DAIF_SERROR != 0),
        r.irq == (daif & DAIF_IRQ != 0),
        r.fiq == (daif & DAIF_FIQ != 0),
{
    MaskState {
        debug: DAIF::D.is_set(daif),
        serror: DAIF::A.is_set(daif),
        irq: DAIF::I.is_set(daif),
        fiq: DAIF::F.is_set(daif),
    }
}

impl Daif {
    /// The register's value.
    pub closed spec fn view(&self) -> u64 {
        self.bits
    }

    /// Whether interrupts are masked.
    pub open spec fn irq_masked(&self) -> bool {
        self@ & DAIF_IRQ != 0
    }

    /// The mask bits as read from the register.
    pub fn new(bits: u64) -> (r: Self)
        ensures
            r@ == bits,
    {
        Self { bits }
    }

    /// The register's value.
    pub fn bits(&self) -> (r: u64)
        ensures
            r == self@,
    {
        self.bits
    }

    /// Which kinds of exception are masked.
    pub fn mask_state(&self) -> (r: MaskState)
        ensures
            r.debug == (self@ & DAIF_DEBUG != 0),
            r.serror == (self@ & DAIF_SERROR != 0),
            r.irq == self.irq_masked(),
            r.fiq == (self@ & DAIF_FIQ != 0),
    {
        daif_fields_set(self.bits)
    }
}

/// Returns whether IRQs are masked on the executing core.
pub fn is_local_irq_masked(daif: &Daif) -> (r: bool)
    ensures
        r == daif.irq_masked(),
{
    daif.mask_state().irq
}

/// Unmask IRQs on the executing core.
pub fn local_irq_unmask(daif: &mut Daif)
    ensures
        final(daif)@ == old(daif)@ & !DAIF_IRQ,
        !final(daif).irq_masked(),
{
    let bits = daif.bits;
    assert((bits & !0x80u64) & 0x80 == 0) by (bit_vector);
    daif.bits = bits & !DAIF_IRQ;
}

/// Mask IRQs on the executing core.
pub fn local_irq_mask(daif: &mut Daif)
    ensures
        final(daif)@ == old(daif)@ | DAIF_IRQ,
        final(daif).irq_masked(),
{
    let bits = daif.bits;
    assert((bits | 0x80u64) & 0x80 != 0) by (bit_vector);
    daif.bits = bits | DAIF_IRQ;
}

/// Mask IRQs on the executing core and return the previously saved interrupt
/// mask bits.
pub fn local_irq_mask_save(daif: &mut Daif) -> (saved: u64)
    ensures
        saved == old(daif)@,
        final(daif)@ == old(daif)@ | DAIF_IRQ,
        final(daif).irq_masked(),
{
    let saved = daif.bits;
    local_irq_mask(daif);
    saved
}

/// Restore the interrupt mask bits using the callee's argument.
pub fn local_irq_restore(daif: &mut Daif, saved: u64)
    ensures
        final(daif)@ == saved,
{
    daif.bits = saved;
}

/// The word for a kind of exception that is masked, or not.
pub open spec fn mask_str(masked: bool) -> &'static str {
    if masked {
        "Masked"
    } else {
        "Unmasked"
    }
}

/// The word for a kind of exception that is masked, or not.
pub fn to_mask_str(masked: bool) -> (r: &'static str)
    ensures
        r == mask_str(masked),
{
    if masked {
        "Masked"
    } else {
        "Unmasked"
    }
}

/// The exception status: for debug exceptions, system errors, interrupts
/// and fast interrupts, in this order, whether they are masked.
pub fn print_state(daif: &Daif) -> (r: [(&'static str, &'static str); 4])
    ensures
        r@ =~= seq![
            ("Debug", mask_str(daif@ & DAIF_DEBUG != 0)),
            ("SError", mask_str(daif@ & DAIF_SERROR != 0)),
            ("IRQ", mask_str(daif.irq_masked())),
            ("FIQ", mask_str(daif@ & DAIF_FIQ != 0)),
        ],
{
    let state = daif.mask_state();
    [
        ("Debug", to_mask_str(state.debug)),
        ("SError", to_mask_str(state.serror)),
        ("IRQ", to_mask_str(state.irq)),
        ("FIQ", to_mask_str(state.fiq)),
    ]
}

/// Executes the provided closure while IRQs are masked on the executing
/// core, and restores the mask bits afterwards. The closure sees the mask
/// bits as they are while it runs.
pub fn exec_with_irq_masked<T, F: FnOnce(&Daif) -> T>(daif: &mut Daif, f: F) -> (r: T)
    requires
        forall|masked: Daif| masked@ == old(daif)@ | DAIF_IRQ ==> call_requires(f, (&masked,)),
    ensures
        final(daif)@ == old(daif)@,
        exists|masked: Daif|
            masked@ == old(daif)@ | DAIF_IRQ && masked.irq_masked() && call_ensures(
                f,
                (&masked,),
                r,
            ),
{
    let saved = local_irq_mask_save(daif);
    let ret = f(&*daif);
    local_irq_restore(daif, saved);
    ret
}

/// Token that stands for execution in interrupt context.
#[derive(Clone, Copy)]
pub struct IrqContext<'irq_context> {
    _0: PhantomData<&'irq_context ()>,
}

impl<'irq_context> IrqContext<'irq_context> {
    /// Creates the token. Interrupt context begins with interrupts masked on
    /// the core that takes the interrupt, so the token is made from mask
    /// bits that say so.
    pub fn new(daif: &Daif) -> (r: Self)
        requires
            daif.irq_masked(),
    {
        IrqContext { _0: PhantomData }
    }
}

/// The largest interrupt number of the interrupt controller.
pub const MAX_IRQ_NUMBER: usize = 300;

/// The number of an interrupt line.
pub type IrqNumber = BoundedUsize<300>;

/// Implemented by types that handle IRQs.
pub trait IrqHandler: Sync {
    /// Called when the corresponding interrupt is asserted.
    fn handle(&self) -> Result<(), &'static str>;
}

/// A reference to an interrupt handler.
pub type IrqHandlerRef = &'static dyn IrqHandler;

/// Interrupt descriptor.
#[derive(Copy, Clone)]
pub struct IrqHandlerDescriptor<T: Copy> {
    /// The IRQ number.
    number: T,
    /// Descriptive name.
    name: &'static str,
    /// Reference to handler trait object.
    handler: IrqHandlerRef,
}

impl<T: Copy> IrqHandlerDescriptor<T> {
    /// The IRQ number.
    pub closed spec fn spec_number(&self) -> T {
        self.number
    }

    /// Descriptive name.
    pub closed spec fn spec_name(&self) -> &'static str {
        self.name
    }

    /// Create an instance.
    pub fn new(number: T, name: &'static str, handler: IrqHandlerRef) -> (r: Self)
        ensures
            r.spec_number() == number,
            r.spec_name() == name,
    {
        Self { number, name, handler }
    }

    /// Return the number.
    pub fn number(&self) -> (r: T)
        ensures
            r == self.spec_number(),
    {
        self.number
    }

    /// Return the name.
    pub fn name(&self) -> (r: &'static str)
        ensures
            r == self.spec_name(),
    {
        self.name
    }

    /// Return the handler.
    pub fn handler(&self) -> IrqHandlerRef {
        self.handler
    }
}

/// What became of a pending interrupt.
#[derive(Copy, Clone, Debug, PartialEq, Eq)]
pub enum IrqDispatch {
    /// The controller reported a number beyond the largest interrupt
    /// number: nothing was done.
    OutOfRange(usize),
    /// The handler of the interrupt with this number ran, and the
    /// controller was told that handling is complete.
    Handled(usize),
}

/// Why a pending interrupt could not be handled. Both are defects of the
/// configuration, which nothing can mend at run time.
#[derive(Copy, Clone, Debug, PartialEq, Eq)]
pub enum IrqDispatchError {
    /// No handler is registered for the interrupt with this number.
    NoHandler(usize),
    /// The handler of the interrupt with this number reported an error.
    HandlerFailed(usize, &'static str),
}

/// IRQ management functions. The IRQ number type `T` depends on the
/// implementation.
pub trait IrqManager<T: Copy> {
    /// Register a handler.
    fn register_handler(&self, irq_handler_descriptor: IrqHandlerDescriptor<T>) -> Result<
        (),
        &'static str,
    >;

    /// Enable an interrupt in the controller.
    fn enable(&self, irq_number: &T);

    /// Handle pending interrupts.
    fn handle_pending_irqs<'irq_context>(
        &'irq_context self,
        ic: &IrqContext<'irq_context>,
    ) -> Result<IrqDispatch, IrqDispatchError>;

    /// The registered handlers, each with its number and name.
    fn print_handler(&self) -> Vec<(usize, &'static str)>;
}

/// Where the kernel keeps its interrupt manager: empty until one is
/// registered, which is for the init phase. `M` is the type of the manager.
pub struct IrqManagerSlot<M: IrqManager<IrqNumber> + 'static> {
    current: InitStateLock<Option<&'static M>>,
}

impl<M: IrqManager<IrqNumber>> IrqManagerSlot<M> {
    /// The registered manager.
    pub closed spec fn view(&self) -> Option<&'static M> {
        self.current@
    }

    /// Create an instance, with no manager.
    pub fn new() -> (r: Self)
        ensures
            r@.is_none(),
    {
        Self { current: InitStateLock::new(None) }
    }
}

/// Register a new IRQ manager.
pub fn register_irq_manager<M: IrqManager<IrqNumber>>(
    slot: &mut IrqManagerSlot<M>,
    state: &StateManager,
    daif: &Daif,
    new_manager: &'static M,
)
    requires
        write_permitted(state@, *daif),
    ensures
        final(slot)@ == Some(new_manager),
{
    let set = |manager: &mut Option<&'static M>| -> (r: ())
        ensures
            *final(manager) == Some(new_manager),
        {
            *manager = Some(new_manager);
        };
    slot.current.write(state, daif, set);
}

/// Return a reference to the currently registered IRQ manager.
pub fn irq_manager<M: IrqManager<IrqNumber>>(slot: &IrqManagerSlot<M>) -> (r: Option<&'static M>)
    ensures
        r == slot@,
{
    let get = |manager: &Option<&'static M>| -> (r: Option<&'static M>)
        ensures
            r == *manager,
        {
            *manager
        };
    slot.current.read(get)
}

} // verus!
