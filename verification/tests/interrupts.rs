use ros_bringup::drivers::arm::gicv2::gicc::{GicC, RegisterBlock};
use ros_bringup::drivers::arm::gicv2::gicd::{BankedRegisterBlock, GicD, SharedRegisterBlock};
use ros_bringup::drivers::arm::gicv2::{dispatch_outcome, GicV2};
use ros_bringup::drivers::common::{BoundedUsize, MmioDerefWrapper};
use ros_bringup::exception::asynchronous::{
    exec_with_irq_masked, irq_manager, is_local_irq_masked, local_irq_mask, local_irq_mask_save,
    local_irq_restore, local_irq_unmask, print_state, register_irq_manager, to_mask_str, Daif,
    IrqContext, IrqDispatch, IrqDispatchError, IrqHandler, IrqHandlerDescriptor, IrqManager,
    IrqManagerSlot, IrqNumber,
};
use ros_bringup::exception::PrivilegeLevel;
use ros_bringup::state::StateManager;
use std::sync::atomic::{AtomicUsize, Ordering};

struct CountingHandler {
    calls: AtomicUsize,
}

impl IrqHandler for CountingHandler {
    fn handle(&self) -> Result<(), &'static str> {
        self.calls.fetch_add(1, Ordering::SeqCst);
        Ok(())
    }
}

struct FailingHandler;

impl IrqHandler for FailingHandler {
    fn handle(&self) -> Result<(), &'static str> {
        Err("broken device")
    }
}

static FAILING: FailingHandler = FailingHandler;

fn counting() -> &'static CountingHandler {
    Box::leak(Box::new(CountingHandler { calls: AtomicUsize::new(0) }))
}

fn masked() -> Daif {
    Daif::new(0x3c0)
}

#[test]
fn bounded_usize_keeps_its_number() {
    let n: BoundedUsize<300> = BoundedUsize::new(153);
    assert_eq!(n.get(), 153);
    assert_eq!(BoundedUsize::<300>::new(300).get(), 300);
    assert_eq!(BoundedUsize::<300>::new(0).get(), 0);
    assert_eq!(BoundedUsize::<300>::max_inclusive(), 300);
}

#[test]
fn bounded_usize_checks_its_bound() {
    assert_eq!(BoundedUsize::<300>::try_new(300).map(|n| n.get()), Some(300));
    assert!(BoundedUsize::<300>::try_new(301).is_none());
    assert!(BoundedUsize::<0>::try_new(1).is_none());
    assert_eq!(BoundedUsize::<0>::try_new(0).map(|n| n.get()), Some(0));
}

#[test]
fn mmio_wrapper_keeps_address_and_registers() {
    let mut w = MmioDerefWrapper::new(0xff84_1000, 7u32);
    assert_eq!(w.base_addr(), 0xff84_1000);
    assert_eq!(*w.get(), 7);
    *w.get_mut() = 9;
    assert_eq!(*w.get(), 9);
    assert_eq!(w.base_addr(), 0xff84_1000);
}

#[test]
fn privilege_levels_differ() {
    assert_ne!(PrivilegeLevel::User, PrivilegeLevel::Kernel);
    assert_eq!(PrivilegeLevel::Hypervisor, PrivilegeLevel::Hypervisor);
    assert_ne!(PrivilegeLevel::TrustZone, PrivilegeLevel::Hypervisor);
}

#[test]
fn daif_mask_state_reads_each_bit() {
    let s = Daif::new(0).mask_state();
    assert!(!s.debug && !s.serror && !s.irq && !s.fiq);
    let s = Daif::new(0x200).mask_state();
    assert!(s.debug && !s.serror && !s.irq && !s.fiq);
    let s = Daif::new(0x100).mask_state();
    assert!(!s.debug && s.serror && !s.irq && !s.fiq);
    let s = Daif::new(0x80).mask_state();
    assert!(!s.debug && !s.serror && s.irq && !s.fiq);
    let s = Daif::new(0x40).mask_state();
    assert!(!s.debug && !s.serror && !s.irq && s.fiq);
    let s = Daif::new(0x3c0).mask_state();
    assert!(s.debug && s.serror && s.irq && s.fiq);
    // Other bits say nothing.
    let s = Daif::new(!0x3c0).mask_state();
    assert!(!s.debug && !s.serror && !s.irq && !s.fiq);
}

#[test]
fn local_irq_mask_and_unmask_change_bit_7_only() {
    let mut daif = Daif::new(0x340);
    assert!(!is_local_irq_masked(&daif));
    local_irq_mask(&mut daif);
    assert_eq!(daif.bits(), 0x3c0);
    assert!(is_local_irq_masked(&daif));
    local_irq_mask(&mut daif);
    assert_eq!(daif.bits(), 0x3c0);
    local_irq_unmask(&mut daif);
    assert_eq!(daif.bits(), 0x340);
    assert!(!is_local_irq_masked(&daif));
    local_irq_unmask(&mut daif);
    assert_eq!(daif.bits(), 0x340);
}

#[test]
fn local_irq_mask_save_and_restore() {
    let mut daif = Daif::new(0x40);
    let saved = local_irq_mask_save(&mut daif);
    assert_eq!(saved, 0x40);
    assert_eq!(daif.bits(), 0xc0);
    local_irq_restore(&mut daif, saved);
    assert_eq!(daif.bits(), 0x40);
}

#[test]
fn exec_with_irq_masked_masks_for_the_closure_only() {
    let mut daif = Daif::new(0x100);
    let seen = exec_with_irq_masked(&mut daif, |d: &Daif| (d.bits(), is_local_irq_masked(d)));
    assert_eq!(seen, (0x180, true));
    assert_eq!(daif.bits(), 0x100);
    // Masked before, masked after.
    let mut daif = Daif::new(0x80);
    let seen = exec_with_irq_masked(&mut daif, |d: &Daif| d.bits());
    assert_eq!(seen, 0x80);
    assert_eq!(daif.bits(), 0x80);
}

#[test]
fn exception_state_words() {
    assert_eq!(to_mask_str(true), "Masked");
    assert_eq!(to_mask_str(false), "Unmasked");
    assert_eq!(
        print_state(&Daif::new(0x280)),
        [("Debug", "Masked"), ("SError", "Unmasked"), ("IRQ", "Masked"), ("FIQ", "Unmasked")]
    );
    assert_eq!(
        print_state(&Daif::new(0x140)),
        [("Debug", "Unmasked"), ("SError", "Masked"), ("IRQ", "Unmasked"), ("FIQ", "Masked")]
    );
}

#[test]
fn handler_descriptor_getters() {
    let h = counting();
    let d = IrqHandlerDescriptor::new(IrqNumber::new(153), "PL011 Uart", h);
    assert_eq!(d.number().get(), 153);
    assert_eq!(d.name(), "PL011 Uart");
    assert_eq!(d.handler().handle(), Ok(()));
    assert_eq!(h.calls.load(Ordering::SeqCst), 1);
}

#[test]
fn distributor_starts_zeroed() {
    let gicd = GicD::new(0xff84_1000);
    assert_eq!(gicd.shared_registers().ctlr, 0);
    assert_eq!(gicd.shared_registers().typer, 0);
    assert!(gicd.shared_registers().isenabler.iter().all(|r| *r == 0));
    assert!(gicd.shared_registers().itargetsr.iter().all(|r| *r == 0));
    assert_eq!(gicd.banked_registers().isenabler, 0);
}

#[test]
fn enabling_a_private_irq_touches_only_the_banked_register() {
    let mut gicd = GicD::new(0xff84_1000);
    let mut daif = Daif::new(0);
    gicd.enable(&mut daif, &IrqNumber::new(5));
    assert_eq!(gicd.banked_registers().isenabler, 1 << 5);
    assert!(gicd.shared_registers().isenabler.iter().all(|r| *r == 0));
    gicd.enable(&mut daif, &IrqNumber::new(31));
    assert_eq!(gicd.banked_registers().isenabler, (1 << 31) | (1 << 5));
    gicd.enable(&mut daif, &IrqNumber::new(0));
    assert_eq!(gicd.banked_registers().isenabler, (1 << 31) | (1 << 5) | 1);
    assert!(gicd.shared_registers().isenabler.iter().all(|r| *r == 0));
    assert!(gicd.shared_registers().itargetsr.iter().all(|r| *r == 0));
    assert_eq!(gicd.shared_registers().ctlr, 0);
    assert_eq!(daif.bits(), 0);
}

#[test]
fn enabling_a_shared_irq_touches_only_its_shared_register() {
    let mut gicd = GicD::new(0xff84_1000);
    let mut daif = Daif::new(0x40);
    // 153 = 4 * 32 + 25: register 3 of the shared ones, bit 25.
    gicd.enable(&mut daif, &IrqNumber::new(153));
    for (i, r) in gicd.shared_registers().isenabler.iter().enumerate() {
        assert_eq!(*r, if i == 3 { 1 << 25 } else { 0 });
    }
    assert_eq!(gicd.banked_registers().isenabler, 0);
    // The first and the last shared interrupt.
    gicd.enable(&mut daif, &IrqNumber::new(32));
    assert_eq!(gicd.shared_registers().isenabler[0], 1);
    gicd.enable(&mut daif, &IrqNumber::new(300));
    assert_eq!(gicd.shared_registers().isenabler[8], 1 << 12);
    gicd.enable(&mut daif, &IrqNumber::new(63));
    assert_eq!(gicd.shared_registers().isenabler[0], (1 << 31) | 1);
    assert_eq!(gicd.banked_registers().isenabler, 0);
    assert_eq!(daif.bits(), 0x40);
}

#[test]
fn enabling_keeps_the_bits_that_are_set() {
    let mut shared = SharedRegisterBlock::new();
    shared.isenabler[3] = 0x0000_00f0;
    let mut banked = BankedRegisterBlock::new();
    banked.isenabler = 0x8000_0001;
    let mut gicd = GicD::from_registers(0, shared, banked);
    let mut daif = Daif::new(0);
    gicd.enable(&mut daif, &IrqNumber::new(153));
    assert_eq!(gicd.shared_registers().isenabler[3], 0x0200_00f0);
    gicd.enable(&mut daif, &IrqNumber::new(4));
    assert_eq!(gicd.banked_registers().isenabler, 0x8000_0011);
}

#[test]
fn boot_core_init_routes_implemented_spis_to_the_local_core() {
    let mut shared = SharedRegisterBlock::new();
    // Two units of 32 lines beyond the first: 96 interrupts, 64 of them
    // shared, 16 target registers.
    shared.typer = 0xffff_ffe2;
    shared.itargetsr[0] = 0xdead_beef;
    shared.itargetsr[16] = 0x1234_5678;
    shared.isenabler[2] = 0x55;
    let mut banked = BankedRegisterBlock::new();
    banked.itargetsr[0] = 0x0404_0404;
    banked.isenabler = 0x3;
    let mut gicd = GicD::from_registers(0xff84_1000, shared, banked);
    assert_eq!(gicd.local_gic_target_mask(), 0x04);
    assert_eq!(gicd.shared_registers().num_irqs(), 96);
    assert_eq!(gicd.shared_registers().num_implemented_itargetsr(), 16);
    let state = StateManager::new();
    let mut daif = Daif::new(0x3c0);
    gicd.boot_core_init(&state, &mut daif);
    for (i, r) in gicd.shared_registers().itargetsr.iter().enumerate() {
        if i < 16 {
            assert_eq!(*r, 0x0404_0404);
        } else if i == 16 {
            assert_eq!(*r, 0x1234_5678);
        } else {
            assert_eq!(*r, 0);
        }
    }
    assert_eq!(gicd.shared_registers().ctlr, 1);
    assert_eq!(gicd.shared_registers().typer, 0xffff_ffe2);
    assert_eq!(gicd.shared_registers().isenabler[2], 0x55);
    assert_eq!(gicd.banked_registers().isenabler, 0x3);
    assert_eq!(gicd.banked_registers().itargetsr[0], 0x0404_0404);
    assert_eq!(daif.bits(), 0x3c0);
}

#[test]
fn boot_core_init_takes_the_mask_from_the_low_byte() {
    let mut shared = SharedRegisterBlock::new();
    shared.typer = 1;
    let mut banked = BankedRegisterBlock::new();
    banked.itargetsr[0] = 0xaabb_cc01;
    let mut gicd = GicD::from_registers(0, shared, banked);
    let state = StateManager::new();
    let mut daif = Daif::new(0x80);
    gicd.boot_core_init(&state, &mut daif);
    assert_eq!(gicd.shared_registers().itargetsr[0], 0x0101_0101);
    assert_eq!(gicd.shared_registers().itargetsr[7], 0x0101_0101);
    assert_eq!(gicd.shared_registers().itargetsr[8], 0);
}

#[test]
fn boot_core_init_with_all_lines_and_with_none() {
    let mut shared = SharedRegisterBlock::new();
    shared.typer = 0x1f;
    let mut banked = BankedRegisterBlock::new();
    banked.itargetsr[0] = 0x01;
    let mut gicd = GicD::from_registers(0, shared, banked);
    assert_eq!(gicd.shared_registers().num_irqs(), 1024);
    let state = StateManager::new();
    let mut daif = Daif::new(0x80);
    gicd.boot_core_init(&state, &mut daif);
    assert!(gicd.shared_registers().itargetsr.iter().all(|r| *r == 0x0101_0101));

    let mut banked = BankedRegisterBlock::new();
    banked.itargetsr[0] = 0x01;
    let mut gicd = GicD::from_registers(0, SharedRegisterBlock::new(), banked);
    assert_eq!(gicd.shared_registers().num_irqs(), 32);
    gicd.boot_core_init(&state, &mut daif);
    assert!(gicd.shared_registers().itargetsr.iter().all(|r| *r == 0));
    assert_eq!(gicd.shared_registers().ctlr, 1);
}

#[test]
fn cpu_interface_registers() {
    let mut gicc = GicC::new(0xff84_2000);
    assert_eq!(gicc.registers().pmr, 0);
    gicc.priority_accept_all();
    assert_eq!(gicc.registers().pmr, 255);
    assert_eq!(gicc.registers().ctlr, 0);
    gicc.enable();
    assert_eq!(gicc.registers().ctlr, 1);
    assert_eq!(gicc.registers().pmr, 255);
    let daif = masked();
    let ic = IrqContext::new(&daif);
    gicc.set_iar(0xffff_fc99);
    assert_eq!(gicc.pending_irq_number(&ic), 0x99);
    gicc.set_iar(1023);
    assert_eq!(gicc.pending_irq_number(&ic), 1023);
    gicc.mark_comleted(153, &ic);
    assert_eq!(gicc.registers().eoir, 153);
    gicc.mark_comleted(0xffff_fc05, &ic);
    assert_eq!(gicc.registers().eoir, 5);
    assert_eq!(gicc.registers().iar, 1023);
}

#[test]
fn cpu_interface_from_registers() {
    let gicc = GicC::from_registers(8, RegisterBlock { ctlr: 1, pmr: 2, iar: 3, eoir: 4 });
    assert_eq!(gicc.registers().ctlr, 1);
    assert_eq!(gicc.registers().pmr, 2);
    assert_eq!(gicc.registers().iar, 3);
    assert_eq!(gicc.registers().eoir, 4);
}

#[test]
fn gic_init_on_the_boot_core_and_on_another() {
    let state = StateManager::new();
    let mut daif = masked();
    let mut gic = GicV2::new(0xff84_1000, 0xff84_2000);
    assert_eq!(gic.compatible(), "GICv2 (ARM Generic Interrupt Controller v2)");
    assert_eq!(gic.init(&state, &mut daif, 0), Ok(()));
    assert_eq!(gic.gicd().shared_registers().ctlr, 1);
    assert_eq!(gic.gicc().registers().pmr, 255);
    assert_eq!(gic.gicc().registers().ctlr, 1);

    let mut gic = GicV2::new(0xff84_1000, 0xff84_2000);
    assert_eq!(gic.init(&state, &mut daif, 2), Ok(()));
    assert_eq!(gic.gicd().shared_registers().ctlr, 0);
    assert_eq!(gic.gicc().registers().pmr, 255);
    assert_eq!(gic.gicc().registers().ctlr, 1);
    assert_eq!(daif.bits(), 0x3c0);
}

#[test]
fn second_registration_for_a_number_fails_and_keeps_the_first_handler() {
    let state = StateManager::new();
    let daif = masked();
    let mut gic = GicV2::new(0, 0);
    let first = counting();
    let second = counting();
    assert_eq!(
        gic.register_handler(
            &state,
            &daif,
            IrqHandlerDescriptor::new(IrqNumber::new(153), "first", first)
        ),
        Ok(())
    );
    assert_eq!(
        gic.register_handler(
            &state,
            &daif,
            IrqHandlerDescriptor::new(IrqNumber::new(153), "second", second)
        ),
        Err("IRQ handler already registered")
    );
    assert_eq!(gic.print_handler(), vec![(153, "first")]);
    gic.gicc_mut().set_iar(153);
    let ic = IrqContext::new(&daif);
    assert_eq!(gic.handle_pending_irqs(&ic), Ok(IrqDispatch::Handled(153)));
    assert_eq!(first.calls.load(Ordering::SeqCst), 1);
    assert_eq!(second.calls.load(Ordering::SeqCst), 0);
}

#[test]
fn registrations_for_different_numbers_succeed() {
    let state = StateManager::new();
    let daif = masked();
    let mut gic = GicV2::new(0, 0);
    for n in [300usize, 0, 32, 153, 31] {
        assert_eq!(
            gic.register_handler(
                &state,
                &daif,
                IrqHandlerDescriptor::new(IrqNumber::new(n), "h", counting())
            ),
            Ok(())
        );
    }
    // Only the shared interrupts are listed, by number.
    assert_eq!(gic.print_handler(), vec![(32, "h"), (153, "h"), (300, "h")]);
}

#[test]
fn no_handler_is_listed_for_a_new_controller() {
    assert_eq!(GicV2::new(0, 0).print_handler(), vec![]);
}

#[test]
fn pending_irq_out_of_range_does_nothing() {
    let daif = masked();
    let mut gic = GicV2::new(0, 0);
    gic.gicc_mut().set_iar(1023);
    let ic = IrqContext::new(&daif);
    assert_eq!(gic.handle_pending_irqs(&ic), Ok(IrqDispatch::OutOfRange(1023)));
    assert_eq!(gic.gicc().registers().eoir, 0);
    gic.gicc_mut().set_iar(301);
    assert_eq!(gic.handle_pending_irqs(&ic), Ok(IrqDispatch::OutOfRange(301)));
    assert_eq!(gic.gicc().registers().eoir, 0);
}

#[test]
fn pending_irq_without_handler_is_an_error() {
    let daif = masked();
    let mut gic = GicV2::new(0, 0);
    gic.gicc_mut().set_iar(300);
    let ic = IrqContext::new(&daif);
    assert_eq!(gic.handle_pending_irqs(&ic), Err(IrqDispatchError::NoHandler(300)));
    assert_eq!(gic.gicc().registers().eoir, 0);
}

#[test]
fn pending_irq_is_handled_and_completed() {
    let state = StateManager::new();
    let daif = masked();
    let mut gic = GicV2::new(0, 0);
    let h = counting();
    gic.register_handler(&state, &daif, IrqHandlerDescriptor::new(IrqNumber::new(42), "h", h))
        .unwrap();
    gic.gicc_mut().set_iar(0x0000_0400 | 42);
    let ic = IrqContext::new(&daif);
    assert_eq!(gic.handle_pending_irqs(&ic), Ok(IrqDispatch::Handled(42)));
    assert_eq!(gic.gicc().registers().eoir, 42);
    assert_eq!(h.calls.load(Ordering::SeqCst), 1);
    assert_eq!(gic.handle_pending_irqs(&ic), Ok(IrqDispatch::Handled(42)));
    assert_eq!(h.calls.load(Ordering::SeqCst), 2);
}

#[test]
fn failing_handler_leaves_the_irq_uncompleted() {
    let state = StateManager::new();
    let daif = masked();
    let mut gic = GicV2::new(0, 0);
    gic.register_handler(
        &state,
        &daif,
        IrqHandlerDescriptor::new(IrqNumber::new(7), "bad", &FAILING),
    )
    .unwrap();
    gic.gicc_mut().set_iar(7);
    let ic = IrqContext::new(&daif);
    assert_eq!(
        gic.handle_pending_irqs(&ic),
        Err(IrqDispatchError::HandlerFailed(7, "broken device"))
    );
    assert_eq!(gic.gicc().registers().eoir, 0);
}

#[test]
fn outcome_of_a_handler() {
    assert_eq!(dispatch_outcome(9, Ok(())), Ok(IrqDispatch::Handled(9)));
    assert_eq!(dispatch_outcome(9, Err("x")), Err(IrqDispatchError::HandlerFailed(9, "x")));
}

#[test]
fn gic_enable_forwards_to_the_distributor() {
    let mut gic = GicV2::new(0, 0);
    let mut daif = Daif::new(0);
    gic.enable(&mut daif, &IrqNumber::new(153));
    assert_eq!(gic.gicd().shared_registers().isenabler[3], 1 << 25);
    gic.enable(&mut daif, &IrqNumber::new(1));
    assert_eq!(gic.gicd().banked_registers().isenabler, 2);
    assert_eq!(gic.print_handler(), vec![]);
}

struct NoManager;

impl IrqManager<IrqNumber> for NoManager {
    fn register_handler(&self, _d: IrqHandlerDescriptor<IrqNumber>) -> Result<(), &'static str> {
        Err("none")
    }

    fn enable(&self, _irq_number: &IrqNumber) {}

    fn handle_pending_irqs<'irq_context>(
        &'irq_context self,
        _ic: &IrqContext<'irq_context>,
    ) -> Result<IrqDispatch, IrqDispatchError> {
        Ok(IrqDispatch::OutOfRange(1023))
    }

    fn print_handler(&self) -> Vec<(usize, &'static str)> {
        Vec::new()
    }
}

static MANAGER_A: NoManager = NoManager;

#[test]
fn irq_manager_slot_is_empty_until_a_manager_is_registered() {
    let state = StateManager::new();
    let daif = masked();
    let mut slot: IrqManagerSlot<NoManager> = IrqManagerSlot::new();
    assert!(irq_manager(&slot).is_none());
    register_irq_manager(&mut slot, &state, &daif, &MANAGER_A);
    let m = irq_manager(&slot).unwrap();
    assert!(std::ptr::eq(m, &MANAGER_A));
    assert_eq!(m.print_handler(), vec![]);
}
