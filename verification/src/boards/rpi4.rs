//! Raspberry Pi 4.

use crate::driver_manager::{
    capacity_exceeded, DeviceDriverDescriptor, DeviceDriverRef, DriverManager,
    PostInitCallbackRef, NUM_DRIVERS,
};
use crate::exception::asynchronous::{Daif, IrqNumber};
use crate::state::StateManager;
use crate::synchronization::write_permitted;
use vstd::prelude::*;

pub mod memory;

verus! {

/// The board's name.
pub const BOARD_NAME: &'static str = "Raspberry Pi 4";

/// The interrupt number of the PL011 UART.
pub const PL011_UART_IRQ: usize = 153;

/// The message of a second initialization of the board.
pub open spec fn init_already_done() -> &'static str {
    "Init already done"
}

/// The interrupt number of the PL011 UART.
pub fn pl011_uart_irq() -> (r: IrqNumber)
    ensures
        r@ == PL011_UART_IRQ,
{
    IrqNumber::new(PL011_UART_IRQ)
}

/// Whether the last registered driver of `after` was added to `before` by
/// a registration with a post-init callback and the given interrupt number.
pub open spec fn registered_last(
    after: DriverManager<IrqNumber>,
    before: DriverManager<IrqNumber>,
    irq_number: Option<IrqNumber>,
) -> bool {
    &&& after.registered().len() == before.registered().len() + 1
    &&& after.registered().drop_last() == before.registered()
    &&& after.registered().last().has_post_init_callback()
    &&& after.registered().last().spec_irq_number() == irq_number
}

/// What a registration of the board comes to: the driver is the last of the
/// list where the list had room, else the list is as before and the
/// registration is refused.
pub open spec fn registration(
    r: Result<(), &'static str>,
    after: DriverManager<IrqNumber>,
    before: DriverManager<IrqNumber>,
    irq_number: Option<IrqNumber>,
) -> bool {
    if before.registered().len() < NUM_DRIVERS {
        r == Ok::<(), &'static str>(()) && registered_last(after, before, irq_number)
    } else {
        r == Err::<(), &'static str>(capacity_exceeded()) && after.registered()
            == before.registered()
    }
}

/// Registers the GPIO driver, with the callback that configures the pins.
pub fn init_gpio(
    manager: &mut DriverManager<IrqNumber>,
    state: &StateManager,
    daif: &Daif,
    gpio: DeviceDriverRef<IrqNumber>,
    gpio_config: PostInitCallbackRef,
) -> (r: Result<(), &'static str>)
    requires
        old(manager).wf(),
        write_permitted(state@, *daif),
    ensures
        final(manager).wf(),
        registration(r, *final(manager), *old(manager), None),
{
    let gpio_desc = DeviceDriverDescriptor::new(gpio, Some(gpio_config), None);
    let r = manager.register_driver(state, daif, gpio_desc);
    proof {
        if r.is_ok() {
            assert(manager.registered().drop_last() =~= old(manager).registered());
        }
    }
    r
}

/// Registers the UART driver, with the callback that configures the UART
/// and with the UART's interrupt number.
pub fn init_uart(
    manager: &mut DriverManager<IrqNumber>,
    state: &StateManager,
    daif: &Daif,
    uart: DeviceDriverRef<IrqNumber>,
    uart_config: PostInitCallbackRef,
) -> (r: Result<(), &'static str>)
    requires
        old(manager).wf(),
        write_permitted(state@, *daif),
    ensures
        final(manager).wf(),
        exists|irq_number: IrqNumber|
            irq_number@ == PL011_UART_IRQ && #[trigger] registration(
                r,
                *final(manager),
                *old(manager),
                Some(irq_number),
            ),
{
    let irq_number = pl011_uart_irq();
    let uart_desc = DeviceDriverDescriptor::new(uart, Some(uart_config), Some(irq_number));
    let r = manager.register_driver(state, daif, uart_desc);
    proof {
        if r.is_ok() {
            assert(manager.registered().drop_last() =~= old(manager).registered());
        }
        assert(registration(r, *manager, *old(manager), Some(irq_number)));
    }
    r
}

/// Registers the driver of the interrupt controller, with the callback that
/// makes the controller the kernel's interrupt manager.
pub fn init_interrupt_controller(
    manager: &mut DriverManager<IrqNumber>,
    state: &StateManager,
    daif: &Daif,
    interrupt_controller: DeviceDriverRef<IrqNumber>,
    post_init_interrupt_controller: PostInitCallbackRef,
) -> (r: Result<(), &'static str>)
    requires
        old(manager).wf(),
        write_permitted(state@, *daif),
    ensures
        final(manager).wf(),
        registration(r, *final(manager), *old(manager), None),
{
    let interrupt_controller_desc = DeviceDriverDescriptor::new(
        interrupt_controller,
        Some(post_init_interrupt_controller),
        None,
    );
    let r = manager.register_driver(state, daif, interrupt_controller_desc);
    proof {
        if r.is_ok() {
            assert(manager.registered().drop_last() =~= old(manager).registered());
        }
    }
    r
}

/// The drivers of the board and their post-init callbacks.
pub struct BoardDrivers {
    pub gpio: DeviceDriverRef<IrqNumber>,
    pub gpio_config: PostInitCallbackRef,
    pub uart: DeviceDriverRef<IrqNumber>,
    pub uart_config: PostInitCallbackRef,
    pub interrupt_controller: DeviceDriverRef<IrqNumber>,
    pub post_init_interrupt_controller: PostInitCallbackRef,
}

/// Registers the board's drivers: GPIO, UART and interrupt controller, in
/// this order, so that the pins are configured before the UART, and the
/// UART before it registers its interrupt handler. The board is initialized
/// once: `init_done` says whether it has been, and a second initialization
/// is refused.
pub fn board_init(
    init_done: &mut bool,
    manager: &mut DriverManager<IrqNumber>,
    state: &StateManager,
    daif: &Daif,
    drivers: BoardDrivers,
) -> (r: Result<(), &'static str>)
    requires
        old(manager).wf(),
        write_permitted(state@, *daif),
    ensures
        final(manager).wf(),
        *old(init_done) ==> {
            &&& r == Err::<(), &'static str>(init_already_done())
            &&& *final(init_done)
            &&& final(manager).registered() == old(manager).registered()
        },
        !*old(init_done) && old(manager).registered().len() + 3 <= NUM_DRIVERS ==> {
            &&& r == Ok::<(), &'static str>(())
            &&& *final(init_done)
            &&& final(manager).registered().len() == old(manager).registered().len() + 3
            &&& final(manager).registered().take(old(manager).registered().len() as int) == old(
                manager,
            ).registered()
            &&& forall|i: int|
                old(manager).registered().len() <= i < final(manager).registered().len() ==> {
                    &&& (#[trigger] final(manager).registered()[i]).has_post_init_callback()
                    &&& match final(manager).registered()[i].spec_irq_number() {
                        Some(irq_number) => i == old(manager).registered().len() + 1 && irq_number@
                            == PL011_UART_IRQ,
                        None => i != old(manager).registered().len() + 1,
                    }
                }
        },
        !*old(init_done) && old(manager).registered().len() + 3 > NUM_DRIVERS ==> {
            &&& r == Err::<(), &'static str>(capacity_exceeded())
            &&& !*final(init_done)
            &&& final(manager).registered().len() == NUM_DRIVERS
            &&& final(manager).registered().take(old(manager).registered().len() as int) == old(
                manager,
            ).registered()
        },
{
    if *init_done {
        return Err("Init already done");
    }
    let ghost before = old(manager).registered();
    proof {
        old(manager).lemma_registered_len();
    }
    match init_gpio(manager, state, daif, drivers.gpio, drivers.gpio_config) {
        Err(e) => {
            assert(manager.registered().take(before.len() as int) =~= before);
            return Err(e);
        },
        Ok(()) => {},
    }
    let ghost with_gpio = manager.registered();
    match init_uart(manager, state, daif, drivers.uart, drivers.uart_config) {
        Err(e) => {
            assert(manager.registered().take(before.len() as int) =~= before);
            return Err(e);
        },
        Ok(()) => {},
    }
    let ghost with_uart = manager.registered();
    match init_interrupt_controller(
        manager,
        state,
        daif,
        drivers.interrupt_controller,
        drivers.post_init_interrupt_controller,
    ) {
        Err(e) => {
            assert(manager.registered().take(before.len() as int) =~= before);
            return Err(e);
        },
        Ok(()) => {},
    }
    proof {
        let after = manager.registered();
        let n = before.len() as int;
        assert(after.drop_last() == with_uart);
        assert(with_uart.drop_last() == with_gpio);
        assert(with_gpio.drop_last() == before);
        assert(after[n] == with_gpio[n]);
        assert(after[n] == with_uart[n]);
        assert(after[n + 1] == with_uart[n + 1]);
        assert(after.take(n) =~= before);
    }
    *init_done = true;
    Ok(())
}

} // verus!
