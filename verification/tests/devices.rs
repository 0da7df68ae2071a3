use ros_bringup::board::{board, register_board, BoardSlot, Info, NullBoard};
use ros_bringup::boards::rpi4::memory::{
    END_INCLUSIVE, GPIO_OFFSET, MMIO_BASE, MMIO_END_INCLUSIVE, MMIO_GICC_BASE, MMIO_GICD_BASE,
    MMIO_GPIO_BASE, MMIO_UART_BASE, UART_OFFSET,
};
use ros_bringup::boards::rpi4::{pl011_uart_irq, BOARD_NAME};
use ros_bringup::common::size_human_readable_ceil;
use ros_bringup::console::{
    console, register_console, ConsoleSlot, NullConsole, Read, Statistics, Write,
};
use ros_bringup::cpu::{core_id, BOOT_CORE_ID};
use ros_bringup::drivers::gpio::bcm2711_gpio::{Bcm2711Gpio, Bcm2711GpioInner};
use ros_bringup::drivers::gpio::{Gpio, GpioDirect, GpioLevel, GpioPupPdn};
use ros_bringup::drivers::serial::pl011_uart::{
    baud_divisors, rx_interrupt_pending, BlockingMode, Pl011Uart, Pl011UartInner, RegisterBlock,
};
use ros_bringup::drivers::serial::Uart;
use ros_bringup::exception::asynchronous::Daif;
use ros_bringup::print::{_print, info, warn};
use ros_bringup::time::Duration;
use ros_bringup::timer::{
    max_duration, resolution, spin_continues, spin_for, uptime, GenericTimerCounterValue,
};
use ros_bringup::timer_manager::{timer_manager, TimerManager};

#[test]
fn human_readable_sizes() {
    assert_eq!(size_human_readable_ceil(0), (0, "Byte"));
    assert_eq!(size_human_readable_ceil(1), (1, "Byte"));
    assert_eq!(size_human_readable_ceil(1023), (1023, "Byte"));
    assert_eq!(size_human_readable_ceil(1024), (1, "KiB"));
    assert_eq!(size_human_readable_ceil(1025), (2, "KiB"));
    assert_eq!(size_human_readable_ceil(0x1_0000), (64, "KiB"));
    assert_eq!(size_human_readable_ceil(0x10_0000 - 1), (1024, "KiB"));
    assert_eq!(size_human_readable_ceil(0x10_0000), (1, "MiB"));
    assert_eq!(size_human_readable_ceil(0x185_0000), (25, "MiB"));
    assert_eq!(size_human_readable_ceil(0x4000_0000), (1, "GiB"));
    assert_eq!(size_human_readable_ceil(0x4000_0001), (2, "GiB"));
    assert_eq!(size_human_readable_ceil(0x1_0000_0000), (4, "GiB"));
}

#[test]
fn memory_map_of_the_board() {
    assert_eq!(END_INCLUSIVE, 0xffff_ffff);
    assert_eq!(MMIO_GPIO_BASE, MMIO_BASE + GPIO_OFFSET);
    assert_eq!(MMIO_UART_BASE, MMIO_BASE + UART_OFFSET);
    assert_eq!(MMIO_GICD_BASE, 0xff84_1000);
    assert_eq!(MMIO_GICC_BASE, 0xff84_2000);
    assert_eq!(MMIO_END_INCLUSIVE, 0xff84_ffff);
    assert_eq!(pl011_uart_irq().get(), 153);
    assert_eq!(BOARD_NAME, "Raspberry Pi 4");
}

#[test]
fn core_id_is_in_the_low_two_bits() {
    assert_eq!(core_id(0x8000_0000), 0);
    assert_eq!(core_id(0x8000_0003), 3);
    assert_eq!(core_id(0xffff_fffe), 2);
    assert_eq!(BOOT_CORE_ID, 0);
}

#[test]
fn durations() {
    let d = Duration::new(3, 250_000_999);
    assert_eq!(d.as_secs(), 3);
    assert_eq!(d.subsec_nanos(), 250_000_999);
    assert_eq!(d.subsec_micros(), 250_000);
    assert_eq!(d.as_nanos(), 3_250_000_999);
    assert_eq!(Duration::zero().as_nanos(), 0);
    assert_eq!(Duration::from_secs(7).as_nanos(), 7_000_000_000);
    assert_eq!(Duration::new(u64::MAX, 999_999_999).as_nanos(), 18446744073709551615999999999);
    assert!(Duration::new(1, 5).lt(&Duration::new(1, 6)));
    assert!(Duration::new(1, 999_999_999).lt(&Duration::new(2, 0)));
    assert!(!Duration::new(2, 0).lt(&Duration::new(1, 999_999_999)));
    assert!(!Duration::new(1, 5).lt(&Duration::new(1, 5)));
}

#[test]
fn timer_resolution_and_uptime() {
    // 54 MHz: a tick lasts 18.5 ns.
    assert_eq!(resolution(54_000_000), Duration::new(0, 18));
    assert_eq!(resolution(1), Duration::new(1, 0));
    assert_eq!(resolution(1_000_000_000), Duration::new(0, 1));
    assert_eq!(resolution(u32::MAX), Duration::new(0, 0));
    assert_eq!(uptime(GenericTimerCounterValue(0), 54_000_000), Duration::zero());
    assert_eq!(uptime(GenericTimerCounterValue(54_000_000), 54_000_000), Duration::new(1, 0));
    assert_eq!(
        uptime(GenericTimerCounterValue(81_000_001), 54_000_000),
        Duration::new(1, 500_000_018)
    );
    assert_eq!(
        max_duration(54_000_000),
        Duration::new(341_606_371_735, 362_066_944)
    );
    assert_eq!(max_duration(1), Duration::new(u64::MAX, 0));
}

#[test]
fn counter_wraps_when_added() {
    assert_eq!(GenericTimerCounterValue(5).add(GenericTimerCounterValue(6)).0, 11);
    assert_eq!(GenericTimerCounterValue(u64::MAX).add(GenericTimerCounterValue(2)).0, 1);
    assert_eq!(GenericTimerCounterValue::max().0, u64::MAX);
}

#[test]
fn duration_to_counter() {
    let f = 54_000_000;
    assert_eq!(
        GenericTimerCounterValue::try_from_duration(Duration::new(1, 0), f),
        Ok(GenericTimerCounterValue(54_000_000))
    );
    assert_eq!(
        GenericTimerCounterValue::try_from_duration(Duration::new(0, 500_000_000), f),
        Ok(GenericTimerCounterValue(27_000_000))
    );
    // Less than a tick.
    assert_eq!(
        GenericTimerCounterValue::try_from_duration(Duration::new(0, 17), f),
        Ok(GenericTimerCounterValue(0))
    );
    assert_eq!(
        GenericTimerCounterValue::try_from_duration(Duration::new(0, 19), f),
        Ok(GenericTimerCounterValue(1))
    );
    assert_eq!(
        GenericTimerCounterValue::try_from_duration(Duration::zero(), f),
        Ok(GenericTimerCounterValue(0))
    );
    // The longest span, and the next longer one.
    let longest = max_duration(f);
    assert!(GenericTimerCounterValue::try_from_duration(longest, f).is_ok());
    assert_eq!(
        GenericTimerCounterValue::try_from_duration(
            Duration::new(longest.as_secs(), longest.subsec_nanos() + 1),
            f
        ),
        Err("Conversion error. Duration too big")
    );
    assert_eq!(
        GenericTimerCounterValue::try_from_duration(Duration::new(u64::MAX, 0), 1),
        Ok(GenericTimerCounterValue(u64::MAX))
    );
    assert_eq!(
        GenericTimerCounterValue::try_from_duration(Duration::new(u64::MAX, 1), 1),
        Err("Conversion error. Duration too big")
    );
}

#[test]
fn spin_targets() {
    let f = 54_000_000;
    assert_eq!(
        spin_for(GenericTimerCounterValue(100), Duration::from_secs(1), f),
        Some(GenericTimerCounterValue(54_000_100))
    );
    assert_eq!(
        spin_for(GenericTimerCounterValue(u64::MAX), Duration::from_secs(1), f),
        Some(GenericTimerCounterValue(53_999_999))
    );
    assert_eq!(spin_for(GenericTimerCounterValue(0), Duration::new(u64::MAX, 0), f), None);
    assert!(spin_continues(GenericTimerCounterValue(5), GenericTimerCounterValue(6)));
    assert!(!spin_continues(GenericTimerCounterValue(6), GenericTimerCounterValue(6)));
    assert!(!spin_continues(GenericTimerCounterValue(7), GenericTimerCounterValue(6)));
}

#[test]
fn timer_manager_uses_its_frequency() {
    let tm: TimerManager = timer_manager(1_000);
    assert_eq!(tm.resolution(), Duration::new(0, 1_000_000));
    assert_eq!(tm.uptime(GenericTimerCounterValue(2_500)), Duration::new(2, 500_000_000));
    assert_eq!(
        tm.spin_for(GenericTimerCounterValue(10), Duration::new(0, 3_000_000)),
        Some(GenericTimerCounterValue(13))
    );
    assert_eq!(TimerManager::new(2).resolution(), Duration::new(0, 500_000_000));
}

#[test]
fn log_lines() {
    assert_eq!(info(&Duration::new(1, 234_567_890), "Booting"), "[I   1.234567] Booting");
    assert_eq!(warn(&Duration::new(1234, 5_000), "late"), "[W 1234.000005] late");
    assert_eq!(info(&Duration::zero(), ""), "[I   0.000000] ");
}

#[test]
fn null_console_swallows_everything() {
    let c = NullConsole;
    c.write_char('a');
    assert_eq!(c.write_str("text"), Ok(()));
    c.flush();
    c.clear_rx();
    assert_eq!(c.read_char(), ' ');
    assert_eq!(c.chars_written(), 0);
    assert_eq!(c.chars_read(), 0);
    assert_eq!(_print(&c, "text"), Ok(()));
}

static CONSOLE: NullConsole = NullConsole;
static BOARD: NullBoard = NullBoard;

#[test]
fn console_slot() {
    let mut daif = Daif::new(0);
    let mut slot: ConsoleSlot<NullConsole> = ConsoleSlot::new();
    assert!(console(&mut slot, &mut daif).is_none());
    register_console(&mut slot, &mut daif, &CONSOLE);
    assert!(std::ptr::eq(console(&mut slot, &mut daif).unwrap(), &CONSOLE));
    assert_eq!(daif.bits(), 0);
}

#[test]
fn board_slot() {
    let mut daif = Daif::new(0x80);
    let mut slot: BoardSlot<NullBoard> = BoardSlot::new();
    assert!(board(&mut slot, &mut daif).is_none());
    register_board(&mut slot, &mut daif, &BOARD);
    assert_eq!(board(&mut slot, &mut daif).unwrap().board_name(), "Null Board");
    assert_eq!(daif.bits(), 0x80);
}

#[test]
fn gpio_function_select() {
    let mut gpio = Bcm2711GpioInner::new(0xfe20_0000);
    // Pin 14: register 1, bits 14..12. Function 0 has the code 0b100.
    gpio.set_func(14, 0);
    assert_eq!(gpio.registers().gpfsel[1], 0b100 << 12);
    gpio.set_func(15, 0);
    assert_eq!(gpio.registers().gpfsel[1], (0b100 << 15) | (0b100 << 12));
    gpio.set_func(14, 5);
    assert_eq!(gpio.registers().gpfsel[1], (0b100 << 15) | (0b010 << 12));
    gpio.set_func(0, 1);
    assert_eq!(gpio.registers().gpfsel[0], 0b101);
    gpio.set_func(9, 2);
    assert_eq!(gpio.registers().gpfsel[0], (0b110 << 27) | 0b101);
    gpio.set_func(57, 3);
    assert_eq!(gpio.registers().gpfsel[5], 0b111 << 21);
    gpio.set_func(20, 4);
    assert_eq!(gpio.registers().gpfsel[2], 0b011);
    // A function beyond 5 and a pin beyond 57 change nothing.
    gpio.set_func(20, 6);
    assert_eq!(gpio.registers().gpfsel[2], 0b011);
    gpio.set_func(58, 1);
    assert_eq!(gpio.registers().gpfsel[5], 0b111 << 21);
    assert!(gpio.registers().gppuppdn.iter().all(|r| *r == 0));
}

#[test]
fn gpio_direction_and_level() {
    let mut gpio = Bcm2711GpioInner::new(0);
    gpio.set_direct(3, GpioDirect::Out);
    assert_eq!(gpio.registers().gpfsel[0], 0b001 << 9);
    gpio.set_func_reg(3, 0xffff_ffff);
    assert_eq!(gpio.registers().gpfsel[0], 0b111 << 9);
    gpio.set_direct(3, GpioDirect::In);
    assert_eq!(gpio.registers().gpfsel[0], 0);
    gpio.set_level(3, GpioLevel::High);
    gpio.set_level(3, GpioLevel::Low);
    assert!(gpio.registers().gpfsel.iter().all(|r| *r == 0));
}

#[test]
fn gpio_pull_resistors() {
    let mut gpio = Bcm2711GpioInner::new(0);
    gpio.set_pup_pdn(14, GpioPupPdn::PullUp);
    assert_eq!(gpio.registers().gppuppdn[0], 0b01 << 28);
    gpio.set_pup_pdn(15, GpioPupPdn::PullDown);
    assert_eq!(gpio.registers().gppuppdn[0], (0b10 << 30) | (0b01 << 28));
    gpio.set_pup_pdn(14, GpioPupPdn::Off);
    assert_eq!(gpio.registers().gppuppdn[0], 0b10 << 30);
    gpio.set_pup_pdn(57, GpioPupPdn::PullUp);
    assert_eq!(gpio.registers().gppuppdn[3], 0b01 << 18);
    gpio.set_pup_pdn(58, GpioPupPdn::PullUp);
    assert_eq!(gpio.registers().gppuppdn[3], 0b01 << 18);
    assert!(gpio.registers().gpfsel.iter().all(|r| *r == 0));
}

#[test]
fn uart_baud_divisors() {
    assert_eq!(baud_divisors(115_200), (26, 43));
    assert_eq!(baud_divisors(9_600), (312, 512));
    assert_eq!(baud_divisors(3_000_000), (1, 0));
    assert_eq!(baud_divisors(1), (3_000_000, 0));
    assert_eq!(baud_divisors(0x0fff_ffff), (0, 11));
}

fn uart_registers() -> RegisterBlock {
    RegisterBlock {
        dr: 0,
        fr: 0,
        ibrd: 0,
        fbrd: 0,
        lcrh: 0,
        cr: 0,
        ifls: 0,
        imsc: 0,
        mis: 0,
        icr: 0,
    }
}

#[test]
fn uart_set_baud() {
    let mut regs = uart_registers();
    regs.cr = 0x8000;
    regs.lcrh = 0x2;
    regs.icr = 0x7ff;
    regs.ifls = 0x3f;
    regs.imsc = 0x7ff;
    let mut uart = Pl011UartInner::from_registers(0xfe20_1000, regs);
    uart.set_baud(115_200);
    let r = uart.registers();
    assert_eq!(r.ibrd, 26);
    assert_eq!(r.fbrd, 43);
    assert_eq!(r.lcrh, 0x72);
    assert_eq!(r.cr, 0x8301);
    assert_eq!(r.icr, 0);
    assert_eq!(r.ifls, 0);
    assert_eq!(r.imsc, 0x50);
}

#[test]
fn uart_write_and_read() {
    let mut uart = Pl011UartInner::new(0);
    assert!(uart.is_flushed());
    uart.write_char('A');
    assert_eq!(uart.registers().dr, 0x41);
    assert_eq!(uart.chars_written(), 1);
    assert_eq!(uart.read_char_converting(BlockingMode::Blocking), Some('A'));
    assert_eq!(uart.chars_read(), 1);

    let mut regs = uart_registers();
    regs.dr = 0xf0d;
    let mut uart = Pl011UartInner::from_registers(0, regs);
    assert_eq!(uart.read_char_converting(BlockingMode::NonBlocking), Some('\n'));

    let mut regs = uart_registers();
    regs.dr = 0x41;
    regs.fr = 0x10;
    let mut uart = Pl011UartInner::from_registers(0, regs);
    assert_eq!(uart.read_char_converting(BlockingMode::NonBlocking), None);
    assert_eq!(uart.chars_read(), 0);

    let mut regs = uart_registers();
    regs.fr = 0x08;
    assert!(!Pl011UartInner::from_registers(0, regs).is_flushed());
}

#[test]
fn uart_rx_interrupts() {
    assert!(!rx_interrupt_pending(0));
    assert!(rx_interrupt_pending(0x10));
    assert!(rx_interrupt_pending(0x40));
    assert!(rx_interrupt_pending(0x50));
    assert!(!rx_interrupt_pending(0x7af));
}

#[test]
fn locked_gpio() {
    let mut daif = Daif::new(0x40);
    let mut gpio = Bcm2711Gpio::new(0xfe20_0000);
    assert_eq!(gpio.compatible(), "BCM2711 GPIO");
    gpio.set_func(&mut daif, 14, 0);
    gpio.set_func(&mut daif, 15, 0);
    gpio.set_pup_pdn(&mut daif, 14, GpioPupPdn::PullUp);
    gpio.set_pup_pdn(&mut daif, 15, GpioPupPdn::PullUp);
    gpio.set_direct(&mut daif, 0, GpioDirect::Out);
    gpio.set_level(&mut daif, 0, GpioLevel::High);
    let registers = gpio.registers(&mut daif);
    assert_eq!(registers.gpfsel, [1, (0b100 << 15) | (0b100 << 12), 0, 0, 0, 0]);
    assert_eq!(registers.gppuppdn, [(0b01 << 30) | (0b01 << 28), 0, 0, 0]);
    assert_eq!(daif.bits(), 0x40);
}

#[test]
fn locked_uart() {
    let mut daif = Daif::new(0);
    let mut uart = Pl011Uart::new(0xfe20_1000);
    assert_eq!(uart.compatible(), "PL011 Uart");
    uart.set_baud(&mut daif, 115_200);
    assert_eq!(uart.chars_written(), 0);
    assert_eq!(uart.chars_read(), 0);
    assert_eq!(daif.bits(), 0);
}
