//! PL011 UART driver.

use crate::drivers::common::MmioDerefWrapper;
use crate::drivers::serial::{baud_supported, Uart};
use crate::exception::asynchronous::Daif;
use crate::synchronization::{IrqSafeNullLock, Mutex};
use vstd::prelude::*;

verus! {

/// The frequency of the UART's clock.
pub const UART_CLOCK: u32 = 48_000_000;

/// Bit 3 of the flag register: the UART is busy transmitting.
pub const FR_BUSY: u32 = 0x08;

/// Bit 4 of the flag register: the receive FIFO is empty.
pub const FR_RXFE: u32 = 0x10;

/// Bit 5 of the flag register: the transmit FIFO is full.
pub const FR_TXFF: u32 = 0x20;

/// Line control: words of eight bits (bits 6..5), FIFOs enabled (bit 4).
pub const LCRH_8_BITS_FIFO: u32 = 0x70;

/// Bit 0 of the control register: the UART is enabled.
pub const CR_UARTEN: u32 = 0x001;

/// Control: the UART (bit 0), the transmitter (bit 8) and the receiver
/// (bit 9) are enabled.
pub const CR_UARTEN_TXE_RXE: u32 = 0x301;

/// Interrupt mask: the receive (bit 4) and the receive timeout (bit 6)
/// interrupts are enabled.
pub const IMSC_RXIM_RTIM: u32 = 0x50;

/// Masked interrupt status: a receive (bit 4) or a receive timeout (bit 6)
/// interrupt is pending.
pub const MIS_RXMIS_RTMIS: u32 = 0x50;

/// The registers that the driver uses.
pub struct RegisterBlock {
    /// Data register.
    pub dr: u32,
    /// Flag register.
    pub fr: u32,
    /// Integer baud rate divisor.
    pub ibrd: u32,
    /// Fractional baud rate divisor.
    pub fbrd: u32,
    /// Line control register.
    pub lcrh: u32,
    /// Control register.
    pub cr: u32,
    /// Interrupt FIFO level select register.
    pub ifls: u32,
    /// Interrupt mask set/clear register.
    pub imsc: u32,
    /// Masked interrupt status register.
    pub mis: u32,
    /// Interrupt clear register.
    pub icr: u32,
}

/// Abstraction for the associated MMIO registers.
pub type Registers = MmioDerefWrapper<RegisterBlock>;

/// Whether a read waits for a character.
#[derive(Copy, Clone, Debug, PartialEq, Eq)]
pub enum BlockingMode {
    Blocking,
    NonBlocking,
}

/// The integer part of the baud rate divisor: the clock divided by sixteen
/// times the baud rate.
pub open spec fn integer_divisor(baud: u32) -> int {
    UART_CLOCK as int / (16 * baud)
}

/// The fractional part of the baud rate divisor, in 64ths, rounded.
pub open spec fn fractional_divisor(baud: u32) -> int {
    ((UART_CLOCK as int % (16 * baud)) * 64 + baud / 2) / baud as int
}

/// The character that the data register holds: its low eight bits, with a
/// carriage return turned into a line feed.
pub open spec fn received_char(dr: u32) -> char {
    if dr & 0xff == 0x0d {
        '\n'
    } else {
        (dr & 0xff) as u8 as char
    }
}

/// Whether the masked interrupt status reports received data.
pub open spec fn rx_pending(mis: u32) -> bool {
    mis & MIS_RXMIS_RTMIS != 0
}

/// The dividers of the baud rate generator, integer and fractional part.
pub fn baud_divisors(baud: u32) -> (r: (u32, u32))
    requires
        baud_supported(baud),
    ensures
        r.0 == integer_divisor(baud),
        r.1 == fractional_divisor(baud),
{
    let ibrd = UART_CLOCK / (16 * baud);
    let rest = UART_CLOCK % (16 * baud);
    assert(rest * 64 + baud / 2 <= u32::MAX) by {
        vstd::arithmetic::div_mod::lemma_mod_decreases(UART_CLOCK as nat, (16 * baud) as nat);
        assert(rest <= 48_000_000);
        assert(baud <= 0x0fff_ffff);
    }
    let fbrd = (rest * 64 + baud / 2) / baud;
    (ibrd, fbrd)
}

/// Decides whether the masked interrupt status reports received data.
pub fn rx_interrupt_pending(mis: u32) -> (r: bool)
    ensures
        r == rx_pending(mis),
{
    mis & MIS_RXMIS_RTMIS != 0
}

impl RegisterBlock {
    /// Create an instance, with every register zero.
    pub fn new() -> (r: Self)
        ensures
            r.dr == 0 && r.fr == 0 && r.ibrd == 0 && r.fbrd == 0 && r.lcrh == 0 && r.cr == 0
                && r.ifls == 0 && r.imsc == 0 && r.mis == 0 && r.icr == 0,
    {
        Self {
            dr: 0,
            fr: 0,
            ibrd: 0,
            fbrd: 0,
            lcrh: 0,
            cr: 0,
            ifls: 0,
            imsc: 0,
            mis: 0,
            icr: 0,
        }
    }
}

/// The UART hardware and the driver's counters.
pub struct Pl011UartInner {
    registers: Registers,
    chars_written: usize,
    chars_read: usize,
}

impl Pl011UartInner {
    /// The registers.
    pub closed spec fn view(&self) -> RegisterBlock {
        self.registers@
    }

    /// The number of characters written.
    pub closed spec fn spec_chars_written(&self) -> usize {
        self.chars_written
    }

    /// The number of characters read.
    pub closed spec fn spec_chars_read(&self) -> usize {
        self.chars_read
    }

    /// The UART after `before` was set up for a baud rate: no interrupt is
    /// pending, the dividers are those of the baud rate, the line has words
    /// of eight bits and FIFOs, the receive FIFO raises its interrupt at one
    /// eighth, the receive and receive timeout interrupts are enabled, the
    /// UART with its transmitter and receiver is enabled, and nothing else
    /// has changed.
    pub open spec fn is_set_up(&self, before: Self, baud: u32) -> bool {
        &&& self@.icr == 0
        &&& self@.ibrd == integer_divisor(baud)
        &&& self@.fbrd == fractional_divisor(baud)
        &&& self@.lcrh == before@.lcrh | LCRH_8_BITS_FIFO
        &&& self@.ifls == 0
        &&& self@.imsc == IMSC_RXIM_RTIM
        &&& self@.cr == before@.cr | CR_UARTEN_TXE_RXE
        &&& self@.dr == before@.dr
        &&& self@.fr == before@.fr
        &&& self@.mis == before@.mis
        &&& self.spec_chars_written() == before.spec_chars_written()
        &&& self.spec_chars_read() == before.spec_chars_read()
    }

    /// Create an instance, with every register and both counters zero.
    pub fn new(base_addr: usize) -> (r: Self)
        ensures
            r.spec_chars_written() == 0,
            r.spec_chars_read() == 0,
            r@.cr == 0 && r@.fr == 0 && r@.dr == 0,
    {
        Self {
            registers: Registers::new(base_addr, RegisterBlock::new()),
            chars_written: 0,
            chars_read: 0,
        }
    }

    /// Create an instance from the values that the registers hold.
    pub fn from_registers(base_addr: usize, registers: RegisterBlock) -> (r: Self)
        ensures
            r@ == registers,
            r.spec_chars_written() == 0,
            r.spec_chars_read() == 0,
    {
        Self { registers: Registers::new(base_addr, registers), chars_written: 0, chars_read: 0 }
    }

    /// Whether the last buffered character has been put on the TX wire.
    pub fn is_flushed(&self) -> (r: bool)
        ensures
            r == (self@.fr & FR_BUSY != FR_BUSY),
    {
        self.registers.get().fr & FR_BUSY != FR_BUSY
    }

    /// Send a character. The transmit FIFO has room for it.
    pub fn write_char(&mut self, c: char)
        requires
            old(self)@.fr & FR_TXFF != FR_TXFF,
            old(self).spec_chars_written() < usize::MAX,
        ensures
            final(self)@.dr == c as u32,
            final(self).spec_chars_written() == old(self).spec_chars_written() + 1,
            final(self).spec_chars_read() == old(self).spec_chars_read(),
            final(self)@.fr == old(self)@.fr,
            final(self)@.cr == old(self)@.cr,
    {
        self.registers.get_mut().dr = c as u32;
        self.chars_written += 1;
    }

    /// Retrieve a character, if the receive FIFO holds one. A blocking read
    /// is for a FIFO that is not empty.
    pub fn read_char_converting(&mut self, blocking_mode: BlockingMode) -> (r: Option<char>)
        requires
            blocking_mode == BlockingMode::Blocking ==> old(self)@.fr & FR_RXFE != FR_RXFE,
            old(self).spec_chars_read() < usize::MAX,
        ensures
            final(self)@ == old(self)@,
            final(self).spec_chars_written() == old(self).spec_chars_written(),
            if old(self)@.fr & FR_RXFE == FR_RXFE {
                r.is_none() && final(self).spec_chars_read() == old(self).spec_chars_read()
            } else {
                r == Some(received_char(old(self)@.dr)) && final(self).spec_chars_read() == old(
                    self,
                ).spec_chars_read() + 1
            },
    {
        if self.registers.get().fr & FR_RXFE == FR_RXFE {
            return None;
        }
        let dr = self.registers.get().dr;
        let byte = (dr & 0xff) as u8;
        assert(dr & 0xff <= 0xff) by (bit_vector);
        let mut ret = byte as char;
        if byte == 0x0d {
            ret = '\n';
        }
        self.chars_read += 1;
        Some(ret)
    }

    /// The number of characters written.
    pub fn chars_written(&self) -> (r: usize)
        ensures
            r == self.spec_chars_written(),
    {
        self.chars_written
    }

    /// The number of characters read.
    pub fn chars_read(&self) -> (r: usize)
        ensures
            r == self.spec_chars_read(),
    {
        self.chars_read
    }

    /// The registers.
    pub fn registers(&self) -> (r: &RegisterBlock)
        ensures
            *r == self@,
    {
        self.registers.get()
    }
}

impl Uart for Pl011UartInner {
    /// Set up baud rate and characteristics: all interrupts are cleared, the
    /// dividers are set for the baud rate, the line is set to words of eight
    /// bits with FIFOs, the receive FIFO raises its interrupt at one eighth,
    /// the receive and receive timeout interrupts are enabled, and the UART
    /// with its transmitter and receiver is enabled.
    fn set_baud(&mut self, baud: u32)
        ensures
            final(self).is_set_up(*old(self), baud),
    {
        let (ibrd, fbrd) = baud_divisors(baud);
        let block = self.registers.get_mut();
        let cr = block.cr;
        // 1. Disable UART
        block.cr = cr & !CR_UARTEN;
        // 2. Clear interrupts
        block.icr = 0;
        // 3. Baud divisor
        block.ibrd = ibrd;
        block.fbrd = fbrd;
        // 4. Line control: 8 bits, FIFO enabled
        block.lcrh = block.lcrh | LCRH_8_BITS_FIFO;
        // Set RX FIFO fill level at 1/8.
        block.ifls = 0;
        // Enable RX IRQ + RX timeout IRQ.
        block.imsc = IMSC_RXIM_RTIM;
        // 5. Enable UART, TX and RX
        assert((cr & !0x001u32) | 0x301 == cr | 0x301) by (bit_vector);
        block.cr = block.cr | CR_UARTEN_TXE_RXE;
    }
}

/// The compatibility string of the driver.
pub const COMPATIBLE: &'static str = "PL011 Uart";

/// The UART, behind a lock that masks interrupts while the UART is in use.
pub struct Pl011Uart {
    inner: IrqSafeNullLock<Pl011UartInner>,
}

impl Pl011Uart {
    /// The UART hardware and the driver's counters.
    pub closed spec fn view(&self) -> Pl011UartInner {
        self.inner@
    }

    /// Create an instance, with every register and both counters zero.
    pub fn new(mmio_base_addr: usize) -> (r: Self)
        ensures
            r@.spec_chars_written() == 0,
            r@.spec_chars_read() == 0,
    {
        Self { inner: IrqSafeNullLock::new(Pl011UartInner::new(mmio_base_addr)) }
    }

    /// Return a compatibility string for identifying the driver.
    pub fn compatible(&self) -> (r: &'static str)
        ensures
            r == COMPATIBLE,
    {
        COMPATIBLE
    }

    /// Set up baud rate and characteristics.
    pub fn set_baud(&mut self, daif: &mut Daif, baud: u32)
        requires
            baud_supported(baud),
        ensures
            final(daif)@ == old(daif)@,
            final(self)@.is_set_up(old(self)@, baud),
    {
        let set = |inner: &mut Pl011UartInner| -> (r: ())
            ensures
                final(inner).is_set_up(*old(inner), baud),
            {
                inner.set_baud(baud);
            };
        self.inner.lock(daif, set);
    }

    /// Return the number of characters written.
    pub fn chars_written(&self) -> (r: usize)
        ensures
            r == self@.spec_chars_written(),
    {
        self.inner.peek().chars_written()
    }

    /// Return the number of characters read.
    pub fn chars_read(&self) -> (r: usize)
        ensures
            r == self@.spec_chars_read(),
    {
        self.inner.peek().chars_read()
    }
}

} // verus!
