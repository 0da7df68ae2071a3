//! System console.

use crate::exception::asynchronous::Daif;
use crate::synchronization::{Mutex, NullLock};
use vstd::prelude::*;

verus! {

/// Console write functions.
pub trait Write {
    /// Write a single character.
    fn write_char(&self, c: char);

    /// Write a string.
    fn write_str(&self, s: &str) -> Result<(), &'static str>;

    /// Block until the last buffered character has been physically put on the
    /// TX wire.
    fn flush(&self);
}

/// Console read functions.
pub trait Read {
    /// Read a single character.
    fn read_char(&self) -> char;

    /// Clear RX buffers, if any.
    fn clear_rx(&self);
}

/// Console statistics.
pub trait Statistics {
    /// Return the number of characters written.
    fn chars_written(&self) -> usize;

    /// Return the number of characters read.
    fn chars_read(&self) -> usize;
}

/// Trait alias for a full-fledged console.
pub trait All: Write + Read + Statistics {

}

/// A placeholder: it swallows what is written, and has nothing to read but
/// blanks.
pub struct NullConsole;

impl Write for NullConsole {
    fn write_char(&self, _c: char) {
    }

    fn write_str(&self, _s: &str) -> (r: Result<(), &'static str>)
        ensures
            r == Ok::<(), &'static str>(()),
    {
        Ok(())
    }

    fn flush(&self) {
    }
}

impl Read for NullConsole {
    fn read_char(&self) -> (r: char)
        ensures
            r == ' ',
    {
        ' '
    }

    fn clear_rx(&self) {
    }
}

impl Statistics for NullConsole {
    fn chars_written(&self) -> (r: usize)
        ensures
            r == 0,
    {
        0
    }

    fn chars_read(&self) -> (r: usize)
        ensures
            r == 0,
    {
        0
    }
}

impl All for NullConsole {

}

/// Where the kernel keeps its console. `C` is the type of the console.
pub struct ConsoleSlot<C: All + 'static> {
    current: NullLock<Option<&'static C>>,
}

impl<C: All> ConsoleSlot<C> {
    /// The registered console.
    pub closed spec fn view(&self) -> Option<&'static C> {
        self.current@
    }

    /// Create an instance, with no console.
    pub fn new() -> (r: Self)
        ensures
            r@.is_none(),
    {
        Self { current: NullLock::new(None) }
    }
}

/// Register a new console.
pub fn register_console<C: All>(
    slot: &mut ConsoleSlot<C>,
    daif: &mut Daif,
    new_console: &'static C,
)
    ensures
        final(slot)@ == Some(new_console),
        final(daif)@ == old(daif)@,
{
    let set = |con: &mut Option<&'static C>| -> (r: ())
        ensures
            *final(con) == Some(new_console),
        {
            *con = Some(new_console);
        };
    slot.current.lock(daif, set);
}

/// Return a reference to the console.
pub fn console<C: All>(slot: &mut ConsoleSlot<C>, daif: &mut Daif) -> (r: Option<&'static C>)
    ensures
        r == old(slot)@,
        final(slot)@ == old(slot)@,
        final(daif)@ == old(daif)@,
{
    let get = |con: &mut Option<&'static C>| -> (r: Option<&'static C>)
        ensures
            r == *old(con),
            *final(con) == *old(con),
        {
            *con
        };
    slot.current.lock(daif, get)
}

} // verus!
