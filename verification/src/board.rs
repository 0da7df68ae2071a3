//! Board description.

use crate::exception::asynchronous::Daif;
use crate::synchronization::{Mutex, NullLock};
use vstd::prelude::*;

verus! {

/// Board information.
pub trait Info {
    /// The board's name.
    fn board_name(&self) -> &'static str;
}

/// All that a board offers.
pub trait All: Info {

}

/// A placeholder.
pub struct NullBoard;

impl Info for NullBoard {
    fn board_name(&self) -> (r: &'static str)
        ensures
            r == "Null Board",
    {
        "Null Board"
    }
}

impl All for NullBoard {

}

/// Where the kernel keeps its board. `B` is the type of the board.
pub struct BoardSlot<B: All + 'static> {
    current: NullLock<Option<&'static B>>,
}

impl<B: All> BoardSlot<B> {
    /// The registered board.
    pub closed spec fn view(&self) -> Option<&'static B> {
        self.current@
    }

    /// Create an instance, with no board.
    pub fn new() -> (r: Self)
        ensures
            r@.is_none(),
    {
        Self { current: NullLock::new(None) }
    }
}

/// Register a new board.
pub fn register_board<B: All>(slot: &mut BoardSlot<B>, daif: &mut Daif, new_board: &'static B)
    ensures
        final(slot)@ == Some(new_board),
        final(daif)@ == old(daif)@,
{
    let set = |brd: &mut Option<&'static B>| -> (r: ())
        ensures
            *final(brd) == Some(new_board),
        {
            *brd = Some(new_board);
        };
    slot.current.lock(daif, set);
}

/// Return a reference to the board.
pub fn board<B: All>(slot: &mut BoardSlot<B>, daif: &mut Daif) -> (r: Option<&'static B>)
    ensures
        r == old(slot)@,
        final(slot)@ == old(slot)@,
        final(daif)@ == old(daif)@,
{
    let get = |brd: &mut Option<&'static B>| -> (r: Option<&'static B>)
        ensures
            r == *old(brd),
            *final(brd) == *old(brd),
        {
            *brd
        };
    slot.current.lock(daif, get)
}

} // verus!
