//! Traps set in the floor of a level.
use vstd::prelude::*;

use crate::constants::{DCOLS, DROWS, MIN_ROW};

verus! {

/// What a trap does, or that the slot holds none.
#[derive(Debug, Copy, Clone, Eq, PartialEq, Structural)]
pub enum TrapType {
    NoTrap,
    TrapDoor,
    BearTrap,
    TeleTrap,
    DartTrap,
    SleepingGasTrap,
    RustTrap,
}

/// One trap slot of a level.
#[derive(Debug, Copy, Clone, Eq, PartialEq, Structural)]
pub struct Trap {
    pub trap_type: TrapType,
    pub trap_row: i64,
    pub trap_col: i64,
}

impl Trap {
    /// An empty trap slot.
    pub fn new() -> (r: Self)
        ensures
            r == (Trap { trap_type: TrapType::NoTrap, trap_row: 0, trap_col: 0 }),
    {
        Trap { trap_type: TrapType::NoTrap, trap_row: 0, trap_col: 0 }
    }

    /// Empties the slot.
    pub fn clear(&mut self)
        ensures
            *final(self) == (Trap { trap_type: TrapType::NoTrap, ..*old(self) }),
    {
        self.trap_type = TrapType::NoTrap;
    }
}

/// Whether a spot lies outside the part of the screen that shows the dungeon.
pub open spec fn spec_is_off_screen(row: i64, col: i64) -> bool {
    row < MIN_ROW || row > DROWS - 2 || col < 0 || col > DCOLS - 1
}

/// Whether a spot lies outside the part of the screen that shows the dungeon.
pub fn is_off_screen(row: i64, col: i64) -> (r: bool)
    ensures
        r == spec_is_off_screen(row, col),
{
    row < MIN_ROW || row > DROWS as i64 - 2 || col < 0 || col > DCOLS as i64 - 1
}

} // verus!
