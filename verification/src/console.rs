//! The terminal the game draws on: it must be at least as large as the
//! dungeon.
use vstd::prelude::*;

use crate::constants::{DCOLS, DROWS};

verus! {

/// Why the terminal cannot be used.
#[derive(Debug, Copy, Clone, Eq, PartialEq, Structural)]
pub enum ConsoleError {
    ScreenTooSmall { min_rows: usize, min_cols: usize },
}

/// A terminal that is in use by the game.
#[derive(Debug)]
pub struct Console {
    pub stopped: bool,
}

/// Takes a terminal of `rows` by `cols` for the game: one smaller than the
/// dungeon in either direction is refused, saying how large it must be.
pub fn start(rows: usize, cols: usize) -> (r: Result<Console, ConsoleError>)
    ensures
        (rows < DROWS || cols < DCOLS) <==> r is Err,
        r is Err ==> r == Err::<Console, ConsoleError>(ConsoleError::ScreenTooSmall { min_rows: DROWS, min_cols: DCOLS }),
        r matches Ok(c) ==> !c.stopped,
{
    if rows < DROWS || cols < DCOLS {
        return Err(ConsoleError::ScreenTooSmall { min_rows: DROWS, min_cols: DCOLS });
    }
    Ok(Console { stopped: false })
}

} // verus!
