//! Starting a game.
use vstd::prelude::*;

use crate::console::ConsoleError;

verus! {

/// Why a game could not start.
#[derive(Debug)]
pub enum InitError {
    NoConsole(ConsoleError),
    BadRestore(Option<String>),
}

/// Whose turn it is.
#[derive(Debug, Copy, Clone, Eq, PartialEq, Structural)]
pub enum GameTurn {
    Player,
    Monsters,
}

} // verus!
