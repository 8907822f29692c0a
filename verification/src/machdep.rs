//! What depends on the machine: time stamps, typed-ahead input and signals.
use vstd::prelude::*;

verus! {

/// A moment in universal time, to the second.
#[derive(Debug, Copy, Clone, Eq, PartialEq, Structural)]
pub struct RogueTime {
    pub year: i32,
    pub month: u32,
    pub day: u32,
    pub hour: u32,
    pub minute: u32,
    pub second: u32,
}

/// Throwing away typed-ahead input is not needed: nothing happens.
pub fn md_slurp() {
}

/// Signals are left to the terminal: nothing happens.
pub fn md_heed_signals() {
}

/// Signals are left to the terminal: nothing happens.
pub fn md_ignore_signals() {
}

} // verus!
