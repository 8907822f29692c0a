//! How hungry the rogue is.
use vstd::prelude::*;

verus! {

/// How hungry the rogue is, from fed to starved.
#[derive(Debug, Copy, Clone, Eq, PartialEq, Structural)]
pub enum HungerLevel {
    Normal,
    Hungry,
    Weak,
    Faint,
    Starved,
}

impl HungerLevel {
    /// The word that the status line shows for the hunger.
    pub fn as_str(&self) -> (r: &'static str)
        ensures
            r@ == (match *self {
                HungerLevel::Normal => "normal"@,
                HungerLevel::Hungry => "hungry"@,
                HungerLevel::Weak => "weak"@,
                HungerLevel::Faint => "faint"@,
                HungerLevel::Starved => "starved"@,
            }),
    {
        match self {
            HungerLevel::Normal => "normal",
            HungerLevel::Hungry => "hungry",
            HungerLevel::Weak => "weak",
            HungerLevel::Faint => "faint",
            HungerLevel::Starved => "starved",
        }
    }
}

impl Default for HungerLevel {
    fn default() -> (r: Self)
        ensures
            r is Normal,
    {
        HungerLevel::Normal
    }
}

/// Moves of food left at which the rogue turns hungry.
pub const HUNGRY_MOVES_LEFT: isize = 300;
/// Moves of food left at which the rogue turns weak.
pub const WEAK_MOVES_LEFT: isize = 150;
/// Moves of food left at which the rogue starts to faint.
pub const FAINT_MOVES_LEFT: isize = 20;
/// Moves of food left at which the rogue starves.
pub const STARVE_MOVES_LEFT: isize = 0;

} // verus!
