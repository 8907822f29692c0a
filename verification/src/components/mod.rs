//! Parts of the rogue's state.

pub mod hunger;
pub mod healing;
