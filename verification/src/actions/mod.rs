//! What the rogue does on the player's command.

pub mod eat;
pub mod stairs;
pub mod search;
pub mod read_scroll;
pub mod quaff;
pub mod gear;
pub mod naming;
pub mod wizard;
