//! Dungeon, monster and item logic of a Rogue-style game, with its rules
//! stated as contracts and proved by Verus.

pub mod armors;
pub mod actions;
pub mod components;
pub mod console;
pub mod constants;
pub mod hit;
pub mod init;
pub mod inventory;
pub mod level;
pub mod machdep;
pub mod message;
pub mod monster;
pub mod motion;
pub mod object_what;
pub mod objects;
pub mod random;
pub mod room;
pub mod spot;
pub mod trap;
