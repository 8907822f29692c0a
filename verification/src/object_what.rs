//! What sort of thing an object is.
use vstd::prelude::*;

verus! {

/// The class of an object, or `Nothing` where there is no object.
#[derive(Debug, Copy, Clone, Eq, PartialEq, Structural)]
pub enum ObjectWhat {
    Armor,
    Weapon,
    Scroll,
    Potion,
    Gold,
    Food,
    Wand,
    Ring,
    Amulet,
    Nothing,
}

impl ObjectWhat {
    /// Whether this names an object at all.
    pub fn is_object(&self) -> (r: bool)
        ensures
            r == !(*self is Nothing),
    {
        match self {
            ObjectWhat::Nothing => false,
            _ => true,
        }
    }
}

impl Default for ObjectWhat {
    fn default() -> (r: Self)
        ensures
            r is Nothing,
    {
        ObjectWhat::Nothing
    }
}

} // verus!
