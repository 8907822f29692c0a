//! The id of an object.
use vstd::prelude::*;

verus! {

/// The id under which an object is kept.
#[derive(Debug, Copy, Clone, Eq, PartialEq, Structural)]
pub struct ObjectId(pub u64);

impl ObjectId {
    /// The id with number `id`.
    pub fn new(id: u64) -> (r: Self)
        ensures
            r.0 == id,
    {
        Self(id)
    }
}

} // verus!
