//! The kinds of armor.
use vstd::prelude::*;

use crate::objects::{Note, NoteStatus, Title};

verus! {

/// Number of armor kinds.
pub const ARMORS: usize = 7;

/// A kind of armor.
#[derive(Debug, Copy, Clone, Eq, PartialEq, Structural)]
pub enum ArmorKind {
    Leather,
    Ringmail,
    Scale,
    Chain,
    Banded,
    Splint,
    Plate,
}

/// The name of the armor kind.
pub open spec fn spec_armor_kind_name(k: ArmorKind) -> Seq<char> {
    match k {
        ArmorKind::Leather => "leather armor "@,
        ArmorKind::Ringmail => "ring mail "@,
        ArmorKind::Scale => "scale mail "@,
        ArmorKind::Chain => "chain mail "@,
        ArmorKind::Banded => "banded mail "@,
        ArmorKind::Splint => "splint mail "@,
        ArmorKind::Plate => "plate mail "@,
    }
}

/// Position of the armor kind in its list.
pub open spec fn spec_armor_kind_index(k: ArmorKind) -> usize {
    match k {
        ArmorKind::Leather => 0,
        ArmorKind::Ringmail => 1,
        ArmorKind::Scale => 2,
        ArmorKind::Chain => 3,
        ArmorKind::Banded => 4,
        ArmorKind::Splint => 5,
        ArmorKind::Plate => 6,
    }
}

impl ArmorKind {
    /// The armor kind at position `index` of its list.
    pub open spec fn from_index_spec(index: usize) -> Self {
        choose|k: Self| spec_armor_kind_index(k) == index
    }

    /// The armor kind at position `index` of its list.
    pub fn from_index(index: usize) -> (r: Self)
        requires
            index < 7,
        ensures
            spec_armor_kind_index(r) == index,
            r == Self::from_index_spec(index),
    {
        let r = match index {
            0 => ArmorKind::Leather,
            1 => ArmorKind::Ringmail,
            2 => ArmorKind::Scale,
            3 => ArmorKind::Chain,
            4 => ArmorKind::Banded,
            5 => ArmorKind::Splint,
            _ => ArmorKind::Plate,
        };
        proof {
            let c = Self::from_index_spec(index);
            assert(spec_armor_kind_index(r) == index);
            assert(spec_armor_kind_index(c) == index);
        }
        r
    }

    /// Position in its list.
    pub fn to_index(&self) -> (r: usize)
        ensures
            r == spec_armor_kind_index(*self),
            r < 7,
    {
        match self {
            ArmorKind::Leather => 0,
            ArmorKind::Ringmail => 1,
            ArmorKind::Scale => 2,
            ArmorKind::Chain => 3,
            ArmorKind::Banded => 4,
            ArmorKind::Splint => 5,
            ArmorKind::Plate => 6,
        }
    }

    /// The name as the game prints it.
    pub fn name(&self) -> (r: &'static str)
        ensures
            r@ == spec_armor_kind_name(*self),
    {
        match self {
            ArmorKind::Leather => "leather armor ",
            ArmorKind::Ringmail => "ring mail ",
            ArmorKind::Scale => "scale mail ",
            ArmorKind::Chain => "chain mail ",
            ArmorKind::Banded => "banded mail ",
            ArmorKind::Splint => "splint mail ",
            ArmorKind::Plate => "plate mail ",
        }
    }

    /// Whether the kind sits at position `index` of the list.
    pub fn is_kind(&self, index: u16) -> (r: bool)
        ensures
            r == (spec_armor_kind_index(*self) == index),
    {
        self.to_index() as u16 == index
    }

    /// A note for the kind: titled with its name and not yet identified.
    pub fn to_id(self) -> (r: Note)
        ensures
            r == (Note { title: Title::ArmorName(self), status: NoteStatus::Unidentified, is_wood: false }),
    {
        Note { title: Title::ArmorName(self), status: NoteStatus::Unidentified, is_wood: false }
    }
}

/// Two kinds at the same position are the same kind, and every kind's
/// position lies in the list.
pub proof fn law_armor_index_injective(a: ArmorKind, b: ArmorKind)
    ensures
        spec_armor_kind_index(a) < ARMORS,
        spec_armor_kind_index(a) == spec_armor_kind_index(b) ==> a == b,
{
}

} // verus!
