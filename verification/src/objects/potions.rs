//! The kinds of potion, and which kind an object is.
use vstd::prelude::*;

use crate::object_what::ObjectWhat;
use crate::objects::kinds::POTIONS;
use crate::objects::Object;
use crate::inventory::spec_real_name;

verus! {

/// What a potion does when quaffed.
#[derive(Debug, Copy, Clone, Eq, PartialEq, Structural)]
pub enum PotionKind {
    IncreaseStrength,
    RestoreStrength,
    Healing,
    ExtraHealing,
    Poison,
    RaiseLevel,
    Blindness,
    Hallucination,
    DetectMonster,
    DetectObjects,
    Confusion,
    Levitation,
    HasteSelf,
    SeeInvisible,
}

/// The kind of potion at `index` in the list of kinds.
pub open spec fn spec_potion_kind(index: int) -> PotionKind {
    if index == 0 {
        PotionKind::IncreaseStrength
    } else if index == 1 {
        PotionKind::RestoreStrength
    } else if index == 2 {
        PotionKind::Healing
    } else if index == 3 {
        PotionKind::ExtraHealing
    } else if index == 4 {
        PotionKind::Poison
    } else if index == 5 {
        PotionKind::RaiseLevel
    } else if index == 6 {
        PotionKind::Blindness
    } else if index == 7 {
        PotionKind::Hallucination
    } else if index == 8 {
        PotionKind::DetectMonster
    } else if index == 9 {
        PotionKind::DetectObjects
    } else if index == 10 {
        PotionKind::Confusion
    } else if index == 11 {
        PotionKind::Levitation
    } else if index == 12 {
        PotionKind::HasteSelf
    } else {
        PotionKind::SeeInvisible
    }
}

/// The place of a kind in the list of kinds.
pub open spec fn spec_potion_index(kind: PotionKind) -> int {
    match kind {
        PotionKind::IncreaseStrength => 0,
        PotionKind::RestoreStrength => 1,
        PotionKind::Healing => 2,
        PotionKind::ExtraHealing => 3,
        PotionKind::Poison => 4,
        PotionKind::RaiseLevel => 5,
        PotionKind::Blindness => 6,
        PotionKind::Hallucination => 7,
        PotionKind::DetectMonster => 8,
        PotionKind::DetectObjects => 9,
        PotionKind::Confusion => 10,
        PotionKind::Levitation => 11,
        PotionKind::HasteSelf => 12,
        PotionKind::SeeInvisible => 13,
    }
}

/// The real name of a potion of kind `k`, as the player learns it.
pub open spec fn spec_potion_kind_name(k: PotionKind) -> Seq<char> {
    match k {
        PotionKind::IncreaseStrength => "of increase strength "@,
        PotionKind::RestoreStrength => "of restore strength "@,
        PotionKind::Healing => "of healing "@,
        PotionKind::ExtraHealing => "of extra healing "@,
        PotionKind::Poison => "of poison "@,
        PotionKind::RaiseLevel => "of raise level "@,
        PotionKind::Blindness => "of blindness "@,
        PotionKind::Hallucination => "of hallucination "@,
        PotionKind::DetectMonster => "of detect monster "@,
        PotionKind::DetectObjects => "of detect things "@,
        PotionKind::Confusion => "of confusion "@,
        PotionKind::Levitation => "of levitation "@,
        PotionKind::HasteSelf => "of haste self "@,
        PotionKind::SeeInvisible => "of see invisible "@,
    }
}

/// The kind at each place of the list of potion kinds is the potion that
/// the table of real names names at that place, and each kind's place in
/// the list is where its name stands: a potion object of kind `i` does
/// what the potion it is called after does.
pub proof fn lemma_potion_kinds_named()
    ensures
        forall|i: int| 0 <= i < POTIONS ==> spec_real_name(ObjectWhat::Potion, i)
            == spec_potion_kind_name(#[trigger] spec_potion_kind(i)),
        forall|k: PotionKind| spec_real_name(ObjectWhat::Potion, #[trigger] spec_potion_index(k))
            == spec_potion_kind_name(k),
{
    assert forall|i: int| 0 <= i < POTIONS implies spec_real_name(ObjectWhat::Potion, i)
        == spec_potion_kind_name(#[trigger] spec_potion_kind(i)) by {
        if i == 0 {
        } else if i == 1 {
        } else if i == 2 {
        } else if i == 3 {
        } else if i == 4 {
        } else if i == 5 {
        } else if i == 6 {
        } else if i == 7 {
        } else if i == 8 {
        } else if i == 9 {
        } else if i == 10 {
        } else if i == 11 {
        } else if i == 12 {
        } else if i == 13 {
        } else {
        }
    }
}

impl PotionKind {
    /// The kind at `index` in the list of kinds.
    pub fn from_index(index: usize) -> (r: Self)
        requires
            index < POTIONS,
        ensures
            r == spec_potion_kind(index as int),
    {
        if index == 0 {
            PotionKind::IncreaseStrength
        } else if index == 1 {
            PotionKind::RestoreStrength
        } else if index == 2 {
            PotionKind::Healing
        } else if index == 3 {
            PotionKind::ExtraHealing
        } else if index == 4 {
            PotionKind::Poison
        } else if index == 5 {
            PotionKind::RaiseLevel
        } else if index == 6 {
            PotionKind::Blindness
        } else if index == 7 {
            PotionKind::Hallucination
        } else if index == 8 {
            PotionKind::DetectMonster
        } else if index == 9 {
            PotionKind::DetectObjects
        } else if index == 10 {
            PotionKind::Confusion
        } else if index == 11 {
            PotionKind::Levitation
        } else if index == 12 {
            PotionKind::HasteSelf
        } else {
            PotionKind::SeeInvisible
        }
    }

    /// The place of the kind in the list of kinds.
    pub fn to_index(&self) -> (r: usize)
        ensures
            r == spec_potion_index(*self),
            r < POTIONS,
    {
        match self {
            PotionKind::IncreaseStrength => 0,
            PotionKind::RestoreStrength => 1,
            PotionKind::Healing => 2,
            PotionKind::ExtraHealing => 3,
            PotionKind::Poison => 4,
            PotionKind::RaiseLevel => 5,
            PotionKind::Blindness => 6,
            PotionKind::Hallucination => 7,
            PotionKind::DetectMonster => 8,
            PotionKind::DetectObjects => 9,
            PotionKind::Confusion => 10,
            PotionKind::Levitation => 11,
            PotionKind::HasteSelf => 12,
            PotionKind::SeeInvisible => 13,
        }
    }
}

/// A kind's place in the list gives the kind back, and every place below
/// the number of kinds gives a kind whose place it is.
pub proof fn law_potion_index_round_trip(kind: PotionKind, index: int)
    ensures
        spec_potion_kind(spec_potion_index(kind)) == kind,
        0 <= index < POTIONS ==> spec_potion_index(spec_potion_kind(index)) == index,
{
}

/// The potion kind of an object, if it is a potion.
pub open spec fn spec_potion_kind_of(o: Object) -> Option<PotionKind> {
    if o.what_is is Potion {
        Some(spec_potion_kind(o.which_kind as int))
    } else {
        None
    }
}

impl Object {
    /// The potion kind of the object, if it is a potion.
    pub fn potion_kind(&self) -> (r: Option<PotionKind>)
        requires
            self.what_is is Potion ==> self.which_kind < POTIONS,
        ensures
            r == spec_potion_kind_of(*self),
    {
        if self.what_is == ObjectWhat::Potion {
            Some(PotionKind::from_index(self.which_kind as usize))
        } else {
            None
        }
    }
}

} // verus!
