//! The kinds of scroll, and which kind an object is.
use vstd::prelude::*;

use crate::object_what::ObjectWhat;
use crate::objects::kinds::SCROLLS;
use crate::objects::Object;
use crate::inventory::spec_real_name;

verus! {

/// What a scroll does when read.
#[derive(Debug, Copy, Clone, Eq, PartialEq, Structural)]
pub enum ScrollKind {
    ProtectArmor,
    HoldMonster,
    EnchWeapon,
    EnchArmor,
    Identify,
    Teleport,
    Sleep,
    ScareMonster,
    RemoveCurse,
    CreateMonster,
    AggravateMonster,
    MagicMapping,
}

/// The kind of scroll at `index` in the list of kinds.
pub open spec fn spec_scroll_kind(index: int) -> ScrollKind {
    if index == 0 {
        ScrollKind::ProtectArmor
    } else if index == 1 {
        ScrollKind::HoldMonster
    } else if index == 2 {
        ScrollKind::EnchWeapon
    } else if index == 3 {
        ScrollKind::EnchArmor
    } else if index == 4 {
        ScrollKind::Identify
    } else if index == 5 {
        ScrollKind::Teleport
    } else if index == 6 {
        ScrollKind::Sleep
    } else if index == 7 {
        ScrollKind::ScareMonster
    } else if index == 8 {
        ScrollKind::RemoveCurse
    } else if index == 9 {
        ScrollKind::CreateMonster
    } else if index == 10 {
        ScrollKind::AggravateMonster
    } else {
        ScrollKind::MagicMapping
    }
}

/// The place of a kind in the list of kinds.
pub open spec fn spec_scroll_index(kind: ScrollKind) -> int {
    match kind {
        ScrollKind::ProtectArmor => 0,
        ScrollKind::HoldMonster => 1,
        ScrollKind::EnchWeapon => 2,
        ScrollKind::EnchArmor => 3,
        ScrollKind::Identify => 4,
        ScrollKind::Teleport => 5,
        ScrollKind::Sleep => 6,
        ScrollKind::ScareMonster => 7,
        ScrollKind::RemoveCurse => 8,
        ScrollKind::CreateMonster => 9,
        ScrollKind::AggravateMonster => 10,
        ScrollKind::MagicMapping => 11,
    }
}

/// The real name of a scroll of kind `k`, as the player learns it.
pub open spec fn spec_scroll_kind_name(k: ScrollKind) -> Seq<char> {
    match k {
        ScrollKind::ProtectArmor => "of protect armor "@,
        ScrollKind::HoldMonster => "of hold monster "@,
        ScrollKind::EnchWeapon => "of enchant weapon "@,
        ScrollKind::EnchArmor => "of enchant armor "@,
        ScrollKind::Identify => "of identify "@,
        ScrollKind::Teleport => "of teleportation "@,
        ScrollKind::Sleep => "of sleep "@,
        ScrollKind::ScareMonster => "of scare monster "@,
        ScrollKind::RemoveCurse => "of remove curse "@,
        ScrollKind::CreateMonster => "of create monster "@,
        ScrollKind::AggravateMonster => "of aggravate monster "@,
        ScrollKind::MagicMapping => "of magic mapping "@,
    }
}

/// The kind at each place of the list of scroll kinds is the scroll that
/// the table of real names names at that place, and each kind's place in
/// the list is where its name stands: a scroll object of kind `i` does what
/// the scroll it is called after does.
pub proof fn lemma_scroll_kinds_named()
    ensures
        forall|i: int| 0 <= i < SCROLLS ==> spec_real_name(ObjectWhat::Scroll, i)
            == spec_scroll_kind_name(#[trigger] spec_scroll_kind(i)),
        forall|k: ScrollKind| spec_real_name(ObjectWhat::Scroll, #[trigger] spec_scroll_index(k))
            == spec_scroll_kind_name(k),
{
    assert forall|i: int| 0 <= i < SCROLLS implies spec_real_name(ObjectWhat::Scroll, i)
        == spec_scroll_kind_name(#[trigger] spec_scroll_kind(i)) by {
        if i == 0 {
        } else if i == 1 {
        } else if i == 2 {
        } else if i == 3 {
        } else if i == 4 {
        } else if i == 5 {
        } else if i == 6 {
        } else if i == 7 {
        } else if i == 8 {
        } else if i == 9 {
        } else if i == 10 {
        } else if i == 11 {
        } else {
        }
    }
}

impl ScrollKind {
    /// The kind at `index` in the list of kinds.
    pub fn from_index(index: usize) -> (r: Self)
        requires
            index < SCROLLS,
        ensures
            r == spec_scroll_kind(index as int),
    {
        if index == 0 {
            ScrollKind::ProtectArmor
        } else if index == 1 {
            ScrollKind::HoldMonster
        } else if index == 2 {
            ScrollKind::EnchWeapon
        } else if index == 3 {
            ScrollKind::EnchArmor
        } else if index == 4 {
            ScrollKind::Identify
        } else if index == 5 {
            ScrollKind::Teleport
        } else if index == 6 {
            ScrollKind::Sleep
        } else if index == 7 {
            ScrollKind::ScareMonster
        } else if index == 8 {
            ScrollKind::RemoveCurse
        } else if index == 9 {
            ScrollKind::CreateMonster
        } else if index == 10 {
            ScrollKind::AggravateMonster
        } else {
            ScrollKind::MagicMapping
        }
    }

    /// The place of the kind in the list of kinds.
    pub fn to_index(&self) -> (r: usize)
        ensures
            r == spec_scroll_index(*self),
            r < SCROLLS,
    {
        match self {
            ScrollKind::ProtectArmor => 0,
            ScrollKind::HoldMonster => 1,
            ScrollKind::EnchWeapon => 2,
            ScrollKind::EnchArmor => 3,
            ScrollKind::Identify => 4,
            ScrollKind::Teleport => 5,
            ScrollKind::Sleep => 6,
            ScrollKind::ScareMonster => 7,
            ScrollKind::RemoveCurse => 8,
            ScrollKind::CreateMonster => 9,
            ScrollKind::AggravateMonster => 10,
            ScrollKind::MagicMapping => 11,
        }
    }
}

/// A kind's place in the list gives the kind back, and every place below
/// the number of kinds gives a kind whose place it is.
pub proof fn law_scroll_index_round_trip(kind: ScrollKind, index: int)
    ensures
        spec_scroll_kind(spec_scroll_index(kind)) == kind,
        0 <= index < SCROLLS ==> spec_scroll_index(spec_scroll_kind(index)) == index,
{
}

/// The scroll kind of an object, if it is a scroll.
pub open spec fn spec_scroll_kind_of(o: Object) -> Option<ScrollKind> {
    if o.what_is is Scroll {
        Some(spec_scroll_kind(o.which_kind as int))
    } else {
        None
    }
}

impl Object {
    /// The scroll kind of the object, if it is a scroll.
    pub fn scroll_kind(&self) -> (r: Option<ScrollKind>)
        requires
            self.what_is is Scroll ==> self.which_kind < SCROLLS,
        ensures
            r == spec_scroll_kind_of(*self),
    {
        if self.what_is == ObjectWhat::Scroll {
            Some(ScrollKind::from_index(self.which_kind as usize))
        } else {
            None
        }
    }
}

} // verus!
