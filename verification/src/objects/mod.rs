//! Objects: what the rogue finds, carries and learns to recognise.
use vstd::prelude::*;

use crate::armors::{spec_armor_kind_name, ArmorKind};
use crate::constants::MAX_ARMOR;
use crate::hit::damage_stat::DamageStat;
use crate::object_what::ObjectWhat;
use crate::objects::kinds::{
    spec_potion_color_name, spec_ring_gem_name, spec_wand_material_name, spec_weapon_damage,
    spec_weapon_kind_index, spec_weapon_kind_name, PotionColor, RingGem, WandMaterial, WeaponKind,
};
use crate::spot::DungeonSpot;

pub mod kinds;
pub mod note_tables;
pub mod object_id;
pub mod object_pack;
pub mod pack;
pub mod placing;
pub mod potions;
pub mod roll;
pub mod scrolls;

pub use object_id::ObjectId;

verus! {

/// The object is not in use.
pub const NOT_USED: u16 = 0o0;
/// The object is the wielded weapon.
pub const BEING_WIELDED: u16 = 0o1;
/// The object is the worn armor.
pub const BEING_WORN: u16 = 0o2;
/// The object is a ring on the left hand.
pub const ON_LEFT_HAND: u16 = 0o4;
/// The object is a ring on the right hand.
pub const ON_RIGHT_HAND: u16 = 0o10;
/// The object is a ring on either hand.
pub const ON_EITHER_HAND: u16 = 0o14;
/// The object is in use in any way.
pub const BEING_USED: u16 = 0o17;

/// The food kind of a ration.
pub const RATION: u16 = 0;
/// The food kind of a fruit.
pub const FRUIT: u16 = 1;

/// What the rogue calls a kind of object.
#[derive(Debug, Eq, PartialEq)]
pub enum Title {
    Blank,
    WeaponName(WeaponKind),
    ArmorName(ArmorKind),
    PotionColor(PotionColor),
    SyllableString(String),
    WandMaterial(WandMaterial),
    RingGem(RingGem),
    UserString(String),
}

/// The text of a title.
pub open spec fn spec_title_text(t: Title) -> Seq<char> {
    match t {
        Title::Blank => Seq::empty(),
        Title::WeaponName(kind) => spec_weapon_kind_name(kind),
        Title::ArmorName(kind) => spec_armor_kind_name(kind),
        Title::PotionColor(color) => spec_potion_color_name(color),
        Title::SyllableString(string) => string@,
        Title::WandMaterial(mat) => spec_wand_material_name(mat),
        Title::RingGem(gem) => spec_ring_gem_name(gem),
        Title::UserString(string) => string@,
    }
}

impl Title {
    /// The text of the title as an owned string.
    pub fn to_string(&self) -> (r: String)
        ensures
            r@ == spec_title_text(*self),
    {
        self.as_str().to_string()
    }

    /// The text of the title.
    pub fn as_str(&self) -> (r: &str)
        ensures
            r@ == spec_title_text(*self),
    {
        match self {
            Title::Blank => {
                proof {
                    reveal_strlit("");
                }
                ""
            },
            Title::WeaponName(kind) => kind.name(),
            Title::ArmorName(kind) => kind.name(),
            Title::PotionColor(color) => color.name(),
            Title::SyllableString(string) => string.as_str(),
            Title::WandMaterial(mat) => mat.name(),
            Title::RingGem(gem) => gem.name(),
            Title::UserString(string) => string.as_str(),
        }
    }

    /// A copy of the title.
    pub fn duplicate(&self) -> (r: Self)
        ensures
            r == *self,
    {
        match self {
            Title::Blank => Title::Blank,
            Title::WeaponName(kind) => Title::WeaponName(*kind),
            Title::ArmorName(kind) => Title::ArmorName(*kind),
            Title::PotionColor(color) => Title::PotionColor(*color),
            Title::SyllableString(string) => Title::SyllableString(string.clone()),
            Title::WandMaterial(mat) => Title::WandMaterial(*mat),
            Title::RingGem(gem) => Title::RingGem(*gem),
            Title::UserString(string) => Title::UserString(string.clone()),
        }
    }
}

impl Default for Title {
    fn default() -> (r: Self)
        ensures
            r is Blank,
    {
        Title::Blank
    }
}

/// What the rogue knows of one kind of object.
#[derive(Debug, Eq, PartialEq)]
pub struct Note {
    pub title: Title,
    pub status: NoteStatus,
    pub is_wood: bool,
}

/// How far the rogue knows a kind of object.
#[derive(Debug, Copy, Clone, Eq, PartialEq, Structural)]
pub enum NoteStatus {
    Unidentified,
    Identified,
    Called,
}

impl Default for NoteStatus {
    fn default() -> (r: Self)
        ensures
            r is Unidentified,
    {
        NoteStatus::Unidentified
    }
}

/// An object, on the floor or in a pack.
#[derive(Debug, Copy, Clone, Eq, PartialEq, Structural)]
pub struct Object {
    pub id: ObjectId,
    pub what_is: ObjectWhat,
    pub which_kind: u16,
    pub in_use_flags: u16,
    pub quantity: i16,
    pub ichar: char,
    pub is_protected: i16,
    pub is_cursed: i16,
    pub class: isize,
    pub identified: bool,
    pub spot: DungeonSpot,
    pub hit_enchant: i16,
    pub d_enchant: isize,
    pub quiver: i16,
    pub picked_up: i16,
}

/// The weapon kind of an object, if it is a weapon of a known kind.
pub open spec fn spec_weapon_kind(o: Object) -> Option<WeaponKind> {
    if o.what_is is Weapon && o.which_kind < 8 {
        Some(choose|k: WeaponKind| spec_weapon_kind_index(k) == o.which_kind)
    } else {
        None
    }
}

/// The damage dice of an object's own: those of its weapon kind, or a hit of
/// one for anything else.
pub open spec fn spec_base_damage(o: Object) -> DamageStat {
    match spec_weapon_kind(o) {
        Some(kind) => DamageStat { hits: spec_weapon_damage(kind).0, damage: spec_weapon_damage(kind).1 },
        None => DamageStat { hits: 1, damage: 1 },
    }
}

impl Object {
    /// The weapon kind, where the object is a weapon.
    pub fn weapon_kind(&self) -> (r: Option<WeaponKind>)
        requires
            self.what_is is Weapon ==> self.which_kind < 8,
        ensures
            r == spec_weapon_kind(*self),
    {
        if self.what_is == ObjectWhat::Weapon {
            let k = WeaponKind::from_index(self.which_kind as usize);
            proof {
                let c = choose|k: WeaponKind| spec_weapon_kind_index(k) == self.which_kind;
                assert(spec_weapon_kind_index(k) == self.which_kind);
                lemma_weapon_index_injective(c, k);
            }
            Some(k)
        } else {
            None
        }
    }

    /// The armor kind, where the object is armor.
    pub fn armor_kind(&self) -> (r: Option<ArmorKind>)
        requires
            self.what_is is Armor ==> self.which_kind < 7,
        ensures
            self.what_is is Armor <==> r is Some,
            r matches Some(k) ==> crate::armors::spec_armor_kind_index(k) == self.which_kind,
    {
        if self.what_is == ObjectWhat::Armor {
            Some(ArmorKind::from_index(self.which_kind as usize))
        } else {
            None
        }
    }

    /// Whether the object is a weapon.
    pub fn is_weapon(&self) -> (r: bool)
        ensures
            r == (self.what_is is Weapon),
    {
        self.what_is == ObjectWhat::Weapon
    }

    /// Whether the object is a weapon that is thrown: arrows, darts, daggers
    /// or shurikens.
    pub fn is_arrow_or_throwing_weapon(&self) -> (r: bool)
        requires
            self.what_is is Weapon ==> self.which_kind < 8,
        ensures
            r == (match spec_weapon_kind(*self) {
                Some(k) => k is Arrow || k is Dart || k is Dagger || k is Shuriken,
                None => false,
            }),
    {
        if let Some(kind) = self.weapon_kind() {
            kind.is_arrow_or_throwing_weapon()
        } else {
            false
        }
    }

    /// Whether the object can join `existing_pack_obj` in a pack: the same
    /// kind, and for weapons only thrown ones from the same quiver.
    pub fn can_join_existing_pack_object(&self, existing_pack_obj: &Self) -> (r: bool)
        requires
            self.what_is is Weapon ==> self.which_kind < 8,
        ensures
            r == (self.what_is == existing_pack_obj.what_is && self.which_kind
                == existing_pack_obj.which_kind && (!(self.what_is is Weapon) || ((match spec_weapon_kind(*self) {
                Some(k) => k is Arrow || k is Dart || k is Dagger || k is Shuriken,
                None => false,
            }) && self.quiver == existing_pack_obj.quiver))),
    {
        self.is_same_kind(existing_pack_obj) && (!self.is_weapon() || (
        self.is_arrow_or_throwing_weapon() && self.quiver == existing_pack_obj.quiver))
    }

    /// Whether the two objects are of the same class and kind.
    pub fn is_same_kind(&self, other: &Self) -> (r: bool)
        ensures
            r == (self.what_is == other.what_is && self.which_kind == other.which_kind),
    {
        self.what_is == other.what_is && self.which_kind == other.which_kind
    }

    /// Whether the object is cursed.
    pub fn is_cursed(&self) -> (r: bool)
        ensures
            r == (self.is_cursed != 0),
    {
        self.is_cursed != 0
    }

    /// Whether the object is in use in any way.
    pub fn is_being_used(&self) -> (r: bool)
        ensures
            r == (self.in_use_flags & BEING_USED != 0),
    {
        self.in_use_flags & BEING_USED != 0
    }

    /// Whether the object is the wielded weapon.
    pub fn is_being_wielded(&self) -> (r: bool)
        ensures
            r == (self.in_use_flags & BEING_WIELDED != 0),
    {
        self.in_use_flags & BEING_WIELDED != 0
    }

    /// Whether the object is the worn armor.
    pub fn is_being_worn(&self) -> (r: bool)
        ensures
            r == (self.in_use_flags & BEING_WORN != 0),
    {
        self.in_use_flags & BEING_WORN != 0
    }

    /// Whether the object is a ring on either hand.
    pub fn is_on_either_hand(&self) -> (r: bool)
        ensures
            r == (self.in_use_flags & ON_EITHER_HAND != 0),
    {
        self.in_use_flags & ON_EITHER_HAND != 0
    }

    /// Whether the object is a ring on the left hand.
    pub fn is_on_left_hand(&self) -> (r: bool)
        ensures
            r == (self.in_use_flags & ON_LEFT_HAND != 0),
    {
        self.in_use_flags & ON_LEFT_HAND != 0
    }

    /// Whether the object is a ring on the right hand.
    pub fn is_on_right_hand(&self) -> (r: bool)
        ensures
            r == (self.in_use_flags & ON_RIGHT_HAND != 0),
    {
        self.in_use_flags & ON_RIGHT_HAND != 0
    }

    /// Whether the object lies at `row`, `col`.
    pub fn is_at(&self, row: i64, col: i64) -> (r: bool)
        ensures
            r == (self.spot.row == row && self.spot.col == col),
    {
        self.spot.row == row && self.spot.col == col
    }

    /// The amount, where the object is gold.
    pub fn gold_quantity(&self) -> (r: Option<usize>)
        ensures
            r == (if self.what_is is Gold { Some(self.quantity as usize) } else { None }),
    {
        if self.what_is == ObjectWhat::Gold {
            Some(self.quantity as usize)
        } else {
            None
        }
    }

    /// Raises the enchantment by `raise`, to at most the highest armor
    /// enchantment.
    pub fn raise_armor_enchant(&mut self, raise: isize)
        requires
            isize::MIN <= old(self).d_enchant + raise <= isize::MAX,
        ensures
            *final(self) == (Object {
                d_enchant: if old(self).d_enchant + raise <= MAX_ARMOR {
                    (old(self).d_enchant + raise) as isize
                } else {
                    MAX_ARMOR
                },
                ..*old(self)
            }),
    {
        let raised = self.d_enchant + raise;
        self.d_enchant = if raised <= MAX_ARMOR { raised } else { MAX_ARMOR };
    }

    /// The damage dice of the object's kind.
    pub fn base_damage(&self) -> (r: DamageStat)
        requires
            self.what_is is Weapon ==> self.which_kind < 8,
        ensures
            r == spec_base_damage(*self),
    {
        if let Some(kind) = self.weapon_kind() {
            let (hits, damage) = kind.damage();
            DamageStat { hits, damage }
        } else {
            DamageStat { hits: 1, damage: 1 }
        }
    }

    /// The damage dice with the enchantments added: hit enchantment to the
    /// hits, damage enchantment to the damage, each as an unsigned amount.
    pub fn enhanced_damage(&self) -> (r: DamageStat)
        requires
            self.what_is is Weapon ==> self.which_kind < 8,
            0 <= self.hit_enchant,
            0 <= self.d_enchant,
        ensures
            r.hits == spec_base_damage(*self).hits + self.hit_enchant,
            r.damage == spec_base_damage(*self).damage + self.d_enchant,
    {
        let base = self.base_damage();
        proof {
            lemma_base_damage_small(*self);
        }
        let hits = base.hits + self.hit_enchant as usize;
        let damage = base.damage + self.d_enchant as usize;
        DamageStat { hits, damage }
    }

    /// Where the object lies.
    pub fn to_spot(&self) -> (r: DungeonSpot)
        ensures
            r == self.spot,
    {
        self.spot
    }

    /// The object's id.
    pub fn id(&self) -> (r: ObjectId)
        ensures
            r == self.id,
    {
        self.id
    }
}

/// The dice of an object's own have one to four hits of one to five damage.
pub proof fn lemma_base_damage_small(obj: Object)
    ensures
        1 <= spec_base_damage(obj).hits <= 4,
        1 <= spec_base_damage(obj).damage <= 5,
{
    if let Some(k) = spec_weapon_kind(obj) {
        match k {
            WeaponKind::Bow => {},
            WeaponKind::Dart => {},
            WeaponKind::Arrow => {},
            WeaponKind::Dagger => {},
            WeaponKind::Shuriken => {},
            WeaponKind::Mace => {},
            WeaponKind::LongSword => {},
            WeaponKind::TwoHandedSword => {},
        }
    }
}

/// Two weapon kinds at the same position are the same kind.
proof fn lemma_weapon_index_injective(a: WeaponKind, b: WeaponKind)
    requires
        spec_weapon_kind_index(a) == spec_weapon_kind_index(b),
    ensures
        a == b,
{
}

} // verus!
