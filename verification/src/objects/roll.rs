//! Rolling new objects: their kinds, quantities, enchantments and curses.
use vstd::prelude::*;

use crate::constants::MAX_ARMOR;
use crate::object_what::ObjectWhat;
use crate::objects::potions::{spec_potion_index, PotionKind};
use crate::objects::scrolls::{spec_scroll_index, ScrollKind};
use crate::objects::{Object, ObjectId, FRUIT, NOT_USED, RATION};
use crate::random::{coin_toss, gen_ratio, gen_u64, get_rand, get_rand_usize};
use crate::spot::DungeonSpot;

verus! {

/// The weapon kind of darts.
pub const DART: u16 = 1;
/// The weapon kind of arrows.
pub const ARROW: u16 = 2;
/// The weapon kind of daggers.
pub const DAGGER: u16 = 3;
/// The weapon kind of shurikens.
pub const SHURIKEN: u16 = 4;
/// The armor kind of splint mail.
pub const SPLINT: u16 = 5;
/// The armor kind of plate mail.
pub const PLATE: u16 = 6;
/// The wand kind of magic missile.
pub const MAGIC_MISSILE: u16 = 7;
/// The wand kind of cancellation.
pub const CANCELLATION: u16 = 8;
/// The ring kind of teleportation.
pub const R_TELEPORT: u16 = 1;
/// The ring kind of added strength.
pub const ADD_STRENGTH: u16 = 4;
/// The ring kind of dexterity.
pub const DEXTERITY: u16 = 6;
/// The ring kind of adornment.
pub const ADORNMENT: u16 = 7;

/// Whether weapons of kind `kind` come in bunches: arrows, daggers,
/// shurikens and darts.
pub open spec fn spec_bunched(kind: u16) -> bool {
    kind == ARROW || kind == DAGGER || kind == SHURIKEN || kind == DART
}

/// Whether the enchantments `hit` and `dam` and the curse `cursed` are what
/// a weapon roll leaves on an object that was cursed as `was_cursed`: one
/// to three points of blessing spread over the two, or one to three points
/// of curse with the object cursed, or nothing.
pub open spec fn spec_weapon_blessing(hit: int, dam: int, cursed: i16, was_cursed: i16) -> bool {
    ||| (hit >= 0 && dam >= 0 && 1 <= hit + dam <= 3 && cursed == was_cursed)
    ||| (hit <= 0 && dam <= 0 && -3 <= hit + dam <= -1 && cursed == 1)
    ||| (hit == 0 && dam == 0 && cursed == was_cursed)
}

/// The armor class of armor kind `kind`: two more than the kind, one less
/// for splint and plate mail.
pub open spec fn spec_armor_class(kind: u16) -> isize {
    if kind == SPLINT || kind == PLATE { (kind + 1) as isize } else { (kind + 2) as isize }
}

/// The charges that a wand of kind `kind` can be rolled with.
pub open spec fn spec_wand_charges_ok(kind: u16, class: isize) -> bool {
    if kind == MAGIC_MISSILE {
        6 <= class <= 12
    } else if kind == CANCELLATION {
        5 <= class <= 9
    } else {
        3 <= class <= 6
    }
}

/// The scroll kind that a draw of `percent` (0 to 85) gives.
pub open spec fn spec_scroll_roll(percent: int) -> ScrollKind {
    if percent <= 5 {
        ScrollKind::ProtectArmor
    } else if percent <= 11 {
        ScrollKind::HoldMonster
    } else if percent <= 20 {
        ScrollKind::CreateMonster
    } else if percent <= 35 {
        ScrollKind::Identify
    } else if percent <= 43 {
        ScrollKind::Teleport
    } else if percent <= 50 {
        ScrollKind::Sleep
    } else if percent <= 55 {
        ScrollKind::ScareMonster
    } else if percent <= 64 {
        ScrollKind::RemoveCurse
    } else if percent <= 69 {
        ScrollKind::EnchArmor
    } else if percent <= 74 {
        ScrollKind::EnchWeapon
    } else if percent <= 80 {
        ScrollKind::AggravateMonster
    } else {
        ScrollKind::MagicMapping
    }
}

/// The potion kind that a draw of `percent` (1 to 118) gives.
pub open spec fn spec_potion_roll(percent: int) -> PotionKind {
    if percent <= 5 {
        PotionKind::RaiseLevel
    } else if percent <= 15 {
        PotionKind::DetectObjects
    } else if percent <= 25 {
        PotionKind::DetectMonster
    } else if percent <= 35 {
        PotionKind::IncreaseStrength
    } else if percent <= 45 {
        PotionKind::RestoreStrength
    } else if percent <= 55 {
        PotionKind::Healing
    } else if percent <= 65 {
        PotionKind::ExtraHealing
    } else if percent <= 75 {
        PotionKind::Blindness
    } else if percent <= 85 {
        PotionKind::Hallucination
    } else if percent <= 95 {
        PotionKind::Confusion
    } else if percent <= 105 {
        PotionKind::Poison
    } else if percent <= 110 {
        PotionKind::Levitation
    } else if percent <= 114 {
        PotionKind::Hallucination
    } else {
        PotionKind::SeeInvisible
    }
}

/// A blank object under a random id: no class, no kind, none of it, no
/// letter, at the top left corner.
pub fn empty_obj() -> (r: Object)
    ensures
        r == (Object {
            id: r.id,
            what_is: ObjectWhat::Nothing,
            which_kind: 0,
            in_use_flags: 0,
            quantity: 0,
            ichar: '\u{0}',
            is_protected: 0,
            is_cursed: 0,
            class: 0,
            identified: false,
            spot: DungeonSpot { row: 0, col: 0 },
            hit_enchant: 0,
            d_enchant: 0,
            quiver: 0,
            picked_up: 0,
        }),
{
    Object {
        id: ObjectId::new(gen_u64()),
        what_is: ObjectWhat::Nothing,
        which_kind: 0,
        in_use_flags: 0,
        quantity: 0,
        ichar: '\u{0}',
        is_protected: 0,
        is_cursed: 0,
        class: 0,
        identified: false,
        spot: DungeonSpot { row: 0, col: 0 },
        hit_enchant: 0,
        d_enchant: 0,
        quiver: 0,
        picked_up: 0,
    }
}

/// A blank object of one piece with the letter 'L', not cursed, not in
/// use and not known.
pub fn alloc_object() -> (r: Object)
    ensures
        r == (Object {
            id: r.id,
            what_is: ObjectWhat::Nothing,
            which_kind: 0,
            in_use_flags: NOT_USED,
            quantity: 1,
            ichar: 'L',
            is_protected: 0,
            is_cursed: 0,
            class: 0,
            identified: false,
            spot: DungeonSpot { row: 0, col: 0 },
            hit_enchant: 0,
            d_enchant: 0,
            quiver: 0,
            picked_up: 0,
        }),
{
    let mut obj = empty_obj();
    obj.quantity = 1;
    obj.ichar = 'L';
    obj.is_cursed = 0;
    obj.picked_up = 0;
    obj.in_use_flags = NOT_USED;
    obj.identified = false;
    obj
}

/// Gives `obj` a scroll kind drawn as `spec_scroll_roll` says.
pub fn gr_scroll(obj: &mut Object)
    ensures
        exists|p: int| 0 <= p <= 85 && final(obj).which_kind == spec_scroll_index(#[trigger] spec_scroll_roll(p)),
        *final(obj) == (Object { what_is: ObjectWhat::Scroll, which_kind: final(obj).which_kind, ..*old(obj) }),
{
    let percent = get_rand(0, 85);
    obj.what_is = ObjectWhat::Scroll;
    let kind = if percent <= 5 {
        ScrollKind::ProtectArmor
    } else if percent <= 11 {
        ScrollKind::HoldMonster
    } else if percent <= 20 {
        ScrollKind::CreateMonster
    } else if percent <= 35 {
        ScrollKind::Identify
    } else if percent <= 43 {
        ScrollKind::Teleport
    } else if percent <= 50 {
        ScrollKind::Sleep
    } else if percent <= 55 {
        ScrollKind::ScareMonster
    } else if percent <= 64 {
        ScrollKind::RemoveCurse
    } else if percent <= 69 {
        ScrollKind::EnchArmor
    } else if percent <= 74 {
        ScrollKind::EnchWeapon
    } else if percent <= 80 {
        ScrollKind::AggravateMonster
    } else {
        ScrollKind::MagicMapping
    };
    assert(kind == spec_scroll_roll(percent as int));
    obj.which_kind = kind.to_index() as u16;
}

/// A potion kind drawn as `spec_potion_roll` says.
pub fn gr_potion_kind() -> (r: PotionKind)
    ensures
        exists|p: int| 1 <= p <= 118 && r == #[trigger] spec_potion_roll(p),
{
    let percent = get_rand(1, 118);
    let kind = if percent <= 5 {
        PotionKind::RaiseLevel
    } else if percent <= 15 {
        PotionKind::DetectObjects
    } else if percent <= 25 {
        PotionKind::DetectMonster
    } else if percent <= 35 {
        PotionKind::IncreaseStrength
    } else if percent <= 45 {
        PotionKind::RestoreStrength
    } else if percent <= 55 {
        PotionKind::Healing
    } else if percent <= 65 {
        PotionKind::ExtraHealing
    } else if percent <= 75 {
        PotionKind::Blindness
    } else if percent <= 85 {
        PotionKind::Hallucination
    } else if percent <= 95 {
        PotionKind::Confusion
    } else if percent <= 105 {
        PotionKind::Poison
    } else if percent <= 110 {
        PotionKind::Levitation
    } else if percent <= 114 {
        PotionKind::Hallucination
    } else {
        PotionKind::SeeInvisible
    };
    assert(kind == spec_potion_roll(percent as int));
    kind
}

/// Gives `obj` a potion kind drawn as `spec_potion_roll` says.
pub fn gr_potion(obj: &mut Object)
    ensures
        exists|p: int| 1 <= p <= 118 && final(obj).which_kind == spec_potion_index(#[trigger] spec_potion_roll(p)),
        *final(obj) == (Object { what_is: ObjectWhat::Potion, which_kind: final(obj).which_kind, ..*old(obj) }),
{
    obj.what_is = ObjectWhat::Potion;
    let kind = gr_potion_kind();
    obj.which_kind = kind.to_index() as u16;
}

/// Makes `obj` a weapon, of a kind drawn where `assign_wk` is set: arrows,
/// daggers, shurikens and darts come three to fifteen at a time with a
/// quiver number drawn up to 126, any other weapon singly.  A draw from 1 to
/// 96 then blesses it (16 or less) or curses it (17 to 32) by one to three
/// points, each point going to its hit or damage enchantment on a coin
/// toss.
pub fn gr_weapon(obj: &mut Object, assign_wk: bool)
    ensures
        ({
            let o = *final(obj);
            let w = *old(obj);
            &&& assign_wk ==> o.which_kind < 8
            &&& !assign_wk ==> o.which_kind == w.which_kind
            &&& spec_bunched(o.which_kind) ==> 3 <= o.quantity <= 15 && 0 <= o.quiver <= 126
            &&& !spec_bunched(o.which_kind) ==> o.quantity == 1 && o.quiver == w.quiver
            &&& spec_weapon_blessing(o.hit_enchant as int, o.d_enchant as int, o.is_cursed, w.is_cursed)
            &&& o == (Object {
                what_is: ObjectWhat::Weapon,
                which_kind: o.which_kind,
                quantity: o.quantity,
                quiver: o.quiver,
                hit_enchant: o.hit_enchant,
                d_enchant: o.d_enchant,
                is_cursed: o.is_cursed,
                ..w
            })
        }),
{
    obj.what_is = ObjectWhat::Weapon;
    if assign_wk {
        obj.which_kind = get_rand(0, 7) as u16;
    }
    let kind = obj.which_kind;
    if kind == ARROW || kind == DAGGER || kind == SHURIKEN || kind == DART {
        obj.quantity = get_rand(3, 15) as i16;
        obj.quiver = get_rand(0, 126) as i16;
    } else {
        obj.quantity = 1;
    }
    obj.hit_enchant = 0;
    obj.d_enchant = 0;
    let percent = get_rand(1, 96);
    let blessing = get_rand(1, 3);
    let mut increment: i16 = 0;
    if percent <= 16 {
        increment = 1;
    } else if percent <= 32 {
        increment = -1;
        obj.is_cursed = 1;
    }
    if percent <= 32 {
        let ghost before = *obj;
        let mut j: i64 = 0;
        while j < blessing
            invariant
                0 <= j <= blessing <= 3,
                increment == 1 || increment == -1,
                increment == 1 ==> obj.hit_enchant >= 0 && obj.d_enchant >= 0 && obj.hit_enchant + obj.d_enchant == j,
                increment == -1 ==> obj.hit_enchant <= 0 && obj.d_enchant <= 0 && obj.hit_enchant + obj.d_enchant == -j,
                *obj == (Object { hit_enchant: obj.hit_enchant, d_enchant: obj.d_enchant, ..before }),
            decreases blessing - j,
        {
            if coin_toss() {
                obj.hit_enchant = obj.hit_enchant + increment;
            } else {
                obj.d_enchant = obj.d_enchant + increment as isize;
            }
            j += 1;
        }
    }
}

/// Makes `obj` armor of a kind drawn from all seven, with its kind's armor
/// class and no protection.  A draw from 1 to 100 then curses it (16 or
/// less) with one to three points off its enchantment, or (17 to 33)
/// raises its enchantment by one to three points.
pub fn gr_armor(obj: &mut Object)
    ensures
        ({
            let o = *final(obj);
            let w = *old(obj);
            &&& o.which_kind < 7
            &&& o.class == spec_armor_class(o.which_kind)
            &&& ({
                ||| (o.is_cursed == 1 && -3 <= o.d_enchant <= -1)
                ||| (o.is_cursed == w.is_cursed && 1 <= o.d_enchant <= 3)
                ||| (o.is_cursed == w.is_cursed && o.d_enchant == 0)
            })
            &&& o == (Object {
                what_is: ObjectWhat::Armor,
                which_kind: o.which_kind,
                class: o.class,
                is_protected: 0,
                d_enchant: o.d_enchant,
                is_cursed: o.is_cursed,
                ..w
            })
        }),
{
    obj.what_is = ObjectWhat::Armor;
    obj.which_kind = get_rand(0, 6) as u16;
    obj.class = (obj.which_kind + 2) as isize;
    if obj.which_kind == PLATE || obj.which_kind == SPLINT {
        obj.class = obj.class - 1;
    }
    obj.is_protected = 0;
    obj.d_enchant = 0;
    let percent = get_rand(1, 100);
    let blessing = get_rand(1, 3) as isize;
    if percent <= 16 {
        obj.is_cursed = 1;
        obj.d_enchant = obj.d_enchant - blessing;
    } else if percent <= 33 {
        obj.raise_armor_enchant(blessing);
    }
}

/// Makes `obj` a wand of a kind drawn from all ten, with charges drawn as
/// `spec_wand_charges_ok` allows: 6 to 12 for magic missile, 5 to 9 for
/// cancellation, 3 to 6 for any other.
pub fn gr_wand(obj: &mut Object)
    ensures
        final(obj).which_kind < 10,
        spec_wand_charges_ok(final(obj).which_kind, final(obj).class),
        *final(obj) == (Object {
            what_is: ObjectWhat::Wand,
            which_kind: final(obj).which_kind,
            class: final(obj).class,
            ..*old(obj)
        }),
{
    obj.what_is = ObjectWhat::Wand;
    obj.which_kind = get_rand(0, 9) as u16;
    if obj.which_kind == MAGIC_MISSILE {
        obj.class = get_rand(6, 12) as isize;
    } else if obj.which_kind == CANCELLATION {
        obj.class = get_rand(5, 9) as isize;
    } else {
        obj.class = get_rand(3, 6) as isize;
    }
}

/// Makes `obj` food: a ration where `force_ration` is set, else a ration
/// with a chance of 80 in 100 and a fruit otherwise.
pub fn get_food(obj: &mut Object, force_ration: bool)
    ensures
        force_ration ==> final(obj).which_kind == RATION,
        final(obj).which_kind == RATION || final(obj).which_kind == FRUIT,
        *final(obj) == (Object { what_is: ObjectWhat::Food, which_kind: final(obj).which_kind, ..*old(obj) }),
{
    obj.what_is = ObjectWhat::Food;
    if force_ration || gen_ratio(80, 100) {
        obj.which_kind = RATION;
    } else {
        obj.which_kind = FRUIT;
    }
}

/// Makes `ring` a ring, of a kind drawn where `assign_wk` is set, with no
/// bonus: a ring of teleportation is cursed; one of added strength or
/// dexterity gets a bonus of -2, -1, 1 or 2, and is cursed exactly when it
/// is below 0; one of adornment is cursed on an even chance.
pub fn gr_ring(ring: &mut Object, assign_wk: bool)
    requires
        !assign_wk ==> old(ring).which_kind < 11,
    ensures
        ({
            let o = *final(ring);
            let w = *old(ring);
            &&& assign_wk ==> o.which_kind < 11
            &&& !assign_wk ==> o.which_kind == w.which_kind
            &&& o.which_kind == R_TELEPORT ==> o.class == 0 && o.is_cursed == 1
            &&& (o.which_kind == ADD_STRENGTH || o.which_kind == DEXTERITY) ==> (o.class == -2 || o.class == -1 || o.class == 1
                || o.class == 2) && o.is_cursed == (if o.class < 0 { 1i16 } else { 0i16 })
            &&& o.which_kind == ADORNMENT ==> o.class == 0 && (o.is_cursed == 0 || o.is_cursed == 1)
            &&& !(o.which_kind == R_TELEPORT || o.which_kind == ADD_STRENGTH || o.which_kind == DEXTERITY
                || o.which_kind == ADORNMENT) ==> o.class == 0 && o.is_cursed == w.is_cursed
            &&& o == (Object {
                what_is: ObjectWhat::Ring,
                which_kind: o.which_kind,
                class: o.class,
                is_cursed: o.is_cursed,
                ..w
            })
        }),
{
    ring.what_is = ObjectWhat::Ring;
    if assign_wk {
        ring.which_kind = get_rand(0, 10) as u16;
    }
    ring.class = 0;
    let kind = ring.which_kind;
    if kind == R_TELEPORT {
        ring.is_cursed = 1;
    } else if kind == ADD_STRENGTH || kind == DEXTERITY {
        let draw = get_rand(0, 3) as isize;
        ring.class = if draw < 2 { draw - 2 } else { draw - 1 };
        ring.is_cursed = if ring.class < 0 { 1 } else { 0 };
    } else if kind == ADORNMENT {
        ring.is_cursed = if gen_ratio(1, 2) { 1 } else { 0 };
    }
}

/// The number of gold pieces at depth `depth`: a draw from twice to
/// sixteen times the depth, half again as much when `boosted` (rounded
/// down), and no more than the largest count an object holds.
pub open spec fn spec_gold_ok(depth: int, boosted: bool, quantity: int) -> bool {
    exists|q: int| 2 * depth <= q <= 16 * depth && quantity == #[trigger] spec_gold_count(q, boosted)
}

/// The count of `q` pieces of gold, half again as much when `boosted`
/// (rounded down), held to the largest count an object holds.
pub open spec fn spec_gold_count(q: int, boosted: bool) -> int {
    let n = if boosted { q + q / 2 } else { q };
    if n > i16::MAX { i16::MAX as int } else { n }
}

impl Object {
    /// A blank object of class `what`, of one piece with the letter 'L'.
    pub fn new(what: ObjectWhat) -> (r: Object)
        ensures
            r == (Object {
                id: r.id,
                what_is: what,
                which_kind: 0,
                in_use_flags: NOT_USED,
                quantity: 1,
                ichar: 'L',
                is_protected: 0,
                is_cursed: 0,
                class: 0,
                identified: false,
                spot: DungeonSpot { row: 0, col: 0 },
                hit_enchant: 0,
                d_enchant: 0,
                quiver: 0,
                picked_up: 0,
            }),
    {
        let mut obj = alloc_object();
        obj.what_is = what;
        obj
    }

    /// A scroll of a kind drawn as `gr_scroll` says.
    pub fn roll_scroll() -> (r: Object)
        ensures
            r.what_is is Scroll,
            exists|p: int| 0 <= p <= 85 && r.which_kind == spec_scroll_index(#[trigger] spec_scroll_roll(p)),
    {
        let mut object = Object::new(ObjectWhat::Scroll);
        gr_scroll(&mut object);
        object
    }

    /// A potion of a kind drawn as `gr_potion` says.
    pub fn roll_potion() -> (r: Object)
        ensures
            r.what_is is Potion,
            exists|p: int| 1 <= p <= 118 && r.which_kind == spec_potion_index(#[trigger] spec_potion_roll(p)),
    {
        let mut object = Object::new(ObjectWhat::Potion);
        gr_potion(&mut object);
        object
    }

    /// A weapon rolled as `gr_weapon` says.
    pub fn roll_weapon(assign_kind: bool) -> (r: Object)
        ensures
            r.what_is is Weapon,
            assign_kind ==> r.which_kind < 8,
            !assign_kind ==> r.which_kind == 0,
            spec_bunched(r.which_kind) ==> 3 <= r.quantity <= 15 && 0 <= r.quiver <= 126,
            !spec_bunched(r.which_kind) ==> r.quantity == 1,
            spec_weapon_blessing(r.hit_enchant as int, r.d_enchant as int, r.is_cursed, 0),
    {
        let mut object = Object::new(ObjectWhat::Weapon);
        gr_weapon(&mut object, assign_kind);
        object
    }

    /// Armor rolled as `gr_armor` says.
    pub fn roll_armor() -> (r: Object)
        ensures
            r.what_is is Armor,
            r.which_kind < 7,
            r.class == spec_armor_class(r.which_kind),
            (r.is_cursed == 1 && -3 <= r.d_enchant <= -1) || (r.is_cursed == 0 && 0 <= r.d_enchant <= 3),
    {
        let mut object = Object::new(ObjectWhat::Armor);
        gr_armor(&mut object);
        object
    }

    /// A wand rolled as `gr_wand` says.
    pub fn roll_wand() -> (r: Object)
        ensures
            r.what_is is Wand,
            r.which_kind < 10,
            spec_wand_charges_ok(r.which_kind, r.class),
    {
        let mut object = Object::new(ObjectWhat::Wand);
        gr_wand(&mut object);
        object
    }

    /// Food rolled as `get_food` says.
    pub fn roll_food(force_ration: bool) -> (r: Object)
        ensures
            r.what_is is Food,
            force_ration ==> r.which_kind == RATION,
            r.which_kind == RATION || r.which_kind == FRUIT,
    {
        let mut object = Object::new(ObjectWhat::Food);
        get_food(&mut object, force_ration);
        object
    }

    /// A ring rolled as `gr_ring` says.
    pub fn roll_ring(assign_kind: bool) -> (r: Object)
        ensures
            r.what_is is Ring,
            assign_kind ==> r.which_kind < 11,
            !assign_kind ==> r.which_kind == 0,
            r.which_kind == R_TELEPORT ==> r.is_cursed == 1,
            (r.which_kind == ADD_STRENGTH || r.which_kind == DEXTERITY) ==> (r.class == -2 || r.class == -1 || r.class == 1
                || r.class == 2) && r.is_cursed == (if r.class < 0 { 1i16 } else { 0i16 }),
    {
        let mut object = Object::new(ObjectWhat::Ring);
        gr_ring(&mut object, assign_kind);
        object
    }

    /// Gold for depth `depth`, as `spec_gold_ok` says.
    pub fn roll_gold(depth: usize, boosted: bool) -> (r: Object)
        requires
            16 * depth <= usize::MAX,
        ensures
            r.what_is is Gold,
            spec_gold_ok(depth as int, boosted, r.quantity as int),
    {
        let mut object = Object::new(ObjectWhat::Gold);
        let low = 2 * depth;
        let high = 16 * depth;
        let q = get_rand_usize(low, high);
        let quantity: i16 = if boosted {
            if q > 21845 { i16::MAX } else { (q + q / 2) as i16 }
        } else {
            if q > 32767 { i16::MAX } else { q as i16 }
        };
        assert(quantity as int == spec_gold_count(q as int, boosted));
        object.quantity = quantity;
        object
    }
}

} // verus!
