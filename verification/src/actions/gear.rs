//! Putting on and taking off armor, and wielding weapons.
use vstd::prelude::*;

use crate::inventory::spec_in_use_text;
use crate::motion::{spec_texts, CANCEL_CHAR};
use crate::object_what::ObjectWhat;
use crate::objects::{Object, ObjectId, BEING_WIELDED, BEING_WORN, ON_LEFT_HAND, ON_RIGHT_HAND};

verus! {

/// What the rogue is told when a cursed object will not come off.
pub open spec fn spec_curse_message() -> Seq<char> {
    "you can't, it appears to be cursed"@
}

/// Whether `i` is the first position in `pack` of an object with letter
/// `ch`.
pub open spec fn spec_first_with_letter(pack: Seq<Object>, ch: char, i: int) -> bool {
    &&& 0 <= i < pack.len()
    &&& pack[i].ichar == ch
    &&& forall|j: int| 0 <= j < i ==> pack[j].ichar != ch
}

/// Whether `i` is the first position in `pack` of worn armor.
pub open spec fn spec_first_worn(pack: Seq<Object>, i: int) -> bool {
    &&& 0 <= i < pack.len()
    &&& pack[i].in_use_flags & BEING_WORN != 0
    &&& forall|j: int| 0 <= j < i ==> pack[j].in_use_flags & BEING_WORN == 0
}

/// Whether the rogue wears armor.
pub open spec fn spec_wears(pack: Seq<Object>) -> bool {
    exists|i: int| 0 <= i < pack.len() && #[trigger] pack[i].in_use_flags & BEING_WORN != 0
}

/// Whether the rogue wields a cursed weapon.
pub open spec fn spec_wields_cursed(pack: Seq<Object>) -> bool {
    exists|i: int| 0 <= i < pack.len() && #[trigger] pack[i].in_use_flags & BEING_WIELDED != 0 && pack[i].is_cursed != 0
}

/// The position of the first object in `pack` with letter `ch`.
fn letter_index(pack: &Vec<Object>, ch: char) -> (r: Option<usize>)
    ensures
        match r {
            Some(i) => spec_first_with_letter(pack@, ch, i as int),
            None => forall|i: int| 0 <= i < pack@.len() ==> pack@[i].ichar != ch,
        },
{
    let mut i: usize = 0;
    while i < pack.len()
        invariant
            i <= pack@.len(),
            forall|j: int| 0 <= j < i ==> pack@[j].ichar != ch,
        decreases pack@.len() - i,
    {
        if pack[i].ichar == ch {
            return Some(i);
        }
        i += 1;
    }
    None
}

/// The position of the first worn armor in `pack`.
fn worn_index(pack: &Vec<Object>) -> (r: Option<usize>)
    ensures
        match r {
            Some(i) => spec_first_worn(pack@, i as int),
            None => !spec_wears(pack@),
        },
{
    let mut i: usize = 0;
    while i < pack.len()
        invariant
            i <= pack@.len(),
            forall|j: int| 0 <= j < i ==> pack@[j].in_use_flags & BEING_WORN == 0,
        decreases pack@.len() - i,
    {
        if pack[i].is_being_worn() {
            return Some(i);
        }
        i += 1;
    }
    None
}

/// Whether the rogue wields a cursed weapon.
pub fn wields_cursed_weapon(pack: &Vec<Object>) -> (r: bool)
    ensures
        r == spec_wields_cursed(pack@),
{
    let mut i: usize = 0;
    while i < pack.len()
        invariant
            i <= pack@.len(),
            forall|j: int| 0 <= j < i ==> !(pack@[j].in_use_flags & BEING_WIELDED != 0 && pack@[j].is_cursed != 0),
        decreases pack@.len() - i,
    {
        if pack[i].is_being_wielded() && pack[i].is_cursed() {
            return true;
        }
        i += 1;
    }
    false
}

/// Pushes `text` onto `messages`.
fn say(messages: &mut Vec<String>, text: &str)
    ensures
        spec_texts(final(messages)@) == spec_texts(old(messages)@).push(text@),
{
    let ghost before = spec_texts(messages@);
    messages.push(text.to_string());
    assert(spec_texts(messages@) =~= before.push(text@));
}

/// Whether the rogue may choose armor to wear: not while it wears some,
/// which it is told ("your already wearing some").
pub fn start_wear(pack: &Vec<Object>, messages: &mut Vec<String>) -> (r: bool)
    ensures
        r == !spec_wears(pack@),
        r ==> final(messages)@ == old(messages)@,
        !r ==> spec_texts(final(messages)@) == spec_texts(old(messages)@).push("your already wearing some"@),
{
    if worn_index(pack).is_some() {
        say(messages, "your already wearing some");
        false
    } else {
        true
    }
}

/// Puts on the armor with letter `ch`: nothing on the cancel key; "no such
/// item." where no object has the letter; "you can't wear that" for an
/// object that is not armor.  Otherwise the armor becomes known and worn,
/// and its id is returned for the game to say "wearing" and its
/// description, show the stats again and end the turn.
pub fn wear(ch: char, pack: &mut Vec<Object>, messages: &mut Vec<String>) -> (r: Option<ObjectId>)
    ensures
        ch == CANCEL_CHAR ==> r is None && final(pack)@ == old(pack)@ && final(messages)@ == old(messages)@,
        ch != CANCEL_CHAR && (forall|i: int| 0 <= i < old(pack)@.len() ==> old(pack)@[i].ichar != ch) ==> r is None
            && final(pack)@ == old(pack)@
            && spec_texts(final(messages)@) == spec_texts(old(messages)@).push("no such item."@),
        ch != CANCEL_CHAR ==> forall|i: int| #[trigger] spec_first_with_letter(old(pack)@, ch, i) ==> {
            let o = old(pack)@[i];
            if !(o.what_is is Armor) {
                &&& r is None
                &&& final(pack)@ == old(pack)@
                &&& spec_texts(final(messages)@) == spec_texts(old(messages)@).push("you can't wear that"@)
            } else {
                &&& r == Some(o.id)
                &&& final(pack)@ == old(pack)@.update(i, Object { identified: true, in_use_flags: o.in_use_flags | BEING_WORN, ..o })
                &&& final(messages)@ == old(messages)@
            }
        },
{
    if ch == CANCEL_CHAR {
        return None;
    }
    match letter_index(pack, ch) {
        None => {
            say(messages, "no such item.");
            None
        },
        Some(i) => {
            if pack[i].what_is != ObjectWhat::Armor {
                say(messages, "you can't wear that");
                return None;
            }
            let mut obj = pack[i];
            obj.identified = true;
            obj.in_use_flags = obj.in_use_flags | BEING_WORN;
            pack.set(i, obj);
            Some(obj.id)
        },
    }
}

/// Whether the rogue may take off its armor: not when it wears none ("not
/// wearing any"), nor when the armor is cursed, which it is told.  Returns
/// the position of the armor that may come off.
pub fn take_off_check(pack: &Vec<Object>, messages: &mut Vec<String>) -> (r: Option<usize>)
    ensures
        !spec_wears(pack@) ==> r is None && spec_texts(final(messages)@) == spec_texts(old(messages)@).push("not wearing any"@),
        forall|i: int| #[trigger] spec_first_worn(pack@, i) ==> if pack@[i].is_cursed != 0 {
            r is None && spec_texts(final(messages)@) == spec_texts(old(messages)@).push(spec_curse_message())
        } else {
            r == Some(i as usize) && final(messages)@ == old(messages)@
        },
{
    match worn_index(pack) {
        None => {
            say(messages, "not wearing any");
            None
        },
        Some(i) => {
            if pack[i].is_cursed() {
                say(messages, "you can't, it appears to be cursed");
                None
            } else {
                Some(i)
            }
        },
    }
}

/// Takes off the armor at position `i`: it is no longer worn.  Returns its
/// id, for the game to say "was wearing" and its description, show the
/// stats again and end the turn.
pub fn unwear(i: usize, pack: &mut Vec<Object>) -> (r: ObjectId)
    requires
        i < old(pack)@.len(),
    ensures
        r == old(pack)@[i as int].id,
        final(pack)@ == old(pack)@.update(i as int, Object {
            in_use_flags: old(pack)@[i as int].in_use_flags & !BEING_WORN,
            ..old(pack)@[i as int]
        }),
{
    let mut obj = pack[i];
    obj.in_use_flags = obj.in_use_flags & !BEING_WORN;
    pack.set(i, obj);
    obj.id
}

/// Whether the rogue may choose a weapon to wield: not while it wields a
/// cursed one, which it is told.
pub fn start_wield(pack: &Vec<Object>, messages: &mut Vec<String>) -> (r: bool)
    ensures
        r == !spec_wields_cursed(pack@),
        r ==> final(messages)@ == old(messages)@,
        !r ==> spec_texts(final(messages)@) == spec_texts(old(messages)@).push(spec_curse_message()),
{
    if wields_cursed_weapon(pack) {
        say(messages, "you can't, it appears to be cursed");
        false
    } else {
        true
    }
}

/// The pack once the object at `i` is wielded: every other object is no
/// longer wielded.
pub open spec fn spec_wielding(pack: Seq<Object>, i: int) -> Seq<Object> {
    Seq::new(pack.len(), |j: int| if j == i {
        Object { in_use_flags: pack[j].in_use_flags | BEING_WIELDED, ..pack[j] }
    } else {
        Object { in_use_flags: pack[j].in_use_flags & !BEING_WIELDED, ..pack[j] }
    })
}

/// Wields the object with letter `ch`: nothing on the cancel key; "No such
/// item." where no object has the letter; "you can't wield armor" or "you
/// can't wield rings" for those; "in use" for the weapon already wielded.
/// Otherwise the weapon wielded before is put away, this object is
/// wielded, and its id is returned for the game to say "wielding" and its
/// description and end the turn.
pub fn wield(ch: char, pack: &mut Vec<Object>, messages: &mut Vec<String>) -> (r: Option<ObjectId>)
    ensures
        ch == CANCEL_CHAR ==> r is None && final(pack)@ == old(pack)@ && final(messages)@ == old(messages)@,
        ch != CANCEL_CHAR && (forall|i: int| 0 <= i < old(pack)@.len() ==> old(pack)@[i].ichar != ch) ==> r is None
            && final(pack)@ == old(pack)@
            && spec_texts(final(messages)@) == spec_texts(old(messages)@).push("No such item."@),
        ch != CANCEL_CHAR ==> forall|i: int| #[trigger] spec_first_with_letter(old(pack)@, ch, i) ==> {
            let o = old(pack)@[i];
            if o.what_is is Armor || o.what_is is Ring {
                &&& r is None
                &&& final(pack)@ == old(pack)@
                &&& spec_texts(final(messages)@) == spec_texts(old(messages)@).push(
                    if o.what_is is Armor { "you can't wield armor"@ } else { "you can't wield rings"@ },
                )
            } else if o.in_use_flags & BEING_WIELDED != 0 {
                &&& r is None
                &&& final(pack)@ == old(pack)@
                &&& spec_texts(final(messages)@) == spec_texts(old(messages)@).push("in use"@)
            } else {
                &&& r == Some(o.id)
                &&& final(pack)@ == spec_wielding(old(pack)@, i)
                &&& final(messages)@ == old(messages)@
            }
        },
{
    if ch == CANCEL_CHAR {
        return None;
    }
    match letter_index(pack, ch) {
        None => {
            say(messages, "No such item.");
            None
        },
        Some(i) => {
            if pack[i].what_is == ObjectWhat::Armor {
                say(messages, "you can't wield armor");
                return None;
            }
            if pack[i].what_is == ObjectWhat::Ring {
                say(messages, "you can't wield rings");
                return None;
            }
            if pack[i].is_being_wielded() {
                say(messages, "in use");
                return None;
            }
            let ghost before = pack@;
            let mut j: usize = 0;
            while j < pack.len()
                invariant
                    pack@.len() == before.len(),
                    i < before.len(),
                    j <= before.len(),
                    forall|k: int| 0 <= k < j ==> #[trigger] pack@[k] == (if k == i {
                        Object { in_use_flags: before[k].in_use_flags | BEING_WIELDED, ..before[k] }
                    } else {
                        Object { in_use_flags: before[k].in_use_flags & !BEING_WIELDED, ..before[k] }
                    }),
                    forall|k: int| j <= k < before.len() ==> #[trigger] pack@[k] == before[k],
                decreases before.len() - j,
            {
                let mut obj = pack[j];
                if j == i {
                    obj.in_use_flags = obj.in_use_flags | BEING_WIELDED;
                } else {
                    obj.in_use_flags = obj.in_use_flags & !BEING_WIELDED;
                }
                pack.set(j, obj);
                j += 1;
            }
            assert(pack@ =~= spec_wielding(before, i as int));
            Some(pack[i].id)
        },
    }
}

/// A hand of the rogue.
#[derive(Debug, Copy, Clone, Eq, PartialEq, Structural)]
pub enum PlayerHand {
    Left,
    Right,
}

/// Which hands wear a ring.
#[derive(Debug, Copy, Clone, Eq, PartialEq, Structural)]
pub enum HandUsage {
    Neither,
    Left,
    Right,
    Both,
}

/// The flag of a ring on `hand`.
pub open spec fn spec_hand_flag(hand: PlayerHand) -> u16 {
    match hand {
        PlayerHand::Left => ON_LEFT_HAND,
        PlayerHand::Right => ON_RIGHT_HAND,
    }
}

/// Whether some ring in `pack` is on `hand`.
pub open spec fn spec_hand_used(pack: Seq<Object>, hand: PlayerHand) -> bool {
    exists|i: int| 0 <= i < pack.len() && #[trigger] pack[i].in_use_flags & spec_hand_flag(hand) != 0
}

/// Whether `i` is the first position in `pack` of a ring on `hand`.
pub open spec fn spec_first_on_hand(pack: Seq<Object>, hand: PlayerHand, i: int) -> bool {
    &&& 0 <= i < pack.len()
    &&& pack[i].in_use_flags & spec_hand_flag(hand) != 0
    &&& forall|j: int| 0 <= j < i ==> pack[j].in_use_flags & spec_hand_flag(hand) == 0
}

/// Which hands wear a ring, by the rings in `pack`.
pub open spec fn spec_hand_usage(pack: Seq<Object>) -> HandUsage {
    let left = spec_hand_used(pack, PlayerHand::Left);
    let right = spec_hand_used(pack, PlayerHand::Right);
    if left && right {
        HandUsage::Both
    } else if left {
        HandUsage::Left
    } else if right {
        HandUsage::Right
    } else {
        HandUsage::Neither
    }
}

/// The flag of a ring on `hand`.
fn hand_flag(hand: PlayerHand) -> (r: u16)
    ensures
        r == spec_hand_flag(hand),
{
    match hand {
        PlayerHand::Left => ON_LEFT_HAND,
        PlayerHand::Right => ON_RIGHT_HAND,
    }
}

/// The position of the first ring in `pack` on `hand`.
pub fn ring_on_hand(pack: &Vec<Object>, hand: PlayerHand) -> (r: Option<usize>)
    ensures
        match r {
            Some(i) => spec_first_on_hand(pack@, hand, i as int),
            None => !spec_hand_used(pack@, hand),
        },
{
    let flag = hand_flag(hand);
    let mut i: usize = 0;
    while i < pack.len()
        invariant
            i <= pack@.len(),
            flag == spec_hand_flag(hand),
            forall|j: int| 0 <= j < i ==> pack@[j].in_use_flags & flag == 0,
        decreases pack@.len() - i,
    {
        if pack[i].in_use_flags & flag != 0 {
            return Some(i);
        }
        i += 1;
    }
    None
}

/// Which hands wear a ring.
pub fn hand_usage(pack: &Vec<Object>) -> (r: HandUsage)
    ensures
        r == spec_hand_usage(pack@),
{
    let left = ring_on_hand(pack, PlayerHand::Left).is_some();
    let right = ring_on_hand(pack, PlayerHand::Right).is_some();
    if left && right {
        HandUsage::Both
    } else if left {
        HandUsage::Left
    } else if right {
        HandUsage::Right
    } else {
        HandUsage::Neither
    }
}

/// Whether the rogue may choose a ring to put on: not with a ring on both
/// hands ("wearing two rings already").
pub fn start_put_on_ring(pack: &Vec<Object>, messages: &mut Vec<String>) -> (r: bool)
    ensures
        r == !(spec_hand_usage(pack@) is Both),
        r ==> final(messages)@ == old(messages)@,
        !r ==> spec_texts(final(messages)@) == spec_texts(old(messages)@).push("wearing two rings already"@),
{
    if hand_usage(pack) == HandUsage::Both {
        say(messages, "wearing two rings already");
        false
    } else {
        true
    }
}

/// The ring with letter `ch` to put on: none on the cancel key; "no such
/// item." where no object has the letter; "that's not a ring", or "that
/// ring is already being worn".  Returns its position otherwise.
pub fn choose_ring(ch: char, pack: &Vec<Object>, messages: &mut Vec<String>) -> (r: Option<usize>)
    ensures
        ch == CANCEL_CHAR ==> r is None && final(messages)@ == old(messages)@,
        ch != CANCEL_CHAR && (forall|i: int| 0 <= i < pack@.len() ==> pack@[i].ichar != ch) ==> r is None
            && spec_texts(final(messages)@) == spec_texts(old(messages)@).push("no such item."@),
        ch != CANCEL_CHAR ==> forall|i: int| #[trigger] spec_first_with_letter(pack@, ch, i) ==> {
            let o = pack@[i];
            if !(o.what_is is Ring) {
                r is None && spec_texts(final(messages)@) == spec_texts(old(messages)@).push("that's not a ring"@)
            } else if o.in_use_flags & (ON_LEFT_HAND | ON_RIGHT_HAND) != 0 {
                r is None && spec_texts(final(messages)@) == spec_texts(old(messages)@).push("that ring is already being worn"@)
            } else {
                r == Some(i as usize) && final(messages)@ == old(messages)@
            }
        },
{
    if ch == CANCEL_CHAR {
        return None;
    }
    match letter_index(pack, ch) {
        None => {
            say(messages, "no such item.");
            None
        },
        Some(i) => {
            if pack[i].what_is != ObjectWhat::Ring {
                say(messages, "that's not a ring");
                None
            } else if pack[i].in_use_flags & (ON_LEFT_HAND | ON_RIGHT_HAND) != 0 {
                say(messages, "that ring is already being worn");
                None
            } else {
                Some(i)
            }
        },
    }
}

/// The hand a ring goes on when one hand already wears one: the other; with
/// both hands free the player chooses (`None`).
pub fn free_hand(usage: HandUsage) -> (r: Option<PlayerHand>)
    requires
        !(usage is Both),
    ensures
        r == (match usage {
            HandUsage::Left => Some(PlayerHand::Right),
            HandUsage::Right => Some(PlayerHand::Left),
            _ => None,
        }),
{
    match usage {
        HandUsage::Left => Some(PlayerHand::Right),
        HandUsage::Right => Some(PlayerHand::Left),
        _ => None,
    }
}

/// Puts the ring at position `i` on `hand`: "there's already a ring on that
/// hand" where one is; otherwise the ring is on that hand, and its id is
/// returned for the game to work out the rings' effects, describe it and
/// end the turn.
pub fn put_ring(i: usize, hand: PlayerHand, pack: &mut Vec<Object>, messages: &mut Vec<String>) -> (r: Option<ObjectId>)
    requires
        i < old(pack)@.len(),
    ensures
        spec_hand_used(old(pack)@, hand) ==> r is None && final(pack)@ == old(pack)@
            && spec_texts(final(messages)@) == spec_texts(old(messages)@).push("there's already a ring on that hand"@),
        !spec_hand_used(old(pack)@, hand) ==> r == Some(old(pack)@[i as int].id) && final(messages)@ == old(messages)@
            && final(pack)@ == old(pack)@.update(i as int, Object {
                in_use_flags: old(pack)@[i as int].in_use_flags | spec_hand_flag(hand),
                ..old(pack)@[i as int]
            }),
{
    if ring_on_hand(pack, hand).is_some() {
        say(messages, "there's already a ring on that hand");
        return None;
    }
    let mut obj = pack[i];
    obj.in_use_flags = obj.in_use_flags | hand_flag(hand);
    pack.set(i, obj);
    Some(obj.id)
}

/// Takes the ring off `hand`: "there's no ring on that hand" where none
/// is; a cursed ring stays, which the rogue is told.  Otherwise the ring
/// leaves the hand, and its id is returned for the game to say "removed"
/// and its description, work out the rings' effects and end the turn.
pub fn remove_ring(hand: PlayerHand, pack: &mut Vec<Object>, messages: &mut Vec<String>) -> (r: Option<ObjectId>)
    ensures
        !spec_hand_used(old(pack)@, hand) ==> r is None && final(pack)@ == old(pack)@
            && spec_texts(final(messages)@) == spec_texts(old(messages)@).push("there's no ring on that hand"@),
        forall|i: int| #[trigger] spec_first_on_hand(old(pack)@, hand, i) ==> if old(pack)@[i].is_cursed != 0 {
            r is None && final(pack)@ == old(pack)@
                && spec_texts(final(messages)@) == spec_texts(old(messages)@).push(spec_curse_message())
        } else {
            &&& r == Some(old(pack)@[i].id)
            &&& final(messages)@ == old(messages)@
            &&& final(pack)@ == old(pack)@.update(i, Object {
                in_use_flags: old(pack)@[i].in_use_flags & !spec_hand_flag(hand),
                ..old(pack)@[i]
            })
        },
{
    match ring_on_hand(pack, hand) {
        None => {
            say(messages, "there's no ring on that hand");
            None
        },
        Some(i) => {
            if pack[i].is_cursed() {
                say(messages, "you can't, it appears to be cursed");
                return None;
            }
            let mut obj = pack[i];
            obj.in_use_flags = obj.in_use_flags & !hand_flag(hand);
            pack.set(i, obj);
            Some(obj.id)
        },
    }
}

/// Whether `i` is the first position in `pack` of the wielded weapon.
pub open spec fn spec_first_wielded(pack: Seq<Object>, i: int) -> bool {
    &&& 0 <= i < pack.len()
    &&& pack[i].in_use_flags & BEING_WIELDED != 0
    &&& forall|j: int| 0 <= j < i ==> pack[j].in_use_flags & BEING_WIELDED == 0
}

/// Whether the rogue wields a weapon.
pub open spec fn spec_wields(pack: Seq<Object>) -> bool {
    exists|i: int| 0 <= i < pack.len() && #[trigger] pack[i].in_use_flags & BEING_WIELDED != 0
}

/// The position of the first wielded weapon in `pack`.
fn wielded_index(pack: &Vec<Object>) -> (r: Option<usize>)
    ensures
        match r {
            Some(i) => spec_first_wielded(pack@, i as int),
            None => !spec_wields(pack@),
        },
{
    let mut i: usize = 0;
    while i < pack.len()
        invariant
            i <= pack@.len(),
            forall|j: int| 0 <= j < i ==> pack@[j].in_use_flags & BEING_WIELDED == 0,
        decreases pack@.len() - i,
    {
        if pack[i].is_being_wielded() {
            return Some(i);
        }
        i += 1;
    }
    None
}

/// The letter of the wielded weapon (`is_weapon`) or of the worn armor, for
/// the game to show that one item of the pack; where there is none the
/// rogue is told "not wielding anything" or "not wearing anything".
pub fn inv_armor_weapon(is_weapon: bool, pack: &Vec<Object>, messages: &mut Vec<String>) -> (r: Option<char>)
    ensures
        is_weapon && !spec_wields(pack@) ==> r is None
            && spec_texts(final(messages)@) == spec_texts(old(messages)@).push("not wielding anything"@),
        is_weapon ==> forall|i: int| #[trigger] spec_first_wielded(pack@, i) ==> r == Some(pack@[i].ichar)
            && final(messages)@ == old(messages)@,
        !is_weapon && !spec_wears(pack@) ==> r is None
            && spec_texts(final(messages)@) == spec_texts(old(messages)@).push("not wearing anything"@),
        !is_weapon ==> forall|i: int| #[trigger] spec_first_worn(pack@, i) ==> r == Some(pack@[i].ichar)
            && final(messages)@ == old(messages)@,
{
    if is_weapon {
        match wielded_index(pack) {
            Some(i) => Some(pack[i].ichar),
            None => {
                say(messages, "not wielding anything");
                None
            },
        }
    } else {
        match worn_index(pack) {
            Some(i) => Some(pack[i].ichar),
            None => {
                say(messages, "not wearing anything");
                None
            },
        }
    }
}

/// The rings worn, left hand first, for the game to describe each; with
/// none the rogue is told "not wearing any rings".
pub fn inv_rings(pack: &Vec<Object>, messages: &mut Vec<String>) -> (r: Vec<ObjectId>)
    ensures
        spec_hand_usage(pack@) is Neither ==> r@.len() == 0
            && spec_texts(final(messages)@) == spec_texts(old(messages)@).push("not wearing any rings"@),
        !(spec_hand_usage(pack@) is Neither) ==> final(messages)@ == old(messages)@,
        forall|i: int, j: int| #[trigger] spec_first_on_hand(pack@, PlayerHand::Left, i)
            && #[trigger] spec_first_on_hand(pack@, PlayerHand::Right, j) ==> r@ == seq![pack@[i].id, pack@[j].id],
        forall|i: int| #[trigger] spec_first_on_hand(pack@, PlayerHand::Left, i) && !spec_hand_used(pack@, PlayerHand::Right)
            ==> r@ == seq![pack@[i].id],
        forall|j: int| #[trigger] spec_first_on_hand(pack@, PlayerHand::Right, j) && !spec_hand_used(pack@, PlayerHand::Left)
            ==> r@ == seq![pack@[j].id],
{
    let mut ids: Vec<ObjectId> = Vec::new();
    let left = ring_on_hand(pack, PlayerHand::Left);
    let right = ring_on_hand(pack, PlayerHand::Right);
    if left.is_none() && right.is_none() {
        say(messages, "not wearing any rings");
        return ids;
    }
    if let Some(i) = left {
        ids.push(pack[i].id);
    }
    if let Some(j) = right {
        ids.push(pack[j].id);
    }
    proof {
        assert forall|i: int, j: int| #[trigger] spec_first_on_hand(pack@, PlayerHand::Left, i)
            && #[trigger] spec_first_on_hand(pack@, PlayerHand::Right, j) implies ids@ == seq![pack@[i].id, pack@[j].id] by {
            lemma_first_on_hand_unique(pack@, PlayerHand::Left, i, left.unwrap() as int);
            lemma_first_on_hand_unique(pack@, PlayerHand::Right, j, right.unwrap() as int);
            assert(ids@ =~= seq![pack@[i].id, pack@[j].id]);
        }
        assert forall|i: int| #[trigger] spec_first_on_hand(pack@, PlayerHand::Left, i) && !spec_hand_used(pack@, PlayerHand::Right)
            implies ids@ == seq![pack@[i].id] by {
            lemma_first_on_hand_unique(pack@, PlayerHand::Left, i, left.unwrap() as int);
            assert(ids@ =~= seq![pack@[i].id]);
        }
        assert forall|j: int| #[trigger] spec_first_on_hand(pack@, PlayerHand::Right, j) && !spec_hand_used(pack@, PlayerHand::Left)
            implies ids@ == seq![pack@[j].id] by {
            lemma_first_on_hand_unique(pack@, PlayerHand::Right, j, right.unwrap() as int);
            assert(ids@ =~= seq![pack@[j].id]);
        }
    }
    ids
}

/// Only one position is the first of a ring on a hand.
proof fn lemma_first_on_hand_unique(pack: Seq<Object>, hand: PlayerHand, i: int, j: int)
    requires
        spec_first_on_hand(pack, hand, i),
        spec_first_on_hand(pack, hand, j),
    ensures
        i == j,
{
    if i < j {
        assert(pack[i].in_use_flags & spec_hand_flag(hand) == 0);
    } else if j < i {
        assert(pack[j].in_use_flags & spec_hand_flag(hand) == 0);
    }
}

/// A ring that was in no use reads, once put on a hand by `put_ring`, as
/// being on that hand: "on left hand" for the left, "on right hand" for
/// the right; once taken off by `remove_ring`, it reads as in no use again.
pub proof fn lemma_ring_hand_told(ring: Object, hand: PlayerHand)
    requires
        ring.in_use_flags == 0,
    ensures
        spec_in_use_text(Object { in_use_flags: ring.in_use_flags | spec_hand_flag(hand), ..ring }) == (match hand {
            PlayerHand::Left => "on left hand"@,
            PlayerHand::Right => "on right hand"@,
        }),
        spec_in_use_text(Object {
            in_use_flags: (ring.in_use_flags | spec_hand_flag(hand)) & !spec_hand_flag(hand),
            ..ring
        }) == ""@,
{
    let f = ring.in_use_flags;
    assert(f == 0);
    assert((0u16 | 4u16) & 1u16 == 0 && (0u16 | 4u16) & 2u16 == 0 && (0u16 | 4u16) & 4u16 != 0) by (bit_vector);
    assert((0u16 | 8u16) & 1u16 == 0 && (0u16 | 8u16) & 2u16 == 0 && (0u16 | 8u16) & 4u16 == 0
        && (0u16 | 8u16) & 8u16 != 0) by (bit_vector);
    assert(((0u16 | 4u16) & !4u16) == 0 && ((0u16 | 8u16) & !8u16) == 0) by (bit_vector);
    assert((0u16 & 1u16) == 0 && (0u16 & 2u16) == 0 && (0u16 & 4u16) == 0 && (0u16 & 8u16) == 0) by (bit_vector);
}

} // verus!
