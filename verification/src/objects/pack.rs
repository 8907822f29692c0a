//! The rogue's pack and the names the rogue gives its objects.
use vstd::prelude::*;

use crate::object_what::ObjectWhat;
use crate::objects::note_tables::NoteTables;
use crate::objects::{spec_title_text, spec_weapon_kind, Object, ObjectId, RATION};

verus! {

/// The id of the first object in `pack` with letter `ch`.
pub fn object_id_with_letter(pack: &Vec<Object>, ch: char) -> (r: Option<ObjectId>)
    ensures
        match r {
            Some(id) => exists|i: int|
                0 <= i < pack@.len() && pack@[i].ichar == ch && pack@[i].id == id && forall|j: int|
                    0 <= j < i ==> pack@[j].ichar != ch,
            None => forall|i: int| 0 <= i < pack@.len() ==> pack@[i].ichar != ch,
        },
{
    let mut i: usize = 0;
    while i < pack.len()
        invariant
            i <= pack@.len(),
            forall|j: int| 0 <= j < i ==> pack@[j].ichar != ch,
        decreases pack@.len() - i,
    {
        if pack[i].ichar == ch {
            return Some(pack[i].id);
        }
        i += 1;
    }
    None
}

/// The position in `pack` of the first object with id `id`.
pub fn pack_index(pack: &Vec<Object>, id: ObjectId) -> (r: Option<usize>)
    ensures
        match r {
            Some(i) => i < pack@.len() && pack@[i as int].id == id && forall|j: int| 0 <= j < i ==> pack@[j].id != id,
            None => forall|i: int| 0 <= i < pack@.len() ==> pack@[i].id != id,
        },
{
    let mut i: usize = 0;
    while i < pack.len()
        invariant
            i <= pack@.len(),
            forall|j: int| 0 <= j < i ==> pack@[j].id != id,
        decreases pack@.len() - i,
    {
        if pack[i].id.0 == id.0 {
            return Some(i);
        }
        i += 1;
    }
    None
}

/// The kind of the object with id `id` in `pack`, or 0 where there is none.
pub fn object_kind(pack: &Vec<Object>, id: ObjectId) -> (r: u16)
    ensures
        (forall|i: int| 0 <= i < pack@.len() ==> pack@[i].id != id) ==> r == 0,
        (exists|i: int| 0 <= i < pack@.len() && pack@[i].id == id) ==> exists|i: int|
            0 <= i < pack@.len() && pack@[i].id == id && r == pack@[i].which_kind,
{
    match pack_index(pack, id) {
        Some(i) => pack[i].which_kind,
        None => 0,
    }
}

/// What the rogue calls an object of its kind, without its number: armor,
/// the plural for more than one of the thrown weapons, scrolls and potions,
/// the title of other weapons, food or the fruit's name, a staff for a
/// wooden wand, and so on.
pub open spec fn spec_name_of(obj: Object, fruit: Seq<char>, notes: NoteTables) -> Seq<char> {
    let many = obj.quantity > 1;
    match obj.what_is {
        ObjectWhat::Armor => "armor "@,
        ObjectWhat::Weapon => if obj.which_kind == 1 {
            if many { "darts "@ } else { "dart "@ }
        } else if obj.which_kind == 2 {
            if many { "arrows "@ } else { "arrow "@ }
        } else if obj.which_kind == 3 {
            if many { "daggers "@ } else { "dagger "@ }
        } else if obj.which_kind == 4 {
            if many { "shurikens "@ } else { "shuriken "@ }
        } else {
            spec_title_text(notes.spec_table(ObjectWhat::Weapon)[obj.which_kind as int].title)
        },
        ObjectWhat::Scroll => if many { "scrolls "@ } else { "scroll "@ },
        ObjectWhat::Potion => if many { "potions "@ } else { "potion "@ },
        ObjectWhat::Food => if obj.which_kind == RATION { "food "@ } else { fruit },
        ObjectWhat::Wand => if notes.spec_table(ObjectWhat::Wand)[obj.which_kind as int].is_wood {
            "staff "@
        } else {
            "wand "@
        },
        ObjectWhat::Ring => "ring "@,
        ObjectWhat::Amulet => "amulet "@,
        _ => "unknown "@,
    }
}

/// What the rogue calls an object of its kind.
pub fn name_of(obj: &Object, fruit: String, notes: &NoteTables) -> (r: String)
    requires
        notes.wf(),
        obj.what_is is Weapon ==> obj.which_kind < 8,
        obj.what_is is Wand ==> obj.which_kind < 10,
    ensures
        r@ == spec_name_of(*obj, fruit@, *notes),
{
    let many = obj.quantity > 1;
    match obj.what_is {
        ObjectWhat::Armor => "armor ".to_string(),
        ObjectWhat::Weapon => {
            let kind = obj.which_kind;
            if kind == 1 {
                if many { "darts ".to_string() } else { "dart ".to_string() }
            } else if kind == 2 {
                if many { "arrows ".to_string() } else { "arrow ".to_string() }
            } else if kind == 3 {
                if many { "daggers ".to_string() } else { "dagger ".to_string() }
            } else if kind == 4 {
                if many { "shurikens ".to_string() } else { "shuriken ".to_string() }
            } else {
                notes.title(ObjectWhat::Weapon, kind as usize).to_string()
            }
        },
        ObjectWhat::Scroll => if many { "scrolls ".to_string() } else { "scroll ".to_string() },
        ObjectWhat::Potion => if many { "potions ".to_string() } else { "potion ".to_string() },
        ObjectWhat::Food => if obj.which_kind == RATION { "food ".to_string() } else { fruit },
        ObjectWhat::Wand => {
            let is_wood = notes.note(ObjectWhat::Wand, obj.which_kind as usize).is_wood;
            if is_wood { "staff ".to_string() } else { "wand ".to_string() }
        },
        ObjectWhat::Ring => "ring ".to_string(),
        ObjectWhat::Amulet => "amulet ".to_string(),
        _ => "unknown ".to_string(),
    }
}

/// The most objects the rogue's pack holds.
pub const MAX_PACK_COUNT: i128 = 24;

/// How much of the pack's room `pack` takes: a weapon (or a bunch of them)
/// counts once, anything else by its quantity.
pub open spec fn spec_pack_weight(pack: Seq<Object>) -> int
    decreases pack.len(),
{
    if pack.len() == 0 {
        0
    } else {
        spec_pack_weight(pack.drop_last()) + if pack.last().what_is is Weapon { 1int } else { pack.last().quantity as int }
    }
}

/// How much of the pack's room `pack` takes, as `spec_pack_weight` says.
pub fn pack_weight(pack: &Vec<Object>) -> (r: i128)
    ensures
        r == spec_pack_weight(pack@),
{
    let mut total: i128 = 0;
    let mut i: usize = 0;
    while i < pack.len()
        invariant
            i <= pack@.len(),
            total == spec_pack_weight(pack@.take(i as int)),
            -(i as int) * 32768 <= total <= (i as int) * 32767,
        decreases pack@.len() - i,
    {
        let ghost next = pack@.take(i + 1);
        assert(next.drop_last() == pack@.take(i as int));
        assert(next.last() == pack@[i as int]);
        let w: i128 = if pack[i].what_is == ObjectWhat::Weapon { 1 } else { pack[i].quantity as i128 };
        assert(-(i as int) * 32768 - 32768 == -((i + 1) as int) * 32768) by (nonlinear_arith);
        assert((i as int) * 32767 + 32767 == ((i + 1) as int) * 32767) by (nonlinear_arith);
        total = total + w;
        i += 1;
    }
    assert(pack@.take(pack@.len() as int) == pack@);
    total
}

/// The letters of the pack, in order.
pub open spec fn spec_letters() -> Seq<char> {
    seq!['a', 'b', 'c', 'd', 'e', 'f', 'g', 'h', 'i', 'j', 'k', 'l', 'm', 'n', 'o', 'p', 'q', 'r', 's', 't', 'u', 'v',
        'w', 'x', 'y', 'z']
}

/// Whether some object of `pack` has the letter `c`.
pub open spec fn spec_letter_used(pack: Seq<Object>, c: char) -> bool {
    exists|i: int| 0 <= i < pack.len() && #[trigger] pack[i].ichar == c
}

/// Whether `c` is the letter a new object of `pack` gets: the first letter
/// no object has, or '?' when every letter is taken.
pub open spec fn spec_is_next_ichar(pack: Seq<Object>, c: char) -> bool {
    ||| exists|k: int| 0 <= k < 26 && c == #[trigger] spec_letters()[k] && !spec_letter_used(pack, c)
        && forall|j: int| 0 <= j < k ==> spec_letter_used(pack, #[trigger] spec_letters()[j])
    ||| c == '?' && forall|k: int| 0 <= k < 26 ==> spec_letter_used(pack, #[trigger] spec_letters()[k])
}

/// The letter a new object of `pack` gets, as `spec_is_next_ichar` says.
pub fn next_avail_ichar(pack: &Vec<Object>) -> (r: char)
    ensures
        spec_is_next_ichar(pack@, r),
{
    let letters: [char; 26] = ['a', 'b', 'c', 'd', 'e', 'f', 'g', 'h', 'i', 'j', 'k', 'l', 'm', 'n', 'o', 'p', 'q', 'r', 's',
        't', 'u', 'v', 'w', 'x', 'y', 'z'];
    assert(letters@ == spec_letters());
    let mut k: usize = 0;
    while k < 26
        invariant
            k <= 26,
            letters@ == spec_letters(),
            forall|j: int| 0 <= j < k ==> spec_letter_used(pack@, #[trigger] spec_letters()[j]),
        decreases 26 - k,
    {
        let c = letters[k];
        if object_id_with_letter(pack, c).is_none() {
            assert(!spec_letter_used(pack@, c));
            return c;
        }
        k += 1;
    }
    '?'
}

/// Whether `obj` joins the pack object `e` when added: weapons, food,
/// scrolls and potions of the same class and kind, weapons only when they
/// come in bunches and share the quiver number.
pub open spec fn spec_joins(obj: Object, e: Object) -> bool {
    &&& (obj.what_is is Weapon || obj.what_is is Food || obj.what_is is Scroll || obj.what_is is Potion)
    &&& obj.what_is == e.what_is
    &&& obj.which_kind == e.which_kind
    &&& (!(obj.what_is is Weapon) || ((match spec_weapon_kind(obj) {
        Some(k) => k is Arrow || k is Dart || k is Dagger || k is Shuriken,
        None => false,
    }) && obj.quiver == e.quiver))
}

/// Whether `after` is `pack` once `obj` is added: joined to the first
/// object it joins, its quantity added, or else put at the end under the
/// next free letter.
pub open spec fn spec_added_to_pack(pack: Seq<Object>, obj: Object, after: Seq<Object>) -> bool {
    ||| exists|j: int| 0 <= j < pack.len() && #[trigger] spec_joins(obj, pack[j])
        && (forall|k: int| 0 <= k < j ==> !spec_joins(obj, #[trigger] pack[k]))
        && after == pack.update(j, Object { quantity: (pack[j].quantity + obj.quantity) as i16, ..pack[j] })
    ||| (forall|k: int| 0 <= k < pack.len() ==> !spec_joins(obj, #[trigger] pack[k]))
        && exists|c: char| spec_is_next_ichar(pack, c) && after == #[trigger] pack.push(Object { ichar: c, ..obj })
}

/// Adds `obj` to `pack` as `spec_added_to_pack` says.
pub fn combine_or_add_item_to_pack(pack: &mut Vec<Object>, obj: Object)
    requires
        obj.what_is is Weapon ==> obj.which_kind < 8,
        forall|i: int| 0 <= i < old(pack)@.len() ==> i16::MIN <= (#[trigger] old(pack)@[i]).quantity + obj.quantity <= i16::MAX,
    ensures
        spec_added_to_pack(old(pack)@, obj, final(pack)@),
{
    let mut i: usize = 0;
    while i < pack.len()
        invariant
            i <= pack@.len(),
            pack@ == old(pack)@,
            obj.what_is is Weapon ==> obj.which_kind < 8,
            forall|k: int| 0 <= k < i ==> !spec_joins(obj, #[trigger] pack@[k]),
            forall|k: int| 0 <= k < old(pack)@.len() ==> i16::MIN <= (#[trigger] old(pack)@[k]).quantity + obj.quantity <= i16::MAX,
        decreases pack@.len() - i,
    {
        let what = obj.what_is;
        let class_joins = what == ObjectWhat::Weapon || what == ObjectWhat::Food || what == ObjectWhat::Scroll
            || what == ObjectWhat::Potion;
        if class_joins && obj.can_join_existing_pack_object(&pack[i]) {
            let mut e = pack[i];
            e.quantity = e.quantity + obj.quantity;
            pack.set(i, e);
            assert(spec_joins(obj, old(pack)@[i as int]));
            return;
        }
        i += 1;
    }
    let c = next_avail_ichar(pack);
    let mut o = obj;
    o.ichar = c;
    pack.push(o);
    assert(pack@ == old(pack)@.push(Object { ichar: c, ..obj }));
}

} // verus!
