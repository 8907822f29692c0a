//! Listing objects: how an object is described to the player.
use vstd::prelude::*;
use vstd::string::StrSliceExecFns;

use crate::message::{push_signed, spec_signed_decimal};
use crate::object_what::ObjectWhat;
use crate::objects::kinds::{POTIONS, RINGS, SCROLLS, WANDS};
use crate::objects::note_tables::{push_char, NoteTables};
use crate::objects::object_pack::{lemma_position_valid, spec_position, ObjectPack};
use crate::objects::pack::{name_of, spec_name_of};
use crate::objects::{spec_title_text, NoteStatus, Object, ObjectId, BEING_WIELDED, BEING_WORN, ON_LEFT_HAND, ON_RIGHT_HAND, RATION};

verus! {

/// Where a listed object lies.
#[derive(Debug, Copy, Clone, Eq, PartialEq, Structural)]
pub enum ObjectSource {
    Player,
    Ground,
}

/// How many of the object there are, as a description starts: nothing for
/// armor, "a " for one, else the number and a space.
pub open spec fn spec_quantity_text(o: Object) -> Seq<char> {
    if o.what_is is Armor {
        ""@
    } else if o.quantity == 1 {
        "a "@
    } else {
        spec_signed_decimal(o.quantity as int) + " "@
    }
}

/// How many of the object there are, as a description starts.
pub fn get_quantity(obj: &Object) -> (r: String)
    ensures
        r@ == spec_quantity_text(*obj),
{
    if obj.what_is == ObjectWhat::Armor {
        "".to_string()
    } else if obj.quantity == 1 {
        "a ".to_string()
    } else {
        let mut s = String::new();
        push_signed(&mut s, obj.quantity as isize);
        s.append(" ");
        proof {
            reveal_strlit(" ");
            assert(s@ =~= spec_quantity_text(*obj));
        }
        s
    }
}

/// How the object is being used, as a description ends.
pub open spec fn spec_in_use_text(o: Object) -> Seq<char> {
    if o.in_use_flags & BEING_WIELDED != 0 {
        "in hand"@
    } else if o.in_use_flags & BEING_WORN != 0 {
        "being worn"@
    } else if o.in_use_flags & ON_LEFT_HAND != 0 {
        "on left hand"@
    } else if o.in_use_flags & ON_RIGHT_HAND != 0 {
        "on right hand"@
    } else {
        ""@
    }
}

/// How the object is being used, as a description ends.
pub fn get_in_use_description(obj: &Object) -> (r: &'static str)
    ensures
        r@ == spec_in_use_text(*obj),
{
    if obj.in_use_flags & BEING_WIELDED != 0 {
        "in hand"
    } else if obj.in_use_flags & BEING_WORN != 0 {
        "being worn"
    } else if obj.in_use_flags & ON_LEFT_HAND != 0 {
        "on left hand"
    } else if obj.in_use_flags & ON_RIGHT_HAND != 0 {
        "on right hand"
    } else {
        ""
    }
}

/// The real name of kind `kind` of scroll, potion, wand or ring; nothing for
/// any other class.
pub open spec fn spec_real_name(what: ObjectWhat, kind: int) -> Seq<char> {
    match what {
        ObjectWhat::Scroll => if kind == 0 {
            "of protect armor "@
        } else if kind == 1 {
            "of hold monster "@
        } else if kind == 2 {
            "of enchant weapon "@
        } else if kind == 3 {
            "of enchant armor "@
        } else if kind == 4 {
            "of identify "@
        } else if kind == 5 {
            "of teleportation "@
        } else if kind == 6 {
            "of sleep "@
        } else if kind == 7 {
            "of scare monster "@
        } else if kind == 8 {
            "of remove curse "@
        } else if kind == 9 {
            "of create monster "@
        } else if kind == 10 {
            "of aggravate monster "@
        } else {
            "of magic mapping "@
        },
        ObjectWhat::Potion => if kind == 0 {
            "of increase strength "@
        } else if kind == 1 {
            "of restore strength "@
        } else if kind == 2 {
            "of healing "@
        } else if kind == 3 {
            "of extra healing "@
        } else if kind == 4 {
            "of poison "@
        } else if kind == 5 {
            "of raise level "@
        } else if kind == 6 {
            "of blindness "@
        } else if kind == 7 {
            "of hallucination "@
        } else if kind == 8 {
            "of detect monster "@
        } else if kind == 9 {
            "of detect things "@
        } else if kind == 10 {
            "of confusion "@
        } else if kind == 11 {
            "of levitation "@
        } else if kind == 12 {
            "of haste self "@
        } else {
            "of see invisible "@
        },
        ObjectWhat::Wand => if kind == 0 {
            "of teleport away "@
        } else if kind == 1 {
            "of slow monster "@
        } else if kind == 2 {
            "of confuse monster "@
        } else if kind == 3 {
            "of invisibility "@
        } else if kind == 4 {
            "of polymorph "@
        } else if kind == 5 {
            "of haste monster "@
        } else if kind == 6 {
            "of sleep "@
        } else if kind == 7 {
            "of magic missile "@
        } else if kind == 8 {
            "of cancellation "@
        } else {
            "of do nothing "@
        },
        ObjectWhat::Ring => if kind == 0 {
            "of stealth "@
        } else if kind == 1 {
            "of teleportation "@
        } else if kind == 2 {
            "of regeneration "@
        } else if kind == 3 {
            "of slow digestion "@
        } else if kind == 4 {
            "of add strength "@
        } else if kind == 5 {
            "of sustain strength "@
        } else if kind == 6 {
            "of dexterity "@
        } else if kind == 7 {
            "of adornment "@
        } else if kind == 8 {
            "of see invisible "@
        } else if kind == 9 {
            "of maintain armor "@
        } else {
            "of searching "@
        },
        _ => ""@,
    }
}

/// Whether kind `kind` is one of the kinds of class `what`, for the classes
/// whose kinds have real names.
pub open spec fn spec_real_kind_ok(what: ObjectWhat, kind: int) -> bool {
    match what {
        ObjectWhat::Scroll => kind < SCROLLS,
        ObjectWhat::Potion => kind < POTIONS,
        ObjectWhat::Wand => kind < WANDS,
        ObjectWhat::Ring => kind < RINGS,
        _ => true,
    }
}

/// The real name of the object's kind.
pub fn get_id_real(obj: &Object) -> (r: &'static str)
    requires
        spec_real_kind_ok(obj.what_is, obj.which_kind as int),
    ensures
        r@ == spec_real_name(obj.what_is, obj.which_kind as int),
{
    let k = obj.which_kind;
    match obj.what_is {
        ObjectWhat::Scroll => if k == 0 {
            "of protect armor "
        } else if k == 1 {
            "of hold monster "
        } else if k == 2 {
            "of enchant weapon "
        } else if k == 3 {
            "of enchant armor "
        } else if k == 4 {
            "of identify "
        } else if k == 5 {
            "of teleportation "
        } else if k == 6 {
            "of sleep "
        } else if k == 7 {
            "of scare monster "
        } else if k == 8 {
            "of remove curse "
        } else if k == 9 {
            "of create monster "
        } else if k == 10 {
            "of aggravate monster "
        } else {
            "of magic mapping "
        },
        ObjectWhat::Potion => if k == 0 {
            "of increase strength "
        } else if k == 1 {
            "of restore strength "
        } else if k == 2 {
            "of healing "
        } else if k == 3 {
            "of extra healing "
        } else if k == 4 {
            "of poison "
        } else if k == 5 {
            "of raise level "
        } else if k == 6 {
            "of blindness "
        } else if k == 7 {
            "of hallucination "
        } else if k == 8 {
            "of detect monster "
        } else if k == 9 {
            "of detect things "
        } else if k == 10 {
            "of confusion "
        } else if k == 11 {
            "of levitation "
        } else if k == 12 {
            "of haste self "
        } else {
            "of see invisible "
        },
        ObjectWhat::Wand => if k == 0 {
            "of teleport away "
        } else if k == 1 {
            "of slow monster "
        } else if k == 2 {
            "of confuse monster "
        } else if k == 3 {
            "of invisibility "
        } else if k == 4 {
            "of polymorph "
        } else if k == 5 {
            "of haste monster "
        } else if k == 6 {
            "of sleep "
        } else if k == 7 {
            "of magic missile "
        } else if k == 8 {
            "of cancellation "
        } else {
            "of do nothing "
        },
        ObjectWhat::Ring => if k == 0 {
            "of stealth "
        } else if k == 1 {
            "of teleportation "
        } else if k == 2 {
            "of regeneration "
        } else if k == 3 {
            "of slow digestion "
        } else if k == 4 {
            "of add strength "
        } else if k == 5 {
            "of sustain strength "
        } else if k == 6 {
            "of dexterity "
        } else if k == 7 {
            "of adornment "
        } else if k == 8 {
            "of see invisible "
        } else if k == 9 {
            "of maintain armor "
        } else {
            "of searching "
        },
        _ => "",
    }
}

/// A plus sign before a number that is not negative.
pub open spec fn spec_plus(n: int) -> Seq<char> {
    if n >= 0 {
        "+"@
    } else {
        ""@
    }
}

/// The title that the notes give kind `kind` of class `what`.
pub open spec fn spec_note_title(notes: NoteTables, what: ObjectWhat, kind: int) -> Seq<char> {
    spec_title_text(notes.spec_table(what)[kind].title)
}

/// An object that can be described: its notes are well formed, its class is
/// one the player can hold, its kind is one of its class, and its numbers
/// can be written out.
pub open spec fn spec_describable(o: Object, notes: NoteTables) -> bool {
    &&& notes.wf()
    &&& !(o.what_is is Nothing)
    &&& (o.what_is is Weapon ==> o.which_kind < 8)
    &&& (o.what_is is Armor ==> o.which_kind < 7)
    &&& spec_real_kind_ok(o.what_is, o.which_kind as int)
    &&& o.class > isize::MIN
    &&& o.d_enchant > isize::MIN
    &&& isize::MIN < o.class + o.d_enchant <= isize::MAX
}

/// The description of an object whose kind is known.
pub open spec fn spec_identified(o: Object, fruit: Seq<char>, notes: NoteTables, wizard: bool) -> Seq<char> {
    let q = spec_quantity_text(o);
    let name = spec_name_of(o, fruit, notes);
    let real_name = spec_real_name(o.what_is, o.which_kind as int);
    match o.what_is {
        ObjectWhat::Scroll | ObjectWhat::Potion => q + name + real_name,
        ObjectWhat::Ring => q + (if (wizard || o.identified) && (o.which_kind == 6 || o.which_kind == 4) {
            (if o.class > 0 {
                "+"@
            } else {
                ""@
            }) + spec_signed_decimal(o.class as int) + " "@
        } else {
            ""@
        }) + name + real_name,
        ObjectWhat::Wand => q + name + real_name + (if wizard || o.identified {
            "["@ + spec_signed_decimal(o.class as int) + "]"@
        } else {
            ""@
        }),
        ObjectWhat::Armor => spec_plus(o.d_enchant as int) + spec_signed_decimal(o.d_enchant as int) + " "@
            + spec_note_title(notes, ObjectWhat::Armor, o.which_kind as int) + "["@ + spec_signed_decimal(
            o.class + o.d_enchant,
        ) + "] "@,
        ObjectWhat::Weapon => q + spec_plus(o.hit_enchant as int) + spec_signed_decimal(o.hit_enchant as int)
            + ","@ + spec_plus(o.d_enchant as int) + spec_signed_decimal(o.d_enchant as int) + " "@ + name,
        _ => ""@,
    }
}

/// The description of an object whose kind the rogue has called something.
pub open spec fn spec_called(o: Object, fruit: Seq<char>, notes: NoteTables) -> Seq<char> {
    spec_quantity_text(o) + spec_name_of(o, fruit, notes) + "called "@ + spec_note_title(
        notes,
        o.what_is,
        o.which_kind as int,
    )
}

/// The description of an object whose kind is not known.
pub open spec fn spec_unidentified(o: Object, fruit: Seq<char>, notes: NoteTables, wizard: bool) -> Seq<char> {
    let q = spec_quantity_text(o);
    let name = spec_name_of(o, fruit, notes);
    let title = spec_note_title(notes, o.what_is, o.which_kind as int);
    match o.what_is {
        ObjectWhat::Scroll => q + name + "entitled: "@ + title,
        ObjectWhat::Potion => q + title + name,
        ObjectWhat::Wand | ObjectWhat::Ring => {
            let status = notes.spec_table(o.what_is)[o.which_kind as int].status;
            if o.identified || status is Identified {
                spec_identified(o, fruit, notes, wizard)
            } else if status is Called {
                spec_called(o, fruit, notes)
            } else {
                q + title + name
            }
        },
        ObjectWhat::Armor => if o.identified {
            spec_identified(o, fruit, notes, wizard)
        } else {
            title
        },
        ObjectWhat::Weapon => if o.identified {
            spec_identified(o, fruit, notes, wizard)
        } else {
            name
        },
        _ => ""@,
    }
}

/// Appends a plus sign to `s` before a number that is not negative.
fn push_plus(s: &mut String, n: isize)
    ensures
        final(s)@ == old(s)@ + spec_plus(n as int),
{
    proof {
        reveal_strlit("+");
        reveal_strlit("");
    }
    if n >= 0 {
        s.append("+");
    } else {
        s.append("");
    }
}

/// The description of an object whose kind is known: scrolls and potions
/// by their real names, rings of dexterity and strength with their bonus
/// and wands with their charges where known, armor by its enchantment, name
/// and armor class, and weapons by their enchantments.
pub fn get_identified(obj: &Object, fruit: String, notes: &NoteTables, wizard: bool) -> (r: String)
    requires
        spec_describable(*obj, *notes),
        obj.what_is is Scroll || obj.what_is is Potion || obj.what_is is Ring || obj.what_is is Wand
            || obj.what_is is Armor || obj.what_is is Weapon,
    ensures
        r@ == spec_identified(*obj, fruit@, *notes, wizard),
{
    proof {
        reveal_strlit("");
        reveal_strlit(" ");
        reveal_strlit("+");
        reveal_strlit("[");
        reveal_strlit("]");
        reveal_strlit("] ");
        reveal_strlit(",");
    }
    let what = obj.what_is;
    match what {
        ObjectWhat::Scroll | ObjectWhat::Potion => {
            let mut s = get_quantity(obj);
            let name = name_of(obj, fruit, notes);
            s.append(name.as_str());
            s.append(get_id_real(obj));
            s
        },
        ObjectWhat::Ring => {
            let mut s = get_quantity(obj);
            if (wizard || obj.identified) && (obj.which_kind == 6 || obj.which_kind == 4) {
                if obj.class > 0 {
                    s.append("+");
                } else {
                    s.append("");
                }
                push_signed(&mut s, obj.class);
                s.append(" ");
            } else {
                s.append("");
            }
            let name = name_of(obj, fruit, notes);
            s.append(name.as_str());
            s.append(get_id_real(obj));
            assert(s@ =~= spec_identified(*obj, fruit@, *notes, wizard));
            s
        },
        ObjectWhat::Wand => {
            let mut s = get_quantity(obj);
            let name = name_of(obj, fruit, notes);
            s.append(name.as_str());
            s.append(get_id_real(obj));
            if wizard || obj.identified {
                s.append("[");
                push_signed(&mut s, obj.class);
                s.append("]");
            } else {
                s.append("");
            }
            assert(s@ =~= spec_identified(*obj, fruit@, *notes, wizard));
            s
        },
        ObjectWhat::Armor => {
            let mut s = String::new();
            push_plus(&mut s, obj.d_enchant);
            push_signed(&mut s, obj.d_enchant);
            s.append(" ");
            let title = notes.title(what, obj.which_kind as usize);
            s.append(title.as_str());
            s.append("[");
            push_signed(&mut s, get_armor_class(obj));
            s.append("] ");
            assert(s@ =~= spec_identified(*obj, fruit@, *notes, wizard));
            s
        },
        _ => {
            let mut s = get_quantity(obj);
            push_plus(&mut s, obj.hit_enchant as isize);
            push_signed(&mut s, obj.hit_enchant as isize);
            s.append(",");
            push_plus(&mut s, obj.d_enchant);
            push_signed(&mut s, obj.d_enchant);
            s.append(" ");
            let name = name_of(obj, fruit, notes);
            s.append(name.as_str());
            assert(s@ =~= spec_identified(*obj, fruit@, *notes, wizard));
            s
        },
    }
}

/// The armor class that armor gives: its base class and its enchantment.
pub fn get_armor_class(obj: &Object) -> (r: isize)
    requires
        isize::MIN <= obj.class + obj.d_enchant <= isize::MAX,
    ensures
        r == obj.class + obj.d_enchant,
{
    obj.class + obj.d_enchant
}

/// The description of an object whose kind the rogue has called something.
pub fn get_called(obj: &Object, fruit: String, notes: &NoteTables) -> (r: String)
    requires
        spec_describable(*obj, *notes),
        obj.what_is is Scroll || obj.what_is is Potion || obj.what_is is Wand || obj.what_is is Ring,
    ensures
        r@ == spec_called(*obj, fruit@, *notes),
{
    proof {
        reveal_strlit("called ");
    }
    let mut s = get_quantity(obj);
    let name = name_of(obj, fruit, notes);
    s.append(name.as_str());
    s.append("called ");
    let title = notes.title(obj.what_is, obj.which_kind as usize);
    s.append(title.as_str());
    assert(s@ =~= spec_called(*obj, fruit@, *notes));
    s
}

/// The description of an object whose kind is not known: scrolls by their
/// titles, potions by their colours, wands and rings by what is known of
/// them, and armor and weapons by name unless they themselves are known.
pub fn get_unidentified(obj: &Object, fruit: String, notes: &NoteTables, wizard: bool) -> (r: String)
    requires
        spec_describable(*obj, *notes),
        obj.what_is is Scroll || obj.what_is is Potion || obj.what_is is Ring || obj.what_is is Wand
            || obj.what_is is Armor || obj.what_is is Weapon,
    ensures
        r@ == spec_unidentified(*obj, fruit@, *notes, wizard),
{
    proof {
        reveal_strlit("entitled: ");
    }
    let what = obj.what_is;
    let kind = obj.which_kind as usize;
    match what {
        ObjectWhat::Scroll => {
            let mut s = get_quantity(obj);
            let name = name_of(obj, fruit, notes);
            s.append(name.as_str());
            s.append("entitled: ");
            let title = notes.title(what, kind);
            s.append(title.as_str());
            assert(s@ =~= spec_unidentified(*obj, fruit@, *notes, wizard));
            s
        },
        ObjectWhat::Potion => {
            let mut s = get_quantity(obj);
            let title = notes.title(what, kind);
            s.append(title.as_str());
            let name = name_of(obj, fruit, notes);
            s.append(name.as_str());
            assert(s@ =~= spec_unidentified(*obj, fruit@, *notes, wizard));
            s
        },
        ObjectWhat::Wand | ObjectWhat::Ring => {
            let status = notes.status(what, kind);
            if obj.identified || status == NoteStatus::Identified {
                get_identified(obj, fruit, notes, wizard)
            } else if status == NoteStatus::Called {
                get_called(obj, fruit, notes)
            } else {
                let mut s = get_quantity(obj);
                let title = notes.title(what, kind);
                s.append(title.as_str());
                let name = name_of(obj, fruit, notes);
                s.append(name.as_str());
                assert(s@ =~= spec_unidentified(*obj, fruit@, *notes, wizard));
                s
            }
        },
        ObjectWhat::Armor => if obj.identified {
            get_identified(obj, fruit, notes, wizard)
        } else {
            notes.title(what, kind).to_string()
        },
        _ => if obj.identified {
            get_identified(obj, fruit, notes, wizard)
        } else {
            name_of(obj, fruit, notes)
        },
    }
}

/// Whether a letter is a lower-case vowel.
pub open spec fn spec_is_vowel(c: char) -> bool {
    c == 'a' || c == 'e' || c == 'i' || c == 'o' || c == 'u'
}

/// Whether a letter is a lower-case vowel.
pub fn is_vowel(c: char) -> (r: bool)
    ensures
        r == spec_is_vowel(c),
{
    c == 'a' || c == 'e' || c == 'i' || c == 'o' || c == 'u'
}

/// The body of the description of an object other than gold and the
/// amulet, before its article is mended.
pub open spec fn spec_desc_body(o: Object, fruit: Seq<char>, notes: NoteTables, wizard: bool) -> Seq<char> {
    if o.what_is is Food {
        (if o.which_kind == RATION {
            if o.quantity > 1 {
                spec_signed_decimal(o.quantity as int) + " rations of "@
            } else {
                "some "@
            }
        } else {
            "a "@
        }) + spec_name_of(o, fruit, notes)
    } else if wizard {
        spec_identified(o, fruit, notes, wizard)
    } else if o.what_is is Weapon || o.what_is is Armor || o.what_is is Wand || o.what_is is Ring {
        spec_unidentified(o, fruit, notes, wizard)
    } else {
        match notes.spec_table(o.what_is)[o.which_kind as int].status {
            NoteStatus::Unidentified => spec_unidentified(o, fruit, notes, wizard),
            NoteStatus::Identified => spec_identified(o, fruit, notes, wizard),
            NoteStatus::Called => spec_called(o, fruit, notes),
        }
    }
}

/// The text with "a " turned into "an " before a vowel.
pub open spec fn spec_with_article(t: Seq<char>) -> Seq<char> {
    if t.len() > 2 && t[0] == 'a' && t[1] == ' ' && spec_is_vowel(t[2]) {
        "an "@ + t.subrange(2, t.len() as int)
    } else {
        t
    }
}

/// The body of the description is not a bare article, which would leave no
/// letter to read after it (gold and the amulet have no body).
pub open spec fn spec_body_ok(o: Object, fruit: Seq<char>, notes: NoteTables, wizard: bool) -> bool {
    !(o.what_is is Gold) && !(o.what_is is Amulet) ==> !(spec_desc_body(o, fruit, notes, wizard) == "a "@)
}

/// How an object is described to the player: the amulet and gold by
/// themselves, food by how much of it there is, anything else as far as
/// the rogue knows it (everything for a wizard), with "an" before a vowel
/// and how the object is being used at the end.
pub open spec fn spec_description(o: Object, fruit: Seq<char>, notes: NoteTables, wizard: bool) -> Seq<char> {
    if o.what_is is Amulet {
        "the amulet of Yendor "@
    } else if o.what_is is Gold {
        spec_signed_decimal(o.quantity as int) + " pieces of gold"@
    } else {
        spec_with_article(spec_desc_body(o, fruit, notes, wizard)) + spec_in_use_text(o)
    }
}

/// Whether `d` ends with `w`.
pub open spec fn spec_ends_with(d: Seq<char>, w: Seq<char>) -> bool {
    d.len() >= w.len() && d.subrange(d.len() - w.len(), d.len() as int) == w
}

/// The description of an object other than gold and the amulet ends by
/// how the object is in use: "in hand" for the wielded weapon, "being worn"
/// for worn armor, "on left hand" for a ring on the left hand and "on right
/// hand" for one on the right.
pub proof fn lemma_description_tells_use(o: Object, fruit: Seq<char>, notes: NoteTables, wizard: bool)
    requires
        !(o.what_is is Gold),
        !(o.what_is is Amulet),
    ensures
        ({
            let d = spec_description(o, fruit, notes, wizard);
            let f = o.in_use_flags;
            &&& f & BEING_WIELDED != 0 ==> spec_ends_with(d, "in hand"@)
            &&& f & BEING_WIELDED == 0 && f & BEING_WORN != 0 ==> spec_ends_with(d, "being worn"@)
            &&& f & BEING_WIELDED == 0 && f & BEING_WORN == 0 && f & ON_LEFT_HAND != 0 ==> spec_ends_with(d, "on left hand"@)
            &&& f & BEING_WIELDED == 0 && f & BEING_WORN == 0 && f & ON_LEFT_HAND == 0 && f & ON_RIGHT_HAND != 0
                ==> spec_ends_with(d, "on right hand"@)
        }),
{
    let head = spec_with_article(spec_desc_body(o, fruit, notes, wizard));
    let u = spec_in_use_text(o);
    let d = spec_description(o, fruit, notes, wizard);
    assert(d == head + u);
    assert(d.subrange(d.len() - u.len(), d.len() as int) =~= u);
}

/// The body of the description of an object other than gold and the
/// amulet.
fn desc_body(obj: &Object, fruit: &str, notes: &NoteTables, wizard: bool) -> (r: String)
    requires
        spec_describable(*obj, *notes),
        !(obj.what_is is Gold) && !(obj.what_is is Amulet),
    ensures
        r@ == spec_desc_body(*obj, fruit@, *notes, wizard),
{
    let what = obj.what_is;
    if what == ObjectWhat::Food {
        let mut s = String::new();
        if obj.which_kind == RATION {
            if obj.quantity > 1 {
                push_signed(&mut s, obj.quantity as isize);
                s.append(" rations of ");
            } else {
                s.append("some ");
            }
        } else {
            s.append("a ");
        }
        let name = name_of(obj, fruit.to_string(), notes);
        s.append(name.as_str());
        proof {
            reveal_strlit(" rations of ");
            reveal_strlit("some ");
            reveal_strlit("a ");
            assert(s@ =~= spec_desc_body(*obj, fruit@, *notes, wizard));
        }
        s
    } else if wizard {
        get_identified(obj, fruit.to_string(), notes, wizard)
    } else if what == ObjectWhat::Weapon || what == ObjectWhat::Armor || what == ObjectWhat::Wand
        || what == ObjectWhat::Ring {
        get_unidentified(obj, fruit.to_string(), notes, wizard)
    } else {
        match notes.status(what, obj.which_kind as usize) {
            NoteStatus::Unidentified => get_unidentified(obj, fruit.to_string(), notes, wizard),
            NoteStatus::Identified => get_identified(obj, fruit.to_string(), notes, wizard),
            NoteStatus::Called => get_called(obj, fruit.to_string(), notes),
        }
    }
}

impl Object {
    /// How the object is described to the player (`spec_description`).
    pub fn to_description(&self, fruit: &str, notes: &NoteTables, wizard: bool) -> (r: String)
        requires
            spec_describable(*self, *notes),
            spec_body_ok(*self, fruit@, *notes, wizard),
        ensures
            r@ == spec_description(*self, fruit@, *notes, wizard),
    {
        proof {
            reveal_strlit("the amulet of Yendor ");
            reveal_strlit(" pieces of gold");
            reveal_strlit("an ");
            reveal_strlit("a ");
        }
        let what = self.what_is;
        if what == ObjectWhat::Amulet {
            return "the amulet of Yendor ".to_string();
        }
        if what == ObjectWhat::Gold {
            let mut s = String::new();
            push_signed(&mut s, self.quantity as isize);
            s.append(" pieces of gold");
            return s;
        }
        let body = desc_body(self, fruit, notes, wizard);
        let text = body.as_str();
        let n = text.unicode_len();
        let mut s = String::new();
        if n >= 2 && text.get_char(0) == 'a' && text.get_char(1) == ' ' {
            if n == 2 {
                assert(body@ =~= "a "@);
            }
            if is_vowel(text.get_char(2)) {
                s.append("an ");
                s.append(text.substring_char(2, n));
            } else {
                s.append(text);
            }
        } else {
            s.append(text);
        }
        s.append(get_in_use_description(self));
        s
    }
}

/// How an object is described to the player (`spec_description`).
pub fn get_obj_desc(obj: &Object, fruit: String, notes: &NoteTables, wizard: bool) -> (r: String)
    requires
        spec_describable(*obj, *notes),
        spec_body_ok(*obj, fruit@, *notes, wizard),
    ensures
        r@ == spec_description(*obj, fruit@, *notes, wizard),
{
    obj.to_description(fruit.as_str(), notes, wizard)
}

/// A number written in decimal has a digit at least.
proof fn lemma_decimal_nonempty(n: int)
    ensures
        spec_signed_decimal(n).len() >= 1,
{
    if n < 0 {
        lemma_unsigned_nonempty((-n) as nat);
    } else {
        lemma_unsigned_nonempty(n as nat);
    }
}

/// A natural number written in decimal has a digit at least.
proof fn lemma_unsigned_nonempty(n: nat)
    ensures
        crate::message::spec_decimal(n).len() >= 1,
    decreases n,
{
    if n >= 10 {
        lemma_unsigned_nonempty(n / 10);
    }
}

/// Once the rogue knows an object (or is a wizard), and where the fruit has
/// a name, the body of its description is longer than an article.
pub proof fn lemma_known_body_long(o: Object, fruit: Seq<char>, notes: NoteTables, wizard: bool)
    requires
        spec_describable(o, notes),
        fruit.len() > 0,
        !(o.what_is is Gold) && !(o.what_is is Amulet),
        wizard || o.identified,
        (o.what_is is Scroll || o.what_is is Potion) ==> wizard || notes.spec_table(o.what_is)[o.which_kind as int].status is Identified,
    ensures
        spec_desc_body(o, fruit, notes, wizard).len() > 2,
{
    lemma_decimal_nonempty(o.quantity as int);
    lemma_decimal_nonempty(o.class as int);
    lemma_decimal_nonempty(o.d_enchant as int);
    lemma_decimal_nonempty(o.hit_enchant as int);
    lemma_decimal_nonempty(o.class + o.d_enchant);
    reveal_strlit("a ");
    reveal_strlit("some ");
    reveal_strlit(" rations of ");
    reveal_strlit("scroll ");
    reveal_strlit("scrolls ");
    reveal_strlit("potion ");
    reveal_strlit("potions ");
    reveal_strlit("wand ");
    reveal_strlit("staff ");
    reveal_strlit("ring ");
    reveal_strlit(",");
    reveal_strlit("] ");
    reveal_strlit("[");
    reveal_strlit(" ");
}

/// How an object of the pack is described to the player: its description
/// and its letter in brackets.
pub fn get_pack_obj_desc(obj: &Object, fruit: String, notes: &NoteTables, wizard: bool) -> (r: String)
    requires
        spec_describable(*obj, *notes),
        spec_body_ok(*obj, fruit@, *notes, wizard),
    ensures
        r@ == spec_description(*obj, fruit@, *notes, wizard) + "("@ + seq![obj.ichar] + ")"@,
{
    let mut s = get_obj_desc(obj, fruit, notes, wizard);
    s.append("(");
    push_char(&mut s, obj.ichar);
    s.append(")");
    proof {
        reveal_strlit("(");
        reveal_strlit(")");
    }
    assert(s@ =~= spec_description(*obj, fruit@, *notes, wizard) + "("@ + seq![obj.ichar] + ")"@);
    s
}

impl ObjectPack {
    /// The line that tells of picking up object `obj_id` of the pack: its
    /// description and its letter in brackets.
    pub fn to_pickup_line_maybe(&self, obj_id: ObjectId, fruit: &str, notes: &NoteTables, wizard: bool) -> (r: String)
        requires
            spec_position(self@, obj_id) is Some,
            spec_describable(self@[spec_position(self@, obj_id)->0], *notes),
            spec_body_ok(self@[spec_position(self@, obj_id)->0], fruit@, *notes, wizard),
        ensures
            ({
                let o = self@[spec_position(self@, obj_id)->0];
                r@ == spec_description(o, fruit@, *notes, wizard) + "("@ + seq![o.ichar] + ")"@
            }),
    {
        proof {
            lemma_position_valid(self@, obj_id);
        }
        let p = self.obj_position(obj_id).unwrap();
        get_pack_obj_desc(&self.0[p], fruit.to_string(), notes, wizard)
    }
}

} // verus!
