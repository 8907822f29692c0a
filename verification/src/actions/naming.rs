//! Calling a kind of object by a name of the player's choosing.
use vstd::prelude::*;

use crate::actions::gear::spec_first_with_letter;
use crate::motion::{spec_texts, CANCEL_CHAR};
use crate::object_what::ObjectWhat;
use crate::objects::note_tables::{spec_has_table, NoteTables};
use crate::objects::{Note, NoteStatus, Object, Title};

verus! {

/// Whether objects of class `what` can be called by a name: scrolls,
/// potions, wands and rings.
pub open spec fn spec_callable(what: ObjectWhat) -> bool {
    what is Scroll || what is Potion || what is Wand || what is Ring
}

/// Pushes `text` onto `messages`.
fn say(messages: &mut Vec<String>, text: &str)
    ensures
        spec_texts(final(messages)@) == spec_texts(old(messages)@).push(text@),
{
    let ghost before = spec_texts(messages@);
    messages.push(text.to_string());
    assert(spec_texts(messages@) =~= before.push(text@));
}

/// The class and kind of the object with letter `ch` that the player
/// calls by a name: none on the cancel key; "no such item." where no
/// object has the letter; "surely you already know what that's called" for
/// an object that is not a scroll, potion, wand or ring.
pub fn call_target(ch: char, pack: &Vec<Object>, messages: &mut Vec<String>) -> (r: Option<(ObjectWhat, u16)>)
    ensures
        ch == CANCEL_CHAR ==> r is None && final(messages)@ == old(messages)@,
        ch != CANCEL_CHAR && (forall|i: int| 0 <= i < pack@.len() ==> pack@[i].ichar != ch) ==> r is None
            && spec_texts(final(messages)@) == spec_texts(old(messages)@).push("no such item."@),
        ch != CANCEL_CHAR ==> forall|i: int| #[trigger] spec_first_with_letter(pack@, ch, i) ==> if spec_callable(pack@[i].what_is) {
            r == Some((pack@[i].what_is, pack@[i].which_kind)) && final(messages)@ == old(messages)@
        } else {
            r is None && spec_texts(final(messages)@) == spec_texts(old(messages)@).push(
                "surely you already know what that's called"@,
            )
        },
{
    if ch == CANCEL_CHAR {
        return None;
    }
    let mut i: usize = 0;
    while i < pack.len()
        invariant
            i <= pack@.len(),
            ch != CANCEL_CHAR,
            messages@ == old(messages)@,
            forall|j: int| 0 <= j < i ==> pack@[j].ichar != ch,
        decreases pack@.len() - i,
    {
        if pack[i].ichar == ch {
            let what = pack[i].what_is;
            if what == ObjectWhat::Scroll || what == ObjectWhat::Potion || what == ObjectWhat::Wand || what == ObjectWhat::Ring {
                return Some((what, pack[i].which_kind));
            }
            say(messages, "surely you already know what that's called");
            return None;
        }
        i += 1;
    }
    say(messages, "no such item.");
    None
}

/// Calls kind `kind` of class `what` by `new_name`: its note is then
/// called by that name; an empty name leaves the note as it was.
pub fn call_it(what: ObjectWhat, kind: usize, new_name: String, notes: &mut NoteTables)
    requires
        old(notes).wf(),
        spec_has_table(what),
        kind < old(notes).spec_table(what).len(),
    ensures
        final(notes).wf(),
        new_name@.len() == 0 ==> *final(notes) == *old(notes),
        new_name@.len() > 0 ==> final(notes).same_except(old(notes), what)
            && final(notes).spec_table(what) == old(notes).spec_table(what).update(kind as int, Note {
                status: NoteStatus::Called,
                title: Title::UserString(new_name),
                ..old(notes).spec_table(what)[kind as int]
            }),
{
    if new_name.as_str().is_empty() {
        return;
    }
    let note = notes.note_mut(what, kind);
    note.status = NoteStatus::Called;
    note.title = Title::UserString(new_name);
}

} // verus!
