//! Wizard commands: becoming a wizard, ceasing to be one, and making
//! objects.
use vstd::prelude::*;

use crate::motion::{spec_texts, CANCEL_CHAR};
use crate::object_what::ObjectWhat;
use crate::objects::pack::{combine_or_add_item_to_pack, pack_weight, spec_added_to_pack, spec_pack_weight, MAX_PACK_COUNT};
use crate::objects::roll::{alloc_object, get_food, gr_armor, gr_ring, gr_wand, gr_weapon};
use crate::objects::{Object, FRUIT, RATION};

verus! {

/// The wizard's password.
pub open spec fn spec_wizard_password() -> Seq<char> {
    "neko?"@
}

/// The player's standing as a wizard, and the messages shown.
pub struct WizardState {
    pub wizard: bool,
    pub score_only: bool,
    pub messages: Vec<String>,
}

/// Pushes `text` onto `messages`.
fn say(messages: &mut Vec<String>, text: &str)
    ensures
        spec_texts(final(messages)@) == spec_texts(old(messages)@).push(text@),
{
    let ghost before = spec_texts(messages@);
    messages.push(text.to_string());
    assert(spec_texts(messages@) =~= before.push(text@));
}

/// The start of the wizard command: a wizard stops being one ("not wizard
/// anymore"); anyone else is asked for the password (the result).
pub fn start_wizardize(state: &mut WizardState) -> (ask_password: bool)
    ensures
        ask_password == !old(state).wizard,
        final(state).wizard == false,
        final(state).score_only == old(state).score_only,
        ask_password ==> final(state).messages@ == old(state).messages@,
        !ask_password ==> spec_texts(final(state).messages@) == spec_texts(old(state).messages@).push("not wizard anymore"@),
{
    if state.wizard {
        state.wizard = false;
        say(&mut state.messages, "not wizard anymore");
        false
    } else {
        true
    }
}

/// The password `line` typed for the wizard command: nothing happens for an
/// empty line; the right password makes the player a wizard, whose score is
/// no longer kept ("Welcome, mighty wizard!"); any other gets "sorry".
pub fn enter_wizard_password(line: String, state: &mut WizardState)
    ensures
        line@.len() == 0 ==> final(state).wizard == old(state).wizard && final(state).score_only == old(state).score_only
            && final(state).messages@ == old(state).messages@,
        line@.len() > 0 && line@ == spec_wizard_password() ==> final(state).wizard && final(state).score_only
            && spec_texts(final(state).messages@) == spec_texts(old(state).messages@).push("Welcome, mighty wizard!"@),
        line@.len() > 0 && line@ != spec_wizard_password() ==> final(state).wizard == old(state).wizard
            && final(state).score_only == old(state).score_only
            && spec_texts(final(state).messages@) == spec_texts(old(state).messages@).push("sorry"@),
{
    if line.as_str().is_empty() {
        return;
    }
    let password = "neko?".to_string();
    if line == password {
        state.wizard = true;
        state.score_only = true;
        say(&mut state.messages, "Welcome, mighty wizard!");
    } else {
        say(&mut state.messages, "sorry");
    }
}

/// The keys that name a class of object for a wizard, and the cancel key.
pub open spec fn spec_wizard_class_key(ch: char) -> bool {
    ch == '!' || ch == '?' || ch == ':' || ch == ')' || ch == ']' || ch == '=' || ch == '/' || ch == ',' || ch == CANCEL_CHAR
}

/// The class of object that key `ch` names.
pub open spec fn spec_wizard_class(ch: char) -> ObjectWhat {
    if ch == '!' {
        ObjectWhat::Potion
    } else if ch == '?' {
        ObjectWhat::Scroll
    } else if ch == ',' {
        ObjectWhat::Amulet
    } else if ch == ':' {
        ObjectWhat::Food
    } else if ch == ')' {
        ObjectWhat::Weapon
    } else if ch == ']' {
        ObjectWhat::Armor
    } else if ch == '/' {
        ObjectWhat::Wand
    } else {
        ObjectWhat::Ring
    }
}

/// The highest kind the wizard may pick for key `ch`; none for the amulet
/// and food.
pub open spec fn spec_wizard_max_kind(ch: char) -> Option<usize> {
    if ch == '!' {
        Some(13usize)
    } else if ch == '?' {
        Some(11usize)
    } else if ch == ')' {
        Some(7usize)
    } else if ch == ']' {
        Some(6usize)
    } else if ch == '/' {
        Some(9usize)
    } else if ch == '=' {
        Some(10usize)
    } else {
        None
    }
}

/// The steps of making an object for a wizard: starting, the key of its
/// class, and the kind picked (none when the player gives up).
#[derive(Debug, Copy, Clone, Eq, PartialEq, Structural)]
pub enum WizardObjectEvent {
    Start,
    Class(char),
    Kind { obj: Object, max_kind: usize, kind: Option<usize> },
}

/// What making an object for a wizard hands to the rest of the game: it is
/// over; ask "type of object?" for a class key; ask "which kind?" for a kind
/// from 0 to `max_kind` of the object being made; or `Added`, the object
/// made and added to the pack, for the game to describe.
#[derive(Debug, Copy, Clone, Eq, PartialEq, Structural)]
pub enum WizardObjectStep {
    Done,
    AwaitClass,
    AwaitKind { obj: Object, max_kind: usize },
    Added(Object),
}

/// The pack that a wizard's new object goes into, and the messages shown.
pub struct WizardObjectState {
    pub pack: Vec<Object>,
    pub messages: Vec<String>,
}

impl WizardObjectEvent {
    /// One step of making an object for a wizard.  Starting says "pack
    /// full" where the pack has no room, and otherwise asks for a class.
    /// The cancel key ends it.  A key for the amulet or food makes that
    /// (food as a ration or, one time in five, a fruit) and adds it to the
    /// pack; a key for another class makes an object of it (a weapon, armor
    /// or a wand rolled as `gr_weapon`, `gr_armor` and `gr_wand` say) and
    /// asks for its kind.  No kind ends it; a kind is given to the object (a
    /// ring is then rolled as `gr_ring` says) and the object is added.
    pub fn dispatch(self, state: &mut WizardObjectState) -> (r: WizardObjectStep)
        requires
            self matches WizardObjectEvent::Class(ch) ==> spec_wizard_class_key(ch)
                && forall|i: int| 0 <= i < old(state).pack@.len() ==> (#[trigger] old(state).pack@[i]).quantity <= i16::MAX - 15,
            self matches WizardObjectEvent::Kind { obj, max_kind, kind } ==> {
                &&& (kind matches Some(k) ==> k <= max_kind)
                &&& max_kind <= 13
                &&& (obj.what_is is Weapon ==> max_kind < 8)
                &&& (obj.what_is is Ring ==> max_kind < 11)
                &&& forall|i: int| 0 <= i < old(state).pack@.len()
                    ==> i16::MIN <= (#[trigger] old(state).pack@[i]).quantity + obj.quantity <= i16::MAX
            },
        ensures
            self is Start && spec_pack_weight(old(state).pack@) >= MAX_PACK_COUNT ==> r is Done
                && final(state).pack@ == old(state).pack@
                && spec_texts(final(state).messages@) == spec_texts(old(state).messages@).push("pack full"@),
            self is Start && spec_pack_weight(old(state).pack@) < MAX_PACK_COUNT ==> r is AwaitClass
                && final(state).pack@ == old(state).pack@ && final(state).messages@ == old(state).messages@,
            self == WizardObjectEvent::Class(CANCEL_CHAR) ==> r is Done && final(state).pack@ == old(state).pack@
                && final(state).messages@ == old(state).messages@,
            match self {
                WizardObjectEvent::Class(ch) => ch != CANCEL_CHAR ==> final(state).messages@ == old(state).messages@
                    && match spec_wizard_max_kind(ch) {
                    Some(m) => (r matches WizardObjectStep::AwaitKind { obj, max_kind } && max_kind == m
                        && obj.what_is == spec_wizard_class(ch) && final(state).pack@ == old(state).pack@),
                    None => (r matches WizardObjectStep::Added(o) && o.what_is == spec_wizard_class(ch)
                        && (o.what_is is Food ==> o.which_kind == RATION || o.which_kind == FRUIT)
                        && spec_added_to_pack(old(state).pack@, o, final(state).pack@)),
                },
                WizardObjectEvent::Kind { obj, max_kind, kind } => final(state).messages@ == old(state).messages@
                    && match kind {
                    None => r is Done && final(state).pack@ == old(state).pack@,
                    Some(k) => (r matches WizardObjectStep::Added(o) && o.which_kind == k && o.what_is == obj.what_is
                        && (!(obj.what_is is Ring) ==> o == (Object { which_kind: k as u16, ..obj }))
                        && spec_added_to_pack(old(state).pack@, o, final(state).pack@)),
                },
                _ => true,
            },
    {
        match self {
            WizardObjectEvent::Start => {
                if pack_weight(&state.pack) >= MAX_PACK_COUNT {
                    say(&mut state.messages, "pack full");
                    WizardObjectStep::Done
                } else {
                    WizardObjectStep::AwaitClass
                }
            },
            WizardObjectEvent::Class(ch) => {
                if ch == CANCEL_CHAR {
                    return WizardObjectStep::Done;
                }
                let mut obj = alloc_object();
                let max_kind: Option<usize> = if ch == '!' {
                    obj.what_is = ObjectWhat::Potion;
                    Some(13)
                } else if ch == '?' {
                    obj.what_is = ObjectWhat::Scroll;
                    Some(11)
                } else if ch == ',' {
                    obj.what_is = ObjectWhat::Amulet;
                    None
                } else if ch == ':' {
                    get_food(&mut obj, false);
                    None
                } else if ch == ')' {
                    gr_weapon(&mut obj, false);
                    Some(7)
                } else if ch == ']' {
                    gr_armor(&mut obj);
                    Some(6)
                } else if ch == '/' {
                    gr_wand(&mut obj);
                    Some(9)
                } else {
                    obj.what_is = ObjectWhat::Ring;
                    Some(10)
                };
                match max_kind {
                    Some(m) => WizardObjectStep::AwaitKind { obj, max_kind: m },
                    None => {
                        combine_or_add_item_to_pack(&mut state.pack, obj);
                        WizardObjectStep::Added(obj)
                    },
                }
            },
            WizardObjectEvent::Kind { obj, max_kind, kind } => {
                match kind {
                    None => WizardObjectStep::Done,
                    Some(k) => {
                        let mut o = obj;
                        o.which_kind = k as u16;
                        if o.what_is == ObjectWhat::Ring {
                            gr_ring(&mut o, false);
                        }
                        combine_or_add_item_to_pack(&mut state.pack, o);
                        WizardObjectStep::Added(o)
                    },
                }
            },
        }
    }
}

} // verus!
