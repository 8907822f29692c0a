//! Quaffing: choosing a potion from the pack and drinking it.
use vstd::prelude::*;

use crate::actions::eat::{spec_swallowed_at, MenuInput};
use crate::actions::read_scroll::{position_of, spec_holds, spec_pos};
use crate::object_what::ObjectWhat;
use crate::objects::kinds::POTIONS;
use crate::objects::note_tables::NoteTables;
use crate::objects::object_pack::ObjectPack;
use crate::objects::pack::object_id_with_letter;
use crate::objects::potions::{spec_potion_index, spec_potion_kind_of, PotionKind};
use crate::objects::{Note, NoteStatus, ObjectId};

verus! {

/// What the rogue reads when a potion does nothing it can notice.
pub const STRANGE_FEELING: &'static str = "you have a strange feeling for a moment, then it passes";

/// The steps of quaffing: asking what to drink, taking the answer, giving
/// up with a report, checking that it is a potion, drinking it, and ending
/// the turn.
#[derive(Debug)]
pub enum QuaffPotionEvent {
    S1Start,
    S2Select(MenuInput),
    S3Cancel(Option<String>),
    S4Sip(ObjectId),
    S5Gulp(ObjectId, PotionKind),
    S6End,
}

/// What quaffing hands to the rest of the game: a menu of potions to show,
/// a wait for the next command, the next step of quaffing, the potion's
/// effect to work (after which `S6End` follows), or the turn to end.
#[derive(Debug)]
pub enum QuaffStep {
    AwaitMenu,
    AwaitMove,
    Next(QuaffPotionEvent),
    Drink(PotionKind),
    RegMove,
}

/// What quaffing reads and changes.
pub struct QuaffState {
    pub pack: ObjectPack,
    pub notes: NoteTables,
    pub message_line: Option<String>,
    pub stats_changed: bool,
}

impl QuaffPotionEvent {
    /// Quaffing starts by asking what to drink.
    pub fn new() -> (r: Self)
        ensures
            r matches QuaffPotionEvent::S1Start,
    {
        QuaffPotionEvent::S1Start
    }

    /// One step of quaffing.  Starting asks "quaff what?" and shows the
    /// menu.  Closing the menu gives up quietly; a letter that names no item
    /// gives up with "no such item."; any other letter goes on to that
    /// object.  Giving up shows its report, if any, and waits for the next
    /// command.  An object that is not a potion gives up with "you can't
    /// drink that".  Drinking takes one potion off the pack, identifies its
    /// kind unless the rogue has called it something, marks the status line
    /// and hands out the potion's effect; the end ends the turn.
    pub fn dispatch(self, state: &mut QuaffState) -> (r: QuaffStep)
        requires
            old(state).notes.wf(),
            forall|i: int| 0 <= i < old(state).pack@.len() ==> (#[trigger] old(state).pack@[i]).what_is is Potion
                ==> old(state).pack@[i].which_kind < POTIONS,
            self matches QuaffPotionEvent::S4Sip(id) ==> spec_holds(old(state).pack@, id),
            self matches QuaffPotionEvent::S5Gulp(id, _) ==> spec_holds(old(state).pack@, id),
        ensures
            !(self is S5Gulp) ==> final(state).pack == old(state).pack && final(state).notes == old(state).notes
                && final(state).stats_changed == old(state).stats_changed,
            self is S1Start ==> r is AwaitMenu && (final(state).message_line matches Some(m) && m@ == "quaff what?"@),
            self matches QuaffPotionEvent::S2Select(MenuInput::Close) ==> r matches QuaffStep::Next(
                QuaffPotionEvent::S3Cancel(None),
            ),
            (self matches QuaffPotionEvent::S2Select(MenuInput::Item(ch)) ==> match r {
                QuaffStep::Next(QuaffPotionEvent::S4Sip(id)) => exists|i: int|
                    0 <= i < old(state).pack@.len() && old(state).pack@[i].ichar == ch && old(state).pack@[i].id == id,
                QuaffStep::Next(QuaffPotionEvent::S3Cancel(Some(m))) => m@ == "no such item."@ && forall|i: int|
                    0 <= i < old(state).pack@.len() ==> old(state).pack@[i].ichar != ch,
                _ => false,
            }),
            self matches QuaffPotionEvent::S3Cancel(report) ==> r is AwaitMove && final(state).message_line == report,
            (self matches QuaffPotionEvent::S4Sip(id) ==> final(state).message_line is None && (match spec_potion_kind_of(
                old(state).pack@[spec_pos(old(state).pack@, id)],
            ) {
                Some(kind) => (r matches QuaffStep::Next(QuaffPotionEvent::S5Gulp(gid, gkind)) && gid == id && gkind == kind),
                None => (r matches QuaffStep::Next(QuaffPotionEvent::S3Cancel(Some(m))) && m@ == "you can't drink that"@),
            })),
            (self matches QuaffPotionEvent::S5Gulp(id, kind) ==> {
                &&& (r matches QuaffStep::Drink(k) && k == kind)
                &&& spec_swallowed_at(old(state).pack@, final(state).pack@, id, spec_pos(old(state).pack@, id))
                &&& final(state).notes.wf()
                &&& final(state).notes.same_except(&old(state).notes, ObjectWhat::Potion)
                &&& final(state).notes.potions@ == (if old(state).notes.potions@[spec_potion_index(kind)].status is Called {
                    old(state).notes.potions@
                } else {
                    old(state).notes.potions@.update(
                        spec_potion_index(kind),
                        Note { status: NoteStatus::Identified, ..old(state).notes.potions@[spec_potion_index(kind)] },
                    )
                })
                &&& final(state).stats_changed
            }),
            self is S6End ==> r is RegMove,
    {
        match self {
            QuaffPotionEvent::S1Start => {
                state.message_line = Some("quaff what?".to_string());
                QuaffStep::AwaitMenu
            },
            QuaffPotionEvent::S2Select(input) => match input {
                MenuInput::Close => QuaffStep::Next(QuaffPotionEvent::S3Cancel(None)),
                MenuInput::Item(letter) => match object_id_with_letter(&state.pack.0, letter) {
                    None => QuaffStep::Next(QuaffPotionEvent::S3Cancel(Some("no such item.".to_string()))),
                    Some(obj_id) => QuaffStep::Next(QuaffPotionEvent::S4Sip(obj_id)),
                },
            },
            QuaffPotionEvent::S3Cancel(report) => {
                state.message_line = report;
                QuaffStep::AwaitMove
            },
            QuaffPotionEvent::S4Sip(obj_id) => {
                state.message_line = None;
                let p = position_of(&state.pack, obj_id);
                match state.pack.0[p].potion_kind() {
                    None => QuaffStep::Next(QuaffPotionEvent::S3Cancel(Some("you can't drink that".to_string()))),
                    Some(kind) => QuaffStep::Next(QuaffPotionEvent::S5Gulp(obj_id, kind)),
                }
            },
            QuaffPotionEvent::S5Gulp(obj_id, kind) => {
                state.pack.reduce_quantity_or_remove(obj_id);
                state.notes.identify_if_un_called(ObjectWhat::Potion, kind.to_index());
                state.stats_changed = true;
                QuaffStep::Drink(kind)
            },
            QuaffPotionEvent::S6End => QuaffStep::RegMove,
        }
    }
}

} // verus!
