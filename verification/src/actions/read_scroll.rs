//! Reading a scroll: choosing it from the pack and what each kind does.
use vstd::prelude::*;

use crate::actions::eat::{spec_swallowed_at, MenuInput};
use crate::constants::MAX_ARMOR;
use crate::level::{in_dungeon, Level};
use crate::monster::mash::MonsterMash;
use crate::monster::{aggravate, hold_monster, spec_aggravated, spec_held_count, spec_held_spot, spec_hold_text, spec_roster_matches, spec_with_flags};
use crate::monster::flags::spec_held;
use crate::motion::spec_texts;
use crate::object_what::ObjectWhat;
use crate::objects::kinds::SCROLLS;
use crate::objects::note_tables::{spec_has_table, NoteTables};
use crate::inventory::{get_pack_obj_desc, lemma_known_body_long, spec_describable, spec_description};
use crate::objects::object_pack::{lemma_position_valid, spec_position, ObjectPack};
use crate::objects::pack::{name_of, object_id_with_letter, spec_name_of};
use crate::objects::scrolls::{spec_scroll_index, spec_scroll_kind_of, ScrollKind};
use crate::objects::{Note, NoteStatus, Object, ObjectId};
use crate::random::coin_toss;
use crate::spot::DungeonSpot;

verus! {

/// The steps of reading: asking what to read, taking the answer, reading
/// the scroll, and using it up.
#[derive(Debug, Copy, Clone, Eq, PartialEq, Structural)]
pub enum ReadScrollEvent {
    S1Start,
    S2Select(MenuInput),
    S3Read(ObjectId),
    S4Finish(ObjectId, ScrollKind),
}

/// The work of a scroll that the rest of the game does: moving the rogue
/// elsewhere, putting it to sleep, showing the map, calling up a monster,
/// or asking what to identify.
#[derive(Debug, Copy, Clone, Eq, PartialEq, Structural)]
pub enum ScrollWork {
    Teleport,
    Sleep,
    MagicMap,
    CreateMonster,
    Identify,
}

/// What reading hands to the rest of the game: a menu of scrolls to show
/// ("read what?"), a wait for the next command, the next step of reading,
/// work to do before the scroll is used up with `S4Finish`, or the turn to
/// end.
#[derive(Debug, Copy, Clone, Eq, PartialEq, Structural)]
pub enum ReadStep {
    AwaitMenu,
    AwaitMove,
    Next(ReadScrollEvent),
    Outside(ScrollWork, ObjectId, ScrollKind),
    RegMove,
}

/// What reading a scroll reads and changes.
pub struct ReaderState {
    pub pack: ObjectPack,
    pub notes: NoteTables,
    pub weapon_id: Option<ObjectId>,
    pub armor_id: Option<ObjectId>,
    pub blind: bool,
    pub halluc: bool,
    pub rogue: DungeonSpot,
    pub level: Level,
    pub mash: MonsterMash,
    pub messages: Vec<String>,
    pub stats_changed: bool,
}

/// The position of the first object with id `id` in `pack`.
pub open spec fn spec_pos(pack: Seq<Object>, id: ObjectId) -> int {
    match spec_position(pack, id) {
        Some(i) => i,
        None => 0,
    }
}

/// The position of the first object of `pack` with letter `ch`.
pub open spec fn spec_letter_pos(pack: Seq<Object>, ch: char) -> Option<int> {
    if exists|i: int| 0 <= i < pack.len() && pack[i].ichar == ch {
        Some(choose|i: int| 0 <= i < pack.len() && pack[i].ichar == ch && forall|j: int| 0 <= j < i ==> pack[j].ichar != ch)
    } else {
        None
    }
}

/// Whether `pack` holds an object with id `id`.
pub open spec fn spec_holds(pack: Seq<Object>, id: ObjectId) -> bool {
    spec_position(pack, id) is Some
}

/// The object with its curse lifted.
pub open spec fn spec_uncursed(o: Object) -> Object {
    Object { is_cursed: 0, ..o }
}

/// What the rogue reads as its weapon glows `color` (a colour written
/// without a blank at either end).
pub open spec fn spec_weapon_glow(w: Object, fruit: Seq<char>, notes: NoteTables, color: Seq<char>) -> Seq<char> {
    "your "@ + spec_name_of(w, fruit, notes) + "glow"@ + (if w.quantity <= 1 {
        "s"@
    } else {
        ""@
    }) + " "@ + color + " for a moment"@
}

/// What the rogue reads as its armor glows `color` (a colour written
/// without a blank at either end).
pub open spec fn spec_armor_glow(color: Seq<char>) -> Seq<char> {
    "your armor glows "@ + color + " for a moment"@
}

/// The reader is fit to read: its notes are well formed, the weapon and
/// armor it uses are in its pack and can still be enchanted, and the level
/// and its monsters agree.
pub open spec fn spec_reader_ok(s: &ReaderState) -> bool {
    &&& s.notes.wf()
    &&& s.level.wf()
    &&& in_dungeon(s.rogue.row as int, s.rogue.col as int)
    &&& spec_roster_matches(&s.level, &s.mash)
    &&& s.weapon_id matches Some(w) ==> {
        let o = s.pack@[spec_pos(s.pack@, w)];
        &&& spec_holds(s.pack@, w)
        &&& o.hit_enchant < i16::MAX
        &&& o.d_enchant < isize::MAX
        &&& (o.what_is is Weapon ==> o.which_kind < 8)
        &&& (o.what_is is Wand ==> o.which_kind < 10)
    }
    &&& s.armor_id matches Some(a) ==> {
        &&& spec_holds(s.pack@, a)
        &&& s.pack@[spec_pos(s.pack@, a)].d_enchant < isize::MAX
    }
}

/// Everything but the pack, the notes, the monsters, the messages and the
/// status line is as it was.
pub open spec fn spec_reader_frame(before: &ReaderState, after: &ReaderState) -> bool {
    &&& after.weapon_id == before.weapon_id
    &&& after.armor_id == before.armor_id
    &&& after.blind == before.blind
    &&& after.halluc == before.halluc
    &&& after.rogue == before.rogue
    &&& after.level == before.level
}

/// The monsters after `hold_monster` from `before`.
pub open spec fn spec_mash_held(level: &Level, rogue: DungeonSpot, before: MonsterMash, after: MonsterMash) -> bool {
    &&& after.monsters@.dom() == before.monsters@.dom()
    &&& forall|id: u64| #[trigger]
        before.monsters@.contains_key(id) ==> after.monsters@[id] == (if spec_held_spot(level, rogue, before.monsters@[id].spot) {
            spec_with_flags(before.monsters@[id], spec_held(before.monsters@[id].m_flags))
        } else {
            before.monsters@[id]
        })
    &&& after.m_moves == before.m_moves
    &&& after.mon_disappeared == before.mon_disappeared
}

/// The monsters after `aggravate` from `before`.
pub open spec fn spec_mash_aggravated(before: MonsterMash, after: MonsterMash) -> bool {
    &&& after.monsters@.dom() == before.monsters@.dom()
    &&& forall|id: u64| #[trigger]
        before.monsters@.contains_key(id) ==> after.monsters@[id] == spec_with_flags(
            before.monsters@[id],
            spec_aggravated(before.monsters@[id].m_flags),
        )
    &&& after.m_moves == before.m_moves
    &&& after.mon_disappeared == before.mon_disappeared
}

/// What reading scroll `id` of kind `kind` does, before it is used up.
pub open spec fn spec_read_effect(
    kind: ScrollKind,
    id: ObjectId,
    before: &ReaderState,
    after: &ReaderState,
    r: ReadStep,
    fruit: Seq<char>,
    color: Seq<char>,
) -> bool {
    let t0 = spec_texts(before.messages@);
    let t1 = spec_texts(after.messages@);
    let p0 = before.pack@;
    let p1 = after.pack@;
    let finish = ReadStep::Next(ReadScrollEvent::S4Finish(id, kind));
    let same_mash = after.mash == before.mash;
    let same_notes = after.notes == before.notes;
    let same_stats = after.stats_changed == before.stats_changed;
    match kind {
        ScrollKind::ScareMonster => r == finish && p1 == p0 && same_mash && same_notes && same_stats
            && t1 == t0.push("you hear a maniacal laughter in the distance"@),
        ScrollKind::HoldMonster => r == finish && p1 == p0 && same_notes && same_stats
            && spec_mash_held(&before.level, before.rogue, before.mash, after.mash)
            && t1 == t0.push(spec_hold_text(spec_held_count(&before.level, before.rogue, 25))),
        ScrollKind::EnchWeapon => r == finish && same_mash && same_notes && same_stats && match before.weapon_id {
            Some(w) => {
                let p = spec_pos(p0, w);
                let o = p0[p];
                &&& t1 == t0.push(spec_weapon_glow(o, fruit, before.notes, color))
                &&& (p1 == p0.update(p, spec_uncursed(Object { hit_enchant: (o.hit_enchant + 1) as i16, ..o }))
                    || p1 == p0.update(p, spec_uncursed(Object { d_enchant: (o.d_enchant + 1) as isize, ..o })))
            },
            None => p1 == p0 && t1 == t0.push("your hands tingle"@),
        },
        ScrollKind::EnchArmor => r == finish && same_mash && same_notes && match before.armor_id {
            Some(a) => {
                let p = spec_pos(p0, a);
                let o = p0[p];
                &&& t1 == t0.push(spec_armor_glow(color))
                &&& p1 == p0.update(p, spec_uncursed(Object {
                    d_enchant: if o.d_enchant + 1 <= MAX_ARMOR { (o.d_enchant + 1) as isize } else { MAX_ARMOR },
                    ..o
                }))
                &&& after.stats_changed
            },
            None => p1 == p0 && same_stats && t1 == t0.push("your skin crawls"@),
        },
        ScrollKind::Identify => {
            let p = spec_pos(p0, id);
            &&& r == ReadStep::Outside(ScrollWork::Identify, id, kind)
            &&& same_mash && same_stats
            &&& t1 == t0.push("this is a scroll of identify"@)
            &&& p1 == p0.update(p, Object { identified: true, ..p0[p] })
            &&& after.notes.wf()
            &&& after.notes.same_except(&before.notes, ObjectWhat::Scroll)
            &&& after.notes.scrolls@ == before.notes.scrolls@.update(
                spec_scroll_index(kind),
                Note { status: NoteStatus::Identified, ..before.notes.scrolls@[spec_scroll_index(kind)] },
            )
        },
        ScrollKind::Teleport => r == ReadStep::Outside(ScrollWork::Teleport, id, kind) && p1 == p0 && same_mash
            && same_notes && same_stats && t1 == t0,
        ScrollKind::Sleep => r == ReadStep::Outside(ScrollWork::Sleep, id, kind) && p1 == p0 && same_mash
            && same_notes && same_stats && t1 == t0.push("you fall asleep"@),
        ScrollKind::ProtectArmor => r == finish && same_mash && same_notes && same_stats && match before.armor_id {
            Some(a) => {
                let p = spec_pos(p0, a);
                &&& t1 == t0.push("your armor is covered by a shimmering gold shield"@)
                &&& p1 == p0.update(p, spec_uncursed(Object { is_protected: 1, ..p0[p] }))
            },
            None => p1 == p0 && t1 == t0.push("your acne seems to have disappeared"@),
        },
        ScrollKind::RemoveCurse => r == finish && same_mash && same_notes && same_stats
            && p1 == p0.map_values(|o: Object| spec_uncursed(o)) && t1 == t0.push(
            if before.halluc {
                "you feel in touch with the universal oneness"@
            } else {
                "you feel as though someone is watching over you"@
            },
        ),
        ScrollKind::CreateMonster => r == ReadStep::Outside(ScrollWork::CreateMonster, id, kind) && p1 == p0
            && same_mash && same_notes && same_stats && t1 == t0,
        ScrollKind::AggravateMonster => r == finish && p1 == p0 && same_notes && same_stats
            && spec_mash_aggravated(before.mash, after.mash)
            && t1 == t0.push("you hear a high pitched humming noise"@),
        ScrollKind::MagicMapping => r == ReadStep::Outside(ScrollWork::MagicMap, id, kind) && p1 == p0 && same_mash
            && same_notes && same_stats && t1 == t0.push("this scroll seems to have a map on it"@),
    }
}

/// Appends `text` to the diary.
fn say(messages: &mut Vec<String>, text: &str)
    ensures
        spec_texts(final(messages)@) == spec_texts(old(messages)@).push(text@),
{
    let ghost before = spec_texts(messages@);
    messages.push(text.to_string());
    assert(spec_texts(messages@) =~= before.push(text@));
}

/// Lifts the curse of every object in the pack.
pub fn uncurse_all(pack: &mut ObjectPack)
    ensures
        final(pack)@ == old(pack)@.map_values(|o: Object| spec_uncursed(o)),
{
    let mut i: usize = 0;
    while i < pack.0.len()
        invariant
            i <= pack@.len(),
            pack@.len() == old(pack)@.len(),
            forall|j: int| 0 <= j < i ==> #[trigger] pack@[j] == spec_uncursed(old(pack)@[j]),
            forall|j: int| i <= j < pack@.len() ==> #[trigger] pack@[j] == old(pack)@[j],
        decreases pack@.len() - i,
    {
        let mut o = pack.0[i];
        o.is_cursed = 0;
        pack.0.set(i, o);
        i += 1;
    }
    assert(pack@ =~= old(pack)@.map_values(|o: Object| spec_uncursed(o)));
}

/// The position of the object with id `id`, which the pack holds.
pub(crate) fn position_of(pack: &ObjectPack, id: ObjectId) -> (r: usize)
    requires
        spec_holds(pack@, id),
    ensures
        r == spec_pos(pack@, id),
        r < pack@.len(),
        pack@[r as int].id == id,
{
    proof {
        lemma_position_valid(pack@, id);
    }
    pack.obj_position(id).unwrap()
}

/// A scroll of enchant weapon: the wielded weapon glows, gains one to hit or
/// one of damage by the toss of a coin, and loses its curse; with no weapon
/// the rogue's hands tingle.
fn enchant_weapon(state: &mut ReaderState, fruit: &str, color: &str)
    requires
        spec_reader_ok(old(state)),
    ensures
        spec_read_effect(ScrollKind::EnchWeapon, ObjectId(0), old(state), final(state), ReadStep::Next(
            ReadScrollEvent::S4Finish(ObjectId(0), ScrollKind::EnchWeapon),
        ), fruit@, color@),
        spec_reader_frame(old(state), final(state)),
{
    match state.weapon_id {
        Some(w) => {
            let p = position_of(&state.pack, w);
            let name = name_of(&state.pack.0[p], fruit.to_string(), &state.notes);
            let mut msg = String::new();
            msg.append("your ");
            msg.append(name.as_str());
            msg.append("glow");
            if state.pack.0[p].quantity <= 1 {
                msg.append("s");
            } else {
                msg.append("");
            }
            msg.append(" ");
            msg.append(color);
            msg.append(" for a moment");
            proof {
                reveal_strlit("your ");
                reveal_strlit("glow");
                reveal_strlit("s");
                reveal_strlit("");
                reveal_strlit(" ");
                reveal_strlit(" for a moment");
                assert(msg@ =~= spec_weapon_glow(old(state).pack@[p as int], fruit@, old(state).notes, color@));
            }
            let ghost before = spec_texts(state.messages@);
            state.messages.push(msg);
            proof {
                assert(spec_texts(state.messages@) =~= before.push(spec_weapon_glow(old(state).pack@[p as int], fruit@, old(state).notes, color@)));
            }
            let mut o = state.pack.0[p];
            if coin_toss() {
                o.hit_enchant = o.hit_enchant + 1;
            } else {
                o.d_enchant = o.d_enchant + 1;
            }
            o.is_cursed = 0;
            state.pack.0.set(p, o);
        },
        None => {
            say(&mut state.messages, "your hands tingle");
        },
    }
}

/// A scroll of enchant armor: the worn armor glows, gains one of enchantment
/// up to the most armor can have, and loses its curse, and the status line
/// is marked; with no armor the rogue's skin crawls.
fn enchant_armor(state: &mut ReaderState, color: &str)
    requires
        spec_reader_ok(old(state)),
    ensures
        spec_read_effect(ScrollKind::EnchArmor, ObjectId(0), old(state), final(state), ReadStep::Next(
            ReadScrollEvent::S4Finish(ObjectId(0), ScrollKind::EnchArmor),
        ), ""@, color@),
        spec_reader_frame(old(state), final(state)),
{
    match state.armor_id {
        Some(a) => {
            let p = position_of(&state.pack, a);
            let mut msg = String::new();
            msg.append("your armor glows ");
            msg.append(color);
            msg.append(" for a moment");
            proof {
                reveal_strlit("your armor glows ");
                reveal_strlit(" for a moment");
                assert(msg@ =~= spec_armor_glow(color@));
            }
            let ghost before = spec_texts(state.messages@);
            state.messages.push(msg);
            proof {
                assert(spec_texts(state.messages@) =~= before.push(spec_armor_glow(color@)));
            }
            let mut o = state.pack.0[p];
            o.raise_armor_enchant(1);
            o.is_cursed = 0;
            state.pack.0.set(p, o);
            state.stats_changed = true;
        },
        None => {
            say(&mut state.messages, "your skin crawls");
        },
    }
}

/// A scroll of protect armor: the worn armor is shielded against rust and
/// loses its curse; with no armor the rogue's acne disappears.
fn protect_armor(state: &mut ReaderState)
    requires
        spec_reader_ok(old(state)),
    ensures
        spec_read_effect(ScrollKind::ProtectArmor, ObjectId(0), old(state), final(state), ReadStep::Next(
            ReadScrollEvent::S4Finish(ObjectId(0), ScrollKind::ProtectArmor),
        ), ""@, ""@),
        spec_reader_frame(old(state), final(state)),
{
    match state.armor_id {
        Some(a) => {
            let p = position_of(&state.pack, a);
            say(&mut state.messages, "your armor is covered by a shimmering gold shield");
            let mut o = state.pack.0[p];
            o.is_protected = 1;
            o.is_cursed = 0;
            state.pack.0.set(p, o);
        },
        None => {
            say(&mut state.messages, "your acne seems to have disappeared");
        },
    }
}

/// Reads scroll `id` of kind `kind`, as `spec_read_effect` says.
fn read_effect(kind: ScrollKind, id: ObjectId, state: &mut ReaderState, fruit: &str, color: &str) -> (r: ReadStep)
    requires
        spec_reader_ok(old(state)),
        spec_holds(old(state).pack@, id),
    ensures
        spec_read_effect(kind, id, old(state), final(state), r, fruit@, color@),
        spec_reader_frame(old(state), final(state)),
{
    let finish = ReadStep::Next(ReadScrollEvent::S4Finish(id, kind));
    match kind {
        ScrollKind::ScareMonster => {
            say(&mut state.messages, "you hear a maniacal laughter in the distance");
            finish
        },
        ScrollKind::HoldMonster => {
            hold_monster(state.rogue, &state.level, &mut state.mash, &mut state.messages);
            finish
        },
        ScrollKind::EnchWeapon => {
            enchant_weapon(state, fruit, color);
            finish
        },
        ScrollKind::EnchArmor => {
            enchant_armor(state, color);
            finish
        },
        ScrollKind::Identify => {
            say(&mut state.messages, "this is a scroll of identify");
            let p = position_of(&state.pack, id);
            let mut o = state.pack.0[p];
            o.identified = true;
            state.pack.0.set(p, o);
            let note = state.notes.note_mut(ObjectWhat::Scroll, kind.to_index());
            note.status = NoteStatus::Identified;
            ReadStep::Outside(ScrollWork::Identify, id, kind)
        },
        ScrollKind::Teleport => ReadStep::Outside(ScrollWork::Teleport, id, kind),
        ScrollKind::Sleep => {
            say(&mut state.messages, "you fall asleep");
            ReadStep::Outside(ScrollWork::Sleep, id, kind)
        },
        ScrollKind::ProtectArmor => {
            protect_armor(state);
            finish
        },
        ScrollKind::RemoveCurse => {
            if state.halluc {
                say(&mut state.messages, "you feel in touch with the universal oneness");
            } else {
                say(&mut state.messages, "you feel as though someone is watching over you");
            }
            uncurse_all(&mut state.pack);
            finish
        },
        ScrollKind::CreateMonster => ReadStep::Outside(ScrollWork::CreateMonster, id, kind),
        ScrollKind::AggravateMonster => {
            aggravate(&mut state.mash, &mut state.messages);
            finish
        },
        ScrollKind::MagicMapping => {
            say(&mut state.messages, "this scroll seems to have a map on it");
            ReadStep::Outside(ScrollWork::MagicMap, id, kind)
        },
    }
}

impl ReadScrollEvent {
    /// Reading starts by asking what to read.
    pub fn new() -> (r: Self)
        ensures
            r == ReadScrollEvent::S1Start,
    {
        ReadScrollEvent::S1Start
    }

    /// One step of reading.  A blind rogue cannot see to read; otherwise
    /// starting shows the menu of scrolls.  Closing the menu waits for the
    /// next command; a letter that names no item says "no such item."; any
    /// other letter goes on to read that object.  An object that is not a
    /// scroll says "you can't read that"; a scroll does what its kind does
    /// (`spec_read_effect`), directly or through work handed out.  Using the
    /// scroll up marks its kind identified unless the rogue has called it
    /// something, takes one piece off the pack, and ends the turn, except
    /// after a scroll of sleep, whose nap takes the turns itself.  `color`
    /// is the colour that an enchanted weapon or armor glows, written
    /// without a blank at either end: the messages put one blank before it
    /// and " for a moment" after it.
    pub fn dispatch(self, state: &mut ReaderState, fruit: &str, color: &str) -> (r: ReadStep)
        requires
            spec_reader_ok(old(state)),
            forall|i: int| 0 <= i < old(state).pack@.len() ==> (#[trigger] old(state).pack@[i]).what_is is Scroll
                ==> old(state).pack@[i].which_kind < SCROLLS,
            self matches ReadScrollEvent::S3Read(id) ==> spec_holds(old(state).pack@, id),
            self matches ReadScrollEvent::S4Finish(id, _) ==> spec_holds(old(state).pack@, id),
        ensures
            spec_reader_frame(old(state), final(state)),
            self is S1Start ==> final(state).pack == old(state).pack && final(state).notes == old(state).notes
                && final(state).mash == old(state).mash && (if old(state).blind {
                r == ReadStep::AwaitMove && spec_texts(final(state).messages@) == spec_texts(
                    old(state).messages@,
                ).push("You can't see to read the scroll."@)
            } else {
                r == ReadStep::AwaitMenu && final(state).messages@ == old(state).messages@
            }),
            self == ReadScrollEvent::S2Select(MenuInput::Close) ==> r == ReadStep::AwaitMove
                && final(state).messages@ == old(state).messages@,
            (self matches ReadScrollEvent::S2Select(MenuInput::Item(ch)) ==> match r {
                ReadStep::Next(ReadScrollEvent::S3Read(id)) => final(state).messages@ == old(state).messages@
                    && exists|i: int| 0 <= i < old(state).pack@.len() && old(state).pack@[i].ichar == ch
                        && old(state).pack@[i].id == id,
                ReadStep::AwaitMove => (forall|i: int| 0 <= i < old(state).pack@.len() ==> old(state).pack@[i].ichar != ch)
                    && spec_texts(final(state).messages@) == spec_texts(old(state).messages@).push("no such item."@),
                _ => false,
            }),
            (self matches ReadScrollEvent::S3Read(id) ==> match spec_scroll_kind_of(old(state).pack@[spec_pos(old(state).pack@, id)]) {
                Some(kind) => spec_read_effect(kind, id, old(state), final(state), r, fruit@, color@),
                None => r == ReadStep::AwaitMove && spec_texts(final(state).messages@) == spec_texts(
                    old(state).messages@,
                ).push("you can't read that"@),
            }),
            (self matches ReadScrollEvent::S4Finish(id, kind) ==> {
                &&& spec_swallowed_at(old(state).pack@, final(state).pack@, id, spec_pos(old(state).pack@, id))
                &&& final(state).notes.wf()
                &&& final(state).notes.same_except(&old(state).notes, ObjectWhat::Scroll)
                &&& final(state).notes.scrolls@ == (if old(state).notes.scrolls@[spec_scroll_index(kind)].status is Called {
                    old(state).notes.scrolls@
                } else {
                    old(state).notes.scrolls@.update(
                        spec_scroll_index(kind),
                        Note { status: NoteStatus::Identified, ..old(state).notes.scrolls@[spec_scroll_index(kind)] },
                    )
                })
                &&& r == (if kind == ScrollKind::Sleep { ReadStep::AwaitMove } else { ReadStep::RegMove })
                &&& final(state).messages@ == old(state).messages@
            }),
            !(self is S3Read) && !(self is S4Finish) ==> final(state).pack == old(state).pack
                && final(state).notes == old(state).notes && final(state).mash == old(state).mash,
    {
        match self {
            ReadScrollEvent::S1Start => {
                if state.blind {
                    say(&mut state.messages, "You can't see to read the scroll.");
                    ReadStep::AwaitMove
                } else {
                    ReadStep::AwaitMenu
                }
            },
            ReadScrollEvent::S2Select(input) => match input {
                MenuInput::Close => ReadStep::AwaitMove,
                MenuInput::Item(ch) => match object_id_with_letter(&state.pack.0, ch) {
                    None => {
                        say(&mut state.messages, "no such item.");
                        ReadStep::AwaitMove
                    },
                    Some(obj_id) => ReadStep::Next(ReadScrollEvent::S3Read(obj_id)),
                },
            },
            ReadScrollEvent::S3Read(obj_id) => {
                let p = position_of(&state.pack, obj_id);
                match state.pack.0[p].scroll_kind() {
                    None => {
                        say(&mut state.messages, "you can't read that");
                        ReadStep::AwaitMove
                    },
                    Some(kind) => read_effect(kind, obj_id, state, fruit, color),
                }
            },
            ReadScrollEvent::S4Finish(obj_id, kind) => {
                state.notes.identify_if_un_called(ObjectWhat::Scroll, kind.to_index());
                state.pack.reduce_quantity_or_remove(obj_id);
                if kind == ScrollKind::Sleep {
                    ReadStep::AwaitMove
                } else {
                    ReadStep::RegMove
                }
            },
        }
    }
}

/// What asking for an object to identify leads to: the menu again, or the
/// end of identifying.
#[derive(Debug, Copy, Clone, Eq, PartialEq, Structural)]
pub enum IdentifyStep {
    AwaitMenu,
    Done,
}

/// The position of the first object of the pack with letter `ch`.
fn letter_position(pack: &ObjectPack, ch: char) -> (r: Option<usize>)
    ensures
        match r {
            Some(i) => i < pack@.len() && pack@[i as int].ichar == ch && forall|j: int| 0 <= j < i ==> pack@[j].ichar != ch,
            None => forall|i: int| 0 <= i < pack@.len() ==> pack@[i].ichar != ch,
        },
{
    let mut i: usize = 0;
    while i < pack.0.len()
        invariant
            i <= pack@.len(),
            forall|j: int| 0 <= j < i ==> pack@[j].ichar != ch,
        decreases pack@.len() - i,
    {
        if pack.0[i].ichar == ch {
            return Some(i);
        }
        i += 1;
    }
    None
}

/// One answer to "what would you like to identify?".  Closing the menu ends
/// identifying.  A letter that names no item says "no such item, try
/// again" and an empty line.  Otherwise the first object with that letter
/// becomes known, its kind is identified where its class keeps notes, and
/// the diary shows its description and letter; either way the menu is
/// shown again.
pub fn identify_pick(state: &mut ReaderState, input: MenuInput, fruit: &str, wizard: bool) -> (r: IdentifyStep)
    requires
        old(state).notes.wf(),
        fruit@.len() > 0,
        forall|i: int| 0 <= i < old(state).pack@.len() ==> spec_describable(#[trigger] old(state).pack@[i], old(state).notes),
    ensures
        spec_reader_frame(old(state), final(state)),
        final(state).mash == old(state).mash,
        final(state).stats_changed == old(state).stats_changed,
        final(state).notes.wf(),
        input is Close ==> r == IdentifyStep::Done && final(state).pack == old(state).pack
            && final(state).notes == old(state).notes && final(state).messages@ == old(state).messages@,
        input matches MenuInput::Item(ch) ==> r == IdentifyStep::AwaitMenu && match spec_letter_pos(old(state).pack@, ch) {
            None => final(state).pack == old(state).pack && final(state).notes == old(state).notes
                && spec_texts(final(state).messages@) == spec_texts(old(state).messages@).push(
                "no such item, try again"@,
            ).push(""@),
            Some(p) => {
                let o = old(state).pack@[p];
                let known = Object { identified: true, ..o };
                &&& final(state).pack@ == old(state).pack@.update(p, known)
                &&& (spec_has_table(o.what_is) ==> {
                    &&& final(state).notes.same_except(&old(state).notes, o.what_is)
                    &&& final(state).notes.spec_table(o.what_is) == old(state).notes.spec_table(o.what_is).update(
                        o.which_kind as int,
                        Note { status: NoteStatus::Identified, ..old(state).notes.spec_table(o.what_is)[o.which_kind as int] },
                    )
                })
                &&& (!spec_has_table(o.what_is) ==> final(state).notes == old(state).notes)
                &&& spec_texts(final(state).messages@) == spec_texts(old(state).messages@).push(
                    spec_description(known, fruit@, final(state).notes, wizard) + "("@ + seq![ch] + ")"@,
                )
            },
        },
{
    match input {
        MenuInput::Close => IdentifyStep::Done,
        MenuInput::Item(ch) => {
            match letter_position(&state.pack, ch) {
                None => {
                    say(&mut state.messages, "no such item, try again");
                    say(&mut state.messages, "");
                    IdentifyStep::AwaitMenu
                },
                Some(p) => {
                    let mut o = state.pack.0[p];
                    o.identified = true;
                    state.pack.0.set(p, o);
                    let what = o.what_is;
                    if what == ObjectWhat::Scroll || what == ObjectWhat::Potion || what == ObjectWhat::Weapon
                        || what == ObjectWhat::Armor || what == ObjectWhat::Wand || what == ObjectWhat::Ring {
                        state.notes.identify(what, o.which_kind as usize);
                    }
                    proof {
                        reveal_strlit("a ");
                        if !(what is Gold) && !(what is Amulet) {
                            lemma_known_body_long(o, fruit@, state.notes, wizard);
                        }
                    }
                    let msg = get_pack_obj_desc(&o, fruit.to_string(), &state.notes, wizard);
                    let ghost before = spec_texts(state.messages@);
                    state.messages.push(msg);
                    proof {
                        assert(spec_texts(state.messages@) =~= before.push(
                            spec_description(o, fruit@, state.notes, wizard) + "("@ + seq![ch] + ")"@,
                        ));
                    }
                    IdentifyStep::AwaitMenu
                },
            }
        },
    }
}

} // verus!
