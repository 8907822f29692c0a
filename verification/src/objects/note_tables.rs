//! What the rogue knows of each kind of object: a note per kind, with the
//! title the kind goes by and whether it has been identified.
use vstd::prelude::*;

use crate::armors::{ArmorKind, ARMORS};
use crate::object_what::ObjectWhat;
use crate::objects::kinds::{
    spec_ring_gem_index, spec_syllable, spec_wand_material_index, syllable, PotionColor, RingGem,
    WandMaterial, WeaponKind, MAX_GEM, MAX_SYLLABLE, MAX_WAND_MATERIAL, POTIONS, RINGS, SCROLLS,
    WANDS, WEAPONS,
};
use crate::objects::{Note, NoteStatus, Title};
use crate::random::{get_rand_usize, shuffle_vec};

verus! {

/// Whether a class of object has a table of notes.
pub open spec fn spec_has_table(what: ObjectWhat) -> bool {
    what is Scroll || what is Potion || what is Wand || what is Ring || what is Weapon || what is Armor
}

/// Calls `String::push`, whose documentation says that it appends the given
/// character to the end of the string.
#[verifier::external_body]
pub(crate) fn push_char(s: &mut String, c: char)
    ensures
        final(s)@ == old(s)@.push(c),
{
    s.push(c);
}

/// The syllables joined with single spaces.
pub open spec fn spec_join_syllables(idx: Seq<usize>) -> Seq<char>
    decreases idx.len(),
{
    if idx.len() == 0 {
        Seq::empty()
    } else if idx.len() == 1 {
        spec_syllable(idx[0])
    } else {
        spec_join_syllables(idx.drop_last()) + " "@ + spec_syllable(idx.last())
    }
}

/// The title of a scroll made of the syllables at positions `idx`: the
/// syllables joined with spaces, in single quotes, followed by a space.
pub open spec fn spec_scroll_title(idx: Seq<usize>) -> Seq<char> {
    "'"@ + spec_join_syllables(idx) + "' "@
}

/// The notes of every class of object that the rogue must learn.
#[derive(Debug, Eq, PartialEq)]
pub struct NoteTables {
    pub potions: Vec<Note>,
    pub scrolls: Vec<Note>,
    pub weapons: Vec<Note>,
    pub armors: Vec<Note>,
    pub wands: Vec<Note>,
    pub rings: Vec<Note>,
}

impl NoteTables {
    /// Every table holds one note per kind of its class.
    pub open spec fn wf(&self) -> bool {
        &&& self.potions@.len() == POTIONS
        &&& self.scrolls@.len() == SCROLLS
        &&& self.weapons@.len() == WEAPONS
        &&& self.armors@.len() == ARMORS
        &&& self.wands@.len() == WANDS
        &&& self.rings@.len() == RINGS
    }

    /// The table of a class of object.
    pub open spec fn spec_table(&self, what: ObjectWhat) -> Seq<Note> {
        match what {
            ObjectWhat::Scroll => self.scrolls@,
            ObjectWhat::Potion => self.potions@,
            ObjectWhat::Wand => self.wands@,
            ObjectWhat::Ring => self.rings@,
            ObjectWhat::Weapon => self.weapons@,
            _ => self.armors@,
        }
    }

    /// The tables agree on every class but `what`.
    pub open spec fn same_except(&self, other: &NoteTables, what: ObjectWhat) -> bool {
        &&& (!(what is Scroll) ==> self.scrolls@ == other.scrolls@)
        &&& (!(what is Potion) ==> self.potions@ == other.potions@)
        &&& (!(what is Wand) ==> self.wands@ == other.wands@)
        &&& (!(what is Ring) ==> self.rings@ == other.rings@)
        &&& (!(what is Weapon) ==> self.weapons@ == other.weapons@)
        &&& (!(what is Armor) ==> self.armors@ == other.armors@)
    }

    /// Fresh tables: potions titled by their colours in order, weapons and
    /// armor by their names, scrolls, wands and rings untitled, and nothing
    /// identified.
    pub fn new() -> (r: Self)
        ensures
            r.wf(),
            forall|i: int| 0 <= i < POTIONS ==> (#[trigger] r.potions@[i]) == (Note {
                title: Title::PotionColor(PotionColor::from_index_spec(i as usize)),
                status: NoteStatus::Unidentified,
                is_wood: false,
            }),
            forall|i: int| 0 <= i < WEAPONS ==> (#[trigger] r.weapons@[i]) == (Note {
                title: Title::WeaponName(WeaponKind::from_index_spec(i as usize)),
                status: NoteStatus::Unidentified,
                is_wood: false,
            }),
            forall|i: int| 0 <= i < ARMORS ==> (#[trigger] r.armors@[i]) == (Note {
                title: Title::ArmorName(ArmorKind::from_index_spec(i as usize)),
                status: NoteStatus::Unidentified,
                is_wood: false,
            }),
            forall|i: int| 0 <= i < SCROLLS ==> (#[trigger] r.scrolls@[i]) == blank_note(),
            forall|i: int| 0 <= i < WANDS ==> (#[trigger] r.wands@[i]) == blank_note(),
            forall|i: int| 0 <= i < RINGS ==> (#[trigger] r.rings@[i]) == blank_note(),
    {
        let mut potions: Vec<Note> = Vec::new();
        let mut i: usize = 0;
        while i < POTIONS
            invariant
                i <= POTIONS,
                potions@.len() == i,
                forall|k: int| 0 <= k < i ==> (#[trigger] potions@[k]) == (Note {
                    title: Title::PotionColor(PotionColor::from_index_spec(k as usize)),
                    status: NoteStatus::Unidentified,
                    is_wood: false,
                }),
            decreases POTIONS - i,
        {
            potions.push(Note {
                title: Title::PotionColor(PotionColor::from_index(i)),
                status: NoteStatus::Unidentified,
                is_wood: false,
            });
            i += 1;
        }
        let mut weapons: Vec<Note> = Vec::new();
        let mut i: usize = 0;
        while i < WEAPONS
            invariant
                i <= WEAPONS,
                weapons@.len() == i,
                forall|k: int| 0 <= k < i ==> (#[trigger] weapons@[k]) == (Note {
                    title: Title::WeaponName(WeaponKind::from_index_spec(k as usize)),
                    status: NoteStatus::Unidentified,
                    is_wood: false,
                }),
            decreases WEAPONS - i,
        {
            weapons.push(Note {
                title: Title::WeaponName(WeaponKind::from_index(i)),
                status: NoteStatus::Unidentified,
                is_wood: false,
            });
            i += 1;
        }
        let mut armors: Vec<Note> = Vec::new();
        let mut i: usize = 0;
        while i < ARMORS
            invariant
                i <= ARMORS,
                armors@.len() == i,
                forall|k: int| 0 <= k < i ==> (#[trigger] armors@[k]) == (Note {
                    title: Title::ArmorName(ArmorKind::from_index_spec(k as usize)),
                    status: NoteStatus::Unidentified,
                    is_wood: false,
                }),
            decreases ARMORS - i,
        {
            armors.push(ArmorKind::from_index(i).to_id());
            i += 1;
        }
        NoteTables {
            potions,
            scrolls: blank_notes(SCROLLS),
            weapons,
            armors,
            wands: blank_notes(WANDS),
            rings: blank_notes(RINGS),
        }
    }

    /// Marks every kind of every class as identified.
    pub fn identify_all(&mut self)
        requires
            old(self).wf(),
        ensures
            final(self).wf(),
            forall|w: ObjectWhat, k: int| spec_has_table(w) && 0 <= k < final(self).spec_table(w).len()
                ==> (#[trigger] final(self).spec_table(w)[k]) == (Note {
                    status: NoteStatus::Identified,
                    ..old(self).spec_table(w)[k]
                }),
    {
        identify_table(&mut self.potions);
        identify_table(&mut self.scrolls);
        identify_table(&mut self.weapons);
        identify_table(&mut self.armors);
        identify_table(&mut self.wands);
        identify_table(&mut self.rings);
    }

    /// Marks kind `kind` of class `what` as identified.
    pub fn identify(&mut self, what: ObjectWhat, kind: usize)
        requires
            old(self).wf(),
            spec_has_table(what),
            kind < old(self).spec_table(what).len(),
        ensures
            final(self).wf(),
            final(self).same_except(old(self), what),
            final(self).spec_table(what) == old(self).spec_table(what).update(
                kind as int,
                Note { status: NoteStatus::Identified, ..old(self).spec_table(what)[kind as int] },
            ),
    {
        let id = self.note_mut(what, kind);
        id.status = NoteStatus::Identified;
    }

    /// Marks kind `kind` of class `what` as identified, unless the rogue has
    /// called it something.
    pub fn identify_if_un_called(&mut self, what: ObjectWhat, kind: usize)
        requires
            old(self).wf(),
            spec_has_table(what),
            kind < old(self).spec_table(what).len(),
        ensures
            final(self).wf(),
            final(self).same_except(old(self), what),
            final(self).spec_table(what) == (if old(self).spec_table(what)[kind as int].status is Called {
                old(self).spec_table(what)
            } else {
                old(self).spec_table(what).update(
                    kind as int,
                    Note { status: NoteStatus::Identified, ..old(self).spec_table(what)[kind as int] },
                )
            }),
    {
        let id = self.note_mut(what, kind);
        if id.status != NoteStatus::Called {
            id.status = NoteStatus::Identified;
        }
    }

    /// The title of kind `kind` of class `what`.
    pub fn title(&self, what: ObjectWhat, kind: usize) -> (r: Title)
        requires
            self.wf(),
            spec_has_table(what),
            kind < self.spec_table(what).len(),
        ensures
            r == self.spec_table(what)[kind as int].title,
    {
        self.note(what, kind).title.duplicate()
    }

    /// How far kind `kind` of class `what` is known.
    pub fn status(&self, what: ObjectWhat, kind: usize) -> (r: NoteStatus)
        requires
            self.wf(),
            spec_has_table(what),
            kind < self.spec_table(what).len(),
        ensures
            r == self.spec_table(what)[kind as int].status,
    {
        self.note(what, kind).status
    }

    /// The note of kind `kind` of class `what`.
    pub fn note(&self, what: ObjectWhat, kind: usize) -> (r: &Note)
        requires
            self.wf(),
            spec_has_table(what),
            kind < self.spec_table(what).len(),
        ensures
            *r == self.spec_table(what)[kind as int],
    {
        match what {
            ObjectWhat::Scroll => &self.scrolls[kind],
            ObjectWhat::Potion => &self.potions[kind],
            ObjectWhat::Wand => &self.wands[kind],
            ObjectWhat::Ring => &self.rings[kind],
            ObjectWhat::Weapon => &self.weapons[kind],
            _ => &self.armors[kind],
        }
    }

    /// The note of kind `kind` of class `what`, to change in place.
    pub fn note_mut(&mut self, what: ObjectWhat, kind: usize) -> (r: &mut Note)
        requires
            old(self).wf(),
            spec_has_table(what),
            kind < old(self).spec_table(what).len(),
        ensures
            *r == old(self).spec_table(what)[kind as int],
            final(self).wf(),
            final(self).same_except(old(self), what),
            final(self).spec_table(what) == old(self).spec_table(what).update(kind as int, *final(r)),
    {
        match what {
            ObjectWhat::Scroll => &mut self.scrolls[kind],
            ObjectWhat::Potion => &mut self.potions[kind],
            ObjectWhat::Wand => &mut self.wands[kind],
            ObjectWhat::Ring => &mut self.rings[kind],
            ObjectWhat::Weapon => &mut self.weapons[kind],
            _ => &mut self.armors[kind],
        }
    }
}

impl NoteTables {
    /// Gives the kinds whose looks change from game to game their titles:
    /// potions trade colours, scrolls get titles of random syllables, wands
    /// get distinct materials and rings distinct gems; weapons and armor keep
    /// theirs.
    pub fn assign_dynamic_titles(&mut self)
        requires
            old(self).wf(),
        ensures
            final(self).wf(),
            final(self).potions@.to_multiset() == old(self).potions@.to_multiset(),
            forall|i: int| 0 <= i < SCROLLS ==> spec_is_scroll_title((#[trigger] final(self).scrolls@[i]).title),
            forall|i: int| 0 <= i < SCROLLS ==> (#[trigger] final(self).scrolls@[i]).status == old(self).scrolls@[i].status,
            spec_wands_have_distinct_materials(final(self).wands@, old(self).wands@),
            spec_rings_have_distinct_gems(final(self).rings@, old(self).rings@),
            final(self).weapons@ == old(self).weapons@,
            final(self).armors@ == old(self).armors@,
    {
        self.shuffle_potions_colors();
        self.make_scroll_titles();
        self.assign_wand_materials();
        self.assign_ring_gems()
    }

    /// Trades the potions' notes around by thirty-three random swaps.
    fn shuffle_potions_colors(&mut self)
        requires
            old(self).wf(),
        ensures
            final(self).wf(),
            final(self).potions@.to_multiset() == old(self).potions@.to_multiset(),
            final(self).scrolls@ == old(self).scrolls@,
            final(self).wands@ == old(self).wands@,
            final(self).rings@ == old(self).rings@,
            final(self).weapons@ == old(self).weapons@,
            final(self).armors@ == old(self).armors@,
    {
        let mut n: usize = 0;
        while n <= 32
            invariant
                n <= 33,
                self.wf(),
                self.potions@.to_multiset() == old(self).potions@.to_multiset(),
                self.scrolls@ == old(self).scrolls@,
                self.wands@ == old(self).wands@,
                self.rings@ == old(self).rings@,
                self.weapons@ == old(self).weapons@,
                self.armors@ == old(self).armors@,
            decreases 33 - n,
        {
            let j = get_rand_usize(0, POTIONS - 1);
            let k = get_rand_usize(0, POTIONS - 1);
            swap_notes(&mut self.potions, j, k);
            n += 1;
        }
    }

    /// Titles every scroll with two to five random syllables.
    fn make_scroll_titles(&mut self)
        requires
            old(self).wf(),
        ensures
            final(self).wf(),
            forall|i: int| 0 <= i < SCROLLS ==> spec_is_scroll_title((#[trigger] final(self).scrolls@[i]).title),
            forall|i: int| 0 <= i < SCROLLS ==> (#[trigger] final(self).scrolls@[i]).status == old(self).scrolls@[i].status,
            forall|i: int| 0 <= i < SCROLLS ==> (#[trigger] final(self).scrolls@[i]).is_wood == old(self).scrolls@[i].is_wood,
            final(self).potions@ == old(self).potions@,
            final(self).wands@ == old(self).wands@,
            final(self).rings@ == old(self).rings@,
            final(self).weapons@ == old(self).weapons@,
            final(self).armors@ == old(self).armors@,
    {
        let mut i: usize = 0;
        while i < SCROLLS
            invariant
                i <= SCROLLS,
                self.wf(),
                forall|k: int| 0 <= k < i ==> spec_is_scroll_title((#[trigger] self.scrolls@[k]).title),
                forall|k: int| 0 <= k < SCROLLS ==> (#[trigger] self.scrolls@[k]).status == old(self).scrolls@[k].status,
                forall|k: int| 0 <= k < SCROLLS ==> (#[trigger] self.scrolls@[k]).is_wood == old(self).scrolls@[k].is_wood,
                self.potions@ == old(self).potions@,
                self.wands@ == old(self).wands@,
                self.rings@ == old(self).rings@,
                self.weapons@ == old(self).weapons@,
                self.armors@ == old(self).armors@,
            decreases SCROLLS - i,
        {
            let joined = Self::random_scroll_title();
            let note = &mut self.scrolls[i];
            note.title = Title::SyllableString(joined);
            i += 1;
        }
    }

    /// A scroll title of two to five random syllables.
    fn random_scroll_title() -> (r: String)
        ensures
            exists|idx: Seq<usize>| #[trigger] spec_valid_syllables(idx) && r@ == spec_scroll_title(idx),
    {
        let count = get_rand_usize(2, 5);
        let mut title = String::new();
        title.append("'");
        let ghost mut idx: Seq<usize> = Seq::empty();
        let mut n: usize = 0;
        while n < count
            invariant
                n <= count,
                2 <= count <= 5,
                idx.len() == n,
                forall|k: int| 0 <= k < idx.len() ==> 1 <= #[trigger] idx[k] < MAX_SYLLABLE,
                title@ == "'"@ + spec_join_syllables(idx),
            decreases count - n,
        {
            let s = get_rand_usize(1, MAX_SYLLABLE - 1);
            if n > 0 {
                title.append(" ");
            }
            title.append(syllable(s));
            proof {
                let next = idx.push(s);
                assert(next.drop_last() == idx);
                if n == 0 {
                    assert(spec_join_syllables(idx) == Seq::<char>::empty());
                    assert("'"@ + Seq::<char>::empty() == "'"@);
                    assert(spec_join_syllables(next) == spec_syllable(s));
                } else {
                    assert(spec_join_syllables(next) == spec_join_syllables(idx) + " "@ + spec_syllable(s));
                }
                idx = next;
            }
            n += 1;
        }
        title.append("' ");
        assert(spec_valid_syllables(idx));
        title
    }

    /// Gives the wands distinct random materials, and marks those of wood.
    pub fn assign_wand_materials(&mut self)
        requires
            old(self).wf(),
        ensures
            final(self).wf(),
            spec_wands_have_distinct_materials(final(self).wands@, old(self).wands@),
            final(self).potions@ == old(self).potions@,
            final(self).scrolls@ == old(self).scrolls@,
            final(self).rings@ == old(self).rings@,
            final(self).weapons@ == old(self).weapons@,
            final(self).armors@ == old(self).armors@,
    {
        let mut unused = shuffled_indices(MAX_WAND_MATERIAL);
        let mut i: usize = 0;
        while i < WANDS
            invariant
                i <= WANDS,
                self.wf(),
                unused@.len() == MAX_WAND_MATERIAL - i,
                unused@.no_duplicates(),
                forall|k: int| 0 <= k < unused@.len() ==> (#[trigger] unused@[k]) < MAX_WAND_MATERIAL,
                forall|k: int| 0 <= k < i ==> (#[trigger] self.wands@[k]).title is WandMaterial,
                forall|k: int| 0 <= k < i ==> !unused@.contains(spec_wand_material_index((#[trigger] self.wands@[k]).title->WandMaterial_0)),
                forall|k1: int, k2: int| 0 <= k1 < k2 < i ==> (#[trigger] self.wands@[k1]).title != (#[trigger] self.wands@[k2]).title,
                forall|k: int| 0 <= k < i ==> (#[trigger] self.wands@[k]).is_wood == (spec_wand_material_index(self.wands@[k].title->WandMaterial_0) >= 15),
                forall|k: int| 0 <= k < WANDS ==> (#[trigger] self.wands@[k]).status == old(self).wands@[k].status,
                self.potions@ == old(self).potions@,
                self.scrolls@ == old(self).scrolls@,
                self.rings@ == old(self).rings@,
                self.weapons@ == old(self).weapons@,
                self.armors@ == old(self).armors@,
            decreases WANDS - i,
        {
            let ghost before = unused@;
            let j = unused.pop().unwrap();
            proof {
                assert(before == unused@.push(j));
                assert(before[before.len() - 1] == j);
                assert forall|k: int| 0 <= k < unused@.len() implies unused@[k] != j by {
                    assert(before[k] == unused@[k]);
                }
                assert forall|x: usize| unused@.contains(x) implies before.contains(x) by {
                    let k = choose|k: int| 0 <= k < unused@.len() && unused@[k] == x;
                    assert(before[k] == x);
                }
            }
            let wand_material = WandMaterial::from_index(j);
            let note = &mut self.wands[i];
            note.is_wood = wand_material.is_wood();
            note.title = Title::WandMaterial(wand_material);
            i += 1;
        }
    }

    /// Gives the rings distinct random gems.
    pub fn assign_ring_gems(&mut self)
        requires
            old(self).wf(),
        ensures
            final(self).wf(),
            spec_rings_have_distinct_gems(final(self).rings@, old(self).rings@),
            final(self).potions@ == old(self).potions@,
            final(self).scrolls@ == old(self).scrolls@,
            final(self).wands@ == old(self).wands@,
            final(self).weapons@ == old(self).weapons@,
            final(self).armors@ == old(self).armors@,
    {
        let mut unused = shuffled_indices(MAX_GEM);
        let mut i: usize = 0;
        while i < RINGS
            invariant
                i <= RINGS,
                self.wf(),
                unused@.len() == MAX_GEM - i,
                unused@.no_duplicates(),
                forall|k: int| 0 <= k < unused@.len() ==> (#[trigger] unused@[k]) < MAX_GEM,
                forall|k: int| 0 <= k < i ==> (#[trigger] self.rings@[k]).title is RingGem,
                forall|k: int| 0 <= k < i ==> !unused@.contains(spec_ring_gem_index((#[trigger] self.rings@[k]).title->RingGem_0)),
                forall|k1: int, k2: int| 0 <= k1 < k2 < i ==> (#[trigger] self.rings@[k1]).title != (#[trigger] self.rings@[k2]).title,
                forall|k: int| 0 <= k < RINGS ==> (#[trigger] self.rings@[k]).status == old(self).rings@[k].status,
                forall|k: int| 0 <= k < RINGS ==> (#[trigger] self.rings@[k]).is_wood == old(self).rings@[k].is_wood,
                self.potions@ == old(self).potions@,
                self.scrolls@ == old(self).scrolls@,
                self.wands@ == old(self).wands@,
                self.weapons@ == old(self).weapons@,
                self.armors@ == old(self).armors@,
            decreases RINGS - i,
        {
            let ghost before = unused@;
            let j = unused.pop().unwrap();
            proof {
                assert(before == unused@.push(j));
                assert(before[before.len() - 1] == j);
                assert forall|k: int| 0 <= k < unused@.len() implies unused@[k] != j by {
                    assert(before[k] == unused@[k]);
                }
                assert forall|x: usize| unused@.contains(x) implies before.contains(x) by {
                    let k = choose|k: int| 0 <= k < unused@.len() && unused@[k] == x;
                    assert(before[k] == x);
                }
            }
            let note = &mut self.rings[i];
            note.title = Title::RingGem(RingGem::from_index(j));
            i += 1;
        }
    }
}

/// Whether the syllable positions make a scroll title: two to five of them,
/// none the first.
pub open spec fn spec_valid_syllables(idx: Seq<usize>) -> bool {
    &&& 2 <= idx.len() <= 5
    &&& forall|k: int| 0 <= k < idx.len() ==> 1 <= #[trigger] idx[k] < MAX_SYLLABLE
}

/// Whether a title is a scroll title of valid syllables.
pub open spec fn spec_is_scroll_title(t: Title) -> bool {
    match t {
        Title::SyllableString(s) => exists|idx: Seq<usize>| #[trigger] spec_valid_syllables(idx) && s@ == spec_scroll_title(idx),
        _ => false,
    }
}

/// The wands are titled with pairwise different materials, with `is_wood`
/// telling whether each is a wood, and keep their statuses.
pub open spec fn spec_wands_have_distinct_materials(wands: Seq<Note>, old_wands: Seq<Note>) -> bool {
    &&& wands.len() == old_wands.len()
    &&& forall|k: int| 0 <= k < wands.len() ==> (#[trigger] wands[k]).title is WandMaterial
    &&& forall|k1: int, k2: int| 0 <= k1 < k2 < wands.len() ==> (#[trigger] wands[k1]).title != (#[trigger] wands[k2]).title
    &&& forall|k: int| 0 <= k < wands.len() ==> (#[trigger] wands[k]).is_wood == (spec_wand_material_index(wands[k].title->WandMaterial_0) >= 15)
    &&& forall|k: int| 0 <= k < wands.len() ==> (#[trigger] wands[k]).status == old_wands[k].status
}

/// The rings are titled with pairwise different gems and keep their other
/// parts.
pub open spec fn spec_rings_have_distinct_gems(rings: Seq<Note>, old_rings: Seq<Note>) -> bool {
    &&& rings.len() == old_rings.len()
    &&& forall|k: int| 0 <= k < rings.len() ==> (#[trigger] rings[k]).title is RingGem
    &&& forall|k1: int, k2: int| 0 <= k1 < k2 < rings.len() ==> (#[trigger] rings[k1]).title != (#[trigger] rings[k2]).title
    &&& forall|k: int| 0 <= k < rings.len() ==> (#[trigger] rings[k]).status == old_rings[k].status
    &&& forall|k: int| 0 <= k < rings.len() ==> (#[trigger] rings[k]).is_wood == old_rings[k].is_wood
}

/// The numbers below `n`, each once, in an order left to chance.
fn shuffled_indices(n: usize) -> (r: Vec<usize>)
    ensures
        r@.len() == n,
        r@.no_duplicates(),
        forall|k: int| 0 <= k < n ==> (#[trigger] r@[k]) < n,
{
    let mut v: Vec<usize> = Vec::new();
    let mut i: usize = 0;
    while i < n
        invariant
            i <= n,
            v@.len() == i,
            forall|k: int| 0 <= k < i ==> (#[trigger] v@[k]) == k,
        decreases n - i,
    {
        v.push(i);
        i += 1;
    }
    let ghost before = v@;
    assert(before.no_duplicates());
    shuffle_vec(&mut v);
    proof {
        broadcast use vstd::seq_lib::group_to_multiset_ensures;
        before.lemma_multiset_has_no_duplicates();
        v@.lemma_multiset_has_no_duplicates_conv();
        assert forall|k: int| 0 <= k < n implies (#[trigger] v@[k]) < n by {
            assert(v@.to_multiset().count(v@[k]) > 0);
            assert(before.contains(v@[k]));
        }
    }
    v
}

/// Exchanges the notes at positions `j` and `k`.
fn swap_notes(v: &mut Vec<Note>, j: usize, k: usize)
    requires
        j < old(v)@.len(),
        k < old(v)@.len(),
    ensures
        final(v)@ == old(v)@.update(j as int, old(v)@[k as int]).update(k as int, old(v)@[j as int]),
        final(v)@.to_multiset() == old(v)@.to_multiset(),
{
    if j == k {
        assert(old(v)@.update(j as int, old(v)@[k as int]).update(k as int, old(v)@[j as int]) == old(v)@);
        return;
    }
    let (lo, hi) = if j < k { (j, k) } else { (k, j) };
    let high = v.remove(hi);
    let low = v.remove(lo);
    v.insert(lo, high);
    v.insert(hi, low);
    proof {
        let s = old(v)@;
        assert(v@ == s.update(j as int, s[k as int]).update(k as int, s[j as int]));
        broadcast use vstd::seq_lib::group_to_multiset_ensures;
        broadcast use vstd::multiset::group_multiset_properties;
        let s1 = s.update(j as int, s[k as int]);
        assert(s1.to_multiset() == s.to_multiset().insert(s[k as int]).remove(s[j as int]));
        assert(s1.update(k as int, s[j as int]).to_multiset() == s1.to_multiset().insert(s[j as int]).remove(s1[k as int]));
        assert(s1[k as int] == s[k as int]);
        assert(s.to_multiset().insert(s[k as int]).remove(s[j as int]).insert(s[j as int]).remove(s[k as int]) =~= s.to_multiset());
    }
}

/// A note with no title, not identified.
pub open spec fn blank_note() -> Note {
    Note { title: Title::Blank, status: NoteStatus::Unidentified, is_wood: false }
}

/// `n` untitled notes.
fn blank_notes(n: usize) -> (r: Vec<Note>)
    ensures
        r@.len() == n,
        forall|i: int| 0 <= i < n ==> (#[trigger] r@[i]) == blank_note(),
{
    let mut v: Vec<Note> = Vec::new();
    let mut i: usize = 0;
    while i < n
        invariant
            i <= n,
            v@.len() == i,
            forall|k: int| 0 <= k < i ==> (#[trigger] v@[k]) == blank_note(),
        decreases n - i,
    {
        v.push(Note { title: Title::Blank, status: NoteStatus::Unidentified, is_wood: false });
        i += 1;
    }
    v
}

/// Marks every note of a table as identified.
fn identify_table(table: &mut Vec<Note>)
    ensures
        final(table)@.len() == old(table)@.len(),
        forall|k: int| 0 <= k < old(table)@.len() ==> (#[trigger] final(table)@[k]) == (Note {
            status: NoteStatus::Identified,
            ..old(table)@[k]
        }),
{
    let mut i: usize = 0;
    while i < table.len()
        invariant
            i <= table@.len(),
            table@.len() == old(table)@.len(),
            forall|k: int| 0 <= k < i ==> (#[trigger] table@[k]) == (Note {
                status: NoteStatus::Identified,
                ..old(table)@[k]
            }),
            forall|k: int| i <= k < table@.len() ==> (#[trigger] table@[k]) == old(table)@[k],
        decreases table@.len() - i,
    {
        let note = &mut table[i];
        note.status = NoteStatus::Identified;
        i += 1;
    }
}

} // verus!
