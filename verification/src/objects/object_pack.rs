//! A pack of objects: the rogue's, or those lying on the floor.
use vstd::prelude::*;

use crate::actions::eat::spec_swallowed_at;
use crate::object_what::ObjectWhat;
use crate::objects::{Object, ObjectId};

verus! {

/// The objects of a pack, in the order they were added.
#[derive(Debug)]
pub struct ObjectPack(pub Vec<Object>);

impl View for ObjectPack {
    type V = Seq<Object>;

    open spec fn view(&self) -> Seq<Object> {
        self.0@
    }
}

/// The position of the first object with id `id`.
pub open spec fn spec_position(s: Seq<Object>, id: ObjectId) -> Option<int>
    decreases s.len(),
{
    if s.len() == 0 {
        None
    } else {
        match spec_position(s.drop_last(), id) {
            Some(i) => Some(i),
            None => if s.last().id == id { Some(s.len() - 1) } else { None },
        }
    }
}

/// The first object with id `id`.
pub open spec fn spec_object(s: Seq<Object>, id: ObjectId) -> Option<Object> {
    match spec_position(s, id) {
        Some(i) => Some(s[i]),
        None => None,
    }
}

/// Whether a found reference names the object `o`, or nothing when there is
/// none.
pub open spec fn spec_found(r: Option<&Object>, o: Option<Object>) -> bool {
    match r {
        Some(x) => o == Some(*x),
        None => o is None,
    }
}

/// Whether some object of `s` has id `id` and `f` holds of it.
pub open spec fn spec_chosen<F: Fn(&Object) -> bool>(s: Seq<Object>, f: F, id: ObjectId) -> bool {
    exists|j: int| 0 <= j < s.len() && s[j].id == id && f.ensures((&s[j],), true)
}

/// The choices of `f`, one for each object of `s`: each is a result that
/// `f` may give for its object.
pub open spec fn spec_picks_of<F: Fn(&Object) -> bool>(s: Seq<Object>, f: F, picks: Seq<bool>) -> bool {
    &&& picks.len() == s.len()
    &&& forall|k: int| 0 <= k < s.len() ==> f.ensures((&#[trigger] s[k],), picks[k])
}

/// The ids of the objects of `s` that `picks` chooses, in order.
pub open spec fn spec_ids_picked(s: Seq<Object>, picks: Seq<bool>) -> Seq<ObjectId>
    decreases s.len(),
{
    if s.len() == 0 {
        Seq::empty()
    } else {
        let prev = spec_ids_picked(s.drop_last(), picks.drop_last());
        if picks.last() {
            prev.push(s.last().id)
        } else {
            prev
        }
    }
}

/// The position of the first object that lies at `row`, `col`.
pub open spec fn spec_position_at(s: Seq<Object>, row: i64, col: i64) -> Option<int>
    decreases s.len(),
{
    if s.len() == 0 {
        None
    } else {
        match spec_position_at(s.drop_last(), row, col) {
            Some(i) => Some(i),
            None => if s.last().spot.row == row && s.last().spot.col == col { Some(s.len() - 1) } else { None },
        }
    }
}

/// Positions found in a prefix are the positions of the whole.
proof fn lemma_position_prefix(s: Seq<Object>, n: int, id: ObjectId)
    requires
        0 <= n <= s.len(),
        spec_position(s.take(n), id) is Some,
    ensures
        spec_position(s, id) == spec_position(s.take(n), id),
    decreases s.len() - n,
{
    if n == s.len() {
        assert(s.take(n) == s);
    } else {
        assert(s.take(n + 1).drop_last() == s.take(n));
        lemma_position_prefix(s, n + 1, id);
    }
}

/// Positions found in a prefix are the positions of the whole.
proof fn lemma_position_at_prefix(s: Seq<Object>, n: int, row: i64, col: i64)
    requires
        0 <= n <= s.len(),
        spec_position_at(s.take(n), row, col) is Some,
    ensures
        spec_position_at(s, row, col) == spec_position_at(s.take(n), row, col),
    decreases s.len() - n,
{
    if n == s.len() {
        assert(s.take(n) == s);
    } else {
        assert(s.take(n + 1).drop_last() == s.take(n));
        lemma_position_at_prefix(s, n + 1, row, col);
    }
}

/// A found position holds the object looked for and lies in the sequence.
pub proof fn lemma_position_valid(s: Seq<Object>, id: ObjectId)
    ensures
        spec_position(s, id) matches Some(i) ==> 0 <= i < s.len() && s[i].id == id,
        spec_position(s, id) is None ==> forall|i: int| 0 <= i < s.len() ==> s[i].id != id,
    decreases s.len(),
{
    if s.len() > 0 {
        lemma_position_valid(s.drop_last(), id);
        assert forall|i: int| 0 <= i < s.len() - 1 implies s[i] == s.drop_last()[i] by {}
    }
}

/// A found position of a spot holds an object at that spot and lies in the
/// sequence.
pub proof fn lemma_position_at_valid(s: Seq<Object>, row: i64, col: i64)
    ensures
        spec_position_at(s, row, col) matches Some(i) ==> 0 <= i < s.len() && s[i].spot.row == row && s[i].spot.col == col,
    decreases s.len(),
{
    if s.len() > 0 {
        lemma_position_at_valid(s.drop_last(), row, col);
    }
}

impl ObjectPack {
    /// An empty pack.
    pub fn new() -> (r: Self)
        ensures
            r@ == Seq::<Object>::empty(),
    {
        ObjectPack(Vec::new())
    }

    /// Adds `obj` at the end.
    pub fn add(&mut self, obj: Object)
        ensures
            final(self)@ == old(self)@.push(obj),
    {
        self.0.push(obj);
    }

    /// The position of the first object with id `obj_id`.
    pub fn obj_position(&self, obj_id: ObjectId) -> (r: Option<usize>)
        ensures
            r matches Some(i) ==> spec_position(self@, obj_id) == Some(i as int) && i < self@.len(),
            r is None ==> spec_position(self@, obj_id) is None,
    {
        let mut i: usize = 0;
        while i < self.0.len()
            invariant
                i <= self@.len(),
                spec_position(self@.take(i as int), obj_id) is None,
            decreases self@.len() - i,
        {
            assert(self@.take(i + 1).drop_last() == self@.take(i as int));
            if self.0[i].id.0 == obj_id.0 {
                proof {
                    lemma_position_prefix(self@, i + 1, obj_id);
                }
                return Some(i);
            }
            i += 1;
        }
        assert(self@.take(self@.len() as int) == self@);
        None
    }

    /// Takes out the first object with id `obj_id`, if there is one.
    pub fn remove(&mut self, obj_id: ObjectId) -> (r: Option<Object>)
        ensures
            match spec_position(old(self)@, obj_id) {
                Some(i) => r == Some(old(self)@[i]) && final(self)@ == old(self)@.remove(i),
                None => r is None && final(self)@ == old(self)@,
            },
    {
        match self.obj_position(obj_id) {
            Some(index) => Some(self.0.remove(index)),
            None => None,
        }
    }

    /// Empties the pack.
    pub fn clear(&mut self)
        ensures
            final(self)@ == Seq::<Object>::empty(),
    {
        self.0.clear();
    }

    /// Whether the pack is empty.
    pub fn is_empty(&self) -> (r: bool)
        ensures
            r == (self@.len() == 0),
    {
        self.0.len() == 0
    }

    /// The number of objects.
    pub fn len(&self) -> (r: usize)
        ensures
            r == self@.len(),
    {
        self.0.len()
    }

    /// The first object with id `obj_id`.
    pub fn object(&self, obj_id: ObjectId) -> (r: Option<&Object>)
        ensures
            spec_found(r, spec_object(self@, obj_id)),
    {
        match self.obj_position(obj_id) {
            Some(position) => Some(&self.0[position]),
            None => None,
        }
    }

    /// The first object with id `obj_id`, to change in place.
    pub fn object_mut(&mut self, obj_id: ObjectId) -> (r: Option<&mut Object>)
        ensures
            match spec_position(old(self)@, obj_id) {
                Some(i) => r matches Some(m) && *m == old(self)@[i] && final(self)@ == old(self)@.update(i, *final(m)),
                None => r is None && final(self)@ == old(self)@,
            },
    {
        match self.obj_position(obj_id) {
            Some(position) => Some(&mut self.0[position]),
            None => None,
        }
    }

    /// The id of the first object for which `f` holds.
    pub fn find_id(&self, f: impl Fn(&Object) -> bool) -> (r: Option<ObjectId>)
        requires
            forall|i: int| 0 <= i < self@.len() ==> f.requires((&self@[i],)),
        ensures
            match r {
                Some(id) => exists|i: int|
                    0 <= i < self@.len() && self@[i].id == id && f.ensures((&self@[i],), true) && forall|j: int|
                        0 <= j < i ==> f.ensures((&self@[j],), false),
                None => forall|i: int| 0 <= i < self@.len() ==> f.ensures((&self@[i],), false),
            },
    {
        let mut i: usize = 0;
        while i < self.0.len()
            invariant
                i <= self@.len(),
                forall|k: int| 0 <= k < self@.len() ==> f.requires((&self@[k],)),
                forall|j: int| 0 <= j < i ==> f.ensures((&self@[j],), false),
            decreases self@.len() - i,
        {
            let obj = &self.0[i];
            if f(obj) {
                return Some(obj.id);
            }
            i += 1;
        }
        None
    }

    /// The id of the first object that lies at `row`, `col`.
    pub fn find_id_at(&self, row: i64, col: i64) -> (r: Option<ObjectId>)
        ensures
            match spec_position_at(self@, row, col) {
                Some(i) => r == Some(self@[i].id),
                None => r is None,
            },
    {
        let mut i: usize = 0;
        while i < self.0.len()
            invariant
                i <= self@.len(),
                spec_position_at(self@.take(i as int), row, col) is None,
            decreases self@.len() - i,
        {
            assert(self@.take(i + 1).drop_last() == self@.take(i as int));
            if self.0[i].is_at(row, col) {
                proof {
                    lemma_position_at_prefix(self@, i + 1, row, col);
                }
                return Some(self.0[i].id);
            }
            i += 1;
        }
        assert(self@.take(self@.len() as int) == self@);
        None
    }

    /// The object with the id of the first object that lies at `row`, `col`.
    pub fn find_object_at(&self, row: i64, col: i64) -> (r: Option<&Object>)
        ensures
            match spec_position_at(self@, row, col) {
                Some(i) => spec_found(r, spec_object(self@, self@[i].id)) && r is Some,
                None => r is None,
            },
    {
        match self.find_id_at(row, col) {
            Some(id) => {
                let found = self.object(id);
                proof {
                    lemma_position_valid(self@, id);
                    lemma_position_at_valid(self@, row, col);
                }
                found
            },
            None => None,
        }
    }

    /// Whether the first object with id `obj_id` exists and `f` holds of it.
    pub fn check_object(&self, obj_id: ObjectId, f: impl Fn(&Object) -> bool) -> (r: bool)
        requires
            spec_object(self@, obj_id) matches Some(o) ==> f.requires((&o,)),
        ensures
            match spec_object(self@, obj_id) {
                Some(o) => f.ensures((&o,), r),
                None => !r,
            },
    {
        match self.object(obj_id) {
            Some(obj) => f(obj),
            None => false,
        }
    }

    /// What `f` gives for the first object with id `obj_id`, if there is one.
    pub fn try_map_object<T>(&self, obj_id: ObjectId, f: impl Fn(&Object) -> Option<T>) -> (r: Option<T>)
        requires
            spec_object(self@, obj_id) matches Some(o) ==> f.requires((&o,)),
        ensures
            match spec_object(self@, obj_id) {
                Some(o) => f.ensures((&o,), r),
                None => r is None,
            },
    {
        match self.object(obj_id) {
            Some(obj) => f(obj),
            None => None,
        }
    }

    /// The first object for which `f` holds.
    pub fn find_object(&self, f: impl Fn(&Object) -> bool) -> (r: Option<&Object>)
        requires
            forall|i: int| 0 <= i < self@.len() ==> f.requires((&self@[i],)),
        ensures
            r matches Some(o) ==> exists|i: int| 0 <= i < self@.len() && f.ensures((&self@[i],), true) && spec_object(self@, self@[i].id) == Some(*o),
            r is None ==> forall|i: int| 0 <= i < self@.len() ==> f.ensures((&self@[i],), false),
    {
        match self.find_id(f) {
            Some(id) => {
                proof {
                    lemma_position_valid(self@, id);
                }
                self.object(id)
            },
            None => None,
        }
    }

    /// The first object for which `f` holds, to change in place.
    pub fn find_object_mut(&mut self, f: impl Fn(&Object) -> bool) -> (r: Option<&mut Object>)
        requires
            forall|i: int| 0 <= i < old(self)@.len() ==> f.requires((&old(self)@[i],)),
        ensures
            r is None ==> final(self)@ == old(self)@ && forall|i: int| 0 <= i < old(self)@.len() ==> f.ensures((&old(self)@[i],), false),
            r matches Some(m) ==> exists|i: int|
                0 <= i < old(self)@.len() && f.ensures((&old(self)@[i],), true) && (forall|j: int| 0 <= j < i ==> f.ensures((&old(self)@[j],), false))
                && (spec_position(old(self)@, old(self)@[i].id) matches Some(p) && *m == old(self)@[p]
                && final(self)@ == old(self)@.update(p, *final(m))),
    {
        match self.find_id(f) {
            Some(id) => {
                proof {
                    lemma_position_valid(self@, id);
                }
                self.object_mut(id)
            },
            None => None,
        }
    }

    /// The first object with id `id`, if it is of class `what`.
    pub fn object_if_what(&self, id: ObjectId, what: ObjectWhat) -> (r: Option<&Object>)
        ensures
            spec_found(r, match spec_object(self@, id) {
                Some(o) => if o.what_is == what { Some(o) } else { None },
                None => None,
            }),
    {
        match self.object(id) {
            Some(obj) => if obj.what_is == what { Some(obj) } else { None },
            None => None,
        }
    }

    /// The first object with id `id`, if it is of class `what`, to change in
    /// place.
    pub fn object_if_what_mut(&mut self, id: ObjectId, what: ObjectWhat) -> (r: Option<&mut Object>)
        ensures
            match spec_position(old(self)@, id) {
                Some(i) => if old(self)@[i].what_is == what {
                    r matches Some(m) && *m == old(self)@[i] && final(self)@ == old(self)@.update(i, *final(m))
                } else {
                    r is None && final(self)@ == old(self)@
                },
                None => r is None && final(self)@ == old(self)@,
            },
    {
        let is_what = match self.object(id) {
            Some(obj) => obj.what_is == what,
            None => false,
        };
        proof {
            lemma_position_valid(self@, id);
        }
        if is_what {
            self.object_mut(id)
        } else {
            None
        }
    }

    /// The first object with id `obj_id`, if `f` holds of it.
    pub fn object_if(&self, obj_id: ObjectId, f: impl Fn(&Object) -> bool) -> (r: Option<&Object>)
        requires
            spec_object(self@, obj_id) matches Some(o) ==> f.requires((&o,)),
        ensures
            match spec_object(self@, obj_id) {
                Some(o) => (spec_found(r, Some(o)) && f.ensures((&o,), true)) || (r is None && f.ensures((&o,), false)),
                None => r is None,
            },
    {
        if self.check_object(obj_id, f) {
            self.object(obj_id)
        } else {
            None
        }
    }

    /// The first object with id `obj_id`, if `f` holds of it, to change in
    /// place.
    pub fn object_if_mut(&mut self, obj_id: ObjectId, f: impl Fn(&Object) -> bool) -> (r: Option<&mut Object>)
        requires
            spec_object(old(self)@, obj_id) matches Some(o) ==> f.requires((&o,)),
        ensures
            match spec_position(old(self)@, obj_id) {
                Some(i) => (r matches Some(m) && f.ensures((&old(self)@[i],), true) && *m == old(self)@[i]
                    && final(self)@ == old(self)@.update(i, *final(m))) || (r is None && f.ensures((&old(self)@[i],), false)
                    && final(self)@ == old(self)@),
                None => r is None && final(self)@ == old(self)@,
            },
    {
        if self.check_object(obj_id, f) {
            self.object_mut(obj_id)
        } else {
            None
        }
    }

    /// The ids of the objects, in order.
    pub fn object_ids(&self) -> (r: Vec<ObjectId>)
        ensures
            r@ == self@.map_values(|o: Object| o.id),
    {
        let mut ids: Vec<ObjectId> = Vec::new();
        let mut i: usize = 0;
        while i < self.0.len()
            invariant
                i <= self@.len(),
                ids@ == self@.take(i as int).map_values(|o: Object| o.id),
            decreases self@.len() - i,
        {
            ids.push(self.0[i].id);
            assert(self@.take(i + 1).map_values(|o: Object| o.id) =~= self@.take(i as int).map_values(|o: Object| o.id).push(self@[i as int].id));
            i += 1;
        }
        assert(self@.take(self@.len() as int) == self@);
        ids
    }

    /// The ids of the objects for which `f` holds, in order.
    pub fn object_ids_when(&self, f: impl Fn(&Object) -> bool) -> (r: Vec<ObjectId>)
        requires
            forall|i: int| 0 <= i < self@.len() ==> f.requires((&self@[i],)),
        ensures
            forall|k: int| 0 <= k < r@.len() ==> #[trigger] spec_chosen(self@, f, r@[k]),
            r@.len() <= self@.len(),
            exists|picks: Seq<bool>| #[trigger] spec_picks_of(self@, f, picks) && r@ == spec_ids_picked(self@, picks),
    {
        let mut result: Vec<ObjectId> = Vec::new();
        let ghost mut picks: Seq<bool> = Seq::empty();
        let mut i: usize = 0;
        while i < self.0.len()
            invariant
                i <= self@.len(),
                result@.len() <= i,
                forall|k: int| 0 <= k < self@.len() ==> f.requires((&self@[k],)),
                forall|k: int| 0 <= k < result@.len() ==> #[trigger] spec_chosen(self@, f, result@[k]),
                spec_picks_of(self@.take(i as int), f, picks),
                result@ == spec_ids_picked(self@.take(i as int), picks),
            decreases self@.len() - i,
        {
            let obj = &self.0[i];
            let chosen = f(obj);
            let ghost before_picks = picks;
            proof {
                picks = picks.push(chosen);
                assert(self@.take(i + 1).drop_last() =~= self@.take(i as int));
                assert(picks.drop_last() =~= before_picks);
                assert forall|k: int| 0 <= k < i + 1 implies f.ensures((&#[trigger] self@.take(i + 1)[k],), picks[k]) by {
                    if k < i {
                        assert(self@.take(i + 1)[k] == self@.take(i as int)[k]);
                    }
                }
            }
            if chosen {
                let ghost before = result@;
                result.push(obj.id);
                assert(spec_chosen(self@, f, obj.id));
                assert forall|k: int| 0 <= k < result@.len() implies #[trigger] spec_chosen(self@, f, result@[k]) by {
                    if k < before.len() {
                        assert(result@[k] == before[k]);
                    }
                }
            }
            i += 1;
        }
        assert(self@.take(self@.len() as int) =~= self@);
        result
    }

    /// The objects, in order.
    pub fn objects(&self) -> (r: &Vec<Object>)
        ensures
            r@ == self@,
    {
        &self.0
    }

    /// The object at position `index`, to change in place.
    pub fn object_at_index_mut(&mut self, index: usize) -> (r: &mut Object)
        requires
            index < old(self)@.len(),
        ensures
            *r == old(self)@[index as int],
            final(self)@ == old(self)@.update(index as int, *final(r)),
    {
        &mut self.0[index]
    }
}

impl ObjectPack {
    /// Takes one piece of object `id` off the pack: one fewer of it, or the
    /// object itself when it is the last.
    pub fn reduce_quantity_or_remove(&mut self, id: ObjectId)
        requires
            spec_position(old(self)@, id) is Some,
        ensures
            spec_swallowed_at(old(self)@, final(self)@, id, spec_position(old(self)@, id)->0),
    {
        proof {
            lemma_position_valid(self@, id);
        }
        let p = self.obj_position(id).unwrap();
        if self.0[p].quantity > 1 {
            let mut o = self.0[p];
            o.quantity = o.quantity - 1;
            self.0.set(p, o);
        } else {
            self.0.remove(p);
        }
    }
}

} // verus!
