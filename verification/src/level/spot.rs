//! The bit flags that mark what a dungeon spot holds, as a `u16` word.
use vstd::prelude::*;

verus! {

/// One feature of a dungeon spot; each but `Nothing` owns one bit of the word.
#[derive(Debug, Copy, Clone, Eq, PartialEq, Structural)]
pub enum SpotFlag {
    Nothing,
    Object,
    Monster,
    Stairs,
    HorWall,
    VertWall,
    Door,
    Floor,
    Tunnel,
    Trap,
    Hidden,
}

/// The bit of a flag.
pub open spec fn spec_code(f: SpotFlag) -> u16 {
    match f {
        SpotFlag::Nothing => 0o0,
        SpotFlag::Object => 0o1,
        SpotFlag::Monster => 0o2,
        SpotFlag::Stairs => 0o4,
        SpotFlag::HorWall => 0o10,
        SpotFlag::VertWall => 0o20,
        SpotFlag::Door => 0o40,
        SpotFlag::Floor => 0o100,
        SpotFlag::Tunnel => 0o200,
        SpotFlag::Trap => 0o400,
        SpotFlag::Hidden => 0o1000,
    }
}

/// Whether the word `value` carries the flag; `Nothing` is carried by the
/// empty word alone.
pub open spec fn spec_is_set(f: SpotFlag, value: u16) -> bool {
    match f {
        SpotFlag::Nothing => value == 0,
        _ => (value & spec_code(f)) != 0,
    }
}

/// The ten flags that own a bit, in the order of their bits.
pub open spec fn spec_all_flags() -> Seq<SpotFlag> {
    seq![
        SpotFlag::Object, SpotFlag::Monster, SpotFlag::Stairs, SpotFlag::HorWall,
        SpotFlag::VertWall, SpotFlag::Door, SpotFlag::Floor, SpotFlag::Tunnel,
        SpotFlag::Trap, SpotFlag::Hidden,
    ]
}

impl SpotFlag {
    /// Folds the flags' bits into a word with bitwise and, starting from the
    /// empty word; the result is therefore always the empty word.
    pub fn union(flags: &Vec<SpotFlag>) -> (r: u16)
        ensures
            r == 0,
    {
        let mut acc: u16 = 0;
        let mut i: usize = 0;
        while i < flags.len()
            invariant
                i <= flags.len(),
                acc == 0,
            decreases flags.len() - i,
        {
            let code = flags[i].code();
            acc = acc & code;
            assert(0u16 & code == 0) by (bit_vector);
            i += 1;
        }
        acc
    }

    /// Whether the word carries any of the flags.
    pub fn is_any_set(flags: &Vec<SpotFlag>, value: u16) -> (r: bool)
        ensures
            r == exists|i: int| 0 <= i < flags@.len() && spec_is_set(#[trigger] flags@[i], value),
    {
        let mut i: usize = 0;
        while i < flags.len()
            invariant
                i <= flags.len(),
                forall|j: int| 0 <= j < i ==> !spec_is_set(#[trigger] flags@[j], value),
            decreases flags.len() - i,
        {
            if flags[i].is_set(value) {
                return true;
            }
            i += 1;
        }
        false
    }

    /// Whether the word is empty.
    pub fn is_nothing(value: u16) -> (r: bool)
        ensures
            r == (value == 0),
    {
        value == 0
    }

    /// Empties the word.
    pub fn set_nothing(value: &mut u16)
        ensures
            *final(value) == 0,
    {
        *value = 0;
    }

    /// Whether the word carries a flag that owns a bit and is not among `flags`.
    pub fn are_others_set(flags: &Vec<SpotFlag>, value: u16) -> (r: bool)
        ensures
            r == exists|k: int|
                0 <= k < 10 && !flags@.contains(#[trigger] spec_all_flags()[k])
                    && spec_is_set(spec_all_flags()[k], value),
    {
        let all = vec![
            SpotFlag::Object, SpotFlag::Monster, SpotFlag::Stairs, SpotFlag::HorWall,
            SpotFlag::VertWall, SpotFlag::Door, SpotFlag::Floor, SpotFlag::Tunnel,
            SpotFlag::Trap, SpotFlag::Hidden,
        ];
        assert(all@ == spec_all_flags());
        let mut k: usize = 0;
        while k < all.len()
            invariant
                k <= all.len(),
                all@ == spec_all_flags(),
                forall|j: int|
                    0 <= j < k ==> !(!flags@.contains(#[trigger] spec_all_flags()[j])
                        && spec_is_set(spec_all_flags()[j], value)),
            decreases all.len() - k,
        {
            let flag = all[k];
            if flag.is_set(value) && !Self::contains(flags, flag) {
                return true;
            }
            k += 1;
        }
        false
    }

    /// Whether `flag` is among `flags`.
    fn contains(flags: &Vec<SpotFlag>, flag: SpotFlag) -> (r: bool)
        ensures
            r == flags@.contains(flag),
    {
        let mut i: usize = 0;
        while i < flags.len()
            invariant
                i <= flags.len(),
                forall|j: int| 0 <= j < i ==> flags@[j] != flag,
            decreases flags.len() - i,
        {
            if flags[i] == flag {
                return true;
            }
            i += 1;
        }
        false
    }

    /// Whether the word carries this flag.
    pub fn is_set(&self, value: u16) -> (r: bool)
        ensures
            r == spec_is_set(*self, value),
    {
        match self {
            SpotFlag::Nothing => value == 0,
            _ => (value & self.code()) != 0,
        }
    }

    /// Whether the word is exactly this flag's bit.
    pub fn is_only(&self, value: u16) -> (r: bool)
        ensures
            r == (value == spec_code(*self)),
    {
        value == self.code()
    }

    /// Takes this flag's bit out of the word.
    pub fn clear(&self, value: &mut u16)
        ensures
            *final(value) == *old(value) & !spec_code(*self),
    {
        let code = self.code();
        *value = *value & !code;
    }

    /// Puts this flag's bit into the word.
    pub fn set(&self, value: &mut u16)
        ensures
            *final(value) == *old(value) | spec_code(*self),
    {
        let code = self.code();
        *value = *value | code;
    }

    /// The flag's bit.
    pub fn code(&self) -> (r: u16)
        ensures
            r == spec_code(*self),
    {
        match self {
            SpotFlag::Nothing => 0o0,
            SpotFlag::Object => 0o1,
            SpotFlag::Monster => 0o2,
            SpotFlag::Stairs => 0o4,
            SpotFlag::HorWall => 0o10,
            SpotFlag::VertWall => 0o20,
            SpotFlag::Door => 0o40,
            SpotFlag::Floor => 0o100,
            SpotFlag::Tunnel => 0o200,
            SpotFlag::Trap => 0o400,
            SpotFlag::Hidden => 0o1000,
        }
    }
}

/// A flag that has just been set is set, and setting it leaves every other
/// flag's bit as it was.
pub proof fn law_set_then_is_set(flag: SpotFlag, other: SpotFlag, value: u16)
    requires
        !(flag is Nothing),
        !(other is Nothing),
        other != flag,
    ensures
        spec_is_set(flag, value | spec_code(flag)),
        spec_is_set(other, value | spec_code(flag)) == spec_is_set(other, value),
{
    let c = spec_code(flag);
    let d = spec_code(other);
    assert(c != 0 && d != 0 && c & d == 0) by {
        lemma_codes_disjoint(flag, other);
    }
    assert(c != 0 ==> (value | c) & c != 0) by (bit_vector);
    assert(c & d == 0 ==> (((value | c) & d != 0) == (value & d != 0))) by (bit_vector);
}

/// A flag that has just been cleared is not set, and clearing it leaves
/// every other flag's bit as it was.
pub proof fn law_clear_then_not_set(flag: SpotFlag, other: SpotFlag, value: u16)
    requires
        !(flag is Nothing),
        !(other is Nothing),
        other != flag,
    ensures
        !spec_is_set(flag, value & !spec_code(flag)),
        spec_is_set(other, value & !spec_code(flag)) == spec_is_set(other, value),
{
    let c = spec_code(flag);
    let d = spec_code(other);
    assert(c != 0 && d != 0 && c & d == 0) by {
        lemma_codes_disjoint(flag, other);
    }
    assert((value & !c) & c == 0) by (bit_vector);
    assert(c & d == 0 ==> (((value & !c) & d != 0) == (value & d != 0))) by (bit_vector);
}

/// Distinct flags that own bits own distinct, non-overlapping bits.
proof fn lemma_codes_disjoint(a: SpotFlag, b: SpotFlag)
    requires
        !(a is Nothing),
        !(b is Nothing),
        a != b,
    ensures
        spec_code(a) != 0,
        spec_code(b) != 0,
        spec_code(a) & spec_code(b) == 0,
{
    let x = spec_code(a);
    let y = spec_code(b);
    assert(x == 1 || x == 2 || x == 4 || x == 8 || x == 16 || x == 32 || x == 64 || x == 128
        || x == 256 || x == 512);
    assert(y == 1 || y == 2 || y == 4 || y == 8 || y == 16 || y == 32 || y == 64 || y == 128
        || y == 256 || y == 512);
    assert(x != y);
    assert((x == 1 || x == 2 || x == 4 || x == 8 || x == 16 || x == 32 || x == 64 || x == 128
        || x == 256 || x == 512) && (y == 1 || y == 2 || y == 4 || y == 8 || y == 16 || y == 32
        || y == 64 || y == 128 || y == 256 || y == 512) && x != y ==> x & y == 0) by (bit_vector);
}

} // verus!
