//! Dice of damage: a number of hits, each rolling up to a damage.
use vstd::prelude::*;

use crate::random::get_rand_usize;

verus! {

/// Whether damage is rolled or taken at its full value.
#[derive(Debug, Copy, Clone, Eq, PartialEq, Structural)]
pub enum DamageEffect {
    Roll,
    Nothing,
}

/// Lowest value that one hit of `damage` can do under `effect`.
pub open spec fn spec_hit_min(effect: DamageEffect, damage: usize) -> int {
    match effect {
        DamageEffect::Roll => if damage == 0 { 0 } else { 1 },
        DamageEffect::Nothing => damage as int,
    }
}

/// Highest value that one hit of `damage` can do under `effect`.
pub open spec fn spec_hit_max(effect: DamageEffect, damage: usize) -> int {
    match effect {
        DamageEffect::Roll => if damage == 0 { 1 } else { damage as int },
        DamageEffect::Nothing => damage as int,
    }
}

impl DamageEffect {
    /// The damage of one hit: under `Roll`, a draw from 1 to `damage` (from
    /// 0 to 1 when `damage` is 0); under `Nothing`, `damage` itself.
    pub fn apply(&self, damage: usize) -> (r: usize)
        ensures
            spec_hit_min(*self, damage) <= r <= spec_hit_max(*self, damage),
            *self is Nothing ==> r == damage,
            *self is Roll && damage == 1 ==> r == 1,
    {
        match self {
            DamageEffect::Roll => match damage {
                0 => get_rand_usize(0, 1),
                1 => 1,
                _ => get_rand_usize(1, damage),
            },
            DamageEffect::Nothing => damage,
        }
    }
}

/// A number of hits, each doing up to `damage`.
#[derive(Debug, Copy, Clone, Eq, PartialEq, Structural)]
pub struct DamageStat {
    pub hits: usize,
    pub damage: usize,
}

/// The largest damage that one hit of the stat can do, whatever the effect.
pub open spec fn spec_hit_cap(d: usize) -> int {
    if d == 0 { 1 } else { d as int }
}

impl DamageStat {
    /// The total of `hits` hits of `damage` under `effect`.
    pub fn roll_damage(&self, effect: DamageEffect) -> (r: usize)
        requires
            self.hits * spec_hit_cap(self.damage) <= usize::MAX,
        ensures
            self.hits * spec_hit_min(effect, self.damage) <= r <= self.hits * spec_hit_max(
                effect,
                self.damage,
            ),
            effect is Nothing ==> r == self.hits * self.damage,
    {
        let mut total: usize = 0;
        let mut hn: usize = 0;
        let ghost lo = spec_hit_min(effect, self.damage);
        let ghost hi = spec_hit_max(effect, self.damage);
        assert(hi <= spec_hit_cap(self.damage));
        while hn < self.hits
            invariant
                hn <= self.hits,
                lo == spec_hit_min(effect, self.damage),
                hi == spec_hit_max(effect, self.damage),
                0 <= lo <= hi <= spec_hit_cap(self.damage),
                self.hits * spec_hit_cap(self.damage) <= usize::MAX,
                hn * lo <= total <= hn * hi,
            decreases self.hits - hn,
        {
            let d = effect.apply(self.damage);
            proof {
                vstd::arithmetic::mul::lemma_mul_inequality(hn as int + 1, self.hits as int, spec_hit_cap(self.damage));
                vstd::arithmetic::mul::lemma_mul_inequality(hi, spec_hit_cap(self.damage), hn as int + 1);
                vstd::arithmetic::mul::lemma_mul_is_distributive_add_other_way(hi, hn as int, 1);
                vstd::arithmetic::mul::lemma_mul_is_distributive_add_other_way(lo, hn as int, 1);
                vstd::arithmetic::mul::lemma_mul_is_commutative(hi, hn as int + 1);
            }
            total = total + d;
            hn += 1;
        }
        total
    }
}

/// The characters of a string, in order.
fn chars_of(s: &str) -> (r: Vec<char>)
    ensures
        r@ == s@,
{
    let mut out: Vec<char> = Vec::new();
    for c in it: s.chars()
        invariant
            out@ == it.seq().take(it.index() as int),
    {
        out.push(c);
    }
    out
}

/// The pieces of `s` between the separators `sep`, in order; a string
/// without separators is one piece.
pub open spec fn spec_split(s: Seq<char>, sep: char) -> Seq<Seq<char>>
    decreases s.len(),
{
    if s.len() == 0 {
        seq![Seq::<char>::empty()]
    } else {
        let prev = spec_split(s.drop_last(), sep);
        if s.last() == sep {
            prev.push(Seq::<char>::empty())
        } else {
            prev.update(prev.len() - 1, prev.last().push(s.last()))
        }
    }
}

/// Splitting gives at least one piece.
proof fn lemma_split_nonempty(s: Seq<char>, sep: char)
    ensures
        spec_split(s, sep).len() >= 1,
    decreases s.len(),
{
    if s.len() > 0 {
        lemma_split_nonempty(s.drop_last(), sep);
    }
}

/// Whether `c` is a decimal digit.
pub open spec fn spec_is_digit(c: char) -> bool {
    '0' <= c <= '9'
}

/// The number that decimal digits `s` write.
pub open spec fn spec_digits_value(s: Seq<char>) -> nat
    decreases s.len(),
{
    if s.len() == 0 {
        0
    } else {
        spec_digits_value(s.drop_last()) * 10 + (s.last() as nat - '0' as nat) as nat
    }
}

/// The digits of a number: the text without a leading plus sign.
pub open spec fn spec_unsigned_body(s: Seq<char>) -> Seq<char> {
    if s.len() > 0 && s[0] == '+' { s.drop_first() } else { s }
}

/// Whether every character is a decimal digit.
pub open spec fn spec_all_digits(s: Seq<char>) -> bool {
    forall|i: int| 0 <= i < s.len() ==> spec_is_digit(#[trigger] s[i])
}

/// What `usize::from_str` gives for `s`: an optional plus sign followed by
/// at least one decimal digit, writing a number that fits.
pub open spec fn spec_parse_usize(s: Seq<char>) -> Option<usize> {
    let body = spec_unsigned_body(s);
    if body.len() > 0 && spec_all_digits(body) && spec_digits_value(body) <= usize::MAX {
        Some(spec_digits_value(body) as usize)
    } else {
        None
    }
}

/// The position of the first `c` in `s`.
pub open spec fn spec_first_index(s: Seq<char>, c: char) -> Option<int>
    decreases s.len(),
{
    if s.len() == 0 {
        None
    } else {
        match spec_first_index(s.drop_last(), c) {
            Some(i) => Some(i),
            None => if s.last() == c { Some(s.len() - 1) } else { None },
        }
    }
}

/// Whether a piece can be read: without a `d` it is skipped; with one, the
/// numbers before and after the first `d` must both be read.
pub open spec fn spec_piece_ok(p: Seq<char>) -> bool {
    match spec_first_index(p, 'd') {
        None => true,
        Some(i) => spec_parse_usize(p.take(i)) is Some && spec_parse_usize(p.skip(i + 1)) is Some,
    }
}

/// The dice that a piece writes: none without a `d`, else the hits before
/// the first `d` and the damage after it.
pub open spec fn spec_piece_stats(p: Seq<char>) -> Seq<DamageStat> {
    match spec_first_index(p, 'd') {
        None => Seq::empty(),
        Some(i) => seq![DamageStat { hits: spec_parse_usize(p.take(i))->0, damage: spec_parse_usize(p.skip(i + 1))->0 }],
    }
}

/// The dice that the pieces write, in order.
pub open spec fn spec_pieces_stats(pieces: Seq<Seq<char>>) -> Seq<DamageStat>
    decreases pieces.len(),
{
    if pieces.len() == 0 {
        Seq::empty()
    } else {
        spec_pieces_stats(pieces.drop_last()) + spec_piece_stats(pieces.last())
    }
}

/// Whether a text of dice such as "1d3/2d4" can be read: each piece
/// between slashes that holds a `d` has numbers on both sides of it.
pub open spec fn spec_damage_text_ok(s: Seq<char>) -> bool {
    forall|i: int| 0 <= i < spec_split(s, '/').len() ==> spec_piece_ok(#[trigger] spec_split(s, '/')[i])
}

/// The dice that a text such as "1d3/2d4" writes.
pub open spec fn spec_damage_text(s: Seq<char>) -> Seq<DamageStat> {
    spec_pieces_stats(spec_split(s, '/'))
}

/// The views of a vector of character vectors.
pub open spec fn spec_views(v: Seq<Vec<char>>) -> Seq<Seq<char>> {
    Seq::new(v.len(), |i: int| v[i]@)
}

/// The pieces of `chars` between the separators `sep`.
fn split_chars(chars: &Vec<char>, sep: char) -> (r: Vec<Vec<char>>)
    ensures
        spec_views(r@) == spec_split(chars@, sep),
{
    let mut out: Vec<Vec<char>> = Vec::new();
    let mut cur: Vec<char> = Vec::new();
    let mut i: usize = 0;
    while i < chars.len()
        invariant
            i <= chars@.len(),
            spec_views(out@).push(cur@) == spec_split(chars@.take(i as int), sep),
        decreases chars@.len() - i,
    {
        let c = chars[i];
        assert(chars@.take(i + 1).drop_last() == chars@.take(i as int));
        assert(chars@.take(i + 1).last() == c);
        if c == sep {
            let ghost before = spec_views(out@);
            out.push(cur);
            cur = Vec::new();
            assert(spec_views(out@) == before.push(spec_views(out@)[before.len() as int]));
            assert(spec_views(out@).push(cur@) =~= spec_split(chars@.take(i + 1), sep));
        } else {
            let ghost before = spec_views(out@).push(cur@);
            cur.push(c);
            assert(spec_views(out@).push(cur@) =~= before.update(before.len() - 1, before.last().push(c)));
        }
        i += 1;
    }
    assert(chars@.take(chars@.len() as int) == chars@);
    out.push(cur);
    assert(spec_views(out@) =~= spec_split(chars@, sep));
    out
}

/// Once a prefix holds `c`, the whole sequence's first `c` is the prefix's.
proof fn lemma_first_index_prefix(s: Seq<char>, n: int, c: char)
    requires
        0 <= n <= s.len(),
        spec_first_index(s.take(n), c) is Some,
    ensures
        spec_first_index(s, c) == spec_first_index(s.take(n), c),
    decreases s.len() - n,
{
    if n == s.len() {
        assert(s.take(n) == s);
    } else {
        assert(s.take(n + 1).drop_last() == s.take(n));
        lemma_first_index_prefix(s, n + 1, c);
    }
}

/// The position of the first `c` in `v`.
fn first_index_of(v: &Vec<char>, c: char) -> (r: Option<usize>)
    ensures
        match r {
            Some(i) => spec_first_index(v@, c) == Some(i as int) && i < v@.len(),
            None => spec_first_index(v@, c) is None,
        },
{
    let mut i: usize = 0;
    while i < v.len()
        invariant
            i <= v@.len(),
            spec_first_index(v@.take(i as int), c) is None,
        decreases v@.len() - i,
    {
        assert(v@.take(i + 1).drop_last() == v@.take(i as int));
        if v[i] == c {
            proof {
                lemma_first_index_prefix(v@, i + 1, c);
            }
            return Some(i);
        }
        i += 1;
    }
    assert(v@.take(v@.len() as int) == v@);
    None
}

/// The number written by all-digit text is at least that of any prefix.
proof fn lemma_digits_mono(s: Seq<char>, j: int)
    requires
        0 <= j <= s.len(),
        spec_all_digits(s),
    ensures
        spec_digits_value(s.take(j)) <= spec_digits_value(s),
    decreases s.len(),
{
    if j == s.len() {
        assert(s.take(j) == s);
    } else {
        let t = s.drop_last();
        assert(t.take(j) == s.take(j));
        lemma_digits_mono(t, j);
    }
}

/// What `usize::from_str` gives for the characters of `v` from `lo` up to
/// `hi`.
fn parse_usize_range(v: &Vec<char>, lo: usize, hi: usize) -> (r: Option<usize>)
    requires
        lo <= hi <= v@.len(),
    ensures
        r == spec_parse_usize(v@.subrange(lo as int, hi as int)),
{
    let ghost s = v@.subrange(lo as int, hi as int);
    let mut start = lo;
    if start < hi && v[start] == '+' {
        start += 1;
    }
    let ghost body = v@.subrange(start as int, hi as int);
    assert(body == spec_unsigned_body(s));
    if start == hi {
        return None;
    }
    let mut value: usize = 0;
    let mut k = start;
    while k < hi
        invariant
            lo <= start <= k <= hi <= v@.len(),
            start < hi,
            s == v@.subrange(lo as int, hi as int),
            body == spec_unsigned_body(s),
            body == v@.subrange(start as int, hi as int),
            forall|i: int| start <= i < k ==> spec_is_digit(#[trigger] v@[i]),
            value == spec_digits_value(v@.subrange(start as int, k as int)),
        decreases hi - k,
    {
        let c = v[k];
        if !(c >= '0' && c <= '9') {
            assert(body[k - start] == c);
            assert(!spec_is_digit(body[k - start]));
            return None;
        }
        let d = (c as u32 - '0' as u32) as usize;
        let ghost prefix = v@.subrange(start as int, k + 1);
        assert(prefix.drop_last() == v@.subrange(start as int, k as int));
        assert(prefix.last() == c);
        match value.checked_mul(10) {
            Some(x) => match x.checked_add(d) {
                Some(y) => {
                    value = y;
                },
                None => {
                    proof {
                        assert(spec_digits_value(prefix) == value * 10 + d);
                        if spec_all_digits(body) {
                            assert(body.take(k + 1 - start) == prefix);
                            lemma_digits_mono(body, k + 1 - start);
                        }
                    }
                    return None;
                },
            },
            None => {
                proof {
                    if spec_all_digits(body) {
                        assert(body.take(k + 1 - start) == prefix);
                        lemma_digits_mono(body, k + 1 - start);
                    }
                }
                return None;
            },
        }
        k += 1;
    }
    assert(spec_all_digits(body)) by {
        assert forall|i: int| 0 <= i < body.len() implies spec_is_digit(#[trigger] body[i]) by {
            assert(body[i] == v@[start + i]);
        }
    }
    assert(body == v@.subrange(start as int, k as int));
    Some(value)
}

impl DamageStat {
    /// The dice that a text such as "1d3/2d4" writes: each piece between
    /// slashes that holds a `d` gives the hits before its first `d` and the
    /// damage after it; other pieces give nothing.
    pub fn parse(damage_str: &str) -> (r: Vec<DamageStat>)
        requires
            spec_damage_text_ok(damage_str@),
        ensures
            r@ == spec_damage_text(damage_str@),
    {
        let chars = chars_of(damage_str);
        let pieces = split_chars(&chars, '/');
        let ghost views = spec_views(pieces@);
        let mut stats: Vec<DamageStat> = Vec::new();
        let mut j: usize = 0;
        while j < pieces.len()
            invariant
                j <= pieces@.len(),
                views == spec_views(pieces@),
                views == spec_split(damage_str@, '/'),
                spec_damage_text_ok(damage_str@),
                stats@ == spec_pieces_stats(views.take(j as int)),
            decreases pieces@.len() - j,
        {
            let piece = &pieces[j];
            assert(views[j as int] == piece@);
            assert(spec_piece_ok(views[j as int]));
            assert(views.take(j + 1).drop_last() == views.take(j as int));
            match first_index_of(piece, 'd') {
                None => {},
                Some(pos) => {
                    assert(piece@.take(pos as int) == piece@.subrange(0, pos as int));
                    assert(piece@.skip(pos + 1) == piece@.subrange(pos + 1, piece@.len() as int));
                    let hits = parse_usize_range(piece, 0, pos).unwrap();
                    let damage = parse_usize_range(piece, pos + 1, piece.len()).unwrap();
                    stats.push(DamageStat { hits, damage });
                },
            }
            j += 1;
        }
        assert(views.take(views.len() as int) == views);
        stats
    }

    /// The first dice that a text such as "1d3/2d4" writes.
    pub fn parse_first(damage_str: &str) -> (r: DamageStat)
        requires
            spec_damage_text_ok(damage_str@),
            spec_damage_text(damage_str@).len() > 0,
        ensures
            r == spec_damage_text(damage_str@)[0],
    {
        let stats = Self::parse(damage_str);
        stats[0]
    }
}

} // verus!
