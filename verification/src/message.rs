//! Messages to the player beyond the message line, and numbers written out
//! in them.
use vstd::prelude::*;

use crate::hit::damage_stat::{spec_all_digits, spec_digits_value, spec_is_digit, spec_parse_usize};

verus! {

/// Saving a picture of the screen to a file is not supported: nothing
/// happens.
pub fn save_screen() {
}

/// Ringing the terminal's bell is not supported: nothing happens.
pub fn sound_bell() {
}

/// The character of the decimal digit `d`.
pub open spec fn spec_digit_char(d: nat) -> char {
    if d == 0 {
        '0'
    } else if d == 1 {
        '1'
    } else if d == 2 {
        '2'
    } else if d == 3 {
        '3'
    } else if d == 4 {
        '4'
    } else if d == 5 {
        '5'
    } else if d == 6 {
        '6'
    } else if d == 7 {
        '7'
    } else if d == 8 {
        '8'
    } else {
        '9'
    }
}

/// `n` written in decimal, with no leading zeros.
pub open spec fn spec_decimal(n: nat) -> Seq<char>
    decreases n,
{
    if n < 10 {
        seq![spec_digit_char(n)]
    } else {
        spec_decimal(n / 10).push(spec_digit_char(n % 10))
    }
}

/// The text of the decimal digit `d`.
fn digit_str(d: usize) -> (r: &'static str)
    requires
        d < 10,
    ensures
        r@ == seq![spec_digit_char(d as nat)],
{
    proof {
        reveal_strlit("0");
        reveal_strlit("1");
        reveal_strlit("2");
        reveal_strlit("3");
        reveal_strlit("4");
        reveal_strlit("5");
        reveal_strlit("6");
        reveal_strlit("7");
        reveal_strlit("8");
        reveal_strlit("9");
    }
    if d == 0 {
        "0"
    } else if d == 1 {
        "1"
    } else if d == 2 {
        "2"
    } else if d == 3 {
        "3"
    } else if d == 4 {
        "4"
    } else if d == 5 {
        "5"
    } else if d == 6 {
        "6"
    } else if d == 7 {
        "7"
    } else if d == 8 {
        "8"
    } else {
        "9"
    }
}

/// Appends `n` written in decimal to `s`.
pub fn push_decimal(s: &mut String, n: usize)
    ensures
        final(s)@ == old(s)@ + spec_decimal(n as nat),
    decreases n,
{
    if n >= 10 {
        push_decimal(s, n / 10);
    }
    s.append(digit_str(n % 10));
}

/// `n` written in decimal, with a minus sign before a negative number.
pub open spec fn spec_signed_decimal(n: int) -> Seq<char> {
    if n < 0 {
        "-"@ + spec_decimal((-n) as nat)
    } else {
        spec_decimal(n as nat)
    }
}

/// Appends `n` written in decimal, with a minus sign before a negative
/// number, to `s`.
pub fn push_signed(s: &mut String, n: isize)
    requires
        n > isize::MIN,
    ensures
        final(s)@ == old(s)@ + spec_signed_decimal(n as int),
{
    if n < 0 {
        s.append("-");
        let ghost mid = s@;
        push_decimal(s, (0 - n) as usize);
        proof {
            reveal_strlit("-");
            assert(s@ =~= old(s)@ + spec_signed_decimal(n as int));
        }
    } else {
        push_decimal(s, n as usize);
    }
}

/// A digit's character reads back as the digit.
proof fn lemma_digit_value(k: nat)
    requires
        k < 10,
    ensures
        spec_is_digit(spec_digit_char(k)),
        spec_digit_char(k) as nat - '0' as nat == k,
{
}

/// The digits of `n` are all decimal digits, the first is no plus sign, and
/// read back they give `n`.
proof fn lemma_decimal_digits(n: nat)
    ensures
        spec_decimal(n).len() > 0,
        spec_all_digits(spec_decimal(n)),
        spec_decimal(n)[0] != '+',
        spec_digits_value(spec_decimal(n)) == n,
    decreases n,
{
    let d = spec_decimal(n);
    lemma_digit_value(n % 10);
    assert(spec_digits_value(d) == spec_digits_value(d.drop_last()) * 10 + (d.last() as nat - '0' as nat) as nat);
    if n < 10 {
        assert(d.drop_last() =~= Seq::<char>::empty());
        assert(n % 10 == n);
        assert(d.last() == spec_digit_char(n));
        assert(spec_digits_value(d.drop_last()) == 0);
    } else {
        lemma_decimal_digits(n / 10);
        assert(n == (n / 10) * 10 + n % 10);
        let prev = spec_decimal(n / 10);
        assert(d.drop_last() =~= prev);
        assert(d.last() == spec_digit_char(n % 10));
        assert(spec_digits_value(d) == spec_digits_value(prev) * 10 + n % 10);
        assert forall|i: int| 0 <= i < d.len() implies spec_is_digit(#[trigger] d[i]) by {
            if i < prev.len() {
                assert(d[i] == prev[i]);
            }
        }
        assert(d[0] == prev[0]);
    }
}

/// A number written out in decimal reads back as itself: what
/// `push_decimal` writes, the parser of dice text takes for the same number.
pub proof fn law_decimal_reads_back(n: usize)
    ensures
        spec_parse_usize(spec_decimal(n as nat)) == Some(n),
{
    lemma_decimal_digits(n as nat);
}

} // verus!
