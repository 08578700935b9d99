//! Decimal rendering of counters presented to the guest, together with the
//! parsing function a guest would apply, and the proof that parsing recovers
//! the rendered number.

use vstd::prelude::*;
use vstd::arithmetic::div_mod::lemma_fundamental_div_mod;

verus! {

/// The character for one decimal digit.
pub open spec fn digit_char(d: nat) -> char
    recommends
        d < 10,
{
    if d == 0 {
        '0'
    } else if d == 1 {
        '1'
    } else if d == 2 {
        '2'
    } else if d == 3 {
        '3'
    } else if d == 4 {
        '4'
    } else if d == 5 {
        '5'
    } else if d == 6 {
        '6'
    } else if d == 7 {
        '7'
    } else if d == 8 {
        '8'
    } else {
        '9'
    }
}

/// The value of one decimal digit character.
pub open spec fn digit_val(c: char) -> nat {
    if c == '0' {
        0
    } else if c == '1' {
        1
    } else if c == '2' {
        2
    } else if c == '3' {
        3
    } else if c == '4' {
        4
    } else if c == '5' {
        5
    } else if c == '6' {
        6
    } else if c == '7' {
        7
    } else if c == '8' {
        8
    } else {
        9
    }
}

/// The canonical decimal rendering of a number: no sign, no leading zero
/// except for the number zero itself.
pub open spec fn spec_decimal(n: nat) -> Seq<char>
    decreases n,
{
    if n < 10 {
        seq![digit_char(n)]
    } else {
        spec_decimal(n / 10) + seq![digit_char(n % 10)]
    }
}

/// Decimal parsing, most significant digit first; the empty sequence parses
/// to zero.
pub open spec fn spec_parse_decimal(s: Seq<char>) -> nat
    decreases s.len(),
{
    if s.len() == 0 {
        0
    } else {
        spec_parse_decimal(s.drop_last()) * 10 + digit_val(s.last())
    }
}

/// Parsing recovers every rendered number: the `FD_COUNT` binding, rendered
/// with [`u64_to_decimal`], parses back to the count it was rendered from.
pub proof fn lemma_parse_decimal_roundtrip(n: nat)
    ensures
        spec_parse_decimal(spec_decimal(n)) == n,
    decreases n,
{
    if n < 10 {
        let s = spec_decimal(n);
        assert(s =~= seq![digit_char(n)]);
        assert(s.len() == 1);
        assert(s.last() == digit_char(n));
        assert(s.drop_last() =~= Seq::<char>::empty());
        assert(spec_parse_decimal(s.drop_last()) == 0);
        assert(spec_parse_decimal(s) == digit_val(digit_char(n)));
    } else {
        lemma_parse_decimal_roundtrip(n / 10);
        let s = spec_decimal(n);
        assert(s == spec_decimal(n / 10) + seq![digit_char(n % 10)]);
        assert(s.drop_last() =~= spec_decimal(n / 10));
        assert(s.last() == digit_char(n % 10));
        assert(digit_val(digit_char(n % 10)) == n % 10);
        lemma_fundamental_div_mod(n as int, 10);
    }
}

/// One decimal digit as a string.
fn digit_string(d: u64) -> (r: String)
    requires
        d < 10,
    ensures
        r@ =~= seq![digit_char(d as nat)],
{
    proof {
        reveal_strlit("0");
        reveal_strlit("1");
        reveal_strlit("2");
        reveal_strlit("3");
        reveal_strlit("4");
        reveal_strlit("5");
        reveal_strlit("6");
        reveal_strlit("7");
        reveal_strlit("8");
        reveal_strlit("9");
    }
    if d == 0 {
        String::from_str("0")
    } else if d == 1 {
        String::from_str("1")
    } else if d == 2 {
        String::from_str("2")
    } else if d == 3 {
        String::from_str("3")
    } else if d == 4 {
        String::from_str("4")
    } else if d == 5 {
        String::from_str("5")
    } else if d == 6 {
        String::from_str("6")
    } else if d == 7 {
        String::from_str("7")
    } else if d == 8 {
        String::from_str("8")
    } else {
        String::from_str("9")
    }
}

/// Render a number in decimal.
pub fn u64_to_decimal(n: u64) -> (r: String)
    ensures
        r@ == spec_decimal(n as nat),
    decreases n,
{
    if n < 10 {
        digit_string(n)
    } else {
        let mut s = u64_to_decimal(n / 10);
        let d = digit_string(n % 10);
        s.append(d.as_str());
        proof {
            assert(s@ =~= spec_decimal((n / 10) as nat) + seq![digit_char((n % 10) as nat)]);
        }
        s
    }
}

/// The decimal rendering of a signed number: a `'-'` before the magnitude
/// for negative numbers.
pub open spec fn spec_decimal_signed(s: int) -> Seq<char> {
    if s >= 0 {
        spec_decimal(s as nat)
    } else {
        seq!['-'] + spec_decimal((-s) as nat)
    }
}

/// Render a signed number in decimal.
pub fn i32_to_decimal(v: i32) -> (r: String)
    ensures
        r@ == spec_decimal_signed(v as int),
{
    if v >= 0 {
        u64_to_decimal(v as u64)
    } else {
        let m = (-(v as i64)) as u64;
        let mut s = String::from_str("-");
        let mag = u64_to_decimal(m);
        s.append(mag.as_str());
        proof {
            reveal_strlit("-");
            assert(s@ =~= seq!['-'] + spec_decimal(m as nat));
        }
        s
    }
}

} // verus!

