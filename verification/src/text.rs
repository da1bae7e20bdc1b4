//! Verified text helpers: string comparison and exact decimal rendering of
//! money amounts and proration rates.

use vstd::prelude::*;

verus! {

/// Compare two string slices character by character.
pub fn str_eq(a: &str, b: &str) -> (r: bool)
    ensures
        r == (a@ == b@),
{
    let alen = a.unicode_len();
    let blen = b.unicode_len();
    if alen != blen {
        proof {
            assert(a@.len() != b@.len());
        }
        return false;
    }
    let mut i: usize = 0;
    while i < alen
        invariant
            i <= alen,
            alen == a@.len(),
            alen == b@.len(),
            forall|j: int| 0 <= j < i ==> a@[j] == b@[j],
        decreases alen - i,
    {
        if a.get_char(i) != b.get_char(i) {
            return false;
        }
        i = i + 1;
    }
    proof {
        assert(a@ =~= b@);
    }
    true
}

/// The decimal digit character for a value in 0..=9.
pub open spec fn spec_digit(d: int) -> char {
    if d == 0 {
        '0'
    } else if d == 1 {
        '1'
    } else if d == 2 {
        '2'
    } else if d == 3 {
        '3'
    } else if d == 4 {
        '4'
    } else if d == 5 {
        '5'
    } else if d == 6 {
        '6'
    } else if d == 7 {
        '7'
    } else if d == 8 {
        '8'
    } else {
        '9'
    }
}

/// The decimal rendering of a non-negative integer, most significant digit
/// first, with no leading zeros (a single zero for 0).
pub open spec fn spec_dec(n: int) -> Seq<char>
    recommends
        n >= 0,
    decreases n,
{
    if n < 10 {
        seq![spec_digit(n)]
    } else {
        spec_dec(n / 10).push(spec_digit(n % 10))
    }
}

fn digit_str(d: u128) -> (s: &'static str)
    requires
        d < 10,
    ensures
        s@ =~= seq![spec_digit(d as int)],
{
    proof {
        reveal_strlit("0");
        reveal_strlit("1");
        reveal_strlit("2");
        reveal_strlit("3");
        reveal_strlit("4");
        reveal_strlit("5");
        reveal_strlit("6");
        reveal_strlit("7");
        reveal_strlit("8");
        reveal_strlit("9");
    }
    if d == 0 {
        "0"
    } else if d == 1 {
        "1"
    } else if d == 2 {
        "2"
    } else if d == 3 {
        "3"
    } else if d == 4 {
        "4"
    } else if d == 5 {
        "5"
    } else if d == 6 {
        "6"
    } else if d == 7 {
        "7"
    } else if d == 8 {
        "8"
    } else {
        "9"
    }
}

/// Render an unsigned integer in decimal.
pub fn u128_to_string(n: u128) -> (s: String)
    ensures
        s@ == spec_dec(n as int),
    decreases n,
{
    if n < 10 {
        String::from_str(digit_str(n))
    } else {
        let mut s = u128_to_string(n / 10);
        s.append(digit_str(n % 10));
        proof {
            assert(s@ =~= spec_dec(n as int / 10).push(spec_digit(n as int % 10)));
        }
        s
    }
}

/// Fine units (a ten-thousandth of a cent) rounded half-up to whole cents.
pub open spec fn spec_round_cents(fine: int) -> int {
    (fine + 5000) / 10000
}

/// Dollars-and-cents rendering of a fine-unit amount: the amount rounded
/// half-up to cents, written with exactly two decimal places.
pub open spec fn spec_dollars(fine: int) -> Seq<char> {
    let cents = spec_round_cents(fine);
    spec_dec(cents / 100) + seq!['.', spec_digit(cents / 10 % 10), spec_digit(cents % 10)]
}

/// Render a fine-unit money amount as dollars with two decimal places.
pub fn format_dollars(fine: u128) -> (s: String)
    requires
        fine + 5000 <= u128::MAX,
    ensures
        s@ == spec_dollars(fine as int),
{
    let cents = (fine + 5000) / 10000;
    let mut s = u128_to_string(cents / 100);
    proof {
        reveal_strlit(".");
    }
    s.append(".");
    s.append(digit_str(cents / 10 % 10));
    s.append(digit_str(cents % 10));
    proof {
        assert(s@ =~= spec_dollars(fine as int));
    }
    s
}

/// A basis-point rate rendered as a percentage, rounded half-up to one
/// decimal place.
pub open spec fn spec_percent(bp: int) -> Seq<char> {
    let tenths = (bp + 5) / 10;
    spec_dec(tenths / 10) + seq!['.', spec_digit(tenths % 10)]
}

/// Render a basis-point rate as a percentage with one decimal place.
pub fn format_percent(bp: u32) -> (s: String)
    ensures
        s@ == spec_percent(bp as int),
{
    let tenths = ((bp as u64) + 5) / 10;
    let mut s = u128_to_string((tenths / 10) as u128);
    proof {
        reveal_strlit(".");
    }
    s.append(".");
    s.append(digit_str((tenths % 10) as u128));
    proof {
        assert(s@ =~= spec_percent(bp as int));
    }
    s
}

} // verus!

verus! {

/// A value scaled by 10000 rendered as a plain decimal with exactly four
/// fractional digits; used for proration rates in the lease encoding.
pub open spec fn spec_fixed4(v: int) -> Seq<char> {
    spec_dec(v / 10000) + seq![
        '.',
        spec_digit(v / 1000 % 10),
        spec_digit(v / 100 % 10),
        spec_digit(v / 10 % 10),
        spec_digit(v % 10),
    ]
}

/// Render a basis-point value as its exact decimal fraction, four digits
/// after the point.
pub fn format_fixed4(v: u32) -> (s: String)
    ensures
        s@ == spec_fixed4(v as int),
{
    let w = v as u128;
    let mut s = u128_to_string(w / 10000);
    proof {
        reveal_strlit(".");
    }
    s.append(".");
    s.append(digit_str(w / 1000 % 10));
    s.append(digit_str(w / 100 % 10));
    s.append(digit_str(w / 10 % 10));
    s.append(digit_str(w % 10));
    proof {
        assert(s@ =~= spec_fixed4(v as int));
    }
    s
}

} // verus!
