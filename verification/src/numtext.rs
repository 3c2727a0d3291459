//! Decimal rendering of identifiers used in request paths.

use vstd::prelude::*;

use crate::json::push_char;

verus! {

/// The decimal digit character of a value below ten.
pub open spec fn spec_digit_char(d: int) -> char {
    if d == 0 {
        '0'
    } else if d == 1 {
        '1'
    } else if d == 2 {
        '2'
    } else if d == 3 {
        '3'
    } else if d == 4 {
        '4'
    } else if d == 5 {
        '5'
    } else if d == 6 {
        '6'
    } else if d == 7 {
        '7'
    } else if d == 8 {
        '8'
    } else {
        '9'
    }
}

fn digit_char(d: u32) -> (c: char)
    requires
        d < 10,
    ensures
        c == spec_digit_char(d as int),
{
    if d == 0 {
        '0'
    } else if d == 1 {
        '1'
    } else if d == 2 {
        '2'
    } else if d == 3 {
        '3'
    } else if d == 4 {
        '4'
    } else if d == 5 {
        '5'
    } else if d == 6 {
        '6'
    } else if d == 7 {
        '7'
    } else if d == 8 {
        '8'
    } else {
        '9'
    }
}

/// The decimal rendering of a non-negative number, most significant
/// digit first, with no sign, no leading zeros, and `"0"` for zero.
pub open spec fn spec_u32_str(n: int) -> Seq<char>
    decreases n,
{
    if n < 10 {
        seq![spec_digit_char(n)]
    } else {
        spec_u32_str(n / 10).push(spec_digit_char(n % 10))
    }
}

/// Renders a number in decimal, exactly as [`spec_u32_str`]
/// describes: the digits are peeled off least significant first and
/// written out in reverse.
pub fn u32_to_string(n: u32) -> (r: String)
    ensures
        r@ == spec_u32_str(n as int),
{
    let mut digits: Vec<char> = Vec::new();
    digits.push(digit_char(n % 10));
    let mut m: u32 = n / 10;
    proof {
        if m == 0 {
            assert(digits@.reverse() =~= spec_u32_str(n as int));
        } else {
            assert(spec_u32_str(n as int) == spec_u32_str(n as int / 10).push(
                spec_digit_char(n as int % 10),
            ));
            assert(spec_u32_str(m as int) + digits@.reverse() =~= spec_u32_str(n as int));
        }
    }
    while m > 0
        invariant
            digits@.len() >= 1,
            spec_u32_str(n as int) == if m == 0 {
                digits@.reverse()
            } else {
                spec_u32_str(m as int) + digits@.reverse()
            },
        decreases m,
    {
        let d = m % 10;
        let m2 = m / 10;
        let ghost prev = digits@;
        digits.push(digit_char(d));
        proof {
            assert(digits@.reverse() =~= seq![spec_digit_char(d as int)] + prev.reverse());
            if m >= 10 {
                assert(spec_u32_str(m as int) == spec_u32_str(m2 as int).push(
                    spec_digit_char(d as int),
                ));
                assert(spec_u32_str(m2 as int).push(spec_digit_char(d as int)) + prev.reverse()
                    =~= spec_u32_str(m2 as int) + digits@.reverse());
            } else {
                assert(m2 == 0);
                assert(spec_u32_str(m as int) == seq![spec_digit_char(m as int)]);
                assert(seq![spec_digit_char(d as int)] + prev.reverse() =~= digits@.reverse());
            }
        }
        m = m2;
    }
    let mut r = String::new();
    let ghost rendered = digits@.reverse();
    proof {
        assert(r@ =~= rendered.take(0));
    }
    let mut i: usize = digits.len();
    while i > 0
        invariant
            i <= digits@.len(),
            rendered == digits@.reverse(),
            spec_u32_str(n as int) == rendered,
            r@ == rendered.take(digits@.len() - i),
        decreases i,
    {
        i = i - 1;
        push_char(&mut r, digits[i]);
        proof {
            assert(rendered[digits@.len() - i - 1] == digits@[i as int]);
            assert(r@ =~= rendered.take(digits@.len() - i));
        }
    }
    proof {
        assert(rendered.take(digits@.len() as int) =~= rendered);
    }
    r
}

} // verus!
