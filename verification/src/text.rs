//! Character-level string helpers: building a `String` from a vector of
//! characters, and exact decimal formatting of fixed-point quantities held
//! in tenths.

use vstd::prelude::*;

verus! {

/// Relies on `String`'s `FromIterator<char>` impl (through `Iterator::collect`):
/// collecting characters yields the string of exactly those characters, in order.
#[verifier::external_body]
pub(crate) fn chars_to_string(v: &Vec<char>) -> (r: String)
    ensures
        r@ == v@,
{
    v.iter().collect()
}

/// The decimal digit `d` as a character; meaningful for `0 <= d <= 9`.
pub open spec fn dec_digit(d: int) -> char {
    if d == 0 {
        '0'
    } else if d == 1 {
        '1'
    } else if d == 2 {
        '2'
    } else if d == 3 {
        '3'
    } else if d == 4 {
        '4'
    } else if d == 5 {
        '5'
    } else if d == 6 {
        '6'
    } else if d == 7 {
        '7'
    } else if d == 8 {
        '8'
    } else {
        '9'
    }
}

/// Decimal digits of the non-negative integer `n`, most significant first,
/// without leading zeroes (except for `n == 0` itself).
pub open spec fn dec_nat(n: int) -> Seq<char>
    recommends
        n >= 0,
    decreases n,
{
    if n < 10 {
        seq![dec_digit(n)]
    } else {
        dec_nat(n / 10).push(dec_digit(n % 10))
    }
}

/// The quantity `t`, held in tenths, in its shortest exact decimal form:
/// an optional sign, the integer part, and a single fractional digit only
/// when the fraction is not zero (`200` prints as `20`, `-378` as `-37.8`).
pub open spec fn tenths_str(t: int) -> Seq<char> {
    let a = if t < 0 {
        -t
    } else {
        t
    };
    let sign: Seq<char> = if t < 0 {
        seq!['-']
    } else {
        Seq::empty()
    };
    if a % 10 == 0 {
        sign + dec_nat(a / 10)
    } else {
        sign + dec_nat(a / 10) + seq!['.', dec_digit(a % 10)]
    }
}

/// The decimal digit `d` as a character.
pub(crate) fn dec_digit_char(d: u64) -> (c: char)
    requires
        d <= 9,
    ensures
        c == dec_digit(d as int),
{
    if d == 0 {
        '0'
    } else if d == 1 {
        '1'
    } else if d == 2 {
        '2'
    } else if d == 3 {
        '3'
    } else if d == 4 {
        '4'
    } else if d == 5 {
        '5'
    } else if d == 6 {
        '6'
    } else if d == 7 {
        '7'
    } else if d == 8 {
        '8'
    } else {
        '9'
    }
}

/// Appends the decimal digits of `n` to `out`, most significant first.
fn push_dec_u64(n: u64, out: &mut Vec<char>)
    ensures
        final(out)@ == old(out)@ + dec_nat(n as int),
    decreases n,
{
    if n < 10 {
        out.push(dec_digit_char(n));
    } else {
        push_dec_u64(n / 10, out);
        out.push(dec_digit_char(n % 10));
        proof {
            assert(out@ =~= old(out)@ + dec_nat(n as int));
        }
    }
}

/// Formats a quantity held in tenths as its shortest exact decimal string.
pub fn format_tenths(t: i64) -> (r: String)
    requires
        t != i64::MIN,
    ensures
        r@ == tenths_str(t as int),
{
    let mut out: Vec<char> = Vec::new();
    let a: u64 = if t < 0 {
        out.push('-');
        (-t) as u64
    } else {
        t as u64
    };
    push_dec_u64(a / 10, &mut out);
    if a % 10 != 0 {
        out.push('.');
        out.push(dec_digit_char(a % 10));
    }
    proof {
        assert(out@ =~= tenths_str(t as int));
    }
    chars_to_string(&out)
}

} // verus!
