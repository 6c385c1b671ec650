//! Decimal rendering of token counts and costs.
//!
//! Token counts are rendered with thousands separators; costs are held in
//! nano-dollars and rendered with four decimal places.
use vstd::prelude::*;
use vstd::string::{StrSliceExecFns, StringExecFns};

verus! {

/// The decimal digit character for `d`, which must lie in `0 ..= 9`.
pub open spec fn digit_char(d: int) -> char {
    if d == 0 {
        '0'
    } else if d == 1 {
        '1'
    } else if d == 2 {
        '2'
    } else if d == 3 {
        '3'
    } else if d == 4 {
        '4'
    } else if d == 5 {
        '5'
    } else if d == 6 {
        '6'
    } else if d == 7 {
        '7'
    } else if d == 8 {
        '8'
    } else {
        '9'
    }
}

/// The plain decimal digits of `n`, most significant first, with no sign
/// and no separators; `0` is rendered as the single digit `0`.
pub open spec fn dec_digits(n: nat) -> Seq<char>
    decreases n,
{
    if n < 10 {
        seq![digit_char(n as int)]
    } else {
        dec_digits(n / 10).push(digit_char((n % 10) as int))
    }
}

/// `s` with a comma inserted before every group of three characters,
/// counted from the right.
pub open spec fn with_commas(s: Seq<char>) -> Seq<char>
    decreases s.len(),
{
    if s.len() <= 3 {
        s
    } else {
        with_commas(s.take(s.len() - 3)) + seq![','] + s.skip(s.len() - 3)
    }
}

/// The decimal text of a signed value: a minus sign, if negative, then
/// the digits of the magnitude.
pub open spec fn signed_dec_digits(n: int) -> Seq<char> {
    if n < 0 {
        seq!['-'] + dec_digits((-n) as nat)
    } else {
        dec_digits(n as nat)
    }
}

/// A cost of `nanos` nano-dollars rounded to the nearest ten-thousandth
/// of a dollar, half away from zero, as an integer count of
/// ten-thousandths.
pub open spec fn cost_ten_thousandths(nanos: int) -> int {
    (nanos + 50000) / 100000
}

/// The four-decimal-place dollar text of a cost of `nanos` nano-dollars:
/// whole dollars, a point, then exactly four digits.
pub open spec fn cost_text(nanos: int) -> Seq<char> {
    let r = cost_ten_thousandths(nanos);
    dec_digits((r / 10000) as nat) + seq!['.'] + seq![
        digit_char((r / 1000) % 10),
        digit_char((r / 100) % 10),
        digit_char((r / 10) % 10),
        digit_char(r % 10),
    ]
}

/// The one-character string for the decimal digit `d`.
fn digit_str(d: u64) -> (r: &'static str)
    requires
        d < 10,
    ensures
        r@ =~= seq![digit_char(d as int)],
{
    proof {
        reveal_strlit("0");
        reveal_strlit("1");
        reveal_strlit("2");
        reveal_strlit("3");
        reveal_strlit("4");
        reveal_strlit("5");
        reveal_strlit("6");
        reveal_strlit("7");
        reveal_strlit("8");
        reveal_strlit("9");
    }
    if d == 0 {
        "0"
    } else if d == 1 {
        "1"
    } else if d == 2 {
        "2"
    } else if d == 3 {
        "3"
    } else if d == 4 {
        "4"
    } else if d == 5 {
        "5"
    } else if d == 6 {
        "6"
    } else if d == 7 {
        "7"
    } else if d == 8 {
        "8"
    } else {
        "9"
    }
}

/// Appends the decimal digits of `n` to `out`.
fn push_digits_u64(n: u64, out: &mut String)
    ensures
        final(out)@ == old(out)@ + dec_digits(n as nat),
    decreases n,
{
    if n < 10 {
        out.append(digit_str(n));
    } else {
        push_digits_u64(n / 10, out);
        out.append(digit_str(n % 10));
    }
}

/// Appends the decimal digits of `n` to `out`.
fn push_digits_u128(n: u128, out: &mut String)
    ensures
        final(out)@ == old(out)@ + dec_digits(n as nat),
    decreases n,
{
    if n < 10 {
        out.append(digit_str((n % 10) as u64));
    } else {
        push_digits_u128(n / 10, out);
        out.append(digit_str((n % 10) as u64));
    }
}

/// Appends `digits` to `out` with a comma before every group of three
/// characters, counted from the right.
fn push_with_commas(digits: &str, out: &mut String)
    ensures
        final(out)@ == old(out)@ + with_commas(digits@),
    decreases digits@.len(),
{
    let n = digits.unicode_len();
    if n <= 3 {
        out.append(digits);
    } else {
        let head = digits.substring_char(0, n - 3);
        let tail = digits.substring_char(n - 3, n);
        push_with_commas(head, out);
        out.append(",");
        out.append(tail);
        proof {
            reveal_strlit(",");
            assert(","@ =~= seq![',']);
            assert(head@ == digits@.take(digits@.len() - 3));
            assert(tail@ == digits@.skip(digits@.len() - 3));
        }
    }
}

/// Renders `num` in decimal with thousands separators.
pub fn format_number(num: u64) -> (r: String)
    ensures
        r@ == with_commas(dec_digits(num as nat)),
{
    let mut digits = String::new();
    push_digits_u64(num, &mut digits);
    let mut out = String::new();
    push_with_commas(digits.as_str(), &mut out);
    out
}

/// Renders a cost of `nanos` nano-dollars as dollars with four decimal
/// places, rounded to the nearest ten-thousandth, half away from zero.
pub fn format_cost(nanos: u128) -> (r: String)
    ensures
        r@ == cost_text(nanos as int),
{
    let q: u128 = nanos / 100000;
    let rem: u128 = nanos % 100000;
    let r: u128 = if rem >= 50000 {
        q + 1
    } else {
        q
    };
    proof {
        assert(r == cost_ten_thousandths(nanos as int));
    }
    let mut out = String::new();
    push_digits_u128(r / 10000, &mut out);
    out.append(".");
    out.append(digit_str(((r / 1000) % 10) as u64));
    out.append(digit_str(((r / 100) % 10) as u64));
    out.append(digit_str(((r / 10) % 10) as u64));
    out.append(digit_str((r % 10) as u64));
    proof {
        reveal_strlit(".");
        assert("."@ =~= seq!['.']);
        assert(out@ =~= cost_text(nanos as int));
    }
    out
}

/// Renders a signed epoch-seconds value in plain decimal.
pub fn format_signed(n: i64) -> (r: String)
    ensures
        r@ == signed_dec_digits(n as int),
{
    let mut out = String::new();
    if n < 0 {
        let mag: u64 = ((-(n as i128)) as u64);
        out.append("-");
        push_digits_u64(mag, &mut out);
        proof {
            reveal_strlit("-");
            assert("-"@ =~= seq!['-']);
            assert(out@ =~= signed_dec_digits(n as int));
        }
    } else {
        push_digits_u64(n as u64, &mut out);
    }
    out
}

} // verus!
