//! Rendering of integers as decimal text, and of hundredths as fixed-point
//! text with two decimals.
use vstd::prelude::*;

verus! {

/// The character of a decimal digit.
pub open spec fn digit_char(d: nat) -> char {
    if d == 0 {
        '0'
    } else if d == 1 {
        '1'
    } else if d == 2 {
        '2'
    } else if d == 3 {
        '3'
    } else if d == 4 {
        '4'
    } else if d == 5 {
        '5'
    } else if d == 6 {
        '6'
    } else if d == 7 {
        '7'
    } else if d == 8 {
        '8'
    } else {
        '9'
    }
}

/// The decimal digits of `n`, most significant first, without leading zeros
/// (zero is written `0`).
pub open spec fn digits_of(n: nat) -> Seq<char>
    decreases n,
{
    if n < 10 {
        seq![digit_char(n)]
    } else {
        digits_of(n / 10).push(digit_char(n % 10))
    }
}

/// The decimal text of an integer, with a leading `-` when it is negative.
pub open spec fn int_text(n: int) -> Seq<char> {
    if n < 0 {
        seq!['-'] + digits_of((-n) as nat)
    } else {
        digits_of(n as nat)
    }
}

/// The text of `c` hundredths with exactly two decimals (`8500` is `85.00`,
/// `-5` is `-0.05`).
pub open spec fn centi_text(c: int) -> Seq<char> {
    let m: nat = if c < 0 { (-c) as nat } else { c as nat };
    let sign: Seq<char> = if c < 0 { seq!['-'] } else { seq![] };
    sign + digits_of(m / 100) + seq!['.'] + seq![digit_char((m % 100) / 10), digit_char(m % 10)]
}

fn digit_str(d: u128) -> (r: &'static str)
    requires
        d < 10,
    ensures
        r@ == seq![digit_char(d as nat)],
{
    proof {
        reveal_strlit("0");
        reveal_strlit("1");
        reveal_strlit("2");
        reveal_strlit("3");
        reveal_strlit("4");
        reveal_strlit("5");
        reveal_strlit("6");
        reveal_strlit("7");
        reveal_strlit("8");
        reveal_strlit("9");
    }
    if d == 0 {
        "0"
    } else if d == 1 {
        "1"
    } else if d == 2 {
        "2"
    } else if d == 3 {
        "3"
    } else if d == 4 {
        "4"
    } else if d == 5 {
        "5"
    } else if d == 6 {
        "6"
    } else if d == 7 {
        "7"
    } else if d == 8 {
        "8"
    } else {
        "9"
    }
}

/// Appends the decimal digits of `n` to `out`.
pub fn push_digits(out: &mut String, n: u128)
    ensures
        final(out)@ == old(out)@ + digits_of(n as nat),
    decreases n,
{
    if n >= 10 {
        push_digits(out, n / 10);
    }
    out.append(digit_str(n % 10));
    assert(final(out)@ =~= old(out)@ + digits_of(n as nat));
}

/// The magnitude of `n`, as an unsigned number.
fn magnitude(n: i128) -> (r: u128)
    ensures
        r as int == if n < 0 { -n } else { n as int },
{
    if n < 0 {
        ((-(n + 1)) as u128) + 1
    } else {
        n as u128
    }
}

/// Appends the decimal text of `n` to `out`.
pub fn push_int(out: &mut String, n: i128)
    ensures
        final(out)@ == old(out)@ + int_text(n as int),
{
    proof {
        reveal_strlit("-");
    }
    let m = magnitude(n);
    if n < 0 {
        out.append("-");
    }
    push_digits(out, m);
    assert(final(out)@ =~= old(out)@ + int_text(n as int));
}

/// Appends `c` hundredths to `out` as text with two decimals.
pub fn push_centi(out: &mut String, c: i128)
    ensures
        final(out)@ == old(out)@ + centi_text(c as int),
{
    proof {
        reveal_strlit("-");
        reveal_strlit(".");
    }
    let m = magnitude(c);
    if c < 0 {
        out.append("-");
    }
    push_digits(out, m / 100);
    out.append(".");
    out.append(digit_str((m % 100) / 10));
    out.append(digit_str(m % 10));
    assert(final(out)@ =~= old(out)@ + centi_text(c as int));
}

} // verus!
