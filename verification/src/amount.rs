//! The numeric formatter: decimal text of money and of quantities.
//!
//! A value is a whole number of thousandths.  Money is shown rounded to two
//! decimals, half away from zero, with a comma between groups of three digits;
//! a quantity is shown with as many decimals as it needs, at most three.

use vstd::prelude::*;
use vstd::string::*;

verus! {

/// The character of the decimal digit `d`.
pub open spec fn digit_char(d: nat) -> char
    recommends
        d < 10,
{
    if d == 0 {
        '0'
    } else if d == 1 {
        '1'
    } else if d == 2 {
        '2'
    } else if d == 3 {
        '3'
    } else if d == 4 {
        '4'
    } else if d == 5 {
        '5'
    } else if d == 6 {
        '6'
    } else if d == 7 {
        '7'
    } else if d == 8 {
        '8'
    } else {
        '9'
    }
}

/// The decimal digits of `n`, most significant first, without leading zeros.
pub open spec fn digits(n: nat) -> Seq<char>
    decreases n,
{
    if n < 10 {
        seq![digit_char(n)]
    } else {
        digits(n / 10).push(digit_char(n % 10))
    }
}

/// The three decimal digits of `n`, which is below 1000.
pub open spec fn three_digits(n: nat) -> Seq<char>
    recommends
        n < 1000,
{
    seq![digit_char(n / 100), digit_char(n / 10 % 10), digit_char(n % 10)]
}

/// The two decimal digits of `n`, which is below 100.
pub open spec fn two_digits(n: nat) -> Seq<char>
    recommends
        n < 100,
{
    seq![digit_char(n / 10), digit_char(n % 10)]
}

/// The decimal digits of `n` with a comma before every group of three digits
/// but the first.
pub open spec fn grouped_digits(n: nat) -> Seq<char>
    decreases n,
{
    if n < 1000 {
        digits(n)
    } else {
        grouped_digits(n / 1000) + seq![','] + three_digits(n % 1000)
    }
}

/// The absolute value of `v`.
pub open spec fn magnitude_of(v: int) -> nat {
    if v >= 0 {
        v as nat
    } else {
        (-v) as nat
    }
}

/// The hundredths nearest to `v` thousandths; a half goes away from zero.
pub open spec fn round_to_cents(v: int) -> int {
    if v >= 0 {
        (v + 5) / 10
    } else {
        -((-v + 5) / 10)
    }
}

/// The thousandths nearest to `v` millionths; a half goes away from zero.
pub open spec fn round_to_mills(v: int) -> int {
    if v >= 0 {
        (v + 500) / 1000
    } else {
        -((-v + 500) / 1000)
    }
}

/// A minus sign where `negative` holds, and nothing otherwise.
pub open spec fn sign_text(negative: bool) -> Seq<char> {
    if negative {
        seq!['-']
    } else {
        Seq::<char>::empty()
    }
}

/// The text of `cents` hundredths: grouped units, a point, two decimals.
pub open spec fn cents_text(cents: nat) -> Seq<char> {
    grouped_digits(cents / 100) + seq!['.'] + two_digits(cents % 100)
}

/// The text of `v` thousandths as money.
pub open spec fn money_text(v: int) -> Seq<char> {
    let cents = round_to_cents(v);
    sign_text(cents < 0) + cents_text(magnitude_of(cents))
}

/// The decimals of a quantity whose part below one unit is `mills`
/// thousandths: none where it is zero, and otherwise a point and the digits up
/// to the last one that is not zero.
pub open spec fn fraction_text(mills: nat) -> Seq<char>
    recommends
        mills < 1000,
{
    if mills == 0 {
        Seq::<char>::empty()
    } else if mills % 100 == 0 {
        seq!['.', digit_char(mills / 100)]
    } else if mills % 10 == 0 {
        seq!['.', digit_char(mills / 100), digit_char(mills / 10 % 10)]
    } else {
        seq!['.', digit_char(mills / 100), digit_char(mills / 10 % 10), digit_char(mills % 10)]
    }
}

/// The text of `v` thousandths as a quantity.
pub open spec fn plain_text(v: int) -> Seq<char> {
    let m = magnitude_of(v);
    sign_text(v < 0) + digits(m / 1000) + fraction_text(m % 1000)
}

/// The text of the whole number `v`.
pub open spec fn integer_text(v: int) -> Seq<char> {
    sign_text(v < 0) + digits(magnitude_of(v))
}

/// The absolute value of `v`.
pub fn magnitude(v: i128) -> (m: u128)
    ensures
        m == magnitude_of(v as int),
{
    if v >= 0 {
        v as u128
    } else if v == i128::MIN {
        0x8000_0000_0000_0000_0000_0000_0000_0000u128
    } else {
        (-v) as u128
    }
}

/// The one-character string of the digit `d`.
fn digit_str(d: u8) -> (r: &'static str)
    requires
        d < 10,
    ensures
        r@ == seq![digit_char(d as nat)],
{
    proof {
        reveal_strlit("0");
        reveal_strlit("1");
        reveal_strlit("2");
        reveal_strlit("3");
        reveal_strlit("4");
        reveal_strlit("5");
        reveal_strlit("6");
        reveal_strlit("7");
        reveal_strlit("8");
        reveal_strlit("9");
    }
    let r = if d == 0 {
        "0"
    } else if d == 1 {
        "1"
    } else if d == 2 {
        "2"
    } else if d == 3 {
        "3"
    } else if d == 4 {
        "4"
    } else if d == 5 {
        "5"
    } else if d == 6 {
        "6"
    } else if d == 7 {
        "7"
    } else if d == 8 {
        "8"
    } else {
        "9"
    };
    assert(r@ =~= seq![digit_char(d as nat)]);
    r
}

/// Appends the digit `d` to `out`.
fn push_digit(out: &mut String, d: u128)
    requires
        d < 10,
    ensures
        final(out)@ == old(out)@.push(digit_char(d as nat)),
{
    let ghost before = out@;
    out.append(digit_str(d as u8));
    assert(out@ =~= before.push(digit_char(d as nat)));
}

/// Appends the digits of `n` to `out`.
fn push_digits(out: &mut String, n: u128)
    ensures
        final(out)@ == old(out)@ + digits(n as nat),
    decreases n,
{
    let ghost before = out@;
    if n >= 10 {
        push_digits(out, n / 10);
    }
    push_digit(out, n % 10);
    assert(out@ =~= before + digits(n as nat));
}

/// Appends the three digits of `n` to `out`.
fn push_three_digits(out: &mut String, n: u128)
    requires
        n < 1000,
    ensures
        final(out)@ == old(out)@ + three_digits(n as nat),
{
    let ghost before = out@;
    push_digit(out, n / 100);
    push_digit(out, n / 10 % 10);
    push_digit(out, n % 10);
    assert(out@ =~= before + three_digits(n as nat));
}

/// Appends the grouped digits of `n` to `out`.
fn push_grouped(out: &mut String, n: u128)
    ensures
        final(out)@ == old(out)@ + grouped_digits(n as nat),
    decreases n,
{
    let ghost before = out@;
    if n >= 1000 {
        push_grouped(out, n / 1000);
        proof {
            reveal_strlit(",");
        }
        out.append(",");
        push_three_digits(out, n % 1000);
        assert(out@ =~= before + grouped_digits(n as nat));
    } else {
        push_digits(out, n);
    }
}

/// Appends a minus sign to `out` where `negative` holds.
fn push_sign(out: &mut String, negative: bool)
    ensures
        final(out)@ == old(out)@ + sign_text(negative),
{
    let ghost before = out@;
    if negative {
        proof {
            reveal_strlit("-");
        }
        out.append("-");
    }
    assert(out@ =~= before + sign_text(negative));
}

/// The text of `value` thousandths as money: rounded to two decimals, half
/// away from zero, the units in groups of three with commas between them, and
/// a minus sign in front where the rounded value is below zero.
pub fn format_amount(value: i128) -> (r: String)
    ensures
        r@ == money_text(value as int),
{
    let m: u128 = magnitude(value);
    let cents: u128 = (m + 5) / 10;
    let mut out = String::new();
    push_sign(&mut out, value < 0 && cents > 0);
    push_grouped(&mut out, cents / 100);
    proof {
        reveal_strlit(".");
    }
    out.append(".");
    push_digit(&mut out, cents % 100 / 10);
    push_digit(&mut out, cents % 10);
    assert(out@ =~= money_text(value as int));
    out
}

/// The text of the absolute value of `value` thousandths as money.
pub fn format_magnitude(value: i128) -> (r: String)
    ensures
        r@ == money_text(magnitude_of(value as int) as int),
{
    let m: u128 = magnitude(value);
    let cents: u128 = (m + 5) / 10;
    let mut out = String::new();
    push_grouped(&mut out, cents / 100);
    proof {
        reveal_strlit(".");
    }
    out.append(".");
    push_digit(&mut out, cents % 100 / 10);
    push_digit(&mut out, cents % 10);
    assert(out@ =~= money_text(magnitude_of(value as int) as int));
    out
}

/// The text of `value` thousandths as a quantity: the units, and the decimals
/// that are needed, without trailing zeros.
pub fn format_plain(value: i128) -> (r: String)
    ensures
        r@ == plain_text(value as int),
{
    let m: u128 = magnitude(value);
    let frac: u128 = m % 1000;
    let mut out = String::new();
    push_sign(&mut out, value < 0);
    push_digits(&mut out, m / 1000);
    if frac != 0 {
        proof {
            reveal_strlit(".");
        }
        out.append(".");
        push_digit(&mut out, frac / 100);
        if frac % 100 != 0 {
            push_digit(&mut out, frac / 10 % 10);
            if frac % 10 != 0 {
                push_digit(&mut out, frac % 10);
            }
        }
    }
    assert(out@ =~= plain_text(value as int));
    out
}

/// The decimal text of the whole number `value`.
pub fn format_integer(value: i64) -> (r: String)
    ensures
        r@ == integer_text(value as int),
{
    let m: u128 = magnitude(value as i128);
    let mut out = String::new();
    push_sign(&mut out, value < 0);
    push_digits(&mut out, m);
    out
}

} // verus!
