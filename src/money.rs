//! Fixed-point money and quantities with two decimal places, and their text.
use vstd::prelude::*;

verus! {

/// The text of one decimal digit.
pub open spec fn digit_text(d: nat) -> Seq<char> {
    if d == 0 { "0"@ }
    else if d == 1 { "1"@ }
    else if d == 2 { "2"@ }
    else if d == 3 { "3"@ }
    else if d == 4 { "4"@ }
    else if d == 5 { "5"@ }
    else if d == 6 { "6"@ }
    else if d == 7 { "7"@ }
    else if d == 8 { "8"@ }
    else { "9"@ }
}

/// The decimal text of `n`, without leading zeros.
pub open spec fn decimal_text(n: nat) -> Seq<char>
    decreases n,
{
    if n < 10 {
        digit_text(n)
    } else {
        decimal_text(n / 10) + digit_text(n % 10)
    }
}

/// The text of a value held in hundredths, with exactly two decimal places
/// (`1234` is `12.34`, `5` is `0.05`).
pub open spec fn fixed2_text(v: nat) -> Seq<char> {
    decimal_text(v / 100) + "."@ + digit_text((v % 100) / 10) + digit_text(v % 10)
}

/// A value held in ten-thousandths, rounded to hundredths; a tie goes to the
/// even neighbour.
pub open spec fn round_to_hundredths(v: nat) -> nat {
    let q = v / 100;
    let r = v % 100;
    if r > 50 || (r == 50 && q % 2 == 1) { q + 1 } else { q }
}

fn digit_str(d: u128) -> (r: &'static str)
    requires
        d < 10,
    ensures
        r@ == digit_text(d as nat),
{
    if d == 0 { "0" }
    else if d == 1 { "1" }
    else if d == 2 { "2" }
    else if d == 3 { "3" }
    else if d == 4 { "4" }
    else if d == 5 { "5" }
    else if d == 6 { "6" }
    else if d == 7 { "7" }
    else if d == 8 { "8" }
    else { "9" }
}

/// The decimal text of `n`.
pub fn format_decimal(n: u128) -> (r: String)
    ensures
        r@ == decimal_text(n as nat),
    decreases n,
{
    if n < 10 {
        String::from_str(digit_str(n))
    } else {
        let mut s = format_decimal(n / 10);
        s.append(digit_str(n % 10));
        s
    }
}

/// The text of a value held in hundredths, with two decimal places.
pub fn format_fixed2(v: u128) -> (r: String)
    ensures
        r@ == fixed2_text(v as nat),
{
    let mut s = format_decimal(v / 100);
    s.append(".");
    s.append(digit_str((v % 100) / 10));
    s.append(digit_str(v % 10));
    s
}

/// Rounds a value held in ten-thousandths to hundredths, ties to even.
pub fn round_hundredths(v: u128) -> (r: u128)
    ensures
        r == round_to_hundredths(v as nat),
{
    let q = v / 100;
    let rem = v % 100;
    if rem > 50 || (rem == 50 && q % 2 == 1) {
        q + 1
    } else {
        q
    }
}

/// A signed value held in hundredths, with two decimal places and a leading
/// `-` when negative.
pub open spec fn signed_fixed2_text(v: int) -> Seq<char> {
    if v < 0 { "-"@ + fixed2_text((-v) as nat) } else { fixed2_text(v as nat) }
}

/// A signed value held in ten-thousandths, rounded to two decimal places.
/// The magnitude is rounded and the sign kept, so a small negative value
/// shows as `-0.00`.
pub open spec fn rounded_text(v: int) -> Seq<char> {
    if v < 0 {
        "-"@ + fixed2_text(round_to_hundredths((-v) as nat))
    } else {
        fixed2_text(round_to_hundredths(v as nat))
    }
}

/// The text of a signed value held in hundredths.
pub fn format_signed_fixed2(v: i64) -> (r: String)
    ensures
        r@ == signed_fixed2_text(v as int),
{
    let w = v as i128;
    if w < 0 {
        let mut s = String::from_str("-");
        s.append(format_fixed2((-w) as u128).as_str());
        s
    } else {
        format_fixed2(w as u128)
    }
}

/// The text of a signed value held in ten-thousandths, rounded to two
/// decimal places.
pub fn format_rounded(v: i128) -> (r: String)
    requires
        v > i128::MIN,
    ensures
        r@ == rounded_text(v as int),
{
    if v < 0 {
        let mut s = String::from_str("-");
        s.append(format_fixed2(round_hundredths((-v) as u128)).as_str());
        s
    } else {
        format_fixed2(round_hundredths(v as u128))
    }
}

/// The bound on the magnitude of a product of two `i64` values.
pub open spec fn product_bound() -> int {
    0x8000_0000_0000_0000int * 0x8000_0000_0000_0000int
}

/// The exact product of two values held in hundredths, in ten-thousandths.
pub fn product_ten_thousandths(a: i64, b: i64) -> (r: i128)
    ensures
        r == a as int * b as int,
        -product_bound() < r <= product_bound(),
{
    proof {
        let x = a as int;
        let y = b as int;
        assert(-product_bound() < x * y <= product_bound()) by (nonlinear_arith)
            requires
                -0x8000_0000_0000_0000int <= x < 0x8000_0000_0000_0000int,
                -0x8000_0000_0000_0000int <= y < 0x8000_0000_0000_0000int,
        ;
    }
    (a as i128) * (b as i128)
}

} // verus!
