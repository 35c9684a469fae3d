//! The fixed-point scalar that every coordinate, length and scale factor is
//! measured in: one thousandth of a document unit, of a device pixel, or of
//! the factor one.

use vstd::prelude::*;
use vstd::string::StringExecFns;

verus! {

/// Number of sub-units in one whole: a document unit, a device pixel, or the
/// scale factor at which the two are the same.
pub const UNIT: i64 = 1000;

/// Whether a mathematical integer can be held in a coordinate.
pub open spec fn fits(v: int) -> bool {
    i64::MIN <= v <= i64::MAX
}

/// The nearest integer to `n / d` for a positive `d`; a quotient that lies
/// exactly halfway between two integers goes to the one farther from zero.
pub open spec fn div_nearest(n: int, d: int) -> int
    recommends
        d > 0,
{
    if n >= 0 {
        (2 * n + d) / (2 * d)
    } else {
        -((2 * (-n) + d) / (2 * d))
    }
}

/// A length rounded to a whole number of pixels, still measured in sub-units.
pub open spec fn round_to_pixel(v: int) -> int {
    div_nearest(v, UNIT as int) * UNIT
}

/// A device-space length brought into document space: rounded to the nearest
/// device pixel first, then divided by the scale factor.
pub open spec fn document_length(delta: int, scale: int) -> int
    recommends
        scale > 0,
{
    div_nearest(round_to_pixel(delta) * UNIT, scale)
}

/// `div_nearest` is odd in its numerator: rounding is symmetric about zero.
pub proof fn lemma_div_nearest_odd(n: int, d: int)
    requires
        d > 0,
    ensures
        div_nearest(-n, d) == -div_nearest(n, d),
{
    if n == 0 {
        assert(d / (2 * d) == 0) by (nonlinear_arith)
            requires
                d > 0,
        ;
    }
}

/// `div_nearest` is true to its name: its result, multiplied back, misses
/// the numerator by at most half the denominator.
pub proof fn lemma_div_nearest_is_nearest(n: int, d: int)
    requires
        d > 0,
    ensures
        -d <= 2 * (n - div_nearest(n, d) * d) <= d,
{
    let m = if n >= 0 { n } else { -n };
    let q = (2 * m + d) / (2 * d);
    assert(-d <= 2 * (m - q * d) < d) by (nonlinear_arith)
        requires
            d > 0,
            q == (2 * m + d) / (2 * d),
    ;
    if n < 0 {
        assert((-q) * d == -(q * d)) by (nonlinear_arith);
    }
}

/// A length rounded to the pixel is a whole number of pixels, at most half a
/// pixel away from the length.
pub proof fn lemma_round_to_pixel_is_nearest(v: int)
    ensures
        round_to_pixel(v) % (UNIT as int) == 0,
        -UNIT <= 2 * (v - round_to_pixel(v)) <= UNIT,
{
    lemma_div_nearest_is_nearest(v, UNIT as int);
}

/// Device space is document space times the scale factor: a document length,
/// scaled back up, misses the rounded device length by at most half a
/// sub-unit's worth of scale.
pub proof fn lemma_document_length_inverts_scale(delta: int, scale: int)
    requires
        scale > 0,
    ensures
        -scale <= 2 * (round_to_pixel(delta) * UNIT - document_length(delta, scale) * scale) <= scale,
{
    lemma_div_nearest_is_nearest(round_to_pixel(delta) * UNIT, scale);
}

/// Computes `document_length`, or `None` where the scale factor is not
/// positive or the quotient cannot be held in a coordinate.
pub fn to_document_length(delta: i64, scale: i64) -> (r: Option<i64>)
    ensures
        r is Some <==> scale > 0 && fits(document_length(delta as int, scale as int)),
        r matches Some(v) ==> v == document_length(delta as int, scale as int),
{
    if scale <= 0 {
        return None;
    }
    let negative = delta < 0;
    let magnitude: u128 = if negative { (-(delta as i128)) as u128 } else { delta as u128 };
    let unit: u128 = UNIT as u128;
    let pixels: u128 = (2 * magnitude + unit) / (2 * unit);
    let numerator: u128 = pixels * unit * unit;
    let divisor: u128 = scale as u128;
    let quotient: u128 = (2 * numerator + divisor) / (2 * divisor);
    proof {
        let m = magnitude as int;
        assert(pixels == div_nearest(m, UNIT as int));
        assert(numerator == round_to_pixel(m) * UNIT);
        assert(quotient == document_length(m, scale as int));
        if negative {
            assert(m == -(delta as int));
            lemma_div_nearest_odd(m, UNIT as int);
            assert(round_to_pixel(delta as int) == -round_to_pixel(m));
            lemma_div_nearest_odd(round_to_pixel(m) * UNIT, scale as int);
            assert(document_length(delta as int, scale as int) == -(quotient as int));
        }
    }
    if negative {
        if quotient <= 9223372036854775808u128 {
            let q: i128 = -(quotient as i128);
            Some(q as i64)
        } else {
            None
        }
    } else {
        if quotient <= 9223372036854775807u128 {
            Some(quotient as i64)
        } else {
            None
        }
    }
}

/// The decimal digit for a value below ten.
pub open spec fn digit_char(d: int) -> char
    recommends
        0 <= d < 10,
{
    if d == 0 {
        '0'
    } else if d == 1 {
        '1'
    } else if d == 2 {
        '2'
    } else if d == 3 {
        '3'
    } else if d == 4 {
        '4'
    } else if d == 5 {
        '5'
    } else if d == 6 {
        '6'
    } else if d == 7 {
        '7'
    } else if d == 8 {
        '8'
    } else {
        '9'
    }
}

/// A natural number in decimal notation, without leading zeros.
pub open spec fn natural_text(n: nat) -> Seq<char>
    decreases n,
{
    if n < 10 {
        seq![digit_char(n as int)]
    } else {
        natural_text(n / 10).push(digit_char((n % 10) as int))
    }
}

/// A length in decimal notation, in whole units: an optional minus sign, the
/// whole part, a point, and the three digits of the thousandths.
pub open spec fn decimal_text(v: int) -> Seq<char> {
    let magnitude = if v < 0 { -v } else { v };
    let sign = if v < 0 { seq!['-'] } else { Seq::<char>::empty() };
    sign + natural_text((magnitude / 1000) as nat) + seq![
        '.',
        digit_char((magnitude / 100) % 10),
        digit_char((magnitude / 10) % 10),
        digit_char(magnitude % 10),
    ]
}

/// The one-character text of a decimal digit.
fn digit_str(d: u128) -> (r: &'static str)
    requires
        d < 10,
    ensures
        r@ == seq![digit_char(d as int)],
{
    proof {
        reveal_strlit("0");
        reveal_strlit("1");
        reveal_strlit("2");
        reveal_strlit("3");
        reveal_strlit("4");
        reveal_strlit("5");
        reveal_strlit("6");
        reveal_strlit("7");
        reveal_strlit("8");
        reveal_strlit("9");
    }
    let r = if d == 0 {
        "0"
    } else if d == 1 {
        "1"
    } else if d == 2 {
        "2"
    } else if d == 3 {
        "3"
    } else if d == 4 {
        "4"
    } else if d == 5 {
        "5"
    } else if d == 6 {
        "6"
    } else if d == 7 {
        "7"
    } else if d == 8 {
        "8"
    } else {
        "9"
    };
    assert(r@ =~= seq![digit_char(d as int)]);
    r
}

/// Appends the decimal notation of `n` to `out`.
fn append_natural(out: &mut String, n: u128)
    ensures
        final(out)@ == old(out)@ + natural_text(n as nat),
    decreases n,
{
    if n >= 10 {
        append_natural(out, n / 10);
    }
    out.append(digit_str(n % 10));
    assert(out@ =~= old(out)@ + natural_text(n as nat));
}

/// Appends the decimal notation of the length `v` to `out`.
pub fn append_decimal(out: &mut String, v: i128)
    ensures
        final(out)@ == old(out)@ + decimal_text(v as int),
{
    let negative = v < 0;
    let magnitude: u128 = if negative { if v == i128::MIN { 170141183460469231731687303715884105728u128 } else { (-v) as u128 } } else { v as u128 };
    if negative {
        proof {
            reveal_strlit("-");
        }
        out.append("-");
    }
    append_natural(out, magnitude / 1000);
    proof {
        reveal_strlit(".");
    }
    out.append(".");
    out.append(digit_str((magnitude / 100) % 10));
    out.append(digit_str((magnitude / 10) % 10));
    out.append(digit_str(magnitude % 10));
    assert(out@ =~= old(out)@ + decimal_text(v as int));
}

/// The decimal notation of the length `v`.
pub fn format_decimal(v: i128) -> (r: String)
    ensures
        r@ == decimal_text(v as int),
{
    let mut out = String::new();
    append_decimal(&mut out, v);
    assert(out@ =~= decimal_text(v as int));
    out
}

} // verus!
