//! Temperature conversions: Celsius/Fahrenheit and Celsius/Kelvin.
//!
//! Unlike the other families, these pairs share their constants instead of
//! using independently rounded factors: Celsius/Fahrenheit uses the exact
//! ratio 9/5 with the offset 32, and Celsius/Kelvin the exact offset 273.15.
//! Their round trips are exact up to at most one millionth, and the lemmas
//! below say precisely when they are exact.

use vstd::math::abs;
use vstd::prelude::*;

use crate::fixed::Fixed;
use crate::rounding::{affine_round, fits_i64, lemma_round_div_error, round_div};

verus! {

/// Mathematical value of [`celsius_to_fahrenheit`]: multiplication by 9/5,
/// rounded to the nearest millionth, then the offset 32 (32_000_000
/// millionths).
pub open spec fn spec_celsius_to_fahrenheit(c: int) -> int {
    round_div(c * 9, 5) + 32_000_000
}

/// Mathematical value of [`fahrenheit_to_celsius`]: the offset 32 taken
/// away, then multiplication by 5/9, rounded to the nearest millionth.
pub open spec fn spec_fahrenheit_to_celsius(f: int) -> int {
    round_div((f - 32_000_000) * 5, 9)
}

/// Mathematical value of [`celsius_to_kelvin`]: the exact offset 273.15
/// (273_150_000 millionths).
pub open spec fn spec_celsius_to_kelvin(c: int) -> int {
    c + 273_150_000
}

/// Mathematical value of [`kelvin_to_celsius`]: the exact offset 273.15
/// taken away.
pub open spec fn spec_kelvin_to_celsius(k: int) -> int {
    k - 273_150_000
}

/// Converts Celsius to Fahrenheit ((C × 9/5) + 32).
pub fn celsius_to_fahrenheit(celsius: Fixed) -> (r: Fixed)
    requires
        fits_i64(spec_celsius_to_fahrenheit(celsius@)),
    ensures
        r@ == spec_celsius_to_fahrenheit(celsius@),
{
    Fixed::from_micros(affine_round(celsius.micros(), 0, 9, 5, 32_000_000))
}

/// Converts Fahrenheit to Celsius ((F − 32) × 5/9).
pub fn fahrenheit_to_celsius(fahrenheit: Fixed) -> (r: Fixed)
    requires
        fits_i64(spec_fahrenheit_to_celsius(fahrenheit@)),
    ensures
        r@ == spec_fahrenheit_to_celsius(fahrenheit@),
{
    Fixed::from_micros(affine_round(fahrenheit.micros(), -32_000_000, 5, 9, 0))
}

/// Converts Celsius to Kelvin (C + 273.15).
pub fn celsius_to_kelvin(celsius: Fixed) -> (r: Fixed)
    requires
        fits_i64(spec_celsius_to_kelvin(celsius@)),
    ensures
        r@ == spec_celsius_to_kelvin(celsius@),
{
    let k: i128 = celsius.micros() as i128 + 273_150_000;
    Fixed::from_micros(k as i64)
}

/// Converts Kelvin to Celsius (K − 273.15).
pub fn kelvin_to_celsius(kelvin: Fixed) -> (r: Fixed)
    requires
        fits_i64(spec_kelvin_to_celsius(kelvin@)),
    ensures
        r@ == spec_kelvin_to_celsius(kelvin@),
{
    let c: i128 = kelvin.micros() as i128 - 273_150_000;
    Fixed::from_micros(c as i64)
}

/// Law: a Fahrenheit → Celsius → Fahrenheit round trip reproduces the
/// original value up to one millionth, for every value. The pair shares the
/// exact ratio 9/5, so the only loss is the rounding of the intermediate
/// Celsius value to a whole number of millionths; one millionth of Celsius
/// is 1.8 millionths of Fahrenheit, so the trip back can land one step off.
pub proof fn lemma_fahrenheit_celsius_round_trip(f: int)
    ensures
        abs(spec_celsius_to_fahrenheit(spec_fahrenheit_to_celsius(f)) - f) <= 1,
{
    let d = f - 32_000_000;
    let y = round_div(d * 5, 9);
    let w = round_div(y * 9, 5);
    lemma_round_div_error(d * 5, 9);
    lemma_round_div_error(y * 9, 5);
    assert(2 * (w * 5 - d * 5) == 2 * (w * 5 - y * 9) + 2 * (y * 9 - d * 5));
    assert(-14 <= 10 * (w - d) <= 14);
    assert(-1 <= w - d <= 1);
}

/// Law: a Celsius → Fahrenheit → Celsius round trip is exact, for every
/// value. Scaling by 9/5 spreads neighbouring Celsius values 1.8 millionths
/// apart, so the rounding on the way there is always undone on the way back.
pub proof fn lemma_celsius_fahrenheit_round_trip(c: int)
    ensures
        spec_fahrenheit_to_celsius(spec_celsius_to_fahrenheit(c)) == c,
{
    let w = round_div(c * 9, 5);
    let v = round_div(w * 5, 9);
    lemma_round_div_error(c * 9, 5);
    lemma_round_div_error(w * 5, 9);
    assert(2 * (v * 9 - c * 9) == 2 * (v * 9 - w * 5) + 2 * (w * 5 - c * 9));
    assert(-14 <= 18 * (v - c) <= 14);
    assert(v == c);
}

/// Law: the Celsius/Kelvin pair is an exact affine inverse in both
/// directions: the two functions share the fixed offset 273.15.
pub proof fn lemma_celsius_kelvin_round_trip(t: int)
    ensures
        spec_kelvin_to_celsius(spec_celsius_to_kelvin(t)) == t,
        spec_celsius_to_kelvin(spec_kelvin_to_celsius(t)) == t,
{
}

} // verus!
