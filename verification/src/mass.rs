//! Mass conversions: kilograms/pounds and tonnes/short tons.
//!
//! Both pairs use independently rounded decimal factors (the exact factors
//! are 1 kg = 2.2046226218... lb and 1 t = 1.1023113109... short tons), so a
//! conversion and its inverse compose to an approximate round trip. The
//! lemmas below bound the drift.

use vstd::math::abs;
use vstd::prelude::*;

use crate::fixed::Fixed;
use crate::rounding::{affine_round, fits_i64, lemma_scale_round_trip, round_div};

verus! {

/// Mathematical value of [`kg_to_pounds`]: multiplication by
/// 2.20462 = 220462 / 100000, rounded to the nearest millionth.
pub open spec fn spec_kg_to_pounds(k: int) -> int {
    round_div(k * 220462, 100000)
}

/// Mathematical value of [`pounds_to_kg`]: multiplication by
/// 0.453592 = 453592 / 1000000, rounded to the nearest millionth.
pub open spec fn spec_pounds_to_kg(p: int) -> int {
    round_div(p * 453592, 1000000)
}

/// Mathematical value of [`tonnes_to_tons`]: multiplication by
/// 1.10231 = 110231 / 100000, rounded to the nearest millionth.
pub open spec fn spec_tonnes_to_tons(t: int) -> int {
    round_div(t * 110231, 100000)
}

/// Mathematical value of [`tons_to_tonnes`]: multiplication by
/// 0.907185 = 907185 / 1000000, rounded to the nearest millionth.
pub open spec fn spec_tons_to_tonnes(t: int) -> int {
    round_div(t * 907185, 1000000)
}

/// Converts kilograms to pounds (multiplies by 2.20462).
pub fn kg_to_pounds(kg: Fixed) -> (r: Fixed)
    requires
        fits_i64(spec_kg_to_pounds(kg@)),
    ensures
        r@ == spec_kg_to_pounds(kg@),
{
    Fixed::from_micros(affine_round(kg.micros(), 0, 220462, 100000, 0))
}

/// Converts pounds to kilograms (multiplies by 0.453592).
pub fn pounds_to_kg(pounds: Fixed) -> (r: Fixed)
    requires
        fits_i64(spec_pounds_to_kg(pounds@)),
    ensures
        r@ == spec_pounds_to_kg(pounds@),
{
    Fixed::from_micros(affine_round(pounds.micros(), 0, 453592, 1000000, 0))
}

/// Converts metric tons (tonnes) to short tons (multiplies by 1.10231).
pub fn tonnes_to_tons(tonnes: Fixed) -> (r: Fixed)
    requires
        fits_i64(spec_tonnes_to_tons(tonnes@)),
    ensures
        r@ == spec_tonnes_to_tons(tonnes@),
{
    Fixed::from_micros(affine_round(tonnes.micros(), 0, 110231, 100000, 0))
}

/// Converts short tons to metric tons (multiplies by 0.907185).
pub fn tons_to_tonnes(tons: Fixed) -> (r: Fixed)
    requires
        fits_i64(spec_tons_to_tonnes(tons@)),
    ensures
        r@ == spec_tons_to_tonnes(tons@),
{
    Fixed::from_micros(affine_round(tons.micros(), 0, 907185, 1000000, 0))
}

/// Law: a kilograms → pounds → kilograms round trip stays within 1e-4 of
/// the original value (100 millionths), for mantissas up to 49_513_807
/// (about 49.5 kg). The product of the two rounded factors is 0.99999799504
/// rather than 1, so the drift grows linearly with the value and passes the
/// tolerance a little beyond that range.
pub proof fn lemma_kg_pounds_round_trip(m: int)
    requires
        0 <= m <= 49_513_807,
    ensures
        abs(spec_pounds_to_kg(spec_kg_to_pounds(m)) - m) <= 100,
{
    lemma_scale_round_trip(m, 220462, 100000, 453592, 1000000);
    let z = round_div(round_div(m * 220462, 100000) * 453592, 1000000);
    assert(2 * (z - m) * 100_000_000_000 == 2 * (z * (100000 * 1000000) - m * (220462 * 453592))
        - 400992 * m);
    assert(-20_000_000_000_000 <= 2 * (z - m) * 100_000_000_000 <= 20_000_000_000_000);
    assert(-100 <= z - m <= 100);
}

/// Law: a tonnes → short tons → tonnes round trip stays within 1e-4 of the
/// original value (100 millionths), for mantissas up to 109_728_474 (about
/// 109.7 t). The product of the two rounded factors is 0.99999909735 rather
/// than 1, so the drift grows linearly with the value and passes the
/// tolerance a little beyond that range.
pub proof fn lemma_tonnes_tons_round_trip(m: int)
    requires
        0 <= m <= 109_728_474,
    ensures
        abs(spec_tons_to_tonnes(spec_tonnes_to_tons(m)) - m) <= 100,
{
    lemma_scale_round_trip(m, 110231, 100000, 907185, 1000000);
    let z = round_div(round_div(m * 110231, 100000) * 907185, 1000000);
    assert(2 * (z - m) * 100_000_000_000 == 2 * (z * (100000 * 1000000) - m * (110231 * 907185))
        - 180530 * m);
    assert(-20_000_000_000_000 <= 2 * (z - m) * 100_000_000_000 <= 20_000_000_000_000);
    assert(-100 <= z - m <= 100);
}

} // verus!
