//! Length conversions: meters/feet and kilometers/miles.
//!
//! Both pairs use independently rounded decimal factors (the exact factors
//! are 1 m = 3.280839895... ft and 1 mi = 1.609344 km), so a conversion and
//! its inverse compose to an approximate round trip, not an exact one. The
//! lemmas below bound the drift.

use vstd::math::abs;
use vstd::prelude::*;

use crate::fixed::Fixed;
use crate::rounding::{affine_round, fits_i64, lemma_scale_round_trip, round_div};

verus! {

/// Mathematical value of [`meters_to_feet`]: multiplication by
/// 3.28084 = 328084 / 100000, rounded to the nearest millionth.
pub open spec fn spec_meters_to_feet(m: int) -> int {
    round_div(m * 328084, 100000)
}

/// Mathematical value of [`feet_to_meters`]: multiplication by
/// 0.3048 = 3048 / 10000, rounded to the nearest millionth.
pub open spec fn spec_feet_to_meters(f: int) -> int {
    round_div(f * 3048, 10000)
}

/// Mathematical value of [`km_to_miles`]: multiplication by
/// 0.621371 = 621371 / 1000000, rounded to the nearest millionth.
pub open spec fn spec_km_to_miles(k: int) -> int {
    round_div(k * 621371, 1000000)
}

/// Mathematical value of [`miles_to_km`]: multiplication by
/// 1.60934 = 160934 / 100000, rounded to the nearest millionth.
pub open spec fn spec_miles_to_km(mi: int) -> int {
    round_div(mi * 160934, 100000)
}

/// Converts meters to feet (multiplies by 3.28084).
pub fn meters_to_feet(meters: Fixed) -> (r: Fixed)
    requires
        fits_i64(spec_meters_to_feet(meters@)),
    ensures
        r@ == spec_meters_to_feet(meters@),
{
    Fixed::from_micros(affine_round(meters.micros(), 0, 328084, 100000, 0))
}

/// Converts feet to meters (multiplies by 0.3048).
pub fn feet_to_meters(feet: Fixed) -> (r: Fixed)
    requires
        fits_i64(spec_feet_to_meters(feet@)),
    ensures
        r@ == spec_feet_to_meters(feet@),
{
    Fixed::from_micros(affine_round(feet.micros(), 0, 3048, 10000, 0))
}

/// Converts kilometers to miles (multiplies by 0.621371).
pub fn km_to_miles(km: Fixed) -> (r: Fixed)
    requires
        fits_i64(spec_km_to_miles(km@)),
    ensures
        r@ == spec_km_to_miles(km@),
{
    Fixed::from_micros(affine_round(km.micros(), 0, 621371, 1000000, 0))
}

/// Converts miles to kilometers (multiplies by 1.60934).
pub fn miles_to_km(miles: Fixed) -> (r: Fixed)
    requires
        fits_i64(spec_miles_to_km(miles@)),
    ensures
        r@ == spec_miles_to_km(miles@),
{
    Fixed::from_micros(affine_round(miles.micros(), 0, 160934, 100000, 0))
}

/// Law: a meters → feet → meters round trip stays within 1e-4 of the
/// original value (100 millionths), for mantissas up to 3_104_612_500
/// (about 3104.6 m). The two factors are independently rounded decimals
/// whose product is 1.000000032 rather than 1, so the drift grows linearly
/// with the value and passes the tolerance a little beyond that range.
pub proof fn lemma_meters_feet_round_trip(m: int)
    requires
        0 <= m <= 3_104_612_500,
    ensures
        abs(spec_feet_to_meters(spec_meters_to_feet(m)) - m) <= 100,
{
    lemma_scale_round_trip(m, 328084, 100000, 3048, 10000);
    let z = round_div(round_div(m * 328084, 100000) * 3048, 10000);
    assert(2 * (z - m) * 1_000_000_000 == 2 * (z * (100000 * 10000) - m * (328084 * 3048)) + 64
        * m);
    assert(-200_000_000_000 <= 2 * (z - m) * 1_000_000_000 <= 200_000_000_000);
    assert(-100 <= z - m <= 100);
}

/// Law: a kilometers → miles → kilometers round trip stays within 1e-4 of
/// the original value (100 millionths), for mantissas up to 35_313_157
/// (about 35.3 km). The product of the two rounded factors is 0.99999720514
/// rather than 1, so the drift grows linearly with the value.
pub proof fn lemma_km_miles_round_trip(k: int)
    requires
        0 <= k <= 35_313_157,
    ensures
        abs(spec_miles_to_km(spec_km_to_miles(k)) - k) <= 100,
{
    lemma_scale_round_trip(k, 621371, 1000000, 160934, 100000);
    let z = round_div(round_div(k * 621371, 1000000) * 160934, 100000);
    assert(2 * (z - k) * 100_000_000_000 == 2 * (z * (1000000 * 100000) - k * (621371 * 160934))
        - 558972 * k);
    assert(-20_000_000_000_000 <= 2 * (z - k) * 100_000_000_000 <= 20_000_000_000_000);
    assert(-100 <= z - k <= 100);
}

} // verus!
