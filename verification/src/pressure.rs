//! Pressure conversions: bar/PSI and bar/Pascal.
//!
//! Bar/PSI uses independently rounded decimal factors (the exact factor is
//! 1 bar = 14.503773... PSI), so its round trip is approximate. Bar/Pascal
//! is a pure power-of-ten scaling, and its round trip starting from bar is
//! exact.

use vstd::math::abs;
use vstd::prelude::*;

use crate::fixed::Fixed;
use crate::rounding::{
    affine_round, fits_i64, lemma_round_div_exact, lemma_scale_round_trip, round_div,
};

verus! {

/// Mathematical value of [`bar_to_psi`]: multiplication by
/// 14.5038 = 145038 / 10000, rounded to the nearest millionth.
pub open spec fn spec_bar_to_psi(b: int) -> int {
    round_div(b * 145038, 10000)
}

/// Mathematical value of [`psi_to_bar`]: multiplication by
/// 0.0689476 = 689476 / 10000000, rounded to the nearest millionth.
pub open spec fn spec_psi_to_bar(p: int) -> int {
    round_div(p * 689476, 10000000)
}

/// Mathematical value of [`pascal_to_bar`]: division by 100000, rounded to
/// the nearest millionth.
pub open spec fn spec_pascal_to_bar(p: int) -> int {
    round_div(p, 100000)
}

/// Mathematical value of [`bar_to_pascal`]: exact multiplication by 100000.
pub open spec fn spec_bar_to_pascal(b: int) -> int {
    b * 100000
}

/// Converts bar to PSI, pounds per square inch (multiplies by 14.5038).
pub fn bar_to_psi(bar: Fixed) -> (r: Fixed)
    requires
        fits_i64(spec_bar_to_psi(bar@)),
    ensures
        r@ == spec_bar_to_psi(bar@),
{
    Fixed::from_micros(affine_round(bar.micros(), 0, 145038, 10000, 0))
}

/// Converts PSI to bar (multiplies by 0.0689476).
pub fn psi_to_bar(psi: Fixed) -> (r: Fixed)
    requires
        fits_i64(spec_psi_to_bar(psi@)),
    ensures
        r@ == spec_psi_to_bar(psi@),
{
    Fixed::from_micros(affine_round(psi.micros(), 0, 689476, 10000000, 0))
}

/// Converts Pascal to bar (divides by 100000).
pub fn pascal_to_bar(pascal: Fixed) -> (r: Fixed)
    requires
        fits_i64(spec_pascal_to_bar(pascal@)),
    ensures
        r@ == spec_pascal_to_bar(pascal@),
{
    Fixed::from_micros(affine_round(pascal.micros(), 0, 1, 100000, 0))
}

/// Converts bar to Pascal (multiplies by 100000).
pub fn bar_to_pascal(bar: Fixed) -> (r: Fixed)
    requires
        fits_i64(spec_bar_to_pascal(bar@)),
    ensures
        r@ == spec_bar_to_pascal(bar@),
{
    let p: i128 = bar.micros() as i128 * 100000;
    Fixed::from_micros(p as i64)
}

/// Law: a bar → PSI → bar round trip stays within 1e-4 of the original
/// value (100 millionths), for mantissas up to 45_193_525 (about 45.2 bar).
/// The product of the two rounded factors is 1.00000220088 rather than 1,
/// so the drift grows linearly with the value and passes the tolerance a
/// little beyond that range.
pub proof fn lemma_bar_psi_round_trip(b: int)
    requires
        0 <= b <= 45_193_525,
    ensures
        abs(spec_psi_to_bar(spec_bar_to_psi(b)) - b) <= 100,
{
    lemma_scale_round_trip(b, 145038, 10000, 689476, 10000000);
    let z = round_div(round_div(b * 145038, 10000) * 689476, 10000000);
    assert(2 * (z - b) * 100_000_000_000 == 2 * (z * (10000 * 10000000) - b * (145038 * 689476))
        + 440176 * b);
    assert(-20_000_000_000_000 <= 2 * (z - b) * 100_000_000_000 <= 20_000_000_000_000);
    assert(-100 <= z - b <= 100);
}

/// Law: a bar → Pascal → bar round trip is exact, for every value: scaling
/// up by the power of ten loses nothing, and dividing the exact multiple
/// back down recovers the value.
pub proof fn lemma_bar_pascal_round_trip(b: int)
    ensures
        spec_pascal_to_bar(spec_bar_to_pascal(b)) == b,
{
    lemma_round_div_exact(b, 100000);
}

/// Law: a Pascal → bar → Pascal round trip is exact for every mantissa that
/// is a multiple of 100000 (a whole tenth of a Pascal). A finer value is
/// below the resolution that a millionth of a bar can carry, so this
/// hypothesis cannot be dropped.
pub proof fn lemma_pascal_bar_round_trip(p: int)
    requires
        p % 100000 == 0,
    ensures
        spec_bar_to_pascal(spec_pascal_to_bar(p)) == p,
{
    vstd::arithmetic::div_mod::lemma_fundamental_div_mod(p, 100000);
    let k = p / 100000;
    assert(p == k * 100000);
    lemma_round_div_exact(k, 100000);
}

} // verus!
