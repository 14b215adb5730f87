//! Round-to-nearest scaling of fixed-point mantissas.
//!
//! Every conversion in this crate multiplies a mantissa by a decimal ratio
//! `num / den` and rounds the quotient to the nearest integer, ties away from
//! zero. This module defines that operation ([`round_div`]), an executable
//! form that widens to 128 bits so no intermediate step can overflow
//! ([`affine_round`]), and the error bounds that the round-trip laws of the
//! conversion families are built on.

use vstd::prelude::*;

verus! {

/// Whether a mathematical integer is representable as an `i64`.
pub open spec fn fits_i64(n: int) -> bool {
    i64::MIN <= n <= i64::MAX
}

/// The quotient `n / q`, rounded to the nearest integer; ties round away
/// from zero.
pub open spec fn round_div(n: int, q: int) -> int
    recommends
        1 <= q,
{
    if n >= 0 {
        (n + q / 2) / q
    } else {
        -((-n + q / 2) / q)
    }
}

proof fn lemma_round_div_error_nonneg(n: int, q: int)
    requires
        0 <= n,
        1 <= q,
    ensures
        -q <= 2 * (round_div(n, q) * q - n) <= q,
{
    let b = n + q / 2;
    let r = b / q;
    vstd::arithmetic::div_mod::lemma_fundamental_div_mod(b, q);
    vstd::arithmetic::div_mod::lemma_mod_division_less_than_divisor(b, q);
    vstd::arithmetic::div_mod::lemma_fundamental_div_mod(q, 2);
    vstd::arithmetic::div_mod::lemma_mod_division_less_than_divisor(q, 2);
    vstd::arithmetic::mul::lemma_mul_is_commutative(r, q);
    assert(r * q == b - b % q);
    assert(2 * (r * q - n) == (q - q % 2) - 2 * (b % q));
}

/// Rounding to the nearest multiple moves a value by at most half of the
/// divisor: scaled back by `q`, the rounded quotient stays within `q / 2`
/// of `n`.
pub proof fn lemma_round_div_error(n: int, q: int)
    requires
        1 <= q,
    ensures
        -q <= 2 * (round_div(n, q) * q - n) <= q,
{
    if n >= 0 {
        lemma_round_div_error_nonneg(n, q);
    } else {
        lemma_round_div_error_nonneg(-n, q);
        vstd::arithmetic::mul::lemma_mul_unary_negation(round_div(-n, q), q);
        assert(round_div(n, q) == -round_div(-n, q));
        assert(round_div(n, q) * q - n == -(round_div(-n, q) * q - (-n)));
    }
}

/// Rounding an exact multiple of the divisor loses nothing.
pub proof fn lemma_round_div_exact(k: int, q: int)
    requires
        1 <= q,
    ensures
        round_div(k * q, q) == k,
{
    assert(0 <= q / 2 < q);
    if k >= 0 {
        vstd::arithmetic::mul::lemma_mul_nonnegative(k, q);
        vstd::arithmetic::mul::lemma_mul_is_commutative(k, q);
        vstd::arithmetic::div_mod::lemma_div_multiples_vanish_fancy(k, q / 2, q);
        assert(round_div(k * q, q) == (q * k + q / 2) / q);
    } else {
        assert(k * q <= -1) by (nonlinear_arith)
            requires
                k <= -1,
                1 <= q,
        ;
        vstd::arithmetic::mul::lemma_mul_unary_negation(k, q);
        vstd::arithmetic::mul::lemma_mul_is_commutative(-k, q);
        vstd::arithmetic::div_mod::lemma_div_multiples_vanish_fancy(-k, q / 2, q);
        assert(round_div(k * q, q) == -((q * (-k) + q / 2) / q));
    }
}

/// Applying two rounded scalings `num1 / den1` and then `num2 / den2` lands
/// within a fixed distance of the exact product scaling: scaled back by
/// `den1 * den2`, the result stays within `(den1 * den2 + num2 * den1) / 2`
/// of `m * num1 * num2`.
pub proof fn lemma_scale_round_trip(m: int, num1: int, den1: int, num2: int, den2: int)
    requires
        1 <= num1,
        1 <= den1,
        1 <= num2,
        1 <= den2,
    ensures
        -(den1 * den2 + num2 * den1) <= 2 * (round_div(round_div(m * num1, den1) * num2, den2)
            * (den1 * den2) - m * (num1 * num2)) <= den1 * den2 + num2 * den1,
{
    let y = round_div(m * num1, den1);
    let z = round_div(y * num2, den2);
    lemma_round_div_error(m * num1, den1);
    lemma_round_div_error(y * num2, den2);
    lemma_scale_error_combine(z, y, m, num1, den1, num2, den2);
}

#[verifier::rlimit(100)]
proof fn lemma_two_scalings_identity(z: int, y: int, m: int, n1: int, d1: int, n2: int, d2: int)
    by (nonlinear_arith)
    ensures
        2 * (z * (d1 * d2) - m * (n1 * n2)) == d1 * (2 * (z * d2 - y * n2)) + n2 * (2 * (y * d1
            - m * n1)),
{
}

proof fn lemma_bounded_product(c: int, v: int, bound: int)
    by (nonlinear_arith)
    requires
        1 <= c,
        -bound <= v <= bound,
    ensures
        -(c * bound) <= c * v <= c * bound,
{
}

proof fn lemma_scale_error_combine(z: int, y: int, m: int, n1: int, d1: int, n2: int, d2: int)
    requires
        1 <= n1,
        1 <= d1,
        1 <= n2,
        1 <= d2,
        -d1 <= 2 * (y * d1 - m * n1) <= d1,
        -d2 <= 2 * (z * d2 - y * n2) <= d2,
    ensures
        -(d1 * d2 + n2 * d1) <= 2 * (z * (d1 * d2) - m * (n1 * n2)) <= d1 * d2 + n2 * d1,
{
    lemma_two_scalings_identity(z, y, m, n1, d1, n2, d2);
    lemma_bounded_product(d1, 2 * (z * d2 - y * n2), d2);
    lemma_bounded_product(n2, 2 * (y * d1 - m * n1), d1);
}

/// Computes `round_div((x + pre) * num, den) + post` on `i64` mantissas,
/// widening to 128 bits internally so that no intermediate step overflows.
pub(crate) fn affine_round(x: i64, pre: i64, num: i64, den: i64, post: i64) -> (r: i64)
    requires
        1 <= num,
        1 <= den,
        fits_i64(round_div((x + pre) * num, den as int) + post),
    ensures
        r == round_div((x + pre) * num, den as int) + post,
{
    let s: i128 = x as i128 + pre as i128;
    let num_w: u128 = num as u128;
    let den_w: u128 = den as u128;
    let half: u128 = den_w / 2;
    let neg: bool = s < 0;
    let mag: u128 = if neg {
        (-s) as u128
    } else {
        s as u128
    };
    proof {
        assert(mag <= 0x1_0000_0000_0000_0000);
        assert(mag * num_w <= 0x8000_0000_0000_0000_0000_0000_0000_0000u128)
            by (nonlinear_arith)
            requires
                mag <= 0x1_0000_0000_0000_0000u128,
                num_w <= 0x8000_0000_0000_0000u128,
        ;
    }
    let prod: u128 = mag * num_w;
    let qmag: u128 = (prod + half) / den_w;
    proof {
        let sv: int = x as int + pre as int;
        let n: int = sv * (num as int);
        let d: int = den as int;
        assert(half == d / 2);
        if neg {
            assert(n <= -1) by (nonlinear_arith)
                requires
                    n == sv * (num as int),
                    sv <= -1,
                    1 <= num as int,
            ;
            vstd::arithmetic::mul::lemma_mul_unary_negation(sv, num as int);
            assert(prod as int == -n);
            assert(round_div(n, d) == -((prod as int + half as int) / d));
            assert(qmag as int == -round_div(n, d));
        } else {
            assert(0 <= n) by (nonlinear_arith)
                requires
                    n == sv * (num as int),
                    0 <= sv,
                    1 <= num as int,
            ;
            assert(prod as int == n);
            assert(qmag as int == round_div(n, d));
        }
        assert(qmag <= 0x2_0000_0000_0000_0000u128);
    }
    let signed: i128 = if neg {
        -(qmag as i128)
    } else {
        qmag as i128
    };
    let res: i128 = signed + post as i128;
    res as i64
}

} // verus!
