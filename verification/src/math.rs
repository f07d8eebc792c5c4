//! Integer helpers: widened products, bit length, integer square root.

use vstd::prelude::*;
use vstd::arithmetic::power2::{lemma2_to64, lemma2_to64_rest, lemma_pow2_unfold, pow2};
use crate::error::ErrorCode;

verus! {

/// The product of two 64-bit values fits in 128 bits.
pub proof fn lemma_product_fits(a: u64, b: u64)
    ensures
        0 <= a * b <= 0xffff_ffff_ffff_ffff * 0xffff_ffff_ffff_ffff,
        a * b <= u128::MAX,
{
    assert(0 <= a * b <= 0xffff_ffff_ffff_ffff * 0xffff_ffff_ffff_ffff) by (nonlinear_arith)
        requires
            0 <= a <= 0xffff_ffff_ffff_ffff,
            0 <= b <= 0xffff_ffff_ffff_ffff,
    ;
}

/// A sum of `count` 64-bit values, `count` the length of a slice, fits in
/// 128 bits, and so does the sum of one value more.
pub proof fn lemma_sum_fits(count: usize)
    ensures
        count * u64::MAX + u64::MAX <= u128::MAX,
        (count + 1) * u64::MAX == count * u64::MAX + u64::MAX,
{
    assert((count + 1) * u64::MAX == count * u64::MAX + u64::MAX) by (nonlinear_arith);
    assert((count + 1) * u64::MAX <= 0x1_0000_0000_0000_0000 * 0xffff_ffff_ffff_ffff)
        by (nonlinear_arith)
        requires
            0 <= count + 1 <= 0x1_0000_0000_0000_0000,
            u64::MAX == 0xffff_ffff_ffff_ffff,
    ;
}

/// `a * b`, computed in 128 bits.
pub fn widening_mul(a: u64, b: u64) -> (r: u128)
    ensures
        r == a * b,
{
    proof {
        lemma_product_fits(a, b);
    }
    (a as u128) * (b as u128)
}

/// `a * b / d` rounded down, with the product taken in 128 bits.
pub fn mul_div(a: u64, b: u64, d: u64) -> (r: u128)
    requires
        d > 0,
    ensures
        r == a * b / (d as int),
{
    widening_mul(a, b) / (d as u128)
}

/// `bps` basis points of `amount`, rounded down.
pub open spec fn bps_of(amount: int, bps: int) -> int {
    amount * bps / 10_000
}

/// The smaller of two integers.
pub open spec fn min_int(a: int, b: int) -> int {
    if a <= b {
        a
    } else {
        b
    }
}

/// `a - b`, or zero where `b` exceeds `a`.
pub open spec fn saturating_sub_int(a: int, b: int) -> int {
    if a >= b {
        a - b
    } else {
        0
    }
}

/// A share of `amount` in the proportion of `part` to a `whole` that holds
/// it is between zero and `amount`.
pub proof fn lemma_share_within_amount(amount: int, part: int, whole: int)
    requires
        0 <= amount,
        0 <= part <= whole,
        0 < whole,
    ensures
        0 <= amount * part / whole <= amount,
{
    assert(0 <= amount * part / whole <= amount) by (nonlinear_arith)
        requires
            0 <= amount,
            0 <= part <= whole,
            0 < whole,
    ;
}

/// A quotient by one or more, rounded down, is between zero and the
/// dividend.
pub proof fn lemma_quotient_within(x: int, d: int)
    requires
        0 <= x,
        1 <= d,
    ensures
        0 <= x / d <= x,
{
    assert(0 <= x / d <= x) by (nonlinear_arith)
        requires
            0 <= x,
            1 <= d,
    ;
}

/// A ratio of two 64-bit values, scaled by 10^6, stays below 2^84.
pub proof fn lemma_ratio_bound(a: u64, b: u64)
    ensures
        b > 0 ==> 0 <= a * 1_000_000 / (b as int) <= 0xffff_ffff_ffff_ffff * 1_000_000,
{
    if b > 0 {
        lemma_quotient_within(a * 1_000_000, b as int);
    }
}

/// Dividing by two or more gives at most half.
proof fn lemma_at_most_half(x: int, d: int)
    requires
        0 <= x,
        2 <= d,
    ensures
        x / d <= x / 2,
{
    assert(x / d <= x / 2) by (nonlinear_arith)
        requires
            0 <= x,
            2 <= d,
    ;
}

/// A part of at most the whole, in basis points, of an amount is between
/// zero and the amount.
pub proof fn lemma_part_within_whole(amount: int, bps: int)
    requires
        0 <= amount,
        0 <= bps <= 10_000,
    ensures
        0 <= amount * bps / 10_000 <= amount,
{
    lemma_share_within_amount(amount, bps, 10_000);
}

/// A quotient rounded down, times the divisor, is the largest multiple of
/// the divisor within the dividend.
pub proof fn lemma_floor_division(x: int, d: int)
    requires
        0 <= x,
        0 < d,
    ensures
        (x / d) * d <= x < (x / d + 1) * d,
        0 <= x / d,
{
    vstd::arithmetic::div_mod::lemma_fundamental_div_mod(x, d);
    vstd::arithmetic::div_mod::lemma_mod_bound(x, d);
    assert((x / d + 1) * d == (x / d) * d + d) by (nonlinear_arith);
    assert((x / d) * d == d * (x / d)) by (nonlinear_arith);
    assert(0 <= x / d) by (nonlinear_arith)
        requires
            0 <= x,
            0 < d,
    ;
}

/// Number of binary digits of `x`: 0 for 0, else one more than the position
/// of the highest set bit.
pub open spec fn bit_length(x: nat) -> nat
    decreases x,
{
    if x == 0 {
        0
    } else {
        1 + bit_length(x / 2)
    }
}

/// A larger number has at least as many binary digits.
pub proof fn lemma_bit_length_monotonic(x: nat, y: nat)
    requires
        x <= y,
    ensures
        bit_length(x) <= bit_length(y),
    decreases y,
{
    if x > 0 {
        lemma_bit_length_monotonic(x / 2, y / 2);
    }
}

/// Two has two binary digits.
pub proof fn lemma_bit_length_of_two()
    ensures
        bit_length(2) == 2,
{
    assert(bit_length(1) == 1 + bit_length(0));
    assert(bit_length(2) == 1 + bit_length(1));
}

/// A number below `2^k` has at most `k` binary digits.
pub proof fn lemma_bit_length_bound(x: nat, k: nat)
    requires
        x < pow2(k),
    ensures
        bit_length(x) <= k,
    decreases k,
{
    if k == 0 {
        lemma2_to64();
    } else {
        lemma_pow2_unfold(k);
        if x > 0 {
            lemma_bit_length_bound(x / 2, (k - 1) as nat);
        }
    }
}

/// Number of binary digits of `x`.
pub fn bit_length_u64(x: u64) -> (r: u32)
    ensures
        r == bit_length(x as nat),
        r <= 64,
{
    proof {
        lemma2_to64_rest();
        lemma_bit_length_bound(x as nat, 64);
    }
    let mut n: u64 = x;
    let mut count: u32 = 0;
    while n > 0
        invariant
            count + bit_length(n as nat) == bit_length(x as nat),
            bit_length(x as nat) <= 64,
        decreases n,
    {
        n = n / 2;
        count = count + 1;
    }
    count
}

/// `r` is the integer square root of `x`: the largest integer whose square
/// does not exceed `x`.
pub open spec fn is_floor_sqrt(x: int, r: int) -> bool {
    0 <= r && r * r <= x < (r + 1) * (r + 1)
}

/// The integer square root of `x`.
pub open spec fn floor_sqrt(x: int) -> int {
    choose|r: int| is_floor_sqrt(x, r)
}

/// No number has two integer square roots.
pub proof fn lemma_floor_sqrt_unique(x: int, r1: int, r2: int)
    requires
        is_floor_sqrt(x, r1),
        is_floor_sqrt(x, r2),
    ensures
        r1 == r2,
{
    assert(r1 == r2) by (nonlinear_arith)
        requires
            0 <= r1,
            0 <= r2,
            r1 * r1 <= x < (r1 + 1) * (r1 + 1),
            r2 * r2 <= x < (r2 + 1) * (r2 + 1),
    ;
}

/// A number that meets the definition is the integer square root.
pub proof fn lemma_floor_sqrt_is(x: int, r: int)
    requires
        is_floor_sqrt(x, r),
    ensures
        floor_sqrt(x) == r,
{
    lemma_floor_sqrt_unique(x, r, floor_sqrt(x));
}

/// One Newton step from an estimate `s` that is not below the root gives an
/// estimate `t` that is not below the root either.
proof fn lemma_newton_step(x: int, s: int, t: int)
    requires
        s > 0,
        x >= 0,
        t == (s + x / s) / 2,
    ensures
        (t + 1) * (t + 1) > x,
{
    let q = x / s;
    let rem = x % s;
    assert(x == s * q + rem && 0 <= rem < s) by {
        vstd::arithmetic::div_mod::lemma_fundamental_div_mod(x, s);
        vstd::arithmetic::div_mod::lemma_mod_bound(x, s);
    }
    assert(2 * (t + 1) >= s + q + 1);
    let u = 2 * (t + 1);
    assert(u * u > 4 * x) by (nonlinear_arith)
        requires
            u >= s + q + 1,
            x == s * q + rem,
            0 <= rem < s,
            s > 0,
            q >= 0 || q < 0,
            x >= 0,
    {
        assert(q >= 0) by (nonlinear_arith)
            requires
                x == s * q + rem,
                0 <= rem < s,
                x >= 0,
        ;
        assert((s + q + 1) * (s + q + 1) == (s - q - 1) * (s - q - 1) + 4 * s * q + 4 * s);
        assert((s - q - 1) * (s - q - 1) >= 0);
        assert(u * u >= (s + q + 1) * (s + q + 1));
    }
    assert((t + 1) * (t + 1) > x) by (nonlinear_arith)
        requires
            u == 2 * (t + 1),
            u * u > 4 * x,
    ;
}

/// Integer square root by Newton's iteration.
pub fn sqrt_u128(x: u128) -> (r: u128)
    ensures
        is_floor_sqrt(x as int, r as int),
        r == floor_sqrt(x as int),
{
    if x == 0 {
        proof {
            lemma_floor_sqrt_is(0, 0);
        }
        return 0;
    }
    if x < 4 {
        proof {
            lemma_floor_sqrt_is(x as int, 1);
        }
        return 1;
    }
    let mut sqrt: u128 = x / 2;
    assert((sqrt + 1) * (sqrt + 1) > x) by (nonlinear_arith)
        requires
            2 * sqrt + 1 >= x,
            sqrt >= 2,
    ;
    proof {
        lemma_at_most_half(x as int, sqrt as int);
    }
    let mut temp: u128 = (sqrt + x / sqrt) / 2;
    while temp < sqrt
        invariant
            x >= 4,
            2 <= sqrt <= x / 2,
            temp == (sqrt + x / sqrt) / 2,
            (sqrt + 1) * (sqrt + 1) > x,
        decreases sqrt,
    {
        proof {
            lemma_newton_step(x as int, sqrt as int, temp as int);
            assert(temp >= 2) by (nonlinear_arith)
                requires
                    (temp + 1) * (temp + 1) > x,
                    x >= 4,
                    temp >= 0,
            ;
            lemma_at_most_half(x as int, temp as int);
        }
        sqrt = temp;
        temp = (sqrt + x / sqrt) / 2;
    }
    proof {
        let q = x / sqrt;
        assert(q >= sqrt);
        assert(x >= sqrt * q) by {
            vstd::arithmetic::div_mod::lemma_fundamental_div_mod(x as int, sqrt as int);
            vstd::arithmetic::div_mod::lemma_mod_bound(x as int, sqrt as int);
        }
        assert(sqrt * sqrt <= sqrt * q) by (nonlinear_arith)
            requires
                q >= sqrt,
                sqrt >= 0,
        ;
        lemma_floor_sqrt_is(x as int, sqrt as int);
    }
    sqrt
}

/// Integer square root of a 64-bit value.
pub fn sqrt_u64(x: u64) -> (r: Result<u64, ErrorCode>)
    ensures
        r is Ok,
        r->Ok_0 == floor_sqrt(x as int),
        is_floor_sqrt(x as int, r->Ok_0 as int),
{
    let root = sqrt_u128(x as u128);
    proof {
        assert(root <= x) by (nonlinear_arith)
            requires
                root * root <= x,
                root >= 0,
        ;
    }
    Ok(root as u64)
}

} // verus!
