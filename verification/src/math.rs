//! Fixed-point math kernel: overflow-checked multiply-divide with explicit
//! rounding modes.
//!
//! Products are formed over a 256-bit intermediate (a pair of 128-bit
//! halves built from 64-bit limbs), so `x * y` itself never overflows; an
//! operation fails with [`ErrorCode::Overflow`] only when the quotient does
//! not fit the 128-bit output width, and with [`ErrorCode::DivideByZero`]
//! when the divisor is zero, instead of wrapping or panicking.

use vstd::arithmetic::div_mod::{
    lemma_div_is_ordered, lemma_div_multiples_vanish, lemma_div_pos_is_pos,
    lemma_fundamental_div_mod, lemma_fundamental_div_mod_converse, lemma_mod_bound,
};
use vstd::arithmetic::mul::{lemma_mul_inequality, lemma_mul_nonnegative, lemma_mul_upper_bound};
use vstd::arithmetic::power2::{
    lemma2_to64, lemma2_to64_rest, lemma_pow2_adds, lemma_pow2_strictly_increases,
    lemma_pow2_unfold, pow2,
};
use vstd::prelude::*;

use crate::errors::ErrorCode;

verus! {

/// Rounding strategies for division operations.
#[derive(Clone, Copy, Debug, PartialEq, Eq, Structural)]
pub enum Rounding {
    Up,
    Down,
}

/// Ceiling division on mathematical integers.
pub open spec fn div_up(a: int, b: int) -> int
    recommends
        a >= 0,
        b > 0,
{
    (a + b - 1) / b
}

/// Floor and ceiling division by a positive divisor differ by one exactly
/// when the remainder is non-zero.
proof fn lemma_div_up(a: int, b: int)
    requires
        a >= 0,
        b > 0,
    ensures
        a % b == 0 ==> div_up(a, b) == a / b,
        a % b != 0 ==> div_up(a, b) == a / b + 1,
        a / b <= div_up(a, b) <= a / b + 1,
        0 <= a / b,
        a % b != 0 ==> a / b + 1 <= a,
{
    let q = a / b;
    let r = a % b;
    lemma_fundamental_div_mod(a, b);
    lemma_mod_bound(a, b);
    lemma_div_pos_is_pos(a, b);
    if r == 0 {
        assert(a + b - 1 == q * b + (b - 1)) by (nonlinear_arith)
            requires
                a == b * q + r,
                r == 0,
        ;
        lemma_fundamental_div_mod_converse(a + b - 1, b, q, b - 1);
    } else {
        assert(a + b - 1 == (q + 1) * b + (r - 1)) by (nonlinear_arith)
            requires
                a == b * q + r,
        ;
        lemma_fundamental_div_mod_converse(a + b - 1, b, q + 1, r - 1);
        assert(q + 1 <= a) by (nonlinear_arith)
            requires
                a == b * q + r,
                q >= 0,
                b >= 1,
                r >= 1,
        ;
    }
}

/// The larger of two values, as a mathematical function.
pub open spec fn max_spec(a: u128, b: u128) -> u128 {
    if a >= b {
        a
    } else {
        b
    }
}

/// The smaller of two values, as a mathematical function.
pub open spec fn min_spec(a: u128, b: u128) -> u128 {
    if a <= b {
        a
    } else {
        b
    }
}

/// Returns the maximum of two values.
#[verifier::when_used_as_spec(max_spec)]
pub fn max(a: u128, b: u128) -> (r: u128)
    ensures
        r == if a >= b {
            a
        } else {
            b
        },
{
    if a >= b {
        a
    } else {
        b
    }
}

/// Returns the minimum of two values.
#[verifier::when_used_as_spec(min_spec)]
pub fn min(a: u128, b: u128) -> (r: u128)
    ensures
        r == if a <= b {
            a
        } else {
            b
        },
{
    if a <= b {
        a
    } else {
        b
    }
}

/// Calculates `a / b` with rounding up.
pub fn ceil_div(a: u128, b: u128) -> (r: Result<u128, ErrorCode>)
    ensures
        b == 0 ==> r == Err::<u128, ErrorCode>(ErrorCode::DivideByZero),
        b != 0 ==> r == Ok::<u128, ErrorCode>(div_up(a as int, b as int) as u128),
{
    if b == 0 {
        return Err(ErrorCode::DivideByZero);
    }
    let q = a / b;
    let rem = a % b;
    proof {
        lemma_div_up(a as int, b as int);
    }
    if rem == 0 {
        Ok(q)
    } else {
        Ok(q + 1)
    }
}

/// The value of the bit string `bits[j..]`, least-significant bit first.
spec fn bits_value_from(bits: Seq<bool>, j: int) -> int
    decreases bits.len() - j,
{
    if j < 0 || j >= bits.len() {
        0
    } else {
        (if bits[j] {
            1int
        } else {
            0int
        }) + 2 * bits_value_from(bits, j + 1)
    }
}

/// Appending a bit adds its weighted value.
proof fn lemma_bits_value_push(bits: Seq<bool>, b: bool, j: int)
    requires
        0 <= j <= bits.len(),
    ensures
        bits_value_from(bits.push(b), j) == bits_value_from(bits, j) + (if b {
            1int
        } else {
            0int
        }) * pow2((bits.len() - j) as nat),
    decreases bits.len() - j,
{
    let c: int = if b {
        1
    } else {
        0
    };
    if j == bits.len() {
        lemma2_to64();
        assert(bits.push(b)[j] == b);
        assert(bits_value_from(bits.push(b), j + 1) == 0);
        assert(c * 1 == c) by (nonlinear_arith);
    } else {
        lemma_bits_value_push(bits, b, j + 1);
        lemma_pow2_unfold((bits.len() - j) as nat);
        assert(bits.push(b)[j] == bits[j]);
        assert(2 * (c * pow2((bits.len() - j - 1) as nat)) == c * (2 * pow2(
            (bits.len() - j - 1) as nat,
        ))) by (nonlinear_arith);
    }
}

/// The full 256-bit product of two 128-bit values, as `(high, low)` halves.
fn wide_mul(x: u128, y: u128) -> (r: (u128, u128))
    ensures
        (r.0 as int) * 0x100000000000000000000000000000000int + (r.1 as int) == x * y,
{
    let limb: u128 = 0x10000000000000000;
    let xh = x / limb;
    let xl = x % limb;
    let yh = y / limb;
    let yl = y % limb;
    proof {
        lemma_fundamental_div_mod(x as int, limb as int);
        lemma_fundamental_div_mod(y as int, limb as int);
        lemma_mod_bound(x as int, limb as int);
        lemma_mod_bound(y as int, limb as int);
        lemma_div_pos_is_pos(x as int, limb as int);
        lemma_div_pos_is_pos(y as int, limb as int);
        lemma_fundamental_div_mod_converse(
            0xffffffffffffffffffffffffffffffffint,
            0x10000000000000000int,
            0xffffffffffffffff,
            0xffffffffffffffff,
        );
        lemma_div_is_ordered(x as int, 0xffffffffffffffffffffffffffffffffint, limb as int);
        lemma_div_is_ordered(y as int, 0xffffffffffffffffffffffffffffffffint, limb as int);
        lemma_mul_upper_bound(
            xl as int,
            0xffffffffffffffff,
            yl as int,
            0xffffffffffffffff,
        );
        lemma_mul_upper_bound(
            xl as int,
            0xffffffffffffffff,
            yh as int,
            0xffffffffffffffff,
        );
        lemma_mul_upper_bound(
            xh as int,
            0xffffffffffffffff,
            yl as int,
            0xffffffffffffffff,
        );
        lemma_mul_upper_bound(
            xh as int,
            0xffffffffffffffff,
            yh as int,
            0xffffffffffffffff,
        );
    }
    let ll = xl * yl;
    let lh = xl * yh;
    let hl = xh * yl;
    let hh = xh * yh;
    proof {
        lemma_fundamental_div_mod(lh as int, limb as int);
        lemma_fundamental_div_mod(hl as int, limb as int);
        lemma_mod_bound(lh as int, limb as int);
        lemma_mod_bound(hl as int, limb as int);
        lemma_div_pos_is_pos(lh as int, limb as int);
        lemma_div_pos_is_pos(hl as int, limb as int);
        lemma_mul_upper_bound(
            (lh % limb) as int,
            0xffffffffffffffff,
            limb as int,
            0x10000000000000000int,
        );
        lemma_mul_upper_bound(
            (hl % limb) as int,
            0xffffffffffffffff,
            limb as int,
            0x10000000000000000int,
        );
        // quotients of the cross products stay below the limb
        lemma_div_is_ordered(lh as int, 0xfffffffffffffffe0000000000000001int, limb as int);
        lemma_div_is_ordered(hl as int, 0xfffffffffffffffe0000000000000001int, limb as int);
        lemma_fundamental_div_mod_converse(
            0xfffffffffffffffe0000000000000001int,
            0x10000000000000000int,
            0xfffffffffffffffe,
            1,
        );
    }
    let t1 = (lh % limb) * limb;
    let (lo1, c1): (u128, u128) = if ll > u128::MAX - t1 {
        (ll - (u128::MAX - t1) - 1, 1)
    } else {
        (ll + t1, 0)
    };
    let t2 = (hl % limb) * limb;
    let (lo2, c2): (u128, u128) = if lo1 > u128::MAX - t2 {
        (lo1 - (u128::MAX - t2) - 1, 1)
    } else {
        (lo1 + t2, 0)
    };
    let hi = hh + lh / limb + hl / limb + c1 + c2;
    proof {
        assert(x * y == hh * 0x100000000000000000000000000000000int + (lh + hl) * (limb as int)
            + ll) by (nonlinear_arith)
            requires
                x == (limb as int) * xh + xl,
                y == (limb as int) * yh + yl,
                hh == xh * yh,
                lh == xl * yh,
                hl == xh * yl,
                ll == xl * yl,
                limb == 0x10000000000000000int,
        ;
        assert(lh * (limb as int) == (lh as int / limb as int)
            * 0x100000000000000000000000000000000int + t1) by (nonlinear_arith)
            requires
                lh == (limb as int) * (lh as int / limb as int) + (lh as int % limb as int),
                t1 == (lh as int % limb as int) * (limb as int),
                limb == 0x10000000000000000int,
        ;
        assert(hl * (limb as int) == (hl as int / limb as int)
            * 0x100000000000000000000000000000000int + t2) by (nonlinear_arith)
            requires
                hl == (limb as int) * (hl as int / limb as int) + (hl as int % limb as int),
                t2 == (hl as int % limb as int) * (limb as int),
                limb == 0x10000000000000000int,
        ;
        assert((hh + lh as int / limb as int + hl as int / limb as int + c1 + c2)
            * 0x100000000000000000000000000000000int == hh
            * 0x100000000000000000000000000000000int + (lh as int / limb as int)
            * 0x100000000000000000000000000000000int + (hl as int / limb as int)
            * 0x100000000000000000000000000000000int + (c1 + c2)
            * 0x100000000000000000000000000000000int) by (nonlinear_arith);
    }
    (hi, lo2)
}

/// Divides the 256-bit value `high * 2^128 + low` by `d` using binary long
/// division, returning quotient and remainder.  The quotient fits 128 bits
/// exactly when `high < d`.
fn div_rem_wide(high: u128, low: u128, d: u128) -> (r: (u128, u128))
    requires
        d > 0,
        high < d,
    ensures
        (high as int) * 0x100000000000000000000000000000000int + (low as int) == d * r.0 + r.1,
        r.1 < d,
{
    let mut bits: Vec<bool> = Vec::new();
    let mut tmp: u128 = low;
    let mut extracted: usize = 0;
    proof {
        lemma2_to64();
        lemma2_to64_rest();
        lemma_pow2_adds(64, 64);
        lemma_pow2_adds(64, 63);
    }
    while extracted < 128
        invariant
            extracted == bits@.len(),
            extracted <= 128,
            low == bits_value_from(bits@, 0) + tmp * pow2(extracted as nat),
            tmp < pow2((128 - extracted) as nat),
        decreases 128 - extracted,
    {
        let b = tmp % 2 == 1;
        proof {
            let ghost bit: int = if b {
                1
            } else {
                0
            };
            lemma_bits_value_push(bits@, b, 0);
            lemma_fundamental_div_mod(tmp as int, 2);
            lemma_pow2_unfold((extracted + 1) as nat);
            lemma_pow2_unfold((128 - extracted) as nat);
            assert((2 * (tmp as int / 2) + bit) * pow2(extracted as nat) == (tmp as int / 2) * (2
                * pow2(extracted as nat)) + bit * pow2(extracted as nat)) by (nonlinear_arith);
            assert(tmp as int % 2 == bit);
            if tmp as int / 2 >= pow2((128 - extracted - 1) as nat) {
                assert(2 * (tmp as int / 2) >= 2 * pow2((128 - extracted - 1) as nat))
                    by (nonlinear_arith)
                    requires
                        tmp as int / 2 >= pow2((128 - extracted - 1) as nat),
                ;
                assert(false);
            }
        }
        bits.push(b);
        tmp = tmp / 2;
        extracted = extracted + 1;
    }
    proof {
        lemma2_to64();
        assert(tmp < pow2(0));
        assert(tmp == 0);
    }
    let mut quotient: u128 = 0;
    let mut remainder: u128 = high;
    let mut j: usize = 128;
    while j > 0
        invariant
            j <= 128,
            bits@.len() == 128,
            low == bits_value_from(bits@, 0),
            d > 0,
            high < d,
            remainder < d,
            (high as int) * pow2((128 - j) as nat) + bits_value_from(bits@, j as int) == d
                * quotient + remainder,
            quotient < pow2((128 - j) as nat),
        decreases j,
    {
        let next = j - 1;
        let b = bits[next];
        let bit: u128 = if b {
            1
        } else {
            0
        };
        proof {
            lemma2_to64();
            lemma2_to64_rest();
            lemma_pow2_adds(64, 64);
            lemma_pow2_adds(64, 63);
            lemma_pow2_unfold((128 - next) as nat);
            if 128 - j < 127 {
                lemma_pow2_strictly_increases((128 - j) as nat, 127);
            }
            assert((high as int) * pow2((128 - next) as nat) == 2 * ((high as int) * pow2(
                (128 - j) as nat,
            ))) by (nonlinear_arith)
                requires
                    pow2((128 - next) as nat) == 2 * pow2((128 - j) as nat),
            ;
            assert(d * (2 * (quotient as int)) == 2 * (d * (quotient as int)))
                by (nonlinear_arith);
            assert(d * (2 * (quotient as int) + 1) == 2 * (d * (quotient as int)) + d)
                by (nonlinear_arith);
        }
        let shifted = 2 * quotient;
        if remainder >= 0x80000000000000000000000000000000 {
            // doubling the remainder overflows 2^128, so it certainly
            // exceeds the divisor: subtract and set the quotient bit
            quotient = shifted + 1;
            remainder = (remainder - (d - remainder)) + bit;
        } else {
            let raw = 2 * remainder + bit;
            if raw >= d {
                quotient = shifted + 1;
                remainder = raw - d;
            } else {
                quotient = shifted;
                remainder = raw;
            }
        }
        j = next;
    }
    proof {
        lemma2_to64();
        lemma2_to64_rest();
        lemma_pow2_adds(64, 64);
        assert(pow2(128) == 0x100000000000000000000000000000000int);
    }
    (quotient, remainder)
}

/// What `mul_div` returns: the floored quotient of the full product, with
/// `Overflow` exactly when that quotient exceeds the output width.
pub open spec fn mul_div_result(x: u128, y: u128, denominator: u128) -> Result<u128, ErrorCode> {
    if denominator == 0 {
        Err(ErrorCode::DivideByZero)
    } else if (x * y) / (denominator as int) > u128::MAX {
        Err(ErrorCode::Overflow)
    } else {
        Ok(((x * y) / (denominator as int)) as u128)
    }
}

/// What `mul_div_up` returns: the ceiling of the full product's quotient,
/// with `Overflow` exactly when that ceiling exceeds the output width.
pub open spec fn mul_div_up_result(x: u128, y: u128, denominator: u128) -> Result<u128, ErrorCode> {
    if denominator == 0 {
        Err(ErrorCode::DivideByZero)
    } else if div_up(x * y, denominator as int) > u128::MAX {
        Err(ErrorCode::Overflow)
    } else {
        Ok(div_up(x * y, denominator as int) as u128)
    }
}

/// What `mul_div2` returns: the floor/ceiling pair, with `Overflow`
/// exactly when the ceiling exceeds the output width.
pub open spec fn mul_div2_result(x: u128, y: u128, denominator: u128) -> Result<
    (u128, u128),
    ErrorCode,
> {
    if denominator == 0 {
        Err(ErrorCode::DivideByZero)
    } else if div_up(x * y, denominator as int) > u128::MAX {
        Err(ErrorCode::Overflow)
    } else {
        Ok(
            (
                ((x * y) / (denominator as int)) as u128,
                div_up(x * y, denominator as int) as u128,
            ),
        )
    }
}

/// The quotient of the 256-bit product fits 128 bits exactly when the
/// product's high half is below the divisor.
proof fn lemma_wide_quotient_fits(high: int, low: int, d: int)
    requires
        d > 0,
        0 <= high,
        0 <= low <= u128::MAX,
    ensures
        high >= d ==> (high * 0x100000000000000000000000000000000int + low) / d > u128::MAX,
        high < d ==> (high * 0x100000000000000000000000000000000int + low) / d <= u128::MAX,
{
    let p: int = 0x100000000000000000000000000000000int;
    let n = high * p + low;
    if high >= d {
        lemma_mul_inequality(d, high, p);
        lemma_div_multiples_vanish(p, d);
        lemma_div_is_ordered(d * p, n, d);
        assert(d * p == p * d) by (nonlinear_arith);
    } else {
        assert(high * p <= (d - 1) * p) by (nonlinear_arith)
            requires
                high <= d - 1,
                p > 0,
        ;
        assert(d * p - 1 == d * (p - 1) + (d - 1)) by (nonlinear_arith);
        lemma_fundamental_div_mod_converse(d * p - 1, d, p - 1, d - 1);
        lemma_div_is_ordered(n, d * p - 1, d);
    }
}

/// Calculates `x * y / denominator` with rounding down.
///
/// The product is taken over a 256-bit intermediate: the call fails with
/// `Overflow` only when the floored quotient itself exceeds `u128`.
pub fn mul_div(x: u128, y: u128, denominator: u128) -> (r: Result<u128, ErrorCode>)
    ensures
        r == mul_div_result(x, y, denominator),
{
    if denominator == 0 {
        return Err(ErrorCode::DivideByZero);
    }
    let (high, low) = wide_mul(x, y);
    proof {
        lemma_wide_quotient_fits(high as int, low as int, denominator as int);
    }
    if high >= denominator {
        return Err(ErrorCode::Overflow);
    }
    let (quotient, remainder) = div_rem_wide(high, low, denominator);
    proof {
        lemma_fundamental_div_mod_converse(
            (x * y) as int,
            denominator as int,
            quotient as int,
            remainder as int,
        );
    }
    Ok(quotient)
}

/// Calculates `x * y / denominator` with rounding up.
///
/// The product is taken over a 256-bit intermediate: the call fails with
/// `Overflow` only when the ceiling quotient itself exceeds `u128`.
pub fn mul_div_up(x: u128, y: u128, denominator: u128) -> (r: Result<u128, ErrorCode>)
    ensures
        r == mul_div_up_result(x, y, denominator),
{
    if denominator == 0 {
        return Err(ErrorCode::DivideByZero);
    }
    let (high, low) = wide_mul(x, y);
    proof {
        lemma_wide_quotient_fits(high as int, low as int, denominator as int);
        lemma_mul_nonnegative(x as int, y as int);
        lemma_div_up((x * y) as int, denominator as int);
    }
    if high >= denominator {
        return Err(ErrorCode::Overflow);
    }
    let (quotient, remainder) = div_rem_wide(high, low, denominator);
    proof {
        lemma_fundamental_div_mod_converse(
            (x * y) as int,
            denominator as int,
            quotient as int,
            remainder as int,
        );
    }
    if remainder == 0 {
        Ok(quotient)
    } else if quotient == u128::MAX {
        Err(ErrorCode::Overflow)
    } else {
        Ok(quotient + 1)
    }
}

/// Calculates `x * y / denominator` with specific rounding.
pub fn mul_div_rounding(x: u128, y: u128, denominator: u128, rounding: Rounding) -> (r: Result<
    u128,
    ErrorCode,
>)
    ensures
        rounding == Rounding::Down ==> r == mul_div_result(x, y, denominator),
        rounding == Rounding::Up ==> r == mul_div_up_result(x, y, denominator),
{
    match rounding {
        Rounding::Up => mul_div_up(x, y, denominator),
        Rounding::Down => mul_div(x, y, denominator),
    }
}

/// Calculates `x * y / denominator` with both rounding down and up from a
/// single 256-bit product.
///
/// On success the pair is `(floor, ceiling)` of the same quotient:
/// the ceiling never trails the floor, exceeds it by at most one, and the
/// two coincide exactly when the division is exact.
pub fn mul_div2(x: u128, y: u128, denominator: u128) -> (r: Result<(u128, u128), ErrorCode>)
    ensures
        r == mul_div2_result(x, y, denominator),
        r matches Ok(pair) ==> pair.0 <= pair.1 <= pair.0 + 1,
        r matches Ok(pair) ==> (pair.1 == pair.0 <==> (x * y) % (denominator as int) == 0),
{
    if denominator == 0 {
        return Err(ErrorCode::DivideByZero);
    }
    let (high, low) = wide_mul(x, y);
    proof {
        lemma_wide_quotient_fits(high as int, low as int, denominator as int);
        lemma_mul_nonnegative(x as int, y as int);
        lemma_div_up((x * y) as int, denominator as int);
    }
    if high >= denominator {
        return Err(ErrorCode::Overflow);
    }
    let (quotient, remainder) = div_rem_wide(high, low, denominator);
    proof {
        lemma_fundamental_div_mod_converse(
            (x * y) as int,
            denominator as int,
            quotient as int,
            remainder as int,
        );
    }
    if remainder == 0 {
        Ok((quotient, quotient))
    } else if quotient == u128::MAX {
        Err(ErrorCode::Overflow)
    } else {
        Ok((quotient, quotient + 1))
    }
}

} // verus!
