use vstd::prelude::*;

use vstd::arithmetic::div_mod::{lemma_fundamental_div_mod, lemma_fundamental_div_mod_converse_div, lemma_mod_pos_bound};

use crate::error::ErrorCode;

verus! {

/// `floor(a * b / denom)` over the integers, or the error that the checked
/// computation reports: a zero denominator, or a quotient beyond `u64`.
pub open spec fn mul_div_spec(a: u64, b: u64, denom: u64) -> Result<u64, ErrorCode> {
    if denom == 0 {
        Err(ErrorCode::MathOverflow)
    } else if (a as int) * (b as int) / (denom as int) > u64::MAX as int {
        Err(ErrorCode::MathOverflow)
    } else {
        Ok(((a as int) * (b as int) / (denom as int)) as u64)
    }
}

/// Multiplies in 128 bits, divides rounding down, and narrows back to 64 bits
/// with a check.
pub fn mul_div_u64(a: u64, b: u64, denom: u64) -> (r: Result<u64, ErrorCode>)
    ensures
        r == mul_div_spec(a, b, denom),
{
    if denom == 0 {
        return Err(ErrorCode::MathOverflow);
    }
    proof {
        lemma_u64_product_fits(a, b);
    }
    let prod: u128 = (a as u128) * (b as u128);
    let out: u128 = prod / (denom as u128);
    if out > u64::MAX as u128 {
        return Err(ErrorCode::MathOverflow);
    }
    Ok(out as u64)
}

/// The product of two 64-bit values fits in 128 bits.
pub proof fn lemma_u64_product_fits(a: u64, b: u64)
    ensures
        (a as int) * (b as int) <= u128::MAX as int,
{
    assert((a as int) * (b as int) <= (u64::MAX as int) * (u64::MAX as int)) by (nonlinear_arith);
}


/// `floor(a * b / c)` where `a * b` may exceed 128 bits. `b` is split into
/// 32-bit halves, so every intermediate stays below 2^100.
pub fn mul_div_wide(a: u128, b: u64, c: u128) -> (r: u128)
    requires
        a < 0x4_0000_0000_0000_0000,
        0x400_0000 <= c < 0x4_0000_0000_0000_0000,
    ensures
        r as int == (a as int) * (b as int) / (c as int),
{
    let base: u64 = 0x1_0000_0000;
    let b_hi: u64 = b / base;
    let b_lo: u64 = b % base;
    assert(b_hi < 0x1_0000_0000);
    assert(a * b_hi < 0x4_0000_0000_0000_0000_0000_0000) by (nonlinear_arith)
        requires
            a < 0x4_0000_0000_0000_0000,
            b_hi < 0x1_0000_0000,
    ;
    let p_hi: u128 = a * (b_hi as u128);
    let q1: u128 = p_hi / c;
    let r1: u128 = p_hi % c;
    proof {
        lemma_fundamental_div_mod(p_hi as int, c as int);
        lemma_mod_pos_bound(p_hi as int, c as int);
        assert(q1 < 0x100_0000_0000_0000_0000) by (nonlinear_arith)
            requires
                c * q1 <= p_hi,
                p_hi < 0x4_0000_0000_0000_0000_0000_0000,
                c >= 0x400_0000,
                q1 >= 0,
        ;
        assert(r1 * base < 0x4_0000_0000_0000_0000_0000_0000) by (nonlinear_arith)
            requires
                r1 < 0x4_0000_0000_0000_0000,
                base == 0x1_0000_0000,
        ;
        assert(a * b_lo < 0x4_0000_0000_0000_0000_0000_0000) by (nonlinear_arith)
            requires
                a < 0x4_0000_0000_0000_0000,
                b_lo < 0x1_0000_0000,
        ;
    }
    let s: u128 = r1 * (base as u128) + a * (b_lo as u128);
    let q2: u128 = s / c;
    proof {
        let r2 = s as int % c as int;
        lemma_fundamental_div_mod(s as int, c as int);
        lemma_mod_pos_bound(s as int, c as int);
        assert(q2 <= s) by (nonlinear_arith)
            requires
                c * q2 <= s,
                c >= 1,
                q2 >= 0,
        ;
        assert((a as int) * (b as int) == (q1 * base + q2) * c + r2) by (nonlinear_arith)
            requires
                b == b_hi * base + b_lo,
                p_hi == a * b_hi,
                p_hi == c * q1 + r1,
                s == r1 * base + a * b_lo,
                s == c * q2 + r2,
        ;
        lemma_fundamental_div_mod_converse_div(
            (a as int) * (b as int),
            c as int,
            q1 * base + q2,
            r2,
        );
    }
    q1 * (base as u128) + q2
}

} // verus!
