use vstd::prelude::*;
use vstd::arithmetic::div_mod::{lemma_fundamental_div_mod, lemma_mod_pos_bound};

use crate::error::ErrorCode;
use crate::math::mul_div_wide;
use crate::{VIRTUAL_SOL_LAMPORTS, VIRTUAL_TOKEN_BASE_UNITS};

verus! {

/// Lamport coordinate of the curve: actual reserve plus the virtual one.
pub open spec fn effective_sol(sol_reserve: u64) -> int {
    sol_reserve + VIRTUAL_SOL_LAMPORTS
}

/// Token coordinate of the curve: actual reserve plus the virtual one.
pub open spec fn effective_token(token_reserve: u64) -> int {
    token_reserve + VIRTUAL_TOKEN_BASE_UNITS
}

/// The curve constant `k` of a pair of reserves.
pub open spec fn curve_k(sol_reserve: u64, token_reserve: u64) -> int {
    effective_sol(sol_reserve) * effective_token(token_reserve)
}

pub open spec fn min_int(a: int, b: int) -> int {
    if a < b { a } else { b }
}

/// Tokens the curve releases for `sol_in` lamports, rounded down:
/// `floor(y0 * sol_in / (x0 + sol_in))`, which is `y0 - ceil(k / x1)`.
pub open spec fn buy_curve_output(sol_reserve: u64, token_reserve: u64, sol_in: u64) -> int {
    effective_token(token_reserve) * sol_in / (effective_sol(sol_reserve) + sol_in)
}

/// Tokens a buy delivers: the curve output capped at the actual token reserve.
pub open spec fn buy_output(sol_reserve: u64, token_reserve: u64, sol_in: u64) -> int {
    min_int(buy_curve_output(sol_reserve, token_reserve, sol_in), token_reserve as int)
}

/// Lamports the curve releases for `tokens_in` tokens, rounded down:
/// `floor(x0 * tokens_in / (y0 + tokens_in))`, which is `x0 - ceil(k / y1)`.
pub open spec fn sell_curve_output(sol_reserve: u64, token_reserve: u64, tokens_in: u64) -> int {
    effective_sol(sol_reserve) * tokens_in / (effective_token(token_reserve) + tokens_in)
}

/// Lamports a sale pays out before fees: the curve output capped at the
/// actual lamport reserve.
pub open spec fn sell_output(sol_reserve: u64, token_reserve: u64, tokens_in: u64) -> int {
    min_int(sell_curve_output(sol_reserve, token_reserve, tokens_in), sol_reserve as int)
}

/// The quote for a buy: `(tokens_out, new_sol_reserve, new_token_reserve)`.
pub open spec fn quote_buy_spec(sol_reserve: u64, token_reserve: u64, sol_in: u64) -> Result<
    (u64, u64, u64),
    ErrorCode,
> {
    let out = buy_output(sol_reserve, token_reserve, sol_in);
    if out <= 0 {
        Err(ErrorCode::TooSmall)
    } else if sol_reserve + sol_in > u64::MAX {
        Err(ErrorCode::MathOverflow)
    } else {
        Ok((out as u64, (sol_reserve + sol_in) as u64, (token_reserve - out) as u64))
    }
}

/// The quote for a sale: `(sol_out_gross, new_sol_reserve, new_token_reserve)`.
pub open spec fn quote_sell_spec(sol_reserve: u64, token_reserve: u64, tokens_in: u64) -> Result<
    (u64, u64, u64),
    ErrorCode,
> {
    let out = sell_output(sol_reserve, token_reserve, tokens_in);
    if out <= 0 {
        Err(ErrorCode::TooSmall)
    } else if token_reserve + tokens_in > u64::MAX {
        Err(ErrorCode::MathOverflow)
    } else {
        Ok((out as u64, (sol_reserve - out) as u64, (token_reserve + tokens_in) as u64))
    }
}

/// Paying `a` into one coordinate `u` and taking out at most
/// `floor(v * a / (u + a))` from the other coordinate `v` keeps the product
/// `u * v` from falling.
pub proof fn lemma_product_kept(u: int, v: int, a: int, out: int)
    requires
        0 < u,
        0 <= v,
        0 <= a,
        0 <= out <= v * a / (u + a),
    ensures
        (u + a) * (v - out) >= u * v,
{
    let d = v * a;
    let w = u + a;
    lemma_fundamental_div_mod(d, w);
    lemma_mod_pos_bound(d, w);
    assert(w * out <= w * (d / w)) by (nonlinear_arith)
        requires
            out <= d / w,
            w > 0,
    ;
    assert((u + a) * (v - out) >= u * v) by (nonlinear_arith)
        requires
            w * out <= w * (d / w),
            w * (d / w) <= d,
            d == v * a,
            w == u + a,
    ;
}

/// A settled buy quote never lowers the curve constant.
pub proof fn lemma_quote_buy_keeps_k(sol_reserve: u64, token_reserve: u64, sol_in: u64)
    requires
        quote_buy_spec(sol_reserve, token_reserve, sol_in) is Ok,
    ensures
        ({
            let (_, ns, nt) = quote_buy_spec(sol_reserve, token_reserve, sol_in)->Ok_0;
            curve_k(ns, nt) >= curve_k(sol_reserve, token_reserve)
        }),
{
    let (out, ns, nt) = quote_buy_spec(sol_reserve, token_reserve, sol_in)->Ok_0;
    lemma_product_kept(
        effective_sol(sol_reserve),
        effective_token(token_reserve),
        sol_in as int,
        out as int,
    );
}

/// A settled sale quote never lowers the curve constant.
pub proof fn lemma_quote_sell_keeps_k(sol_reserve: u64, token_reserve: u64, tokens_in: u64)
    requires
        quote_sell_spec(sol_reserve, token_reserve, tokens_in) is Ok,
    ensures
        ({
            let (_, ns, nt) = quote_sell_spec(sol_reserve, token_reserve, tokens_in)->Ok_0;
            curve_k(ns, nt) >= curve_k(sol_reserve, token_reserve)
        }),
{
    let (out, ns, nt) = quote_sell_spec(sol_reserve, token_reserve, tokens_in)->Ok_0;
    let x0 = effective_sol(sol_reserve);
    let y0 = effective_token(token_reserve);
    lemma_product_kept(y0, x0, tokens_in as int, out as int);
    assert((y0 + tokens_in) * (x0 - out) == (x0 - out) * (y0 + tokens_in)) by (nonlinear_arith);
    assert(y0 * x0 == x0 * y0) by (nonlinear_arith);
}

/// Quotes the tokens that `sol_in` lamports buy from reserves
/// `(sol_reserve, token_reserve)`, and the reserves after the trade.
/// Rounding goes against the buyer.
pub fn quote_buy(sol_reserve: u64, token_reserve: u64, sol_in: u64) -> (r: Result<
    (u64, u64, u64),
    ErrorCode,
>)
    ensures
        r == quote_buy_spec(sol_reserve, token_reserve, sol_in),
        r matches Ok((out, _, _)) ==> 0 < out <= token_reserve,
        r matches Ok((_, ns, nt)) ==> curve_k(ns, nt) >= curve_k(sol_reserve, token_reserve),
{
    let x0: u128 = sol_reserve as u128 + VIRTUAL_SOL_LAMPORTS as u128;
    let y0: u128 = token_reserve as u128 + VIRTUAL_TOKEN_BASE_UNITS as u128;
    let x1: u128 = x0 + sol_in as u128;
    let dy: u128 = mul_div_wide(y0, sol_in, x1);
    // Virtual tokens cannot be delivered: cap at the actual reserve.
    let tokens_out: u64 = if dy < token_reserve as u128 {
        dy as u64
    } else {
        token_reserve
    };
    if tokens_out == 0 {
        return Err(ErrorCode::TooSmall);
    }
    let new_sol_reserve: u64 = match sol_reserve.checked_add(sol_in) {
        Some(v) => v,
        None => return Err(ErrorCode::MathOverflow),
    };
    let new_token_reserve: u64 = token_reserve - tokens_out;
    proof {
        lemma_quote_buy_keeps_k(sol_reserve, token_reserve, sol_in);
    }
    Ok((tokens_out, new_sol_reserve, new_token_reserve))
}

/// Quotes the lamports (before fees) that `tokens_in` tokens fetch from
/// reserves `(sol_reserve, token_reserve)`, and the reserves after the trade.
/// Rounding goes against the seller.
pub fn quote_sell(sol_reserve: u64, token_reserve: u64, tokens_in: u64) -> (r: Result<
    (u64, u64, u64),
    ErrorCode,
>)
    ensures
        r == quote_sell_spec(sol_reserve, token_reserve, tokens_in),
        r matches Ok((out, _, _)) ==> 0 < out <= sol_reserve,
        r matches Ok((_, ns, nt)) ==> curve_k(ns, nt) >= curve_k(sol_reserve, token_reserve),
{
    let x0: u128 = sol_reserve as u128 + VIRTUAL_SOL_LAMPORTS as u128;
    let y0: u128 = token_reserve as u128 + VIRTUAL_TOKEN_BASE_UNITS as u128;
    let y1: u128 = y0 + tokens_in as u128;
    let dx: u128 = mul_div_wide(x0, tokens_in, y1);
    // Virtual lamports cannot be paid out: cap at the actual reserve.
    let sol_out_gross: u64 = if dx < sol_reserve as u128 {
        dx as u64
    } else {
        sol_reserve
    };
    if sol_out_gross == 0 {
        return Err(ErrorCode::TooSmall);
    }
    let new_token_reserve: u64 = match token_reserve.checked_add(tokens_in) {
        Some(v) => v,
        None => return Err(ErrorCode::MathOverflow),
    };
    let new_sol_reserve: u64 = sol_reserve - sol_out_gross;
    proof {
        lemma_quote_sell_keeps_k(sol_reserve, token_reserve, tokens_in);
    }
    Ok((sol_out_gross, new_sol_reserve, new_token_reserve))
}

} // verus!
