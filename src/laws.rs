use vstd::prelude::*;

use crate::curve::{
    curve_k, lemma_quote_buy_keeps_k, lemma_quote_sell_keeps_k, quote_buy_spec, quote_sell_spec,
    sell_output,
};
use crate::error::ErrorCode;
use crate::launch::{
    buy_spec, sell_spec, Balances, Bought, Buy, Launch, Sell, Sold,
    TradeArgs,
};
use crate::{BOND_TARGET_LAMPORTS, MAX_FEE_BPS};

verus! {

/// Conservation: a buy that settles never lowers the curve constant
/// `(sol_reserve + VIRTUAL_SOL) * (token_reserve + VIRTUAL_TOKEN)`.
pub proof fn lemma_buy_conserves_k(ctx: Buy, l: Launch, b: Balances, args: TradeArgs)
    requires
        buy_spec(ctx, l, b, args) is Ok,
    ensures
        ({
            let (nl, _, _) = buy_spec(ctx, l, b, args)->Ok_0;
            curve_k(nl.sol_reserve, nl.token_reserve) >= curve_k(l.sol_reserve, l.token_reserve)
        }),
{
    let (_, _, ev) = buy_spec(ctx, l, b, args)->Ok_0;
    lemma_quote_buy_keeps_k(l.sol_reserve, l.token_reserve, (ev.sol_in - ev.fee_lamports) as u64);
}

/// Conservation: a sale that settles never lowers the curve constant.
pub proof fn lemma_sell_conserves_k(
    ctx: Sell,
    l: Launch,
    b: Balances,
    rent_minimum: u64,
    args: TradeArgs,
)
    requires
        sell_spec(ctx, l, b, rent_minimum, args) is Ok,
    ensures
        ({
            let (nl, _, _) = sell_spec(ctx, l, b, rent_minimum, args)->Ok_0;
            curve_k(nl.sol_reserve, nl.token_reserve) >= curve_k(l.sol_reserve, l.token_reserve)
        }),
{
    lemma_quote_sell_keeps_k(l.sol_reserve, l.token_reserve, args.amount_in);
}

/// Selling straight back the tokens that a buy delivered returns at most the
/// lamports that were paid in, and leaves the token reserve where it was.
pub proof fn lemma_buy_then_sell_back(sol_reserve: u64, token_reserve: u64, sol_in: u64)
    requires
        quote_buy_spec(sol_reserve, token_reserve, sol_in) is Ok,
    ensures
        ({
            let (out, s1, t1) = quote_buy_spec(sol_reserve, token_reserve, sol_in)->Ok_0;
            quote_sell_spec(s1, t1, out) matches Ok((back, s2, t2)) ==> {
                &&& back <= sol_in
                &&& t2 == token_reserve
                &&& s2 >= sol_reserve
            }
        }),
{
    let (out, s1, t1) = quote_buy_spec(sol_reserve, token_reserve, sol_in)->Ok_0;
    if quote_sell_spec(s1, t1, out) is Ok {
        let back = sell_output(s1, t1, out);
        let x1 = s1 + crate::VIRTUAL_SOL_LAMPORTS;
        let y0 = token_reserve + crate::VIRTUAL_TOKEN_BASE_UNITS;
        let a = sol_in as int;
        let o = out as int;
        assert(t1 + o == token_reserve);
        // The buy gave at most floor(y0 * a / x1), so x1 * o <= y0 * a.
        assert(x1 * o <= y0 * a) by {
            vstd::arithmetic::div_mod::lemma_fundamental_div_mod(y0 * a, x1);
            vstd::arithmetic::div_mod::lemma_mod_pos_bound(y0 * a, x1);
            assert(x1 * o <= x1 * ((y0 * a) / x1)) by (nonlinear_arith)
                requires
                    o <= (y0 * a) / x1,
                    x1 > 0,
            ;
        }
        // The sale gives at most floor(x1 * o / y0), so back * y0 <= x1 * o.
        assert(back * y0 <= x1 * o) by {
            let q = (x1 * o) / y0;
            assert(crate::curve::effective_token(t1) + o == y0);
            assert(crate::curve::effective_sol(s1) == x1);
            assert(back <= q);
            vstd::arithmetic::div_mod::lemma_fundamental_div_mod(x1 * o, y0);
            vstd::arithmetic::div_mod::lemma_mod_pos_bound(x1 * o, y0);
            assert(back * y0 <= q * y0) by (nonlinear_arith)
                requires
                    back <= q,
                    y0 > 0,
            ;
            assert(q * y0 == y0 * q) by (nonlinear_arith);
        }
        assert(back <= a) by (nonlinear_arith)
            requires
                back * y0 <= y0 * a,
                y0 > 0,
        ;
    }
}

/// Fees on a buy: the fee is `floor(amount_in * fee_bps / 10000)`, it goes to
/// the dev wallet, and exactly `amount_in - fee` reaches the lamport reserve.
pub proof fn lemma_buy_fee(ctx: Buy, l: Launch, b: Balances, args: TradeArgs)
    requires
        buy_spec(ctx, l, b, args) is Ok,
    ensures
        ({
            let (nl, nb, ev) = buy_spec(ctx, l, b, args)->Ok_0;
            &&& ev.fee_lamports == (args.amount_in as int) * (l.fee_bps as int) / 10000
            &&& nl.sol_reserve == l.sol_reserve + (args.amount_in - ev.fee_lamports)
            &&& nb.dev_wallet == b.dev_wallet + ev.fee_lamports
            &&& nb.launch == b.launch - ev.fee_lamports
        }),
{
}

/// Fees on a sale: the fee is `floor(sol_out_gross * fee_bps / 10000)`, the
/// seller receives exactly `sol_out_gross - fee` and the dev wallet the fee.
pub proof fn lemma_sell_fee(
    ctx: Sell,
    l: Launch,
    b: Balances,
    rent_minimum: u64,
    args: TradeArgs,
)
    requires
        sell_spec(ctx, l, b, rent_minimum, args) is Ok,
    ensures
        ({
            let (nl, nb, ev) = sell_spec(ctx, l, b, rent_minimum, args)->Ok_0;
            &&& ev.fee_lamports == (ev.sol_out_gross as int) * (l.fee_bps as int) / 10000
            &&& ev.sol_out_net == ev.sol_out_gross - ev.fee_lamports
            &&& nl.sol_reserve == l.sol_reserve - ev.sol_out_gross
            &&& nb.user == b.user + ev.sol_out_net
            &&& nb.dev_wallet == b.dev_wallet + ev.fee_lamports
            &&& nb.launch == b.launch - ev.sol_out_gross
        }),
{
}

/// Slippage on a buy: asking for one token more than a buy would deliver
/// turns it into `SlippageExceeded` (and `buy` then changes nothing).
pub proof fn lemma_buy_slippage(ctx: Buy, l: Launch, b: Balances, args: TradeArgs)
    requires
        buy_spec(ctx, l, b, args) matches Ok((_, _, ev)) && ev.tokens_out < u64::MAX,
    ensures
        ({
            let (_, _, ev) = buy_spec(ctx, l, b, args)->Ok_0;
            let tighter = TradeArgs {
                amount_in: args.amount_in,
                min_amount_out: (ev.tokens_out + 1) as u64,
            };
            buy_spec(ctx, l, b, tighter) == Err::<(Launch, Balances, Bought), ErrorCode>(
                ErrorCode::SlippageExceeded,
            )
        }),
{
}

/// Slippage on a sale: asking for one lamport more than a sale would pay the
/// seller turns it into `SlippageExceeded` (and `sell` then changes nothing).
pub proof fn lemma_sell_slippage(
    ctx: Sell,
    l: Launch,
    b: Balances,
    rent_minimum: u64,
    args: TradeArgs,
)
    requires
        sell_spec(ctx, l, b, rent_minimum, args) matches Ok((_, _, ev)) && ev.sol_out_net
            < u64::MAX,
    ensures
        ({
            let (_, _, ev) = sell_spec(ctx, l, b, rent_minimum, args)->Ok_0;
            let tighter = TradeArgs {
                amount_in: args.amount_in,
                min_amount_out: (ev.sol_out_net + 1) as u64,
            };
            sell_spec(ctx, l, b, rent_minimum, tighter) == Err::<
                (Launch, Balances, Sold),
                ErrorCode,
            >(ErrorCode::SlippageExceeded)
        }),
{
}

/// Graduation after a buy: a launch that was graduated stays so, and one
/// whose lamport reserve reaches the target is graduated.
pub proof fn lemma_buy_graduation(ctx: Buy, l: Launch, b: Balances, args: TradeArgs)
    requires
        buy_spec(ctx, l, b, args) is Ok,
    ensures
        ({
            let (nl, _, ev) = buy_spec(ctx, l, b, args)->Ok_0;
            &&& l.graduated ==> nl.graduated
            &&& nl.sol_reserve >= BOND_TARGET_LAMPORTS ==> nl.graduated
            &&& ev.graduated == nl.graduated
        }),
{
}

/// Graduation after a sale: a launch that was graduated stays so, and one
/// whose lamport reserve is at or above the target is graduated.
pub proof fn lemma_sell_graduation(
    ctx: Sell,
    l: Launch,
    b: Balances,
    rent_minimum: u64,
    args: TradeArgs,
)
    requires
        sell_spec(ctx, l, b, rent_minimum, args) is Ok,
    ensures
        ({
            let (nl, _, ev) = sell_spec(ctx, l, b, rent_minimum, args)->Ok_0;
            &&& l.graduated ==> nl.graduated
            &&& nl.sol_reserve >= BOND_TARGET_LAMPORTS ==> nl.graduated
            &&& ev.graduated == nl.graduated
        }),
{
}

/// A graduated launch refuses every buy.
pub proof fn lemma_graduated_refuses_buy(ctx: Buy, l: Launch, b: Balances, args: TradeArgs)
    requires
        l.graduated,
    ensures
        buy_spec(ctx, l, b, args) == Err::<(Launch, Balances, Bought), ErrorCode>(
            ErrorCode::AlreadyGraduated,
        ),
{
}

/// Graduation does not gate sales: a sale settles on a graduated launch
/// exactly when it would settle on the same launch not yet graduated, with
/// the same payments.
pub proof fn lemma_graduated_still_sells(
    ctx: Sell,
    l: Launch,
    b: Balances,
    rent_minimum: u64,
    args: TradeArgs,
)
    requires
        l.graduated,
    ensures
        ({
            let fresh = Launch { graduated: false, ..l };
            match (
                sell_spec(ctx, l, b, rent_minimum, args),
                sell_spec(ctx, fresh, b, rent_minimum, args),
            ) {
                (Ok((nl, nb, ev)), Ok((fl, fb, fev))) => {
                    &&& nb == fb
                    &&& nl.sol_reserve == fl.sol_reserve
                    &&& nl.token_reserve == fl.token_reserve
                    &&& ev.sol_out_gross == fev.sol_out_gross
                    &&& ev.sol_out_net == fev.sol_out_net
                    &&& ev.fee_lamports == fev.fee_lamports
                },
                (Err(e), Err(fe)) => e == fe,
                _ => false,
            }
        }),
{
}


proof fn lemma_fee_within(amount: u64, fee_bps: u16)
    requires
        fee_bps <= MAX_FEE_BPS,
    ensures
        0 <= (amount as int) * (fee_bps as int) / 10000 <= amount,
{
    assert(0 <= (amount as int) * (fee_bps as int) / 10000 <= amount) by (nonlinear_arith)
        requires
            0 <= fee_bps <= 1000,
            0 <= amount,
    ;
}

/// Slippage on a buy, stated over the quote: on a well-formed launch that is
/// not graduated, with matching mint and vault, the buyer's lamports arrived
/// and a dev wallet that can take the fee, asking for one token more than
/// `quote_buy` gives for the post-fee amount is refused with
/// `SlippageExceeded` (and `buy` then changes nothing).
pub proof fn lemma_buy_slippage_over_quote(ctx: Buy, l: Launch, b: Balances, args: TradeArgs)
    requires
        l.wf(),
        !l.graduated,
        args.amount_in > 0,
        l.mint == ctx.mint,
        l.vault == ctx.vault,
        b.launch >= args.amount_in,
        b.dev_wallet + (args.amount_in as int) * (l.fee_bps as int) / 10000 <= u64::MAX,
        quote_buy_spec(
            l.sol_reserve,
            l.token_reserve,
            (args.amount_in - (args.amount_in as int) * (l.fee_bps as int) / 10000) as u64,
        ) matches Ok((q, _, _)) && args.min_amount_out == q + 1,
    ensures
        buy_spec(ctx, l, b, args) == Err::<(Launch, Balances, Bought), ErrorCode>(
            ErrorCode::SlippageExceeded,
        ),
{
    lemma_fee_within(args.amount_in, l.fee_bps);
}

/// Graduation does not gate sales, stated over the quote: on a well-formed
/// graduated launch with matching mint and vault, a sale whose quote settles,
/// whose net output meets the bound, whose payout leaves the rent minimum,
/// and whose recipients can take the lamports, settles with the quoted
/// reserves and stays graduated.
pub proof fn lemma_graduated_sell_settles(
    ctx: Sell,
    l: Launch,
    b: Balances,
    rent_minimum: u64,
    args: TradeArgs,
)
    requires
        l.wf(),
        l.graduated,
        args.amount_in > 0,
        l.mint == ctx.mint,
        l.vault == ctx.vault,
        quote_sell_spec(l.sol_reserve, l.token_reserve, args.amount_in) matches Ok((g, _, _)) && {
            &&& g - (g as int) * (l.fee_bps as int) / 10000 >= args.min_amount_out
            &&& b.launch >= rent_minimum + g
            &&& b.user + g <= u64::MAX
            &&& b.dev_wallet + g <= u64::MAX
        },
    ensures
        ({
            let (_, ns, nt) = quote_sell_spec(l.sol_reserve, l.token_reserve, args.amount_in)->Ok_0;
            sell_spec(ctx, l, b, rent_minimum, args) matches Ok((nl, _, _)) && {
                &&& nl.graduated
                &&& nl.sol_reserve == ns
                &&& nl.token_reserve == nt
            }
        }),
{
    let (g, _, _) = quote_sell_spec(l.sol_reserve, l.token_reserve, args.amount_in)->Ok_0;
    lemma_fee_within(g, l.fee_bps);
}

} // verus!
