use vstd::prelude::*;

use crate::curve::{quote_buy, quote_sell};
use crate::error::ErrorCode;
use crate::launch::{
    buy_spec, create_launch_spec, sell_spec, Balances, Bought, Buy, CreateLaunch, CreateLaunchArgs,
    Launch, LaunchCreated, Sell, Sold, TradeArgs,
};
use crate::math::mul_div_u64;
use crate::{BOND_TARGET_LAMPORTS, BPS_DENOMINATOR, MAX_FEE_BPS};

verus! {

/// Sets up a launch: its bindings, no lamport reserve, the initial token
/// reserve, and not graduated. Refused when the fee rate is above the maximum.
pub fn create_launch(ctx: &CreateLaunch, args: CreateLaunchArgs) -> (r: Result<
    (Launch, LaunchCreated),
    ErrorCode,
>)
    ensures
        r == create_launch_spec(*ctx, args),
        r is Err <==> args.fee_bps > MAX_FEE_BPS,
        r matches Ok((l, _)) ==> l.wf(),
{
    if args.fee_bps > MAX_FEE_BPS {
        return Err(ErrorCode::FeeTooHigh);
    }
    let launch = Launch {
        bump: ctx.launch_bump,
        mint: ctx.mint,
        vault: ctx.vault,
        dev_wallet: ctx.dev_wallet,
        creator: ctx.creator,
        fee_bps: args.fee_bps,
        graduated: false,
        sol_reserve: 0,
        token_reserve: args.initial_token_reserve,
    };
    let event = LaunchCreated {
        launch: ctx.launch,
        mint: launch.mint,
        vault: launch.vault,
        creator: launch.creator,
        dev_wallet: launch.dev_wallet,
        fee_bps: launch.fee_bps,
        token_reserve: launch.token_reserve,
        sol_reserve: launch.sol_reserve,
    };
    Ok((launch, event))
}

/// Buys tokens with `args.amount_in` lamports, which have already reached the
/// launch account. The fee goes from the launch to the dev wallet, the rest
/// is priced on the curve, and the reserves are committed. On any refusal
/// nothing changes.
pub fn buy(ctx: &Buy, launch: &mut Launch, balances: &mut Balances, args: TradeArgs) -> (r: Result<
    Bought,
    ErrorCode,
>)
    ensures
        match buy_spec(*ctx, *old(launch), *old(balances), args) {
            Ok((l, b, ev)) => {
                &&& r == Ok::<Bought, ErrorCode>(ev)
                &&& *final(launch) == l
                &&& *final(balances) == b
            },
            Err(e) => {
                &&& r == Err::<Bought, ErrorCode>(e)
                &&& *final(launch) == *old(launch)
                &&& *final(balances) == *old(balances)
            },
        },
        old(launch).wf() ==> final(launch).wf(),
        old(launch).graduated ==> final(launch).graduated,
        old(launch).graduated ==> r == Err::<Bought, ErrorCode>(ErrorCode::AlreadyGraduated),
{
    if launch.graduated {
        return Err(ErrorCode::AlreadyGraduated);
    }
    if args.amount_in == 0 {
        return Err(ErrorCode::ZeroAmount);
    }
    if !launch.mint.same(&ctx.mint) {
        return Err(ErrorCode::BadMint);
    }
    if !launch.vault.same(&ctx.vault) {
        return Err(ErrorCode::BadVault);
    }
    let fee_lamports: u64 = match mul_div_u64(
        args.amount_in,
        launch.fee_bps as u64,
        BPS_DENOMINATOR,
    ) {
        Ok(f) => f,
        Err(e) => return Err(e),
    };
    let launch_lamports: u64 = match balances.launch.checked_sub(fee_lamports) {
        Some(v) => v,
        None => return Err(ErrorCode::MathOverflow),
    };
    let dev_lamports: u64 = match balances.dev_wallet.checked_add(fee_lamports) {
        Some(v) => v,
        None => return Err(ErrorCode::MathOverflow),
    };
    let sol_in_post_fee: u64 = match args.amount_in.checked_sub(fee_lamports) {
        Some(v) => v,
        None => return Err(ErrorCode::MathOverflow),
    };
    let (tokens_out, new_sol_reserve, new_token_reserve) = match quote_buy(
        launch.sol_reserve,
        launch.token_reserve,
        sol_in_post_fee,
    ) {
        Ok(q) => q,
        Err(e) => return Err(e),
    };
    if tokens_out < args.min_amount_out {
        return Err(ErrorCode::SlippageExceeded);
    }
    balances.launch = launch_lamports;
    balances.dev_wallet = dev_lamports;
    launch.sol_reserve = new_sol_reserve;
    launch.token_reserve = new_token_reserve;
    if launch.sol_reserve >= BOND_TARGET_LAMPORTS {
        launch.graduated = true;
    }
    Ok(
        Bought {
            launch: ctx.launch,
            user: ctx.user,
            sol_in: args.amount_in,
            fee_lamports,
            tokens_out,
            sol_reserve: launch.sol_reserve,
            token_reserve: launch.token_reserve,
            graduated: launch.graduated,
        },
    )
}

/// Sells `args.amount_in` tokens, which have already reached the vault. The
/// gross lamport output is priced on the curve, the fee is taken from it, and
/// the launch pays the seller and the dev wallet while keeping
/// `rent_minimum` lamports. On any refusal nothing changes. A graduated
/// launch still sells.
pub fn sell(
    ctx: &Sell,
    launch: &mut Launch,
    balances: &mut Balances,
    rent_minimum: u64,
    args: TradeArgs,
) -> (r: Result<Sold, ErrorCode>)
    ensures
        match sell_spec(*ctx, *old(launch), *old(balances), rent_minimum, args) {
            Ok((l, b, ev)) => {
                &&& r == Ok::<Sold, ErrorCode>(ev)
                &&& *final(launch) == l
                &&& *final(balances) == b
            },
            Err(e) => {
                &&& r == Err::<Sold, ErrorCode>(e)
                &&& *final(launch) == *old(launch)
                &&& *final(balances) == *old(balances)
            },
        },
        old(launch).wf() ==> final(launch).wf(),
        old(launch).graduated ==> final(launch).graduated,
        r is Ok ==> final(balances).launch >= rent_minimum,
{
    if args.amount_in == 0 {
        return Err(ErrorCode::ZeroAmount);
    }
    if !launch.mint.same(&ctx.mint) {
        return Err(ErrorCode::BadMint);
    }
    if !launch.vault.same(&ctx.vault) {
        return Err(ErrorCode::BadVault);
    }
    let (sol_out_gross, new_sol_reserve, new_token_reserve) = match quote_sell(
        launch.sol_reserve,
        launch.token_reserve,
        args.amount_in,
    ) {
        Ok(q) => q,
        Err(e) => return Err(e),
    };
    let fee_lamports: u64 = match mul_div_u64(
        sol_out_gross,
        launch.fee_bps as u64,
        BPS_DENOMINATOR,
    ) {
        Ok(f) => f,
        Err(e) => return Err(e),
    };
    let sol_out_net: u64 = match sol_out_gross.checked_sub(fee_lamports) {
        Some(v) => v,
        None => return Err(ErrorCode::MathOverflow),
    };
    if sol_out_net < args.min_amount_out {
        return Err(ErrorCode::SlippageExceeded);
    }
    // The launch account must stay rent-exempt after paying out.
    let available: u64 = match balances.launch.checked_sub(rent_minimum) {
        Some(v) => v,
        None => return Err(ErrorCode::InsufficientLiquidity),
    };
    if available < sol_out_gross {
        return Err(ErrorCode::InsufficientLiquidity);
    }
    let launch_lamports: u64 = balances.launch - sol_out_gross;
    let user_lamports: u64 = match balances.user.checked_add(sol_out_net) {
        Some(v) => v,
        None => return Err(ErrorCode::MathOverflow),
    };
    let dev_lamports: u64 = match balances.dev_wallet.checked_add(fee_lamports) {
        Some(v) => v,
        None => return Err(ErrorCode::MathOverflow),
    };
    balances.launch = launch_lamports;
    balances.user = user_lamports;
    balances.dev_wallet = dev_lamports;
    launch.sol_reserve = new_sol_reserve;
    launch.token_reserve = new_token_reserve;
    if launch.sol_reserve >= BOND_TARGET_LAMPORTS {
        launch.graduated = true;
    }
    Ok(
        Sold {
            launch: ctx.launch,
            user: ctx.user,
            tokens_in: args.amount_in,
            sol_out_gross,
            fee_lamports,
            sol_out_net,
            sol_reserve: launch.sol_reserve,
            token_reserve: launch.token_reserve,
            graduated: launch.graduated,
        },
    )
}

} // verus!
