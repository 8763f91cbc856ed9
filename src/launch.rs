use vstd::prelude::*;

use crate::curve::{quote_buy_spec, quote_sell_spec};
use crate::error::ErrorCode;
use crate::math::mul_div_spec;
use crate::{BOND_TARGET_LAMPORTS, BPS_DENOMINATOR, MAX_FEE_BPS};

verus! {

/// A 32-byte account identity.
#[derive(Clone, Copy, Debug, PartialEq, Eq)]
pub struct Address {
    pub bytes: [u8; 32],
}

impl Address {
    /// Byte-wise comparison of two identities.
    pub fn same(&self, other: &Address) -> (r: bool)
        ensures
            r == (*self == *other),
    {
        let mut i: usize = 0;
        while i < 32
            invariant
                i <= 32,
                forall|j: int| 0 <= j < i ==> self.bytes@[j] == other.bytes@[j],
            decreases 32 - i,
        {
            if self.bytes[i] != other.bytes[i] {
                return false;
            }
            i = i + 1;
        }
        assert(self.bytes =~= other.bytes);
        true
    }
}

/// The state of one launch: its bindings, its fee rate and its reserves.
#[derive(Clone, Copy, Debug, PartialEq, Eq)]
pub struct Launch {
    pub bump: u8,
    pub mint: Address,
    pub vault: Address,
    pub dev_wallet: Address,
    pub creator: Address,
    pub fee_bps: u16,
    pub graduated: bool,
    pub sol_reserve: u64,
    pub token_reserve: u64,
}

impl Launch {
    /// The fee rate is within bounds, and a launch whose lamport reserve has
    /// reached the target is graduated.
    pub open spec fn wf(&self) -> bool {
        &&& self.fee_bps <= MAX_FEE_BPS
        &&& self.sol_reserve >= BOND_TARGET_LAMPORTS ==> self.graduated
    }
}

/// Parameters of a new launch.
#[derive(Clone, Copy, Debug, PartialEq, Eq)]
pub struct CreateLaunchArgs {
    pub fee_bps: u16,
    pub initial_token_reserve: u64,
}

/// Parameters of a trade. For a buy `amount_in` is in lamports and
/// `min_amount_out` in token base units; for a sale the other way round.
#[derive(Clone, Copy, Debug, PartialEq, Eq)]
pub struct TradeArgs {
    pub amount_in: u64,
    pub min_amount_out: u64,
}

/// The accounts that take part in creating a launch, and the bump seed of the
/// launch's derived address.
#[derive(Clone, Copy, Debug, PartialEq, Eq)]
pub struct CreateLaunch {
    pub creator: Address,
    pub dev_wallet: Address,
    pub launch: Address,
    pub launch_bump: u8,
    pub mint: Address,
    pub vault: Address,
}

/// The accounts named by a buy.
#[derive(Clone, Copy, Debug, PartialEq, Eq)]
pub struct Buy {
    pub user: Address,
    pub dev_wallet: Address,
    pub launch: Address,
    pub mint: Address,
    pub vault: Address,
}

/// The accounts named by a sale.
#[derive(Clone, Copy, Debug, PartialEq, Eq)]
pub struct Sell {
    pub user: Address,
    pub dev_wallet: Address,
    pub launch: Address,
    pub mint: Address,
    pub vault: Address,
}

/// Lamport balances of the accounts that a trade pays between. For a buy,
/// `launch` is read after the buyer's lamports have arrived.
#[derive(Clone, Copy, Debug, PartialEq, Eq)]
pub struct Balances {
    pub launch: u64,
    pub user: u64,
    pub dev_wallet: u64,
}

/// Emitted when a launch is created.
#[derive(Clone, Copy, Debug, PartialEq, Eq)]
pub struct LaunchCreated {
    pub launch: Address,
    pub mint: Address,
    pub vault: Address,
    pub creator: Address,
    pub dev_wallet: Address,
    pub fee_bps: u16,
    pub token_reserve: u64,
    pub sol_reserve: u64,
}

/// Emitted when a buy settles.
#[derive(Clone, Copy, Debug, PartialEq, Eq)]
pub struct Bought {
    pub launch: Address,
    pub user: Address,
    pub sol_in: u64,
    pub fee_lamports: u64,
    pub tokens_out: u64,
    pub sol_reserve: u64,
    pub token_reserve: u64,
    pub graduated: bool,
}

/// Emitted when a sale settles.
#[derive(Clone, Copy, Debug, PartialEq, Eq)]
pub struct Sold {
    pub launch: Address,
    pub user: Address,
    pub tokens_in: u64,
    pub sol_out_gross: u64,
    pub fee_lamports: u64,
    pub sol_out_net: u64,
    pub sol_reserve: u64,
    pub token_reserve: u64,
    pub graduated: bool,
}

/// The fee on `amount` at `fee_bps`: `floor(amount * fee_bps / 10000)`.
pub open spec fn fee_spec(amount: u64, fee_bps: u16) -> Result<u64, ErrorCode> {
    mul_div_spec(amount, fee_bps as u64, BPS_DENOMINATOR)
}

/// A launch with new reserves; it graduates once the lamport reserve reaches
/// the target.
pub open spec fn with_reserves(l: Launch, sol_reserve: u64, token_reserve: u64) -> Launch {
    Launch {
        sol_reserve,
        token_reserve,
        graduated: l.graduated || sol_reserve >= BOND_TARGET_LAMPORTS,
        ..l
    }
}

/// What creating a launch yields: its state and its event.
pub open spec fn create_launch_spec(ctx: CreateLaunch, args: CreateLaunchArgs) -> Result<
    (Launch, LaunchCreated),
    ErrorCode,
> {
    if args.fee_bps > MAX_FEE_BPS {
        Err(ErrorCode::FeeTooHigh)
    } else {
        Ok(
            (
                Launch {
                    bump: ctx.launch_bump,
                    mint: ctx.mint,
                    vault: ctx.vault,
                    dev_wallet: ctx.dev_wallet,
                    creator: ctx.creator,
                    fee_bps: args.fee_bps,
                    graduated: false,
                    sol_reserve: 0,
                    token_reserve: args.initial_token_reserve,
                },
                LaunchCreated {
                    launch: ctx.launch,
                    mint: ctx.mint,
                    vault: ctx.vault,
                    creator: ctx.creator,
                    dev_wallet: ctx.dev_wallet,
                    fee_bps: args.fee_bps,
                    token_reserve: args.initial_token_reserve,
                    sol_reserve: 0,
                },
            ),
        )
    }
}

/// What a buy yields: the launch, the balances and the event after it.
pub open spec fn buy_spec(ctx: Buy, l: Launch, b: Balances, args: TradeArgs) -> Result<
    (Launch, Balances, Bought),
    ErrorCode,
> {
    if l.graduated {
        Err(ErrorCode::AlreadyGraduated)
    } else if args.amount_in == 0 {
        Err(ErrorCode::ZeroAmount)
    } else if l.mint != ctx.mint {
        Err(ErrorCode::BadMint)
    } else if l.vault != ctx.vault {
        Err(ErrorCode::BadVault)
    } else {
        match fee_spec(args.amount_in, l.fee_bps) {
            Err(e) => Err(e),
            Ok(fee) => {
                if fee > b.launch || b.dev_wallet + fee > u64::MAX || fee > args.amount_in {
                    Err(ErrorCode::MathOverflow)
                } else {
                    match quote_buy_spec(
                        l.sol_reserve,
                        l.token_reserve,
                        (args.amount_in - fee) as u64,
                    ) {
                        Err(e) => Err(e),
                        Ok((out, ns, nt)) => {
                            if out < args.min_amount_out {
                                Err(ErrorCode::SlippageExceeded)
                            } else {
                                let nl = with_reserves(l, ns, nt);
                                Ok(
                                    (
                                        nl,
                                        Balances {
                                            launch: (b.launch - fee) as u64,
                                            dev_wallet: (b.dev_wallet + fee) as u64,
                                            ..b
                                        },
                                        Bought {
                                            launch: ctx.launch,
                                            user: ctx.user,
                                            sol_in: args.amount_in,
                                            fee_lamports: fee,
                                            tokens_out: out,
                                            sol_reserve: ns,
                                            token_reserve: nt,
                                            graduated: nl.graduated,
                                        },
                                    ),
                                )
                            }
                        },
                    }
                }
            },
        }
    }
}

/// What a sale yields: the launch, the balances and the event after it.
/// `rent_minimum` is the balance the launch account must keep.
pub open spec fn sell_spec(
    ctx: Sell,
    l: Launch,
    b: Balances,
    rent_minimum: u64,
    args: TradeArgs,
) -> Result<(Launch, Balances, Sold), ErrorCode> {
    if args.amount_in == 0 {
        Err(ErrorCode::ZeroAmount)
    } else if l.mint != ctx.mint {
        Err(ErrorCode::BadMint)
    } else if l.vault != ctx.vault {
        Err(ErrorCode::BadVault)
    } else {
        match quote_sell_spec(l.sol_reserve, l.token_reserve, args.amount_in) {
            Err(e) => Err(e),
            Ok((gross, ns, nt)) => match fee_spec(gross, l.fee_bps) {
                Err(e) => Err(e),
                Ok(fee) => {
                    if fee > gross {
                        Err(ErrorCode::MathOverflow)
                    } else if gross - fee < args.min_amount_out {
                        Err(ErrorCode::SlippageExceeded)
                    } else if rent_minimum > b.launch || b.launch - rent_minimum < gross {
                        Err(ErrorCode::InsufficientLiquidity)
                    } else if b.user + (gross - fee) > u64::MAX || b.dev_wallet + fee > u64::MAX {
                        Err(ErrorCode::MathOverflow)
                    } else {
                        let nl = with_reserves(l, ns, nt);
                        Ok(
                            (
                                nl,
                                Balances {
                                    launch: (b.launch - gross) as u64,
                                    user: (b.user + (gross - fee)) as u64,
                                    dev_wallet: (b.dev_wallet + fee) as u64,
                                },
                                Sold {
                                    launch: ctx.launch,
                                    user: ctx.user,
                                    tokens_in: args.amount_in,
                                    sol_out_gross: gross,
                                    fee_lamports: fee,
                                    sol_out_net: (gross - fee) as u64,
                                    sol_reserve: ns,
                                    token_reserve: nt,
                                    graduated: nl.graduated,
                                },
                            ),
                        )
                    }
                },
            },
        }
    }
}

} // verus!
