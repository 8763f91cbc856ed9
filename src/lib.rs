//! Pricing, fee accounting and state transitions of a single-pool bonding
//! curve: a token is priced against lamports on a constant-product curve
//! seeded with virtual reserves, and the pool graduates once its lamport
//! reserve reaches a fixed target.
use vstd::prelude::*;

pub mod curve;
pub mod error;
pub mod launch;
pub mod laws;
pub mod math;
pub mod trade;

verus! {

/// Highest fee a launch may charge, in basis points (10%).
pub const MAX_FEE_BPS: u16 = 1_000;

/// Lamport reserve at which a launch graduates (100 SOL).
pub const BOND_TARGET_LAMPORTS: u64 = 100_000_000_000;

/// Lamports added to the actual reserve inside the pricing math only (0.1 SOL).
pub const VIRTUAL_SOL_LAMPORTS: u64 = 100_000_000;

/// Token base units added to the actual reserve inside the pricing math only
/// (one billion tokens at six decimals).
pub const VIRTUAL_TOKEN_BASE_UNITS: u64 = 1_000_000_000_000_000;

/// Basis points in one whole.
pub const BPS_DENOMINATOR: u64 = 10_000;

} // verus!
