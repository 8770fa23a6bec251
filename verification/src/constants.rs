use vstd::prelude::*;

verus! {

/// Largest principal the engine accepts: 100 units at six implied decimals.
pub const MAX_AMOUNT: u64 = 100_000_000;

/// Escrow fee rate in basis points (1%), charged once at creation.
pub const FEE_BASIS_POINTS: u64 = 100;

/// Dispute bond rate in basis points (5% of the principal).
pub const DISPUTE_BOND_BASIS_POINTS: u64 = 500;

/// Denominator of the basis-point formulas.
pub const BASIS_POINTS_DENOMINATOR: u64 = 10000;

/// Seconds the buyer has to fund the escrow after creation (15 minutes).
pub const DEPOSIT_DEADLINE_SECONDS: i64 = 15 * 60;

/// Seconds the seller has to confirm fiat receipt after funding (30 minutes).
pub const FIAT_DEADLINE_SECONDS: i64 = 30 * 60;

/// Seconds after a dispute opens in which each party may submit evidence
/// (72 hours). The same window, measured from the fiat deadline, bounds how
/// late a dispute may still be opened.
pub const DISPUTE_RESPONSE_WINDOW_SECONDS: i64 = 72 * 3600;

/// Seconds after a dispute opens in which the arbitrator may resolve it
/// (168 hours).
pub const ARBITRATION_WINDOW_SECONDS: i64 = 168 * 3600;

} // verus!
