use vstd::prelude::*;

use crate::constants::{BASIS_POINTS_DENOMINATOR, DISPUTE_BOND_BASIS_POINTS, FEE_BASIS_POINTS};
use crate::errors::EscrowError;

verus! {

/// The 1% fee owed on a principal: basis-point formula with truncating
/// integer division.
pub open spec fn spec_fee(amount: u64) -> int {
    amount * FEE_BASIS_POINTS / (BASIS_POINTS_DENOMINATOR as int)
}

/// The 5% bond owed by a party entering a dispute.
pub open spec fn spec_dispute_bond(amount: u64) -> int {
    amount * DISPUTE_BOND_BASIS_POINTS / (BASIS_POINTS_DENOMINATOR as int)
}

/// Scaling a principal by a basis-point rate of at most the denominator never
/// exceeds the principal.
pub proof fn lemma_basis_points_le_amount(amount: u64, rate: u64)
    requires
        rate <= BASIS_POINTS_DENOMINATOR,
    ensures
        amount * rate / (BASIS_POINTS_DENOMINATOR as int) <= amount,
{
    assert(amount * rate <= amount * BASIS_POINTS_DENOMINATOR) by (nonlinear_arith)
        requires
            rate <= BASIS_POINTS_DENOMINATOR,
            amount >= 0,
    ;
    vstd::arithmetic::div_mod::lemma_div_is_ordered(
        amount * rate,
        amount * BASIS_POINTS_DENOMINATOR,
        BASIS_POINTS_DENOMINATOR as int,
    );
    vstd::arithmetic::div_mod::lemma_div_multiples_vanish(
        amount as int,
        BASIS_POINTS_DENOMINATOR as int,
    );
}

/// The fee on a principal, or an arithmetic error where `amount` scaled by the
/// fee rate cannot be represented in 64 bits. For any principal the engine
/// accepts (`amount <= MAX_AMOUNT`) the computation always succeeds.
pub fn calculate_fee(amount: u64) -> (r: Result<u64, EscrowError>)
    ensures
        amount * FEE_BASIS_POINTS <= u64::MAX ==> r == Ok::<u64, EscrowError>(
            (spec_fee(amount)) as u64,
        ),
        amount * FEE_BASIS_POINTS > u64::MAX ==> r == Err::<u64, EscrowError>(
            EscrowError::FeeCalculationError,
        ),
{
    if amount > u64::MAX / FEE_BASIS_POINTS {
        proof {
            assert(amount * FEE_BASIS_POINTS > u64::MAX) by (nonlinear_arith)
                requires
                    amount > u64::MAX / FEE_BASIS_POINTS,
            ;
        }
        Err(EscrowError::FeeCalculationError)
    } else {
        proof {
            assert(amount * FEE_BASIS_POINTS <= u64::MAX) by (nonlinear_arith)
                requires
                    amount <= u64::MAX / FEE_BASIS_POINTS,
            ;
        }
        Ok(amount * FEE_BASIS_POINTS / BASIS_POINTS_DENOMINATOR)
    }
}

/// The dispute bond on a principal, or an arithmetic error where the scaled
/// value cannot be represented. Always succeeds for accepted principals.
pub fn calculate_dispute_bond(amount: u64) -> (r: Result<u64, EscrowError>)
    ensures
        amount * DISPUTE_BOND_BASIS_POINTS <= u64::MAX ==> r == Ok::<u64, EscrowError>(
            (spec_dispute_bond(amount)) as u64,
        ),
        amount * DISPUTE_BOND_BASIS_POINTS > u64::MAX ==> r == Err::<u64, EscrowError>(
            EscrowError::FeeCalculationError,
        ),
{
    if amount > u64::MAX / DISPUTE_BOND_BASIS_POINTS {
        proof {
            assert(amount * DISPUTE_BOND_BASIS_POINTS > u64::MAX) by (nonlinear_arith)
                requires
                    amount > u64::MAX / DISPUTE_BOND_BASIS_POINTS,
            ;
        }
        Err(EscrowError::FeeCalculationError)
    } else {
        proof {
            assert(amount * DISPUTE_BOND_BASIS_POINTS <= u64::MAX) by (nonlinear_arith)
                requires
                    amount <= u64::MAX / DISPUTE_BOND_BASIS_POINTS,
            ;
        }
        Ok(amount * DISPUTE_BOND_BASIS_POINTS / BASIS_POINTS_DENOMINATOR)
    }
}

} // verus!
