use vstd::prelude::*;

use crate::constants::{DEPOSIT_DEADLINE_SECONDS, FEE_BASIS_POINTS, FIAT_DEADLINE_SECONDS,
    MAX_AMOUNT};
use crate::errors::EscrowError;
use crate::fees::{calculate_fee, lemma_basis_points_le_amount, spec_fee};
use crate::record::{Escrow, EscrowState, Identity};
use crate::transition::{create_spec, step, payout_spec, refund_spec, Op, Payout, Refund};

verus! {

/// Creates the record for one trade: validates the principal and the
/// sequential address, computes the immutable 1% fee and the deposit
/// deadline (creation time plus fifteen minutes), and starts the lifecycle
/// in `Created` with version counter zero.
pub fn create_escrow(
    escrow_id: u64,
    trade_id: u64,
    seller: Identity,
    buyer: Identity,
    arbitrator: Identity,
    amount: u64,
    sequential: bool,
    sequential_escrow_address: Option<Identity>,
    now: i64,
) -> (r: Result<Escrow, EscrowError>)
    ensures
        r == create_spec(
            escrow_id,
            trade_id,
            seller,
            buyer,
            arbitrator,
            amount,
            sequential,
            sequential_escrow_address,
            now,
        ),
        (r matches Ok(rec) ==> {
            &&& rec.wf()
            &&& rec.state == EscrowState::Created
            &&& rec.counter == 0
            &&& rec.amount == amount
            &&& rec.fee == spec_fee(amount)
            &&& rec.deposit_deadline == now + DEPOSIT_DEADLINE_SECONDS
            &&& rec.fiat_deadline.is_none()
            &&& rec.seller == seller
            &&& rec.buyer == buyer
            &&& rec.arbitrator == arbitrator
        }),
{
    if amount == 0 {
        return Err(EscrowError::InvalidAmount);
    }
    if amount > MAX_AMOUNT {
        return Err(EscrowError::ExceedsMaximum);
    }
    if sequential && sequential_escrow_address.is_none() {
        return Err(EscrowError::MissingSequentialAddress);
    }
    let fee: u64 = match calculate_fee(amount) {
        Ok(f) => f,
        Err(e) => {
            return Err(e);
        },
    };
    if now > i64::MAX - DEPOSIT_DEADLINE_SECONDS {
        return Err(EscrowError::FeeCalculationError);
    }
    let deposit_deadline: i64 = now + DEPOSIT_DEADLINE_SECONDS;
    Ok(
        Escrow {
            escrow_id,
            trade_id,
            seller,
            buyer,
            arbitrator,
            amount,
            fee,
            sequential,
            sequential_escrow_address,
            state: EscrowState::Created,
            deposit_deadline,
            fiat_deadline: None,
            fiat_paid: false,
            dispute_initiated_time: None,
            dispute_initiator: None,
            dispute_evidence_hash_buyer: None,
            dispute_evidence_hash_seller: None,
            dispute_resolution_hash: None,
            counter: 0,
        },
    )
}

impl Escrow {
    /// Funding by the buyer, strictly before the deposit deadline. On success
    /// the record moves to `Funded`, the fiat deadline is set thirty minutes
    /// after `now`, and the counter increments; custody of principal plus fee
    /// is the collaborator's part of the same atomic unit of work.
    pub fn fund(&mut self, caller: Identity, now: i64, expected_counter: u64) -> (r: Result<
        (),
        EscrowError,
    >)
        requires
            old(self).wf(),
        ensures
            final(self).wf(),
            (match r {
                Ok(()) => step(*old(self), Op::Fund, caller, now, expected_counter)
                    == Ok::<Escrow, EscrowError>(*final(self)),
                Err(e) => step(*old(self), Op::Fund, caller, now, expected_counter)
                    == Err::<Escrow, EscrowError>(e) && *final(self) == *old(self),
            }),
            (r matches Ok(()) ==> {
                &&& final(self).state == EscrowState::Funded
                &&& final(self).fiat_deadline == Some((now + FIAT_DEADLINE_SECONDS) as i64)
                &&& final(self).counter == old(self).counter + 1
            }),
    {
        if expected_counter != self.counter {
            return Err(EscrowError::InvalidState);
        }
        if caller != self.buyer {
            return Err(EscrowError::Unauthorized);
        }
        if self.state.is_terminal() {
            return Err(EscrowError::TerminalState);
        }
        if self.state != EscrowState::Created {
            return Err(EscrowError::InvalidState);
        }
        if now >= self.deposit_deadline {
            return Err(EscrowError::DepositDeadlineExpired);
        }
        if now > i64::MAX - FIAT_DEADLINE_SECONDS {
            return Err(EscrowError::FeeCalculationError);
        }
        if self.counter == u64::MAX {
            return Err(EscrowError::FeeCalculationError);
        }
        self.state = EscrowState::Funded;
        self.fiat_deadline = Some(now + FIAT_DEADLINE_SECONDS);
        self.counter = self.counter + 1;
        Ok(())
    }

    /// Fiat confirmation by the seller, strictly before the fiat deadline.
    /// Sets `fiat_paid`; the state stays `Funded`.
    pub fn confirm_fiat(&mut self, caller: Identity, now: i64, expected_counter: u64) -> (r:
        Result<(), EscrowError>)
        requires
            old(self).wf(),
        ensures
            final(self).wf(),
            (match r {
                Ok(()) => step(*old(self), Op::ConfirmFiat, caller, now, expected_counter)
                    == Ok::<Escrow, EscrowError>(*final(self)),
                Err(e) => step(*old(self), Op::ConfirmFiat, caller, now, expected_counter)
                    == Err::<Escrow, EscrowError>(e) && *final(self) == *old(self),
            }),
            (r matches Ok(()) ==> {
                &&& final(self).state == EscrowState::Funded
                &&& final(self).fiat_paid
                &&& final(self).counter == old(self).counter + 1
            }),
    {
        if expected_counter != self.counter {
            return Err(EscrowError::InvalidState);
        }
        if caller != self.seller {
            return Err(EscrowError::Unauthorized);
        }
        if self.state.is_terminal() {
            return Err(EscrowError::TerminalState);
        }
        if self.state != EscrowState::Funded {
            return Err(EscrowError::InvalidState);
        }
        let fd: i64 = match self.fiat_deadline {
            Some(d) => d,
            None => {
                return Err(EscrowError::InvalidState);
            },
        };
        if now >= fd {
            return Err(EscrowError::FiatDeadlineExpired);
        }
        if self.counter == u64::MAX {
            return Err(EscrowError::FeeCalculationError);
        }
        self.fiat_paid = true;
        self.counter = self.counter + 1;
        Ok(())
    }

    /// Release by the seller once fiat is confirmed. On success the record is
    /// terminal (`Released`) and the returned payout is the requested fund
    /// movement: principal less fee to the buyer — or to the sequential
    /// escrow address when the record is sequential — and the fee to the
    /// protocol fee sink.
    pub fn release(&mut self, caller: Identity, now: i64, expected_counter: u64) -> (r: Result<
        Payout,
        EscrowError,
    >)
        requires
            old(self).wf(),
        ensures
            final(self).wf(),
            (match r {
                Ok(payout) => step(*old(self), Op::Release, caller, now, expected_counter)
                    == Ok::<Escrow, EscrowError>(*final(self)) && payout == payout_spec(
                    *old(self),
                ),
                Err(e) => step(*old(self), Op::Release, caller, now, expected_counter)
                    == Err::<Escrow, EscrowError>(e) && *final(self) == *old(self),
            }),
            (r matches Ok(payout) ==> {
                &&& final(self).state == EscrowState::Released
                &&& final(self).counter == old(self).counter + 1
                &&& payout.units == old(self).amount - old(self).fee
                &&& payout.fee_units == old(self).fee
                &&& payout.units + payout.fee_units == old(self).amount
                &&& (old(self).sequential ==> payout.recipient
                    == old(self).sequential_escrow_address.unwrap())
                &&& (!old(self).sequential ==> payout.recipient == old(self).buyer)
            }),
    {
        if expected_counter != self.counter {
            return Err(EscrowError::InvalidState);
        }
        if caller != self.seller {
            return Err(EscrowError::Unauthorized);
        }
        if self.state.is_terminal() {
            return Err(EscrowError::TerminalState);
        }
        if self.state != EscrowState::Funded {
            return Err(EscrowError::InvalidState);
        }
        if !self.fiat_paid {
            return Err(EscrowError::InvalidState);
        }
        if self.counter == u64::MAX {
            return Err(EscrowError::FeeCalculationError);
        }
        proof {
            lemma_basis_points_le_amount(self.amount, FEE_BASIS_POINTS);
        }
        let recipient: Identity = if self.sequential {
            match self.sequential_escrow_address {
                Some(a) => a,
                None => {
                    // wf rules this out: sequential implies an address.
                    assert(false);
                    self.buyer
                },
            }
        } else {
            self.buyer
        };
        let payout = Payout { recipient, units: self.amount - self.fee, fee_units: self.fee };
        self.state = EscrowState::Released;
        self.counter = self.counter + 1;
        Ok(payout)
    }

    /// Cancellation. Before funding, open to anyone once the deposit deadline
    /// has been reached; after funding, open to buyer or seller once the fiat
    /// deadline has been reached and only while fiat is unconfirmed. On
    /// success the record is terminal (`Cancelled`) and the returned refund is
    /// the requested fund movement to the seller.
    pub fn cancel(&mut self, caller: Identity, now: i64, expected_counter: u64) -> (r: Result<
        Refund,
        EscrowError,
    >)
        requires
            old(self).wf(),
        ensures
            final(self).wf(),
            (match r {
                Ok(refund) => step(*old(self), Op::Cancel, caller, now, expected_counter)
                    == Ok::<Escrow, EscrowError>(*final(self)) && refund == refund_spec(
                    *old(self),
                ),
                Err(e) => step(*old(self), Op::Cancel, caller, now, expected_counter)
                    == Err::<Escrow, EscrowError>(e) && *final(self) == *old(self),
            }),
            (r matches Ok(refund) ==> {
                &&& final(self).state == EscrowState::Cancelled
                &&& final(self).counter == old(self).counter + 1
                &&& refund.recipient == old(self).seller
                &&& (old(self).state == EscrowState::Created ==> refund.units
                    == old(self).amount)
                &&& (old(self).state == EscrowState::Funded ==> refund.units
                    == old(self).amount + old(self).fee)
            }),
    {
        if expected_counter != self.counter {
            return Err(EscrowError::InvalidState);
        }
        if self.state == EscrowState::Funded && !(caller == self.buyer || caller == self.seller) {
            return Err(EscrowError::Unauthorized);
        }
        if self.state.is_terminal() {
            return Err(EscrowError::TerminalState);
        }
        if self.state == EscrowState::Created {
            if now < self.deposit_deadline {
                return Err(EscrowError::InvalidState);
            }
            if self.counter == u64::MAX {
                return Err(EscrowError::FeeCalculationError);
            }
            let refund = Refund { recipient: self.seller, units: self.amount };
            self.state = EscrowState::Cancelled;
            self.counter = self.counter + 1;
            return Ok(refund);
        }
        if self.state != EscrowState::Funded {
            return Err(EscrowError::InvalidState);
        }
        if self.fiat_paid {
            return Err(EscrowError::InvalidState);
        }
        let fd: i64 = match self.fiat_deadline {
            Some(d) => d,
            None => {
                return Err(EscrowError::InvalidState);
            },
        };
        if now < fd {
            return Err(EscrowError::InvalidState);
        }
        if self.counter == u64::MAX {
            return Err(EscrowError::FeeCalculationError);
        }
        proof {
            lemma_basis_points_le_amount(self.amount, FEE_BASIS_POINTS);
        }
        let refund = Refund { recipient: self.seller, units: self.amount + self.fee };
        self.state = EscrowState::Cancelled;
        self.counter = self.counter + 1;
        Ok(refund)
    }
}

} // verus!
