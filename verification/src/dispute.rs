use vstd::prelude::*;

use crate::constants::{ARBITRATION_WINDOW_SECONDS, BASIS_POINTS_DENOMINATOR,
    DISPUTE_BOND_BASIS_POINTS, DISPUTE_RESPONSE_WINDOW_SECONDS, FEE_BASIS_POINTS};
use crate::errors::EscrowError;
use crate::fees::{lemma_basis_points_le_amount, spec_dispute_bond};
use crate::record::{Escrow, EscrowState, Hash32, Identity};
use crate::transition::{posted_bonds_total, resolution_outcome_spec, step, Op,
    ResolutionDecision, ResolutionOutcome};

verus! {

impl Escrow {
    /// Opens a dispute from `Funded`, by buyer or seller, at or before the
    /// fiat deadline plus the 72-hour response window. The caller must
    /// present exactly the 5% bond; on success the record moves to
    /// `Disputed` with the caller recorded as initiator.
    pub fn open_dispute(
        &mut self,
        caller: Identity,
        now: i64,
        expected_counter: u64,
        bond: u64,
    ) -> (r: Result<(), EscrowError>)
        requires
            old(self).wf(),
        ensures
            final(self).wf(),
            (match r {
                Ok(()) => step(*old(self), Op::OpenDispute { bond }, caller, now, expected_counter)
                    == Ok::<Escrow, EscrowError>(*final(self)),
                Err(e) => step(*old(self), Op::OpenDispute { bond }, caller, now, expected_counter)
                    == Err::<Escrow, EscrowError>(e) && *final(self) == *old(self),
            }),
            (r matches Ok(()) ==> {
                &&& final(self).state == EscrowState::Disputed
                &&& final(self).dispute_initiated_time == Some(now)
                &&& final(self).dispute_initiator == Some(caller)
                &&& final(self).counter == old(self).counter + 1
                &&& bond == spec_dispute_bond(old(self).amount)
            }),
    {
        if expected_counter != self.counter {
            return Err(EscrowError::InvalidState);
        }
        if !(caller == self.buyer || caller == self.seller) {
            return Err(EscrowError::Unauthorized);
        }
        if self.state.is_terminal() {
            return Err(EscrowError::TerminalState);
        }
        if self.state != EscrowState::Funded {
            return Err(EscrowError::InvalidState);
        }
        let fd: i64 = match self.fiat_deadline {
            Some(d) => d,
            None => {
                return Err(EscrowError::InvalidState);
            },
        };
        if (now as i128) > (fd as i128) + (DISPUTE_RESPONSE_WINDOW_SECONDS as i128) {
            return Err(EscrowError::ResponseDeadlineExpired);
        }
        if bond == 0 {
            return Err(EscrowError::MissingDisputeBond);
        }
        let required: u64 = self.amount * DISPUTE_BOND_BASIS_POINTS / BASIS_POINTS_DENOMINATOR;
        if bond != required {
            return Err(EscrowError::IncorrectBondAmount);
        }
        if self.counter == u64::MAX {
            return Err(EscrowError::FeeCalculationError);
        }
        self.state = EscrowState::Disputed;
        self.dispute_initiated_time = Some(now);
        self.dispute_initiator = Some(caller);
        self.counter = self.counter + 1;
        Ok(())
    }

    /// Submits one party's evidence digest while `Disputed`, within 72 hours
    /// of the dispute opening. Each party's slot is write-once and the
    /// all-zero digest is rejected. The initiator's bond was taken at
    /// opening, so the initiator submits with `bond == 0`; the counterparty
    /// must match the 5% bond exactly.
    pub fn submit_evidence(
        &mut self,
        caller: Identity,
        now: i64,
        expected_counter: u64,
        evidence: Hash32,
        bond: u64,
    ) -> (r: Result<(), EscrowError>)
        requires
            old(self).wf(),
        ensures
            final(self).wf(),
            (match r {
                Ok(()) => step(
                    *old(self),
                    Op::SubmitEvidence { evidence, bond },
                    caller,
                    now,
                    expected_counter,
                ) == Ok::<Escrow, EscrowError>(*final(self)),
                Err(e) => step(
                    *old(self),
                    Op::SubmitEvidence { evidence, bond },
                    caller,
                    now,
                    expected_counter,
                ) == Err::<Escrow, EscrowError>(e) && *final(self) == *old(self),
            }),
            (r matches Ok(()) ==> {
                &&& final(self).state == EscrowState::Disputed
                &&& final(self).counter == old(self).counter + 1
                &&& (caller == old(self).buyer ==> final(self).dispute_evidence_hash_buyer
                    == Some(evidence))
                &&& (caller != old(self).buyer ==> final(self).dispute_evidence_hash_seller
                    == Some(evidence))
            }),
    {
        if expected_counter != self.counter {
            return Err(EscrowError::InvalidState);
        }
        if !(caller == self.buyer || caller == self.seller) {
            return Err(EscrowError::Unauthorized);
        }
        if self.state.is_terminal() {
            return Err(EscrowError::TerminalState);
        }
        if self.state != EscrowState::Disputed {
            return Err(EscrowError::InvalidState);
        }
        let opened: i64 = match self.dispute_initiated_time {
            Some(t) => t,
            None => {
                return Err(EscrowError::InvalidState);
            },
        };
        if (now as i128) > (opened as i128) + (DISPUTE_RESPONSE_WINDOW_SECONDS as i128) {
            return Err(EscrowError::ResponseDeadlineExpired);
        }
        let for_buyer_slot: bool = caller == self.buyer;
        let slot_taken: bool = if for_buyer_slot {
            self.dispute_evidence_hash_buyer.is_some()
        } else {
            self.dispute_evidence_hash_seller.is_some()
        };
        if slot_taken {
            return Err(EscrowError::DuplicateEvidence);
        }
        if evidence.is_zero() {
            return Err(EscrowError::InvalidEvidenceHash);
        }
        let is_initiator: bool = match self.dispute_initiator {
            Some(i) => i == caller,
            None => false,
        };
        if is_initiator {
            if bond != 0 {
                return Err(EscrowError::IncorrectBondAmount);
            }
        } else {
            if bond == 0 {
                return Err(EscrowError::MissingDisputeBond);
            }
            let required: u64 = self.amount * DISPUTE_BOND_BASIS_POINTS
                / BASIS_POINTS_DENOMINATOR;
            if bond != required {
                return Err(EscrowError::IncorrectBondAmount);
            }
        }
        if self.counter == u64::MAX {
            return Err(EscrowError::FeeCalculationError);
        }
        if for_buyer_slot {
            self.dispute_evidence_hash_buyer = Some(evidence);
        } else {
            self.dispute_evidence_hash_seller = Some(evidence);
        }
        self.counter = self.counter + 1;
        Ok(())
    }

    /// Resolution by the arbitrator, within 168 hours of the dispute
    /// opening, committing to a non-zero resolution digest. On success the
    /// record is terminal (`Resolved`) and the returned outcome lists every
    /// requested fund movement: the fee to the fee sink, the distributable
    /// principal divided per the decision, and each posted bond either
    /// returned or forfeited to the fee sink.
    ///
    /// Once the 168-hour window has lapsed the engine's policy is to freeze:
    /// every resolution attempt is rejected as expired and the record stays
    /// `Disputed`; no side is favoured automatically. Unfreezing it is a
    /// governance action outside the engine.
    pub fn resolve(
        &mut self,
        caller: Identity,
        now: i64,
        expected_counter: u64,
        decision: ResolutionDecision,
        resolution: Hash32,
    ) -> (r: Result<ResolutionOutcome, EscrowError>)
        requires
            old(self).wf(),
        ensures
            final(self).wf(),
            (match r {
                Ok(outcome) => step(
                    *old(self),
                    Op::Resolve { decision, resolution },
                    caller,
                    now,
                    expected_counter,
                ) == Ok::<Escrow, EscrowError>(*final(self)) && outcome
                    == resolution_outcome_spec(*old(self), decision),
                Err(e) => step(
                    *old(self),
                    Op::Resolve { decision, resolution },
                    caller,
                    now,
                    expected_counter,
                ) == Err::<Escrow, EscrowError>(e) && *final(self) == *old(self),
            }),
            (r matches Ok(outcome) ==> {
                &&& final(self).state == EscrowState::Resolved
                &&& final(self).dispute_resolution_hash == Some(resolution)
                &&& final(self).counter == old(self).counter + 1
                &&& outcome.buyer_units + outcome.seller_units + outcome.fee_units
                    == old(self).amount
                &&& outcome.buyer_bond_returned + outcome.seller_bond_returned
                    + outcome.bonds_forfeited_to_sink == posted_bonds_total(*old(self))
            }),
    {
        if expected_counter != self.counter {
            return Err(EscrowError::InvalidState);
        }
        if caller != self.arbitrator {
            return Err(EscrowError::Unauthorized);
        }
        if self.state.is_terminal() {
            return Err(EscrowError::TerminalState);
        }
        if self.state != EscrowState::Disputed {
            return Err(EscrowError::InvalidState);
        }
        let opened: i64 = match self.dispute_initiated_time {
            Some(t) => t,
            None => {
                return Err(EscrowError::InvalidState);
            },
        };
        if (now as i128) > (opened as i128) + (ARBITRATION_WINDOW_SECONDS as i128) {
            return Err(EscrowError::ArbitrationDeadlineExpired);
        }
        if resolution.is_zero() {
            return Err(EscrowError::InvalidResolutionExplanation);
        }
        proof {
            lemma_basis_points_le_amount(self.amount, FEE_BASIS_POINTS);
        }
        let distributable: u64 = self.amount - self.fee;
        let over_split: bool = match decision {
            ResolutionDecision::Split { buyer_units } => buyer_units > distributable,
            _ => false,
        };
        if over_split {
            return Err(EscrowError::InvalidAmount);
        }
        if self.counter == u64::MAX {
            return Err(EscrowError::FeeCalculationError);
        }
        let bond: u64 = self.amount * DISPUTE_BOND_BASIS_POINTS / BASIS_POINTS_DENOMINATOR;
        let buyer_posted: bool = (match self.dispute_initiator {
            Some(i) => i == self.buyer,
            None => false,
        }) || self.dispute_evidence_hash_buyer.is_some();
        let seller_posted: bool = (match self.dispute_initiator {
            Some(i) => i == self.seller,
            None => false,
        }) || self.dispute_evidence_hash_seller.is_some();
        let buyer_bond: u64 = if buyer_posted {
            bond
        } else {
            0
        };
        let seller_bond: u64 = if seller_posted {
            bond
        } else {
            0
        };
        let outcome: ResolutionOutcome = match decision {
            ResolutionDecision::ReleaseToBuyer => ResolutionOutcome {
                buyer_units: distributable,
                seller_units: 0,
                fee_units: self.fee,
                buyer_bond_returned: buyer_bond,
                seller_bond_returned: 0,
                bonds_forfeited_to_sink: seller_bond,
            },
            ResolutionDecision::RefundToSeller => ResolutionOutcome {
                buyer_units: 0,
                seller_units: distributable,
                fee_units: self.fee,
                buyer_bond_returned: 0,
                seller_bond_returned: seller_bond,
                bonds_forfeited_to_sink: buyer_bond,
            },
            ResolutionDecision::Split { buyer_units } => ResolutionOutcome {
                buyer_units,
                seller_units: distributable - buyer_units,
                fee_units: self.fee,
                buyer_bond_returned: buyer_bond,
                seller_bond_returned: seller_bond,
                bonds_forfeited_to_sink: 0,
            },
        };
        self.state = EscrowState::Resolved;
        self.dispute_resolution_hash = Some(resolution);
        self.counter = self.counter + 1;
        Ok(outcome)
    }
}

} // verus!
