use vstd::prelude::*;

use crate::constants::{
    ARBITRATION_WINDOW_SECONDS, DEPOSIT_DEADLINE_SECONDS, DISPUTE_RESPONSE_WINDOW_SECONDS,
    FIAT_DEADLINE_SECONDS, MAX_AMOUNT,
};
use crate::errors::EscrowError;
use crate::fees::{spec_dispute_bond, spec_fee};
use crate::record::{Escrow, EscrowState, Hash32, Identity};

verus! {

/// The arbitrator's decision on a disputed escrow: who receives the
/// distributable principal (the principal less the fee), or how it is split.
#[derive(Clone, Copy, Debug, PartialEq, Eq, Structural)]
pub enum ResolutionDecision {
    /// The whole distributable principal goes to the buyer.
    ReleaseToBuyer,
    /// The whole distributable principal goes back to the seller.
    RefundToSeller,
    /// `buyer_units` of the distributable principal go to the buyer, the rest
    /// to the seller.
    Split { buyer_units: u64 },
}

/// One attempted operation against an existing record, with its payload.
/// Creation is separate: it makes the record rather than mutating one.
#[derive(Clone, Copy, Debug, PartialEq, Eq, Structural)]
pub enum Op {
    Fund,
    ConfirmFiat,
    Release,
    Cancel,
    OpenDispute { bond: u64 },
    SubmitEvidence { evidence: Hash32, bond: u64 },
    Resolve { decision: ResolutionDecision, resolution: Hash32 },
}

/// The role check of the transition guard: which caller identity the edge
/// attempted by `op` requires. Cancellation of a record that was never funded
/// is open to anyone once the deposit deadline has passed; after funding only
/// the two trading parties may cancel.
pub open spec fn authorized(pre: Escrow, op: Op, caller: Identity) -> bool {
    match op {
        Op::Fund => caller == pre.buyer,
        Op::ConfirmFiat => caller == pre.seller,
        Op::Release => caller == pre.seller,
        Op::Cancel => if pre.state == EscrowState::Funded {
            caller == pre.buyer || caller == pre.seller
        } else {
            true
        },
        Op::OpenDispute { .. } => caller == pre.buyer || caller == pre.seller,
        Op::SubmitEvidence { .. } => caller == pre.buyer || caller == pre.seller,
        Op::Resolve { .. } => caller == pre.arbitrator,
    }
}

/// Outcome of creation. Checks run in this order: principal positive,
/// principal at most `MAX_AMOUNT`, sequential address present when
/// `sequential`, deposit deadline representable. The fee formula cannot
/// overflow once the principal is bounded, so creation's only arithmetic
/// rejection is an unrepresentable deadline.
pub open spec fn create_spec(
    escrow_id: u64,
    trade_id: u64,
    seller: Identity,
    buyer: Identity,
    arbitrator: Identity,
    amount: u64,
    sequential: bool,
    sequential_escrow_address: Option<Identity>,
    now: i64,
) -> Result<Escrow, EscrowError> {
    if amount == 0 {
        Err(EscrowError::InvalidAmount)
    } else if amount > MAX_AMOUNT {
        Err(EscrowError::ExceedsMaximum)
    } else if sequential && sequential_escrow_address.is_none() {
        Err(EscrowError::MissingSequentialAddress)
    } else if now + DEPOSIT_DEADLINE_SECONDS > i64::MAX {
        Err(EscrowError::FeeCalculationError)
    } else {
        Ok(
            Escrow {
                escrow_id,
                trade_id,
                seller,
                buyer,
                arbitrator,
                amount,
                fee: spec_fee(amount) as u64,
                sequential,
                sequential_escrow_address,
                state: EscrowState::Created,
                deposit_deadline: (now + DEPOSIT_DEADLINE_SECONDS) as i64,
                fiat_deadline: None,
                fiat_paid: false,
                dispute_initiated_time: None,
                dispute_initiator: None,
                dispute_evidence_hash_buyer: None,
                dispute_evidence_hash_seller: None,
                dispute_resolution_hash: None,
                counter: 0,
            },
        )
    }
}

/// Guards shared by every operation, in the fixed order of the transition
/// guard: version counter first (the optimistic-concurrency check), then the
/// caller's role, then the terminal-state check. Returns the rejection, or
/// `None` when the shared guards pass.
pub open spec fn common_guard(
    pre: Escrow,
    op: Op,
    caller: Identity,
    expected_counter: u64,
) -> Option<EscrowError> {
    if expected_counter != pre.counter {
        Some(EscrowError::InvalidState)
    } else if !authorized(pre, op, caller) {
        Some(EscrowError::Unauthorized)
    } else if pre.state.spec_is_terminal() {
        Some(EscrowError::TerminalState)
    } else {
        None
    }
}

/// Funding. Permitted strictly before the deposit deadline: at the deadline
/// instant itself the edge is already closed. Sets the fiat deadline thirty
/// minutes after the funding time and moves the record to `Funded`.
pub open spec fn fund_spec(
    pre: Escrow,
    caller: Identity,
    now: i64,
    expected_counter: u64,
) -> Result<Escrow, EscrowError> {
    match common_guard(pre, Op::Fund, caller, expected_counter) {
        Some(e) => Err(e),
        None => if pre.state != EscrowState::Created {
            Err(EscrowError::InvalidState)
        } else if now >= pre.deposit_deadline {
            Err(EscrowError::DepositDeadlineExpired)
        } else if now + FIAT_DEADLINE_SECONDS > i64::MAX {
            Err(EscrowError::FeeCalculationError)
        } else if pre.counter == u64::MAX {
            Err(EscrowError::FeeCalculationError)
        } else {
            Ok(
                Escrow {
                    state: EscrowState::Funded,
                    fiat_deadline: Some((now + FIAT_DEADLINE_SECONDS) as i64),
                    counter: (pre.counter + 1) as u64,
                    ..pre
                },
            )
        },
    }
}

/// Fiat confirmation by the seller, strictly before the fiat deadline. The
/// record stays `Funded`; only `fiat_paid` and the counter change.
pub open spec fn confirm_fiat_spec(
    pre: Escrow,
    caller: Identity,
    now: i64,
    expected_counter: u64,
) -> Result<Escrow, EscrowError> {
    match common_guard(pre, Op::ConfirmFiat, caller, expected_counter) {
        Some(e) => Err(e),
        None => if pre.state != EscrowState::Funded {
            Err(EscrowError::InvalidState)
        } else {
            match pre.fiat_deadline {
                None => Err(EscrowError::InvalidState),
                Some(fd) => if now >= fd {
                    Err(EscrowError::FiatDeadlineExpired)
                } else if pre.counter == u64::MAX {
                    Err(EscrowError::FeeCalculationError)
                } else {
                    Ok(Escrow { fiat_paid: true, counter: (pre.counter + 1) as u64, ..pre })
                },
            }
        },
    }
}

/// Release by the seller once fiat is confirmed. A record without confirmed
/// fiat is not releasable: that is a state rejection, not a deadline one.
pub open spec fn release_spec(
    pre: Escrow,
    caller: Identity,
    now: i64,
    expected_counter: u64,
) -> Result<Escrow, EscrowError> {
    match common_guard(pre, Op::Release, caller, expected_counter) {
        Some(e) => Err(e),
        None => if pre.state != EscrowState::Funded {
            Err(EscrowError::InvalidState)
        } else if !pre.fiat_paid {
            Err(EscrowError::InvalidState)
        } else if pre.counter == u64::MAX {
            Err(EscrowError::FeeCalculationError)
        } else {
            Ok(Escrow { state: EscrowState::Released, counter: (pre.counter + 1) as u64, ..pre })
        },
    }
}

/// Cancellation. From `Created`, open to anyone once the deposit deadline has
/// been reached (the record was never funded). From `Funded`, open to buyer or
/// seller once the fiat deadline has been reached and only while fiat is
/// unconfirmed. A cancellation attempted before the relevant deadline has
/// passed is a state rejection: the record is not yet cancellable.
pub open spec fn cancel_spec(
    pre: Escrow,
    caller: Identity,
    now: i64,
    expected_counter: u64,
) -> Result<Escrow, EscrowError> {
    match common_guard(pre, Op::Cancel, caller, expected_counter) {
        Some(e) => Err(e),
        None => if pre.state == EscrowState::Created {
            if now < pre.deposit_deadline {
                Err(EscrowError::InvalidState)
            } else if pre.counter == u64::MAX {
                Err(EscrowError::FeeCalculationError)
            } else {
                Ok(
                    Escrow {
                        state: EscrowState::Cancelled,
                        counter: (pre.counter + 1) as u64,
                        ..pre
                    },
                )
            }
        } else if pre.state != EscrowState::Funded {
            Err(EscrowError::InvalidState)
        } else if pre.fiat_paid {
            Err(EscrowError::InvalidState)
        } else {
            match pre.fiat_deadline {
                None => Err(EscrowError::InvalidState),
                Some(fd) => if now < fd {
                    Err(EscrowError::InvalidState)
                } else if pre.counter == u64::MAX {
                    Err(EscrowError::FeeCalculationError)
                } else {
                    Ok(
                        Escrow {
                            state: EscrowState::Cancelled,
                            counter: (pre.counter + 1) as u64,
                            ..pre
                        },
                    )
                },
            }
        },
    }
}

/// Opening a dispute from `Funded`, by buyer or seller, at or before the fiat
/// deadline plus the 72-hour response window (the window end itself is still
/// open). The opener must present exactly the 5% bond: no bond at all is a
/// missing-bond rejection, any other amount an incorrect-bond one.
pub open spec fn open_dispute_spec(
    pre: Escrow,
    caller: Identity,
    now: i64,
    expected_counter: u64,
    bond: u64,
) -> Result<Escrow, EscrowError> {
    match common_guard(pre, Op::OpenDispute { bond }, caller, expected_counter) {
        Some(e) => Err(e),
        None => if pre.state != EscrowState::Funded {
            Err(EscrowError::InvalidState)
        } else {
            match pre.fiat_deadline {
                None => Err(EscrowError::InvalidState),
                Some(fd) => if now > fd + DISPUTE_RESPONSE_WINDOW_SECONDS {
                    Err(EscrowError::ResponseDeadlineExpired)
                } else if bond == 0 {
                    Err(EscrowError::MissingDisputeBond)
                } else if bond != spec_dispute_bond(pre.amount) {
                    Err(EscrowError::IncorrectBondAmount)
                } else if pre.counter == u64::MAX {
                    Err(EscrowError::FeeCalculationError)
                } else {
                    Ok(
                        Escrow {
                            state: EscrowState::Disputed,
                            dispute_initiated_time: Some(now),
                            dispute_initiator: Some(caller),
                            counter: (pre.counter + 1) as u64,
                            ..pre
                        },
                    )
                },
            }
        },
    }
}

/// Evidence intake while `Disputed`, within 72 hours of the dispute opening
/// (the window end itself is still open). Each party's slot is write-once;
/// the all-zero digest is rejected. The opener's bond was taken when the
/// dispute opened, so the opener submits with no bond; the counterparty must
/// match the 5% bond exactly.
pub open spec fn submit_evidence_spec(
    pre: Escrow,
    caller: Identity,
    now: i64,
    expected_counter: u64,
    evidence: Hash32,
    bond: u64,
) -> Result<Escrow, EscrowError> {
    match common_guard(pre, Op::SubmitEvidence { evidence, bond }, caller, expected_counter) {
        Some(e) => Err(e),
        None => if pre.state != EscrowState::Disputed {
            Err(EscrowError::InvalidState)
        } else {
            match pre.dispute_initiated_time {
                None => Err(EscrowError::InvalidState),
                Some(opened) => submit_evidence_checks(pre, caller, now, evidence, bond, opened),
            }
        },
    }
}

/// The dispute-specific checks of evidence intake, once the shared guards and
/// the state check have passed; `opened` is when the dispute was opened.
pub open spec fn submit_evidence_checks(
    pre: Escrow,
    caller: Identity,
    now: i64,
    evidence: Hash32,
    bond: u64,
    opened: i64,
) -> Result<Escrow, EscrowError> {
    let slot_taken = if caller == pre.buyer {
        pre.dispute_evidence_hash_buyer.is_some()
    } else {
        pre.dispute_evidence_hash_seller.is_some()
    };
    let is_initiator = pre.dispute_initiator == Some(caller);
    if now > opened + DISPUTE_RESPONSE_WINDOW_SECONDS {
        Err(EscrowError::ResponseDeadlineExpired)
    } else if slot_taken {
        Err(EscrowError::DuplicateEvidence)
    } else if evidence.spec_is_zero() {
        Err(EscrowError::InvalidEvidenceHash)
    } else if is_initiator {
        if bond != 0 {
            Err(EscrowError::IncorrectBondAmount)
        } else if pre.counter == u64::MAX {
            Err(EscrowError::FeeCalculationError)
        } else if caller == pre.buyer {
            Ok(
                Escrow {
                    dispute_evidence_hash_buyer: Some(evidence),
                    counter: (pre.counter + 1) as u64,
                    ..pre
                },
            )
        } else {
            Ok(
                Escrow {
                    dispute_evidence_hash_seller: Some(evidence),
                    counter: (pre.counter + 1) as u64,
                    ..pre
                },
            )
        }
    } else if bond == 0 {
        Err(EscrowError::MissingDisputeBond)
    } else if bond != spec_dispute_bond(pre.amount) {
        Err(EscrowError::IncorrectBondAmount)
    } else if pre.counter == u64::MAX {
        Err(EscrowError::FeeCalculationError)
    } else if caller == pre.buyer {
        Ok(
            Escrow {
                dispute_evidence_hash_buyer: Some(evidence),
                counter: (pre.counter + 1) as u64,
                ..pre
            },
        )
    } else {
        Ok(
            Escrow {
                dispute_evidence_hash_seller: Some(evidence),
                counter: (pre.counter + 1) as u64,
                ..pre
            },
        )
    }
}

/// Resolution by the arbitrator, within 168 hours of the dispute opening (the
/// window end itself is still open). Requires a non-zero resolution digest; a
/// partial split may not hand the buyer more than the distributable
/// principal.
pub open spec fn resolve_spec(
    pre: Escrow,
    caller: Identity,
    now: i64,
    expected_counter: u64,
    decision: ResolutionDecision,
    resolution: Hash32,
) -> Result<Escrow, EscrowError> {
    match common_guard(pre, Op::Resolve { decision, resolution }, caller, expected_counter) {
        Some(e) => Err(e),
        None => if pre.state != EscrowState::Disputed {
            Err(EscrowError::InvalidState)
        } else {
            match pre.dispute_initiated_time {
                None => Err(EscrowError::InvalidState),
                Some(opened) => if now > opened + ARBITRATION_WINDOW_SECONDS {
                    Err(EscrowError::ArbitrationDeadlineExpired)
                } else if resolution.spec_is_zero() {
                    Err(EscrowError::InvalidResolutionExplanation)
                } else if decision matches ResolutionDecision::Split { buyer_units }
                    && buyer_units > pre.amount - pre.fee {
                    Err(EscrowError::InvalidAmount)
                } else if pre.counter == u64::MAX {
                    Err(EscrowError::FeeCalculationError)
                } else {
                    Ok(
                        Escrow {
                            state: EscrowState::Resolved,
                            dispute_resolution_hash: Some(resolution),
                            counter: (pre.counter + 1) as u64,
                            ..pre
                        },
                    )
                },
            }
        },
    }
}

/// The fund movement a release requests from the custody collaborator:
/// the principal less the fee to the recipient, the fee to the protocol fee
/// sink.
#[derive(Clone, Copy, Debug, PartialEq, Eq, Structural)]
pub struct Payout {
    /// The buyer, or the sequential escrow address when the record is
    /// sequential.
    pub recipient: Identity,
    /// Units moved to the recipient: principal less fee.
    pub units: u64,
    /// Units moved to the protocol fee sink.
    pub fee_units: u64,
}

/// The fund movement a cancellation requests: a full refund to the seller of
/// the principal, plus the fee when the record had been funded.
#[derive(Clone, Copy, Debug, PartialEq, Eq, Structural)]
pub struct Refund {
    pub recipient: Identity,
    pub units: u64,
}

/// The fund movements a resolution requests. Principal side: the fee goes to
/// the fee sink and the distributable principal is divided between the two
/// parties. Bond side: every posted bond is either returned to its poster or
/// forfeited to the fee sink, so that both bonds are accounted for.
#[derive(Clone, Copy, Debug, PartialEq, Eq, Structural)]
pub struct ResolutionOutcome {
    /// Distributable principal handed to the buyer.
    pub buyer_units: u64,
    /// Distributable principal handed back to the seller.
    pub seller_units: u64,
    /// The fee, handed to the protocol fee sink.
    pub fee_units: u64,
    /// The buyer's bond handed back to the buyer (zero when none was posted
    /// or it is forfeited).
    pub buyer_bond_returned: u64,
    /// The seller's bond handed back to the seller.
    pub seller_bond_returned: u64,
    /// Forfeited bonds, handed to the protocol fee sink.
    pub bonds_forfeited_to_sink: u64,
}

/// What a release pays, as a function of the record being released.
pub open spec fn payout_spec(pre: Escrow) -> Payout {
    Payout {
        recipient: if pre.sequential {
            pre.sequential_escrow_address.unwrap()
        } else {
            pre.buyer
        },
        units: (pre.amount - pre.fee) as u64,
        fee_units: pre.fee,
    }
}

/// What a cancellation refunds, as a function of the record being cancelled:
/// the principal alone before funding, principal plus fee afterwards.
pub open spec fn refund_spec(pre: Escrow) -> Refund {
    Refund {
        recipient: pre.seller,
        units: if pre.state == EscrowState::Created {
            pre.amount
        } else {
            (pre.amount + pre.fee) as u64
        },
    }
}

/// Whether the buyer has posted a dispute bond: at opening as the initiator,
/// or matched together with evidence as the counterparty.
pub open spec fn buyer_posted_bond(pre: Escrow) -> bool {
    pre.dispute_initiator == Some(pre.buyer) || pre.dispute_evidence_hash_buyer.is_some()
}

/// Whether the seller has posted a dispute bond.
pub open spec fn seller_posted_bond(pre: Escrow) -> bool {
    pre.dispute_initiator == Some(pre.seller) || pre.dispute_evidence_hash_seller.is_some()
}

/// Every bond currently held for the record's dispute.
pub open spec fn posted_bonds_total(pre: Escrow) -> int {
    (if buyer_posted_bond(pre) {
        spec_dispute_bond(pre.amount)
    } else {
        0
    }) + (if seller_posted_bond(pre) {
        spec_dispute_bond(pre.amount)
    } else {
        0
    })
}

/// What a resolution disburses, as a function of the disputed record and the
/// arbitrator's decision. Bond policy: the party receiving the whole
/// distributable principal gets its bond back and the counterparty's posted
/// bond is forfeited to the fee sink; under a partial split both posted bonds
/// are returned.
pub open spec fn resolution_outcome_spec(pre: Escrow, decision: ResolutionDecision)
    -> ResolutionOutcome {
    let distributable: u64 = (pre.amount - pre.fee) as u64;
    let bond: u64 = spec_dispute_bond(pre.amount) as u64;
    let buyer_bond: u64 = if buyer_posted_bond(pre) {
        bond
    } else {
        0
    };
    let seller_bond: u64 = if seller_posted_bond(pre) {
        bond
    } else {
        0
    };
    match decision {
        ResolutionDecision::ReleaseToBuyer => ResolutionOutcome {
            buyer_units: distributable,
            seller_units: 0,
            fee_units: pre.fee,
            buyer_bond_returned: buyer_bond,
            seller_bond_returned: 0,
            bonds_forfeited_to_sink: seller_bond,
        },
        ResolutionDecision::RefundToSeller => ResolutionOutcome {
            buyer_units: 0,
            seller_units: distributable,
            fee_units: pre.fee,
            buyer_bond_returned: 0,
            seller_bond_returned: seller_bond,
            bonds_forfeited_to_sink: buyer_bond,
        },
        ResolutionDecision::Split { buyer_units } => ResolutionOutcome {
            buyer_units,
            seller_units: (distributable - buyer_units) as u64,
            fee_units: pre.fee,
            buyer_bond_returned: buyer_bond,
            seller_bond_returned: seller_bond,
            bonds_forfeited_to_sink: 0,
        },
    }
}

/// The whole transition guard and mutation as one function: the record an
/// accepted operation produces, or the exact rejection. Every executable
/// operation of the engine is proved to return precisely this.
pub open spec fn step(
    pre: Escrow,
    op: Op,
    caller: Identity,
    now: i64,
    expected_counter: u64,
) -> Result<Escrow, EscrowError> {
    match op {
        Op::Fund => fund_spec(pre, caller, now, expected_counter),
        Op::ConfirmFiat => confirm_fiat_spec(pre, caller, now, expected_counter),
        Op::Release => release_spec(pre, caller, now, expected_counter),
        Op::Cancel => cancel_spec(pre, caller, now, expected_counter),
        Op::OpenDispute { bond } => open_dispute_spec(pre, caller, now, expected_counter, bond),
        Op::SubmitEvidence { evidence, bond } => submit_evidence_spec(
            pre,
            caller,
            now,
            expected_counter,
            evidence,
            bond,
        ),
        Op::Resolve { decision, resolution } => resolve_spec(
            pre,
            caller,
            now,
            expected_counter,
            decision,
            resolution,
        ),
    }
}

} // verus!
