use vstd::prelude::*;

use crate::constants::{DISPUTE_BOND_BASIS_POINTS, DISPUTE_RESPONSE_WINDOW_SECONDS,
    FEE_BASIS_POINTS};
use crate::errors::EscrowError;
use crate::fees::lemma_basis_points_le_amount;
use crate::record::{transition_edge, Escrow, EscrowState, Hash32, Identity};
use crate::transition::{authorized, posted_bonds_total, resolution_outcome_spec, step, Op,
    ResolutionDecision};

verus! {

/// Law: an accepted operation moves the record along an edge of the
/// lifecycle graph and nowhere else, preserves the record invariants,
/// increments the version counter by exactly one, and never touches the
/// identifiers, the parties, the principal, the fee (immutable once
/// computed), the sequential settings, a deadline already set, a dispute
/// field already set, or an evidence or resolution digest already written.
pub proof fn lemma_step_preserves_invariant(
    pre: Escrow,
    op: Op,
    caller: Identity,
    now: i64,
    expected_counter: u64,
    post: Escrow,
)
    requires
        pre.wf(),
        step(pre, op, caller, now, expected_counter) == Ok::<Escrow, EscrowError>(post),
    ensures
        post.wf(),
        transition_edge(pre.state, post.state),
        post.counter == pre.counter + 1,
        post.escrow_id == pre.escrow_id,
        post.trade_id == pre.trade_id,
        post.seller == pre.seller,
        post.buyer == pre.buyer,
        post.arbitrator == pre.arbitrator,
        post.amount == pre.amount,
        post.fee == pre.fee,
        post.sequential == pre.sequential,
        post.sequential_escrow_address == pre.sequential_escrow_address,
        post.deposit_deadline == pre.deposit_deadline,
        (pre.fiat_deadline matches Some(fd) ==> post.fiat_deadline == Some(fd)),
        (pre.dispute_initiated_time matches Some(t) ==> post.dispute_initiated_time == Some(t)),
        (pre.dispute_initiator matches Some(p) ==> post.dispute_initiator == Some(p)),
        (pre.dispute_evidence_hash_buyer matches Some(h) ==> post.dispute_evidence_hash_buyer
            == Some(h)),
        (pre.dispute_evidence_hash_seller matches Some(h) ==> post.dispute_evidence_hash_seller
            == Some(h)),
        (pre.dispute_resolution_hash matches Some(h) ==> post.dispute_resolution_hash == Some(h)),
        (pre.fiat_paid ==> post.fiat_paid),
{
    match op {
        Op::Fund => {},
        Op::ConfirmFiat => {},
        Op::Release => {},
        Op::Cancel => {},
        Op::OpenDispute { .. } => {},
        Op::SubmitEvidence { .. } => {},
        Op::Resolve { .. } => {},
    }
}

/// Law: once a record is terminal, every operation presented with the
/// current counter by a caller holding the role the edge would require is
/// rejected with the terminal-state error — and, the transition function
/// being `Err`, nothing about the record changes.
pub proof fn lemma_terminal_state_rejects(pre: Escrow, op: Op, caller: Identity, now: i64)
    requires
        pre.state.spec_is_terminal(),
        authorized(pre, op, caller),
    ensures
        step(pre, op, caller, now, pre.counter) == Err::<Escrow, EscrowError>(
            EscrowError::TerminalState,
        ),
{
    match op {
        Op::Fund => {},
        Op::ConfirmFiat => {},
        Op::Release => {},
        Op::Cancel => {},
        Op::OpenDispute { .. } => {},
        Op::SubmitEvidence { .. } => {},
        Op::Resolve { .. } => {},
    }
}

/// Law: replaying any operation with a stale expected counter always fails
/// — the optimistic-concurrency guard runs before every other check, so a
/// replayed call can re-apply no effect.
pub proof fn lemma_stale_counter_rejects(
    pre: Escrow,
    op: Op,
    caller: Identity,
    now: i64,
    expected_counter: u64,
)
    requires
        expected_counter != pre.counter,
    ensures
        step(pre, op, caller, now, expected_counter) == Err::<Escrow, EscrowError>(
            EscrowError::InvalidState,
        ),
{
    match op {
        Op::Fund => {},
        Op::ConfirmFiat => {},
        Op::Release => {},
        Op::Cancel => {},
        Op::OpenDispute { .. } => {},
        Op::SubmitEvidence { .. } => {},
        Op::Resolve { .. } => {},
    }
}

/// Law (deadline boundary, exclusive side): an absolute deadline is itself
/// out of bounds — funding at exactly the deposit deadline is rejected as
/// expired.
pub proof fn lemma_fund_at_deadline_rejects(pre: Escrow, caller: Identity, now: i64)
    requires
        pre.state == EscrowState::Created,
        caller == pre.buyer,
        now == pre.deposit_deadline,
    ensures
        step(pre, Op::Fund, caller, now, pre.counter) == Err::<Escrow, EscrowError>(
            EscrowError::DepositDeadlineExpired,
        ),
{
}

/// Law (window boundary, inclusive side): a relative window still admits its
/// last instant — the dispute initiator submitting evidence exactly 72 hours
/// after the dispute opened is accepted.
pub proof fn lemma_evidence_at_window_end_accepted(
    pre: Escrow,
    caller: Identity,
    now: i64,
    evidence: Hash32,
)
    requires
        pre.wf(),
        pre.state == EscrowState::Disputed,
        caller == pre.buyer,
        pre.dispute_initiator == Some(pre.buyer),
        pre.dispute_evidence_hash_buyer.is_none(),
        !evidence.spec_is_zero(),
        pre.counter < u64::MAX,
        (pre.dispute_initiated_time matches Some(t) && now == t
            + DISPUTE_RESPONSE_WINDOW_SECONDS),
    ensures
        step(pre, Op::SubmitEvidence { evidence, bond: 0 }, caller, now, pre.counter) is Ok,
{
}

/// Law: a resolution accounts for every custodied unit. The principal comes
/// back out exactly — buyer share, seller share and fee sum to the
/// principal — and the posted bonds come back out exactly — returned plus
/// forfeited equals what was posted; no unit is minted and none silently
/// disappears.
pub proof fn lemma_resolution_conserves_funds(pre: Escrow, decision: ResolutionDecision)
    requires
        pre.wf(),
        pre.state == EscrowState::Disputed,
        (decision matches ResolutionDecision::Split { buyer_units } ==> buyer_units <= pre.amount
            - pre.fee),
    ensures
        ({
            let outcome = resolution_outcome_spec(pre, decision);
            &&& outcome.buyer_units + outcome.seller_units + outcome.fee_units == pre.amount
            &&& outcome.buyer_bond_returned + outcome.seller_bond_returned
                + outcome.bonds_forfeited_to_sink == posted_bonds_total(pre)
        }),
{
    lemma_basis_points_le_amount(pre.amount, FEE_BASIS_POINTS);
    lemma_basis_points_le_amount(pre.amount, DISPUTE_BOND_BASIS_POINTS);
}

} // verus!
