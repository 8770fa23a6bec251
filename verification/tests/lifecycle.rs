use simple_escrow::engine::create_escrow;
use simple_escrow::errors::EscrowError;
use simple_escrow::record::{Escrow, EscrowState, Identity};

fn ident(tag: u64) -> Identity {
    Identity { w0: tag, w1: 0, w2: 0, w3: 0 }
}

fn seller() -> Identity {
    ident(1)
}

fn buyer() -> Identity {
    ident(2)
}

fn arbitrator() -> Identity {
    ident(9)
}

const T0: i64 = 1_700_000_000;
const AMOUNT: u64 = 100_000_000;
const FEE: u64 = 1_000_000;

fn created() -> Escrow {
    create_escrow(1, 1, seller(), buyer(), arbitrator(), AMOUNT, false, None, T0).unwrap()
}

#[test]
fn scenario_happy_path_release() {
    let mut record = created();
    record.fund(buyer(), T0 + 100, 0).unwrap();
    assert_eq!(record.state, EscrowState::Funded);
    assert_eq!(record.fiat_deadline, Some(T0 + 100 + 1800));
    assert_eq!(record.counter, 1);

    record.confirm_fiat(seller(), T0 + 200, 1).unwrap();
    assert!(record.fiat_paid);
    assert_eq!(record.state, EscrowState::Funded);

    let payout = record.release(seller(), T0 + 300, 2).unwrap();
    assert_eq!(record.state, EscrowState::Released);
    assert_eq!(payout.recipient, buyer());
    assert_eq!(payout.units, AMOUNT - FEE);
    assert_eq!(payout.fee_units, FEE);
    assert_eq!(record.fee, FEE);
    assert_eq!(record.counter, 3);
    assert!(record.is_well_formed());
}

#[test]
fn scenario_expired_deposit_then_cancel() {
    let mut record = created();
    let late: i64 = T0 + 901;
    let failed = record.fund(buyer(), late, 0);
    assert_eq!(failed, Err(EscrowError::DepositDeadlineExpired));
    assert_eq!(record.state, EscrowState::Created);
    assert_eq!(record.counter, 0);

    let refund = record.cancel(seller(), late, 0).unwrap();
    assert_eq!(record.state, EscrowState::Cancelled);
    assert_eq!(refund.recipient, seller());
    assert_eq!(refund.units, AMOUNT);
    assert_eq!(record.counter, 1);
}

#[test]
fn fund_at_exact_deadline_rejected_and_just_before_accepted() {
    let mut at_deadline = created();
    let r = at_deadline.fund(buyer(), T0 + 900, 0);
    assert_eq!(r, Err(EscrowError::DepositDeadlineExpired));

    let mut just_before = created();
    just_before.fund(buyer(), T0 + 899, 0).unwrap();
    assert_eq!(just_before.state, EscrowState::Funded);
}

#[test]
fn confirm_at_exact_fiat_deadline_rejected() {
    let mut record = created();
    record.fund(buyer(), T0 + 100, 0).unwrap();
    let fiat_deadline: i64 = T0 + 100 + 1800;
    let r = record.confirm_fiat(seller(), fiat_deadline, 1);
    assert_eq!(r, Err(EscrowError::FiatDeadlineExpired));
    assert!(!record.fiat_paid);

    let ok = record.confirm_fiat(seller(), fiat_deadline - 1, 1);
    assert_eq!(ok, Ok(()));
    assert!(record.fiat_paid);
}

#[test]
fn fund_by_wrong_caller_rejected() {
    let mut record = created();
    let r = record.fund(seller(), T0 + 100, 0);
    assert_eq!(r, Err(EscrowError::Unauthorized));
    assert_eq!(record.state, EscrowState::Created);
}

#[test]
fn release_requires_confirmed_fiat() {
    let mut record = created();
    record.fund(buyer(), T0 + 100, 0).unwrap();
    let r = record.release(seller(), T0 + 200, 1);
    assert_eq!(r, Err(EscrowError::InvalidState));
    assert_eq!(record.state, EscrowState::Funded);
}

#[test]
fn release_by_buyer_rejected() {
    let mut record = created();
    record.fund(buyer(), T0 + 100, 0).unwrap();
    record.confirm_fiat(seller(), T0 + 200, 1).unwrap();
    let r = record.release(buyer(), T0 + 300, 2);
    assert_eq!(r, Err(EscrowError::Unauthorized));
}

#[test]
fn sequential_release_pays_forward_address() {
    let forward = ident(7);
    let mut record = create_escrow(3, 4, seller(), buyer(), arbitrator(), AMOUNT, true,
        Some(forward), T0)
        .unwrap();
    record.fund(buyer(), T0 + 10, 0).unwrap();
    record.confirm_fiat(seller(), T0 + 20, 1).unwrap();
    let payout = record.release(seller(), T0 + 30, 2).unwrap();
    assert_eq!(payout.recipient, forward);
    assert_eq!(payout.units, AMOUNT - FEE);
}

#[test]
fn cancel_before_deposit_deadline_rejected() {
    let mut record = created();
    let r = record.cancel(seller(), T0 + 100, 0);
    assert_eq!(r, Err(EscrowError::InvalidState));
    assert_eq!(record.state, EscrowState::Created);
}

#[test]
fn cancel_funded_after_fiat_deadline_refunds_principal_and_fee() {
    let mut record = created();
    record.fund(buyer(), T0 + 100, 0).unwrap();
    let fiat_deadline: i64 = T0 + 100 + 1800;

    let early = record.cancel(buyer(), fiat_deadline - 1, 1);
    assert_eq!(early, Err(EscrowError::InvalidState));

    let refund = record.cancel(buyer(), fiat_deadline, 1).unwrap();
    assert_eq!(record.state, EscrowState::Cancelled);
    assert_eq!(refund.recipient, seller());
    assert_eq!(refund.units, AMOUNT + FEE);
}

#[test]
fn cancel_funded_with_confirmed_fiat_rejected() {
    let mut record = created();
    record.fund(buyer(), T0 + 100, 0).unwrap();
    record.confirm_fiat(seller(), T0 + 200, 1).unwrap();
    let r = record.cancel(buyer(), T0 + 100 + 1800, 2);
    assert_eq!(r, Err(EscrowError::InvalidState));
    assert_eq!(record.state, EscrowState::Funded);
}

#[test]
fn cancel_funded_by_outsider_rejected() {
    let mut record = created();
    record.fund(buyer(), T0 + 100, 0).unwrap();
    let r = record.cancel(ident(42), T0 + 100 + 1800, 1);
    assert_eq!(r, Err(EscrowError::Unauthorized));
}

#[test]
fn stale_counter_never_reapplies_effects() {
    let mut record = created();
    record.fund(buyer(), T0 + 100, 0).unwrap();
    let snapshot = record;

    let replay = record.fund(buyer(), T0 + 100, 0);
    assert_eq!(replay, Err(EscrowError::InvalidState));
    assert_eq!(record, snapshot);

    record.confirm_fiat(seller(), T0 + 200, 1).unwrap();
    let confirmed = record;
    let replayed_confirm = record.confirm_fiat(seller(), T0 + 200, 1);
    assert_eq!(replayed_confirm, Err(EscrowError::InvalidState));
    assert_eq!(record, confirmed);
}

#[test]
fn terminal_record_rejects_every_operation_unchanged() {
    let mut record = created();
    record.fund(buyer(), T0 + 100, 0).unwrap();
    record.confirm_fiat(seller(), T0 + 200, 1).unwrap();
    record.release(seller(), T0 + 300, 2).unwrap();
    let terminal = record;

    assert_eq!(record.fund(buyer(), T0 + 400, 3), Err(EscrowError::TerminalState));
    assert_eq!(record, terminal);
    assert_eq!(record.confirm_fiat(seller(), T0 + 400, 3), Err(EscrowError::TerminalState));
    assert_eq!(record, terminal);
    assert_eq!(record.release(seller(), T0 + 400, 3), Err(EscrowError::TerminalState));
    assert_eq!(record, terminal);
    assert_eq!(record.cancel(seller(), T0 + 400, 3), Err(EscrowError::TerminalState));
    assert_eq!(record, terminal);
    assert_eq!(record.open_dispute(buyer(), T0 + 400, 3, 5_000_000),
        Err(EscrowError::TerminalState));
    assert_eq!(record, terminal);
}

#[test]
fn operations_from_wrong_state_rejected() {
    let mut fresh = created();
    assert_eq!(fresh.confirm_fiat(seller(), T0 + 100, 0), Err(EscrowError::InvalidState));
    assert_eq!(fresh.release(seller(), T0 + 100, 0), Err(EscrowError::InvalidState));
    assert_eq!(fresh.open_dispute(buyer(), T0 + 100, 0, 5_000_000),
        Err(EscrowError::InvalidState));

    let mut funded = created();
    funded.fund(buyer(), T0 + 100, 0).unwrap();
    assert_eq!(funded.fund(buyer(), T0 + 200, 1), Err(EscrowError::InvalidState));
}

#[test]
fn well_formedness_check_spots_a_corrupted_record() {
    let mut record = created();
    assert!(record.is_well_formed());
    record.fee = record.fee + 1;
    assert!(!record.is_well_formed());
}

#[test]
fn fee_immutable_across_lifecycle() {
    let mut record = created();
    assert_eq!(record.fee, FEE);
    record.fund(buyer(), T0 + 100, 0).unwrap();
    assert_eq!(record.fee, FEE);
    record.confirm_fiat(seller(), T0 + 200, 1).unwrap();
    assert_eq!(record.fee, FEE);
    record.release(seller(), T0 + 300, 2).unwrap();
    assert_eq!(record.fee, FEE);
}
