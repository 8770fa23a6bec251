use simple_escrow::engine::create_escrow;
use simple_escrow::errors::EscrowError;
use simple_escrow::record::{Escrow, EscrowState, Hash32, Identity};
use simple_escrow::transition::ResolutionDecision;

fn ident(tag: u64) -> Identity {
    Identity { w0: tag, w1: 0, w2: 0, w3: 0 }
}

fn digest(tag: u64) -> Hash32 {
    Hash32 { w0: tag, w1: tag, w2: tag, w3: tag }
}

fn seller() -> Identity {
    ident(1)
}

fn buyer() -> Identity {
    ident(2)
}

fn arbitrator() -> Identity {
    ident(9)
}

const T0: i64 = 1_700_000_000;
const AMOUNT: u64 = 100_000_000;
const FEE: u64 = 1_000_000;
const BOND: u64 = 5_000_000;
const HOUR: i64 = 3600;

fn funded() -> Escrow {
    let mut record = create_escrow(1, 1, seller(), buyer(), arbitrator(), AMOUNT, false, None,
        T0)
        .unwrap();
    record.fund(buyer(), T0 + 100, 0).unwrap();
    record
}

fn disputed_by_buyer() -> Escrow {
    let mut record = funded();
    record.open_dispute(buyer(), T0 + 200, 1, BOND).unwrap();
    record
}

#[test]
fn scenario_full_dispute_to_resolution() {
    let mut record = funded();
    record.open_dispute(buyer(), T0 + 200, 1, BOND).unwrap();
    assert_eq!(record.state, EscrowState::Disputed);
    assert_eq!(record.dispute_initiated_time, Some(T0 + 200));
    assert_eq!(record.dispute_initiator, Some(buyer()));

    // The initiator's bond was taken at opening; the initiator submits free.
    record.submit_evidence(buyer(), T0 + 300, 2, digest(11), 0).unwrap();
    assert_eq!(record.dispute_evidence_hash_buyer, Some(digest(11)));

    // The counterparty matches the bond with its evidence.
    record.submit_evidence(seller(), T0 + 400, 3, digest(22), BOND).unwrap();
    assert_eq!(record.dispute_evidence_hash_seller, Some(digest(22)));

    // A second submission by the same party fails before resolution.
    let duplicate = record.submit_evidence(buyer(), T0 + 500, 4, digest(33), 0);
    assert_eq!(duplicate, Err(EscrowError::DuplicateEvidence));

    let outcome = record.resolve(arbitrator(), T0 + 600, 4, ResolutionDecision::ReleaseToBuyer,
        digest(99))
        .unwrap();
    assert_eq!(record.state, EscrowState::Resolved);
    assert_eq!(record.dispute_resolution_hash, Some(digest(99)));
    assert_eq!(outcome.buyer_units, AMOUNT - FEE);
    assert_eq!(outcome.seller_units, 0);
    assert_eq!(outcome.fee_units, FEE);
    // Both bonds accounted for: the winner's returned, the loser's forfeited.
    assert_eq!(outcome.buyer_bond_returned, BOND);
    assert_eq!(outcome.seller_bond_returned, 0);
    assert_eq!(outcome.bonds_forfeited_to_sink, BOND);
    assert!(record.is_well_formed());
}

#[test]
fn open_dispute_bond_must_be_exact() {
    let mut no_bond = funded();
    assert_eq!(no_bond.open_dispute(buyer(), T0 + 200, 1, 0),
        Err(EscrowError::MissingDisputeBond));

    let mut wrong_bond = funded();
    assert_eq!(wrong_bond.open_dispute(buyer(), T0 + 200, 1, BOND - 1),
        Err(EscrowError::IncorrectBondAmount));
    assert_eq!(wrong_bond.state, EscrowState::Funded);

    let mut right_bond = funded();
    assert_eq!(right_bond.open_dispute(seller(), T0 + 200, 1, BOND), Ok(()));
    assert_eq!(right_bond.dispute_initiator, Some(seller()));
}

#[test]
fn open_dispute_window_closes_after_response_window() {
    let fiat_deadline: i64 = T0 + 100 + 1800;
    let mut at_end = funded();
    assert_eq!(at_end.open_dispute(buyer(), fiat_deadline + 72 * HOUR, 1, BOND), Ok(()));

    let mut too_late = funded();
    assert_eq!(too_late.open_dispute(buyer(), fiat_deadline + 72 * HOUR + 1, 1, BOND),
        Err(EscrowError::ResponseDeadlineExpired));
    assert_eq!(too_late.state, EscrowState::Funded);
}

#[test]
fn open_dispute_by_outsider_rejected() {
    let mut record = funded();
    assert_eq!(record.open_dispute(ident(42), T0 + 200, 1, BOND),
        Err(EscrowError::Unauthorized));
}

#[test]
fn evidence_window_is_inclusive_at_its_end() {
    let opened: i64 = T0 + 200;
    let mut at_end = disputed_by_buyer();
    assert_eq!(at_end.submit_evidence(buyer(), opened + 72 * HOUR, 2, digest(11), 0), Ok(()));

    let mut too_late = disputed_by_buyer();
    assert_eq!(too_late.submit_evidence(buyer(), opened + 72 * HOUR + 1, 2, digest(11), 0),
        Err(EscrowError::ResponseDeadlineExpired));
}

#[test]
fn zero_evidence_digest_rejected() {
    let mut record = disputed_by_buyer();
    let zero = Hash32 { w0: 0, w1: 0, w2: 0, w3: 0 };
    assert_eq!(record.submit_evidence(buyer(), T0 + 300, 2, zero, 0),
        Err(EscrowError::InvalidEvidenceHash));
}

#[test]
fn counterparty_evidence_requires_matched_bond() {
    let mut no_bond = disputed_by_buyer();
    assert_eq!(no_bond.submit_evidence(seller(), T0 + 300, 2, digest(22), 0),
        Err(EscrowError::MissingDisputeBond));

    let mut wrong_bond = disputed_by_buyer();
    assert_eq!(wrong_bond.submit_evidence(seller(), T0 + 300, 2, digest(22), BOND + 1),
        Err(EscrowError::IncorrectBondAmount));

    let mut initiator_with_bond = disputed_by_buyer();
    assert_eq!(initiator_with_bond.submit_evidence(buyer(), T0 + 300, 2, digest(11), BOND),
        Err(EscrowError::IncorrectBondAmount));
}

#[test]
fn resolve_window_is_inclusive_at_its_end() {
    let opened: i64 = T0 + 200;
    let mut at_end = disputed_by_buyer();
    assert!(at_end.resolve(arbitrator(), opened + 168 * HOUR, 2,
        ResolutionDecision::RefundToSeller, digest(99)).is_ok());
    assert_eq!(at_end.state, EscrowState::Resolved);

    let mut too_late = disputed_by_buyer();
    assert_eq!(too_late.resolve(arbitrator(), opened + 168 * HOUR + 1, 2,
        ResolutionDecision::RefundToSeller, digest(99)),
        Err(EscrowError::ArbitrationDeadlineExpired));
    assert_eq!(too_late.state, EscrowState::Disputed);
}

#[test]
fn resolve_by_party_rejected() {
    let mut record = disputed_by_buyer();
    assert_eq!(record.resolve(buyer(), T0 + 300, 2, ResolutionDecision::ReleaseToBuyer,
        digest(99)),
        Err(EscrowError::Unauthorized));
}

#[test]
fn resolve_requires_nonzero_resolution_digest() {
    let mut record = disputed_by_buyer();
    let zero = Hash32 { w0: 0, w1: 0, w2: 0, w3: 0 };
    assert_eq!(record.resolve(arbitrator(), T0 + 300, 2, ResolutionDecision::ReleaseToBuyer,
        zero),
        Err(EscrowError::InvalidResolutionExplanation));
}

#[test]
fn resolve_refund_to_seller_forfeits_initiator_bond() {
    let mut record = disputed_by_buyer();
    let outcome = record.resolve(arbitrator(), T0 + 300, 2, ResolutionDecision::RefundToSeller,
        digest(99))
        .unwrap();
    assert_eq!(outcome.buyer_units, 0);
    assert_eq!(outcome.seller_units, AMOUNT - FEE);
    assert_eq!(outcome.fee_units, FEE);
    // Only the buyer had posted a bond; it is forfeited to the fee sink.
    assert_eq!(outcome.buyer_bond_returned, 0);
    assert_eq!(outcome.seller_bond_returned, 0);
    assert_eq!(outcome.bonds_forfeited_to_sink, BOND);
}

#[test]
fn resolve_split_returns_both_bonds() {
    let mut record = disputed_by_buyer();
    record.submit_evidence(buyer(), T0 + 300, 2, digest(11), 0).unwrap();
    record.submit_evidence(seller(), T0 + 400, 3, digest(22), BOND).unwrap();
    let outcome = record.resolve(arbitrator(), T0 + 500, 4,
        ResolutionDecision::Split { buyer_units: 40_000_000 }, digest(99))
        .unwrap();
    assert_eq!(outcome.buyer_units, 40_000_000);
    assert_eq!(outcome.seller_units, AMOUNT - FEE - 40_000_000);
    assert_eq!(outcome.fee_units, FEE);
    assert_eq!(outcome.buyer_bond_returned, BOND);
    assert_eq!(outcome.seller_bond_returned, BOND);
    assert_eq!(outcome.bonds_forfeited_to_sink, 0);
    assert_eq!(outcome.buyer_units + outcome.seller_units + outcome.fee_units, AMOUNT);
}

#[test]
fn resolve_split_cannot_exceed_distributable_principal() {
    let mut record = disputed_by_buyer();
    let over = record.resolve(arbitrator(), T0 + 300, 2,
        ResolutionDecision::Split { buyer_units: AMOUNT - FEE + 1 }, digest(99));
    assert_eq!(over, Err(EscrowError::InvalidAmount));
    assert_eq!(record.state, EscrowState::Disputed);
}

#[test]
fn dispute_possible_even_after_fiat_confirmed() {
    let mut record = funded();
    record.confirm_fiat(seller(), T0 + 200, 1).unwrap();
    assert_eq!(record.open_dispute(buyer(), T0 + 300, 2, BOND), Ok(()));
    assert_eq!(record.state, EscrowState::Disputed);
}

#[test]
fn evidence_by_outsider_rejected() {
    let mut record = disputed_by_buyer();
    assert_eq!(record.submit_evidence(ident(42), T0 + 300, 2, digest(11), 0),
        Err(EscrowError::Unauthorized));
    assert_eq!(record.state, EscrowState::Disputed);
}

#[test]
fn resolved_record_is_terminal() {
    let mut record = disputed_by_buyer();
    record.resolve(arbitrator(), T0 + 300, 2, ResolutionDecision::ReleaseToBuyer, digest(99))
        .unwrap();
    let terminal = record;
    assert_eq!(record.submit_evidence(buyer(), T0 + 400, 3, digest(11), 0),
        Err(EscrowError::TerminalState));
    assert_eq!(record, terminal);
    assert_eq!(record.resolve(arbitrator(), T0 + 400, 3, ResolutionDecision::ReleaseToBuyer,
        digest(98)),
        Err(EscrowError::TerminalState));
    assert_eq!(record, terminal);
}
