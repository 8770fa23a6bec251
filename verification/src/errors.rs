use vstd::prelude::*;

verus! {

/// Every way an operation can be rejected. A rejected operation leaves the
/// record unchanged; no error triggers an automatic state change.
///
/// `InsufficientFunds` and `BumpNotFound` belong to the custody and storage
/// collaborators (too little custodied money to cover principal and fee, and a
/// failed derived-address computation): the engine itself never produces them,
/// but callers must be able to branch on them alongside the engine's own
/// rejections, so they are part of the one error type.
#[derive(Clone, Copy, Debug, PartialEq, Eq, Structural)]
pub enum EscrowError {
    /// The principal is zero.
    InvalidAmount,
    /// The principal exceeds `MAX_AMOUNT`.
    ExceedsMaximum,
    /// The caller does not hold the role required for the attempted edge.
    Unauthorized,
    /// Funding was attempted at or after the deposit deadline.
    DepositDeadlineExpired,
    /// Fiat confirmation was attempted at or after the fiat deadline.
    FiatDeadlineExpired,
    /// The record's current state (or its version counter) does not admit the
    /// attempted operation.
    InvalidState,
    /// `sequential` was set without a sequential escrow address.
    MissingSequentialAddress,
    /// The record is in a terminal state; nothing may change any more.
    TerminalState,
    /// Fixed-point or deadline arithmetic cannot be represented.
    FeeCalculationError,
    /// Custody collaborator: too little custodied money for principal and fee.
    InsufficientFunds,
    /// A dispute bond was presented with the wrong amount.
    IncorrectBondAmount,
    /// The 72-hour dispute response window has elapsed.
    ResponseDeadlineExpired,
    /// The evidence digest is the all-zero value.
    InvalidEvidenceHash,
    /// The same party tried to submit evidence a second time.
    DuplicateEvidence,
    /// The 168-hour arbitration window has elapsed.
    ArbitrationDeadlineExpired,
    /// A dispute operation that owes a bond was presented without one.
    MissingDisputeBond,
    /// The resolution digest is the all-zero value.
    InvalidResolutionExplanation,
    /// Storage collaborator: no bump seed for the derived record address.
    BumpNotFound,
}

} // verus!
