//! Escrow lifecycle engine for a peer-to-peer fiat/token trade.
//!
//! The library is a pure state-transition engine over one escrow record at a
//! time: it validates a caller's identity, the record's current state and the
//! wall-clock deadlines, computes the 1% fee and the 5% dispute bond in
//! fixed-point integer arithmetic, and runs the bonded dispute/arbitration
//! protocol. Account storage, signatures, fund custody and the clock are
//! external collaborators: each operation takes the caller identity and the
//! current time as plain values and returns either the mutated record together
//! with any requested fund movement, or an error that leaves the record
//! unchanged.

pub mod addressing;
pub mod constants;
pub mod dispute;
pub mod engine;
pub mod errors;
pub mod fees;
pub mod laws;
pub mod record;
pub mod transition;
