use vstd::prelude::*;

use crate::constants::{BASIS_POINTS_DENOMINATOR, FEE_BASIS_POINTS, MAX_AMOUNT};

verus! {

/// An opaque 32-byte party identity, held as four 64-bit words
/// (word 0 is the first eight bytes of the identity, little-endian).
#[derive(Clone, Copy, Debug, PartialEq, Eq, Structural)]
pub struct Identity {
    pub w0: u64,
    pub w1: u64,
    pub w2: u64,
    pub w3: u64,
}

/// A 32-byte digest committing to dispute evidence or to a resolution
/// explanation, held as four 64-bit words. The all-zero digest is reserved as
/// "no commitment" and is rejected wherever a digest is required.
#[derive(Clone, Copy, Debug, PartialEq, Eq, Structural)]
pub struct Hash32 {
    pub w0: u64,
    pub w1: u64,
    pub w2: u64,
    pub w3: u64,
}

impl Hash32 {
    /// The all-zero digest, which never stands for a real commitment.
    pub open spec fn spec_is_zero(self) -> bool {
        self.w0 == 0 && self.w1 == 0 && self.w2 == 0 && self.w3 == 0
    }

    pub fn is_zero(&self) -> (r: bool)
        ensures
            r == self.spec_is_zero(),
    {
        self.w0 == 0 && self.w1 == 0 && self.w2 == 0 && self.w3 == 0
    }
}

/// Lifecycle states of one escrow record.
#[derive(Clone, Copy, Debug, PartialEq, Eq, Structural)]
pub enum EscrowState {
    Created,
    Funded,
    Released,
    Cancelled,
    Disputed,
    Resolved,
}

impl EscrowState {
    /// Terminal states: the end of a record's logical life.
    pub open spec fn spec_is_terminal(self) -> bool {
        self == EscrowState::Released || self == EscrowState::Cancelled
            || self == EscrowState::Resolved
    }

    pub fn is_terminal(&self) -> (r: bool)
        ensures
            r == self.spec_is_terminal(),
    {
        match self {
            EscrowState::Released => true,
            EscrowState::Cancelled => true,
            EscrowState::Resolved => true,
            _ => false,
        }
    }
}

/// The edges of the lifecycle graph: exactly the source/destination state
/// pairs an accepted operation may produce. `Funded -> Funded` is the fiat
/// confirmation self-loop; `Disputed -> Disputed` is the evidence self-loop.
pub open spec fn transition_edge(pre: EscrowState, post: EscrowState) -> bool {
    ||| (pre == EscrowState::Created && post == EscrowState::Funded)
    ||| (pre == EscrowState::Created && post == EscrowState::Cancelled)
    ||| (pre == EscrowState::Funded && post == EscrowState::Funded)
    ||| (pre == EscrowState::Funded && post == EscrowState::Released)
    ||| (pre == EscrowState::Funded && post == EscrowState::Cancelled)
    ||| (pre == EscrowState::Funded && post == EscrowState::Disputed)
    ||| (pre == EscrowState::Disputed && post == EscrowState::Disputed)
    ||| (pre == EscrowState::Disputed && post == EscrowState::Resolved)
}

/// The persistent record for one trade's escrow, identified by
/// `(escrow_id, trade_id)`.
#[derive(Clone, Copy, Debug, PartialEq, Eq)]
pub struct Escrow {
    /// External correlation identifier of the escrow.
    pub escrow_id: u64,
    /// External correlation identifier of the trade.
    pub trade_id: u64,
    /// The party selling the token side and awaiting fiat.
    pub seller: Identity,
    /// The party funding the escrow and paying fiat.
    pub buyer: Identity,
    /// The identity allowed to resolve disputes, fixed at creation.
    pub arbitrator: Identity,
    /// Principal in fixed-point units (six implied decimals).
    pub amount: u64,
    /// The 1% fee, computed once at creation and immutable afterwards.
    pub fee: u64,
    /// When true, released funds must forward to `sequential_escrow_address`.
    pub sequential: bool,
    /// Required exactly when `sequential` is set.
    pub sequential_escrow_address: Option<Identity>,
    /// Current lifecycle state.
    pub state: EscrowState,
    /// Creation time plus fifteen minutes; funding must occur strictly before.
    pub deposit_deadline: i64,
    /// Unset until funding; then funding time plus thirty minutes, immutable.
    pub fiat_deadline: Option<i64>,
    /// Set by the seller's fiat confirmation.
    pub fiat_paid: bool,
    /// Set when a party opens a dispute; immutable afterwards.
    pub dispute_initiated_time: Option<i64>,
    /// The buyer or seller who opened the dispute.
    pub dispute_initiator: Option<Identity>,
    /// The buyer's evidence commitment, write-once.
    pub dispute_evidence_hash_buyer: Option<Hash32>,
    /// The seller's evidence commitment, write-once.
    pub dispute_evidence_hash_seller: Option<Hash32>,
    /// The arbitrator's decision commitment, write-once.
    pub dispute_resolution_hash: Option<Hash32>,
    /// Version counter: increments by one on every accepted mutation and
    /// guards against replayed or racing calls.
    pub counter: u64,
}

impl Escrow {
    /// The record invariants. Creation establishes them and every accepted
    /// operation preserves them.
    pub open spec fn wf(self) -> bool {
        &&& 0 < self.amount <= MAX_AMOUNT
        &&& self.fee == crate::fees::spec_fee(self.amount)
        &&& (self.sequential ==> self.sequential_escrow_address.is_some())
        &&& (self.state == EscrowState::Created ==> self.fiat_deadline.is_none())
        &&& (self.state == EscrowState::Funded || self.state == EscrowState::Released
            || self.state == EscrowState::Disputed || self.state == EscrowState::Resolved
            ==> self.fiat_deadline.is_some())
        &&& (self.dispute_initiated_time.is_some() <==> (self.state == EscrowState::Disputed
            || self.state == EscrowState::Resolved))
        &&& (self.dispute_initiator.is_some() <==> self.dispute_initiated_time.is_some())
        &&& (self.dispute_initiator matches Some(p) ==> p == self.buyer || p == self.seller)
        &&& (self.dispute_evidence_hash_buyer.is_some() ==> (self.state == EscrowState::Disputed
            || self.state == EscrowState::Resolved))
        &&& (self.dispute_evidence_hash_buyer matches Some(h) ==> !h.spec_is_zero())
        &&& (self.dispute_evidence_hash_seller.is_some() ==> (self.state == EscrowState::Disputed
            || self.state == EscrowState::Resolved))
        &&& (self.dispute_evidence_hash_seller matches Some(h) ==> !h.spec_is_zero())
        &&& (self.dispute_resolution_hash.is_some() <==> self.state == EscrowState::Resolved)
        &&& (self.dispute_resolution_hash matches Some(h) ==> !h.spec_is_zero())
        &&& (self.fiat_paid ==> self.state != EscrowState::Created
            && self.state != EscrowState::Cancelled)
        &&& (self.state == EscrowState::Released ==> self.fiat_paid)
    }

    /// Runtime check of `wf`, for collaborators that hold a record whose
    /// provenance they cannot prove.
    pub fn is_well_formed(&self) -> (r: bool)
        ensures
            r == self.wf(),
    {
        let amount_ok: bool = 0 < self.amount && self.amount <= MAX_AMOUNT;
        if !amount_ok {
            return false;
        }
        let fee_ok: bool = self.fee == self.amount * FEE_BASIS_POINTS / BASIS_POINTS_DENOMINATOR;
        let sequential_ok: bool = !self.sequential || self.sequential_escrow_address.is_some();
        let created_ok: bool = self.state != EscrowState::Created || self.fiat_deadline.is_none();
        let post_funding: bool = self.state == EscrowState::Funded
            || self.state == EscrowState::Released || self.state == EscrowState::Disputed
            || self.state == EscrowState::Resolved;
        let fiat_deadline_ok: bool = !post_funding || self.fiat_deadline.is_some();
        let in_dispute: bool = self.state == EscrowState::Disputed
            || self.state == EscrowState::Resolved;
        let dispute_time_ok: bool = self.dispute_initiated_time.is_some() == in_dispute;
        let initiator_ok: bool = self.dispute_initiator.is_some()
            == self.dispute_initiated_time.is_some();
        let initiator_party_ok: bool = match self.dispute_initiator {
            Some(p) => p == self.buyer || p == self.seller,
            None => true,
        };
        let evidence_buyer_ok: bool = match self.dispute_evidence_hash_buyer {
            Some(h) => in_dispute && !h.is_zero(),
            None => true,
        };
        let evidence_seller_ok: bool = match self.dispute_evidence_hash_seller {
            Some(h) => in_dispute && !h.is_zero(),
            None => true,
        };
        let resolution_ok: bool = match self.dispute_resolution_hash {
            Some(h) => self.state == EscrowState::Resolved && !h.is_zero(),
            None => self.state != EscrowState::Resolved,
        };
        let fiat_paid_ok: bool = !self.fiat_paid || (self.state != EscrowState::Created
            && self.state != EscrowState::Cancelled);
        let released_ok: bool = self.state != EscrowState::Released || self.fiat_paid;
        fee_ok && sequential_ok && created_ok && fiat_deadline_ok && dispute_time_ok
            && initiator_ok && initiator_party_ok && evidence_buyer_ok && evidence_seller_ok
            && resolution_ok && fiat_paid_ok && released_ok
    }
}

} // verus!
