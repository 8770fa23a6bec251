use vstd::prelude::*;

verus! {

/// Storage key of the record for `(escrow_id, trade_id)`, as a mathematical
/// value: the escrow identifier in the low 64 bits, the trade identifier in
/// the high 64 bits. This is version 1 of the addressing scheme; it is
/// deterministic and independent of any storage engine, so callers and the
/// record store agree on a record's address without prior coordination.
pub open spec fn record_key(escrow_id: u64, trade_id: u64) -> int {
    escrow_id + trade_id * 0x1_0000_0000_0000_0000
}

/// Derives the storage key for a record from its two correlation
/// identifiers.
pub fn derive_record_key(escrow_id: u64, trade_id: u64) -> (k: u128)
    ensures
        k == record_key(escrow_id, trade_id),
{
    (escrow_id as u128) + (trade_id as u128) * 0x1_0000_0000_0000_0000u128
}

/// Law: record addressing is injective — two distinct `(escrow_id,
/// trade_id)` pairs never collide on one storage key.
pub proof fn lemma_record_key_injective(e1: u64, t1: u64, e2: u64, t2: u64)
    requires
        record_key(e1, t1) == record_key(e2, t2),
    ensures
        e1 == e2,
        t1 == t2,
{
}

} // verus!
