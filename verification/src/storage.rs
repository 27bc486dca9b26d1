//! Counter rules behind the contract's storage: what a stored counter reads
//! as, and which identifier is issued next.  The host ledger itself holds
//! the entries; these functions take the stored value and give back the
//! value to return and to write.
use vstd::prelude::*;

verus! {

/// A per-holder policy counter as stored: a missing entry reads as zero.
pub open spec fn policy_count(stored: Option<u32>) -> u32 {
    match stored {
        Some(c) => c,
        None => 0,
    }
}

/// The global claim counter as stored: a missing entry reads as zero.
pub open spec fn claim_count(stored: Option<u64>) -> u64 {
    match stored {
        Some(c) => c,
        None => 0,
    }
}

/// The policy counter of a holder, given its stored entry.
pub fn get_policy_counter(stored: Option<u32>) -> (c: u32)
    ensures
        c == policy_count(stored),
        stored is None ==> c == 0,
        stored is Some ==> c == stored->0,
{
    match stored {
        Some(c) => c,
        None => 0u32,
    }
}

/// The global claim counter, given its stored entry.
pub fn get_claim_counter(stored: Option<u64>) -> (c: u64)
    ensures
        c == claim_count(stored),
        stored is None ==> c == 0,
        stored is Some ==> c == stored->0,
{
    match stored {
        Some(c) => c,
        None => 0u64,
    }
}

/// The next policy id of a holder, given the stored counter: one more than
/// the counter.  The caller stores it as the new counter and returns it.
pub fn next_policy_id(stored: Option<u32>) -> (next: u32)
    requires
        policy_count(stored) < u32::MAX,
    ensures
        next == policy_count(stored) + 1,
        stored is None ==> next == 1,
        stored is Some ==> next == stored->0 + 1,
{
    get_policy_counter(stored) + 1
}

/// The next global claim id, given the stored counter: one more than the
/// counter.  The caller stores it as the new counter and returns it.
pub fn next_claim_id(stored: Option<u64>) -> (next: u64)
    requires
        claim_count(stored) < u64::MAX,
    ensures
        next == claim_count(stored) + 1,
        stored is None ==> next == 1,
        stored is Some ==> next == stored->0 + 1,
{
    get_claim_counter(stored) + 1
}

/// Policy ids are issued consecutively: the counter read back after an issue
/// is the issued id, and the next issue gives the following integer, so no
/// id is issued twice to the same holder.
pub proof fn lemma_policy_ids_consecutive(stored: Option<u32>)
    requires
        policy_count(stored) + 1 < u32::MAX,
    ensures
        policy_count(Some((policy_count(stored) + 1) as u32)) == policy_count(stored) + 1,
        policy_count(Some((policy_count(stored) + 1) as u32)) + 1 == policy_count(stored) + 2,
{
}

/// Claim ids are issued consecutively: the counter read back after an issue
/// is the issued id, and the next issue gives the following integer, so no
/// claim id is issued twice.
pub proof fn lemma_claim_ids_consecutive(stored: Option<u64>)
    requires
        claim_count(stored) + 1 < u64::MAX,
    ensures
        claim_count(Some((claim_count(stored) + 1) as u64)) == claim_count(stored) + 1,
        claim_count(Some((claim_count(stored) + 1) as u64)) + 1 == claim_count(stored) + 2,
{
}

} // verus!
