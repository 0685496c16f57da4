use vstd::prelude::*;

use crate::bytes::bytes_eq;
use crate::market::{MarketState, Resolution, ResolutionProof, ResolutionView};

verus! {

/// A recorded resolution taken by its view.
pub open spec fn resolution_view(r: Option<Resolution>) -> Option<ResolutionView> {
    match r {
        Some(r) => Some(r@),
        None => None,
    }
}

/// The fields a market keeps for its whole life are equal in `new` and `old`:
/// id, question, parameters, creator and supply cap.
pub open spec fn same_identity(new: MarketState, old: MarketState) -> bool {
    &&& new.market_id == old.market_id
    &&& new.question_hash == old.question_hash
    &&& new.params.trading_deadline == old.params.trading_deadline
    &&& new.params.resolution_deadline == old.params.resolution_deadline
    &&& new.params.fee_bps == old.params.fee_bps
    &&& new.params.min_bet == old.params.min_bet
    &&& new.creator == old.creator
    &&& new.max_supply == old.max_supply
}

/// Whether `new` and `old` agree on the fields a market keeps for its whole
/// life.
pub fn identity_unchanged(new: &MarketState, old: &MarketState) -> (same: bool)
    ensures
        same == same_identity(*new, *old),
{
    bytes_eq(&new.market_id, &old.market_id) && bytes_eq(&new.question_hash, &old.question_hash)
        && new.params.trading_deadline == old.params.trading_deadline
        && new.params.resolution_deadline == old.params.resolution_deadline
        && new.params.fee_bps == old.params.fee_bps && new.params.min_bet == old.params.min_bet
        && bytes_eq(&new.creator, &old.creator) && new.max_supply == old.max_supply
}

fn merkle_paths_eq(a: &Vec<[u8; 32]>, b: &Vec<[u8; 32]>) -> (same: bool)
    ensures
        same == (a@ == b@),
{
    if a.len() != b.len() {
        return false;
    }
    let mut i: usize = 0;
    while i < a.len()
        invariant
            a@.len() == b@.len(),
            i <= a@.len(),
            forall|j: int| 0 <= j < i ==> a@[j] == b@[j],
        decreases a@.len() - i,
    {
        if !bytes_eq(&a[i], &b[i]) {
            return false;
        }
        i = i + 1;
    }
    assert(a@ =~= b@);
    true
}

fn proofs_eq(a: &ResolutionProof, b: &ResolutionProof) -> (same: bool)
    ensures
        same == (a@ == b@),
{
    match (a, b) {
        (
            ResolutionProof::SignedAttestation { resolver_pubkey: k1, signature: s1 },
            ResolutionProof::SignedAttestation { resolver_pubkey: k2, signature: s2 },
        ) => bytes_eq(k1, k2) && bytes_eq(s1, s2),
        (
            ResolutionProof::CardanoOracle {
                tx_hash: t1,
                block_hash: h1,
                merkle_proof: m1,
                oracle_pubkey: k1,
                oracle_signature: s1,
            },
            ResolutionProof::CardanoOracle {
                tx_hash: t2,
                block_hash: h2,
                merkle_proof: m2,
                oracle_pubkey: k2,
                oracle_signature: s2,
            },
        ) => bytes_eq(t1, t2) && bytes_eq(h1, h2) && merkle_paths_eq(m1, m2) && bytes_eq(k1, k2)
            && bytes_eq(s1, s2),
        _ => false,
    }
}

/// Whether two recorded resolutions are equal (outcome, proof and timestamp).
pub fn resolutions_eq(a: &Option<Resolution>, b: &Option<Resolution>) -> (same: bool)
    ensures
        same == (resolution_view(*a) == resolution_view(*b)),
{
    match (a, b) {
        (None, None) => true,
        (Some(x), Some(y)) => x.outcome == y.outcome && x.timestamp == y.timestamp && proofs_eq(
            &x.proof,
            &y.proof,
        ),
        _ => false,
    }
}

} // verus!
