//! The validation rules run on concrete transactions.

use charms_sdk::data::util;
use charms_sdk::data::{TxId, UtxoId};
use echo_markets::charms::{AppId, CharmEntry, CharmSet, NFT, TOKEN};
use echo_markets::contract::{
    compute_fee, market_contract, validate_burn, validate_cancel, validate_claim_fees,
    validate_create, validate_mint, validate_redeem, validate_resolve, validate_token_transfer,
};
use echo_markets::crypto::{
    derive_no_token_app, derive_yes_token_app, outcome_bytes, sha256_utxo,
    verify_cardano_proof, verify_creator_signature, verify_resolution_signature,
};
use echo_markets::market::{
    MarketOperation, MarketParams, MarketState, MarketStatus, Outcome, Resolution, ResolutionProof,
};
use echo_markets::tx::{count_token_burned, count_token_minted, sum_token_amount, TokenSum, Transaction, TxInput};
use k256::schnorr::signature::Signer;
use k256::schnorr::{Signature, SigningKey};
use sha2::{Digest, Sha256};

const VK: [u8; 32] = [9u8; 32];
const FUNDING_TXID: [u8; 32] = [5u8; 32];
const NOW: u64 = 1735603200;

fn market_app() -> AppId {
    AppId { tag: NFT, identity: [7u8; 32], vk: VK }
}

fn params() -> MarketParams {
    MarketParams {
        trading_deadline: NOW + 86400,
        resolution_deadline: NOW + 172800,
        fee_bps: 100,
        min_bet: 10000,
    }
}

fn creator_key() -> SigningKey {
    SigningKey::from_bytes(&[3u8; 32]).unwrap()
}

fn resolver_key() -> SigningKey {
    SigningKey::from_bytes(&[4u8; 32]).unwrap()
}

fn compressed(key: &SigningKey) -> [u8; 33] {
    let mut out = [2u8; 33];
    out[1..].copy_from_slice(&key.verifying_key().to_bytes());
    out
}

fn sign(key: &SigningKey, message: &[u8]) -> [u8; 64] {
    let sig: Signature = key.sign(message);
    sig.to_bytes()
}

fn hash(parts: &[&[u8]]) -> [u8; 32] {
    let mut hasher = Sha256::new();
    for p in parts {
        hasher.update(p);
    }
    hasher.finalize().into()
}

fn market_id() -> [u8; 32] {
    let text = UtxoId(TxId(FUNDING_TXID), 0).to_string();
    hash(&[text.as_bytes()])
}

fn state(status: MarketStatus, supply: u64, fees: u64) -> MarketState {
    MarketState {
        market_id: market_id(),
        question_hash: [2u8; 32],
        params: params(),
        status,
        resolution: None,
        yes_supply: supply,
        no_supply: supply,
        max_supply: 1_000_000_000_000,
        fees,
        creator: compressed(&creator_key()),
    }
}

fn resolved(outcome: Outcome, supply: u64, fees: u64) -> MarketState {
    MarketState {
        resolution: Some(Resolution {
            outcome,
            proof: ResolutionProof::SignedAttestation { resolver_pubkey: [0u8; 33], signature: [0u8; 64] },
            timestamp: NOW + 172801,
        }),
        ..state(MarketStatus::Resolved, supply, fees)
    }
}

fn nft(s: &MarketState) -> CharmEntry {
    CharmEntry { app: market_app(), data: cbor(&"market state"), market: Some(s.clone()) }
}

fn tokens(app: AppId, amount: u64) -> CharmEntry {
    CharmEntry { app, data: cbor(&amount), market: None }
}

fn set(entries: Vec<CharmEntry>) -> CharmSet {
    let mut s = CharmSet::new();
    for e in entries {
        s.insert(e);
    }
    s
}

fn tx(ins: Vec<Vec<CharmEntry>>, outs: Vec<Vec<CharmEntry>>) -> Transaction {
    Transaction {
        ins: ins
            .into_iter()
            .enumerate()
            .map(|(i, e)| TxInput { txid: FUNDING_TXID, vout: i as u32, charms: set(e) })
            .collect(),
        outs: outs.into_iter().map(set).collect(),
        coin_ins: None,
        coin_outs: None,
    }
}

/// The transaction with the given sats on its inputs and outputs.
fn with_coins(t: Transaction, coin_ins: Vec<u64>, coin_outs: Vec<u64>) -> Transaction {
    Transaction { coin_ins: Some(coin_ins), coin_outs: Some(coin_outs), ..t }
}

const VAULT: u64 = 50_000;

fn yes_app() -> AppId {
    derive_yes_token_app(&market_id(), &VK)
}

fn no_app() -> AppId {
    derive_no_token_app(&market_id(), &VK)
}

fn resolution_proof(outcome: Outcome) -> ResolutionProof {
    let key = resolver_key();
    let index = outcome_index(&outcome);
    let message = hash(&[&market_id(), &[index, 0, 0, 0]]);
    ResolutionProof::SignedAttestation { resolver_pubkey: compressed(&key), signature: sign(&key, &message) }
}

fn outcome_index(outcome: &Outcome) -> u8 {
    match outcome {
        Outcome::Yes => 0,
        Outcome::No => 1,
        Outcome::Invalid => 2,
    }
}

fn creator_witness() -> Vec<u8> {
    let message = hash(&[b"CANCEL", &market_id()]);
    sign(&creator_key(), &message).to_vec()
}

// ---------------------------------------------------------------------------
// Building blocks
// ---------------------------------------------------------------------------

#[test]
fn fee_is_basis_points_of_collateral() {
    assert_eq!(compute_fee(1_000_000, 100), 10_000);
    assert_eq!(compute_fee(10_000, 250), 250);
    assert_eq!(compute_fee(9_999, 1), 0);
    assert_eq!(compute_fee(u64::MAX, 10000), u64::MAX);
    // above 100% the fee exceeds the collateral
    assert_eq!(compute_fee(10_000, 20_000), 20_000);
}

#[test]
fn market_id_is_hash_of_utxo_text() {
    let expected = hash(&[format!("{}:7", hex_rev(&FUNDING_TXID)).as_bytes()]);
    assert_eq!(sha256_utxo(&FUNDING_TXID, 7), expected);
}

fn hex_rev(bytes: &[u8; 32]) -> String {
    bytes.iter().rev().map(|b| format!("{:02x}", b)).collect()
}

#[test]
fn token_identities_hash_market_id_and_side() {
    let id = market_id();
    let yes = derive_yes_token_app(&id, &VK);
    let no = derive_no_token_app(&id, &VK);
    assert_eq!(yes.tag, TOKEN);
    assert_eq!(yes.vk, VK);
    assert_eq!(yes.identity, hash(&[&id, b"YES"]));
    assert_eq!(no.identity, hash(&[&id, b"NO"]));
    assert_ne!(yes.identity, no.identity);
}

#[test]
fn outcome_encoding_is_bincode_variant_index() {
    assert_eq!(outcome_bytes(Outcome::Yes), bincode::serialize(&0u32).unwrap());
    assert_eq!(outcome_bytes(Outcome::No), bincode::serialize(&1u32).unwrap());
    assert_eq!(outcome_bytes(Outcome::Invalid), bincode::serialize(&2u32).unwrap());
}

#[test]
fn charm_set_replaces_value_under_same_key() {
    let mut s = CharmSet::new();
    s.insert(tokens(yes_app(), 5));
    s.insert(tokens(no_app(), 6));
    s.insert(tokens(yes_app(), 7));
    assert_eq!(s.len(), 2);
    assert_eq!(s.get(&yes_app()).unwrap().data, cbor(&7u64));
    assert_eq!(s.get(&no_app()).unwrap().data, cbor(&6u64));
    assert!(s.get(&market_app()).is_none());
    // entries are walked in key order, whatever the order of insertion
    let key = |e: &CharmEntry| (e.app.tag, e.app.identity, e.app.vk);
    assert!(key(s.entry(0)) < key(s.entry(1)));
    let mut r = CharmSet::new();
    r.insert(tokens(no_app(), 6));
    r.insert(tokens(market_app(), 1));
    r.insert(tokens(yes_app(), 7));
    assert_eq!(r.len(), 3);
    assert!(key(r.entry(0)) < key(r.entry(1)));
    assert!(key(r.entry(1)) < key(r.entry(2)));
    assert_eq!(r.entry(0).app.tag, NFT);
}

#[test]
fn token_sums_report_overflow_and_bad_data() {
    let t = tx(vec![vec![tokens(yes_app(), u64::MAX)], vec![tokens(yes_app(), 1)]], vec![]);
    assert_eq!(sum_token_amount(&yes_app(), &t, true), TokenSum::Overflow);
    let t = tx(vec![vec![tokens(yes_app(), 3)], vec![tokens(yes_app(), 4)]], vec![]);
    assert_eq!(sum_token_amount(&yes_app(), &t, true), TokenSum::Total(7));
    assert_eq!(sum_token_amount(&yes_app(), &t, false), TokenSum::Total(0));
    let bad = CharmEntry { app: yes_app(), data: cbor(&"three"), market: None };
    let t = tx(vec![vec![tokens(yes_app(), 3)], vec![bad.clone()], vec![tokens(yes_app(), u64::MAX)]], vec![]);
    assert_eq!(sum_token_amount(&yes_app(), &t, true), TokenSum::Invalid);
    // a sum over a non-token app is not a sum
    assert_eq!(sum_token_amount(&market_app(), &t, true), TokenSum::Invalid);
}

#[test]
fn minted_and_burned_counts_are_net() {
    let t = tx(vec![vec![tokens(yes_app(), 10)]], vec![vec![tokens(yes_app(), 25)]]);
    assert_eq!(count_token_minted(&t, &yes_app()), Some(15));
    assert_eq!(count_token_burned(&t, &yes_app()), Some(0));
    let t = tx(vec![vec![tokens(yes_app(), 25)]], vec![vec![tokens(yes_app(), 10)]]);
    assert_eq!(count_token_burned(&t, &yes_app()), Some(15));
    assert_eq!(count_token_minted(&t, &yes_app()), Some(0));
    let t = tx(vec![vec![tokens(yes_app(), u64::MAX)], vec![tokens(yes_app(), 2)]], vec![]);
    assert_eq!(count_token_burned(&t, &yes_app()), None);
}

#[test]
fn signatures_verify_only_for_the_signed_message() {
    let id = market_id();
    let key = resolver_key();
    let pk = compressed(&key);
    let message = hash(&[&id, &[0, 0, 0, 0]]);
    let sig = sign(&key, &message);
    assert!(verify_resolution_signature(&id, &Outcome::Yes, &pk, &sig));
    assert!(!verify_resolution_signature(&id, &Outcome::No, &pk, &sig));
    assert!(!verify_resolution_signature(&id, &Outcome::Yes, &compressed(&creator_key()), &sig));

    let tx_hash = [11u8; 32];
    let block_hash = [12u8; 32];
    let oracle_msg = hash(&[&id, &[1, 0, 0, 0], &tx_hash, &block_hash]);
    let oracle_sig = sign(&key, &oracle_msg);
    assert!(verify_cardano_proof(&id, &Outcome::No, &tx_hash, &block_hash, &[[0u8; 32]], &pk, &oracle_sig));
    assert!(!verify_cardano_proof(&id, &Outcome::No, &tx_hash, &block_hash, &[], &pk, &oracle_sig));
    assert!(!verify_cardano_proof(&id, &Outcome::Yes, &tx_hash, &block_hash, &[[0u8; 32]], &pk, &oracle_sig));

    let creator = compressed(&creator_key());
    let mut witness = creator_witness();
    assert!(verify_creator_signature(&creator, &id, &witness));
    witness.push(1);
    assert!(verify_creator_signature(&creator, &id, &witness));
    assert!(!verify_creator_signature(&creator, &id, &witness[..63]));
    assert!(!verify_creator_signature(&creator, &[0u8; 32], &witness));
}

// ---------------------------------------------------------------------------
// Operations
// ---------------------------------------------------------------------------

fn create_tx(s: &MarketState) -> Transaction {
    tx(vec![vec![]], vec![vec![nft(s)]])
}

#[test]
fn create_accepts_fresh_market() {
    let s = state(MarketStatus::Active, 0, 0);
    assert!(validate_create(&market_app(), &create_tx(&s), &[2u8; 32], &params()));
}

#[test]
fn create_rejects_forged_initial_state() {
    let app = market_app();
    let forged = state(MarketStatus::Active, 5, 0);
    assert!(!validate_create(&app, &create_tx(&forged), &[2u8; 32], &params()));
    let fees = state(MarketStatus::Active, 0, 1);
    assert!(!validate_create(&app, &create_tx(&fees), &[2u8; 32], &params()));
    let s = state(MarketStatus::Active, 0, 0);
    assert!(!validate_create(&app, &create_tx(&s), &[3u8; 32], &params()));
    let wrong_id = MarketState { market_id: [0u8; 32], ..s.clone() };
    assert!(!validate_create(&app, &create_tx(&wrong_id), &[2u8; 32], &params()));
    // no input, two inputs, two market NFTs
    assert!(!validate_create(&app, &tx(vec![], vec![vec![nft(&s)]]), &[2u8; 32], &params()));
    assert!(!validate_create(&app, &tx(vec![vec![], vec![]], vec![vec![nft(&s)]]), &[2u8; 32], &params()));
    assert!(!validate_create(&app, &tx(vec![vec![]], vec![vec![nft(&s)], vec![nft(&s)]]), &[2u8; 32], &params()));
}

/// A mint transaction whose market UTXO gains `paid` sats.
fn mint_tx(old: &MarketState, new: &MarketState, yes: u64, no: u64, paid: u64) -> Transaction {
    with_coins(
        tx(vec![vec![nft(old)]], vec![vec![nft(new), tokens(yes_app(), yes), tokens(no_app(), no)]]),
        vec![VAULT],
        vec![VAULT + paid],
    )
}

#[test]
fn mint_accepts_net_shares_and_fee() {
    let old = state(MarketStatus::Active, 0, 0);
    let new = state(MarketStatus::Active, 990_000, 10_000);
    assert!(validate_mint(&market_app(), &mint_tx(&old, &new, 990_000, 990_000, 1_000_000), 1_000_000, NOW));
}

#[test]
fn mint_rejects_broken_rules() {
    let app = market_app();
    let old = state(MarketStatus::Active, 0, 0);
    let new = state(MarketStatus::Active, 990_000, 10_000);
    let good = mint_tx(&old, &new, 990_000, 990_000, 1_000_000);
    // collateral not paid into the market UTXO, or only partly, or overpaid
    assert!(!validate_mint(&app, &mint_tx(&old, &new, 990_000, 990_000, 0), 1_000_000, NOW));
    assert!(!validate_mint(&app, &mint_tx(&old, &new, 990_000, 990_000, 1_000), 1_000_000, NOW));
    assert!(!validate_mint(&app, &mint_tx(&old, &new, 990_000, 990_000, 1_000_001), 1_000_000, NOW));
    // no sats known for the market UTXO
    let unknown = tx(
        vec![vec![nft(&old)]],
        vec![vec![nft(&new), tokens(yes_app(), 990_000), tokens(no_app(), 990_000)]],
    );
    assert!(!validate_mint(&app, &unknown, 1_000_000, NOW));
    // below minimum bet
    let small_new = state(MarketStatus::Active, 9_900, 99);
    assert!(!validate_mint(&app, &mint_tx(&old, &small_new, 9_900, 9_900, 9_999), 9_999, NOW));
    // deadline passed
    assert!(!validate_mint(&app, &good, 1_000_000, NOW + 86400));
    // fewer tokens than shares
    assert!(!validate_mint(&app, &mint_tx(&old, &new, 990_000, 989_999, 1_000_000), 1_000_000, NOW));
    // fees not accumulated
    let no_fee = state(MarketStatus::Active, 990_000, 0);
    assert!(!validate_mint(&app, &mint_tx(&old, &no_fee, 990_000, 990_000, 1_000_000), 1_000_000, NOW));
    // over the supply cap
    let capped_old = MarketState { max_supply: 500_000, ..old.clone() };
    let capped_new = MarketState { max_supply: 500_000, ..new.clone() };
    assert!(!validate_mint(&app, &mint_tx(&capped_old, &capped_new, 990_000, 990_000, 1_000_000), 1_000_000, NOW));
    // trading closed
    let closed = state(MarketStatus::TradingClosed, 0, 0);
    let closed_new = state(MarketStatus::TradingClosed, 990_000, 10_000);
    assert!(!validate_mint(&app, &mint_tx(&closed, &closed_new, 990_000, 990_000, 1_000_000), 1_000_000, NOW));
    // supply overflow is rejected
    let full = MarketState { max_supply: u64::MAX, ..state(MarketStatus::Active, u64::MAX - 10, 0) };
    assert!(!validate_mint(&app, &mint_tx(&full, &full, 990_000, 990_000, 1_000_000), 1_000_000, NOW));
}

fn burn_tx(old: &MarketState, new: &MarketState, burned: u64) -> Transaction {
    tx(
        vec![vec![nft(old)], vec![tokens(yes_app(), burned), tokens(no_app(), burned)]],
        vec![vec![nft(new)]],
    )
}

#[test]
fn burn_accepts_equal_sets() {
    let old = state(MarketStatus::Active, 990_000, 10_000);
    let new = state(MarketStatus::Active, 890_000, 10_000);
    assert!(validate_burn(&market_app(), &burn_tx(&old, &new, 100_000), 100_000, NOW));
}

#[test]
fn burn_rejects_broken_rules() {
    let app = market_app();
    let old = state(MarketStatus::Active, 990_000, 10_000);
    let new = state(MarketStatus::Active, 890_000, 10_000);
    assert!(!validate_burn(&app, &burn_tx(&old, &new, 100_000), 99_999, NOW));
    assert!(!validate_burn(&app, &burn_tx(&old, &new, 100_000), 100_000, NOW + 86400));
    let fees_taken = state(MarketStatus::Active, 890_000, 0);
    assert!(!validate_burn(&app, &burn_tx(&old, &fees_taken, 100_000), 100_000, NOW));
    let unequal = tx(
        vec![vec![nft(&old)], vec![tokens(yes_app(), 100_000), tokens(no_app(), 50_000)]],
        vec![vec![nft(&new)]],
    );
    assert!(!validate_burn(&app, &unequal, 100_000, NOW));
    // more sets than the supply
    let small = state(MarketStatus::Active, 1000, 10);
    let emptied = state(MarketStatus::Active, 0, 10);
    assert!(!validate_burn(&app, &burn_tx(&small, &emptied, 1001), 1001, NOW));
    assert!(validate_burn(&app, &burn_tx(&small, &emptied, 1000), 1000, NOW));
}

fn resolve_tx(old: &MarketState, new: &MarketState) -> Transaction {
    tx(vec![vec![nft(old)]], vec![vec![nft(new)]])
}

#[test]
fn resolve_accepts_signed_outcome_after_deadline() {
    let old = state(MarketStatus::TradingClosed, 990_000, 10_000);
    let proof = resolution_proof(Outcome::Yes);
    let at = NOW + 172800;
    let new = MarketState {
        status: MarketStatus::Resolved,
        resolution: Some(Resolution { outcome: Outcome::Yes, proof: proof.clone(), timestamp: at }),
        ..old.clone()
    };
    assert!(validate_resolve(&market_app(), &resolve_tx(&old, &new), &Outcome::Yes, &proof, at));
    // too early
    assert!(!validate_resolve(&market_app(), &resolve_tx(&old, &new), &Outcome::Yes, &proof, at - 1));
    // signature for another outcome
    let wrong = resolution_proof(Outcome::No);
    assert!(!validate_resolve(&market_app(), &resolve_tx(&old, &new), &Outcome::Yes, &wrong, at));
    // recorded timestamp differs
    assert!(!validate_resolve(&market_app(), &resolve_tx(&old, &new), &Outcome::Yes, &proof, at + 1));
    // already resolved
    assert!(!validate_resolve(&market_app(), &resolve_tx(&new, &new), &Outcome::Yes, &proof, at));
}

#[test]
fn resolve_accepts_oracle_attestation() {
    let old = state(MarketStatus::Active, 0, 0);
    let key = resolver_key();
    let (tx_hash, block_hash) = ([11u8; 32], [12u8; 32]);
    let message = hash(&[&market_id(), &[2, 0, 0, 0], &tx_hash, &block_hash]);
    let proof = ResolutionProof::CardanoOracle {
        tx_hash,
        block_hash,
        merkle_proof: vec![[1u8; 32]],
        oracle_pubkey: compressed(&key),
        oracle_signature: sign(&key, &message),
    };
    let at = NOW + 200000;
    let new = MarketState {
        status: MarketStatus::Resolved,
        resolution: Some(Resolution { outcome: Outcome::Invalid, proof: proof.clone(), timestamp: at }),
        ..old.clone()
    };
    assert!(validate_resolve(&market_app(), &resolve_tx(&old, &new), &Outcome::Invalid, &proof, at));
}

/// A redemption burning `yes` and `no` shares whose market UTXO pays `paid`
/// sats.
fn redeem_tx(s: &MarketState, yes: u64, no: u64, paid: u64) -> Transaction {
    with_coins(
        tx(vec![vec![nft(s)], vec![tokens(yes_app(), yes), tokens(no_app(), no)]], vec![vec![nft(s)], vec![]]),
        vec![VAULT, 0],
        vec![VAULT - paid, paid],
    )
}

#[test]
fn redeem_follows_the_outcome() {
    let app = market_app();
    let yes_won = resolved(Outcome::Yes, 1000, 10);
    assert!(validate_redeem(&app, &redeem_tx(&yes_won, 500, 0, 500), 500, 0));
    assert!(!validate_redeem(&app, &redeem_tx(&yes_won, 0, 500, 500), 0, 500));
    let no_won = resolved(Outcome::No, 1000, 10);
    assert!(validate_redeem(&app, &redeem_tx(&no_won, 0, 500, 500), 0, 500));
    assert!(!validate_redeem(&app, &redeem_tx(&no_won, 500, 0, 500), 500, 0));
    let invalid = resolved(Outcome::Invalid, 1000, 10);
    assert!(validate_redeem(&app, &redeem_tx(&invalid, 300, 0, 150), 300, 0));
    assert!(validate_redeem(&app, &redeem_tx(&invalid, 300, 201, 250), 300, 201));
    // claimed amount must be what is burned
    assert!(!validate_redeem(&app, &redeem_tx(&yes_won, 500, 0, 500), 400, 0));
    // not resolved
    let active = state(MarketStatus::Active, 1000, 10);
    assert!(!validate_redeem(&app, &redeem_tx(&active, 500, 0, 500), 500, 0));
    // resolved without a recorded resolution
    let bare = state(MarketStatus::Resolved, 1000, 10);
    assert!(!validate_redeem(&app, &redeem_tx(&bare, 500, 0, 500), 500, 0));
}

#[test]
fn redeem_pays_exactly_the_payout() {
    let app = market_app();
    let yes_won = resolved(Outcome::Yes, 1000, 10);
    // the vault pays more, or less, than the winning shares
    assert!(!validate_redeem(&app, &redeem_tx(&yes_won, 500, 0, 1000), 500, 0));
    assert!(!validate_redeem(&app, &redeem_tx(&yes_won, 500, 0, 499), 500, 0));
    // half a sat per share when invalid
    let invalid = resolved(Outcome::Invalid, 1000, 10);
    assert!(!validate_redeem(&app, &redeem_tx(&invalid, 300, 200, 500), 300, 200));
    // no sats known for the market UTXO
    let unknown = tx(
        vec![vec![nft(&yes_won)], vec![tokens(yes_app(), 500), tokens(no_app(), 0)]],
        vec![vec![nft(&yes_won)]],
    );
    assert!(!validate_redeem(&app, &unknown, 500, 0));
}

#[test]
fn cancelled_market_refunds_every_share() {
    let app = market_app();
    let c = cancelled(&state(MarketStatus::Active, 1000, 10));
    assert!(validate_redeem(&app, &redeem_tx(&c, 400, 0, 200), 400, 0));
    assert!(validate_redeem(&app, &redeem_tx(&c, 0, 400, 200), 0, 400));
    assert!(validate_redeem(&app, &redeem_tx(&c, 400, 400, 400), 400, 400));
    assert!(!validate_redeem(&app, &redeem_tx(&c, 400, 0, 400), 400, 0));
}

fn cancelled(from: &MarketState) -> MarketState {
    MarketState {
        status: MarketStatus::Cancelled,
        resolution: Some(Resolution {
            outcome: Outcome::Invalid,
            proof: ResolutionProof::SignedAttestation { resolver_pubkey: [0u8; 33], signature: [0u8; 64] },
            timestamp: NOW,
        }),
        ..from.clone()
    }
}

#[test]
fn cancel_needs_creator_and_no_resolution() {
    let app = market_app();
    let old = state(MarketStatus::Active, 1000, 10);
    let new = cancelled(&old);
    assert!(validate_cancel(&app, &resolve_tx(&old, &new), &creator_witness()));
    assert!(!validate_cancel(&app, &resolve_tx(&old, &new), &[0u8; 64]));
    assert!(!validate_cancel(&app, &resolve_tx(&old, &new), &[]));
    let done = resolved(Outcome::Yes, 1000, 10);
    assert!(!validate_cancel(&app, &resolve_tx(&done, &cancelled(&done)), &creator_witness()));
    let not_invalid = MarketState { resolution: None, ..new.clone() };
    assert!(!validate_cancel(&app, &resolve_tx(&old, &not_invalid), &creator_witness()));
}

#[test]
fn claim_fees_resets_fees_once() {
    let app = market_app();
    let old = resolved(Outcome::Yes, 1000, 10);
    let new = resolved(Outcome::Yes, 1000, 0);
    assert!(validate_claim_fees(&app, &resolve_tx(&old, &new), &creator_witness()));
    assert!(!validate_claim_fees(&app, &resolve_tx(&new, &new), &creator_witness()));
    assert!(!validate_claim_fees(&app, &resolve_tx(&old, &new), &[7u8; 64]));
    let active = state(MarketStatus::Active, 1000, 10);
    let active_new = state(MarketStatus::Active, 1000, 0);
    assert!(!validate_claim_fees(&app, &resolve_tx(&active, &active_new), &creator_witness()));
}

#[test]
fn transfers_conserve_tokens_while_trading() {
    let s = state(MarketStatus::Active, 1000, 10);
    let t = tx(
        vec![vec![nft(&s)], vec![tokens(yes_app(), 100)]],
        vec![vec![nft(&s)], vec![tokens(yes_app(), 60)], vec![tokens(yes_app(), 40)]],
    );
    assert!(validate_token_transfer(&yes_app(), &t));
    let unbalanced = tx(vec![vec![nft(&s)], vec![tokens(yes_app(), 100)]], vec![vec![tokens(yes_app(), 101)]]);
    assert!(!validate_token_transfer(&yes_app(), &unbalanced));
    // no market in the transaction
    let alone = tx(vec![vec![tokens(yes_app(), 100)]], vec![vec![tokens(yes_app(), 100)]]);
    assert!(!validate_token_transfer(&yes_app(), &alone));
    // market resolved
    let done = resolved(Outcome::No, 1000, 10);
    let late = tx(vec![vec![nft(&done)], vec![tokens(no_app(), 5)]], vec![vec![tokens(no_app(), 5)]]);
    assert!(!validate_token_transfer(&no_app(), &late));
    // a token of another market
    let other = AppId { tag: TOKEN, identity: [1u8; 32], vk: VK };
    let foreign = tx(vec![vec![nft(&s)], vec![tokens(other, 5)]], vec![vec![tokens(other, 5)]]);
    assert!(!validate_token_transfer(&other, &foreign));
}

#[test]
fn contract_routes_on_tag_and_operation() {
    let app = market_app();
    let old = state(MarketStatus::Active, 0, 0);
    let new = state(MarketStatus::Active, 990_000, 10_000);
    let t = mint_tx(&old, &new, 990_000, 990_000, 1_000_000);
    let op = Some(MarketOperation::Mint { collateral_amount: 1_000_000, current_timestamp: NOW });
    assert!(market_contract(&app, &t, &op, &[]));
    assert!(!market_contract(&app, &t, &None, &[]));
    let burn = Some(MarketOperation::Burn { set_count: 1, current_timestamp: NOW });
    assert!(!market_contract(&app, &t, &burn, &[]));
    let other_tag = AppId { tag: 'x', ..app };
    assert!(!market_contract(&other_tag, &t, &op, &[]));
    let s = state(MarketStatus::Active, 1000, 10);
    let transfer = tx(vec![vec![nft(&s)], vec![tokens(yes_app(), 3)]], vec![vec![tokens(yes_app(), 3)]]);
    assert!(market_contract(&yes_app(), &transfer, &None, &[]));
    let create = Some(MarketOperation::Create { question_hash: [2u8; 32], params: params() });
    assert!(market_contract(&app, &create_tx(&state(MarketStatus::Active, 0, 0)), &create, &[]));
    let claim = Some(MarketOperation::ClaimFees);
    let r_old = resolved(Outcome::Yes, 1000, 10);
    let r_new = resolved(Outcome::Yes, 1000, 0);
    let private_input = cbor(&creator_witness());
    assert!(market_contract(&app, &resolve_tx(&r_old, &r_new), &claim, &private_input));
    // private input that is not a byte string carries no witness
    assert!(!market_contract(&app, &resolve_tx(&r_old, &r_new), &claim, &cbor(&"sig")));
    assert!(!market_contract(&app, &resolve_tx(&r_old, &r_new), &claim, &[]));
}

// ---------------------------------------------------------------------------
// Laws on concrete values
// ---------------------------------------------------------------------------

#[test]
fn lifecycle_keeps_supplies_equal_and_burn_undoes_mint() {
    let app = market_app();
    let s0 = state(MarketStatus::Active, 0, 0);
    assert!(validate_create(&app, &create_tx(&s0), &[2u8; 32], &params()));
    let s1 = state(MarketStatus::Active, 990_000, 10_000);
    assert!(validate_mint(&app, &mint_tx(&s0, &s1, 990_000, 990_000, 1_000_000), 1_000_000, NOW));
    assert_eq!(s1.yes_supply, s1.no_supply);
    let s2 = state(MarketStatus::Active, 0, 10_000);
    assert!(validate_burn(&app, &burn_tx(&s1, &s2, 990_000), 990_000, NOW));
    assert_eq!(s2.yes_supply, s0.yes_supply);
    assert_eq!(s2.no_supply, s0.no_supply);
    assert_eq!(s2.fees, s0.fees + 10_000);
}

#[test]
fn resolved_market_only_accepts_fee_claim() {
    let app = market_app();
    let done = resolved(Outcome::Yes, 1000, 10);
    let proof = resolution_proof(Outcome::Yes);
    assert!(!validate_resolve(&app, &resolve_tx(&done, &done), &Outcome::Yes, &proof, NOW + 172801));
    assert!(!validate_mint(&app, &mint_tx(&done, &done, 0, 0, 10_000), 10_000, NOW));
    assert!(!validate_burn(&app, &burn_tx(&done, &done, 0), 0, NOW));
    assert!(!validate_cancel(&app, &resolve_tx(&done, &done), &creator_witness()));
    let claimed = resolved(Outcome::Yes, 1000, 0);
    assert!(validate_claim_fees(&app, &resolve_tx(&done, &claimed), &creator_witness()));
    assert_eq!(claimed.status, MarketStatus::Resolved);
    // and no second claim
    assert!(!validate_claim_fees(&app, &resolve_tx(&claimed, &claimed), &creator_witness()));
}

fn cbor<T: serde::Serialize>(value: &T) -> Vec<u8> {
    util::write(value).expect("CBOR encoding")
}
