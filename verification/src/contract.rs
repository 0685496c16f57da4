use vstd::prelude::*;

use crate::bytes::bytes_eq;
use crate::cbor::{cbor_byte_vec, decode_byte_vec};
use crate::charms::{AppId, AppKey, CharmEntry, CharmSet, NFT, TOKEN};
use crate::compare::{identity_unchanged, resolution_view, resolutions_eq, same_identity};
use crate::crypto::{
    cardano_proof_valid, creator_signature_valid, derive_no_token_app, derive_yes_token_app,
    no_token_identity, no_token_key, resolution_signature_valid, sha256_digest, sha256_utxo,
    utxo_id_text, verify_cardano_proof, verify_creator_signature, verify_resolution_signature,
    yes_token_identity, yes_token_key,
};
use crate::market::{
    MarketOperation, MarketParams, MarketState, MarketStatus, Outcome, ProofView, ResolutionProof,
};
use crate::tx::{
    burned_amount, charm_values, coin_at, count_token_burned, count_token_minted,
    find_market_state, market_sats, market_state_on, minted_amount, set_at, sets_of,
    sole_output_value, sum_token_amount, token_sum, total_or_zero, TokenSum, Transaction,
};

verus! {

/// The charm `e` is a market NFT (same verification key as `token`) whose
/// YES or NO token is `token`.
pub open spec fn is_market_of_token(e: CharmEntry, token: AppKey) -> bool {
    &&& e.app.tag == NFT
    &&& e.app.vk@ == token.vk
    &&& e.market is Some
    &&& (token.identity == yes_token_identity(e.market->0.market_id@) || token.identity
        == no_token_identity(e.market->0.market_id@))
}

/// All charms of the sets, set after set.
pub open spec fn flatten(sets: Seq<Seq<CharmEntry>>) -> Seq<CharmEntry>
    decreases sets.len(),
{
    if sets.len() == 0 {
        Seq::empty()
    } else {
        flatten(sets.drop_last()) + sets.last()
    }
}

/// The market state of the first charm that is a market of `token`.
pub open spec fn first_token_market(entries: Seq<CharmEntry>, token: AppKey) -> Option<MarketState>
    decreases entries.len(),
{
    if entries.len() == 0 {
        None
    } else {
        match first_token_market(entries.drop_last(), token) {
            Some(s) => Some(s),
            None => if is_market_of_token(entries.last(), token) {
                entries.last().market
            } else {
                None
            },
        }
    }
}

/// The market of `token` among all charms of the transaction, inputs first.
pub open spec fn market_for_token(token: AppKey, tx: &Transaction) -> Option<MarketState> {
    first_token_market(flatten(sets_of(tx, true) + sets_of(tx, false)), token)
}

proof fn lemma_first_token_market_push(entries: Seq<CharmEntry>, e: CharmEntry, token: AppKey)
    ensures
        first_token_market(entries.push(e), token) == match first_token_market(entries, token) {
            Some(s) => Some(s),
            None => if is_market_of_token(e, token) {
                e.market
            } else {
                None
            },
        },
{
    assert(entries.push(e).drop_last() =~= entries);
}

proof fn lemma_first_token_market_extend(entries: Seq<CharmEntry>, more: Seq<CharmEntry>, token: AppKey)
    requires
        first_token_market(entries, token) is Some,
    ensures
        first_token_market(entries + more, token) == first_token_market(entries, token),
    decreases more.len(),
{
    if more.len() == 0 {
        assert(entries + more =~= entries);
    } else {
        lemma_first_token_market_extend(entries, more.drop_last(), token);
        assert((entries + more).drop_last() =~= entries + more.drop_last());
    }
}

/// Whether the charm `e` is a market NFT whose YES or NO token is `token`.
fn market_of_token(e: &CharmEntry, token: &AppId) -> (is: bool)
    ensures
        is == is_market_of_token(*e, token@),
{
    if e.app.tag != NFT || !bytes_eq(&e.app.vk, &token.vk) {
        return false;
    }
    match &e.market {
        Some(state) => {
            let yes_app = derive_yes_token_app(&state.market_id, &token.vk);
            let no_app = derive_no_token_app(&state.market_id, &token.vk);
            bytes_eq(&token.identity, &yes_app.identity) || bytes_eq(&token.identity, &no_app.identity)
        },
        None => false,
    }
}

/// Walks one charm set after the charms `prefix`, in which no market of the
/// token was found.
fn scan_set<'a>(set: &'a CharmSet, token_app: &AppId, Ghost(prefix): Ghost<Seq<CharmEntry>>) -> (found:
    Option<&'a MarketState>)
    requires
        first_token_market(prefix, token_app@) is None,
    ensures
        found matches Some(s) ==> first_token_market(prefix + set@, token_app@) == Some(*s),
        found is None ==> first_token_market(prefix + set@, token_app@) is None,
{
    let ghost token = token_app@;
    let m = set.len();
    let mut j: usize = 0;
    assert(prefix + set@.take(0) =~= prefix);
    while j < m
        invariant
            token == token_app@,
            m == set@.len(),
            j <= m,
            first_token_market(prefix + set@.take(j as int), token) is None,
        decreases m - j,
    {
        let e = set.entry(j);
        proof {
            assert(prefix + set@.take(j + 1) =~= (prefix + set@.take(j as int)).push(*e));
            lemma_first_token_market_push(prefix + set@.take(j as int), *e, token);
        }
        if market_of_token(e, token_app) {
            match &e.market {
                Some(state) => {
                    proof {
                        let upto = prefix + set@.take(j + 1);
                        assert(prefix + set@ =~= upto + set@.skip(j + 1));
                        lemma_first_token_market_extend(upto, set@.skip(j + 1), token);
                    }
                    return Some(state);
                },
                None => {},
            }
        }
        j = j + 1;
    }
    assert(set@.take(m as int) =~= set@);
    None
}

/// Finds the market NFT a YES/NO token belongs to: the first charm, walking
/// the inputs and then the outputs, that is an NFT with the token's
/// verification key whose market state derives the token's identity.
pub fn find_market_state_for_token<'a>(token_app: &AppId, tx: &'a Transaction) -> (found: Option<
    &'a MarketState,
>)
    ensures
        found matches Some(s) ==> market_for_token(token_app@, tx) == Some(*s),
        found is None ==> market_for_token(token_app@, tx) is None,
{
    let ghost all = sets_of(tx, true) + sets_of(tx, false);
    let ghost token = token_app@;
    let nin = tx.ins.len();
    let nout = tx.outs.len();
    let mut i: usize = 0;
    assert(all.take(0) =~= Seq::<Seq<CharmEntry>>::empty());
    while i < nin
        invariant
            all == sets_of(tx, true) + sets_of(tx, false),
            token == token_app@,
            nin == sets_of(tx, true).len(),
            nout == sets_of(tx, false).len(),
            i <= nin,
            first_token_market(flatten(all.take(i as int)), token) is None,
        decreases nin - i,
    {
        let set = set_at(tx, true, i);
        proof {
            assert(all.take(i + 1).drop_last() =~= all.take(i as int));
            assert(all[i as int] == sets_of(tx, true)[i as int]);
        }
        match scan_set(set, token_app, Ghost(flatten(all.take(i as int)))) {
            Some(state) => {
                proof {
                    lemma_found_extends(all, i + 1, token);
                }
                return Some(state);
            },
            None => {},
        }
        i = i + 1;
    }
    let mut i: usize = 0;
    while i < nout
        invariant
            all == sets_of(tx, true) + sets_of(tx, false),
            token == token_app@,
            nin == sets_of(tx, true).len(),
            nout == sets_of(tx, false).len(),
            i <= nout,
            first_token_market(flatten(all.take(nin + i)), token) is None,
        decreases nout - i,
    {
        let set = set_at(tx, false, i);
        proof {
            assert(all.take(nin + i + 1).drop_last() =~= all.take(nin + i));
            assert(all[nin + i] == sets_of(tx, false)[i as int]);
        }
        match scan_set(set, token_app, Ghost(flatten(all.take(nin + i)))) {
            Some(state) => {
                proof {
                    lemma_found_extends(all, nin + i + 1, token);
                }
                return Some(state);
            },
            None => {},
        }
        i = i + 1;
    }
    assert(all.take(nin + nout) =~= all);
    None
}

proof fn lemma_found_extends(all: Seq<Seq<CharmEntry>>, k: int, token: AppKey)
    requires
        0 <= k <= all.len(),
        first_token_market(flatten(all.take(k)), token) is Some,
    ensures
        first_token_market(flatten(all), token) == first_token_market(flatten(all.take(k)), token),
{
    assert(all =~= all.take(k) + all.skip(k));
    lemma_flatten_append(all.take(k), all.skip(k));
    lemma_first_token_market_extend(flatten(all.take(k)), flatten(all.skip(k)), token);
}

proof fn lemma_flatten_append(a: Seq<Seq<CharmEntry>>, b: Seq<Seq<CharmEntry>>)
    ensures
        flatten(a + b) == flatten(a) + flatten(b),
    decreases b.len(),
{
    if b.len() == 0 {
        assert(a + b =~= a);
        assert(flatten(a) + flatten(b) =~= flatten(a));
    } else {
        lemma_flatten_append(a, b.drop_last());
        assert((a + b).drop_last() =~= a + b.drop_last());
        assert(flatten(a) + flatten(b) =~= flatten(a) + flatten(b.drop_last()) + b.last());
    }
}

// ---------------------------------------------------------------------------
// Rules of each operation
// ---------------------------------------------------------------------------

/// Fee charged on a mint: `collateral * fee_bps / 10000` rounded down, kept to
/// its low 64 bits.
pub open spec fn fee_for(collateral: u64, fee_bps: u16) -> u64 {
    ((collateral as int * fee_bps as int / 10000) % 0x1_0000_0000_0000_0000) as u64
}

/// Shares minted for `collateral` once `fee` is taken: `collateral - fee`, or
/// zero when the fee exceeds the collateral.
pub open spec fn shares_for(collateral: u64, fee: u64) -> u64 {
    if fee <= collateral {
        (collateral - fee) as u64
    } else {
        0
    }
}

/// What a redemption pays out of the market's vault (sats): one per winning
/// share, or half a sat per share of either side (rounded down) when the
/// outcome is Invalid.
pub open spec fn redeem_payout(outcome: Outcome, yes_amount: u64, no_amount: u64) -> int {
    match outcome {
        Outcome::Yes => yes_amount as int,
        Outcome::No => no_amount as int,
        Outcome::Invalid => (yes_amount + no_amount) / 2,
    }
}

/// The resolution proof is valid for this market and outcome.
pub open spec fn proof_valid(market_id: Seq<u8>, outcome: Outcome, evidence: ProofView) -> bool {
    match evidence {
        ProofView::SignedAttestation { resolver_pubkey, signature } => resolution_signature_valid(
            market_id,
            outcome,
            resolver_pubkey@,
            signature@,
        ),
        ProofView::CardanoOracle {
            tx_hash,
            block_hash,
            merkle_proof,
            oracle_pubkey,
            oracle_signature,
        } => cardano_proof_valid(
            market_id,
            outcome,
            tx_hash@,
            block_hash@,
            merkle_proof,
            oracle_pubkey@,
            oracle_signature@,
        ),
    }
}

/// A market creation is accepted: one funding input, at least one output,
/// exactly one market NFT among the outputs, holding a market state whose id is
/// the hash of the funding UTXO, whose question and parameters are the given
/// ones, and which starts Active, unresolved, with no supply and no fees.
pub open spec fn create_valid(
    app: AppKey,
    tx: &Transaction,
    question_hash: [u8; 32],
    params: MarketParams,
) -> bool {
    let values = charm_values(app, sets_of(tx, false));
    &&& tx.ins@.len() == 1
    &&& tx.outs@.len() > 0
    &&& values.len() == 1
    &&& values[0].market matches Some(state) && {
        &&& state.market_id@ == sha256_digest(utxo_id_text(tx.ins@[0].txid@, tx.ins@[0].vout))
        &&& state.question_hash == question_hash
        &&& state.params.trading_deadline == params.trading_deadline
        &&& state.params.resolution_deadline == params.resolution_deadline
        &&& state.params.fee_bps == params.fee_bps
        &&& state.params.min_bet == params.min_bet
        &&& state.status == MarketStatus::Active
        &&& state.resolution is None
        &&& state.yes_supply == 0
        &&& state.no_supply == 0
        &&& state.fees == 0
    }
}

/// A mint is accepted: the market is Active, the collateral reaches the
/// minimum bet, the trading deadline has not passed; the market's UTXO gains
/// exactly the collateral in sats; both supplies grow by the net shares
/// (collateral minus fee) and stay within the supply cap; exactly that many
/// YES and NO tokens are created; the fee is added to the fees; and nothing
/// else of the state changes.
pub open spec fn mint_valid(app: AppKey, tx: &Transaction, collateral: u64, now: u64) -> bool {
    match (market_state_on(app, tx, true), market_state_on(app, tx, false)) {
        (Some(old), Some(new)) => {
            let fee = fee_for(collateral, old.params.fee_bps);
            let shares = shares_for(collateral, fee);
            &&& collateral >= old.params.min_bet
            &&& old.status == MarketStatus::Active
            &&& now < old.params.trading_deadline
            &&& market_sats(app, tx, true) matches Some(sats_in) && market_sats(app, tx, false) matches Some(
                sats_out,
            ) && sats_out == sats_in + collateral
            &&& new.yes_supply == old.yes_supply + shares
            &&& new.no_supply == old.no_supply + shares
            &&& new.yes_supply <= old.max_supply
            &&& new.no_supply <= old.max_supply
            &&& minted_amount(yes_token_key(old.market_id@, app.vk), tx) == Some(shares)
            &&& minted_amount(no_token_key(old.market_id@, app.vk), tx) == Some(shares)
            &&& same_identity(new, old)
            &&& new.status == old.status
            &&& resolution_view(new.resolution) == resolution_view(old.resolution)
            &&& new.fees == old.fees + fee
        },
        _ => false,
    }
}

/// A burn is accepted: the market is Active, the trading deadline has not
/// passed, exactly `set_count` YES and `set_count` NO tokens are destroyed and
/// the inputs held at least that many of each, both supplies hold at least
/// `set_count` and drop by exactly `set_count`, and nothing else of the state
/// changes.
pub open spec fn burn_valid(app: AppKey, tx: &Transaction, set_count: u64, now: u64) -> bool {
    match (market_state_on(app, tx, true), market_state_on(app, tx, false)) {
        (Some(old), Some(new)) => {
            let yes_key = yes_token_key(old.market_id@, app.vk);
            let no_key = no_token_key(old.market_id@, app.vk);
            &&& old.status == MarketStatus::Active
            &&& now < old.params.trading_deadline
            &&& burned_amount(yes_key, tx) == Some(set_count)
            &&& burned_amount(no_key, tx) == Some(set_count)
            &&& set_count <= old.yes_supply
            &&& set_count <= old.no_supply
            &&& new.yes_supply == old.yes_supply - set_count
            &&& new.no_supply == old.no_supply - set_count
            &&& same_identity(new, old)
            &&& new.status == old.status
            &&& resolution_view(new.resolution) == resolution_view(old.resolution)
            &&& new.fees == old.fees
            &&& total_or_zero(token_sum(yes_key, sets_of(tx, true))) matches Some(t) && t >= set_count
            &&& total_or_zero(token_sum(no_key, sets_of(tx, true))) matches Some(t) && t >= set_count
        },
        _ => false,
    }
}

/// A resolution is accepted: the market is Active or TradingClosed, the
/// resolution deadline has come, the proof is valid for the outcome; the new
/// state is Resolved and records the outcome at the given time; fees, supplies
/// and the market's fixed fields are unchanged.
pub open spec fn resolve_valid(
    app: AppKey,
    tx: &Transaction,
    outcome: Outcome,
    evidence: ProofView,
    now: u64,
) -> bool {
    match (market_state_on(app, tx, true), market_state_on(app, tx, false)) {
        (Some(old), Some(new)) => {
            &&& (old.status == MarketStatus::Active || old.status == MarketStatus::TradingClosed)
            &&& now >= old.params.resolution_deadline
            &&& proof_valid(old.market_id@, outcome, evidence)
            &&& new.status == MarketStatus::Resolved
            &&& new.resolution matches Some(r) && r.outcome == outcome && r.timestamp == now
            &&& new.fees == old.fees
            &&& same_identity(new, old)
            &&& new.yes_supply == old.yes_supply
            &&& new.no_supply == old.no_supply
        },
        _ => false,
    }
}

/// The amounts a resolved market lets holders redeem: only YES shares when YES
/// won, only NO shares when NO won, any of both when the market is invalid.
pub open spec fn redeem_amounts_allowed(outcome: Outcome, yes_amount: u64, no_amount: u64) -> bool {
    match outcome {
        Outcome::Yes => no_amount == 0,
        Outcome::No => yes_amount == 0,
        Outcome::Invalid => true,
    }
}

/// A redemption is accepted: the market is Resolved, or Cancelled (its
/// recorded outcome is then Invalid); the amounts are allowed by the recorded
/// outcome; exactly those YES and NO tokens are destroyed; and the market's
/// UTXO loses exactly the payout in sats.
pub open spec fn redeem_valid(app: AppKey, tx: &Transaction, yes_amount: u64, no_amount: u64) -> bool {
    match market_state_on(app, tx, true) {
        Some(state) => {
            &&& (state.status == MarketStatus::Resolved || state.status == MarketStatus::Cancelled)
            &&& match state.resolution {
                Some(r) => {
                    &&& redeem_amounts_allowed(r.outcome, yes_amount, no_amount)
                    &&& match (market_sats(app, tx, true), market_sats(app, tx, false)) {
                        (Some(sats_in), Some(sats_out)) => sats_out + redeem_payout(
                            r.outcome,
                            yes_amount,
                            no_amount,
                        ) == sats_in,
                        _ => false,
                    }
                },
                None => false,
            }
            &&& burned_amount(yes_token_key(state.market_id@, app.vk), tx) == Some(yes_amount)
            &&& burned_amount(no_token_key(state.market_id@, app.vk), tx) == Some(no_amount)
        },
        None => false,
    }
}

/// A cancellation is accepted: the creator signed it, the market is not
/// Resolved, and the new state is Cancelled with an Invalid outcome.
pub open spec fn cancel_valid(app: AppKey, tx: &Transaction, witness: Seq<u8>) -> bool {
    match (market_state_on(app, tx, true), market_state_on(app, tx, false)) {
        (Some(old), Some(new)) => {
            &&& creator_signature_valid(old.creator@, old.market_id@, witness)
            &&& old.status != MarketStatus::Resolved
            &&& new.status == MarketStatus::Cancelled
            &&& new.resolution matches Some(r) && r.outcome == Outcome::Invalid
        },
        _ => false,
    }
}

/// A fee claim is accepted: the market is Resolved, the creator signed it,
/// there were fees, they are reset to zero, and nothing else changes.
pub open spec fn claim_fees_valid(app: AppKey, tx: &Transaction, witness: Seq<u8>) -> bool {
    match (market_state_on(app, tx, true), market_state_on(app, tx, false)) {
        (Some(old), Some(new)) => {
            &&& old.status == MarketStatus::Resolved
            &&& creator_signature_valid(old.creator@, old.market_id@, witness)
            &&& new.fees == 0
            &&& same_identity(new, old)
            &&& new.status == old.status
            &&& resolution_view(new.resolution) == resolution_view(old.resolution)
            &&& new.yes_supply == old.yes_supply
            &&& new.no_supply == old.no_supply
            &&& old.fees > 0
        },
        _ => false,
    }
}

/// A YES/NO token transfer is accepted: the token's market is found in the
/// transaction, is Active or TradingClosed, and the token's input total equals
/// its output total.
pub open spec fn transfer_valid(token: AppKey, tx: &Transaction) -> bool {
    match market_for_token(token, tx) {
        Some(state) => {
            &&& (state.status == MarketStatus::Active || state.status == MarketStatus::TradingClosed)
            &&& (token.identity == yes_token_identity(state.market_id@) || token.identity
                == no_token_identity(state.market_id@))
            &&& total_or_zero(token_sum(token, sets_of(tx, true))) matches Some(i)
            &&& total_or_zero(token_sum(token, sets_of(tx, false))) matches Some(o)
            &&& i == o
        },
        None => false,
    }
}

/// Whether an operation on the market NFT `app` is accepted.
pub open spec fn operation_valid(
    app: AppKey,
    tx: &Transaction,
    op: MarketOperation,
    witness: Seq<u8>,
) -> bool {
    match op {
        MarketOperation::Create { question_hash, params } => create_valid(app, tx, question_hash, params),
        MarketOperation::Mint { collateral_amount, current_timestamp } => mint_valid(
            app,
            tx,
            collateral_amount,
            current_timestamp,
        ),
        MarketOperation::Burn { set_count, current_timestamp } => burn_valid(
            app,
            tx,
            set_count,
            current_timestamp,
        ),
        MarketOperation::Resolve { outcome, proof: evidence, current_timestamp } => resolve_valid(
            app,
            tx,
            outcome,
            evidence@,
            current_timestamp,
        ),
        MarketOperation::Redeem { yes_amount, no_amount } => redeem_valid(app, tx, yes_amount, no_amount),
        MarketOperation::Cancel => cancel_valid(app, tx, witness),
        MarketOperation::ClaimFees => claim_fees_valid(app, tx, witness),
    }
}

/// The witness bytes carried by the private input: the private input read as
/// a `Vec<u8>`, or no bytes when it is not one.
pub open spec fn witness_bytes(private_input: Seq<u8>) -> Seq<u8> {
    match cbor_byte_vec(private_input) {
        Some(w) => w,
        None => Seq::empty(),
    }
}

/// Whether the transaction satisfies the contract for `app`: a market NFT
/// checks the decoded operation (none decoded: rejected) with the witness
/// carried by the private input, a token checks a transfer, any other app is
/// rejected.
pub open spec fn contract_accepts(
    app: AppKey,
    tx: &Transaction,
    op: Option<MarketOperation>,
    private_input: Seq<u8>,
) -> bool {
    if app.tag == NFT {
        match op {
            Some(op) => operation_valid(app, tx, op, witness_bytes(private_input)),
            None => false,
        }
    } else if app.tag == TOKEN {
        transfer_valid(app, tx)
    } else {
        false
    }
}

// ---------------------------------------------------------------------------
// Validation
// ---------------------------------------------------------------------------

/// The mint fee `collateral * fee_bps / 10000`, rounded down, low 64 bits.
pub fn compute_fee(collateral: u64, fee_bps: u16) -> (fee: u64)
    ensures
        fee == fee_for(collateral, fee_bps),
{
    assert((collateral as int) * (fee_bps as int) <= 0xffff_ffff_ffff_ffff * 0xffff) by (nonlinear_arith)
        requires
            collateral <= 0xffff_ffff_ffff_ffff,
            fee_bps <= 0xffff,
    ;
    let product: u128 = (collateral as u128) * (fee_bps as u128);
    let wide: u128 = product / 10000;
    (wide % 0x1_0000_0000_0000_0000u128) as u64
}

/// Validates market creation (see `create_valid`).
pub fn validate_create(app: &AppId, tx: &Transaction, question_hash: &[u8; 32], params: &MarketParams) -> (valid:
    bool)
    ensures
        valid == create_valid(app@, tx, *question_hash, *params),
{
    if tx.ins.len() == 0 {
        return false;
    }
    let computed_market_id = sha256_utxo(&tx.ins[0].txid, tx.ins[0].vout);
    if tx.ins.len() != 1 {
        return false;
    }
    if tx.outs.len() == 0 {
        return false;
    }
    let value = match sole_output_value(app, tx) {
        Some(e) => e,
        None => return false,
    };
    let state = match &value.market {
        Some(s) => s,
        None => return false,
    };
    bytes_eq(&state.market_id, &computed_market_id) && bytes_eq(&state.question_hash, question_hash)
        && state.params.trading_deadline == params.trading_deadline
        && state.params.resolution_deadline == params.resolution_deadline
        && state.params.fee_bps == params.fee_bps && state.params.min_bet == params.min_bet
        && state.status == MarketStatus::Active && state.resolution.is_none() && state.yes_supply
        == 0 && state.no_supply == 0 && state.fees == 0
}

/// Validates a mint of complete sets (see `mint_valid`).
pub fn validate_mint(app: &AppId, tx: &Transaction, collateral_amount: u64, current_timestamp: u64) -> (valid:
    bool)
    ensures
        valid == mint_valid(app@, tx, collateral_amount, current_timestamp),
{
    let (old_at, old) = match find_market_state(app, tx, true) {
        Some(found) => found,
        None => return false,
    };
    let (new_at, new) = match find_market_state(app, tx, false) {
        Some(found) => found,
        None => return false,
    };
    if collateral_amount < old.params.min_bet {
        return false;
    }
    if old.status != MarketStatus::Active {
        return false;
    }
    if current_timestamp >= old.params.trading_deadline {
        return false;
    }
    let sats_in = match coin_at(tx, true, old_at) {
        Some(n) => n,
        None => return false,
    };
    let sats_out = match coin_at(tx, false, new_at) {
        Some(n) => n,
        None => return false,
    };
    match sats_in.checked_add(collateral_amount) {
        Some(total) => if sats_out != total {
            return false;
        },
        None => return false,
    }
    let fee = compute_fee(collateral_amount, old.params.fee_bps);
    let shares = match collateral_amount.checked_sub(fee) {
        Some(s) => s,
        None => 0,
    };
    match old.yes_supply.checked_add(shares) {
        Some(total) => if new.yes_supply != total {
            return false;
        },
        None => return false,
    }
    match old.no_supply.checked_add(shares) {
        Some(total) => if new.no_supply != total {
            return false;
        },
        None => return false,
    }
    if new.yes_supply > old.max_supply || new.no_supply > old.max_supply {
        return false;
    }
    let yes_app = derive_yes_token_app(&old.market_id, &app.vk);
    let no_app = derive_no_token_app(&old.market_id, &app.vk);
    match count_token_minted(tx, &yes_app) {
        Some(n) => if n != shares {
            return false;
        },
        None => return false,
    }
    match count_token_minted(tx, &no_app) {
        Some(n) => if n != shares {
            return false;
        },
        None => return false,
    }
    if !identity_unchanged(new, old) || new.status != old.status || !resolutions_eq(
        &new.resolution,
        &old.resolution,
    ) {
        return false;
    }
    match old.fees.checked_add(fee) {
        Some(total) => new.fees == total,
        None => false,
    }
}

/// Validates a burn of complete sets (see `burn_valid`).
pub fn validate_burn(app: &AppId, tx: &Transaction, set_count: u64, current_timestamp: u64) -> (valid:
    bool)
    ensures
        valid == burn_valid(app@, tx, set_count, current_timestamp),
{
    let old = match find_market_state(app, tx, true) {
        Some((_, s)) => s,
        None => return false,
    };
    let new = match find_market_state(app, tx, false) {
        Some((_, s)) => s,
        None => return false,
    };
    if old.status != MarketStatus::Active {
        return false;
    }
    if current_timestamp >= old.params.trading_deadline {
        return false;
    }
    let yes_app = derive_yes_token_app(&old.market_id, &app.vk);
    let no_app = derive_no_token_app(&old.market_id, &app.vk);
    let yes_burned = match count_token_burned(tx, &yes_app) {
        Some(n) => n,
        None => return false,
    };
    let no_burned = match count_token_burned(tx, &no_app) {
        Some(n) => n,
        None => return false,
    };
    if yes_burned != set_count || no_burned != set_count {
        return false;
    }
    let yes_left = match old.yes_supply.checked_sub(set_count) {
        Some(n) => n,
        None => return false,
    };
    let no_left = match old.no_supply.checked_sub(set_count) {
        Some(n) => n,
        None => return false,
    };
    if new.yes_supply != yes_left || new.no_supply != no_left {
        return false;
    }
    if !identity_unchanged(new, old) || new.status != old.status || !resolutions_eq(
        &new.resolution,
        &old.resolution,
    ) || new.fees != old.fees {
        return false;
    }
    let yes_input_total = match sum_token_amount(&yes_app, tx, true) {
        TokenSum::Total(n) => n,
        TokenSum::Invalid => 0,
        TokenSum::Overflow => return false,
    };
    let no_input_total = match sum_token_amount(&no_app, tx, true) {
        TokenSum::Total(n) => n,
        TokenSum::Invalid => 0,
        TokenSum::Overflow => return false,
    };
    yes_input_total >= set_count && no_input_total >= set_count
}

/// Whether the proof establishes the outcome of the market `market_id`.
fn check_resolution_proof(market_id: &[u8; 32], outcome: &Outcome, evidence: &ResolutionProof) -> (valid:
    bool)
    ensures
        valid == proof_valid(market_id@, *outcome, evidence@),
{
    match evidence {
        ResolutionProof::SignedAttestation { resolver_pubkey, signature } => verify_resolution_signature(
            market_id,
            outcome,
            resolver_pubkey,
            signature,
        ),
        ResolutionProof::CardanoOracle {
            tx_hash,
            block_hash,
            merkle_proof,
            oracle_pubkey,
            oracle_signature,
        } => verify_cardano_proof(
            market_id,
            outcome,
            tx_hash,
            block_hash,
            merkle_proof.as_slice(),
            oracle_pubkey,
            oracle_signature,
        ),
    }
}

/// Validates a resolution (see `resolve_valid`).
pub fn validate_resolve(
    app: &AppId,
    tx: &Transaction,
    outcome: &Outcome,
    evidence: &ResolutionProof,
    current_timestamp: u64,
) -> (valid: bool)
    ensures
        valid == resolve_valid(app@, tx, *outcome, evidence@, current_timestamp),
{
    let old = match find_market_state(app, tx, true) {
        Some((_, s)) => s,
        None => return false,
    };
    let new = match find_market_state(app, tx, false) {
        Some((_, s)) => s,
        None => return false,
    };
    if !(old.status == MarketStatus::Active || old.status == MarketStatus::TradingClosed) {
        return false;
    }
    if current_timestamp < old.params.resolution_deadline {
        return false;
    }
    if !check_resolution_proof(&old.market_id, outcome, evidence) {
        return false;
    }
    if new.status != MarketStatus::Resolved {
        return false;
    }
    match &new.resolution {
        Some(r) => if r.outcome != *outcome || r.timestamp != current_timestamp {
            return false;
        },
        None => return false,
    }
    new.fees == old.fees && identity_unchanged(new, old) && new.yes_supply == old.yes_supply
        && new.no_supply == old.no_supply
}

/// Validates a redemption of winning shares (see `redeem_valid`).
pub fn validate_redeem(app: &AppId, tx: &Transaction, yes_amount: u64, no_amount: u64) -> (valid: bool)
    ensures
        valid == redeem_valid(app@, tx, yes_amount, no_amount),
{
    let (state_at, state) = match find_market_state(app, tx, true) {
        Some(found) => found,
        None => return false,
    };
    if !(state.status == MarketStatus::Resolved || state.status == MarketStatus::Cancelled) {
        return false;
    }
    let resolution = match &state.resolution {
        Some(r) => r,
        None => return false,
    };
    match resolution.outcome {
        Outcome::Yes => if no_amount != 0 {
            return false;
        },
        Outcome::No => if yes_amount != 0 {
            return false;
        },
        Outcome::Invalid => {},
    }
    let yes_app = derive_yes_token_app(&state.market_id, &app.vk);
    let no_app = derive_no_token_app(&state.market_id, &app.vk);
    let yes_burned = match count_token_burned(tx, &yes_app) {
        Some(n) => n,
        None => return false,
    };
    let no_burned = match count_token_burned(tx, &no_app) {
        Some(n) => n,
        None => return false,
    };
    if yes_burned != yes_amount || no_burned != no_amount {
        return false;
    }
    let vault_at = match find_market_state(app, tx, false) {
        Some((i, _)) => i,
        None => return false,
    };
    let sats_in = match coin_at(tx, true, state_at) {
        Some(n) => n,
        None => return false,
    };
    let sats_out = match coin_at(tx, false, vault_at) {
        Some(n) => n,
        None => return false,
    };
    let payout = payout_of(resolution.outcome, yes_amount, no_amount);
    match sats_out.checked_add(payout) {
        Some(total) => total == sats_in,
        None => false,
    }
}

/// What a redemption pays out of the market's vault (see `redeem_payout`).
pub fn payout_of(outcome: Outcome, yes_amount: u64, no_amount: u64) -> (payout: u64)
    ensures
        payout == redeem_payout(outcome, yes_amount, no_amount),
{
    match outcome {
        Outcome::Yes => yes_amount,
        Outcome::No => no_amount,
        Outcome::Invalid => ((yes_amount as u128 + no_amount as u128) / 2) as u64,
    }
}

/// Validates a cancellation by the creator (see `cancel_valid`).
pub fn validate_cancel(app: &AppId, tx: &Transaction, witness: &[u8]) -> (valid: bool)
    ensures
        valid == cancel_valid(app@, tx, witness@),
{
    let old = match find_market_state(app, tx, true) {
        Some((_, s)) => s,
        None => return false,
    };
    let new = match find_market_state(app, tx, false) {
        Some((_, s)) => s,
        None => return false,
    };
    if !verify_creator_signature(&old.creator, &old.market_id, witness) {
        return false;
    }
    if old.status == MarketStatus::Resolved {
        return false;
    }
    if new.status != MarketStatus::Cancelled {
        return false;
    }
    match &new.resolution {
        Some(r) => r.outcome == Outcome::Invalid,
        None => false,
    }
}

/// Validates a fee claim by the creator (see `claim_fees_valid`).
pub fn validate_claim_fees(app: &AppId, tx: &Transaction, witness: &[u8]) -> (valid: bool)
    ensures
        valid == claim_fees_valid(app@, tx, witness@),
{
    let old = match find_market_state(app, tx, true) {
        Some((_, s)) => s,
        None => return false,
    };
    let new = match find_market_state(app, tx, false) {
        Some((_, s)) => s,
        None => return false,
    };
    if old.status != MarketStatus::Resolved {
        return false;
    }
    if !verify_creator_signature(&old.creator, &old.market_id, witness) {
        return false;
    }
    if new.fees != 0 {
        return false;
    }
    if !identity_unchanged(new, old) || new.status != old.status || !resolutions_eq(
        &new.resolution,
        &old.resolution,
    ) || new.yes_supply != old.yes_supply || new.no_supply != old.no_supply {
        return false;
    }
    old.fees > 0
}

/// Validates a transfer of YES/NO tokens (see `transfer_valid`).
pub fn validate_token_transfer(token_app: &AppId, tx: &Transaction) -> (valid: bool)
    ensures
        valid == transfer_valid(token_app@, tx),
{
    let state = match find_market_state_for_token(token_app, tx) {
        Some(s) => s,
        None => return false,
    };
    if !(state.status == MarketStatus::Active || state.status == MarketStatus::TradingClosed) {
        return false;
    }
    let yes_app = derive_yes_token_app(&state.market_id, &token_app.vk);
    let no_app = derive_no_token_app(&state.market_id, &token_app.vk);
    if !(bytes_eq(&token_app.identity, &yes_app.identity) || bytes_eq(
        &token_app.identity,
        &no_app.identity,
    )) {
        return false;
    }
    let input_total = match sum_token_amount(token_app, tx, true) {
        TokenSum::Total(n) => n,
        TokenSum::Invalid => 0,
        TokenSum::Overflow => return false,
    };
    let output_total = match sum_token_amount(token_app, tx, false) {
        TokenSum::Total(n) => n,
        TokenSum::Invalid => 0,
        TokenSum::Overflow => return false,
    };
    input_total == output_total
}

/// The market contract: routes on the app's tag. For the market NFT the
/// decoded public input is the operation (`None` when it did not decode) and
/// `private_input` the CBOR encoding of the private input, which read as a
/// `Vec<u8>` is the witness; a token app is checked as a YES/NO transfer; any other tag
/// is rejected.
pub fn market_contract(
    app: &AppId,
    tx: &Transaction,
    op: &Option<MarketOperation>,
    private_input: &[u8],
) -> (valid: bool)
    ensures
        valid == contract_accepts(app@, tx, *op, private_input@),
{
    if app.tag == NFT {
        let witness: Vec<u8> = match decode_byte_vec(private_input) {
            Some(w) => w,
            None => Vec::new(),
        };
        let witness = witness.as_slice();
        match op {
            None => false,
            Some(MarketOperation::Create { question_hash, params }) => validate_create(
                app,
                tx,
                question_hash,
                params,
            ),
            Some(MarketOperation::Mint { collateral_amount, current_timestamp }) => validate_mint(
                app,
                tx,
                *collateral_amount,
                *current_timestamp,
            ),
            Some(MarketOperation::Burn { set_count, current_timestamp }) => validate_burn(
                app,
                tx,
                *set_count,
                *current_timestamp,
            ),
            Some(MarketOperation::Resolve { outcome, proof: evidence, current_timestamp }) => validate_resolve(
                app,
                tx,
                outcome,
                evidence,
                *current_timestamp,
            ),
            Some(MarketOperation::Redeem { yes_amount, no_amount }) => validate_redeem(
                app,
                tx,
                *yes_amount,
                *no_amount,
            ),
            Some(MarketOperation::Cancel) => validate_cancel(app, tx, witness),
            Some(MarketOperation::ClaimFees) => validate_claim_fees(app, tx, witness),
        }
    } else if app.tag == TOKEN {
        validate_token_transfer(app, tx)
    } else {
        false
    }
}

} // verus!
