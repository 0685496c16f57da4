use vstd::prelude::*;

use crate::charms::{AppKey, NFT, TOKEN};
use crate::compare::{resolution_view, same_identity};
use crate::contract::{
    burn_valid, cancel_valid, claim_fees_valid, contract_accepts, create_valid, fee_for, market_for_token, mint_valid,
    operation_valid, proof_valid, redeem_valid, resolve_valid, shares_for, transfer_valid,
    witness_bytes,
};
use crate::crypto::{
    creator_signature_valid, no_token_identity, no_token_key, sha256_digest, utxo_id_text,
    yes_token_identity, yes_token_key,
};
use crate::market::{MarketOperation, MarketParams, MarketStatus, Outcome, ProofView};
use crate::tx::{
    burned_amount, charm_values, market_sats, market_state_on, minted_amount, sets_of, token_sum, total_or_zero,
    Transaction,
};

verus! {

/// An operation that moves the market NFT from an input state to an output
/// state and checks that output in full: mint, burn, resolve, claim fees.
pub open spec fn is_state_update(op: MarketOperation) -> bool {
    op is Mint || op is Burn || op is Resolve || op is ClaimFees
}

/// With a fee of at most 100%, the fee and the minted shares add up to the
/// collateral, and the fee is `collateral * fee_bps / 10000` rounded down.
pub proof fn law_mint_fee_split(collateral: u64, fee_bps: u16)
    requires
        fee_bps <= 10000,
    ensures
        fee_for(collateral, fee_bps) == collateral as int * fee_bps as int / 10000,
        fee_for(collateral, fee_bps) + shares_for(collateral, fee_for(collateral, fee_bps))
            == collateral,
{
    assert(collateral as int * fee_bps as int / 10000 <= collateral as int) by (nonlinear_arith)
        requires
            fee_bps <= 10000,
            0 <= collateral,
    ;
    assert(0 <= collateral as int * fee_bps as int / 10000) by (nonlinear_arith)
        requires
            0 <= fee_bps,
            0 <= collateral,
    ;
}

/// A created market starts Active, unresolved, with no supply and no fees, so
/// its YES and NO supplies are equal.
pub proof fn law_created_market_is_fresh(
    app: AppKey,
    tx: &Transaction,
    question_hash: [u8; 32],
    params: MarketParams,
)
    requires
        create_valid(app, tx, question_hash, params),
    ensures
        market_state_on(app, tx, false) matches Some(state) && {
            &&& state.status == MarketStatus::Active
            &&& state.resolution is None
            &&& state.yes_supply == 0
            &&& state.no_supply == 0
            &&& state.yes_supply == state.no_supply
            &&& state.fees == 0
        },
{
    reveal_with_fuel(crate::tx::first_market, 2);
}

/// Complete sets: every accepted mint, burn, resolution or fee claim keeps the
/// YES supply equal to the NO supply.
pub proof fn law_supplies_stay_equal(app: AppKey, tx: &Transaction, op: MarketOperation, witness: Seq<u8>)
    requires
        is_state_update(op),
        operation_valid(app, tx, op, witness),
        market_state_on(app, tx, true) matches Some(old) && old.yes_supply == old.no_supply,
    ensures
        market_state_on(app, tx, false) matches Some(new) && new.yes_supply == new.no_supply,
{
}

/// Every accepted mint, burn, resolution or fee claim keeps the market's id,
/// question, parameters, creator and supply cap.
pub proof fn law_fixed_fields_kept(app: AppKey, tx: &Transaction, op: MarketOperation, witness: Seq<u8>)
    requires
        is_state_update(op),
        operation_valid(app, tx, op, witness),
    ensures
        market_state_on(app, tx, true) matches Some(old) && market_state_on(app, tx, false) matches Some(
            new,
        ) && same_identity(new, old),
{
}

/// Supplies stay within the supply cap: from a state within the cap, every
/// accepted mint, burn, resolution or fee claim leads to a state within it.
pub proof fn law_supplies_within_cap(app: AppKey, tx: &Transaction, op: MarketOperation, witness: Seq<u8>)
    requires
        is_state_update(op),
        operation_valid(app, tx, op, witness),
        market_state_on(app, tx, true) matches Some(old) && old.yes_supply <= old.max_supply
            && old.no_supply <= old.max_supply,
    ensures
        market_state_on(app, tx, false) matches Some(new) && new.yes_supply <= new.max_supply
            && new.no_supply <= new.max_supply,
{
}

/// Fees are collected only on mints and leave only through a claim: an
/// accepted mint adds exactly its fee, an accepted burn or resolution keeps
/// them, an accepted claim resets them to zero.
pub proof fn law_fee_accounting(app: AppKey, tx: &Transaction, op: MarketOperation, witness: Seq<u8>)
    requires
        is_state_update(op),
        operation_valid(app, tx, op, witness),
    ensures
        market_state_on(app, tx, true) matches Some(old) && market_state_on(app, tx, false) matches Some(
            new,
        ) && match op {
            MarketOperation::Mint { collateral_amount, .. } => new.fees == old.fees + fee_for(
                collateral_amount,
                old.params.fee_bps,
            ),
            MarketOperation::ClaimFees => new.fees == 0 && old.fees > 0,
            _ => new.fees == old.fees,
        },
{
}

/// Once resolved, a market stays resolved: an accepted mint, burn, resolution,
/// fee claim or cancellation whose input state is Resolved has a Resolved
/// output state (in fact only a fee claim is accepted from there).
pub proof fn law_resolved_is_final(app: AppKey, tx: &Transaction, op: MarketOperation, witness: Seq<u8>)
    requires
        is_state_update(op) || op is Cancel,
        operation_valid(app, tx, op, witness),
        market_state_on(app, tx, true) matches Some(old) && old.status == MarketStatus::Resolved,
    ensures
        op is ClaimFees,
        market_state_on(app, tx, false) matches Some(new) && new.status == MarketStatus::Resolved,
{
}

/// A market is resolved at most once: after an accepted resolution, a
/// resolution of the resulting state is rejected.
pub proof fn law_no_second_resolution(
    app: AppKey,
    first: &Transaction,
    second: &Transaction,
    outcome1: Outcome,
    evidence1: ProofView,
    now1: u64,
    outcome2: Outcome,
    evidence2: ProofView,
    now2: u64,
)
    requires
        resolve_valid(app, first, outcome1, evidence1, now1),
        market_state_on(app, second, true) == market_state_on(app, first, false),
    ensures
        !resolve_valid(app, second, outcome2, evidence2, now2),
{
}

/// Burning the shares a mint created undoes the mint's supply change: after an
/// accepted mint of `collateral` followed by an accepted burn, from the mint's
/// output state, of as many sets as the mint created, both supplies are back to
/// their values before the mint, while the mint's fee stays collected.
pub proof fn law_burn_undoes_mint(
    app: AppKey,
    mint_tx: &Transaction,
    burn_tx: &Transaction,
    collateral: u64,
    mint_time: u64,
    burn_time: u64,
)
    requires
        mint_valid(app, mint_tx, collateral, mint_time),
        market_state_on(app, burn_tx, true) == market_state_on(app, mint_tx, false),
        market_state_on(app, mint_tx, true) matches Some(before) && burn_valid(
            app,
            burn_tx,
            shares_for(collateral, fee_for(collateral, before.params.fee_bps)),
            burn_time,
        ),
    ensures
        market_state_on(app, mint_tx, true) matches Some(before) && market_state_on(
            app,
            burn_tx,
            false,
        ) matches Some(after) && {
            &&& after.yes_supply == before.yes_supply
            &&& after.no_supply == before.no_supply
            &&& after.fees == before.fees + fee_for(collateral, before.params.fee_bps)
            &&& same_identity(after, before)
        },
{
}

/// Claimed fees cannot be claimed again: after an accepted fee claim, a fee
/// claim of the resulting state is rejected.
pub proof fn law_fees_claimed_once(app: AppKey, first: &Transaction, second: &Transaction, w1: Seq<u8>, w2: Seq<u8>)
    requires
        claim_fees_valid(app, first, w1),
        market_state_on(app, second, true) == market_state_on(app, first, false),
    ensures
        !claim_fees_valid(app, second, w2),
{
}

/// After resolution shares can only be redeemed: a transfer of a token whose
/// market is Resolved or Cancelled is rejected.
pub proof fn law_no_transfer_after_resolution(token: AppKey, tx: &Transaction)
    requires
        market_for_token(token, tx) matches Some(state) && (state.status == MarketStatus::Resolved
            || state.status == MarketStatus::Cancelled),
    ensures
        !transfer_valid(token, tx),
{
}

/// A Resolved market carries its resolution: an accepted mint, burn,
/// resolution, fee claim or cancellation from a state in which Resolved
/// implies a recorded resolution leads to such a state again, and a
/// cancellation records one.
pub proof fn law_resolved_state_has_resolution(
    app: AppKey,
    tx: &Transaction,
    op: MarketOperation,
    witness: Seq<u8>,
)
    requires
        is_state_update(op) || op is Cancel,
        operation_valid(app, tx, op, witness),
        market_state_on(app, tx, true) matches Some(old) && (old.status == MarketStatus::Resolved
            ==> old.resolution is Some),
    ensures
        market_state_on(app, tx, false) matches Some(new) && (new.status == MarketStatus::Resolved
            ==> new.resolution is Some),
        op is Cancel ==> (market_state_on(app, tx, false) matches Some(new) && new.resolution is Some),
{
}

/// Minted sets are backed: an accepted mint (with a fee of at most 100%) puts
/// into the market's UTXO exactly as many sats as it adds to the YES supply
/// and to the fees together.
pub proof fn law_mint_is_backed(app: AppKey, tx: &Transaction, collateral: u64, now: u64)
    requires
        mint_valid(app, tx, collateral, now),
        market_state_on(app, tx, true) matches Some(old) && old.params.fee_bps <= 10000,
    ensures
        market_state_on(app, tx, true) matches Some(old) && market_state_on(app, tx, false) matches Some(
            new,
        ) && market_sats(app, tx, true) matches Some(sats_in) && market_sats(app, tx, false) matches Some(
            sats_out,
        ) && sats_out - sats_in == (new.yes_supply - old.yes_supply) + (new.fees - old.fees),
{
    let old = market_state_on(app, tx, true)->0;
    law_mint_fee_split(collateral, old.params.fee_bps);
}

/// Every share of a cancelled market is refundable: when the market is
/// Cancelled with an Invalid outcome, a redemption of any YES and NO amounts
/// is accepted once exactly those tokens are destroyed and the market's UTXO
/// pays half a sat per share.
pub proof fn law_cancelled_market_refunds(app: AppKey, tx: &Transaction, yes_amount: u64, no_amount: u64)
    requires
        market_state_on(app, tx, true) matches Some(state) && {
            &&& state.status == MarketStatus::Cancelled
            &&& state.resolution matches Some(r) && r.outcome == Outcome::Invalid
            &&& burned_amount(yes_token_key(state.market_id@, app.vk), tx) == Some(yes_amount)
            &&& burned_amount(no_token_key(state.market_id@, app.vk), tx) == Some(no_amount)
        },
        market_sats(app, tx, true) matches Some(sats_in) && market_sats(app, tx, false) matches Some(
            sats_out,
        ) && sats_out + (yes_amount + no_amount) / 2 == sats_in,
    ensures
        redeem_valid(app, tx, yes_amount, no_amount),
{
}

/// What an accepted resolution does: from an Active or TradingClosed market
/// whose resolution deadline has come, with a proof valid for this market and
/// outcome, it makes the market Resolved and records exactly the outcome it
/// resolves with, at the current time, leaving fees, supplies and the fixed
/// fields as they were.
pub proof fn law_resolve_records_outcome(
    app: AppKey,
    tx: &Transaction,
    outcome: Outcome,
    evidence: ProofView,
    now: u64,
)
    requires
        resolve_valid(app, tx, outcome, evidence, now),
    ensures
        market_state_on(app, tx, true) matches Some(old) && market_state_on(app, tx, false) matches Some(
            new,
        ) && {
            &&& old.status == MarketStatus::Active || old.status == MarketStatus::TradingClosed
            &&& now >= old.params.resolution_deadline
            &&& proof_valid(old.market_id@, outcome, evidence)
            &&& new.status == MarketStatus::Resolved
            &&& new.resolution matches Some(r) && r.outcome == outcome && r.timestamp == now
            &&& new.fees == old.fees
            &&& new.yes_supply == old.yes_supply
            &&& new.no_supply == old.no_supply
            &&& same_identity(new, old)
        },
{
}

/// A transaction settles one outcome: two accepted resolutions of the same
/// transaction resolve with the same outcome at the same time.
pub proof fn law_resolution_outcome_unique(
    app: AppKey,
    tx: &Transaction,
    outcome1: Outcome,
    evidence1: ProofView,
    now1: u64,
    outcome2: Outcome,
    evidence2: ProofView,
    now2: u64,
)
    requires
        resolve_valid(app, tx, outcome1, evidence1, now1),
        resolve_valid(app, tx, outcome2, evidence2, now2),
    ensures
        outcome1 == outcome2,
        now1 == now2,
{
    law_resolve_records_outcome(app, tx, outcome1, evidence1, now1);
    law_resolve_records_outcome(app, tx, outcome2, evidence2, now2);
}

/// What an accepted mint does: on an Active market before its trading
/// deadline, with at least the minimum bet, the market's UTXO gains exactly
/// the collateral, both supplies grow by the same amount, exactly that many
/// YES and exactly that many NO tokens are created, and the fees grow by the
/// fee on the collateral; supplies stay within the cap.
pub proof fn law_mint_creates_what_supplies_gain(app: AppKey, tx: &Transaction, collateral: u64, now: u64)
    requires
        mint_valid(app, tx, collateral, now),
    ensures
        market_state_on(app, tx, true) matches Some(old) && market_state_on(app, tx, false) matches Some(
            new,
        ) && {
            &&& old.status == MarketStatus::Active
            &&& now < old.params.trading_deadline
            &&& collateral >= old.params.min_bet
            &&& old.yes_supply <= new.yes_supply
            &&& new.yes_supply - old.yes_supply == new.no_supply - old.no_supply
            &&& minted_amount(yes_token_key(old.market_id@, app.vk), tx) == Some(
                (new.yes_supply - old.yes_supply) as u64,
            )
            &&& minted_amount(no_token_key(old.market_id@, app.vk), tx) == Some(
                (new.no_supply - old.no_supply) as u64,
            )
            &&& new.fees == old.fees + fee_for(collateral, old.params.fee_bps)
            &&& new.status == MarketStatus::Active
            &&& resolution_view(new.resolution) == resolution_view(old.resolution)
            &&& new.yes_supply <= new.max_supply
            &&& new.no_supply <= new.max_supply
            &&& market_sats(app, tx, true) matches Some(sats_in) && market_sats(app, tx, false) matches Some(
                sats_out,
            ) && sats_out == sats_in + collateral
        },
{
}

/// What an accepted burn of `set_count` sets does: on an Active market before
/// its trading deadline, exactly `set_count` YES and exactly `set_count` NO
/// tokens are destroyed, the inputs held at least that many of each, and both
/// supplies drop by `set_count`; fees are kept.
pub proof fn law_burn_destroys_sets(app: AppKey, tx: &Transaction, set_count: u64, now: u64)
    requires
        burn_valid(app, tx, set_count, now),
    ensures
        market_state_on(app, tx, true) matches Some(old) && market_state_on(app, tx, false) matches Some(
            new,
        ) && {
            &&& old.status == MarketStatus::Active
            &&& now < old.params.trading_deadline
            &&& burned_amount(yes_token_key(old.market_id@, app.vk), tx) == Some(set_count)
            &&& burned_amount(no_token_key(old.market_id@, app.vk), tx) == Some(set_count)
            &&& total_or_zero(token_sum(yes_token_key(old.market_id@, app.vk), sets_of(tx, true)))
                matches Some(held) && held >= set_count
            &&& total_or_zero(token_sum(no_token_key(old.market_id@, app.vk), sets_of(tx, true)))
                matches Some(held) && held >= set_count
            &&& new.yes_supply + set_count == old.yes_supply
            &&& new.no_supply + set_count == old.no_supply
            &&& new.fees == old.fees
            &&& new.status == MarketStatus::Active
            &&& resolution_view(new.resolution) == resolution_view(old.resolution)
        },
{
}

/// What an accepted redemption does: on a Resolved or Cancelled market it
/// destroys exactly the YES and NO shares it redeems, only winning shares are
/// redeemed, and the market's UTXO pays one sat per winning share, or half a
/// sat per share (rounded down) when the outcome is Invalid.
pub proof fn law_redeem_destroys_redeemed_shares(
    app: AppKey,
    tx: &Transaction,
    yes_amount: u64,
    no_amount: u64,
)
    requires
        redeem_valid(app, tx, yes_amount, no_amount),
    ensures
        market_state_on(app, tx, true) matches Some(state) && {
            &&& state.status == MarketStatus::Resolved || state.status == MarketStatus::Cancelled
            &&& burned_amount(yes_token_key(state.market_id@, app.vk), tx) == Some(yes_amount)
            &&& burned_amount(no_token_key(state.market_id@, app.vk), tx) == Some(no_amount)
            &&& state.resolution matches Some(r) && market_sats(app, tx, true) matches Some(sats_in)
                && market_sats(app, tx, false) matches Some(sats_out) && match r.outcome {
                Outcome::Yes => no_amount == 0 && sats_in - sats_out == yes_amount,
                Outcome::No => yes_amount == 0 && sats_in - sats_out == no_amount,
                Outcome::Invalid => sats_in - sats_out == (yes_amount + no_amount) / 2,
            }
        },
{
}

/// An accepted transfer conserves the token: its input total equals its
/// output total, so none is created and none destroyed; and it is a YES or NO
/// token of a market that still trades (Active or TradingClosed).
pub proof fn law_transfer_conserves_tokens(token: AppKey, tx: &Transaction)
    requires
        transfer_valid(token, tx),
    ensures
        total_or_zero(token_sum(token, sets_of(tx, true))) matches Some(i) && total_or_zero(
            token_sum(token, sets_of(tx, false)),
        ) matches Some(o) && i == o,
        minted_amount(token, tx) == Some(0u64),
        burned_amount(token, tx) == Some(0u64),
        market_for_token(token, tx) matches Some(state) && {
            &&& state.status == MarketStatus::Active || state.status == MarketStatus::TradingClosed
            &&& token.identity == yes_token_identity(state.market_id@) || token.identity
                == no_token_identity(state.market_id@)
        },
{
}

/// What an accepted creation does: it spends exactly one UTXO and puts the
/// market NFT on exactly one output, in a state whose id is the hash of the
/// spent UTXO's id and whose question and parameters are the requested ones.
pub proof fn law_create_records_request(
    app: AppKey,
    tx: &Transaction,
    question_hash: [u8; 32],
    params: MarketParams,
)
    requires
        create_valid(app, tx, question_hash, params),
    ensures
        tx.ins@.len() == 1,
        charm_values(app, sets_of(tx, false)).len() == 1,
        market_state_on(app, tx, false) matches Some(state) && {
            &&& state.market_id@ == sha256_digest(utxo_id_text(tx.ins@[0].txid@, tx.ins@[0].vout))
            &&& state.question_hash == question_hash
            &&& state.params.trading_deadline == params.trading_deadline
            &&& state.params.resolution_deadline == params.resolution_deadline
            &&& state.params.fee_bps == params.fee_bps
            &&& state.params.min_bet == params.min_bet
        },
{
    reveal_with_fuel(crate::tx::first_market, 2);
}

/// Only the creator cancels, and only an unresolved market: an accepted
/// cancellation carries the creator's signature over the market id, starts
/// from a state that is not Resolved, and ends Cancelled with an Invalid
/// outcome.
pub proof fn law_cancel_by_creator_only(app: AppKey, tx: &Transaction, witness: Seq<u8>)
    requires
        cancel_valid(app, tx, witness),
    ensures
        market_state_on(app, tx, true) matches Some(old) && market_state_on(app, tx, false) matches Some(
            new,
        ) && {
            &&& creator_signature_valid(old.creator@, old.market_id@, witness)
            &&& old.status != MarketStatus::Resolved
            &&& new.status == MarketStatus::Cancelled
            &&& new.resolution matches Some(r) && r.outcome == Outcome::Invalid
        },
{
}

/// Only the creator claims fees, and only from a Resolved market that has
/// some: an accepted claim carries the creator's signature over the market id
/// and leaves no fees behind, with the resolution and the supplies untouched.
pub proof fn law_fees_claimed_by_creator(app: AppKey, tx: &Transaction, witness: Seq<u8>)
    requires
        claim_fees_valid(app, tx, witness),
    ensures
        market_state_on(app, tx, true) matches Some(old) && market_state_on(app, tx, false) matches Some(
            new,
        ) && {
            &&& old.status == MarketStatus::Resolved
            &&& creator_signature_valid(old.creator@, old.market_id@, witness)
            &&& old.fees > 0
            &&& new.fees == 0
            &&& new.status == MarketStatus::Resolved
            &&& resolution_view(new.resolution) == resolution_view(old.resolution)
            &&& new.yes_supply == old.yes_supply
            &&& new.no_supply == old.no_supply
        },
{
}

/// When a mint is accepted: a transaction that moves an Active market, before
/// its trading deadline, with at least the minimum bet, whose UTXO gains the
/// collateral, whose supplies both grow by the collateral less its fee (within
/// the cap) while exactly that many YES and NO tokens are created, whose fees
/// grow by the fee and whose other fields stay, is accepted.
pub proof fn law_mint_accepted_when(app: AppKey, tx: &Transaction, collateral: u64, now: u64)
    requires
        market_state_on(app, tx, true) matches Some(old) && market_state_on(app, tx, false) matches Some(
            new,
        ) && {
            let fee = fee_for(collateral, old.params.fee_bps);
            let shares = shares_for(collateral, fee);
            &&& old.status == MarketStatus::Active
            &&& now < old.params.trading_deadline
            &&& collateral >= old.params.min_bet
            &&& market_sats(app, tx, true) matches Some(sats_in) && market_sats(app, tx, false) matches Some(
                sats_out,
            ) && sats_out == sats_in + collateral
            &&& new.yes_supply == old.yes_supply + shares
            &&& new.no_supply == old.no_supply + shares
            &&& new.yes_supply <= old.max_supply
            &&& new.no_supply <= old.max_supply
            &&& minted_amount(yes_token_key(old.market_id@, app.vk), tx) == Some(shares)
            &&& minted_amount(no_token_key(old.market_id@, app.vk), tx) == Some(shares)
            &&& new.fees == old.fees + fee
            &&& new.status == MarketStatus::Active
            &&& resolution_view(new.resolution) == resolution_view(old.resolution)
            &&& same_identity(new, old)
        },
    ensures
        mint_valid(app, tx, collateral, now),
{
}

/// When a burn of `set_count` sets is accepted: a transaction that moves an
/// Active market before its trading deadline, destroys exactly `set_count` YES
/// and `set_count` NO tokens out of inputs holding at least that many, lowers
/// both supplies by `set_count` and keeps everything else, is accepted.
pub proof fn law_burn_accepted_when(app: AppKey, tx: &Transaction, set_count: u64, now: u64)
    requires
        market_state_on(app, tx, true) matches Some(old) && market_state_on(app, tx, false) matches Some(
            new,
        ) && {
            &&& old.status == MarketStatus::Active
            &&& now < old.params.trading_deadline
            &&& burned_amount(yes_token_key(old.market_id@, app.vk), tx) == Some(set_count)
            &&& burned_amount(no_token_key(old.market_id@, app.vk), tx) == Some(set_count)
            &&& total_or_zero(token_sum(yes_token_key(old.market_id@, app.vk), sets_of(tx, true)))
                matches Some(held) && held >= set_count
            &&& total_or_zero(token_sum(no_token_key(old.market_id@, app.vk), sets_of(tx, true)))
                matches Some(held) && held >= set_count
            &&& new.yes_supply + set_count == old.yes_supply
            &&& new.no_supply + set_count == old.no_supply
            &&& new.fees == old.fees
            &&& new.status == MarketStatus::Active
            &&& resolution_view(new.resolution) == resolution_view(old.resolution)
            &&& same_identity(new, old)
        },
    ensures
        burn_valid(app, tx, set_count, now),
{
}

/// When a resolution is accepted: a transaction that moves an Active or
/// TradingClosed market whose resolution deadline has come, with a proof valid
/// for the market and the outcome, to a Resolved state recording that outcome
/// at the current time, and keeps fees, supplies and fixed fields, is accepted.
pub proof fn law_resolve_accepted_when(
    app: AppKey,
    tx: &Transaction,
    outcome: Outcome,
    evidence: ProofView,
    now: u64,
)
    requires
        market_state_on(app, tx, true) matches Some(old) && market_state_on(app, tx, false) matches Some(
            new,
        ) && {
            &&& old.status == MarketStatus::Active || old.status == MarketStatus::TradingClosed
            &&& now >= old.params.resolution_deadline
            &&& proof_valid(old.market_id@, outcome, evidence)
            &&& new.status == MarketStatus::Resolved
            &&& new.resolution matches Some(r) && r.outcome == outcome && r.timestamp == now
            &&& new.fees == old.fees
            &&& new.yes_supply == old.yes_supply
            &&& new.no_supply == old.no_supply
            &&& same_identity(new, old)
        },
    ensures
        resolve_valid(app, tx, outcome, evidence, now),
{
}

/// When a redemption is accepted: on a Resolved or Cancelled market with a
/// recorded outcome, a transaction that destroys exactly the redeemed YES and
/// NO shares, redeems only winning shares, and pays out of the market's UTXO
/// one sat per winning share (half a sat per share, rounded down, when the
/// outcome is Invalid), is accepted.
pub proof fn law_redeem_accepted_when(app: AppKey, tx: &Transaction, yes_amount: u64, no_amount: u64)
    requires
        market_state_on(app, tx, true) matches Some(state) && {
            &&& state.status == MarketStatus::Resolved || state.status == MarketStatus::Cancelled
            &&& burned_amount(yes_token_key(state.market_id@, app.vk), tx) == Some(yes_amount)
            &&& burned_amount(no_token_key(state.market_id@, app.vk), tx) == Some(no_amount)
            &&& state.resolution matches Some(r) && market_sats(app, tx, true) matches Some(sats_in)
                && market_sats(app, tx, false) matches Some(sats_out) && match r.outcome {
                Outcome::Yes => no_amount == 0 && sats_in - sats_out == yes_amount,
                Outcome::No => yes_amount == 0 && sats_in - sats_out == no_amount,
                Outcome::Invalid => sats_in - sats_out == (yes_amount + no_amount) / 2,
            }
        },
    ensures
        redeem_valid(app, tx, yes_amount, no_amount),
{
}

/// When a transfer is accepted: a YES or NO token of a market found in the
/// transaction that is Active or TradingClosed, whose input and output totals
/// are equal, may move.
pub proof fn law_transfer_accepted_when(token: AppKey, tx: &Transaction)
    requires
        market_for_token(token, tx) matches Some(state) && {
            &&& state.status == MarketStatus::Active || state.status == MarketStatus::TradingClosed
            &&& token.identity == yes_token_identity(state.market_id@) || token.identity
                == no_token_identity(state.market_id@)
        },
        total_or_zero(token_sum(token, sets_of(tx, true))) matches Some(i) && total_or_zero(
            token_sum(token, sets_of(tx, false)),
        ) matches Some(o) && i == o,
    ensures
        transfer_valid(token, tx),
{
}

/// When a cancellation is accepted: the creator's signature over the market
/// id, on a market that is not Resolved, moving it to Cancelled with an
/// Invalid outcome.
pub proof fn law_cancel_accepted_when(app: AppKey, tx: &Transaction, witness: Seq<u8>)
    requires
        market_state_on(app, tx, true) matches Some(old) && market_state_on(app, tx, false) matches Some(
            new,
        ) && {
            &&& creator_signature_valid(old.creator@, old.market_id@, witness)
            &&& old.status != MarketStatus::Resolved
            &&& new.status == MarketStatus::Cancelled
            &&& new.resolution matches Some(r) && r.outcome == Outcome::Invalid
        },
    ensures
        cancel_valid(app, tx, witness),
{
}

/// When a fee claim is accepted: the creator's signature over the market id,
/// on a Resolved market holding fees, resetting them to zero and keeping
/// everything else.
pub proof fn law_claim_fees_accepted_when(app: AppKey, tx: &Transaction, witness: Seq<u8>)
    requires
        market_state_on(app, tx, true) matches Some(old) && market_state_on(app, tx, false) matches Some(
            new,
        ) && {
            &&& old.status == MarketStatus::Resolved
            &&& creator_signature_valid(old.creator@, old.market_id@, witness)
            &&& old.fees > 0
            &&& new.fees == 0
            &&& new.status == MarketStatus::Resolved
            &&& resolution_view(new.resolution) == resolution_view(old.resolution)
            &&& new.yes_supply == old.yes_supply
            &&& new.no_supply == old.no_supply
            &&& same_identity(new, old)
        },
    ensures
        claim_fees_valid(app, tx, witness),
{
}

/// When a creation is accepted: one spent UTXO and exactly one output holding
/// the market NFT, in a fresh state (Active, unresolved, no supply, no fees)
/// whose id is the hash of the spent UTXO's id and whose question and
/// parameters are the requested ones.
pub proof fn law_create_accepted_when(
    app: AppKey,
    tx: &Transaction,
    question_hash: [u8; 32],
    params: MarketParams,
)
    requires
        tx.ins@.len() == 1,
        charm_values(app, sets_of(tx, false)).len() == 1,
        market_state_on(app, tx, false) matches Some(state) && {
            &&& state.market_id@ == sha256_digest(utxo_id_text(tx.ins@[0].txid@, tx.ins@[0].vout))
            &&& state.question_hash == question_hash
            &&& state.params.trading_deadline == params.trading_deadline
            &&& state.params.resolution_deadline == params.resolution_deadline
            &&& state.params.fee_bps == params.fee_bps
            &&& state.params.min_bet == params.min_bet
            &&& state.status == MarketStatus::Active
            &&& state.resolution is None
            &&& state.yes_supply == 0
            &&& state.no_supply == 0
            &&& state.fees == 0
        },
    ensures
        create_valid(app, tx, question_hash, params),
{
    reveal_with_fuel(crate::tx::first_market, 2);
    reveal_with_fuel(crate::tx::charm_values, 2);
}

/// Tokens are either created or destroyed, never both: for any token and
/// transaction, the net amount created and the net amount destroyed are known
/// together, at most one of them is non-zero, and created minus destroyed is
/// the output total minus the input total.
pub proof fn law_net_token_flow(key: AppKey, tx: &Transaction)
    ensures
        minted_amount(key, tx) is Some <==> burned_amount(key, tx) is Some,
        minted_amount(key, tx) matches Some(m) ==> (burned_amount(key, tx) matches Some(b) && {
            &&& m == 0 || b == 0
            &&& (total_or_zero(token_sum(key, sets_of(tx, true))) matches Some(i) && total_or_zero(
                token_sum(key, sets_of(tx, false)),
            ) matches Some(o) && m - b == o - i)
        }),
{
}

/// Which rule decides a spend: an NFT spend is decided by the rule of its
/// decoded operation, with the witness the private input carries, and is
/// rejected when no operation decoded; a token spend is decided by the
/// transfer rule; any other app is rejected.
pub proof fn law_contract_routing(
    app: AppKey,
    tx: &Transaction,
    op: Option<MarketOperation>,
    private_input: Seq<u8>,
)
    ensures
        app.tag != NFT && app.tag != TOKEN ==> !contract_accepts(app, tx, op, private_input),
        app.tag == NFT && op is None ==> !contract_accepts(app, tx, op, private_input),
        app.tag == NFT ==> (op matches Some(o) ==> contract_accepts(app, tx, op, private_input)
            == operation_valid(app, tx, o, witness_bytes(private_input))),
        app.tag == TOKEN ==> contract_accepts(app, tx, op, private_input) == transfer_valid(app, tx),
{
}

} // verus!
