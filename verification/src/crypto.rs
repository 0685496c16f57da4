use vstd::prelude::*;

use charms_sdk::data::{TxId, UtxoId};
use k256::schnorr::signature::Verifier;
use k256::schnorr::{Signature, VerifyingKey};
use sha2::{Digest, Sha256};

use crate::bytes::push_all;
use crate::charms::{AppId, AppKey, TOKEN};
use crate::market::Outcome;

verus! {

/// The SHA-256 digest of a byte string.
pub uninterp spec fn sha256_digest(data: Seq<u8>) -> Seq<u8>;

/// The text form (`txid_hex:index`, UTF-8) of the UTXO id made of `txid`
/// and output index `vout`.
pub uninterp spec fn utxo_id_text(txid: Seq<u8>, vout: u32) -> Seq<u8>;

/// Whether the Schnorr signature `signature` verifies against the x-only
/// public key `xonly_key` for `message`, as k256's `Verifier` checks it: BIP-340
/// verification over the SHA-256 digest of `message`; false when either the key
/// or the signature does not parse.
pub uninterp spec fn schnorr_accepts(xonly_key: Seq<u8>, message: Seq<u8>, signature: Seq<u8>) -> bool;

/// SHA-256 of `data`, computed by `sha2::Sha256::digest`. Trusted: the result
/// is the digest named `sha256_digest` of the bytes hashed.
#[verifier::external_body]
pub(crate) fn sha256(data: &[u8]) -> (digest: [u8; 32])
    ensures
        digest@ == sha256_digest(data@),
{
    Sha256::digest(data).into()
}

/// The text of a UTXO id, as `charms_data::UtxoId`'s `Display` impl writes it
/// (reversed transaction id in hex, a colon, the output index), as bytes.
/// Trusted: the result is the text named `utxo_id_text` of the two parts.
#[verifier::external_body]
fn utxo_id_string(txid: &[u8; 32], vout: u32) -> (text: Vec<u8>)
    ensures
        text@ == utxo_id_text(txid@, vout),
{
    UtxoId(TxId(*txid), vout).to_string().into_bytes()
}

/// Schnorr verification with k256: `schnorr::VerifyingKey::from_bytes` parses
/// the key, `schnorr::Signature::try_from` the signature, and
/// `Verifier::verify` checks the signature for `message` (BIP-340 over the
/// SHA-256 digest of `message`); a key or signature that does not parse gives
/// false. Trusted: the result is what
/// `schnorr_accepts` names for the three byte strings.
#[verifier::external_body]
fn schnorr_verify(xonly_key: &[u8; 32], message: &[u8], signature: &[u8; 64]) -> (ok: bool)
    ensures
        ok == schnorr_accepts(xonly_key@, message@, signature@),
{
    let key = match VerifyingKey::from_bytes(xonly_key) {
        Ok(key) => key,
        Err(_) => return false,
    };
    let sig = match Signature::try_from(&signature[..]) {
        Ok(sig) => sig,
        Err(_) => return false,
    };
    key.verify(message, &sig).is_ok()
}

/// The bytes `b"YES"`.
pub open spec fn yes_suffix() -> Seq<u8> {
    seq![89u8, 69u8, 83u8]
}

/// The bytes `b"NO"`.
pub open spec fn no_suffix() -> Seq<u8> {
    seq![78u8, 79u8]
}

/// The bytes `b"CANCEL"`.
pub open spec fn cancel_prefix() -> Seq<u8> {
    seq![67u8, 65u8, 78u8, 67u8, 69u8, 76u8]
}

/// Identity of the YES token of a market: `SHA256(market_id || "YES")`.
pub open spec fn yes_token_identity(market_id: Seq<u8>) -> Seq<u8> {
    sha256_digest(market_id + yes_suffix())
}

/// Identity of the NO token of a market: `SHA256(market_id || "NO")`.
pub open spec fn no_token_identity(market_id: Seq<u8>) -> Seq<u8> {
    sha256_digest(market_id + no_suffix())
}

/// App key of the YES token of a market under verification key `vk`.
pub open spec fn yes_token_key(market_id: Seq<u8>, vk: Seq<u8>) -> AppKey {
    AppKey { tag: TOKEN, identity: yes_token_identity(market_id), vk }
}

/// App key of the NO token of a market under verification key `vk`.
pub open spec fn no_token_key(market_id: Seq<u8>, vk: Seq<u8>) -> AppKey {
    AppKey { tag: TOKEN, identity: no_token_identity(market_id), vk }
}

/// Byte encoding of an outcome inside signed messages: its variant index as a
/// 4-byte little-endian integer (the encoding bincode gives a unit variant).
pub open spec fn outcome_encoding(outcome: Outcome) -> Seq<u8> {
    match outcome {
        Outcome::Yes => seq![0u8, 0u8, 0u8, 0u8],
        Outcome::No => seq![1u8, 0u8, 0u8, 0u8],
        Outcome::Invalid => seq![2u8, 0u8, 0u8, 0u8],
    }
}

/// The x-only key inside a 33-byte compressed public key: its last 32 bytes.
pub open spec fn xonly_of(pubkey: Seq<u8>) -> Seq<u8> {
    pubkey.subrange(1, 33)
}

/// A resolver's attestation: a signature over `SHA256(market_id || outcome)`.
pub open spec fn resolution_signature_valid(
    market_id: Seq<u8>,
    outcome: Outcome,
    pubkey: Seq<u8>,
    signature: Seq<u8>,
) -> bool {
    schnorr_accepts(
        xonly_of(pubkey),
        sha256_digest(market_id + outcome_encoding(outcome)),
        signature,
    )
}

/// An oracle's attestation: a signature over
/// `SHA256(market_id || outcome || tx_hash || block_hash)`, with a non-empty
/// Merkle path.
pub open spec fn cardano_proof_valid(
    market_id: Seq<u8>,
    outcome: Outcome,
    tx_hash: Seq<u8>,
    block_hash: Seq<u8>,
    merkle_proof: Seq<[u8; 32]>,
    oracle_pubkey: Seq<u8>,
    oracle_signature: Seq<u8>,
) -> bool {
    &&& schnorr_accepts(
        xonly_of(oracle_pubkey),
        sha256_digest(market_id + outcome_encoding(outcome) + tx_hash + block_hash),
        oracle_signature,
    )
    &&& merkle_proof.len() > 0
}

/// The creator's authorisation: the first 64 witness bytes are a signature over
/// `SHA256("CANCEL" || market_id)`.
pub open spec fn creator_signature_valid(creator: Seq<u8>, market_id: Seq<u8>, witness: Seq<u8>) -> bool {
    &&& witness.len() >= 64
    &&& schnorr_accepts(
        xonly_of(creator),
        sha256_digest(cancel_prefix() + market_id),
        witness.subrange(0, 64),
    )
}

/// Market id of a market created from the UTXO `txid:vout`: SHA-256 of the
/// UTXO id's text.
pub fn sha256_utxo(txid: &[u8; 32], vout: u32) -> (id: [u8; 32])
    ensures
        id@ == sha256_digest(utxo_id_text(txid@, vout)),
{
    let text = utxo_id_string(txid, vout);
    sha256(text.as_slice())
}

fn token_app(market_id: &[u8; 32], vk: &[u8; 32], suffix: &[u8]) -> (app: AppId)
    ensures
        app@ == (AppKey { tag: TOKEN, identity: sha256_digest(market_id@ + suffix@), vk: vk@ }),
{
    let mut data: Vec<u8> = Vec::new();
    push_all(&mut data, market_id.as_slice());
    push_all(&mut data, suffix);
    let identity = sha256(data.as_slice());
    AppId { tag: TOKEN, identity, vk: *vk }
}

/// The YES token app of a market: identity `SHA256(market_id || "YES")`.
pub fn derive_yes_token_app(market_id: &[u8; 32], vk: &[u8; 32]) -> (app: AppId)
    ensures
        app@ == yes_token_key(market_id@, vk@),
{
    let suffix: [u8; 3] = [89, 69, 83];
    assert(suffix@ =~= yes_suffix());
    token_app(market_id, vk, suffix.as_slice())
}

/// The NO token app of a market: identity `SHA256(market_id || "NO")`.
pub fn derive_no_token_app(market_id: &[u8; 32], vk: &[u8; 32]) -> (app: AppId)
    ensures
        app@ == no_token_key(market_id@, vk@),
{
    let suffix: [u8; 2] = [78, 79];
    assert(suffix@ =~= no_suffix());
    token_app(market_id, vk, suffix.as_slice())
}

/// The encoding of an outcome inside signed messages.
pub fn outcome_bytes(outcome: Outcome) -> (bytes: Vec<u8>)
    ensures
        bytes@ == outcome_encoding(outcome),
{
    let index: u8 = match outcome {
        Outcome::Yes => 0,
        Outcome::No => 1,
        Outcome::Invalid => 2,
    };
    let mut bytes: Vec<u8> = Vec::new();
    bytes.push(index);
    bytes.push(0);
    bytes.push(0);
    bytes.push(0);
    assert(bytes@ =~= outcome_encoding(outcome));
    bytes
}

fn xonly_key(pubkey: &[u8; 33]) -> (key: [u8; 32])
    ensures
        key@ == xonly_of(pubkey@),
{
    let mut key = [0u8; 32];
    let mut i: usize = 0;
    while i < 32
        invariant
            i <= 32,
            forall|j: int| 0 <= j < i ==> key[j] == pubkey[j + 1],
        decreases 32 - i,
    {
        key[i] = pubkey[i + 1];
        i = i + 1;
    }
    assert(key@ =~= xonly_of(pubkey@));
    key
}

/// Checks a resolver's Schnorr signature over `SHA256(market_id || outcome)`.
pub fn verify_resolution_signature(
    market_id: &[u8; 32],
    outcome: &Outcome,
    pubkey: &[u8; 33],
    signature: &[u8; 64],
) -> (valid: bool)
    ensures
        valid == resolution_signature_valid(market_id@, *outcome, pubkey@, signature@),
{
    let key = xonly_key(pubkey);
    let mut data: Vec<u8> = Vec::new();
    push_all(&mut data, market_id.as_slice());
    let encoded = outcome_bytes(*outcome);
    push_all(&mut data, encoded.as_slice());
    let message = sha256(data.as_slice());
    schnorr_verify(&key, message.as_slice(), signature)
}

/// Checks a Cardano oracle's attestation: its Schnorr signature over
/// `SHA256(market_id || outcome || tx_hash || block_hash)`, and a non-empty
/// Merkle path.
pub fn verify_cardano_proof(
    market_id: &[u8; 32],
    outcome: &Outcome,
    tx_hash: &[u8; 32],
    block_hash: &[u8; 32],
    merkle_proof: &[[u8; 32]],
    oracle_pubkey: &[u8; 33],
    oracle_signature: &[u8; 64],
) -> (valid: bool)
    ensures
        valid == cardano_proof_valid(
            market_id@,
            *outcome,
            tx_hash@,
            block_hash@,
            merkle_proof@,
            oracle_pubkey@,
            oracle_signature@,
        ),
{
    let key = xonly_key(oracle_pubkey);
    let mut data: Vec<u8> = Vec::new();
    push_all(&mut data, market_id.as_slice());
    let encoded = outcome_bytes(*outcome);
    push_all(&mut data, encoded.as_slice());
    push_all(&mut data, tx_hash.as_slice());
    push_all(&mut data, block_hash.as_slice());
    let message = sha256(data.as_slice());
    let signature_valid = schnorr_verify(&key, message.as_slice(), oracle_signature);
    let merkle_proof_valid = merkle_proof.len() > 0;
    signature_valid && merkle_proof_valid
}

/// Checks the creator's Schnorr signature, held in the first 64 witness bytes,
/// over `SHA256("CANCEL" || market_id)`.
pub fn verify_creator_signature(creator: &[u8; 33], market_id: &[u8; 32], witness: &[u8]) -> (valid:
    bool)
    ensures
        valid == creator_signature_valid(creator@, market_id@, witness@),
{
    if witness.len() < 64 {
        return false;
    }
    let mut signature = [0u8; 64];
    let mut i: usize = 0;
    while i < 64
        invariant
            i <= 64,
            64 <= witness@.len(),
            forall|j: int| 0 <= j < i ==> signature[j] == witness@[j],
        decreases 64 - i,
    {
        signature[i] = witness[i];
        i = i + 1;
    }
    assert(signature@ =~= witness@.subrange(0, 64));
    let key = xonly_key(creator);
    let prefix: [u8; 6] = [67, 65, 78, 67, 69, 76];
    assert(prefix@ =~= cancel_prefix());
    let mut data: Vec<u8> = Vec::new();
    push_all(&mut data, prefix.as_slice());
    push_all(&mut data, market_id.as_slice());
    let message = sha256(data.as_slice());
    schnorr_verify(&key, message.as_slice(), &signature)
}

} // verus!
