//! Echo Markets: the validation rules of a binary prediction market whose state
//! lives in a Charms NFT and whose YES/NO outcome shares are Charms tokens.
//!
//! - `market`: the market's state, parameters, outcomes and operations.
//! - `charms`, `tx`: what the rules read of a Charms transaction (apps, charm
//!   sets, spent and created UTXOs) and the sums and lookups over it.
//! - `cbor`, `crypto`: decoding of charm data, hashing, token identities,
//!   signed messages and Schnorr verification.
//! - `compare`: equality of market fields.
//! - `contract`: the rule of each operation, as a specification and as a
//!   verified validator, and the contract that routes between them.
//! - `laws`: properties of the rules across operations.

pub mod bytes;
pub mod cbor;
pub mod charms;
pub mod compare;
pub mod contract;
pub mod crypto;
pub mod laws;
pub mod market;
pub mod tx;
