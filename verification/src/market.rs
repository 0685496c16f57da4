use vstd::prelude::*;

verus! {

/// Configuration of a market, fixed at creation.
#[derive(Clone, Copy, Debug)]
pub struct MarketParams {
    /// Unix timestamp: trading stops at this time.
    pub trading_deadline: u64,
    /// Unix timestamp: resolution is available from this time on.
    pub resolution_deadline: u64,
    /// Fee in basis points (100 = 1%).
    pub fee_bps: u16,
    /// Minimum collateral (sats) that one mint must deposit.
    pub min_bet: u64,
}

/// Lifecycle status of a market.
#[derive(Clone, Copy, Debug, PartialEq, Eq, Structural)]
pub enum MarketStatus {
    /// Open for trading.
    Active,
    /// Trading closed, awaiting resolution.
    TradingClosed,
    /// Outcome determined.
    Resolved,
    /// Cancelled by the creator, refunds available.
    Cancelled,
}

/// Outcome of a binary market.
#[derive(Clone, Copy, Debug, PartialEq, Eq, Structural)]
pub enum Outcome {
    Yes,
    No,
    /// Market invalidated, refunds available.
    Invalid,
}


/// Evidence that a resolution outcome is authorised.
#[derive(Clone, Debug, PartialEq, Eq)]
pub enum ResolutionProof {
    /// Simple signed attestation.
    SignedAttestation { resolver_pubkey: [u8; 33], signature: [u8; 64] },
    /// Attestation of a Cardano oracle about a Cardano transaction; the oracle's
    /// signature is trusted, the Merkle path is only required to be non-empty.
    CardanoOracle {
        tx_hash: [u8; 32],
        block_hash: [u8; 32],
        merkle_proof: Vec<[u8; 32]>,
        oracle_pubkey: [u8; 33],
        oracle_signature: [u8; 64],
    },
}

/// A resolution proof with its Merkle path taken as a sequence.
pub enum ProofView {
    SignedAttestation { resolver_pubkey: [u8; 33], signature: [u8; 64] },
    CardanoOracle {
        tx_hash: [u8; 32],
        block_hash: [u8; 32],
        merkle_proof: Seq<[u8; 32]>,
        oracle_pubkey: [u8; 33],
        oracle_signature: [u8; 64],
    },
}

impl View for ResolutionProof {
    type V = ProofView;

    open spec fn view(&self) -> ProofView {
        match self {
            ResolutionProof::SignedAttestation { resolver_pubkey, signature } =>
                ProofView::SignedAttestation { resolver_pubkey: *resolver_pubkey, signature: *signature },
            ResolutionProof::CardanoOracle { tx_hash, block_hash, merkle_proof, oracle_pubkey, oracle_signature } =>
                ProofView::CardanoOracle {
                    tx_hash: *tx_hash,
                    block_hash: *block_hash,
                    merkle_proof: merkle_proof@,
                    oracle_pubkey: *oracle_pubkey,
                    oracle_signature: *oracle_signature,
                },
        }
    }
}

/// The recorded resolution of a market.
#[derive(Clone, Debug, PartialEq, Eq)]
pub struct Resolution {
    pub outcome: Outcome,
    pub proof: ResolutionProof,
    pub timestamp: u64,
}

/// A resolution with its proof taken by its view.
pub struct ResolutionView {
    pub outcome: Outcome,
    pub proof: ProofView,
    pub timestamp: u64,
}

impl View for Resolution {
    type V = ResolutionView;

    open spec fn view(&self) -> ResolutionView {
        ResolutionView { outcome: self.outcome, proof: self.proof@, timestamp: self.timestamp }
    }
}

/// Market state stored in the controller NFT.
#[derive(Clone, Debug)]
pub struct MarketState {
    /// Unique market identifier (hash of the creation UTXO).
    pub market_id: [u8; 32],
    /// SHA256 hash of the market question.
    pub question_hash: [u8; 32],
    pub params: MarketParams,
    pub status: MarketStatus,
    /// `None` until resolved or cancelled.
    pub resolution: Option<Resolution>,
    pub yes_supply: u64,
    pub no_supply: u64,
    pub max_supply: u64,
    /// Accumulated trading fees (sats).
    pub fees: u64,
    /// Compressed public key of the market creator.
    pub creator: [u8; 33],
}

/// An operation on the market, carried as the public input of the market NFT.
#[derive(Clone, Debug)]
pub enum MarketOperation {
    /// Create a new prediction market.
    Create { question_hash: [u8; 32], params: MarketParams },
    /// Mint complete sets (one YES and one NO share per unit of net collateral).
    Mint { collateral_amount: u64, current_timestamp: u64 },
    /// Burn complete sets to recover collateral.
    Burn { set_count: u64, current_timestamp: u64 },
    /// Resolve the market with an outcome.
    Resolve { outcome: Outcome, proof: ResolutionProof, current_timestamp: u64 },
    /// Redeem winning shares for collateral.
    Redeem { yes_amount: u64, no_amount: u64 },
    /// Cancel the market (creator only, before resolution).
    Cancel,
    /// Claim accumulated fees (creator only, after resolution).
    ClaimFees,
}

} // verus!
