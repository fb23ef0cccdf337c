//! The messages that both protocol versions share.

use crate::chain::{OutPoint, PublicKey, SecretKey};
use vstd::prelude::*;

verus! {

/// Protocol version identifier for coinswap operations.
#[derive(Debug, Clone, Copy, PartialEq, Eq, Hash, Default, Structural)]
pub enum ProtocolVersion {
    /// Legacy ECDSA-based protocol with script-evaluated HTLCs.
    #[default]
    Legacy,
    /// Taproot MuSig2-based protocol with scriptless contracts.
    Taproot,
}

/// Initial handshake from taker to maker.
#[derive(Debug, Clone, Default, PartialEq, Eq)]
pub struct TakerHello;

/// Handshake response from maker to taker.
#[derive(Debug, Clone, PartialEq, Eq)]
pub struct MakerHello {
    /// Protocol versions this maker supports.
    pub supported_protocols: Vec<ProtocolVersion>,
}

/// Request for an offer from taker to maker.
#[derive(Debug, Clone, Default, PartialEq, Eq)]
pub struct GetOffer;

/// A floating-point rate by its bit pattern. It is passed on unread.
#[derive(Debug, Clone, Copy, PartialEq, Eq, Default, Structural)]
pub struct RateBits(pub u64);

/// A fidelity bond: coins that its owner has locked up.
#[derive(Debug, Clone)]
pub struct FidelityBond {
    /// The index of the bond in the wallet that made it.
    pub bond_index: u32,
    /// The output that holds the coins.
    pub outpoint: OutPoint,
    /// The locked amount in satoshis.
    pub amount: u64,
    /// The lock time, as the chain encodes it.
    pub lock_time: u32,
    /// The key that the coins return to.
    pub pubkey: PublicKey,
    /// The height the bond confirmed at, once it has.
    pub conf_height: Option<u32>,
    /// Whether the bond has been redeemed.
    pub is_spent: bool,
}

/// Proof that a maker owns a fidelity bond.
#[derive(Debug, Clone)]
pub struct FidelityProof {
    /// The bond.
    pub bond: FidelityBond,
    /// Hash of the certificate that binds the bond to the maker's address.
    pub cert_hash: [u8; 32],
    /// Signature over the hash with the bond's key, DER encoded.
    pub cert_sig: Vec<u8>,
}

/// A maker's offer.
#[derive(Debug, Clone)]
pub struct Offer {
    /// Base fee charged per swap in satoshis.
    pub base_fee: u64,
    /// Percentage fee relative to the swap amount.
    pub amount_relative_fee_pct: RateBits,
    /// Percentage fee for time-locked funds.
    pub time_relative_fee_pct: RateBits,
    /// Confirmations required before a swap proceeds.
    pub required_confirms: u32,
    /// Least timelock of a contract, in blocks.
    pub minimum_locktime: u16,
    /// Largest swap amount accepted, in satoshis.
    pub max_size: u64,
    /// Smallest swap amount accepted, in satoshis.
    pub min_size: u64,
    /// Tweakable public key for receiving swaps.
    pub tweakable_point: PublicKey,
    /// Proof of the fidelity bond.
    pub fidelity: FidelityProof,
}

/// Swap details from taker to maker.
#[derive(Debug, Clone)]
pub struct SwapDetails {
    /// Unique id of the swap.
    pub id: String,
    /// Protocol version to use.
    pub protocol_version: ProtocolVersion,
    /// Amount to swap in satoshis.
    pub amount: u64,
    /// Number of contract transactions.
    pub tx_count: u32,
    /// Timelock value: blocks after confirmation for legacy swaps, a block
    /// height for taproot swaps.
    pub timelock: u32,
    /// Blocks that the funds stay locked, as the taker announces it.
    pub refund_locktime_offset: u16,
    /// Number of outgoing contracts asked for. `None` mirrors `tx_count`.
    pub outgoing_tx_count: Option<u32>,
}

/// Acknowledgment of swap details from maker.
#[derive(Debug, Clone, PartialEq, Eq)]
pub struct AckSwapDetails {
    /// The tweakable point for this swap; `None` rejects the swap.
    pub tweakable_point: Option<PublicKey>,
}

impl AckSwapDetails {
    /// Create an acceptance response.
    pub fn accept(tweakable_point: PublicKey) -> (r: Self)
        ensures
            r.tweakable_point == Some(tweakable_point),
    {
        AckSwapDetails { tweakable_point: Some(tweakable_point) }
    }
}

/// A private key exchanged during swap completion.
#[derive(Debug, Clone)]
pub struct SwapPrivkey {
    /// The script this key belongs to.
    pub identifier: Vec<u8>,
    /// The private key.
    pub key: SecretKey,
}

/// Private key handover for swap completion.
#[derive(Debug, Clone)]
pub struct PrivateKeyHandover {
    /// Unique swap id.
    pub id: String,
    /// Private keys for cooperative spending.
    pub privkeys: Vec<SwapPrivkey>,
}

} // verus!
