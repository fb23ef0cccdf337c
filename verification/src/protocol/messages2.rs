//! The messages of the first taproot protocol.

use crate::chain::{PublicKey, SecretKey, Txid, XOnlyPublicKey};
use crate::protocol::common_messages::{FidelityProof, RateBits};
use vstd::prelude::*;

verus! {

/// The bytes of a MuSig2 public nonce, as a message carries them.
#[derive(Debug, Clone, PartialEq, Eq)]
pub struct SerializablePublicNonce(pub Vec<u8>);

/// The bytes of a scalar of the curve, as a message carries them.
#[derive(Debug, Clone, PartialEq, Eq)]
pub struct SerializableScalar(pub Vec<u8>);

/// The bytes of a MuSig2 partial signature, as a message carries them.
#[derive(Debug, Clone, PartialEq, Eq)]
pub struct SerializablePartialSignature(pub Vec<u8>);

/// A transaction of the mempool.
#[derive(Debug, Clone, PartialEq, Eq)]
pub struct MempoolTx {
    /// The id of the transaction that spends the output.
    pub txid: String,
    /// The raw transaction in hexadecimal digits.
    pub rawtx: String,
}

/// Request for an offer.
#[derive(Debug, Clone, PartialEq, Eq)]
pub struct GetOffer {
    pub id: String,
    pub protocol_version_min: u32,
    pub protocol_version_max: u32,
    pub number_of_transactions: u32,
}

/// An offer from a maker.
#[derive(Debug, Clone)]
pub struct Offer {
    /// The tweakable public key of the maker.
    pub tweakable_point: PublicKey,
    /// Base fee in satoshis.
    pub base_fee: u64,
    /// Fee relative to the swap amount, in percent.
    pub amount_relative_fee: RateBits,
    /// Fee relative to the time lock, in percent.
    pub time_relative_fee: RateBits,
    /// Least time lock in blocks.
    pub minimum_locktime: u16,
    /// Proof of the maker's fidelity bond.
    pub fidelity: FidelityProof,
    /// Smallest swap amount in satoshis.
    pub min_size: u64,
    /// Largest swap amount in satoshis.
    pub max_size: u64,
}

/// Swap details.
#[derive(Debug, Clone, PartialEq, Eq)]
pub struct SwapDetails {
    pub id: String,
    /// Amount in satoshis.
    pub amount: u64,
    /// Number of contract transactions.
    pub no_of_tx: u8,
    /// Time lock in blocks.
    pub timelock: u16,
}

/// The answer to swap details.
#[derive(Debug, Clone, PartialEq, Eq)]
pub struct AckResponse {
    /// The tweakable point for this swap.
    pub tweakable_point: Option<PublicKey>,
}

/// A sender's contract.
#[derive(Debug, Clone)]
pub struct SendersContract {
    pub id: String,
    /// The contract transactions.
    pub contract_txs: Vec<Txid>,
    /// The sender's keys.
    pub pubkeys_a: Vec<PublicKey>,
    pub hashlock_scripts: Vec<Vec<u8>>,
    pub timelock_scripts: Vec<Vec<u8>>,
    /// The tweakable point of the party after the maker.
    pub next_party_tweakable_point: PublicKey,
    /// The internal key of the contract.
    pub internal_key: Option<XOnlyPublicKey>,
    /// The tweak of the contract.
    pub tap_tweak: Option<SerializableScalar>,
}

/// The maker's contract as sender.
#[derive(Debug, Clone)]
pub struct SenderContractFromMaker {
    /// The contract transactions.
    pub contract_txs: Vec<Txid>,
    /// The maker's keys.
    pub pubkeys_a: Vec<PublicKey>,
    pub hashlock_scripts: Vec<Vec<u8>>,
    pub timelock_scripts: Vec<Vec<u8>>,
    /// The internal key of the contract.
    pub internal_key: Option<XOnlyPublicKey>,
    /// The tweak of the contract.
    pub tap_tweak: Option<SerializableScalar>,
}

/// Private key handover: the parties exchange the keys of their outgoing
/// contracts, so that each can sweep on its own.
#[derive(Debug, Clone, PartialEq, Eq)]
pub struct PrivateKeyHandover {
    /// Unique swap id.
    pub id: String,
    /// The key of the outgoing contract.
    pub secret_key: SecretKey,
}

/// All messages sent from taker to maker.
#[derive(Debug, Clone)]
pub enum TakerToMakerMessage {
    GetOffer(GetOffer),
    SwapDetails(SwapDetails),
    SendersContract(SendersContract),
    PrivateKeyHandover(PrivateKeyHandover),
}

impl TakerToMakerMessage {
    /// The name of the message.
    pub open spec fn label(&self) -> &'static str {
        match self {
            TakerToMakerMessage::GetOffer(_) => "GetOffer",
            TakerToMakerMessage::SwapDetails(_) => "SwapDetails",
            TakerToMakerMessage::SendersContract(_) => "SendersContract",
            TakerToMakerMessage::PrivateKeyHandover(_) => "PrivateKeyHandover",
        }
    }

    /// The name of the message.
    pub fn name(&self) -> (r: &'static str)
        ensures
            r == self.label(),
    {
        match self {
            TakerToMakerMessage::GetOffer(_) => "GetOffer",
            TakerToMakerMessage::SwapDetails(_) => "SwapDetails",
            TakerToMakerMessage::SendersContract(_) => "SendersContract",
            TakerToMakerMessage::PrivateKeyHandover(_) => "PrivateKeyHandover",
        }
    }

    /// The swap that a message is filed under; a request for an offer belongs
    /// to none.
    pub open spec fn filed_under(&self) -> Seq<char> {
        match self {
            TakerToMakerMessage::GetOffer(_) => seq![],
            TakerToMakerMessage::SwapDetails(details) => details.id@,
            TakerToMakerMessage::SendersContract(contract) => contract.id@,
            TakerToMakerMessage::PrivateKeyHandover(handover) => handover.id@,
        }
    }

    /// The swap that a message is filed under: empty for a request for an
    /// offer.
    pub fn swap_id(&self) -> (r: String)
        ensures
            r@ == self.filed_under(),
    {
        match self {
            TakerToMakerMessage::GetOffer(_) => {
                let r = String::new();
                assert(r@ =~= seq![]);
                r
            },
            TakerToMakerMessage::SwapDetails(details) => details.id.clone(),
            TakerToMakerMessage::SendersContract(contract) => contract.id.clone(),
            TakerToMakerMessage::PrivateKeyHandover(handover) => handover.id.clone(),
        }
    }
}

/// All messages sent from maker to taker.
#[derive(Debug)]
pub enum MakerToTakerMessage {
    RespOffer(Box<Offer>),
    AckResponse(AckResponse),
    SenderContractFromMaker(SenderContractFromMaker),
    PrivateKeyHandover(PrivateKeyHandover),
}

impl MakerToTakerMessage {
    /// The name of the message.
    pub open spec fn label(&self) -> &'static str {
        match self {
            MakerToTakerMessage::RespOffer(_) => "RespOffer",
            MakerToTakerMessage::AckResponse(_) => "AckResponse",
            MakerToTakerMessage::SenderContractFromMaker(_) => "SenderContractFromMaker",
            MakerToTakerMessage::PrivateKeyHandover(_) => "PrivateKeyHandover",
        }
    }

    /// The name of the message.
    pub fn name(&self) -> (r: &'static str)
        ensures
            r == self.label(),
    {
        match self {
            MakerToTakerMessage::RespOffer(_) => "RespOffer",
            MakerToTakerMessage::AckResponse(_) => "AckResponse",
            MakerToTakerMessage::SenderContractFromMaker(_) => "SenderContractFromMaker",
            MakerToTakerMessage::PrivateKeyHandover(_) => "PrivateKeyHandover",
        }
    }
}

} // verus!
