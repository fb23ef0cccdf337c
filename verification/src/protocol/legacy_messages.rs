//! The messages of the legacy protocol.

use crate::chain::{Hash160, PublicKey, SecretKey, Transaction};
use crate::protocol::common_messages::{PrivateKeyHandover, RateBits};
use vstd::prelude::*;

verus! {

/// What the receiver of a hop signs a sender's contract transaction from.
#[derive(Debug)]
pub struct ContractTxInfoForSender {
    /// Nonce of the receiver's key in the two-key script.
    pub multisig_nonce: SecretKey,
    /// Nonce of the receiver's hashlock key.
    pub hashlock_nonce: SecretKey,
    /// The sender's timelock key.
    pub timelock_pubkey: PublicKey,
    /// The contract transaction to sign.
    pub senders_contract_tx: Transaction,
    /// The two-key script that the contract transaction spends.
    pub multisig_redeemscript: Vec<u8>,
    /// The amount of the funding output in satoshis.
    pub funding_input_value: u64,
}

/// Request for contract signatures for the sender side of a hop.
#[derive(Debug)]
pub struct ReqContractSigsForSender {
    /// Unique swap id.
    pub id: String,
    /// The contract transactions.
    pub txs_info: Vec<ContractTxInfoForSender>,
    /// The hash that the contracts are locked to.
    pub hashvalue: Hash160,
    /// The lock time of the receiver's own contracts, in blocks.
    pub locktime: u16,
}

/// Contract signatures for the sender side of a hop.
#[derive(Debug)]
pub struct RespContractSigsForSender {
    /// Unique swap id.
    pub id: String,
    /// The signatures, in the order of the requested transactions.
    pub sigs: Vec<Vec<u8>>,
}

/// A confirmed funding transaction and what spends it.
#[derive(Debug)]
pub struct FundingTxInfo {
    /// The funding transaction.
    pub funding_tx: Transaction,
    /// Merkle proof of the funding transaction.
    pub funding_tx_merkleproof: String,
    /// The two-key script of the funding output.
    pub multisig_redeemscript: Vec<u8>,
    /// Nonce of the receiver's key in the two-key script.
    pub multisig_nonce: SecretKey,
    /// The script of the contract.
    pub contract_redeemscript: Vec<u8>,
    /// Nonce of the receiver's hashlock key.
    pub hashlock_nonce: SecretKey,
}

/// The keys of the next hop.
#[derive(Debug, Clone, Copy)]
pub struct NextHopInfo {
    /// The next party's key of the two-key script.
    pub next_multisig_pubkey: PublicKey,
    /// The next party's hashlock key.
    pub next_hashlock_pubkey: PublicKey,
    /// Nonce of the next party's key of the two-key script.
    pub next_multisig_nonce: SecretKey,
    /// Nonce of the next party's hashlock key.
    pub next_hashlock_nonce: SecretKey,
}

/// Proof that the funding transactions are confirmed, with the next hop.
#[derive(Debug)]
pub struct ProofOfFunding {
    /// Unique swap id.
    pub id: String,
    /// The confirmed funding transactions.
    pub confirmed_funding_txes: Vec<FundingTxInfo>,
    /// The keys of the next hop.
    pub next_openswap_info: Vec<NextHopInfo>,
    /// The lock time of the next hop's contracts, in blocks.
    pub refund_locktime: u16,
    /// The fee rate of the next hop's contracts.
    pub contract_feerate: RateBits,
}

/// A contract transaction of the maker as sender.
#[derive(Debug)]
pub struct SenderContractTxInfo {
    /// The funding transaction.
    pub funding_tx: Transaction,
    /// The contract transaction that spends it.
    pub contract_tx: Transaction,
    /// The maker's timelock key.
    pub timelock_pubkey: PublicKey,
    /// The two-key script of the funding output.
    pub multisig_redeemscript: Vec<u8>,
    /// The script of the contract.
    pub contract_redeemscript: Vec<u8>,
    /// The amount of the coin in satoshis.
    pub funding_amount: u64,
    /// Nonce of the next party's key of the two-key script.
    pub multisig_nonce: SecretKey,
    /// Nonce of the next party's hashlock key.
    pub hashlock_nonce: SecretKey,
}

/// A maker's request for signatures as receiver and as sender.
#[derive(Debug)]
pub struct ReqContractSigsAsRecvrAndSender {
    /// The contract transactions by which the maker receives.
    pub receivers_contract_txs: Vec<Transaction>,
    /// The contract transactions by which the maker sends.
    pub senders_contract_txs_info: Vec<SenderContractTxInfo>,
}

/// Contract signatures for the maker as receiver and as sender.
#[derive(Debug)]
pub struct RespContractSigsForRecvrAndSender {
    /// Unique swap id.
    pub id: String,
    /// The previous party's signatures.
    pub receivers_sigs: Vec<Vec<u8>>,
    /// The next party's signatures.
    pub senders_sigs: Vec<Vec<u8>>,
}

/// What the sender of a hop signs a receiver's contract transaction from.
#[derive(Debug)]
pub struct ContractTxInfoForRecvr {
    /// The two-key script that the contract transaction spends.
    pub multisig_redeemscript: Vec<u8>,
    /// The contract transaction to sign.
    pub contract_tx: Transaction,
}

/// Request for contract signatures for the receiver side of a hop.
#[derive(Debug)]
pub struct ReqContractSigsForRecvr {
    /// Unique swap id.
    pub id: String,
    /// The contract transactions.
    pub txs: Vec<ContractTxInfoForRecvr>,
}

/// Contract signatures for the receiver side of a hop.
#[derive(Debug)]
pub struct RespContractSigsForRecvr {
    /// Unique swap id.
    pub id: String,
    /// The signatures, in the order of the requested transactions.
    pub sigs: Vec<Vec<u8>>,
}

/// All legacy messages sent from taker to maker.
#[derive(Debug)]
pub enum LegacyTakerMessage {
    /// Request for the maker's signatures as receiver.
    ReqContractSigsForSender(ReqContractSigsForSender),
    /// Proof of funding.
    ProofOfFunding(ProofOfFunding),
    /// Signatures for the maker as receiver and as sender.
    RespContractSigsForRecvrAndSender(RespContractSigsForRecvrAndSender),
    /// Request for the maker's signatures as sender.
    ReqContractSigsForRecvr(ReqContractSigsForRecvr),
    /// Private key handover.
    PrivateKeyHandover(PrivateKeyHandover),
}

impl LegacyTakerMessage {
    /// The id of the swap that the message belongs to.
    pub open spec fn id(&self) -> String {
        match self {
            LegacyTakerMessage::ReqContractSigsForSender(req) => req.id,
            LegacyTakerMessage::ProofOfFunding(funding) => funding.id,
            LegacyTakerMessage::RespContractSigsForRecvrAndSender(resp) => resp.id,
            LegacyTakerMessage::ReqContractSigsForRecvr(req) => req.id,
            LegacyTakerMessage::PrivateKeyHandover(handover) => handover.id,
        }
    }

    /// Returns the swap id.
    pub fn swap_id(&self) -> (r: &str)
        ensures
            r@ == self.id()@,
    {
        match self {
            LegacyTakerMessage::ReqContractSigsForSender(req) => req.id.as_str(),
            LegacyTakerMessage::ProofOfFunding(funding) => funding.id.as_str(),
            LegacyTakerMessage::RespContractSigsForRecvrAndSender(resp) => resp.id.as_str(),
            LegacyTakerMessage::ReqContractSigsForRecvr(req) => req.id.as_str(),
            LegacyTakerMessage::PrivateKeyHandover(handover) => handover.id.as_str(),
        }
    }
}

} // verus!
