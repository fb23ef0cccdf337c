//! The messages of remote control.

use crate::protocol::common_messages::RateBits;
use vstd::prelude::*;

verus! {

/// Requests that a maker answers.
#[derive(Debug)]
pub enum RpcMsgReq {
    /// Check connectivity.
    Ping,
    /// All coins in the wallet.
    Utxo,
    /// The swap coins in the wallet.
    SwapUtxo,
    /// The coins in contracts.
    ContractUtxo,
    /// The coins in fidelity bonds.
    FidelityUtxo,
    /// The balances of the wallet.
    Balances,
    /// A new wallet address.
    NewAddress,
    /// Send funds to an address.
    SendToAddress {
        /// The recipient's address.
        address: String,
        /// The amount to send in satoshis.
        amount: u64,
        /// The fee rate of the transaction.
        feerate: RateBits,
    },
    /// The maker's Tor address.
    GetTorAddress,
    /// The data directory.
    GetDataDir,
    /// Stop the server.
    Stop,
    /// All fidelity bonds.
    ListFidelity,
    /// Synchronise the wallet with the chain.
    SyncWallet,
}

impl Clone for RpcMsgReq {
    fn clone(&self) -> (r: Self)
        ensures
            r == *self,
    {
        match self {
            RpcMsgReq::Ping => RpcMsgReq::Ping,
            RpcMsgReq::Utxo => RpcMsgReq::Utxo,
            RpcMsgReq::SwapUtxo => RpcMsgReq::SwapUtxo,
            RpcMsgReq::ContractUtxo => RpcMsgReq::ContractUtxo,
            RpcMsgReq::FidelityUtxo => RpcMsgReq::FidelityUtxo,
            RpcMsgReq::Balances => RpcMsgReq::Balances,
            RpcMsgReq::NewAddress => RpcMsgReq::NewAddress,
            RpcMsgReq::SendToAddress { address, amount, feerate } => RpcMsgReq::SendToAddress {
                address: address.clone(),
                amount: *amount,
                feerate: *feerate,
            },
            RpcMsgReq::GetTorAddress => RpcMsgReq::GetTorAddress,
            RpcMsgReq::GetDataDir => RpcMsgReq::GetDataDir,
            RpcMsgReq::Stop => RpcMsgReq::Stop,
            RpcMsgReq::ListFidelity => RpcMsgReq::ListFidelity,
            RpcMsgReq::SyncWallet => RpcMsgReq::SyncWallet,
        }
    }
}

/// A request with the token that authorises it.
#[derive(Debug)]
pub struct RpcAuthEnvelope {
    /// The token, as hexadecimal text.
    pub token: String,
    /// The request.
    pub msg: RpcMsgReq,
}

} // verus!
