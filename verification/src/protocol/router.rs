//! The messages between taker and maker, and which handler each goes to.

use crate::protocol::common_messages::{
    AckSwapDetails, GetOffer, MakerHello, Offer, PrivateKeyHandover, SwapDetails, TakerHello,
};
use crate::protocol::legacy_messages::{
    LegacyTakerMessage, ProofOfFunding, ReqContractSigsAsRecvrAndSender, ReqContractSigsForRecvr,
    ReqContractSigsForSender, RespContractSigsForRecvr, RespContractSigsForRecvrAndSender,
    RespContractSigsForSender,
};
use crate::protocol::taproot_messages::{TaprootContractData, TaprootTakerMessage};
use vstd::prelude::*;

verus! {

/// All messages sent from taker to maker.
#[derive(Debug)]
pub enum TakerToMakerMessage {
    /// Initial handshake with version negotiation.
    TakerHello(TakerHello),
    /// Request for the maker's offer.
    GetOffer(GetOffer),
    /// Proposal of swap parameters, which determine the protocol.
    SwapDetails(SwapDetails),
    /// Request for signatures for the sender's contract.
    ReqContractSigsForSender(ReqContractSigsForSender),
    /// Proof that the funding transactions are confirmed.
    ProofOfFunding(ProofOfFunding),
    /// Signatures for the maker as receiver and as sender.
    RespContractSigsForRecvrAndSender(RespContractSigsForRecvrAndSender),
    /// Request for signatures for the receiver's contract.
    ReqContractSigsForRecvr(ReqContractSigsForRecvr),
    /// Private key handover of a legacy swap.
    LegacyPrivateKeyHandover(PrivateKeyHandover),
    /// Contract data of a taproot swap.
    TaprootContractData(Box<TaprootContractData>),
    /// Private key handover of a taproot swap.
    TaprootPrivateKeyHandover(PrivateKeyHandover),
}

/// All messages sent from maker to taker.
#[derive(Debug)]
pub enum MakerToTakerMessage {
    /// Answer to the handshake.
    MakerHello(MakerHello),
    /// The maker's offer.
    Offer(Box<Offer>),
    /// Answer to the swap parameters.
    AckSwapDetails(AckSwapDetails),
    /// Signatures for the sender's contract.
    RespContractSigsForSender(RespContractSigsForSender),
    /// Request for signatures as receiver and as sender.
    ReqContractSigsAsRecvrAndSender(ReqContractSigsAsRecvrAndSender),
    /// Signatures for the receiver's contract.
    RespContractSigsForRecvr(RespContractSigsForRecvr),
    /// Private key handover of a legacy swap.
    LegacyPrivateKeyHandover(PrivateKeyHandover),
    /// Contract data of a taproot swap.
    TaprootContractData(Box<TaprootContractData>),
    /// Private key handover of a taproot swap.
    TaprootPrivateKeyHandover(PrivateKeyHandover),
}

/// The handler of a message.
#[derive(Debug)]
pub enum Route {
    /// The handshake.
    Hello,
    /// The offer.
    Offer,
    /// The swap parameters.
    Details(SwapDetails),
    /// A swap of the legacy protocol.
    Legacy(LegacyTakerMessage),
    /// A swap of the taproot protocol.
    Taproot(TaprootTakerMessage),
}

/// The handler of a message.
pub open spec fn routed(message: TakerToMakerMessage) -> Route {
    match message {
        TakerToMakerMessage::TakerHello(_) => Route::Hello,
        TakerToMakerMessage::GetOffer(_) => Route::Offer,
        TakerToMakerMessage::SwapDetails(details) => Route::Details(details),
        TakerToMakerMessage::ReqContractSigsForSender(req) => Route::Legacy(
            LegacyTakerMessage::ReqContractSigsForSender(req),
        ),
        TakerToMakerMessage::ProofOfFunding(funding) => Route::Legacy(
            LegacyTakerMessage::ProofOfFunding(funding),
        ),
        TakerToMakerMessage::RespContractSigsForRecvrAndSender(resp) => Route::Legacy(
            LegacyTakerMessage::RespContractSigsForRecvrAndSender(resp),
        ),
        TakerToMakerMessage::ReqContractSigsForRecvr(req) => Route::Legacy(
            LegacyTakerMessage::ReqContractSigsForRecvr(req),
        ),
        TakerToMakerMessage::LegacyPrivateKeyHandover(handover) => Route::Legacy(
            LegacyTakerMessage::PrivateKeyHandover(handover),
        ),
        TakerToMakerMessage::TaprootContractData(data) => Route::Taproot(
            TaprootTakerMessage::ContractData(data),
        ),
        TakerToMakerMessage::TaprootPrivateKeyHandover(handover) => Route::Taproot(
            TaprootTakerMessage::PrivateKeyHandover(handover),
        ),
    }
}

impl TakerToMakerMessage {
    /// The handler of the message.
    pub fn route(self) -> (r: Route)
        ensures
            r == routed(self),
    {
        match self {
            TakerToMakerMessage::TakerHello(_) => Route::Hello,
            TakerToMakerMessage::GetOffer(_) => Route::Offer,
            TakerToMakerMessage::SwapDetails(details) => Route::Details(details),
            TakerToMakerMessage::ReqContractSigsForSender(req) => Route::Legacy(
                LegacyTakerMessage::ReqContractSigsForSender(req),
            ),
            TakerToMakerMessage::ProofOfFunding(funding) => Route::Legacy(
                LegacyTakerMessage::ProofOfFunding(funding),
            ),
            TakerToMakerMessage::RespContractSigsForRecvrAndSender(resp) => Route::Legacy(
                LegacyTakerMessage::RespContractSigsForRecvrAndSender(resp),
            ),
            TakerToMakerMessage::ReqContractSigsForRecvr(req) => Route::Legacy(
                LegacyTakerMessage::ReqContractSigsForRecvr(req),
            ),
            TakerToMakerMessage::LegacyPrivateKeyHandover(handover) => Route::Legacy(
                LegacyTakerMessage::PrivateKeyHandover(handover),
            ),
            TakerToMakerMessage::TaprootContractData(data) => Route::Taproot(
                TaprootTakerMessage::ContractData(data),
            ),
            TakerToMakerMessage::TaprootPrivateKeyHandover(handover) => Route::Taproot(
                TaprootTakerMessage::PrivateKeyHandover(handover),
            ),
        }
    }
}

/// Messages of a protocol go to its handler, with what they carry, under the
/// swap that they name.
pub proof fn law_messages_reach_their_protocol(message: TakerToMakerMessage)
    ensures
        routed(message) is Legacy <==> message is ReqContractSigsForSender
            || message is ProofOfFunding || message is RespContractSigsForRecvrAndSender
            || message is ReqContractSigsForRecvr || message is LegacyPrivateKeyHandover,
        routed(message) is Taproot <==> message is TaprootContractData
            || message is TaprootPrivateKeyHandover,
        routed(message) is Hello <==> message is TakerHello,
        routed(message) is Offer <==> message is GetOffer,
        message matches TakerToMakerMessage::SwapDetails(details) ==> routed(message)
            == Route::Details(details),
        message matches TakerToMakerMessage::ProofOfFunding(funding) ==> (routed(message) matches Route::Legacy(
            inner,
        ) && inner.id() == funding.id),
        message matches TakerToMakerMessage::LegacyPrivateKeyHandover(handover) ==> (routed(
            message,
        ) matches Route::Legacy(LegacyTakerMessage::PrivateKeyHandover(inner)) && inner
            == handover),
        message matches TakerToMakerMessage::TaprootPrivateKeyHandover(handover) ==> (routed(
            message,
        ) matches Route::Taproot(TaprootTakerMessage::PrivateKeyHandover(inner)) && inner
            == handover),
        message matches TakerToMakerMessage::TaprootContractData(data) ==> (routed(
            message,
        ) matches Route::Taproot(TaprootTakerMessage::ContractData(inner)) && inner == data),
        message matches TakerToMakerMessage::ReqContractSigsForRecvr(req) ==> (routed(
            message,
        ) matches Route::Legacy(LegacyTakerMessage::ReqContractSigsForRecvr(inner)) && inner
            == req),
        message matches TakerToMakerMessage::ReqContractSigsForSender(req) ==> (routed(
            message,
        ) matches Route::Legacy(LegacyTakerMessage::ReqContractSigsForSender(inner)) && inner
            == req),
{
}

} // verus!
