//! The requests of remote control.

use crate::chain::Network;
use crate::error::{MakerError, NetFault};
use crate::maker::rpc::messages::RpcMsgReq;
use crate::primitives::{address_script, parse_address};
use crate::protocol::common_messages::RateBits;
use crate::settings::{decimal, decimal_text};
use vstd::prelude::*;
use vstd::string::StringExecFns;

verus! {

/// The coins that a request asks for.
#[derive(Debug, Clone, Copy, PartialEq, Eq, Structural)]
pub enum CoinKind {
    /// All coins.
    All,
    /// Swap coins.
    Swap,
    /// Coins in contracts.
    Contract,
    /// Coins in fidelity bonds.
    Fidelity,
}

/// What a request comes to.
#[derive(Debug)]
pub enum RpcPlan {
    /// Answer that the maker is there.
    Pong,
    /// List coins.
    ListCoins(CoinKind),
    /// Give the balances.
    Balances,
    /// Give a new address.
    NewAddress,
    /// Pay `amount` satoshis to an output script.
    Send {
        /// The output script.
        script: Vec<u8>,
        /// The amount in satoshis.
        amount: u64,
        /// The fee rate.
        feerate: RateBits,
    },
    /// Give the data directory.
    DataDir,
    /// Give the Tor address.
    TorAddress,
    /// Stop the server, and say so.
    Stop,
    /// List the fidelity bonds.
    ListBonds,
    /// Synchronise the wallet; a failure is answered, not raised.
    SyncWallet,
}

/// What a plan holds.
pub enum PlanModel {
    Pong,
    ListCoins(CoinKind),
    Balances,
    NewAddress,
    Send { script: Seq<u8>, amount: u64, feerate: RateBits },
    DataDir,
    TorAddress,
    Stop,
    ListBonds,
    SyncWallet,
}

impl View for RpcPlan {
    type V = PlanModel;

    open spec fn view(&self) -> PlanModel {
        match self {
            RpcPlan::Pong => PlanModel::Pong,
            RpcPlan::ListCoins(kind) => PlanModel::ListCoins(*kind),
            RpcPlan::Balances => PlanModel::Balances,
            RpcPlan::NewAddress => PlanModel::NewAddress,
            RpcPlan::Send { script, amount, feerate } => PlanModel::Send {
                script: script@,
                amount: *amount,
                feerate: *feerate,
            },
            RpcPlan::DataDir => PlanModel::DataDir,
            RpcPlan::TorAddress => PlanModel::TorAddress,
            RpcPlan::Stop => PlanModel::Stop,
            RpcPlan::ListBonds => PlanModel::ListBonds,
            RpcPlan::SyncWallet => PlanModel::SyncWallet,
        }
    }
}

/// The output script of a payment's destination, or that it is no address of
/// the network.
pub open spec fn destination(script: Option<Seq<u8>>) -> Result<Seq<u8>, MakerError> {
    match script {
        Some(bytes) => Ok(bytes),
        None => Err(MakerError::Net(NetFault::InvalidNetworkAddressDetailed)),
    }
}

/// Parses the destination of a payment: the output script of an address of the
/// maker's network.
pub fn parse_rpc_destination_address(address: &str, network: Network) -> (r: Result<
    Vec<u8>,
    MakerError,
>)
    ensures
        match (r, destination(address_script(address@, network))) {
            (Ok(script), Ok(expected)) => script@ == expected,
            (Err(e), Err(expected)) => e == expected,
            _ => false,
        },
{
    match parse_address(address, network) {
        Some(script) => Ok(script),
        None => Err(MakerError::Net(NetFault::InvalidNetworkAddressDetailed)),
    }
}

/// What a request comes to, given the output script that the address in it
/// stands for.
pub open spec fn planned(request: RpcMsgReq, script: Option<Seq<u8>>) -> Result<
    PlanModel,
    MakerError,
> {
    match request {
        RpcMsgReq::Ping => Ok(PlanModel::Pong),
        RpcMsgReq::Utxo => Ok(PlanModel::ListCoins(CoinKind::All)),
        RpcMsgReq::SwapUtxo => Ok(PlanModel::ListCoins(CoinKind::Swap)),
        RpcMsgReq::ContractUtxo => Ok(PlanModel::ListCoins(CoinKind::Contract)),
        RpcMsgReq::FidelityUtxo => Ok(PlanModel::ListCoins(CoinKind::Fidelity)),
        RpcMsgReq::Balances => Ok(PlanModel::Balances),
        RpcMsgReq::NewAddress => Ok(PlanModel::NewAddress),
        RpcMsgReq::SendToAddress { address: _, amount, feerate } => match destination(script) {
            Ok(script) => Ok(PlanModel::Send { script, amount, feerate }),
            Err(e) => Err(e),
        },
        RpcMsgReq::GetTorAddress => Ok(PlanModel::TorAddress),
        RpcMsgReq::GetDataDir => Ok(PlanModel::DataDir),
        RpcMsgReq::Stop => Ok(PlanModel::Stop),
        RpcMsgReq::ListFidelity => Ok(PlanModel::ListBonds),
        RpcMsgReq::SyncWallet => Ok(PlanModel::SyncWallet),
    }
}

/// The address in a request, where there is one.
pub open spec fn address_in(request: RpcMsgReq) -> Seq<char> {
    match request {
        RpcMsgReq::SendToAddress { address, .. } => address@,
        _ => seq![],
    }
}

/// Decides what a request comes to, given the output script that the address
/// in it stands for.
pub fn plan_request(request: RpcMsgReq, script: Option<Vec<u8>>) -> (r: Result<
    RpcPlan,
    MakerError,
>)
    ensures
        match (
            r,
            planned(
                request,
                match script {
                    Some(bytes) => Some(bytes@),
                    None => None,
                },
            ),
        ) {
            (Ok(plan), Ok(expected)) => plan@ == expected,
            (Err(e), Err(expected)) => e == expected,
            _ => false,
        },
{
    match request {
        RpcMsgReq::Ping => Ok(RpcPlan::Pong),
        RpcMsgReq::Utxo => Ok(RpcPlan::ListCoins(CoinKind::All)),
        RpcMsgReq::SwapUtxo => Ok(RpcPlan::ListCoins(CoinKind::Swap)),
        RpcMsgReq::ContractUtxo => Ok(RpcPlan::ListCoins(CoinKind::Contract)),
        RpcMsgReq::FidelityUtxo => Ok(RpcPlan::ListCoins(CoinKind::Fidelity)),
        RpcMsgReq::Balances => Ok(RpcPlan::Balances),
        RpcMsgReq::NewAddress => Ok(RpcPlan::NewAddress),
        RpcMsgReq::SendToAddress { address: _, amount, feerate } => match script {
            Some(script) => Ok(RpcPlan::Send { script, amount, feerate }),
            None => Err(MakerError::Net(NetFault::InvalidNetworkAddressDetailed)),
        },
        RpcMsgReq::GetTorAddress => Ok(RpcPlan::TorAddress),
        RpcMsgReq::GetDataDir => Ok(RpcPlan::DataDir),
        RpcMsgReq::Stop => Ok(RpcPlan::Stop),
        RpcMsgReq::ListFidelity => Ok(RpcPlan::ListBonds),
        RpcMsgReq::SyncWallet => Ok(RpcPlan::SyncWallet),
    }
}

/// Decides what a request to a maker of the network comes to.
pub fn handle_request(request: RpcMsgReq, network: Network) -> (r: Result<RpcPlan, MakerError>)
    ensures
        match (r, planned(request, address_script(address_in(request), network))) {
            (Ok(plan), Ok(expected)) => plan@ == expected,
            (Err(e), Err(expected)) => e == expected,
            _ => false,
        },
{
    let script = match &request {
        RpcMsgReq::SendToAddress { address, .. } => parse_address(address.as_str(), network),
        _ => None,
    };
    plan_request(request, script)
}

/// The text of the Tor address: host name and port.
pub fn tor_address(hostname: &str, port: u16) -> (r: String)
    ensures
        r@ == hostname@ + seq![':'] + decimal(port as nat),
{
    proof {
        reveal_strlit(":");
        assert(":"@ =~= seq![':']);
    }
    let mut text = hostname.to_owned();
    text.append(":");
    text.append(decimal_text(port as u64).as_str());
    text
}

/// A payment is planned exactly where its destination is an address, with the
/// amount and the fee rate of the request; nothing else needs one.
pub proof fn law_payments_need_an_address(request: RpcMsgReq, script: Option<Seq<u8>>)
    ensures
        planned(request, script) is Err <==> request is SendToAddress && script is None,
        planned(request, script) is Err ==> planned(request, script) == Err::<PlanModel, MakerError>(
            MakerError::Net(NetFault::InvalidNetworkAddressDetailed),
        ),
        request matches RpcMsgReq::SendToAddress { address, amount, feerate } ==> {
            &&& address_in(request) == address@
            &&& script is Some ==> (planned(request, script) matches Ok(PlanModel::Send {
                script: to,
                amount: sats,
                feerate: rate,
            }) && Some(to) == script && sats == amount && rate == feerate)
        },
        !(request is SendToAddress) ==> planned(request, script) == planned(request, None),
{
}

/// Every request comes to what it asks for, and a payment or a stop only to
/// whoever asks for it.
pub proof fn law_requests_come_to_what_they_ask(request: RpcMsgReq, script: Option<Seq<u8>>)
    ensures
        planned(RpcMsgReq::Ping, script) == Ok::<PlanModel, MakerError>(PlanModel::Pong),
        planned(RpcMsgReq::Utxo, script) == Ok::<PlanModel, MakerError>(
            PlanModel::ListCoins(CoinKind::All),
        ),
        planned(RpcMsgReq::SwapUtxo, script) == Ok::<PlanModel, MakerError>(
            PlanModel::ListCoins(CoinKind::Swap),
        ),
        planned(RpcMsgReq::ContractUtxo, script) == Ok::<PlanModel, MakerError>(
            PlanModel::ListCoins(CoinKind::Contract),
        ),
        planned(RpcMsgReq::FidelityUtxo, script) == Ok::<PlanModel, MakerError>(
            PlanModel::ListCoins(CoinKind::Fidelity),
        ),
        planned(request, script) matches Ok(PlanModel::Stop) ==> request is Stop,
        planned(request, script) matches Ok(PlanModel::Send { .. }) ==> request is SendToAddress,
        planned(request, script) matches Ok(PlanModel::Balances) ==> request is Balances,
        planned(request, script) matches Ok(PlanModel::NewAddress) ==> request is NewAddress,
        planned(request, script) matches Ok(PlanModel::DataDir) ==> request is GetDataDir,
        planned(request, script) matches Ok(PlanModel::TorAddress) ==> request is GetTorAddress,
        planned(request, script) matches Ok(PlanModel::ListBonds) ==> request is ListFidelity,
        planned(request, script) matches Ok(PlanModel::SyncWallet) ==> request is SyncWallet,
        request is Stop ==> planned(request, script) == Ok::<PlanModel, MakerError>(
            PlanModel::Stop,
        ),
        request is Balances ==> planned(request, script) == Ok::<PlanModel, MakerError>(
            PlanModel::Balances,
        ),
{
}

} // verus!
