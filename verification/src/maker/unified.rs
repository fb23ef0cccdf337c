//! The unified maker, which speaks both protocols and keeps its swaps without
//! a limit on their number.

use crate::chain::{
    first_output_for, hash_equal, outpoint_equal, Hash160, Network, OutPoint, PublicKey, Transaction,
    TransactionModel, Txid,
};
use crate::error::MakerError;
use crate::maker::handlers::{
    copy_versions, largest_swap, timed_out, ConnectionState, MakerConfig, StateModel, SwapPhase,
    MIN_CONTRACT_REACTION_TIME, NANOS_PER_SEC,
};
use crate::maker::recovery::{update_model, UpdateModel};
use crate::maker::swap_params::supports;
use crate::maker::swap_tracker::{
    MakerRecoveryPhase, MakerRecoveryState, MakerSwapPhase, MakerSwapRecord, RecordUpdate,
};
use crate::maker::swapcoin::{
    copy_incoming, copy_outgoing, copy_text, copy_txs, incoming_models, is_of_script, keys_of,
    outgoing_models, spends_script, text_model, two_keys, tx_models, IncomingModel,
    IncomingSwapCoin, OutgoingModel, OutgoingSwapCoin, TwoKeyScript,
};
use crate::primitives::{compute_txid, p2wsh_bytes, redeemscript_to_scriptpubkey, txid_of};
use crate::protocol::common_messages::{
    FidelityProof, MakerHello, Offer, ProtocolVersion, RateBits, SwapDetails,
};
use crate::protocol::error::ProtocolError;
use crate::protocol::legacy_messages::{FundingTxInfo, ProofOfFunding};
use crate::table::{contents, distinct_keys, placed, without, Table};
use vstd::prelude::*;

verus! {

/// Most bytes of a message.
pub const MAX_MESSAGE_SIZE: u32 = 10 * 1024 * 1024;

/// Blocks by which the lock time of a funded contract must exceed that of the
/// next hop.
pub const FUNDING_REACTION_TIME: u16 = 20;

/// The configuration of the unified maker.
#[derive(Debug, Clone, PartialEq, Eq)]
pub struct UnifiedMakerServerConfig {
    /// Data directory for the maker.
    pub data_dir: String,
    /// Network port for incoming connections.
    pub network_port: u16,
    /// Port for remote control.
    pub rpc_port: u16,
    /// Base fee in satoshis per swap.
    pub base_fee: u64,
    /// Percentage fee on the swap amount.
    pub amount_relative_fee_pct: RateBits,
    /// Percentage fee on the swap duration.
    pub time_relative_fee_pct: RateBits,
    /// Smallest swap amount in satoshis.
    pub min_swap_amount: u64,
    /// Required confirmations of funding transactions.
    pub required_confirms: u32,
    /// Supported protocol versions.
    pub supported_protocols: Vec<ProtocolVersion>,
    /// Address at which transactions are announced.
    pub zmq_addr: String,
    /// Amount of the fidelity bond in satoshis.
    pub fidelity_amount: u64,
    /// Lock time of the fidelity bond in blocks.
    pub fidelity_timelock: u32,
    /// Network of the chain.
    pub network: Network,
    /// Name of the wallet.
    pub wallet_name: String,
}

impl UnifiedMakerServerConfig {
    /// The default configuration, with the given percentage fees.
    pub fn with_fees(amount_relative_fee_pct: RateBits, time_relative_fee_pct: RateBits) -> (r:
        Self)
        ensures
            r.data_dir@ == "./data"@,
            r.network_port == 6102,
            r.rpc_port == 6103,
            r.base_fee == 1000,
            r.amount_relative_fee_pct == amount_relative_fee_pct,
            r.time_relative_fee_pct == time_relative_fee_pct,
            r.min_swap_amount == 10_000,
            r.required_confirms == 1,
            r.supported_protocols@ == seq![ProtocolVersion::Legacy, ProtocolVersion::Taproot],
            r.zmq_addr@ == "tcp://127.0.0.1:28332"@,
            r.fidelity_amount == 5_000_000,
            r.fidelity_timelock == 26_000,
            r.network == Network::Regtest,
            r.wallet_name@ == "unified_maker"@,
    {
        let mut supported_protocols: Vec<ProtocolVersion> = Vec::new();
        supported_protocols.push(ProtocolVersion::Legacy);
        supported_protocols.push(ProtocolVersion::Taproot);
        UnifiedMakerServerConfig {
            data_dir: "./data".to_string(),
            network_port: 6102,
            rpc_port: 6103,
            base_fee: 1000,
            amount_relative_fee_pct,
            time_relative_fee_pct,
            min_swap_amount: 10_000,
            required_confirms: 1,
            supported_protocols,
            zmq_addr: "tcp://127.0.0.1:28332".to_string(),
            fidelity_amount: 5_000_000,
            fidelity_timelock: 26_000,
            network: Network::Regtest,
            wallet_name: "unified_maker".to_string(),
        }
    }

    /// The terms that takers see. `offer_maxsize` is the largest swap that the
    /// wallet allows, where the wallet could be asked.
    pub fn get_config(&self, offer_maxsize: Option<u64>) -> (r: MakerConfig)
        ensures
            r.base_fee == self.base_fee,
            r.amount_relative_fee_pct == self.amount_relative_fee_pct,
            r.time_relative_fee_pct == self.time_relative_fee_pct,
            r.min_swap_amount == self.min_swap_amount,
            r.max_swap_amount == largest_swap(offer_maxsize),
            r.required_confirms == self.required_confirms,
            r.supported_protocols@ == self.supported_protocols@,
    {
        MakerConfig {
            base_fee: self.base_fee,
            amount_relative_fee_pct: self.amount_relative_fee_pct,
            time_relative_fee_pct: self.time_relative_fee_pct,
            min_swap_amount: self.min_swap_amount,
            max_swap_amount: match offer_maxsize {
                Some(amount) => amount,
                None => u64::MAX,
            },
            required_confirms: self.required_confirms,
            supported_protocols: copy_versions(&self.supported_protocols),
        }
    }
}

/// The state of a connection with a taker. Moments are nanoseconds of a
/// monotonic clock.
#[derive(Debug)]
pub struct UnifiedConnectionState {
    /// Protocol version being used for this connection.
    pub protocol: ProtocolVersion,
    /// Current phase of the swap.
    pub phase: SwapPhase,
    /// Unique swap identifier.
    pub swap_id: Option<String>,
    /// Swap amount in satoshis.
    pub swap_amount: u64,
    /// Timelock value.
    pub timelock: u32,
    /// Incoming swap coins.
    pub incoming_swapcoins: Vec<IncomingSwapCoin>,
    /// Outgoing swap coins.
    pub outgoing_swapcoins: Vec<OutgoingSwapCoin>,
    /// Funding transactions that have not been broadcast.
    pub pending_funding_txes: Vec<Transaction>,
    /// Contract fee rate for creating the next hop.
    pub contract_feerate: RateBits,
    /// Last activity.
    pub last_activity: u64,
}

/// What a connection's state holds.
pub struct UnifiedModel {
    pub protocol: ProtocolVersion,
    pub phase: SwapPhase,
    pub swap_id: Option<Seq<char>>,
    pub swap_amount: u64,
    pub timelock: u32,
    pub incoming_swapcoins: Seq<IncomingModel>,
    pub outgoing_swapcoins: Seq<OutgoingModel>,
    pub pending_funding_txes: Seq<TransactionModel>,
    pub contract_feerate: RateBits,
    pub last_activity: u64,
}

impl View for UnifiedConnectionState {
    type V = UnifiedModel;

    open spec fn view(&self) -> UnifiedModel {
        UnifiedModel {
            protocol: self.protocol,
            phase: self.phase,
            swap_id: text_model(self.swap_id),
            swap_amount: self.swap_amount,
            timelock: self.timelock,
            incoming_swapcoins: incoming_models(self.incoming_swapcoins@),
            outgoing_swapcoins: outgoing_models(self.outgoing_swapcoins@),
            pending_funding_txes: tx_models(self.pending_funding_txes@),
            contract_feerate: self.contract_feerate,
            last_activity: self.last_activity,
        }
    }
}

/// The state of a fresh connection.
pub open spec fn fresh_unified(protocol: ProtocolVersion, now: u64) -> UnifiedModel {
    UnifiedModel {
        protocol,
        phase: SwapPhase::AwaitingHello,
        swap_id: None,
        swap_amount: 0,
        timelock: 0,
        incoming_swapcoins: seq![],
        outgoing_swapcoins: seq![],
        pending_funding_txes: seq![],
        contract_feerate: RateBits(0),
        last_activity: now,
    }
}

/// The state of a connection once it has taken over swap details.
pub open spec fn with_details(state: UnifiedModel, details: SwapDetails) -> UnifiedModel {
    UnifiedModel {
        swap_id: Some(details.id@),
        swap_amount: details.amount,
        timelock: details.timelock,
        protocol: details.protocol_version,
        phase: SwapPhase::AwaitingContractData,
        ..state
    }
}

/// The state of the handlers of contracts with what a connection knows of its
/// swap.
pub open spec fn lent(state: UnifiedModel, contracts: StateModel) -> StateModel {
    StateModel {
        protocol: state.protocol,
        phase: state.phase,
        swap_id: state.swap_id,
        swap_amount: state.swap_amount,
        timelock: state.timelock,
        incoming_swapcoins: state.incoming_swapcoins,
        outgoing_swapcoins: state.outgoing_swapcoins,
        pending_funding_txes: state.pending_funding_txes,
        contract_feerate: state.contract_feerate,
        ..contracts
    }
}

/// The state of a connection with what those handlers made of its swap.
pub open spec fn taken_back(state: UnifiedModel, contracts: StateModel) -> UnifiedModel {
    UnifiedModel {
        protocol: contracts.protocol,
        phase: contracts.phase,
        swap_id: contracts.swap_id,
        swap_amount: contracts.swap_amount,
        timelock: contracts.timelock,
        incoming_swapcoins: contracts.incoming_swapcoins,
        outgoing_swapcoins: contracts.outgoing_swapcoins,
        pending_funding_txes: contracts.pending_funding_txes,
        contract_feerate: contracts.contract_feerate,
        ..state
    }
}

/// The state of a connection once the stored state of its swap is there.
pub open spec fn restored_unified(
    state: UnifiedModel,
    id: Seq<char>,
    stored: UnifiedModel,
) -> UnifiedModel {
    if state.swap_amount == 0 || state.outgoing_swapcoins.len() == 0 {
        UnifiedModel {
            swap_id: Some(id),
            swap_amount: stored.swap_amount,
            timelock: stored.timelock,
            protocol: stored.protocol,
            incoming_swapcoins: stored.incoming_swapcoins,
            outgoing_swapcoins: stored.outgoing_swapcoins,
            pending_funding_txes: stored.pending_funding_txes,
            ..state
        }
    } else {
        state
    }
}

/// The offer of a maker with these terms.
pub open spec fn unified_offer(
    config: MakerConfig,
    tweakable_point: [u8; 33],
    fidelity: FidelityProof,
) -> Offer {
    Offer {
        base_fee: config.base_fee,
        amount_relative_fee_pct: config.amount_relative_fee_pct,
        time_relative_fee_pct: config.time_relative_fee_pct,
        required_confirms: config.required_confirms,
        minimum_locktime: MIN_CONTRACT_REACTION_TIME,
        max_size: config.max_swap_amount,
        min_size: config.min_swap_amount,
        tweakable_point,
        fidelity,
    }
}

impl UnifiedConnectionState {
    /// Create a new connection state for a specific protocol version.
    pub fn new(protocol: ProtocolVersion, now: u64) -> (r: Self)
        ensures
            r@ == fresh_unified(protocol, now),
    {
        let r = UnifiedConnectionState {
            protocol,
            phase: SwapPhase::AwaitingHello,
            swap_id: None,
            swap_amount: 0,
            timelock: 0,
            incoming_swapcoins: Vec::new(),
            outgoing_swapcoins: Vec::new(),
            pending_funding_txes: Vec::new(),
            contract_feerate: RateBits(0),
            last_activity: now,
        };
        assert(r@.incoming_swapcoins =~= seq![]);
        assert(r@.outgoing_swapcoins =~= seq![]);
        assert(r@.pending_funding_txes =~= seq![]);
        r
    }

    /// Update the last activity.
    pub fn touch(&mut self, now: u64)
        ensures
            final(self)@ == (UnifiedModel { last_activity: now, ..old(self)@ }),
    {
        self.last_activity = now;
    }

    /// Check if the swap has timed out.
    pub fn is_timed_out(&self, timeout_secs: u64, now: u64) -> (r: bool)
        ensures
            r == timed_out(self.last_activity, now, timeout_secs),
    {
        now >= self.last_activity && (now - self.last_activity) / NANOS_PER_SEC > timeout_secs
    }

    /// Handle a taker's hello: answer with the supported protocols.
    pub fn take_hello(&mut self, config: &MakerConfig) -> (r: MakerHello)
        ensures
            r.supported_protocols@ == config.supported_protocols@,
            final(self)@ == (UnifiedModel {
                phase: SwapPhase::AwaitingOfferRequest,
                ..old(self)@
            }),
    {
        self.phase = SwapPhase::AwaitingOfferRequest;
        MakerHello { supported_protocols: copy_versions(&config.supported_protocols) }
    }

    /// Handle a request for an offer. Without a fidelity proof there is none,
    /// and the connection stays in its phase.
    pub fn take_offer_request(
        &mut self,
        config: &MakerConfig,
        tweakable_point: [u8; 33],
        fidelity: Option<FidelityProof>,
    ) -> (r: Result<Offer, MakerError>)
        ensures
            match fidelity {
                None => {
                    &&& r == Err::<Offer, MakerError>(
                        MakerError::General("No fidelity proof available"),
                    )
                    &&& final(self)@ == old(self)@
                },
                Some(proof) => {
                    &&& r == Ok::<Offer, MakerError>(
                        unified_offer(*config, tweakable_point, proof),
                    )
                    &&& final(self)@ == (UnifiedModel {
                        phase: SwapPhase::AwaitingSwapDetails,
                        ..old(self)@
                    })
                },
            },
    {
        match fidelity {
            None => Err(MakerError::General("No fidelity proof available")),
            Some(proof) => {
                self.phase = SwapPhase::AwaitingSwapDetails;
                Ok(
                    Offer {
                        base_fee: config.base_fee,
                        amount_relative_fee_pct: config.amount_relative_fee_pct,
                        time_relative_fee_pct: config.time_relative_fee_pct,
                        required_confirms: config.required_confirms,
                        minimum_locktime: MIN_CONTRACT_REACTION_TIME,
                        max_size: config.max_swap_amount,
                        min_size: config.min_swap_amount,
                        tweakable_point,
                        fidelity: proof,
                    },
                )
            },
        }
    }

    /// Takes over swap details that the maker accepts: the connection now
    /// awaits the contract data of that swap.
    pub fn take_swap_details(&mut self, config: &MakerConfig, details: &SwapDetails) -> (r: Result<
        (),
        MakerError,
    >)
        ensures
            r == unified_terms_verdict(*config, *details),
            final(self)@ == if r is Ok {
                with_details(old(self)@, *details)
            } else {
                old(self)@
            },
    {
        match validate_swap_parameters(config, details) {
            Err(e) => Err(e),
            Ok(accepted) => {
                self.swap_id = Some(details.id.clone());
                self.swap_amount = details.amount;
                self.timelock = details.timelock;
                self.protocol = details.protocol_version;
                self.phase = SwapPhase::AwaitingContractData;
                Ok(accepted)
            },
        }
    }

    /// Hands what is known of the swap to the state that the handlers of its
    /// contracts work on.
    pub fn lend_to(&self, contracts: &mut ConnectionState)
        ensures
            final(contracts)@ == lent(self@, old(contracts)@),
    {
        contracts.protocol = self.protocol;
        contracts.phase = self.phase;
        contracts.swap_id = copy_text(&self.swap_id);
        contracts.swap_amount = self.swap_amount;
        contracts.timelock = self.timelock;
        contracts.incoming_swapcoins = copy_incoming(&self.incoming_swapcoins);
        contracts.outgoing_swapcoins = copy_outgoing(&self.outgoing_swapcoins);
        contracts.pending_funding_txes = copy_txs(&self.pending_funding_txes);
        contracts.contract_feerate = self.contract_feerate;
    }

    /// Takes back what those handlers made of the swap.
    pub fn take_back(&mut self, contracts: &ConnectionState)
        ensures
            final(self)@ == taken_back(old(self)@, contracts@),
    {
        self.protocol = contracts.protocol;
        self.phase = contracts.phase;
        self.swap_id = copy_text(&contracts.swap_id);
        self.swap_amount = contracts.swap_amount;
        self.timelock = contracts.timelock;
        self.incoming_swapcoins = copy_incoming(&contracts.incoming_swapcoins);
        self.outgoing_swapcoins = copy_outgoing(&contracts.outgoing_swapcoins);
        self.pending_funding_txes = copy_txs(&contracts.pending_funding_txes);
        self.contract_feerate = contracts.contract_feerate;
    }

    /// Restore the connection's state if this is a new connection of a swap
    /// that is already stored.
    pub fn restore_state_if_needed(&mut self, swap_id: &str, stored: Option<UnifiedConnectionState>)
        ensures
            final(self)@ == match stored {
                Some(s) => restored_unified(old(self)@, swap_id@, s@),
                None => old(self)@,
            },
    {
        if self.swap_amount == 0 || self.outgoing_swapcoins.len() == 0 {
            if let Some(stored) = stored {
                self.swap_id = Some(swap_id.to_owned());
                self.swap_amount = stored.swap_amount;
                self.timelock = stored.timelock;
                self.protocol = stored.protocol;
                self.incoming_swapcoins = stored.incoming_swapcoins;
                self.outgoing_swapcoins = stored.outgoing_swapcoins;
                self.pending_funding_txes = stored.pending_funding_txes;
            }
        }
    }
}

/// What swap details are rejected for.
pub open spec fn unified_terms_verdict(config: MakerConfig, details: SwapDetails) -> Result<
    (),
    MakerError,
> {
    if details.amount < config.min_swap_amount {
        Err(MakerError::General("Swap amount below minimum"))
    } else if details.amount > config.max_swap_amount {
        Err(MakerError::General("Swap amount above maximum"))
    } else if !config.supported_protocols@.contains(details.protocol_version) {
        Err(MakerError::General("Protocol version not supported"))
    } else {
        Ok(())
    }
}

/// Validates swap details.
pub fn validate_swap_parameters(config: &MakerConfig, details: &SwapDetails) -> (r: Result<
    (),
    MakerError,
>)
    ensures
        r == unified_terms_verdict(*config, *details),
{
    if details.amount < config.min_swap_amount {
        return Err(MakerError::General("Swap amount below minimum"));
    }
    if details.amount > config.max_swap_amount {
        return Err(MakerError::General("Swap amount above maximum"));
    }
    if !supports(&config.supported_protocols, details.protocol_version) {
        return Err(MakerError::General("Protocol version not supported"));
    }
    Ok(())
}

/// A stored swap.
#[derive(Debug)]
pub struct UnifiedSwap {
    pub swap_amount: u64,
    pub timelock: u32,
    pub protocol: ProtocolVersion,
    pub incoming_swapcoins: Vec<IncomingSwapCoin>,
    pub outgoing_swapcoins: Vec<OutgoingSwapCoin>,
    pub pending_funding_txes: Vec<Transaction>,
    pub last_activity: u64,
}

/// What a stored swap holds.
pub struct UnifiedSwapModel {
    pub swap_amount: u64,
    pub timelock: u32,
    pub protocol: ProtocolVersion,
    pub incoming_swapcoins: Seq<IncomingModel>,
    pub outgoing_swapcoins: Seq<OutgoingModel>,
    pub pending_funding_txes: Seq<TransactionModel>,
    pub last_activity: u64,
}

impl View for UnifiedSwap {
    type V = UnifiedSwapModel;

    open spec fn view(&self) -> UnifiedSwapModel {
        UnifiedSwapModel {
            swap_amount: self.swap_amount,
            timelock: self.timelock,
            protocol: self.protocol,
            incoming_swapcoins: incoming_models(self.incoming_swapcoins@),
            outgoing_swapcoins: outgoing_models(self.outgoing_swapcoins@),
            pending_funding_txes: tx_models(self.pending_funding_txes@),
            last_activity: self.last_activity,
        }
    }
}

/// What is stored of a connection's state.
pub open spec fn stored_unified(state: UnifiedModel, now: u64) -> UnifiedSwapModel {
    UnifiedSwapModel {
        swap_amount: state.swap_amount,
        timelock: state.timelock,
        protocol: state.protocol,
        incoming_swapcoins: state.incoming_swapcoins,
        outgoing_swapcoins: state.outgoing_swapcoins,
        pending_funding_txes: state.pending_funding_txes,
        last_activity: now,
    }
}

/// The state of a connection that resumes a stored swap.
pub open spec fn resumed_unified(swap: UnifiedSwapModel, id: Seq<char>, now: u64) -> UnifiedModel {
    UnifiedModel {
        swap_id: Some(id),
        swap_amount: swap.swap_amount,
        timelock: swap.timelock,
        incoming_swapcoins: swap.incoming_swapcoins,
        outgoing_swapcoins: swap.outgoing_swapcoins,
        pending_funding_txes: swap.pending_funding_txes,
        ..fresh_unified(swap.protocol, now)
    }
}

/// What recovery needs of a swap that was drained.
#[derive(Debug)]
pub struct IdleSwapData {
    /// Unique swap identifier.
    pub swap_id: String,
    /// Protocol version.
    pub protocol: ProtocolVersion,
    /// Swap amount in satoshis.
    pub swap_amount_sat: u64,
    /// Incoming swap coins.
    pub incoming_swapcoins: Vec<IncomingSwapCoin>,
    /// Outgoing swap coins.
    pub outgoing_swapcoins: Vec<OutgoingSwapCoin>,
}

/// Whether a swap is handed to recovery: it has been idle for longer than the
/// timeout, and there is something to recover.
pub open spec fn is_abandoned(swap: UnifiedSwap, now: u64, timeout: u64) -> bool {
    &&& now >= swap.last_activity
    &&& now - swap.last_activity > timeout
    &&& swap.outgoing_swapcoins@.len() > 0
}

/// The entries that stay when idle swaps are drained.
pub open spec fn still_active(entries: Seq<(String, UnifiedSwap)>, now: u64, timeout: u64) -> Seq<
    (String, UnifiedSwap),
> {
    entries.filter(|entry: (String, UnifiedSwap)| !is_abandoned(entry.1, now, timeout))
}

/// The entries that are handed to recovery when idle swaps are drained.
pub open spec fn abandoned(entries: Seq<(String, UnifiedSwap)>, now: u64, timeout: u64) -> Seq<
    (String, UnifiedSwap),
> {
    entries.filter(|entry: (String, UnifiedSwap)| is_abandoned(entry.1, now, timeout))
}

/// Whether idle swap data carries an entry of the table.
pub open spec fn carries(idle: IdleSwapData, entry: (String, UnifiedSwap)) -> bool {
    &&& idle.swap_id@ == entry.0@
    &&& idle.protocol == entry.1.protocol
    &&& idle.swap_amount_sat == entry.1.swap_amount
    &&& idle.incoming_swapcoins == entry.1.incoming_swapcoins
    &&& idle.outgoing_swapcoins == entry.1.outgoing_swapcoins
}

/// The swaps under way, by their ids.
#[derive(Debug)]
pub struct UnifiedSwaps {
    swaps: Table<UnifiedSwap>,
}

impl UnifiedSwaps {
    /// The swaps in the order in which they are walked.
    pub closed spec fn entries(&self) -> Seq<(String, UnifiedSwap)> {
        self.swaps.entries()
    }

    /// Whether every id stands for one swap.
    pub open spec fn wf(&self) -> bool {
        distinct_keys(self.entries())
    }

    /// The swaps by their ids.
    pub open spec fn view(&self) -> Map<Seq<char>, UnifiedSwapModel> {
        contents(self.entries()).map_values(|swap: UnifiedSwap| swap@)
    }

    /// No swaps.
    pub fn new() -> (r: Self)
        ensures
            r.wf(),
            r.entries().len() == 0,
            r@ == Map::<Seq<char>, UnifiedSwapModel>::empty(),
    {
        let r = UnifiedSwaps { swaps: Table::new() };
        assert(r@ =~= Map::<Seq<char>, UnifiedSwapModel>::empty());
        r
    }

    /// Store the state of a connection, so that it survives the connection.
    pub fn store_connection_state(
        &mut self,
        swap_id: &str,
        state: &UnifiedConnectionState,
        now: u64,
    )
        requires
            old(self).wf(),
        ensures
            final(self).wf(),
            final(self)@ == old(self)@.insert(swap_id@, stored_unified(state@, now)),
            placed(old(self).entries(), final(self).entries(), swap_id@),
    {
        let swap = UnifiedSwap {
            swap_amount: state.swap_amount,
            timelock: state.timelock,
            protocol: state.protocol,
            incoming_swapcoins: copy_incoming(&state.incoming_swapcoins),
            outgoing_swapcoins: copy_outgoing(&state.outgoing_swapcoins),
            pending_funding_txes: copy_txs(&state.pending_funding_txes),
            last_activity: now,
        };
        assert(swap@ == stored_unified(state@, now));
        self.swaps.insert(swap_id.to_owned(), swap);
        assert(self@ =~= old(self)@.insert(swap_id@, stored_unified(state@, now)));
    }

    /// The stored state of a swap.
    pub fn get_connection_state(&self, swap_id: &str, now: u64) -> (r: Option<
        UnifiedConnectionState,
    >)
        requires
            self.wf(),
        ensures
            match r {
                Some(state) => self@.dom().contains(swap_id@) && state@ == resumed_unified(
                    self@[swap_id@],
                    swap_id@,
                    now,
                ),
                None => !self@.dom().contains(swap_id@),
            },
    {
        match self.swaps.get(swap_id) {
            None => None,
            Some(swap) => {
                let mut state = UnifiedConnectionState::new(swap.protocol, now);
                state.swap_id = Some(swap_id.to_owned());
                state.swap_amount = swap.swap_amount;
                state.timelock = swap.timelock;
                state.incoming_swapcoins = copy_incoming(&swap.incoming_swapcoins);
                state.outgoing_swapcoins = copy_outgoing(&swap.outgoing_swapcoins);
                state.pending_funding_txes = copy_txs(&swap.pending_funding_txes);
                Some(state)
            },
        }
    }

    /// Remove a completed swap.
    pub fn remove_swap_state(&mut self, swap_id: &str)
        requires
            old(self).wf(),
        ensures
            final(self).wf(),
            final(self)@ == old(self)@.remove(swap_id@),
            final(self).entries() == without(old(self).entries(), swap_id@),
    {
        let _ = self.swaps.remove(swap_id);
        assert(self@ =~= old(self)@.remove(swap_id@));
    }

    /// Drains the swaps that have been idle for longer than the timeout and
    /// have something to recover.
    pub fn drain_idle_swaps(&mut self, now: u64, timeout: u64) -> (r: Vec<IdleSwapData>)
        requires
            old(self).wf(),
        ensures
            final(self).wf(),
            final(self).entries() == still_active(old(self).entries(), now, timeout),
            r@.len() == abandoned(old(self).entries(), now, timeout).len(),
            forall|i: int|
                0 <= i < r@.len() ==> carries(
                    #[trigger] r@[i],
                    abandoned(old(self).entries(), now, timeout)[i],
                ),
    {
        let ghost all = self.entries();
        let ghost mut done: int = 0;
        let mut idle: Vec<IdleSwapData> = Vec::new();
        let mut i: usize = 0;
        proof {
            lemma_filtered_none(all, now, timeout);
            assert(still_active(all.subrange(0, 0), now, timeout) + all.subrange(
                0,
                all.len() as int,
            ) =~= all);
        }
        while i < self.swaps.len()
            invariant
                self.wf(),
                0 <= done <= all.len(),
                self.entries() == self.swaps.entries(),
                i == still_active(all.subrange(0, done), now, timeout).len(),
                self.entries() == still_active(all.subrange(0, done), now, timeout)
                    + all.subrange(done, all.len() as int),
                idle@.len() == abandoned(all.subrange(0, done), now, timeout).len(),
                forall|k: int|
                    0 <= k < idle@.len() ==> carries(
                        #[trigger] idle@[k],
                        abandoned(all.subrange(0, done), now, timeout)[k],
                    ),
            decreases all.len() - done,
        {
            let ghost here = all[done];
            let ghost held = still_active(all.subrange(0, done), now, timeout);
            let ghost rest = all.subrange(done, all.len() as int);
            let ghost before = idle@;
            proof {
                assert(self.entries()[i as int] == rest[0]);
                lemma_filtered_next(all, done, now, timeout);
            }
            let swap = self.swaps.value_at(i);
            if now >= swap.last_activity && now - swap.last_activity > timeout
                && swap.outgoing_swapcoins.len() > 0 {
                let swap_id = self.swaps.key_at(i).clone();
                let state = self.swaps.remove_at(i);
                idle.push(
                    IdleSwapData {
                        swap_id,
                        protocol: state.protocol,
                        swap_amount_sat: state.swap_amount,
                        incoming_swapcoins: state.incoming_swapcoins,
                        outgoing_swapcoins: state.outgoing_swapcoins,
                    },
                );
                proof {
                    assert((held + rest).remove(i as int) =~= held + all.subrange(
                        done + 1,
                        all.len() as int,
                    ));
                }
            } else {
                i += 1;
                proof {
                    assert(held + rest =~= held.push(here) + all.subrange(
                        done + 1,
                        all.len() as int,
                    ));
                }
            }
            proof {
                done = done + 1;
                assert(forall|k: int| 0 <= k < before.len() ==> idle@[k] == before[k]);
            }
        }
        proof {
            assert(done == all.len());
            assert(all.subrange(0, done) =~= all);
            assert(still_active(all, now, timeout) + all.subrange(done, all.len() as int)
                =~= still_active(all, now, timeout));
        }
        idle
    }

    /// Finds an outgoing coin of a legacy swap under way by the script of its
    /// two keys.
    pub fn find_outgoing_swapcoin(
        &self,
        multisig_redeemscript: &[u8],
        scripts: &Vec<TwoKeyScript>,
    ) -> (r: Option<&OutgoingSwapCoin>)
        requires
            self.wf(),
        ensures
            match r {
                Some(coin) => spends_script(*coin, multisig_redeemscript@, scripts@) && exists|
                    i: int,
                    j: int,
                |
                    0 <= i < self.entries().len() && 0 <= j
                        < self.entries()[i].1.outgoing_swapcoins@.len()
                        && #[trigger] self.entries()[i].1.outgoing_swapcoins@[j] == *coin,
                None => forall|i: int, j: int|
                    0 <= i < self.entries().len() && 0 <= j
                        < self.entries()[i].1.outgoing_swapcoins@.len()
                        ==> !spends_script(
                        #[trigger] self.entries()[i].1.outgoing_swapcoins@[j],
                        multisig_redeemscript@,
                        scripts@,
                    ),
            },
    {
        let mut i: usize = 0;
        while i < self.swaps.len()
            invariant
                i <= self.entries().len(),
                self.entries() == self.swaps.entries(),
                forall|a: int, b: int|
                    0 <= a < i && 0 <= b < self.entries()[a].1.outgoing_swapcoins@.len()
                        ==> !spends_script(
                        #[trigger] self.entries()[a].1.outgoing_swapcoins@[b],
                        multisig_redeemscript@,
                        scripts@,
                    ),
            decreases self.entries().len() - i,
        {
            let coins = &self.swaps.value_at(i).outgoing_swapcoins;
            let mut j: usize = 0;
            while j < coins.len()
                invariant
                    i < self.entries().len(),
                    *coins == self.entries()[i as int].1.outgoing_swapcoins,
                    j <= coins.len(),
                    forall|b: int|
                        0 <= b < j ==> !spends_script(
                            #[trigger] coins@[b],
                            multisig_redeemscript@,
                            scripts@,
                        ),
                decreases coins.len() - j,
            {
                let coin = &coins[j];
                if is_of_script(coin, multisig_redeemscript, scripts) {
                    assert(self.entries()[i as int].1.outgoing_swapcoins@[j as int] == *coin);
                    return Some(coin);
                }
                j += 1;
            }
            i += 1;
        }
        None
    }

    /// Whether two keys are those of an outgoing legacy coin.
    pub open spec fn has_keys(&self, keys: (PublicKey, PublicKey)) -> bool {
        exists|i: int, j: int|
            0 <= i < self.entries().len() && 0 <= j
                < self.entries()[i].1.outgoing_swapcoins@.len() && keys_of(
                #[trigger] self.entries()[i].1.outgoing_swapcoins@[j],
            ) == Some(keys)
    }

    /// The keys of the outgoing legacy coins of the swaps under way, from which
    /// the scripts are made that the coins are found by.
    pub fn key_pairs(&self) -> (r: Vec<(PublicKey, PublicKey)>)
        requires
            self.wf(),
        ensures
            forall|i: int, j: int|
                0 <= i < self.entries().len() && 0 <= j
                    < self.entries()[i].1.outgoing_swapcoins@.len() && keys_of(
                    #[trigger] self.entries()[i].1.outgoing_swapcoins@[j],
                ) is Some ==> r@.contains(
                    keys_of(self.entries()[i].1.outgoing_swapcoins@[j])->0,
                ),
            forall|k: int| 0 <= k < r@.len() ==> self.has_keys(#[trigger] r@[k]),
    {
        let mut pairs: Vec<(PublicKey, PublicKey)> = Vec::new();
        let mut i: usize = 0;
        while i < self.swaps.len()
            invariant
                i <= self.entries().len(),
                self.entries() == self.swaps.entries(),
                forall|a: int, b: int|
                    0 <= a < i && 0 <= b < self.entries()[a].1.outgoing_swapcoins@.len()
                        && keys_of(#[trigger] self.entries()[a].1.outgoing_swapcoins@[b]) is Some
                        ==> pairs@.contains(
                        keys_of(self.entries()[a].1.outgoing_swapcoins@[b])->0,
                    ),
                forall|k: int| 0 <= k < pairs@.len() ==> self.has_keys(#[trigger] pairs@[k]),
            decreases self.entries().len() - i,
        {
            let coins = &self.swaps.value_at(i).outgoing_swapcoins;
            let mut j: usize = 0;
            while j < coins.len()
                invariant
                    i < self.entries().len(),
                    *coins == self.entries()[i as int].1.outgoing_swapcoins,
                    j <= coins.len(),
                    forall|a: int, b: int|
                        0 <= a < i && 0 <= b < self.entries()[a].1.outgoing_swapcoins@.len()
                            && keys_of(
                            #[trigger] self.entries()[a].1.outgoing_swapcoins@[b],
                        ) is Some ==> pairs@.contains(
                            keys_of(self.entries()[a].1.outgoing_swapcoins@[b])->0,
                        ),
                    forall|b: int|
                        0 <= b < j && keys_of(#[trigger] coins@[b]) is Some ==> pairs@.contains(
                            keys_of(coins@[b])->0,
                        ),
                    forall|k: int| 0 <= k < pairs@.len() ==> self.has_keys(#[trigger] pairs@[k]),
                decreases coins.len() - j,
            {
                let ghost before = pairs@;
                if let Some(keys) = two_keys(&coins[j]) {
                    pairs.push(keys);
                    proof {
                        assert forall|pair: (PublicKey, PublicKey)| #[trigger]
                            before.contains(pair) implies pairs@.contains(pair) by {
                            let k = choose|k: int| 0 <= k < before.len() && before[k] == pair;
                            assert(pairs@[k] == pair);
                        }
                        assert(pairs@[before.len() as int] == keys);
                        assert(keys_of(
                            self.entries()[i as int].1.outgoing_swapcoins@[j as int],
                        ) == Some(keys));
                        assert(self.has_keys(keys));
                    }
                }
                j += 1;
            }
            i += 1;
        }
        pairs
    }
}

/// Nothing is drained of no entries.
proof fn lemma_filtered_none(entries: Seq<(String, UnifiedSwap)>, now: u64, timeout: u64)
    ensures
        still_active(entries.subrange(0, 0), now, timeout).len() == 0,
        abandoned(entries.subrange(0, 0), now, timeout).len() == 0,
{
    reveal(Seq::filter);
}

/// Draining one more entry.
proof fn lemma_filtered_next(
    entries: Seq<(String, UnifiedSwap)>,
    n: int,
    now: u64,
    timeout: u64,
)
    requires
        0 <= n < entries.len(),
    ensures
        is_abandoned(entries[n].1, now, timeout) ==> still_active(
            entries.subrange(0, n + 1),
            now,
            timeout,
        ) == still_active(entries.subrange(0, n), now, timeout) && abandoned(
            entries.subrange(0, n + 1),
            now,
            timeout,
        ) == abandoned(entries.subrange(0, n), now, timeout).push(entries[n]),
        !is_abandoned(entries[n].1, now, timeout) ==> still_active(
            entries.subrange(0, n + 1),
            now,
            timeout,
        ) == still_active(entries.subrange(0, n), now, timeout).push(entries[n]) && abandoned(
            entries.subrange(0, n + 1),
            now,
            timeout,
        ) == abandoned(entries.subrange(0, n), now, timeout),
{
    reveal(Seq::filter);
    let next = entries.subrange(0, n + 1);
    assert(next.drop_last() =~= entries.subrange(0, n));
    assert(next.last() == entries[n]);
}

/// A stored swap is given back as it was stored, but for what is not stored:
/// the connection begins anew in the first phase.
pub proof fn law_stored_swap_is_given_back(
    swaps: Map<Seq<char>, UnifiedSwapModel>,
    id: Seq<char>,
    state: UnifiedModel,
    stored_at: u64,
    now: u64,
)
    requires
        state.swap_id == Some(id),
    ensures
        resumed_unified(swaps.insert(id, stored_unified(state, stored_at))[id], id, now) == (
        UnifiedModel {
            phase: SwapPhase::AwaitingHello,
            contract_feerate: RateBits(0),
            last_activity: now,
            ..state
        }),
{
}

/// What the contract scripts and the wallet say of a funding transaction.
#[derive(Debug)]
pub struct UnifiedFundingFacts {
    /// The funding output that they are about.
    pub outpoint: OutPoint,
    /// The confirmations of the funding output, where it exists unspent.
    pub confirmations: Option<u32>,
    /// Whether the script of the funding output is one of two keys.
    pub is_multisig: Result<(), ProtocolError>,
    /// Whether the maker's key is one of them.
    pub has_our_key: Result<(), ProtocolError>,
    /// Whether the contract's hashlock key is the maker's.
    pub hashlock_has_our_key: Result<(), ProtocolError>,
    /// Whether the contract is the one that the maker signed for this output.
    pub matches_signed_contract: Result<bool, MakerError>,
    /// The hash that the contract is locked to.
    pub hashvalue: Result<Hash160, ProtocolError>,
}

/// The funding output that a proof names, or what it is rejected for.
pub open spec fn unified_funding_outpoint(
    info: FundingTxInfo,
    refund_locktime: u16,
    locktime: Result<u16, ProtocolError>,
) -> Result<OutPoint, MakerError> {
    match locktime {
        Err(e) => Err(MakerError::Protocol(e)),
        Ok(blocks) => if blocks < refund_locktime + FUNDING_REACTION_TIME {
            Err(MakerError::General("Next hop locktime too close to current hop locktime"))
        } else {
            match first_output_for(
                info.funding_tx.output@,
                p2wsh_bytes(info.multisig_redeemscript@),
            ) {
                None => Err(MakerError::General("Funding output not found")),
                Some(i) => Ok(OutPoint { txid: txid_of(info.funding_tx@), vout: i as u32 }),
            }
        },
    }
}

/// The funding output that a proof names. `locktime` is that of the contract.
pub fn locate_funding(
    info: &FundingTxInfo,
    refund_locktime: u16,
    locktime: Result<u16, ProtocolError>,
) -> (r: Result<OutPoint, MakerError>)
    ensures
        r == unified_funding_outpoint(*info, refund_locktime, locktime),
{
    let blocks: u16 = match locktime {
        Err(e) => {
            return Err(MakerError::Protocol(e));
        },
        Ok(blocks) => blocks,
    };
    if blocks.saturating_sub(refund_locktime) < FUNDING_REACTION_TIME {
        return Err(MakerError::General("Next hop locktime too close to current hop locktime"));
    }
    let script = redeemscript_to_scriptpubkey(info.multisig_redeemscript.as_slice());
    match info.funding_tx.output_position(script.as_slice()) {
        None => Err(MakerError::General("Funding output not found")),
        Some(i) => Ok(OutPoint { txid: compute_txid(&info.funding_tx), vout: i as u32 }),
    }
}

/// What a funding transaction is rejected for once its output is known, or the
/// hash of its contract. The facts must be about that output.
pub open spec fn unified_facts_verdict(
    facts: UnifiedFundingFacts,
    point: OutPoint,
    required_confirms: u32,
    known: Option<Hash160>,
) -> Result<Hash160, MakerError> {
    if facts.outpoint != point {
        Err(MakerError::General("Facts of another funding output"))
    } else if facts.confirmations is None {
        Err(MakerError::General("Funding tx output doesn't exist"))
    } else if facts.confirmations->0 < required_confirms {
        Err(MakerError::General("Funding tx not confirmed to required depth"))
    } else if facts.is_multisig is Err {
        Err(MakerError::Protocol(facts.is_multisig->Err_0))
    } else if facts.has_our_key is Err {
        Err(MakerError::Protocol(facts.has_our_key->Err_0))
    } else if facts.hashlock_has_our_key is Err {
        Err(MakerError::Protocol(facts.hashlock_has_our_key->Err_0))
    } else if facts.matches_signed_contract is Err {
        Err(facts.matches_signed_contract->Err_0)
    } else if !facts.matches_signed_contract->Ok_0 {
        Err(MakerError::General("Provided contract does not match sender contract tx, rejecting"))
    } else {
        match facts.hashvalue {
            Err(e) => Err(MakerError::Protocol(e)),
            Ok(hash) => if known is Some && known->0 != hash {
                Err(MakerError::General("Hash values in contracts do not match"))
            } else {
                Ok(hash)
            },
        }
    }
}

/// Checks a funding transaction whose output is known. `known` is the hash of
/// the contracts before it.
pub fn check_funding(
    facts: UnifiedFundingFacts,
    point: OutPoint,
    required_confirms: u32,
    known: Option<Hash160>,
) -> (r: Result<Hash160, MakerError>)
    ensures
        r == unified_facts_verdict(facts, point, required_confirms, known),
{
    if !outpoint_equal(&facts.outpoint, &point) {
        return Err(MakerError::General("Facts of another funding output"));
    }
    match facts.confirmations {
        None => {
            return Err(MakerError::General("Funding tx output doesn't exist"));
        },
        Some(confirmations) => if confirmations < required_confirms {
            return Err(MakerError::General("Funding tx not confirmed to required depth"));
        },
    }
    if let Err(e) = facts.is_multisig {
        return Err(MakerError::Protocol(e));
    }
    if let Err(e) = facts.has_our_key {
        return Err(MakerError::Protocol(e));
    }
    if let Err(e) = facts.hashlock_has_our_key {
        return Err(MakerError::Protocol(e));
    }
    match facts.matches_signed_contract {
        Err(e) => {
            return Err(e);
        },
        Ok(matched) => if !matched {
            return Err(
                MakerError::General(
                    "Provided contract does not match sender contract tx, rejecting",
                ),
            );
        },
    }
    let hash: Hash160 = match facts.hashvalue {
        Err(e) => {
            return Err(MakerError::Protocol(e));
        },
        Ok(hash) => hash,
    };
    if let Some(before) = known {
        if !hash_equal(&before, &hash) {
            return Err(MakerError::General("Hash values in contracts do not match"));
        }
    }
    Ok(hash)
}

/// The hash of the first `n` funding transactions of a proof, or what one of
/// them is rejected for.
pub open spec fn unified_fundings(
    infos: Seq<FundingTxInfo>,
    refund_locktime: u16,
    locktimes: Seq<Result<u16, ProtocolError>>,
    facts: Seq<UnifiedFundingFacts>,
    required_confirms: u32,
    n: int,
) -> Result<Option<Hash160>, MakerError>
    decreases n,
{
    if n <= 0 {
        Ok(None)
    } else {
        match unified_fundings(infos, refund_locktime, locktimes, facts, required_confirms, n - 1) {
            Err(e) => Err(e),
            Ok(known) => match unified_funding_outpoint(
                infos[n - 1],
                refund_locktime,
                locktimes[n - 1],
            ) {
                Err(e) => Err(e),
                Ok(point) => match unified_facts_verdict(
                    facts[n - 1],
                    point,
                    required_confirms,
                    known,
                ) {
                    Err(e) => Err(e),
                    Ok(hash) => Ok(Some(hash)),
                },
            },
        }
    }
}

/// What a whole proof of funding comes to: the hash of its contracts.
pub open spec fn unified_proof_verdict(
    message: ProofOfFunding,
    locktimes: Seq<Result<u16, ProtocolError>>,
    facts: Seq<UnifiedFundingFacts>,
    required_confirms: u32,
) -> Result<Hash160, MakerError> {
    let infos = message.confirmed_funding_txes@;
    if infos.len() == 0 {
        Err(MakerError::General("No funding txs provided by Taker"))
    } else {
        match unified_fundings(
            infos,
            message.refund_locktime,
            locktimes,
            facts,
            required_confirms,
            infos.len() as int,
        ) {
            Err(e) => Err(e),
            Ok(None) => Err(MakerError::General("No hashvalue found in contracts")),
            Ok(Some(hash)) => Ok(hash),
        }
    }
}

/// Once a funding transaction is rejected, so is the whole proof, for the same
/// reason.
proof fn lemma_first_rejection(
    infos: Seq<FundingTxInfo>,
    refund_locktime: u16,
    locktimes: Seq<Result<u16, ProtocolError>>,
    facts: Seq<UnifiedFundingFacts>,
    required_confirms: u32,
    k: int,
    n: int,
)
    requires
        0 <= k <= n,
        unified_fundings(infos, refund_locktime, locktimes, facts, required_confirms, k) is Err,
    ensures
        unified_fundings(infos, refund_locktime, locktimes, facts, required_confirms, n)
            == unified_fundings(infos, refund_locktime, locktimes, facts, required_confirms, k),
    decreases n - k,
{
    if k < n {
        lemma_first_rejection(
            infos,
            refund_locktime,
            locktimes,
            facts,
            required_confirms,
            k,
            n - 1,
        );
    }
}

/// Verifies a proof of funding, given the lock time of each contract and what
/// is known of each funding transaction.
#[verifier::loop_isolation(false)]
pub fn verify_proof_of_funding(
    message: &ProofOfFunding,
    locktimes: Vec<Result<u16, ProtocolError>>,
    facts: Vec<UnifiedFundingFacts>,
    required_confirms: u32,
) -> (r: Result<Hash160, MakerError>)
    requires
        locktimes@.len() == message.confirmed_funding_txes@.len(),
        facts@.len() == message.confirmed_funding_txes@.len(),
    ensures
        r == unified_proof_verdict(*message, locktimes@, facts@, required_confirms),
{
    if message.confirmed_funding_txes.len() == 0 {
        return Err(MakerError::General("No funding txs provided by Taker"));
    }
    let ghost infos = message.confirmed_funding_txes@;
    let ghost all_locktimes = locktimes@;
    let ghost all_facts = facts@;
    let mut next_locktimes = locktimes;
    let mut next_facts = facts;
    let mut hashvalue: Option<Hash160> = None;
    let mut i: usize = 0;
    assert(all_locktimes.subrange(0, all_locktimes.len() as int) =~= all_locktimes);
    assert(all_facts.subrange(0, all_facts.len() as int) =~= all_facts);
    while i < message.confirmed_funding_txes.len()
        invariant
            infos == message.confirmed_funding_txes@,
            infos.len() > 0,
            i <= infos.len(),
            all_locktimes.len() == infos.len(),
            all_facts.len() == infos.len(),
            next_locktimes@ == all_locktimes.subrange(i as int, infos.len() as int),
            next_facts@ == all_facts.subrange(i as int, infos.len() as int),
            unified_fundings(
                infos,
                message.refund_locktime,
                all_locktimes,
                all_facts,
                required_confirms,
                i as int,
            ) == Ok::<Option<Hash160>, MakerError>(hashvalue),
        decreases infos.len() - i,
    {
        let locktime = next_locktimes.remove(0);
        let fact = next_facts.remove(0);
        proof {
            assert(locktime == all_locktimes[i as int]);
            assert(fact == all_facts[i as int]);
            assert(next_locktimes@ =~= all_locktimes.subrange(i + 1, infos.len() as int));
            assert(next_facts@ =~= all_facts.subrange(i + 1, infos.len() as int));
            if unified_fundings(
                infos,
                message.refund_locktime,
                all_locktimes,
                all_facts,
                required_confirms,
                i + 1,
            ) is Err {
                lemma_first_rejection(
                    infos,
                    message.refund_locktime,
                    all_locktimes,
                    all_facts,
                    required_confirms,
                    i + 1,
                    infos.len() as int,
                );
            }
        }
        let point = match locate_funding(
            &message.confirmed_funding_txes[i],
            message.refund_locktime,
            locktime,
        ) {
            Err(e) => {
                return Err(e);
            },
            Ok(point) => point,
        };
        match check_funding(fact, point, required_confirms, hashvalue) {
            Err(e) => {
                return Err(e);
            },
            Ok(hash) => {
                hashvalue = Some(hash);
            },
        }
        i += 1;
    }
    match hashvalue {
        Some(hash) => Ok(hash),
        None => Err(MakerError::General("No hashvalue found in contracts")),
    }
}

/// What a sender's contract transaction is rejected for before it is signed.
pub fn check_sender_contract(tx: &Transaction) -> (r: Result<(), MakerError>)
    ensures
        r == if tx.input@.len() != 1 || tx.output@.len() != 1 {
            Err::<(), MakerError>(
                MakerError::General("Invalid number of inputs or outputs in contract transaction"),
            )
        } else {
            Ok(())
        },
{
    if tx.input.len() != 1 || tx.output.len() != 1 {
        return Err(
            MakerError::General("Invalid number of inputs or outputs in contract transaction"),
        );
    }
    Ok(())
}

/// The record of a swap whose taker went quiet. `funding_broadcast` tells
/// whether the swap's funding is on its way to the chain.
pub fn dropped_swap_record(idle: &IdleSwapData, funding_broadcast: bool, now: u64) -> (r:
    MakerSwapRecord)
    ensures
        r.swap_id@ == idle.swap_id@,
        r.protocol == idle.protocol,
        r.phase == MakerSwapPhase::TakerDropped,
        r.swap_amount_sat == idle.swap_amount_sat,
        r.incoming_count == idle.incoming_swapcoins@.len(),
        r.outgoing_count == idle.outgoing_swapcoins@.len(),
        r.funding_broadcast == funding_broadcast,
        r.recovery.phase == MakerRecoveryPhase::NotStarted,
        r.recovery.incoming_swept@.len() == 0,
        r.recovery.outgoing_recovered@.len() == 0,
        r.recovery.outgoing_discarded@.len() == 0,
        r.created_at == now,
        r.updated_at == now,
{
    MakerSwapRecord {
        swap_id: idle.swap_id.clone(),
        protocol: idle.protocol,
        phase: MakerSwapPhase::TakerDropped,
        swap_amount_sat: idle.swap_amount_sat,
        incoming_count: idle.incoming_swapcoins.len(),
        outgoing_count: idle.outgoing_swapcoins.len(),
        funding_broadcast,
        recovery: MakerRecoveryState::default(),
        created_at: now,
        updated_at: now,
    }
}

/// What a recovery does next.
#[derive(Debug, Clone, Copy, PartialEq, Eq, Structural)]
pub enum UnifiedAction {
    /// The funding was never broadcast: discard the coins and end.
    Discard,
    /// Look for preimages among the spends of the outgoing contracts, and ask
    /// whether every incoming coin has its own.
    LookForPreimages,
    /// Sweep the incoming coins.
    SweepIncoming,
    /// Remove the outgoing coins, which someone else has taken.
    RemoveOutgoing,
    /// Ask for the height of the chain.
    ReadHeight,
    /// Reclaim the outgoing coins.
    ReclaimOutgoing,
    /// Wait for a while and begin again.
    Wait,
    /// The swap has been recovered.
    Recovered,
}

/// What came of an action.
#[derive(Debug)]
pub enum UnifiedEvent {
    /// The coins were discarded or removed.
    Removed,
    /// Whether every incoming coin has its preimage.
    Preimages(bool),
    /// The transactions that swept or reclaimed coins.
    Resolved(Vec<Txid>),
    /// The height of the chain.
    Height(u32),
    /// The wait is over.
    Waited,
}

/// What such an event holds.
pub enum UnifiedEventModel {
    Removed,
    Preimages(bool),
    Resolved(Seq<Txid>),
    Height(u32),
    Waited,
}

impl View for UnifiedEvent {
    type V = UnifiedEventModel;

    open spec fn view(&self) -> UnifiedEventModel {
        match self {
            UnifiedEvent::Removed => UnifiedEventModel::Removed,
            UnifiedEvent::Preimages(all) => UnifiedEventModel::Preimages(*all),
            UnifiedEvent::Resolved(txids) => UnifiedEventModel::Resolved(txids@),
            UnifiedEvent::Height(height) => UnifiedEventModel::Height(*height),
            UnifiedEvent::Waited => UnifiedEventModel::Waited,
        }
    }
}

/// What updates of a record hold.
pub open spec fn update_models(updates: Seq<RecordUpdate>) -> Seq<UpdateModel> {
    updates.map_values(|update: RecordUpdate| update_model(Some(update))->0)
}

/// A recovery under way.
#[derive(Debug, Clone, Copy, PartialEq, Eq, Structural)]
pub struct UnifiedRecovery {
    /// The height from which the outgoing coins can be reclaimed.
    pub expiry: u32,
    /// Whether there are incoming coins.
    pub has_incoming: bool,
    /// What is being done.
    pub doing: UnifiedAction,
}

/// What follows an event: the updates of the swap's record, in order, and the
/// next action.
pub open spec fn unified_next(recovery: UnifiedRecovery, event: UnifiedEventModel) -> (
    Seq<UpdateModel>,
    UnifiedAction,
) {
    match (recovery.doing, event) {
        (UnifiedAction::Discard, UnifiedEventModel::Removed) => (
            seq![UpdateModel::NothingToRecover],
            UnifiedAction::Recovered,
        ),
        (UnifiedAction::LookForPreimages, UnifiedEventModel::Preimages(all)) => if all
            && recovery.has_incoming {
            (seq![], UnifiedAction::SweepIncoming)
        } else {
            (seq![], UnifiedAction::ReadHeight)
        },
        (UnifiedAction::SweepIncoming, UnifiedEventModel::Resolved(txids)) => if txids.len() > 0 {
            (seq![UpdateModel::HashlockRecovered(txids)], UnifiedAction::RemoveOutgoing)
        } else {
            (seq![], UnifiedAction::ReadHeight)
        },
        (UnifiedAction::RemoveOutgoing, UnifiedEventModel::Removed) => (
            seq![UpdateModel::CleanedUp],
            UnifiedAction::Recovered,
        ),
        (UnifiedAction::ReadHeight, UnifiedEventModel::Height(height)) => if height
            >= recovery.expiry {
            (seq![UpdateModel::TimelockWaiting], UnifiedAction::ReclaimOutgoing)
        } else {
            (seq![], UnifiedAction::Wait)
        },
        (UnifiedAction::ReclaimOutgoing, UnifiedEventModel::Resolved(txids)) => if txids.len()
            > 0 {
            (
                seq![UpdateModel::TimelockRecovered(txids), UpdateModel::CleanedUp],
                UnifiedAction::Recovered,
            )
        } else {
            (seq![], UnifiedAction::Wait)
        },
        (UnifiedAction::Wait, UnifiedEventModel::Waited) => (
            seq![],
            UnifiedAction::LookForPreimages,
        ),
        _ => (seq![], recovery.doing),
    }
}

/// How a recovery begins: without a record that says that the funding was
/// broadcast, nothing is on the chain.
pub open spec fn unified_start(
    incoming: usize,
    outgoing: Seq<OutgoingSwapCoin>,
    recorded: Option<bool>,
) -> Result<(UnifiedRecovery, Option<RecordUpdate>), MakerError> {
    if outgoing.len() == 0 || outgoing[0].timelock is None {
        Err(MakerError::General("missing timelock on outgoing swapcoin"))
    } else if recorded == Some(true) {
        Ok(
            (
                UnifiedRecovery {
                    expiry: outgoing[0].timelock->0,
                    has_incoming: incoming > 0,
                    doing: UnifiedAction::LookForPreimages,
                },
                Some(RecordUpdate::Recovering),
            ),
        )
    } else {
        Ok(
            (
                UnifiedRecovery {
                    expiry: outgoing[0].timelock->0,
                    has_incoming: incoming > 0,
                    doing: UnifiedAction::Discard,
                },
                None,
            ),
        )
    }
}

impl UnifiedRecovery {
    /// Begins a recovery, with the update of the swap's record where there is
    /// one. `recorded` is what the record says of the funding's broadcast,
    /// where there is a record: without one that says that it was, nothing is
    /// on the chain and the coins are discarded.
    pub fn begin(
        incoming: usize,
        outgoing: &Vec<OutgoingSwapCoin>,
        recorded: Option<bool>,
    ) -> (r: Result<(Self, Option<RecordUpdate>), MakerError>)
        ensures
            r == unified_start(incoming, outgoing@, recorded),
    {
        if outgoing.len() == 0 {
            return Err(MakerError::General("missing timelock on outgoing swapcoin"));
        }
        let has_incoming = incoming > 0;
        match outgoing[0].timelock {
            None => Err(MakerError::General("missing timelock on outgoing swapcoin")),
            Some(expiry) => {
                if let Some(true) = recorded {
                    let doing = UnifiedAction::LookForPreimages;
                    let recovery = UnifiedRecovery { expiry, has_incoming, doing };
                    Ok((recovery, Some(RecordUpdate::Recovering)))
                } else {
                    let doing = UnifiedAction::Discard;
                    Ok((UnifiedRecovery { expiry, has_incoming, doing }, None))
                }
            },
        }
    }

    /// Takes what came of the last action and returns what goes into the
    /// swap's record, in order, and the next action. An event that the action
    /// does not bring changes nothing.
    pub fn step(&mut self, event: UnifiedEvent) -> (r: (Vec<RecordUpdate>, UnifiedAction))
        ensures
            (update_models(r.0@), r.1) == unified_next(*old(self), event@),
            *final(self) == (UnifiedRecovery { doing: r.1, ..*old(self) }),
    {
        let mut updates: Vec<RecordUpdate> = Vec::new();
        let ghost expected = unified_next(*self, event@);
        let next = match (self.doing, event) {
            (UnifiedAction::Discard, UnifiedEvent::Removed) => {
                updates.push(RecordUpdate::NothingToRecover);
                UnifiedAction::Recovered
            },
            (UnifiedAction::LookForPreimages, UnifiedEvent::Preimages(all)) => {
                if all && self.has_incoming {
                    UnifiedAction::SweepIncoming
                } else {
                    UnifiedAction::ReadHeight
                }
            },
            (UnifiedAction::SweepIncoming, UnifiedEvent::Resolved(txids)) => {
                if txids.len() > 0 {
                    updates.push(RecordUpdate::HashlockRecovered(txids));
                    UnifiedAction::RemoveOutgoing
                } else {
                    UnifiedAction::ReadHeight
                }
            },
            (UnifiedAction::RemoveOutgoing, UnifiedEvent::Removed) => {
                updates.push(RecordUpdate::CleanedUp);
                UnifiedAction::Recovered
            },
            (UnifiedAction::ReadHeight, UnifiedEvent::Height(height)) => {
                if height >= self.expiry {
                    updates.push(RecordUpdate::TimelockWaiting);
                    UnifiedAction::ReclaimOutgoing
                } else {
                    UnifiedAction::Wait
                }
            },
            (UnifiedAction::ReclaimOutgoing, UnifiedEvent::Resolved(txids)) => {
                if txids.len() > 0 {
                    updates.push(RecordUpdate::TimelockRecovered(txids));
                    updates.push(RecordUpdate::CleanedUp);
                    UnifiedAction::Recovered
                } else {
                    UnifiedAction::Wait
                }
            },
            (UnifiedAction::Wait, UnifiedEvent::Waited) => UnifiedAction::LookForPreimages,
            _ => self.doing,
        };
        assert(update_models(updates@) =~= expected.0);
        self.doing = next;
        (updates, next)
    }
}

/// A recovery reclaims outgoing coins only from the height of their time lock
/// on, and removes them only once incoming coins were swept.
pub proof fn law_unified_recovery_paths(recovery: UnifiedRecovery, event: UnifiedEventModel)
    requires
        unified_next(recovery, event).1 != recovery.doing,
    ensures
        unified_next(recovery, event).1 is ReclaimOutgoing ==> event is Height && event->Height_0
            >= recovery.expiry,
        unified_next(recovery, event).1 is RemoveOutgoing ==> recovery.doing is SweepIncoming
            && event is Resolved && event->Resolved_0.len() > 0,
        unified_next(recovery, event).1 is SweepIncoming ==> recovery.has_incoming && event
            == UnifiedEventModel::Preimages(true),
{
}

/// Once a swap is recovered, the last thing in its record is that nothing is
/// left to do.
pub proof fn law_unified_recovery_is_recorded(recovery: UnifiedRecovery, event: UnifiedEventModel)
    requires
        !(recovery.doing is Recovered),
        unified_next(recovery, event).1 is Recovered,
    ensures
        unified_next(recovery, event).0.len() > 0,
        unified_next(recovery, event).0.last() is CleanedUp || (unified_next(
            recovery,
            event,
        ).0.last() is NothingToRecover && recovery.doing is Discard),
{
}

/// The next announcement of the fidelity bond: whether it is due, and the
/// seconds since the last, after a tick.
pub fn announce_tick(elapsed: u64, tick: u64, interval: u64) -> (r: (bool, u64))
    requires
        elapsed < interval,
        interval + tick <= u64::MAX,
    ensures
        r.0 == (elapsed + tick >= interval),
        r.1 == if r.0 {
            0
        } else {
            elapsed + tick
        },
{
    let passed: u64 = elapsed + tick;
    if passed < interval {
        (false, passed)
    } else {
        (true, 0)
    }
}

/// Details are accepted exactly where the amount lies within the limits, both
/// of them included, and the protocol is one that the maker speaks.
pub proof fn law_unified_terms_within_the_limits(config: MakerConfig, details: SwapDetails)
    ensures
        unified_terms_verdict(config, details) is Ok <==> {
            &&& config.min_swap_amount <= details.amount <= config.max_swap_amount
            &&& exists|i: int|
                0 <= i < config.supported_protocols@.len()
                    && #[trigger] config.supported_protocols@[i] == details.protocol_version
        },
{
    if config.supported_protocols@.contains(details.protocol_version) {
        let i = choose|i: int|
            0 <= i < config.supported_protocols@.len() && config.supported_protocols@[i]
                == details.protocol_version;
        assert(config.supported_protocols@[i] == details.protocol_version);
    }
}

/// A swap is handed to recovery exactly where more than the timeout has passed
/// since its last activity and it has outgoing coins; every swap either stays
/// or is handed over, and none does both.
pub proof fn law_abandoned_swaps_are_recovered(
    entries: Seq<(String, UnifiedSwap)>,
    now: u64,
    timeout: u64,
    i: int,
)
    requires
        0 <= i < entries.len(),
    ensures
        is_abandoned(entries[i].1, now, timeout) <==> now > entries[i].1.last_activity + timeout
            && entries[i].1.outgoing_swapcoins@.len() > 0,
        abandoned(entries, now, timeout).contains(entries[i]) <==> now
            > entries[i].1.last_activity + timeout && entries[i].1.outgoing_swapcoins@.len() > 0,
        still_active(entries, now, timeout).contains(entries[i]) <==> !(now
            > entries[i].1.last_activity + timeout && entries[i].1.outgoing_swapcoins@.len() > 0),
{
    let leaves = |entry: (String, UnifiedSwap)| is_abandoned(entry.1, now, timeout);
    let stays = |entry: (String, UnifiedSwap)| !is_abandoned(entry.1, now, timeout);
    assert(entries.contains(entries[i]));
    entries.filter_lemma(leaves);
    entries.filter_lemma(stays);
    let gone = entries.filter(leaves);
    let kept = entries.filter(stays);
    if gone.contains(entries[i]) {
        let k = choose|k: int| 0 <= k < gone.len() && gone[k] == entries[i];
        assert(leaves(gone[k]));
    }
    if kept.contains(entries[i]) {
        let k = choose|k: int| 0 <= k < kept.len() && kept[k] == entries[i];
        assert(stays(kept[k]));
    }
    if is_abandoned(entries[i].1, now, timeout) {
        assert(leaves(entries[i]));
    } else {
        assert(stays(entries[i]));
    }
}

/// What is handed over is what recovery needs of the swap.
pub proof fn law_idle_data_is_of_the_swap(idle: IdleSwapData, entry: (String, UnifiedSwap))
    requires
        carries(idle, entry),
    ensures
        idle.swap_id@ == entry.0@,
        idle.protocol == entry.1.protocol,
        idle.swap_amount_sat == entry.1.swap_amount,
        incoming_models(idle.incoming_swapcoins@) == entry.1@.incoming_swapcoins,
        outgoing_models(idle.outgoing_swapcoins@) == entry.1@.outgoing_swapcoins,
{
}

/// A fresh connection holds nothing of a swap and awaits the hello.
pub proof fn law_fresh_unified_is_empty(protocol: ProtocolVersion, now: u64)
    ensures
        ({
            let state = fresh_unified(protocol, now);
            &&& state.protocol == protocol
            &&& state.phase == SwapPhase::AwaitingHello
            &&& state.swap_id is None
            &&& state.swap_amount == 0
            &&& state.timelock == 0
            &&& state.incoming_swapcoins.len() == 0
            &&& state.outgoing_swapcoins.len() == 0
            &&& state.pending_funding_txes.len() == 0
            &&& state.last_activity == now
        }),
{
}

/// A funding output is let through exactly where its contract locks for 20
/// blocks longer than the refund of the next hop and the transaction pays to
/// the script of the two keys, in the first output that does.
pub proof fn law_unified_output_pays_to_both(
    info: FundingTxInfo,
    refund_locktime: u16,
    locktime: Result<u16, ProtocolError>,
)
    requires
        info.funding_tx.output@.len() <= u32::MAX,
    ensures
        unified_funding_outpoint(info, refund_locktime, locktime) matches Ok(point) ==> {
            &&& locktime is Ok
            &&& locktime->Ok_0 - refund_locktime >= 20
            &&& point.txid == txid_of(info.funding_tx@)
            &&& point.vout < info.funding_tx.output@.len()
            &&& info.funding_tx.output@[point.vout as int].script_pubkey@ == p2wsh_bytes(
                info.multisig_redeemscript@,
            )
            &&& forall|j: int|
                0 <= j < point.vout ==> (#[trigger] info.funding_tx.output@[j]).script_pubkey@
                    != p2wsh_bytes(info.multisig_redeemscript@)
        },
        locktime is Ok && locktime->Ok_0 - refund_locktime >= 20 && (exists|j: int|
            0 <= j < info.funding_tx.output@.len() && (#[trigger] info.funding_tx.output@[j]).script_pubkey@
                == p2wsh_bytes(info.multisig_redeemscript@)) ==> unified_funding_outpoint(
            info,
            refund_locktime,
            locktime,
        ) is Ok,
        locktime is Ok && locktime->Ok_0 - refund_locktime < 20 ==> unified_funding_outpoint(
            info,
            refund_locktime,
            locktime,
        ) is Err,
{
    crate::chain::lemma_first_output_for(
        info.funding_tx.output@,
        p2wsh_bytes(info.multisig_redeemscript@),
    );
}

/// A located output is accepted exactly where it has the confirmations that are
/// asked for, is locked to the maker's keys and to the contract that the maker
/// signed, and where its contract has the hash of those before it.
pub proof fn law_unified_facts(
    facts: UnifiedFundingFacts,
    point: OutPoint,
    required_confirms: u32,
    known: Option<Hash160>,
)
    ensures
        unified_facts_verdict(facts, point, required_confirms, known) is Ok <==> {
            &&& facts.outpoint == point
            &&& facts.confirmations is Some
            &&& facts.confirmations->0 >= required_confirms
            &&& facts.is_multisig is Ok
            &&& facts.has_our_key is Ok
            &&& facts.hashlock_has_our_key is Ok
            &&& facts.matches_signed_contract == Ok::<bool, MakerError>(true)
            &&& facts.hashvalue is Ok
            &&& known is None || known == Some(facts.hashvalue->Ok_0)
        },
        unified_facts_verdict(facts, point, required_confirms, known) matches Ok(hash)
            ==> facts.hashvalue == Ok::<Hash160, ProtocolError>(hash),
{
}

/// Every funding output of an accepted proof was confirmed, is locked to the
/// maker's keys, and has the one hash that the proof comes to.
pub proof fn law_unified_proof_is_the_makers(
    message: ProofOfFunding,
    locktimes: Seq<Result<u16, ProtocolError>>,
    facts: Seq<UnifiedFundingFacts>,
    required_confirms: u32,
    i: int,
)
    requires
        unified_proof_verdict(message, locktimes, facts, required_confirms) is Ok,
        0 <= i < message.confirmed_funding_txes@.len(),
    ensures
        facts[i].outpoint.txid == txid_of(message.confirmed_funding_txes@[i].funding_tx@),
        facts[i].confirmations is Some && facts[i].confirmations->0 >= required_confirms,
        facts[i].is_multisig is Ok,
        facts[i].has_our_key is Ok,
        facts[i].hashlock_has_our_key is Ok,
        facts[i].matches_signed_contract == Ok::<bool, MakerError>(true),
        facts[i].hashvalue == Ok::<Hash160, ProtocolError>(
            unified_proof_verdict(message, locktimes, facts, required_confirms)->Ok_0,
        ),
        locktimes[i] is Ok && locktimes[i]->Ok_0 - message.refund_locktime >= 20,
{
    lemma_unified_fundings(
        message.confirmed_funding_txes@,
        message.refund_locktime,
        locktimes,
        facts,
        required_confirms,
        message.confirmed_funding_txes@.len() as int,
    );
}

/// What holds of the first `n` funding transactions where none was rejected.
proof fn lemma_unified_fundings(
    infos: Seq<FundingTxInfo>,
    refund_locktime: u16,
    locktimes: Seq<Result<u16, ProtocolError>>,
    facts: Seq<UnifiedFundingFacts>,
    required_confirms: u32,
    n: int,
)
    requires
        0 <= n,
        unified_fundings(infos, refund_locktime, locktimes, facts, required_confirms, n) is Ok,
    ensures
        forall|i: int|
            0 <= i < n ==> {
                let found = unified_fundings(
                    infos,
                    refund_locktime,
                    locktimes,
                    facts,
                    required_confirms,
                    n,
                )->Ok_0;
                &&& found is Some
                &&& (#[trigger] facts[i]).outpoint.txid == txid_of(infos[i].funding_tx@)
                &&& facts[i].confirmations is Some
                &&& facts[i].confirmations->0 >= required_confirms
                &&& facts[i].is_multisig is Ok
                &&& facts[i].has_our_key is Ok
                &&& facts[i].hashlock_has_our_key is Ok
                &&& facts[i].matches_signed_contract == Ok::<bool, MakerError>(true)
                &&& facts[i].hashvalue == Ok::<Hash160, ProtocolError>(found->0)
                &&& locktimes[i] is Ok
                &&& locktimes[i]->Ok_0 - refund_locktime >= 20
            },
    decreases n,
{
    if n > 0 {
        lemma_unified_fundings(
            infos,
            refund_locktime,
            locktimes,
            facts,
            required_confirms,
            n - 1,
        );
        let known = unified_fundings(
            infos,
            refund_locktime,
            locktimes,
            facts,
            required_confirms,
            n - 1,
        )->Ok_0;
        if n > 1 {
            assert(facts[n - 2].hashvalue == Ok::<Hash160, ProtocolError>(known->0));
        }
    }
}

/// A proof of one funding transaction that pays to the script of two keys, with
/// facts that are all in order, is accepted and comes to the hash of its
/// contract; an empty one is not.
pub proof fn law_unified_proof_is_accepted(
    message: ProofOfFunding,
    locktimes: Seq<Result<u16, ProtocolError>>,
    facts: Seq<UnifiedFundingFacts>,
    required_confirms: u32,
    point: OutPoint,
)
    ensures
        message.confirmed_funding_txes@.len() == 0 ==> unified_proof_verdict(
            message,
            locktimes,
            facts,
            required_confirms,
        ) is Err,
        message.confirmed_funding_txes@.len() == 1 && unified_funding_outpoint(
            message.confirmed_funding_txes@[0],
            message.refund_locktime,
            locktimes[0],
        ) == Ok::<OutPoint, MakerError>(point) && facts[0].outpoint == point
            && facts[0].confirmations is Some && facts[0].confirmations->0 >= required_confirms
            && facts[0].is_multisig is Ok && facts[0].has_our_key is Ok
            && facts[0].hashlock_has_our_key is Ok && facts[0].matches_signed_contract == Ok::<
            bool,
            MakerError,
        >(true) && facts[0].hashvalue is Ok ==> unified_proof_verdict(
            message,
            locktimes,
            facts,
            required_confirms,
        ) == Ok::<Hash160, MakerError>(facts[0].hashvalue->Ok_0),
{
    reveal_with_fuel(unified_fundings, 2);
}

/// A recovery with every preimage sweeps the incoming coins, records the
/// sweeps, and only then lets go of the outgoing coins.
pub proof fn law_unified_hashlock_path(recovery: UnifiedRecovery, txids: Seq<Txid>)
    requires
        recovery.doing is LookForPreimages,
        recovery.has_incoming,
        txids.len() > 0,
    ensures
        ({
            let sweeping = unified_next(recovery, UnifiedEventModel::Preimages(true));
            let swept = unified_next(
                UnifiedRecovery { doing: sweeping.1, ..recovery },
                UnifiedEventModel::Resolved(txids),
            );
            let removed = unified_next(
                UnifiedRecovery { doing: swept.1, ..recovery },
                UnifiedEventModel::Removed,
            );
            &&& sweeping.0.len() == 0
            &&& swept.0.len() == 1
            &&& swept.0[0] == UpdateModel::HashlockRecovered(txids)
            &&& swept.1 is RemoveOutgoing
            &&& removed.0.len() == 1
            &&& removed.0[0] is CleanedUp
            &&& removed.1 is Recovered
        }),
{
}

/// A recovery without preimages waits for the height of the time lock, asking
/// for preimages again after each wait, and then takes the outgoing coins back
/// and records it.
pub proof fn law_unified_timelock_path(
    recovery: UnifiedRecovery,
    all: bool,
    height: u32,
    txids: Seq<Txid>,
)
    requires
        recovery.doing is LookForPreimages,
        !all || !recovery.has_incoming,
        txids.len() > 0,
    ensures
        ({
            let reading = unified_next(recovery, UnifiedEventModel::Preimages(all));
            let read = unified_next(
                UnifiedRecovery { doing: reading.1, ..recovery },
                UnifiedEventModel::Height(height),
            );
            let reclaimed = unified_next(
                UnifiedRecovery { doing: read.1, ..recovery },
                UnifiedEventModel::Resolved(txids),
            );
            let waited = unified_next(
                UnifiedRecovery { doing: read.1, ..recovery },
                UnifiedEventModel::Waited,
            );
            &&& reading.1 is ReadHeight
            &&& height < recovery.expiry ==> read.0.len() == 0 && read.1 is Wait
                && waited.0.len() == 0 && waited.1 is LookForPreimages
            &&& height >= recovery.expiry ==> {
                &&& read.0.len() == 1
                &&& read.0[0] is TimelockWaiting
                &&& read.1 is ReclaimOutgoing
                &&& reclaimed.0.len() == 2
                &&& reclaimed.0[0] == UpdateModel::TimelockRecovered(txids)
                &&& reclaimed.0[1] is CleanedUp
                &&& reclaimed.1 is Recovered
            }
        }),
{
}

/// Where nothing was swept the time lock is looked at, where nothing was taken
/// back it is tried again later, and coins whose funding was never broadcast
/// are discarded, with nothing to recover.
pub proof fn law_unified_fallbacks(recovery: UnifiedRecovery)
    ensures
        recovery.doing is SweepIncoming ==> unified_next(
            recovery,
            UnifiedEventModel::Resolved(seq![]),
        ).1 is ReadHeight,
        recovery.doing is ReclaimOutgoing ==> unified_next(
            recovery,
            UnifiedEventModel::Resolved(seq![]),
        ).1 is Wait,
        recovery.doing is Discard ==> {
            let after = unified_next(recovery, UnifiedEventModel::Removed);
            after.1 is Recovered && after.0.len() == 1 && after.0[0] is NothingToRecover
        },
        recovery.doing is Recovered ==> forall|event: UnifiedEventModel|
            {
                let after = #[trigger] unified_next(recovery, event);
                after.0.len() == 0 && after.1 is Recovered
            },
{
}

/// What is lent to the handlers of contracts and not changed comes back
/// unchanged, and what they make of it arrives; neither side loses anything
/// that the other does not know.
pub proof fn law_lent_state_comes_back(state: UnifiedModel, contracts: StateModel)
    ensures
        taken_back(state, lent(state, contracts)) == state,
        lent(taken_back(state, contracts), contracts) == contracts,
        taken_back(state, contracts).last_activity == state.last_activity,
        lent(state, contracts).service_fee_sats == contracts.service_fee_sats,
        lent(state, contracts).swap_id == state.swap_id,
        lent(state, contracts).swap_amount == state.swap_amount,
        lent(state, contracts).timelock == state.timelock,
        lent(state, contracts).incoming_swapcoins == state.incoming_swapcoins,
        lent(state, contracts).outgoing_swapcoins == state.outgoing_swapcoins,
{
}

/// The swap that a connection goes on with is the one of the details, with
/// their amount, their lock time and their protocol.
pub proof fn law_unified_details_are_taken_over(state: UnifiedModel, details: SwapDetails)
    ensures
        with_details(state, details).swap_id == Some(details.id@),
        with_details(state, details).swap_amount == details.amount,
        with_details(state, details).timelock == details.timelock,
        with_details(state, details).protocol == details.protocol_version,
        with_details(state, details).phase == SwapPhase::AwaitingContractData,
        with_details(state, details).incoming_swapcoins == state.incoming_swapcoins,
        with_details(state, details).outgoing_swapcoins == state.outgoing_swapcoins,
        with_details(state, details).last_activity == state.last_activity,
{
}

/// A connection without a swap of its own gets the stored one whole; one that
/// has both an amount and outgoing coins is left alone.
pub proof fn law_unified_restore_gives_the_stored_swap(
    state: UnifiedModel,
    id: Seq<char>,
    stored: UnifiedModel,
    now: u64,
)
    ensures
        state.swap_amount > 0 && state.outgoing_swapcoins.len() > 0 ==> restored_unified(
            state,
            id,
            stored,
        ) == state,
        state.swap_amount == 0 || state.outgoing_swapcoins.len() == 0 ==> stored_unified(
            restored_unified(state, id, stored),
            now,
        ) == stored_unified(stored, now) && restored_unified(state, id, stored).swap_id == Some(id)
            && restored_unified(state, id, stored).phase == state.phase
            && restored_unified(state, id, stored).last_activity == state.last_activity,
{
}

/// The offer shows the terms: swaps of every offered size are taken, with the
/// maker's own fees and its own key.
pub proof fn law_unified_offer_is_honoured(
    config: MakerConfig,
    tweakable_point: [u8; 33],
    fidelity: FidelityProof,
    details: SwapDetails,
)
    ensures
        ({
            let offer = unified_offer(config, tweakable_point, fidelity);
            &&& config.supported_protocols@.contains(details.protocol_version) ==> (
            unified_terms_verdict(config, details) is Ok <==> offer.min_size <= details.amount
                <= offer.max_size)
            &&& offer.tweakable_point == tweakable_point
            &&& offer.fidelity == fidelity
            &&& offer.base_fee == config.base_fee
            &&& offer.amount_relative_fee_pct == config.amount_relative_fee_pct
            &&& offer.time_relative_fee_pct == config.time_relative_fee_pct
            &&& offer.required_confirms == config.required_confirms
            &&& offer.minimum_locktime == 10
        }),
{
}

/// A recovery begins by the time lock of the first outgoing coin: it looks for
/// preimages, and says so, exactly where the record says that the funding was
/// broadcast, and discards the coins otherwise.
pub proof fn law_unified_recovery_begins(
    incoming: usize,
    outgoing: Seq<OutgoingSwapCoin>,
    recorded: Option<bool>,
)
    ensures
        unified_start(incoming, outgoing, recorded) is Ok <==> outgoing.len() > 0
            && outgoing[0].timelock is Some,
        unified_start(incoming, outgoing, recorded) matches Ok((recovery, update)) ==> {
            &&& outgoing[0].timelock == Some(recovery.expiry)
            &&& recovery.has_incoming <==> incoming > 0
            &&& recovery.doing is LookForPreimages <==> recorded == Some(true)
            &&& recovery.doing is Discard <==> recorded != Some(true)
            &&& recovery.doing is LookForPreimages ==> update == Some(RecordUpdate::Recovering)
            &&& recovery.doing is Discard ==> update is None
        },
{
}

} // verus!
