//! The state of a connection and the messages that both protocols share.

use crate::chain::{str_equal, OutPoint, PublicKey, Transaction, TransactionModel};
use crate::error::MakerError;
use crate::maker::config::MakerServerConfig;
use crate::maker::swapcoin::{
    incoming_models, outgoing_models, text_model, tx_models, IncomingModel, IncomingSwapCoin,
    OutgoingModel, OutgoingSwapCoin,
};
use crate::protocol::common_messages::{
    FidelityProof, MakerHello, Offer, ProtocolVersion, RateBits, SwapDetails,
};
use vstd::prelude::*;

verus! {

/// Minimum time required to react to contract broadcasts, in blocks.
pub const MIN_CONTRACT_REACTION_TIME: u16 = 10;

/// The swaps that a maker serves at a time.
pub const MAX_CONCURRENT_SWAPS: usize = 30;

/// Nanoseconds in a second.
pub const NANOS_PER_SEC: u64 = 1_000_000_000;

/// Phases of a swap.
#[derive(Debug, Clone, Copy, PartialEq, Eq, Structural)]
pub enum SwapPhase {
    /// Initial state, awaiting hello.
    AwaitingHello,
    /// Hello received, awaiting offer request.
    AwaitingOfferRequest,
    /// Offer sent, awaiting swap details.
    AwaitingSwapDetails,
    /// Swap details received, awaiting contract data.
    AwaitingContractData,
    /// Contract data received; legacy: awaiting signatures.
    AwaitingSignaturesOrPreimage,
    /// Signatures received, awaiting private key handover.
    AwaitingPrivateKeyHandover,
    /// Swap completed.
    Completed,
}

/// The state of a connection with a taker. Moments are nanoseconds of a
/// monotonic clock.
#[derive(Debug)]
pub struct ConnectionState {
    /// Protocol version being used for this connection.
    pub protocol: ProtocolVersion,
    /// Current phase of the swap.
    pub phase: SwapPhase,
    /// Unique swap identifier.
    pub swap_id: Option<String>,
    /// Swap amount in satoshis.
    pub swap_amount: u64,
    /// Number of contract transactions agreed at negotiation.
    pub tx_count: u32,
    /// Timelock value.
    pub timelock: u32,
    /// Incoming swap coins.
    pub incoming_swapcoins: Vec<IncomingSwapCoin>,
    /// Outgoing swap coins.
    pub outgoing_swapcoins: Vec<OutgoingSwapCoin>,
    /// Funding transactions that have not been broadcast.
    pub pending_funding_txes: Vec<Transaction>,
    /// Whether the funding transactions were broadcast.
    pub funding_broadcast: bool,
    /// Contract fee rate for creating the next hop.
    pub contract_feerate: RateBits,
    /// The maker's fee of the swap.
    pub service_fee_sats: u64,
    /// Outputs reserved for this swap.
    pub reserve_utxo: Vec<OutPoint>,
    /// Last activity.
    pub last_activity: u64,
    /// When the swap was accepted.
    pub swap_start_time: u64,
    /// How many blocks the funds stay locked.
    pub refund_locktime_offset: u16,
    /// Outgoing contracts asked for; `None` mirrors `tx_count`.
    pub outgoing_tx_count: Option<u32>,
}

/// What a connection's state holds.
pub struct StateModel {
    pub protocol: ProtocolVersion,
    pub phase: SwapPhase,
    pub swap_id: Option<Seq<char>>,
    pub swap_amount: u64,
    pub tx_count: u32,
    pub timelock: u32,
    pub incoming_swapcoins: Seq<IncomingModel>,
    pub outgoing_swapcoins: Seq<OutgoingModel>,
    pub pending_funding_txes: Seq<TransactionModel>,
    pub funding_broadcast: bool,
    pub contract_feerate: RateBits,
    pub service_fee_sats: u64,
    pub reserve_utxo: Seq<OutPoint>,
    pub last_activity: u64,
    pub swap_start_time: u64,
    pub refund_locktime_offset: u16,
    pub outgoing_tx_count: Option<u32>,
}

impl View for ConnectionState {
    type V = StateModel;

    open spec fn view(&self) -> StateModel {
        StateModel {
            protocol: self.protocol,
            phase: self.phase,
            swap_id: text_model(self.swap_id),
            swap_amount: self.swap_amount,
            tx_count: self.tx_count,
            timelock: self.timelock,
            incoming_swapcoins: incoming_models(self.incoming_swapcoins@),
            outgoing_swapcoins: outgoing_models(self.outgoing_swapcoins@),
            pending_funding_txes: tx_models(self.pending_funding_txes@),
            funding_broadcast: self.funding_broadcast,
            contract_feerate: self.contract_feerate,
            service_fee_sats: self.service_fee_sats,
            reserve_utxo: self.reserve_utxo@,
            last_activity: self.last_activity,
            swap_start_time: self.swap_start_time,
            refund_locktime_offset: self.refund_locktime_offset,
            outgoing_tx_count: self.outgoing_tx_count,
        }
    }
}

/// The state of a fresh connection.
pub open spec fn fresh_state(protocol: ProtocolVersion, now: u64) -> StateModel {
    StateModel {
        protocol,
        phase: SwapPhase::AwaitingHello,
        swap_id: None,
        swap_amount: 0,
        tx_count: 0,
        timelock: 0,
        incoming_swapcoins: seq![],
        outgoing_swapcoins: seq![],
        pending_funding_txes: seq![],
        funding_broadcast: false,
        contract_feerate: RateBits(0),
        service_fee_sats: 0,
        reserve_utxo: seq![],
        last_activity: now,
        swap_start_time: now,
        refund_locktime_offset: 0,
        outgoing_tx_count: None,
    }
}

/// Whether more than `timeout_secs` whole seconds lie between two moments.
pub open spec fn timed_out(last_activity: u64, now: u64, timeout_secs: u64) -> bool {
    now >= last_activity && (now - last_activity) / (NANOS_PER_SEC as int) > timeout_secs
}

impl ConnectionState {
    /// Create a new connection state for a specific protocol version.
    pub fn new(protocol: ProtocolVersion, now: u64) -> (r: Self)
        ensures
            r@ == fresh_state(protocol, now),
    {
        let r = ConnectionState {
            protocol,
            phase: SwapPhase::AwaitingHello,
            swap_id: None,
            swap_amount: 0,
            tx_count: 0,
            timelock: 0,
            incoming_swapcoins: Vec::new(),
            outgoing_swapcoins: Vec::new(),
            pending_funding_txes: Vec::new(),
            funding_broadcast: false,
            contract_feerate: RateBits(0),
            service_fee_sats: 0,
            reserve_utxo: Vec::new(),
            last_activity: now,
            swap_start_time: now,
            refund_locktime_offset: 0,
            outgoing_tx_count: None,
        };
        assert(r@.incoming_swapcoins =~= seq![]);
        assert(r@.outgoing_swapcoins =~= seq![]);
        assert(r@.pending_funding_txes =~= seq![]);
        assert(r@.reserve_utxo =~= seq![]);
        r
    }

    /// Update the last activity.
    pub fn touch(&mut self, now: u64)
        ensures
            final(self)@ == (StateModel { last_activity: now, ..old(self)@ }),
    {
        self.last_activity = now;
    }

    /// Check if the connection has timed out.
    pub fn is_timed_out(&self, timeout_secs: u64, now: u64) -> (r: bool)
        ensures
            r == timed_out(self.last_activity, now, timeout_secs),
    {
        now >= self.last_activity && (now - self.last_activity) / NANOS_PER_SEC > timeout_secs
    }

    /// Fails where the swap is in neither of two phases.
    pub fn expect_phase(&self, first: SwapPhase, second: SwapPhase) -> (r: Result<(), MakerError>)
        ensures
            r == phase_verdict(self.phase, first, second),
    {
        if self.phase == first || self.phase == second {
            Ok(())
        } else {
            Err(MakerError::UnexpectedPhase(self.phase))
        }
    }

    /// Fails where the connection serves another swap than `id`.
    pub fn check_swap_id(&self, id: &str) -> (r: Result<(), MakerError>)
        ensures
            r == swap_id_verdict(text_model(self.swap_id), id@),
    {
        match &self.swap_id {
            Some(own) => if str_equal(own.as_str(), id) {
                Ok(())
            } else {
                Err(MakerError::SwapIdMismatch)
            },
            None => Err(MakerError::SwapIdMismatch),
        }
    }

    /// The number of outgoing contracts agreed on.
    pub open spec fn outgoing_count_spec(&self) -> u32 {
        match self.outgoing_tx_count {
            Some(n) => n,
            None => self.tx_count,
        }
    }

    /// The number of outgoing contracts agreed on.
    pub fn outgoing_count(&self) -> (r: u32)
        ensures
            r == self.outgoing_count_spec(),
    {
        match self.outgoing_tx_count {
            Some(n) => n,
            None => self.tx_count,
        }
    }
}

/// Whether a message that two phases expect may be processed in `phase`.
pub open spec fn phase_verdict(phase: SwapPhase, first: SwapPhase, second: SwapPhase) -> Result<
    (),
    MakerError,
> {
    if phase == first || phase == second {
        Ok(())
    } else {
        Err(MakerError::UnexpectedPhase(phase))
    }
}

/// Whether a message for the swap `id` belongs to a connection.
pub open spec fn swap_id_verdict(own: Option<Seq<char>>, id: Seq<char>) -> Result<(), MakerError> {
    if own == Some(id) {
        Ok(())
    } else {
        Err(MakerError::SwapIdMismatch)
    }
}

/// Maker configuration values.
#[derive(Debug)]
pub struct MakerConfig {
    /// Base fee in satoshis.
    pub base_fee: u64,
    /// Amount-relative fee percentage.
    pub amount_relative_fee_pct: RateBits,
    /// Time-relative fee percentage.
    pub time_relative_fee_pct: RateBits,
    /// Minimum swap amount.
    pub min_swap_amount: u64,
    /// Maximum swap amount.
    pub max_swap_amount: u64,
    /// Required confirmations.
    pub required_confirms: u32,
    /// Supported protocol versions.
    pub supported_protocols: Vec<ProtocolVersion>,
}

/// A copy of a list of protocol versions.
pub fn copy_versions(versions: &Vec<ProtocolVersion>) -> (r: Vec<ProtocolVersion>)
    ensures
        r@ == versions@,
{
    let mut out: Vec<ProtocolVersion> = Vec::new();
    let mut i: usize = 0;
    while i < versions.len()
        invariant
            i <= versions.len(),
            out@ == versions@.subrange(0, i as int),
        decreases versions.len() - i,
    {
        out.push(versions[i]);
        i += 1;
        assert(out@ =~= versions@.subrange(0, i as int));
    }
    assert(versions@.subrange(0, i as int) =~= versions@);
    out
}

/// The largest swap that is offered: what the wallet allows, or any amount
/// where the wallet cannot be asked.
pub open spec fn largest_swap(offer_maxsize: Option<u64>) -> u64 {
    match offer_maxsize {
        Some(amount) => amount,
        None => u64::MAX,
    }
}

impl MakerServerConfig {
    /// The terms that takers see. `offer_maxsize` is the largest swap that the
    /// wallet allows, where the wallet could be asked.
    pub fn get_config(&self, offer_maxsize: Option<u64>) -> (r: MakerConfig)
        ensures
            r.base_fee == self.base_fee,
            r.amount_relative_fee_pct == self.amount_relative_fee_pct,
            r.time_relative_fee_pct == self.time_relative_fee_pct,
            r.min_swap_amount == self.min_swap_amount,
            r.max_swap_amount == largest_swap(offer_maxsize),
            r.required_confirms == self.required_confirms,
            r.supported_protocols@ == self.supported_protocols@,
    {
        MakerConfig {
            base_fee: self.base_fee,
            amount_relative_fee_pct: self.amount_relative_fee_pct,
            time_relative_fee_pct: self.time_relative_fee_pct,
            min_swap_amount: self.min_swap_amount,
            max_swap_amount: match offer_maxsize {
                Some(amount) => amount,
                None => u64::MAX,
            },
            required_confirms: self.required_confirms,
            supported_protocols: copy_versions(&self.supported_protocols),
        }
    }
}

/// Handle a taker's hello: answer with the supported protocols.
pub fn handle_taker_hello(state: &mut ConnectionState, config: &MakerConfig) -> (r: MakerHello)
    ensures
        r.supported_protocols@ == config.supported_protocols@,
        final(state)@ == (StateModel {
            phase: SwapPhase::AwaitingOfferRequest,
            ..old(state)@
        }),
{
    state.phase = SwapPhase::AwaitingOfferRequest;
    MakerHello { supported_protocols: copy_versions(&config.supported_protocols) }
}

/// The offer of a maker.
pub open spec fn offered(
    config: MakerConfig,
    tweakable_point: PublicKey,
    fidelity: FidelityProof,
) -> Offer {
    Offer {
        base_fee: config.base_fee,
        amount_relative_fee_pct: config.amount_relative_fee_pct,
        time_relative_fee_pct: config.time_relative_fee_pct,
        required_confirms: config.required_confirms,
        minimum_locktime: MIN_CONTRACT_REACTION_TIME,
        max_size: config.max_swap_amount,
        min_size: config.min_swap_amount,
        tweakable_point,
        fidelity,
    }
}

/// Handle a request for an offer. Without a fidelity proof there is none, and
/// the connection stays in its phase.
pub fn handle_get_offer(
    state: &mut ConnectionState,
    config: &MakerConfig,
    tweakable_point: PublicKey,
    fidelity: Option<FidelityProof>,
) -> (r: Result<Offer, MakerError>)
    ensures
        match fidelity {
            None => {
                &&& r == Err::<Offer, MakerError>(
                    MakerError::General("No fidelity proof available"),
                )
                &&& final(state)@ == old(state)@
            },
            Some(proof) => {
                &&& r == Ok::<Offer, MakerError>(offered(*config, tweakable_point, proof))
                &&& final(state)@ == (StateModel {
                    phase: SwapPhase::AwaitingSwapDetails,
                    ..old(state)@
                })
            },
        },
{
    match fidelity {
        None => Err(MakerError::General("No fidelity proof available")),
        Some(proof) => {
            state.phase = SwapPhase::AwaitingSwapDetails;
            Ok(
                Offer {
                    base_fee: config.base_fee,
                    amount_relative_fee_pct: config.amount_relative_fee_pct,
                    time_relative_fee_pct: config.time_relative_fee_pct,
                    required_confirms: config.required_confirms,
                    minimum_locktime: MIN_CONTRACT_REACTION_TIME,
                    max_size: config.max_swap_amount,
                    min_size: config.min_swap_amount,
                    tweakable_point,
                    fidelity: proof,
                },
            )
        },
    }
}

/// The state of a connection once it has accepted swap details.
pub open spec fn accepted_state(
    state: StateModel,
    details: SwapDetails,
    locked_blocks: u16,
) -> StateModel {
    StateModel {
        swap_id: Some(details.id@),
        swap_amount: details.amount,
        tx_count: details.tx_count,
        timelock: details.timelock,
        protocol: details.protocol_version,
        refund_locktime_offset: locked_blocks,
        outgoing_tx_count: details.outgoing_tx_count,
        phase: SwapPhase::AwaitingContractData,
        ..state
    }
}

/// Takes over validated swap details: the connection now awaits the contract
/// data of that swap. `validated` is the number of blocks that the funds stay
/// locked, or why the details are rejected.
pub fn handle_swap_details(
    state: &mut ConnectionState,
    details: &SwapDetails,
    validated: Result<u16, MakerError>,
) -> (r: Result<(), MakerError>)
    ensures
        match validated {
            Err(e) => r == Err::<(), MakerError>(e) && final(state)@ == old(state)@,
            Ok(blocks) => r == Ok::<(), MakerError>(()) && final(state)@ == accepted_state(
                old(state)@,
                *details,
                blocks,
            ),
        },
{
    match validated {
        Err(e) => Err(e),
        Ok(blocks) => {
            state.swap_id = Some(details.id.clone());
            state.swap_amount = details.amount;
            state.tx_count = details.tx_count;
            state.timelock = details.timelock;
            state.protocol = details.protocol_version;
            state.refund_locktime_offset = blocks;
            state.outgoing_tx_count = details.outgoing_tx_count;
            state.phase = SwapPhase::AwaitingContractData;
            Ok(())
        },
    }
}

/// Whether a connection lacks what a stored swap could give it.
pub open spec fn needs_restore(state: StateModel) -> bool {
    state.swap_amount == 0 || state.outgoing_swapcoins.len() == 0
}

/// The state of a connection that takes over a stored swap.
pub open spec fn restored_state(state: StateModel, stored: StateModel, id: Seq<char>) -> StateModel {
    StateModel {
        swap_id: Some(id),
        swap_amount: stored.swap_amount,
        tx_count: stored.tx_count,
        timelock: stored.timelock,
        protocol: stored.protocol,
        phase: stored.phase,
        incoming_swapcoins: stored.incoming_swapcoins,
        outgoing_swapcoins: stored.outgoing_swapcoins,
        pending_funding_txes: stored.pending_funding_txes,
        funding_broadcast: stored.funding_broadcast,
        contract_feerate: stored.contract_feerate,
        service_fee_sats: stored.service_fee_sats,
        reserve_utxo: stored.reserve_utxo,
        swap_start_time: stored.swap_start_time,
        refund_locktime_offset: stored.refund_locktime_offset,
        outgoing_tx_count: stored.outgoing_tx_count,
        ..state
    }
}

/// Restore the connection's state if this is a new connection of a swap that
/// is already stored.
pub fn restore_state_if_needed(
    state: &mut ConnectionState,
    swap_id: &str,
    stored: Option<ConnectionState>,
)
    ensures
        final(state)@ == match stored {
            Some(s) => if needs_restore(old(state)@) {
                restored_state(old(state)@, s@, swap_id@)
            } else {
                old(state)@
            },
            None => old(state)@,
        },
{
    if state.swap_amount == 0 || state.outgoing_swapcoins.len() == 0 {
        if let Some(stored) = stored {
            state.swap_id = Some(swap_id.to_owned());
            state.swap_amount = stored.swap_amount;
            state.tx_count = stored.tx_count;
            state.timelock = stored.timelock;
            state.protocol = stored.protocol;
            state.phase = stored.phase;
            state.incoming_swapcoins = stored.incoming_swapcoins;
            state.outgoing_swapcoins = stored.outgoing_swapcoins;
            state.pending_funding_txes = stored.pending_funding_txes;
            state.funding_broadcast = stored.funding_broadcast;
            state.contract_feerate = stored.contract_feerate;
            state.service_fee_sats = stored.service_fee_sats;
            state.reserve_utxo = stored.reserve_utxo;
            state.swap_start_time = stored.swap_start_time;
            state.refund_locktime_offset = stored.refund_locktime_offset;
            state.outgoing_tx_count = stored.outgoing_tx_count;
        }
    }
}

/// The terms of a connection that accepted swap details are the ones that the
/// taker proposed, whatever the protocol, and its coins are untouched.
pub proof fn law_accepted_terms_are_the_proposed_ones(
    state: StateModel,
    details: SwapDetails,
    locked_blocks: u16,
)
    ensures
        ({
            let after = accepted_state(state, details, locked_blocks);
            &&& after.swap_id == Some(details.id@)
            &&& after.swap_amount == details.amount
            &&& after.tx_count == details.tx_count
            &&& after.timelock == details.timelock
            &&& after.protocol == details.protocol_version
            &&& after.outgoing_tx_count == details.outgoing_tx_count
            &&& after.refund_locktime_offset == locked_blocks
            &&& after.phase == SwapPhase::AwaitingContractData
            &&& after.incoming_swapcoins == state.incoming_swapcoins
            &&& after.outgoing_swapcoins == state.outgoing_swapcoins
            &&& after.funding_broadcast == state.funding_broadcast
            &&& after.reserve_utxo == state.reserve_utxo
            &&& after.pending_funding_txes == state.pending_funding_txes
        }),
{
}

/// A connection that accepted swap details can be held to them: it takes
/// messages for the proposed swap and no other, and those that bring contract
/// data.
pub proof fn law_accepted_swap_is_the_one_served(
    state: StateModel,
    details: SwapDetails,
    locked_blocks: u16,
    id: Seq<char>,
)
    ensures
        swap_id_verdict(accepted_state(state, details, locked_blocks).swap_id, id) is Ok <==> id
            == details.id@,
        phase_verdict(
            accepted_state(state, details, locked_blocks).phase,
            SwapPhase::AwaitingContractData,
            SwapPhase::AwaitingSignaturesOrPreimage,
        ) is Ok,
        phase_verdict(
            accepted_state(state, details, locked_blocks).phase,
            SwapPhase::AwaitingPrivateKeyHandover,
            SwapPhase::AwaitingPrivateKeyHandover,
        ) is Err,
{
}

/// A message is taken in the phases that expect it and in no other; the error
/// names the phase.
pub proof fn law_messages_are_taken_in_their_phases(
    phase: SwapPhase,
    first: SwapPhase,
    second: SwapPhase,
)
    ensures
        phase_verdict(phase, first, second) is Ok <==> (phase == first || phase == second),
        phase_verdict(phase, first, second) is Err ==> phase_verdict(phase, first, second)->Err_0
            == MakerError::UnexpectedPhase(phase),
{
}

/// A message is taken where it names the connection's own swap; a connection
/// without one takes none.
pub proof fn law_messages_belong_to_the_swap(own: Option<Seq<char>>, id: Seq<char>)
    ensures
        swap_id_verdict(own, id) is Ok <==> own is Some && own->0 == id,
{
}

/// A connection has timed out once more than the given number of whole seconds
/// has passed, and not before; a clock that runs back times nothing out.
pub proof fn law_times_out_after_the_seconds(last_activity: u64, now: u64, timeout_secs: u64)
    ensures
        timed_out(last_activity, now, timeout_secs) <==> now - last_activity >= (timeout_secs + 1)
            * 1_000_000_000,
{
}

/// A new connection of a stored swap goes on where the swap stood: it has all
/// that was stored, under the swap's id.
pub proof fn law_restored_connection_has_the_stored_swap(
    state: StateModel,
    stored: StateModel,
    id: Seq<char>,
)
    ensures
        restored_state(state, stored, id) == (StateModel {
            swap_id: Some(id),
            last_activity: state.last_activity,
            ..stored
        }),
{
}

/// A fresh connection takes over a stored swap; one that has an amount and
/// outgoing coins does not.
pub proof fn law_only_empty_connections_are_restored(
    state: StateModel,
    protocol: ProtocolVersion,
    now: u64,
)
    ensures
        needs_restore(fresh_state(protocol, now)),
        state.swap_amount > 0 && state.outgoing_swapcoins.len() > 0 ==> !needs_restore(state),
        state.outgoing_swapcoins.len() == 0 ==> needs_restore(state),
        state.swap_amount == 0 ==> needs_restore(state),
{
}

/// A fresh connection awaits the hello, has agreed to nothing and holds
/// nothing.
pub proof fn law_fresh_connection_is_empty(protocol: ProtocolVersion, now: u64)
    ensures
        ({
            let state = fresh_state(protocol, now);
            &&& state.protocol == protocol
            &&& state.phase == SwapPhase::AwaitingHello
            &&& state.swap_id is None
            &&& state.incoming_swapcoins.len() == 0 && state.outgoing_swapcoins.len() == 0
            &&& state.pending_funding_txes.len() == 0 && state.reserve_utxo.len() == 0
            &&& !state.funding_broadcast
            &&& state.last_activity == now && state.swap_start_time == now
            &&& !timed_out(state.last_activity, now, 0)
        }),
{
}

/// The wallet's limit is the largest swap; without one any amount is.
pub proof fn law_wallet_limits_the_offer(offer_maxsize: Option<u64>, amount: u64)
    ensures
        amount <= largest_swap(offer_maxsize) <==> (offer_maxsize is Some ==> amount
            <= offer_maxsize->0),
{
}

/// An offer shows the maker's terms: its fees, its limits in their places, the
/// confirmations that it asks for, its point and its proof.
pub proof fn law_offer_shows_the_terms(
    config: MakerConfig,
    tweakable_point: PublicKey,
    fidelity: FidelityProof,
)
    ensures
        ({
            let offer = offered(config, tweakable_point, fidelity);
            &&& offer.base_fee == config.base_fee
            &&& offer.amount_relative_fee_pct == config.amount_relative_fee_pct
            &&& offer.time_relative_fee_pct == config.time_relative_fee_pct
            &&& offer.required_confirms == config.required_confirms
            &&& offer.minimum_locktime == 10
            &&& offer.max_size == config.max_swap_amount
            &&& offer.min_size == config.min_swap_amount
            &&& offer.tweakable_point == tweakable_point
            &&& offer.fidelity == fidelity
        }),
{
}

} // verus!
