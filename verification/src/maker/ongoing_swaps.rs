//! The table of the swaps that a maker is serving.

use crate::chain::{str_equal, OutPoint, PublicKey, Transaction, TransactionModel};
use crate::error::MakerError;
use crate::maker::handlers::{ConnectionState, StateModel, SwapPhase, MAX_CONCURRENT_SWAPS};
use crate::maker::swapcoin::{
    copy_incoming, copy_outgoing, copy_outpoints, copy_txs, incoming_models, is_of_script, keys_of,
    outgoing_models, spends_script, two_keys, tx_models, IncomingModel, IncomingSwapCoin,
    OutgoingModel, OutgoingSwapCoin, TwoKeyScript,
};
use crate::protocol::common_messages::{ProtocolVersion, RateBits};
use crate::table::{contents, distinct_keys, placed, without, Table};
use vstd::prelude::*;

verus! {

/// A swap's state, kept across connections.
#[derive(Debug)]
pub struct SwapState {
    /// Swap amount in satoshis.
    pub swap_amount: u64,
    /// Number of contract transactions agreed at negotiation.
    pub tx_count: u32,
    /// Timelock value.
    pub timelock: u32,
    /// Protocol version of the swap.
    pub protocol: ProtocolVersion,
    /// Current phase of the swap.
    pub phase: SwapPhase,
    /// Incoming swap coins.
    pub incoming_swapcoins: Vec<IncomingSwapCoin>,
    /// Outgoing swap coins.
    pub outgoing_swapcoins: Vec<OutgoingSwapCoin>,
    /// Funding transactions that have not been broadcast.
    pub pending_funding_txes: Vec<Transaction>,
    /// Whether the funding transactions were broadcast.
    pub funding_broadcast: bool,
    /// Contract fee rate for creating the next hop.
    pub contract_feerate: RateBits,
    /// The maker's fee of the swap.
    pub service_fee_sats: u64,
    /// Outputs reserved for this swap.
    pub reserve_utxo: Vec<OutPoint>,
    /// Last activity.
    pub last_activity: u64,
    /// When the swap was accepted.
    pub swap_start_time: u64,
    /// How many blocks the funds stay locked.
    pub refund_locktime_offset: u16,
    /// Height the incoming funding confirmed at, once that is observed.
    pub funding_confirmation_height: Option<u32>,
    /// Outgoing contracts asked for; `None` mirrors `tx_count`.
    pub outgoing_tx_count: Option<u32>,
}

/// What a swap's state holds.
pub struct SwapModel {
    pub swap_amount: u64,
    pub tx_count: u32,
    pub timelock: u32,
    pub protocol: ProtocolVersion,
    pub phase: SwapPhase,
    pub incoming_swapcoins: Seq<IncomingModel>,
    pub outgoing_swapcoins: Seq<OutgoingModel>,
    pub pending_funding_txes: Seq<TransactionModel>,
    pub funding_broadcast: bool,
    pub contract_feerate: RateBits,
    pub service_fee_sats: u64,
    pub reserve_utxo: Seq<OutPoint>,
    pub last_activity: u64,
    pub swap_start_time: u64,
    pub refund_locktime_offset: u16,
    pub funding_confirmation_height: Option<u32>,
    pub outgoing_tx_count: Option<u32>,
}

impl View for SwapState {
    type V = SwapModel;

    open spec fn view(&self) -> SwapModel {
        SwapModel {
            swap_amount: self.swap_amount,
            tx_count: self.tx_count,
            timelock: self.timelock,
            protocol: self.protocol,
            phase: self.phase,
            incoming_swapcoins: incoming_models(self.incoming_swapcoins@),
            outgoing_swapcoins: outgoing_models(self.outgoing_swapcoins@),
            pending_funding_txes: tx_models(self.pending_funding_txes@),
            funding_broadcast: self.funding_broadcast,
            contract_feerate: self.contract_feerate,
            service_fee_sats: self.service_fee_sats,
            reserve_utxo: self.reserve_utxo@,
            last_activity: self.last_activity,
            swap_start_time: self.swap_start_time,
            refund_locktime_offset: self.refund_locktime_offset,
            funding_confirmation_height: self.funding_confirmation_height,
            outgoing_tx_count: self.outgoing_tx_count,
        }
    }
}

/// What the table keeps of a connection's state at the time `now`. The height
/// that the incoming funding confirmed at is not the connection's to change.
pub open spec fn stored_model(
    state: StateModel,
    funding_confirmation_height: Option<u32>,
    now: u64,
) -> SwapModel {
    SwapModel {
        swap_amount: state.swap_amount,
        tx_count: state.tx_count,
        timelock: state.timelock,
        protocol: state.protocol,
        phase: state.phase,
        incoming_swapcoins: state.incoming_swapcoins,
        outgoing_swapcoins: state.outgoing_swapcoins,
        pending_funding_txes: state.pending_funding_txes,
        funding_broadcast: state.funding_broadcast,
        contract_feerate: state.contract_feerate,
        service_fee_sats: state.service_fee_sats,
        reserve_utxo: state.reserve_utxo,
        last_activity: now,
        swap_start_time: state.swap_start_time,
        refund_locktime_offset: state.refund_locktime_offset,
        funding_confirmation_height,
        outgoing_tx_count: state.outgoing_tx_count,
    }
}

/// The state of a connection that resumes the swap `id`.
pub open spec fn resumed_state(swap: SwapModel, id: Seq<char>) -> StateModel {
    StateModel {
        protocol: swap.protocol,
        phase: swap.phase,
        swap_id: Some(id),
        swap_amount: swap.swap_amount,
        tx_count: swap.tx_count,
        timelock: swap.timelock,
        incoming_swapcoins: swap.incoming_swapcoins,
        outgoing_swapcoins: swap.outgoing_swapcoins,
        pending_funding_txes: swap.pending_funding_txes,
        funding_broadcast: swap.funding_broadcast,
        contract_feerate: swap.contract_feerate,
        service_fee_sats: swap.service_fee_sats,
        reserve_utxo: swap.reserve_utxo,
        last_activity: swap.last_activity,
        swap_start_time: swap.swap_start_time,
        refund_locktime_offset: swap.refund_locktime_offset,
        outgoing_tx_count: swap.outgoing_tx_count,
    }
}

/// Whether swap details that come again for a stored swap are the same.
pub open spec fn same_terms(swap: SwapModel, state: StateModel) -> bool {
    &&& swap.swap_amount == state.swap_amount
    &&& swap.tx_count == state.tx_count
    &&& swap.timelock == state.timelock
    &&& swap.protocol == state.protocol
    &&& swap.refund_locktime_offset == state.refund_locktime_offset
}

/// The number of swaps among `entries` that are not completed.
pub open spec fn active_count(entries: Seq<(String, SwapState)>) -> int
    decreases entries.len(),
{
    if entries.len() == 0 {
        0
    } else {
        active_count(entries.drop_last()) + if entries.last().1.phase != SwapPhase::Completed {
            1int
        } else {
            0int
        }
    }
}

/// The amounts of the swaps among `entries` that are not completed, in all.
pub open spec fn reserved_amount(entries: Seq<(String, SwapState)>) -> int
    decreases entries.len(),
{
    if entries.len() == 0 {
        0
    } else {
        reserved_amount(entries.drop_last()) + if entries.last().1.phase != SwapPhase::Completed {
            entries.last().1.swap_amount as int
        } else {
            0int
        }
    }
}

/// More entries never reserve less.
proof fn lemma_reserved_grows(entries: Seq<(String, SwapState)>, n: int)
    requires
        0 <= n <= entries.len(),
    ensures
        0 <= reserved_amount(entries.subrange(0, n)) <= reserved_amount(entries),
        0 <= active_count(entries.subrange(0, n)) <= n,
    decreases entries.len(), n,
{
    if n == entries.len() {
        assert(entries.subrange(0, n) =~= entries);
        if n > 0 {
            lemma_reserved_grows(entries.drop_last(), n - 1);
            assert(entries.drop_last().subrange(0, n - 1) =~= entries.drop_last());
        }
    } else {
        lemma_reserved_grows(entries.drop_last(), n);
        assert(entries.drop_last().subrange(0, n) =~= entries.subrange(0, n));
    }
}

/// Idle swap data returned by [`OngoingSwaps::drain_idle_swaps`].
#[derive(Debug)]
pub struct IdleSwapData {
    /// Unique swap identifier.
    pub swap_id: String,
    /// Protocol version used for this swap.
    pub protocol: ProtocolVersion,
    /// Swap amount in satoshis.
    pub swap_amount_sat: u64,
    /// Incoming swap coins.
    pub incoming_swapcoins: Vec<IncomingSwapCoin>,
    /// Outgoing swap coins.
    pub outgoing_swapcoins: Vec<OutgoingSwapCoin>,
    /// Whether the funding transactions were broadcast.
    pub funding_broadcast: bool,
}

/// Whether a swap has been idle for longer than the timeout.
pub open spec fn is_idle(swap: SwapState, now: u64, timeout: u64) -> bool {
    now >= swap.last_activity && now - swap.last_activity > timeout
}

/// An accepted swap with no funding material only reserves liquidity: once it
/// is idle, it is dropped without recovery.
pub open spec fn is_released(swap: SwapState, now: u64, timeout: u64) -> bool {
    &&& swap.phase == SwapPhase::AwaitingContractData
    &&& swap.incoming_swapcoins@.len() == 0
    &&& swap.outgoing_swapcoins@.len() == 0
    &&& swap.pending_funding_txes@.len() == 0
    &&& !swap.funding_broadcast
    &&& is_idle(swap, now, timeout)
}

/// A swap with outgoing coins is handed to recovery once it is idle or its
/// refund deadline has passed.
pub open spec fn is_stale(swap: SwapState, overdue: bool, now: u64, timeout: u64) -> bool {
    swap.outgoing_swapcoins@.len() > 0 && (overdue || is_idle(swap, now, timeout))
}

/// Whether `id` is among the ids of overdue swaps.
pub open spec fn among(ids: Seq<String>, id: Seq<char>) -> bool {
    exists|i: int| 0 <= i < ids.len() && (#[trigger] ids[i])@ == id
}

/// Whether an entry leaves the table when idle swaps are drained.
pub open spec fn leaves(
    entry: (String, SwapState),
    overdue: Seq<String>,
    now: u64,
    timeout: u64,
) -> bool {
    is_released(entry.1, now, timeout) || is_stale(
        entry.1,
        among(overdue, entry.0@),
        now,
        timeout,
    )
}

/// The entries that stay when idle swaps are drained.
pub open spec fn kept(
    entries: Seq<(String, SwapState)>,
    overdue: Seq<String>,
    now: u64,
    timeout: u64,
) -> Seq<(String, SwapState)>
    decreases entries.len(),
{
    if entries.len() == 0 {
        seq![]
    } else {
        let before = kept(entries.drop_last(), overdue, now, timeout);
        if leaves(entries.last(), overdue, now, timeout) {
            before
        } else {
            before.push(entries.last())
        }
    }
}

/// The entries that are handed to recovery when idle swaps are drained.
pub open spec fn drained(
    entries: Seq<(String, SwapState)>,
    overdue: Seq<String>,
    now: u64,
    timeout: u64,
) -> Seq<(String, SwapState)>
    decreases entries.len(),
{
    if entries.len() == 0 {
        seq![]
    } else {
        let before = drained(entries.drop_last(), overdue, now, timeout);
        let last = entries.last();
        if is_stale(last.1, among(overdue, last.0@), now, timeout) {
            before.push(last)
        } else {
            before
        }
    }
}

/// What decides whether the refund deadline of a swap has passed, besides the
/// height of the chain.
#[derive(Debug)]
pub struct SwapDeadline {
    /// The swap.
    pub swap_id: String,
    /// Its protocol.
    pub protocol: ProtocolVersion,
    /// Its time lock.
    pub timelock: u32,
    /// The height that its incoming funding confirmed at, where known.
    pub funding_confirmation_height: Option<u32>,
}

impl View for SwapDeadline {
    type V = (Seq<char>, ProtocolVersion, u32, Option<u32>);

    open spec fn view(&self) -> (Seq<char>, ProtocolVersion, u32, Option<u32>) {
        (self.swap_id@, self.protocol, self.timelock, self.funding_confirmation_height)
    }
}

/// What a list of deadlines holds.
pub open spec fn deadline_models(items: Seq<SwapDeadline>) -> Seq<
    (Seq<char>, ProtocolVersion, u32, Option<u32>),
> {
    items.map_values(|item: SwapDeadline| item@)
}

/// What decides whether the refund deadline of a swap has passed, for every swap
/// with outgoing coins, in order.
pub open spec fn deadlines_of(entries: Seq<(String, SwapState)>) -> Seq<
    (Seq<char>, ProtocolVersion, u32, Option<u32>),
>
    decreases entries.len(),
{
    if entries.len() == 0 {
        seq![]
    } else {
        let before = deadlines_of(entries.drop_last());
        let (id, swap) = entries.last();
        if swap.outgoing_swapcoins@.len() > 0 {
            before.push((id@, swap.protocol, swap.timelock, swap.funding_confirmation_height))
        } else {
            before
        }
    }
}

/// Whether idle swap data carries an entry of the table.
pub open spec fn carries(idle: IdleSwapData, entry: (String, SwapState)) -> bool {
    &&& idle.swap_id@ == entry.0@
    &&& idle.protocol == entry.1.protocol
    &&& idle.swap_amount_sat == entry.1.swap_amount
    &&& idle.incoming_swapcoins == entry.1.incoming_swapcoins
    &&& idle.outgoing_swapcoins == entry.1.outgoing_swapcoins
    &&& idle.funding_broadcast == entry.1.funding_broadcast
}

/// The outputs that the entries other than `id` have reserved, in order.
pub open spec fn reserved_by_others(entries: Seq<(String, SwapState)>, id: Seq<char>) -> Seq<
    OutPoint,
>
    decreases entries.len(),
{
    if entries.len() == 0 {
        seq![]
    } else {
        let before = reserved_by_others(entries.drop_last(), id);
        if entries.last().0@ != id {
            before + entries.last().1.reserve_utxo@
        } else {
            before
        }
    }
}

/// Whether a string is among others.
fn is_among(ids: &Vec<String>, id: &str) -> (r: bool)
    ensures
        r == among(ids@, id@),
{
    let mut i: usize = 0;
    while i < ids.len()
        invariant
            i <= ids.len(),
            forall|j: int| 0 <= j < i ==> (#[trigger] ids@[j])@ != id@,
        decreases ids.len() - i,
    {
        if str_equal(ids[i].as_str(), id) {
            return true;
        }
        i += 1;
    }
    false
}

/// The swaps that a maker is serving, by swap id.
#[derive(Debug)]
pub struct OngoingSwaps {
    swaps: Table<SwapState>,
}

impl OngoingSwaps {
    /// The swaps in the order in which they were accepted.
    pub closed spec fn entries(&self) -> Seq<(String, SwapState)> {
        self.swaps.entries()
    }

    /// No two swaps have the same id.
    pub open spec fn wf(&self) -> bool {
        distinct_keys(self.entries())
    }

    /// What the table holds, by swap id.
    pub open spec fn view(&self) -> Map<Seq<char>, SwapModel> {
        contents(self.entries()).map_values(|swap: SwapState| swap@)
    }

    /// A table without swaps.
    pub fn new() -> (r: Self)
        ensures
            r.wf(),
            r.entries().len() == 0,
            r@ == Map::<Seq<char>, SwapModel>::empty(),
    {
        let r = OngoingSwaps { swaps: Table::new() };
        assert(r@ =~= Map::<Seq<char>, SwapModel>::empty());
        r
    }

    /// The stored state of a swap.
    pub fn get(&self, swap_id: &str) -> (r: Option<&SwapState>)
        requires
            self.wf(),
        ensures
            match r {
                Some(swap) => self@.dom().contains(swap_id@) && swap@ == self@[swap_id@],
                None => !self@.dom().contains(swap_id@),
            },
    {
        self.swaps.get(swap_id)
    }

    /// The number of swaps that are not completed.
    pub fn active_swaps(&self) -> (r: usize)
        requires
            self.wf(),
        ensures
            r == active_count(self.entries()),
    {
        let mut count: usize = 0;
        let mut i: usize = 0;
        assert(self.entries().subrange(0, 0).len() == 0);
        while i < self.swaps.len()
            invariant
                i <= self.entries().len(),
                self.entries() == self.swaps.entries(),
                count <= i,
                count == active_count(self.entries().subrange(0, i as int)),
            decreases self.entries().len() - i,
        {
            proof {
                let next = self.entries().subrange(0, i + 1);
                assert(next.drop_last() =~= self.entries().subrange(0, i as int));
                assert(next.last() == self.entries()[i as int]);
            }
            if self.swaps.value_at(i).phase != SwapPhase::Completed {
                count += 1;
            }
            i += 1;
        }
        assert(self.entries().subrange(0, i as int) =~= self.entries());
        count
    }

    /// The amounts of the swaps that are not completed, where their sum is an
    /// amount.
    pub fn reserved_liquidity(&self) -> (r: Option<u64>)
        requires
            self.wf(),
        ensures
            match r {
                Some(total) => total == reserved_amount(self.entries()),
                None => reserved_amount(self.entries()) > u64::MAX,
            },
    {
        let mut total: u64 = 0;
        let mut i: usize = 0;
        assert(self.entries().subrange(0, 0).len() == 0);
        while i < self.swaps.len()
            invariant
                i <= self.entries().len(),
                self.entries() == self.swaps.entries(),
                total == reserved_amount(self.entries().subrange(0, i as int)),
            decreases self.entries().len() - i,
        {
            proof {
                let next = self.entries().subrange(0, i + 1);
                assert(next.drop_last() =~= self.entries().subrange(0, i as int));
                assert(next.last() == self.entries()[i as int]);
                lemma_reserved_grows(self.entries(), i + 1);
            }
            let swap = self.swaps.value_at(i);
            if swap.phase != SwapPhase::Completed {
                match total.checked_add(swap.swap_amount) {
                    Some(sum) => {
                        total = sum;
                    },
                    None => {
                        return None;
                    },
                }
            }
            i += 1;
        }
        assert(self.entries().subrange(0, i as int) =~= self.entries());
        Some(total)
    }

    /// Whether a new swap of `requested` satoshis is admitted, given the
    /// liquidity of the wallet.
    pub open spec fn admission_verdict(&self, available: u64, requested: u64) -> Result<
        (),
        MakerError,
    > {
        if active_count(self.entries()) >= MAX_CONCURRENT_SWAPS {
            Err(MakerError::TooManySwaps)
        } else if available < reserved_amount(self.entries()) + requested {
            Err(
                MakerError::InsufficientLiquidity {
                    available,
                    reserved: reserved_amount(self.entries()) as u64,
                    requested,
                },
            )
        } else {
            Ok(())
        }
    }

    /// What storing a connection's state is rejected for. `liquidity` is that
    /// of the wallet where the state is an admission.
    pub open spec fn store_verdict(
        &self,
        swap_id: Seq<char>,
        state: StateModel,
        liquidity: Option<u64>,
    ) -> Result<(), MakerError> {
        match liquidity {
            None => Ok(()),
            Some(available) => if !self@.dom().contains(swap_id) {
                self.admission_verdict(available, state.swap_amount)
            } else if same_terms(self@[swap_id], state) {
                Ok(())
            } else {
                Err(MakerError::SwapParamMismatch)
            },
        }
    }

    /// What stands under a swap's id once a connection's state is stored. A
    /// repeated admission only refreshes the idle timer.
    pub open spec fn stored_swap(
        &self,
        swap_id: Seq<char>,
        state: StateModel,
        admission: bool,
        now: u64,
    ) -> SwapModel {
        if self@.dom().contains(swap_id) && admission {
            SwapModel { last_activity: now, ..self@[swap_id] }
        } else if self@.dom().contains(swap_id) {
            stored_model(state, self@[swap_id].funding_confirmation_height, now)
        } else {
            stored_model(state, None, now)
        }
    }

    /// Store a connection's state under the swap's id. With `liquidity`, that
    /// of the wallet, the state is an admission: a new swap must fit beside
    /// the active ones, and a repeated one must have the stored terms.
    pub fn store_connection_state(
        &mut self,
        swap_id: &str,
        state: &ConnectionState,
        liquidity: Option<u64>,
        now: u64,
    ) -> (r: Result<(), MakerError>)
        requires
            old(self).wf(),
            liquidity is Some && !old(self)@.dom().contains(swap_id@) && active_count(
                old(self).entries(),
            ) < MAX_CONCURRENT_SWAPS ==> reserved_amount(old(self).entries()) + state.swap_amount
                <= u64::MAX,
        ensures
            final(self).wf(),
            r == old(self).store_verdict(swap_id@, state@, liquidity),
            r is Ok ==> final(self)@ == old(self)@.insert(
                swap_id@,
                old(self).stored_swap(swap_id@, state@, liquidity is Some, now),
            ),
            r is Ok ==> placed(old(self).entries(), final(self).entries(), swap_id@),
            r is Err ==> *final(self) == *old(self),
            r is Ok && !old(self)@.dom().contains(swap_id@) ==> {
                &&& final(self).entries().drop_last() == old(self).entries()
                &&& final(self).entries().len() == old(self).entries().len() + 1
                &&& final(self).entries().last().1@ == stored_model(state@, None, now)
            },
    {
        let ghost before = *self;
        let known = self.swaps.find(swap_id);
        if let Some(available) = liquidity {
            match known {
                None => {
                    if self.active_swaps() >= MAX_CONCURRENT_SWAPS {
                        return Err(MakerError::TooManySwaps);
                    }
                    let reserved: u64 = match self.reserved_liquidity() {
                        Some(total) => total,
                        None => 0,
                    };
                    if available < reserved + state.swap_amount {
                        return Err(
                            MakerError::InsufficientLiquidity {
                                available,
                                reserved,
                                requested: state.swap_amount,
                            },
                        );
                    }
                },
                Some(i) => {
                    let swap = self.swaps.value_at(i);
                    if swap.swap_amount != state.swap_amount || swap.tx_count != state.tx_count
                        || swap.timelock != state.timelock || swap.protocol != state.protocol
                        || swap.refund_locktime_offset != state.refund_locktime_offset {
                        return Err(MakerError::SwapParamMismatch);
                    }
                    if let Some(swap) = self.swaps.get_mut(swap_id) {
                        swap.last_activity = now;
                    }
                    proof {
                        lemma_mapped_insert(
                            before.entries(),
                            self.entries(),
                            swap_id@,
                            SwapModel { last_activity: now, ..before@[swap_id@] },
                        );
                    }
                    return Ok(());
                },
            }
        }
        let funding_confirmation_height: Option<u32> = match known {
            Some(i) => self.swaps.value_at(i).funding_confirmation_height,
            None => None,
        };
        let swap = SwapState {
            swap_amount: state.swap_amount,
            tx_count: state.tx_count,
            timelock: state.timelock,
            protocol: state.protocol,
            phase: state.phase,
            incoming_swapcoins: copy_incoming(&state.incoming_swapcoins),
            outgoing_swapcoins: copy_outgoing(&state.outgoing_swapcoins),
            pending_funding_txes: copy_txs(&state.pending_funding_txes),
            funding_broadcast: state.funding_broadcast,
            contract_feerate: state.contract_feerate,
            service_fee_sats: state.service_fee_sats,
            reserve_utxo: copy_outpoints(&state.reserve_utxo),
            last_activity: now,
            swap_start_time: state.swap_start_time,
            refund_locktime_offset: state.refund_locktime_offset,
            funding_confirmation_height,
            outgoing_tx_count: state.outgoing_tx_count,
        };
        let ghost model = swap@;
        self.swaps.insert(swap_id.to_owned(), swap);
        proof {
            lemma_mapped_insert(before.entries(), self.entries(), swap_id@, model);
            if !before@.dom().contains(swap_id@) {
                assert(self.entries().drop_last() =~= before.entries());
            }
        }
        Ok(())
    }

    /// The state of a connection that resumes a stored swap.
    pub fn get_connection_state(&self, swap_id: &str) -> (r: Option<ConnectionState>)
        requires
            self.wf(),
        ensures
            match r {
                Some(state) => self@.dom().contains(swap_id@) && state@ == resumed_state(
                    self@[swap_id@],
                    swap_id@,
                ),
                None => !self@.dom().contains(swap_id@),
            },
    {
        match self.get(swap_id) {
            None => None,
            Some(s) => Some(
                ConnectionState {
                    protocol: s.protocol,
                    phase: s.phase,
                    swap_id: Some(swap_id.to_owned()),
                    swap_amount: s.swap_amount,
                    tx_count: s.tx_count,
                    timelock: s.timelock,
                    incoming_swapcoins: copy_incoming(&s.incoming_swapcoins),
                    outgoing_swapcoins: copy_outgoing(&s.outgoing_swapcoins),
                    pending_funding_txes: copy_txs(&s.pending_funding_txes),
                    funding_broadcast: s.funding_broadcast,
                    contract_feerate: s.contract_feerate,
                    service_fee_sats: s.service_fee_sats,
                    reserve_utxo: copy_outpoints(&s.reserve_utxo),
                    last_activity: s.last_activity,
                    swap_start_time: s.swap_start_time,
                    refund_locktime_offset: s.refund_locktime_offset,
                    outgoing_tx_count: s.outgoing_tx_count,
                },
            ),
        }
    }

    /// Remove a completed swap.
    pub fn remove_swap_state(&mut self, swap_id: &str)
        requires
            old(self).wf(),
        ensures
            final(self).wf(),
            final(self)@ == old(self)@.remove(swap_id@),
            final(self).entries() == without(old(self).entries(), swap_id@),
    {
        let ghost before = *self;
        self.swaps.remove(swap_id);
        assert(self@ =~= before@.remove(swap_id@));
    }

    /// Check if any swaps are currently in progress.
    pub fn has_ongoing_swaps(&self) -> (r: bool)
        ensures
            r == (self.entries().len() > 0),
    {
        self.swaps.len() > 0
    }

    /// Records the height that the incoming funding of a swap confirmed at,
    /// where the swap is stored.
    pub fn record_confirmation(&mut self, swap_id: &str, height: u32)
        requires
            old(self).wf(),
        ensures
            final(self).wf(),
            final(self)@ == if old(self)@.dom().contains(swap_id@) {
                old(self)@.insert(
                    swap_id@,
                    SwapModel {
                        funding_confirmation_height: Some(height),
                        ..old(self)@[swap_id@]
                    },
                )
            } else {
                old(self)@
            },
            if old(self)@.dom().contains(swap_id@) {
                placed(old(self).entries(), final(self).entries(), swap_id@)
            } else {
                final(self).entries() == old(self).entries()
            },
    {
        let ghost before = *self;
        match self.swaps.get_mut(swap_id) {
            Some(swap) => {
                swap.funding_confirmation_height = Some(height);
                proof {
                    lemma_mapped_insert(
                        before.entries(),
                        self.entries(),
                        swap_id@,
                        SwapModel {
                            funding_confirmation_height: Some(height),
                            ..before@[swap_id@]
                        },
                    );
                }
            },
            None => {},
        }
    }

    /// Records that a swap was active at the moment `now`, where the swap is
    /// stored.
    pub fn record_activity(&mut self, swap_id: &str, now: u64)
        requires
            old(self).wf(),
        ensures
            final(self).wf(),
            final(self)@ == if old(self)@.dom().contains(swap_id@) {
                old(self)@.insert(
                    swap_id@,
                    SwapModel { last_activity: now, ..old(self)@[swap_id@] },
                )
            } else {
                old(self)@
            },
            if old(self)@.dom().contains(swap_id@) {
                placed(old(self).entries(), final(self).entries(), swap_id@)
            } else {
                final(self).entries() == old(self).entries()
            },
    {
        let ghost before = *self;
        match self.swaps.get_mut(swap_id) {
            Some(swap) => {
                swap.last_activity = now;
                proof {
                    lemma_mapped_insert(
                        before.entries(),
                        self.entries(),
                        swap_id@,
                        SwapModel { last_activity: now, ..before@[swap_id@] },
                    );
                }
            },
            None => {},
        }
    }

    /// The outputs that other swaps have reserved.
    pub fn collect_excluded_utxos(&self, current_swap_id: &str) -> (r: Vec<OutPoint>)
        requires
            self.wf(),
        ensures
            r@ == reserved_by_others(self.entries(), current_swap_id@),
    {
        let mut out: Vec<OutPoint> = Vec::new();
        let mut i: usize = 0;
        assert(self.entries().subrange(0, 0).len() == 0);
        while i < self.swaps.len()
            invariant
                i <= self.entries().len(),
                self.entries() == self.swaps.entries(),
                out@ == reserved_by_others(
                    self.entries().subrange(0, i as int),
                    current_swap_id@,
                ),
            decreases self.entries().len() - i,
        {
            proof {
                let next = self.entries().subrange(0, i + 1);
                assert(next.drop_last() =~= self.entries().subrange(0, i as int));
                assert(next.last() == self.entries()[i as int]);
            }
            if !str_equal(self.swaps.key_at(i).as_str(), current_swap_id) {
                let mut points = copy_outpoints(&self.swaps.value_at(i).reserve_utxo);
                out.append(&mut points);
            }
            i += 1;
        }
        assert(self.entries().subrange(0, i as int) =~= self.entries());
        out
    }

    /// What decides whether the refund deadline of a swap has passed, for every
    /// swap with outgoing coins.
    pub fn deadlines(&self) -> (r: Vec<SwapDeadline>)
        ensures
            deadline_models(r@) == deadlines_of(self.entries()),
    {
        let mut out: Vec<SwapDeadline> = Vec::new();
        let mut i: usize = 0;
        assert(self.entries().subrange(0, 0).len() == 0);
        assert(deadline_models(out@) =~= deadlines_of(self.entries().subrange(0, 0)));
        while i < self.swaps.len()
            invariant
                i <= self.entries().len(),
                self.entries() == self.swaps.entries(),
                deadline_models(out@) == deadlines_of(self.entries().subrange(0, i as int)),
            decreases self.entries().len() - i,
        {
            proof {
                let next = self.entries().subrange(0, i + 1);
                assert(next.drop_last() =~= self.entries().subrange(0, i as int));
                assert(next.last() == self.entries()[i as int]);
            }
            let swap = self.swaps.value_at(i);
            if swap.outgoing_swapcoins.len() > 0 {
                let deadline = SwapDeadline {
                    swap_id: self.swaps.key_at(i).clone(),
                    protocol: swap.protocol,
                    timelock: swap.timelock,
                    funding_confirmation_height: swap.funding_confirmation_height,
                };
                let ghost before = out@;
                out.push(deadline);
                assert(deadline_models(out@) =~= deadline_models(before).push(deadline@));
            }
            i += 1;
        }
        assert(self.entries().subrange(0, i as int) =~= self.entries());
        out
    }

    /// Releases stale reservations without funding and drains the swaps that
    /// need recovery. `overdue` are the ids of the swaps whose refund deadline
    /// has passed.
    pub fn drain_idle_swaps(&mut self, overdue: &Vec<String>, now: u64, timeout: u64) -> (r: Vec<
        IdleSwapData,
    >)
        requires
            old(self).wf(),
        ensures
            final(self).wf(),
            final(self).entries() == kept(old(self).entries(), overdue@, now, timeout),
            r@.len() == drained(old(self).entries(), overdue@, now, timeout).len(),
            forall|i: int|
                0 <= i < r@.len() ==> carries(
                    #[trigger] r@[i],
                    drained(old(self).entries(), overdue@, now, timeout)[i],
                ),
    {
        let ghost all = self.entries();
        let ghost mut done: int = 0;
        let mut idle: Vec<IdleSwapData> = Vec::new();
        let mut i: usize = 0;
        assert(all.subrange(0, 0).len() == 0);
        assert(all.subrange(0, all.len() as int) =~= all);
        assert(kept(all.subrange(0, 0), overdue@, now, timeout) + all =~= all);
        while i < self.swaps.len()
            invariant
                self.wf(),
                0 <= done <= all.len(),
                self.entries() == self.swaps.entries(),
                i == kept(all.subrange(0, done), overdue@, now, timeout).len(),
                self.entries() == kept(all.subrange(0, done), overdue@, now, timeout)
                    + all.subrange(done, all.len() as int),
                idle@.len() == drained(all.subrange(0, done), overdue@, now, timeout).len(),
                forall|k: int|
                    0 <= k < idle@.len() ==> carries(
                        #[trigger] idle@[k],
                        drained(all.subrange(0, done), overdue@, now, timeout)[k],
                    ),
            decreases all.len() - done,
        {
            let ghost here = all[done];
            let ghost held = kept(all.subrange(0, done), overdue@, now, timeout);
            let ghost rest = all.subrange(done, all.len() as int);
            proof {
                let next = all.subrange(0, done + 1);
                assert(next.drop_last() =~= all.subrange(0, done));
                assert(next.last() == here);
                assert(self.entries()[i as int] == rest[0]);
            }
            let late = is_among(overdue, self.swaps.key_at(i).as_str());
            let swap = self.swaps.value_at(i);
            let idle_now = now >= swap.last_activity && now - swap.last_activity > timeout;
            let released = swap.phase == SwapPhase::AwaitingContractData
                && swap.incoming_swapcoins.len() == 0 && swap.outgoing_swapcoins.len() == 0
                && swap.pending_funding_txes.len() == 0 && !swap.funding_broadcast && idle_now;
            let stale = swap.outgoing_swapcoins.len() > 0 && (late || idle_now);
            if stale {
                let swap_id = self.swaps.key_at(i).clone();
                let state = self.swaps.remove_at(i);
                idle.push(
                    IdleSwapData {
                        swap_id,
                        protocol: state.protocol,
                        swap_amount_sat: state.swap_amount,
                        incoming_swapcoins: state.incoming_swapcoins,
                        outgoing_swapcoins: state.outgoing_swapcoins,
                        funding_broadcast: state.funding_broadcast,
                    },
                );
                proof {
                    assert((held + rest).remove(i as int) =~= held + all.subrange(
                        done + 1,
                        all.len() as int,
                    ));
                }
            } else if released {
                self.swaps.remove_at(i);
                proof {
                    assert((held + rest).remove(i as int) =~= held + all.subrange(
                        done + 1,
                        all.len() as int,
                    ));
                }
            } else {
                i += 1;
                proof {
                    assert(held + rest =~= held.push(here) + all.subrange(
                        done + 1,
                        all.len() as int,
                    ));
                }
            }
            proof {
                done = done + 1;
            }
        }
        proof {
            assert(done == all.len());
            assert(all.subrange(0, done) =~= all);
            assert(kept(all, overdue@, now, timeout) + all.subrange(done, all.len() as int)
                =~= kept(all, overdue@, now, timeout));
        }
        idle
    }

    /// Finds an outgoing coin of an ongoing legacy swap by the script of its
    /// two keys.
    pub fn find_outgoing_swapcoin(
        &self,
        multisig_redeemscript: &[u8],
        scripts: &Vec<TwoKeyScript>,
    ) -> (r: Option<&OutgoingSwapCoin>)
        requires
            self.wf(),
        ensures
            match r {
                Some(coin) => spends_script(*coin, multisig_redeemscript@, scripts@) && exists|
                    i: int,
                    j: int,
                |
                    0 <= i < self.entries().len() && 0 <= j
                        < self.entries()[i].1.outgoing_swapcoins@.len()
                        && #[trigger] self.entries()[i].1.outgoing_swapcoins@[j] == *coin,
                None => forall|i: int, j: int|
                    0 <= i < self.entries().len() && 0 <= j
                        < self.entries()[i].1.outgoing_swapcoins@.len() ==> !spends_script(
                        #[trigger] self.entries()[i].1.outgoing_swapcoins@[j],
                        multisig_redeemscript@,
                        scripts@,
                    ),
            },
    {
        let mut i: usize = 0;
        while i < self.swaps.len()
            invariant
                i <= self.entries().len(),
                self.entries() == self.swaps.entries(),
                forall|a: int, b: int|
                    0 <= a < i && 0 <= b < self.entries()[a].1.outgoing_swapcoins@.len()
                        ==> !spends_script(
                        #[trigger] self.entries()[a].1.outgoing_swapcoins@[b],
                        multisig_redeemscript@,
                        scripts@,
                    ),
            decreases self.entries().len() - i,
        {
            let coins = &self.swaps.value_at(i).outgoing_swapcoins;
            let mut j: usize = 0;
            while j < coins.len()
                invariant
                    i < self.entries().len(),
                    *coins == self.entries()[i as int].1.outgoing_swapcoins,
                    j <= coins.len(),
                    forall|b: int|
                        0 <= b < j ==> !spends_script(
                            #[trigger] coins@[b],
                            multisig_redeemscript@,
                            scripts@,
                        ),
                decreases coins.len() - j,
            {
                let coin = &coins[j];
                if is_of_script(coin, multisig_redeemscript, scripts) {
                    assert(self.entries()[i as int].1.outgoing_swapcoins@[j as int] == *coin);
                    return Some(coin);
                }
                j += 1;
            }
            i += 1;
        }
        None
    }

    /// Whether two keys are those of an outgoing legacy coin.
    pub open spec fn has_keys(&self, keys: (PublicKey, PublicKey)) -> bool {
        exists|i: int, j: int|
            0 <= i < self.entries().len() && 0 <= j
                < self.entries()[i].1.outgoing_swapcoins@.len() && keys_of(
                #[trigger] self.entries()[i].1.outgoing_swapcoins@[j],
            ) == Some(keys)
    }

    /// The keys of the outgoing legacy coins of the swaps under way, from which
    /// the scripts are made that the coins are found by.
    pub fn key_pairs(&self) -> (r: Vec<(PublicKey, PublicKey)>)
        requires
            self.wf(),
        ensures
            forall|i: int, j: int|
                0 <= i < self.entries().len() && 0 <= j
                    < self.entries()[i].1.outgoing_swapcoins@.len() && keys_of(
                    #[trigger] self.entries()[i].1.outgoing_swapcoins@[j],
                ) is Some ==> r@.contains(
                    keys_of(self.entries()[i].1.outgoing_swapcoins@[j])->0,
                ),
            forall|k: int| 0 <= k < r@.len() ==> self.has_keys(#[trigger] r@[k]),
    {
        let mut pairs: Vec<(PublicKey, PublicKey)> = Vec::new();
        let mut i: usize = 0;
        while i < self.swaps.len()
            invariant
                i <= self.entries().len(),
                self.entries() == self.swaps.entries(),
                forall|a: int, b: int|
                    0 <= a < i && 0 <= b < self.entries()[a].1.outgoing_swapcoins@.len()
                        && keys_of(#[trigger] self.entries()[a].1.outgoing_swapcoins@[b]) is Some
                        ==> pairs@.contains(
                        keys_of(self.entries()[a].1.outgoing_swapcoins@[b])->0,
                    ),
                forall|k: int| 0 <= k < pairs@.len() ==> self.has_keys(#[trigger] pairs@[k]),
            decreases self.entries().len() - i,
        {
            let coins = &self.swaps.value_at(i).outgoing_swapcoins;
            let mut j: usize = 0;
            while j < coins.len()
                invariant
                    i < self.entries().len(),
                    *coins == self.entries()[i as int].1.outgoing_swapcoins,
                    j <= coins.len(),
                    forall|a: int, b: int|
                        0 <= a < i && 0 <= b < self.entries()[a].1.outgoing_swapcoins@.len()
                            && keys_of(
                            #[trigger] self.entries()[a].1.outgoing_swapcoins@[b],
                        ) is Some ==> pairs@.contains(
                            keys_of(self.entries()[a].1.outgoing_swapcoins@[b])->0,
                        ),
                    forall|b: int|
                        0 <= b < j && keys_of(#[trigger] coins@[b]) is Some ==> pairs@.contains(
                            keys_of(coins@[b])->0,
                        ),
                    forall|k: int| 0 <= k < pairs@.len() ==> self.has_keys(#[trigger] pairs@[k]),
                decreases coins.len() - j,
            {
                let ghost before = pairs@;
                if let Some(keys) = two_keys(&coins[j]) {
                    pairs.push(keys);
                    proof {
                        assert forall|pair: (PublicKey, PublicKey)| #[trigger]
                            before.contains(pair) implies pairs@.contains(pair) by {
                            let k = choose|k: int| 0 <= k < before.len() && before[k] == pair;
                            assert(pairs@[k] == pair);
                        }
                        assert(pairs@[before.len() as int] == keys);
                        assert(keys_of(
                            self.entries()[i as int].1.outgoing_swapcoins@[j as int],
                        ) == Some(keys));
                        assert(self.has_keys(keys));
                    }
                }
                j += 1;
            }
            i += 1;
        }
        pairs
    }
}

/// Changing what stands under one key changes the model under that key alone.
proof fn lemma_mapped_insert(
    before: Seq<(String, SwapState)>,
    after: Seq<(String, SwapState)>,
    key: Seq<char>,
    model: SwapModel,
)
    requires
        exists|swap: SwapState|
            swap@ == model && contents(after) == #[trigger] contents(before).insert(key, swap),
    ensures
        contents(after).map_values(|swap: SwapState| swap@) == contents(before).map_values(
            |swap: SwapState| swap@,
        ).insert(key, model),
{
    let swap = choose|swap: SwapState|
        swap@ == model && contents(after) == #[trigger] contents(before).insert(key, swap);
    assert(contents(after).map_values(|swap: SwapState| swap@) =~= contents(before).map_values(
        |swap: SwapState| swap@,
    ).insert(key, model));
}

/// Whether the swaps of a table keep to the cap on their number and to the
/// liquidity of the wallet.
pub open spec fn within_caps(entries: Seq<(String, SwapState)>, available: u64) -> bool {
    active_count(entries) <= MAX_CONCURRENT_SWAPS && reserved_amount(entries) <= available
}

/// A swap that is admitted fits beside the active ones: with it, neither the
/// cap on their number nor the liquidity of the wallet is exceeded.
pub proof fn law_admission_keeps_the_caps(
    swaps: OngoingSwaps,
    swap_id: Seq<char>,
    state: StateModel,
    available: u64,
    now: u64,
    after: Seq<(String, SwapState)>,
)
    requires
        !swaps@.dom().contains(swap_id),
        swaps.store_verdict(swap_id, state, Some(available)) is Ok,
        after.len() == swaps.entries().len() + 1,
        after.drop_last() == swaps.entries(),
        after.last().1@ == stored_model(state, None, now),
    ensures
        within_caps(after, available),
{
}

/// Swap details that come again never change a stored swap, but for its idle
/// timer: with the stored terms they refresh it, with others they are
/// rejected.
pub proof fn law_repeated_details_change_nothing(
    swaps: OngoingSwaps,
    swap_id: Seq<char>,
    state: StateModel,
    available: u64,
    now: u64,
)
    requires
        swaps@.dom().contains(swap_id),
    ensures
        swaps.stored_swap(swap_id, state, true, now) == (SwapModel {
            last_activity: now,
            ..swaps@[swap_id]
        }),
        swaps.store_verdict(swap_id, state, Some(available)) is Ok <==> same_terms(
            swaps@[swap_id],
            state,
        ),
{
}

/// A connection that resumes a swap finds the state that was stored last, but
/// for the moment of the last activity, which is that of the storing.
pub proof fn law_stored_state_is_resumed(
    swaps: OngoingSwaps,
    swap_id: Seq<char>,
    state: StateModel,
    now: u64,
)
    requires
        state.swap_id == Some(swap_id),
    ensures
        resumed_state(
            swaps@.insert(swap_id, swaps.stored_swap(swap_id, state, false, now))[swap_id],
            swap_id,
        ) == (StateModel { last_activity: now, ..state }),
{
}

/// A swap that was active within the timeout stays in the table, unless its
/// refund deadline has passed.
pub proof fn law_active_swap_stays(
    entry: (String, SwapState),
    overdue: Seq<String>,
    now: u64,
    timeout: u64,
)
    requires
        !among(overdue, entry.0@),
        now <= entry.1.last_activity + timeout,
    ensures
        !leaves(entry, overdue, now, timeout),
{
}

/// Every swap that is drained for recovery has outgoing coins, and was idle or
/// overdue; and what is drained was in the table.
pub proof fn law_drained_swaps_need_recovery(
    entries: Seq<(String, SwapState)>,
    overdue: Seq<String>,
    now: u64,
    timeout: u64,
    k: int,
)
    requires
        0 <= k < drained(entries, overdue, now, timeout).len(),
    ensures
        ({
            let entry = drained(entries, overdue, now, timeout)[k];
            &&& entries.contains(entry)
            &&& entry.1.outgoing_swapcoins@.len() > 0
            &&& among(overdue, entry.0@) || is_idle(entry.1, now, timeout)
        }),
    decreases entries.len(),
{
    let earlier = drained(entries.drop_last(), overdue, now, timeout);
    if k < earlier.len() {
        law_drained_swaps_need_recovery(entries.drop_last(), overdue, now, timeout, k);
        let entry = earlier[k];
        let i = choose|i: int| 0 <= i < entries.drop_last().len() && entries.drop_last()[i] == entry;
        assert(entries[i] == entry);
    } else {
        assert(entries.last() == entries[entries.len() - 1]);
    }
}

/// No swap with something to recover is lost when idle swaps are drained: it
/// stays in the table or is handed to recovery.
pub proof fn law_no_swap_is_lost(
    entries: Seq<(String, SwapState)>,
    overdue: Seq<String>,
    now: u64,
    timeout: u64,
    i: int,
)
    requires
        0 <= i < entries.len(),
        !is_released(entries[i].1, now, timeout),
    ensures
        kept(entries, overdue, now, timeout).contains(entries[i]) || drained(
            entries,
            overdue,
            now,
            timeout,
        ).contains(entries[i]),
    decreases entries.len(),
{
    let all_kept = kept(entries, overdue, now, timeout);
    let all_drained = drained(entries, overdue, now, timeout);
    if i == entries.len() - 1 {
        if is_stale(entries[i].1, among(overdue, entries[i].0@), now, timeout) {
            assert(all_drained.last() == entries[i]);
        } else {
            assert(all_kept.last() == entries[i]);
        }
    } else {
        let before = entries.drop_last();
        assert(before[i] == entries[i]);
        law_no_swap_is_lost(before, overdue, now, timeout, i);
        let kept_before = kept(before, overdue, now, timeout);
        let drained_before = drained(before, overdue, now, timeout);
        if kept_before.contains(entries[i]) {
            let k = choose|k: int| 0 <= k < kept_before.len() && kept_before[k] == entries[i];
            assert(all_kept[k] == entries[i]);
        } else {
            let k = choose|k: int| 0 <= k < drained_before.len() && drained_before[k] == entries[i];
            assert(all_drained[k] == entries[i]);
        }
    }
}

/// A new swap is admitted exactly where fewer than thirty are active and the
/// wallet covers what they reserve and what is asked for; the rejection names
/// these amounts.
pub proof fn law_admission_needs_room(swaps: OngoingSwaps, available: u64, requested: u64)
    requires
        reserved_amount(swaps.entries()) <= u64::MAX,
    ensures
        swaps.admission_verdict(available, requested) is Ok <==> active_count(swaps.entries())
            < 30 && reserved_amount(swaps.entries()) + requested <= available,
        active_count(swaps.entries()) >= 30 ==> swaps.admission_verdict(
            available,
            requested,
        ) == Err::<(), MakerError>(MakerError::TooManySwaps),
        swaps.admission_verdict(available, requested) matches Err(
            MakerError::InsufficientLiquidity { available: had, reserved, requested: wanted },
        ) ==> had == available && wanted == requested && reserved == reserved_amount(
            swaps.entries(),
        ) && had < reserved + wanted,
        swaps.entries().len() == 0 ==> (swaps.admission_verdict(available, requested) is Ok
            <==> requested <= available),
{
    if swaps.entries().len() > 0 {
        law_every_active_swap_reserves(swaps.entries(), 0);
    }
}

/// A swap counts, with its amount, until it is completed; how the swaps are
/// listed makes no difference.
pub proof fn law_completed_swaps_reserve_nothing(
    entries: Seq<(String, SwapState)>,
    entry: (String, SwapState),
)
    ensures
        entry.1.phase == SwapPhase::Completed ==> active_count(entries.push(entry))
            == active_count(entries) && reserved_amount(entries.push(entry)) == reserved_amount(
            entries,
        ),
        entry.1.phase != SwapPhase::Completed ==> active_count(entries.push(entry))
            == active_count(entries) + 1 && reserved_amount(entries.push(entry))
            == reserved_amount(entries) + entry.1.swap_amount,
        active_count(Seq::empty()) == 0,
        reserved_amount(Seq::empty()) == 0,
{
    assert(entries.push(entry).drop_last() =~= entries);
}

/// No more swaps are active than are listed, and each of those that are not
/// completed takes its amount from what is free.
pub proof fn law_every_active_swap_reserves(entries: Seq<(String, SwapState)>, i: int)
    requires
        0 <= i < entries.len(),
    ensures
        0 <= active_count(entries) <= entries.len(),
        0 <= reserved_amount(entries),
        entries[i].1.phase != SwapPhase::Completed ==> active_count(entries) >= 1
            && reserved_amount(entries) >= entries[i].1.swap_amount,
    decreases entries.len(),
{
    if i < entries.len() - 1 {
        law_every_active_swap_reserves(entries.drop_last(), i);
        assert(entries.drop_last()[i] == entries[i]);
    } else if entries.len() > 1 {
        law_every_active_swap_reserves(entries.drop_last(), 0);
    } else {
        assert(entries.drop_last().len() == 0);
        assert(active_count(entries.drop_last()) == 0);
        assert(reserved_amount(entries.drop_last()) == 0);
    }
}

/// A swap is idle once more than the timeout has passed since its last
/// activity, not before, and not where the clock went back.
pub proof fn law_idle_after_the_timeout(swap: SwapState, now: u64, timeout: u64)
    ensures
        is_idle(swap, now, timeout) <==> now > swap.last_activity + timeout,
        now <= swap.last_activity ==> !is_idle(swap, now, timeout),
{
}

/// A swap is dropped without recovery exactly where it is idle, was only
/// accepted, and holds neither a coin nor a funding transaction, of which none
/// was broadcast; such a swap is never handed to recovery.
pub proof fn law_only_bare_reservations_are_released(
    swap: SwapState,
    overdue: bool,
    now: u64,
    timeout: u64,
)
    ensures
        is_released(swap, now, timeout) <==> {
            &&& now > swap.last_activity + timeout
            &&& swap.phase == SwapPhase::AwaitingContractData
            &&& swap.incoming_swapcoins@.len() + swap.outgoing_swapcoins@.len()
                + swap.pending_funding_txes@.len() == 0
            &&& !swap.funding_broadcast
        },
        is_released(swap, now, timeout) ==> !is_stale(swap, overdue, now, timeout),
        is_stale(swap, overdue, now, timeout) <==> swap.outgoing_swapcoins@.len() > 0 && (overdue
            || now > swap.last_activity + timeout),
{
}

/// Every swap with outgoing coins that is idle or overdue is handed to recovery
/// and is no longer in the table, where no other entry equals it.
pub proof fn law_stale_swaps_are_recovered(
    entries: Seq<(String, SwapState)>,
    overdue: Seq<String>,
    now: u64,
    timeout: u64,
    i: int,
)
    requires
        0 <= i < entries.len(),
        entries[i].1.outgoing_swapcoins@.len() > 0,
        now > entries[i].1.last_activity + timeout || among(overdue, entries[i].0@),
    ensures
        drained(entries, overdue, now, timeout).contains(entries[i]),
        !kept(entries, overdue, now, timeout).contains(entries[i]),
    decreases entries.len(),
{
    let last = entries.last();
    let before = drained(entries.drop_last(), overdue, now, timeout);
    if i < entries.len() - 1 {
        assert(entries.drop_last()[i] == entries[i]);
        law_stale_swaps_are_recovered(entries.drop_last(), overdue, now, timeout, i);
        let k = choose|k: int| 0 <= k < before.len() && before[k] == entries[i];
        assert(drained(entries, overdue, now, timeout)[k] == entries[i]);
    } else {
        assert(drained(entries, overdue, now, timeout)[before.len() as int] == entries[i]);
    }
    if kept(entries, overdue, now, timeout).contains(entries[i]) {
        let m = choose|m: int|
            0 <= m < kept(entries, overdue, now, timeout).len() && kept(
                entries,
                overdue,
                now,
                timeout,
            )[m] == entries[i];
        law_kept_swaps_are_not_due(entries, overdue, now, timeout, m);
    }
}

/// What stays in the table was in it, and is neither to be recovered nor a bare
/// reservation that is idle.
pub proof fn law_kept_swaps_are_not_due(
    entries: Seq<(String, SwapState)>,
    overdue: Seq<String>,
    now: u64,
    timeout: u64,
    k: int,
)
    requires
        0 <= k < kept(entries, overdue, now, timeout).len(),
    ensures
        ({
            let entry = kept(entries, overdue, now, timeout)[k];
            &&& entries.contains(entry)
            &&& !is_released(entry.1, now, timeout)
            &&& entry.1.outgoing_swapcoins@.len() > 0 ==> !among(overdue, entry.0@) && now
                <= entry.1.last_activity + timeout
        }),
    decreases entries.len(),
{
    let before = kept(entries.drop_last(), overdue, now, timeout);
    if entries.len() > 0 {
        if k < before.len() {
            law_kept_swaps_are_not_due(entries.drop_last(), overdue, now, timeout, k);
            let i = choose|i: int|
                0 <= i < entries.drop_last().len() && entries.drop_last()[i] == before[k];
            assert(entries[i] == before[k]);
        } else {
            assert(entries[entries.len() - 1] == kept(entries, overdue, now, timeout)[k]);
        }
    }
}

/// What is handed to recovery of a swap is all that recovery needs: its id, its
/// amount, its protocol, all of its coins, and whether its funding is out.
pub proof fn law_recovery_gets_the_coins(idle: IdleSwapData, entry: (String, SwapState))
    requires
        carries(idle, entry),
    ensures
        idle.swap_id@ == entry.0@,
        idle.swap_amount_sat == entry.1.swap_amount,
        idle.protocol == entry.1.protocol,
        incoming_models(idle.incoming_swapcoins@) == incoming_models(entry.1.incoming_swapcoins@),
        outgoing_models(idle.outgoing_swapcoins@) == outgoing_models(entry.1.outgoing_swapcoins@),
        idle.funding_broadcast == entry.1.funding_broadcast,
{
}

/// Every swap with outgoing coins, and no other, has its deadline told, with
/// its own time lock and the height that its funding confirmed at.
pub proof fn law_deadlines_are_told(entries: Seq<(String, SwapState)>, i: int, k: int)
    ensures
        0 <= i < entries.len() && entries[i].1.outgoing_swapcoins@.len() > 0 ==> deadlines_of(
            entries,
        ).contains(
            (
                entries[i].0@,
                entries[i].1.protocol,
                entries[i].1.timelock,
                entries[i].1.funding_confirmation_height,
            ),
        ),
        0 <= k < deadlines_of(entries).len() ==> exists|j: int|
            0 <= j < entries.len() && (#[trigger] entries[j]).1.outgoing_swapcoins@.len() > 0
                && deadlines_of(entries)[k] == (
                entries[j].0@,
                entries[j].1.protocol,
                entries[j].1.timelock,
                entries[j].1.funding_confirmation_height,
            ),
    decreases entries.len(),
{
    if entries.len() > 0 {
        law_deadlines_are_told(entries.drop_last(), i, k);
        let before = deadlines_of(entries.drop_last());
        if 0 <= i < entries.len() && entries[i].1.outgoing_swapcoins@.len() > 0 {
            let told = (
                entries[i].0@,
                entries[i].1.protocol,
                entries[i].1.timelock,
                entries[i].1.funding_confirmation_height,
            );
            if i < entries.len() - 1 {
                assert(entries.drop_last()[i] == entries[i]);
                let m = choose|m: int| 0 <= m < before.len() && before[m] == told;
                assert(deadlines_of(entries)[m] == told);
            } else {
                assert(deadlines_of(entries)[before.len() as int] == told);
            }
        }
        if 0 <= k < before.len() {
            let j = choose|j: int|
                0 <= j < entries.drop_last().len() && (#[trigger] entries.drop_last()[j]).1.outgoing_swapcoins@.len()
                    > 0 && before[k] == (
                    entries.drop_last()[j].0@,
                    entries.drop_last()[j].1.protocol,
                    entries.drop_last()[j].1.timelock,
                    entries.drop_last()[j].1.funding_confirmation_height,
                );
            assert(entries[j] == entries.drop_last()[j]);
        } else if 0 <= k < deadlines_of(entries).len() {
            assert(entries[entries.len() - 1].1.outgoing_swapcoins@.len() > 0);
        }
    }
}

/// No output that another swap has reserved is left free, and none is kept from
/// a swap but what others have reserved.
pub proof fn law_reserved_outputs_are_excluded(
    entries: Seq<(String, SwapState)>,
    id: Seq<char>,
    point: OutPoint,
)
    ensures
        reserved_by_others(entries, id).contains(point) <==> exists|i: int|
            0 <= i < entries.len() && (#[trigger] entries[i]).0@ != id
                && entries[i].1.reserve_utxo@.contains(point),
    decreases entries.len(),
{
    if entries.len() > 0 {
        law_reserved_outputs_are_excluded(entries.drop_last(), id, point);
        let before = reserved_by_others(entries.drop_last(), id);
        let own = entries.last().1.reserve_utxo@;
        let all = reserved_by_others(entries, id);
        if entries.last().0@ != id {
            assert(all == before + own);
            if before.contains(point) {
                let k = choose|k: int| 0 <= k < before.len() && before[k] == point;
                assert(all[k] == point);
            }
            if own.contains(point) {
                let k = choose|k: int| 0 <= k < own.len() && own[k] == point;
                assert(all[before.len() + k] == point);
                assert(entries[entries.len() - 1].0@ != id);
            }
            if all.contains(point) {
                let k = choose|k: int| 0 <= k < all.len() && all[k] == point;
                if k < before.len() {
                    assert(before[k] == point);
                } else {
                    assert(own[k - before.len()] == point);
                }
            }
        }
        if before.contains(point) {
            let i = choose|i: int|
                0 <= i < entries.drop_last().len() && (#[trigger] entries.drop_last()[i]).0@ != id
                    && entries.drop_last()[i].1.reserve_utxo@.contains(point);
            assert(entries[i] == entries.drop_last()[i]);
        }
        if exists|i: int|
            0 <= i < entries.len() && (#[trigger] entries[i]).0@ != id
                && entries[i].1.reserve_utxo@.contains(point) {
            let i = choose|i: int|
                0 <= i < entries.len() && (#[trigger] entries[i]).0@ != id
                    && entries[i].1.reserve_utxo@.contains(point);
            if i < entries.len() - 1 {
                assert(entries.drop_last()[i] == entries[i]);
            }
        }
    }
}

/// Details that come again are the stored ones exactly where the amount, the
/// number of transactions, the lock time, the protocol and the offset are.
pub proof fn law_terms_are_five(state: StateModel, again: StateModel, now: u64)
    ensures
        same_terms(stored_model(state, None, now), again) <==> {
            &&& again.swap_amount == state.swap_amount
            &&& again.tx_count == state.tx_count
            &&& again.timelock == state.timelock
            &&& again.protocol == state.protocol
            &&& again.refund_locktime_offset == state.refund_locktime_offset
        },
        same_terms(stored_model(state, None, now), state),
{
}

/// Storing the state of a connection keeps the height that the funding was seen
/// to confirm at, and a swap that was never seen has none.
pub proof fn law_confirmation_height_is_kept(
    swaps: OngoingSwaps,
    swap_id: Seq<char>,
    state: StateModel,
    admission: bool,
    now: u64,
)
    ensures
        swaps@.dom().contains(swap_id) ==> swaps.stored_swap(
            swap_id,
            state,
            admission,
            now,
        ).funding_confirmation_height == swaps@[swap_id].funding_confirmation_height,
        !swaps@.dom().contains(swap_id) ==> swaps.stored_swap(
            swap_id,
            state,
            admission,
            now,
        ).funding_confirmation_height is None,
        swaps.stored_swap(swap_id, state, admission, now).last_activity == now,
{
}

} // verus!
