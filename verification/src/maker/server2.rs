//! The server of the first taproot protocol.

use crate::chain::{outpoint_equal, str_equal, OutPoint, Txid};
use crate::error::MakerError;
use crate::maker::api2::{
    ConnectionState, IncomingSwapCoinV2, OutgoingSwapCoinV2, StateV2Model,
};
use crate::maker::swapcoin::copy_outpoints;
use crate::primitives::{compute_txid, txid_of};
use crate::protocol::messages2::{MakerToTakerMessage, TakerToMakerMessage};
use crate::table::{contents, distinct_keys, lemma_entry, placed, without, Table};
use vstd::prelude::*;

verus! {

/// Nanoseconds after which a swap whose taker is silent counts as dropped: a
/// quarter of an hour.
pub const IDLE_CONNECTION_TIMEOUT: u64 = 900_000_000_000;

/// Seconds between two checks of the swap liquidity.
pub const LIQUIDITY_CHECK_INTERVAL: u64 = 300;

/// Seconds between two pings of the backend.
pub const RPC_PING_INTERVAL: u64 = 9;

/// Seconds after which a fidelity bond is announced again.
pub const ANNOUNCE_INTERVAL: u64 = 1800;

/// Seconds between two looks at the fidelity bond to be announced.
pub const ANNOUNCE_TICK: u64 = 2;

/// A swap under way, with the time, in nanoseconds, at which its taker last
/// sent something.
#[derive(Debug)]
pub struct OngoingSwapV2 {
    pub state: ConnectionState,
    pub last_active: u64,
}

/// The contracts of a swap whose outputs are watched.
#[derive(Debug)]
pub struct WatchedContracts {
    /// The swap.
    pub swap_id: String,
    /// The output of the outgoing contract, looked at first.
    pub outgoing: OutPoint,
    /// The output of the incoming contract.
    pub incoming: OutPoint,
}

/// A swap that was taken off.
#[derive(Debug)]
pub struct DroppedSwap {
    /// The swap.
    pub swap_id: String,
    /// Its contracts, where they had been exchanged; they are to be recovered.
    pub contracts: Option<(IncomingSwapCoinV2, OutgoingSwapCoinV2)>,
}

/// The swaps under way, by their ids.
#[derive(Debug)]
pub struct OngoingSwapsV2 {
    swaps: Table<OngoingSwapV2>,
}

/// The state in which a message is handled, or why it is refused: a request
/// for an offer and new swap details begin afresh, anything else continues a
/// swap.
pub open spec fn state_verdict(
    swaps: Map<Seq<char>, OngoingSwapV2>,
    message: TakerToMakerMessage,
) -> Result<Option<StateV2Model>, MakerError> {
    let id = message.filed_under();
    match message {
        TakerToMakerMessage::GetOffer(_) => Ok(None),
        TakerToMakerMessage::SwapDetails(_) => if swaps.dom().contains(id) {
            Err(MakerError::General("Protocol violation: Found duplicate Swap Details message"))
        } else {
            Ok(None)
        },
        _ => if swaps.dom().contains(id) {
            Ok(Some(swaps[id].state@))
        } else {
            Err(MakerError::General("No connection state found"))
        },
    }
}

/// Whether a swap's contracts have been exchanged.
pub open spec fn has_contracts(swap: OngoingSwapV2) -> bool {
    swap.state.incoming_contract.contract_txid is Some
}

/// Whether the taker of a swap has been silent for too long.
pub open spec fn is_silent(swap: OngoingSwapV2, now: u64) -> bool {
    now - swap.last_active > IDLE_CONNECTION_TIMEOUT
}

/// The outputs reserved for the swaps among `entries` other than `id`, in
/// order.
pub open spec fn reserved_elsewhere(entries: Seq<(String, OngoingSwapV2)>, id: Seq<char>) -> Seq<
    OutPoint,
>
    decreases entries.len(),
{
    if entries.len() == 0 {
        seq![]
    } else {
        let earlier = reserved_elsewhere(entries.drop_last(), id);
        if entries.last().0@ == id {
            earlier
        } else {
            earlier + entries.last().1.state.reserve_utxo@
        }
    }
}

/// What is watched of a swap.
pub open spec fn watches(watched: WatchedContracts, entry: (String, OngoingSwapV2)) -> bool {
    let state = entry.1.state;
    &&& has_contracts(entry.1)
    &&& watched.swap_id@ == entry.0@
    &&& watched.outgoing == (OutPoint {
        txid: txid_of(state.outgoing_contract.contract_tx@),
        vout: 0,
    })
    &&& watched.incoming == (OutPoint {
        txid: state.incoming_contract.contract_txid->0,
        vout: 0,
    })
}

/// The swaps among the first `n` whose contracts have been exchanged, in order.
pub open spec fn exchanged(entries: Seq<(String, OngoingSwapV2)>, n: int) -> Seq<
    (String, OngoingSwapV2),
>
    decreases n,
{
    if n <= 0 {
        seq![]
    } else {
        let earlier = exchanged(entries, n - 1);
        if has_contracts(entries[n - 1].1) {
            earlier.push(entries[n - 1])
        } else {
            earlier
        }
    }
}

/// What is handed over of a swap that was taken off.
pub open spec fn hands_over(dropped: DroppedSwap, id: Seq<char>, swap: OngoingSwapV2) -> bool {
    &&& dropped.swap_id@ == id
    &&& dropped.contracts is Some == has_contracts(swap)
    &&& dropped.contracts matches Some((incoming, outgoing)) ==> {
        &&& incoming@ == swap.state.incoming_contract@
        &&& outgoing@ == swap.state.outgoing_contract@
    }
}

impl OngoingSwapsV2 {
    /// The swaps in the order in which they are walked.
    pub closed spec fn entries(&self) -> Seq<(String, OngoingSwapV2)> {
        self.swaps.entries()
    }

    /// Whether every id stands for one swap.
    pub open spec fn wf(&self) -> bool {
        distinct_keys(self.entries())
    }

    /// The swaps by their ids.
    pub open spec fn view(&self) -> Map<Seq<char>, OngoingSwapV2> {
        contents(self.entries())
    }

    /// No swaps.
    pub fn new() -> (r: Self)
        ensures
            r.wf(),
            r.entries().len() == 0,
            r@ == Map::<Seq<char>, OngoingSwapV2>::empty(),
    {
        OngoingSwapsV2 { swaps: Table::new() }
    }

    /// Whether there are no swaps.
    pub fn is_empty(&self) -> (r: bool)
        ensures
            r == (self.entries().len() == 0),
    {
        self.swaps.len() == 0
    }

    /// The state in which a message is handled.
    pub fn state_for(&self, message: &TakerToMakerMessage) -> (r: Result<
        ConnectionState,
        MakerError,
    >)
        requires
            self.wf(),
        ensures
            match (r, state_verdict(self@, *message)) {
                (Ok(state), Ok(None)) => state.is_fresh(),
                (Ok(state), Ok(Some(stored))) => state@ == stored,
                (Err(e), Err(expected)) => e == expected,
                _ => false,
            },
    {
        let id = message.swap_id();
        match message {
            TakerToMakerMessage::GetOffer(_) => Ok(ConnectionState::default()),
            TakerToMakerMessage::SwapDetails(_) => match self.swaps.get(id.as_str()) {
                Some(_) => Err(
                    MakerError::General("Protocol violation: Found duplicate Swap Details message"),
                ),
                None => Ok(ConnectionState::default()),
            },
            _ => match self.swaps.get(id.as_str()) {
                Some(swap) => Ok(swap.state.clone()),
                None => Err(MakerError::General("No connection state found")),
            },
        }
    }

    /// Keeps the state in which a message was handled, unless the answer is an
    /// offer.
    pub fn keep(
        &mut self,
        swap_id: &String,
        state: &ConnectionState,
        response: &Option<MakerToTakerMessage>,
        now: u64,
    )
        requires
            old(self).wf(),
        ensures
            final(self).wf(),
            match response {
                Some(MakerToTakerMessage::RespOffer(_)) => *final(self) == *old(self),
                _ => {
                    &&& final(self)@.dom() == old(self)@.dom().insert(swap_id@)
                    &&& final(self)@[swap_id@].state@ == state@
                    &&& final(self)@[swap_id@].last_active == now
                    &&& final(self)@.remove(swap_id@) == old(self)@.remove(swap_id@)
                    &&& placed(old(self).entries(), final(self).entries(), swap_id@)
                },
            },
    {
        match response {
            Some(MakerToTakerMessage::RespOffer(_)) => {},
            _ => {
                let kept = OngoingSwapV2 { state: state.clone(), last_active: now };
                self.swaps.insert(swap_id.clone(), kept);
                assert(self@.remove(swap_id@) =~= old(self)@.remove(swap_id@));
                assert(self@.dom() =~= old(self)@.dom().insert(swap_id@));
            },
        }
    }

    /// Ends a swap where the answer that was sent hands over the maker's key:
    /// the swap is taken off, and the id of its outgoing contract, which is no
    /// longer the maker's, is returned.
    pub fn complete(
        &mut self,
        swap_id: &str,
        state: &ConnectionState,
        sent: &MakerToTakerMessage,
    ) -> (r: Option<Txid>)
        requires
            old(self).wf(),
        ensures
            final(self).wf(),
            match sent {
                MakerToTakerMessage::PrivateKeyHandover(_) => {
                    &&& r == Some(txid_of(state.outgoing_contract.contract_tx@))
                    &&& final(self)@ == old(self)@.remove(swap_id@)
                    &&& final(self).entries() == without(old(self).entries(), swap_id@)
                },
                _ => r is None && *final(self) == *old(self),
            },
    {
        match sent {
            MakerToTakerMessage::PrivateKeyHandover(_) => {
                let txid = compute_txid(&state.outgoing_contract.contract_tx);
                let _ = self.swaps.remove(swap_id);
                Some(txid)
            },
            _ => None,
        }
    }

    /// The outputs reserved for other swaps, which coin selection leaves
    /// alone.
    pub fn excluded_utxos(&self, swap_id: &str) -> (r: Vec<OutPoint>)
        requires
            self.wf(),
        ensures
            r@ == reserved_elsewhere(self.entries(), swap_id@),
    {
        let mut points: Vec<OutPoint> = Vec::new();
        let mut i: usize = 0;
        assert(self.entries().take(0) =~= Seq::<(String, OngoingSwapV2)>::empty());
        while i < self.swaps.len()
            invariant
                i <= self.entries().len(),
                points@ == reserved_elsewhere(self.entries().take(i as int), swap_id@),
            decreases self.entries().len() - i,
        {
            let ghost grown = self.entries().take(i + 1);
            assert(grown.drop_last() =~= self.entries().take(i as int));
            if !str_equal(self.swaps.key_at(i).as_str(), swap_id) {
                let mut reserved = copy_outpoints(&self.swaps.value_at(i).state.reserve_utxo);
                points.append(&mut reserved);
            }
            i += 1;
        }
        assert(self.entries().take(i as int) =~= self.entries());
        points
    }

    /// The contracts whose outputs are looked at: those of every swap whose
    /// contracts have been exchanged.
    pub fn watched_contracts(&self) -> (r: Vec<WatchedContracts>)
        requires
            self.wf(),
        ensures
            r@.len() == exchanged(self.entries(), self.entries().len() as int).len(),
            forall|k: int|
                0 <= k < r@.len() ==> watches(
                    #[trigger] r@[k],
                    exchanged(self.entries(), self.entries().len() as int)[k],
                ),
    {
        let mut out: Vec<WatchedContracts> = Vec::new();
        let mut i: usize = 0;
        while i < self.swaps.len()
            invariant
                i <= self.entries().len(),
                out@.len() == exchanged(self.entries(), i as int).len(),
                forall|k: int|
                    0 <= k < out@.len() ==> watches(
                        #[trigger] out@[k],
                        exchanged(self.entries(), i as int)[k],
                    ),
            decreases self.entries().len() - i,
        {
            let ghost before = out@;
            let swap = self.swaps.value_at(i);
            if let Some(txid) = swap.state.incoming_contract.contract_txid {
                let outgoing = compute_txid(&swap.state.outgoing_contract.contract_tx);
                out.push(
                    WatchedContracts {
                        swap_id: self.swaps.key_at(i).clone(),
                        outgoing: OutPoint { txid: outgoing, vout: 0 },
                        incoming: OutPoint { txid, vout: 0 },
                    },
                );
            }
            i += 1;
            assert(forall|k: int| 0 <= k < before.len() ==> out@[k] == before[k]);
        }
        out
    }

    /// Takes off a swap with its contracts: a contract output of it was spent.
    pub fn take_broken(&mut self, swap_id: &str) -> (r: Option<DroppedSwap>)
        requires
            old(self).wf(),
        ensures
            final(self).wf(),
            final(self)@ == old(self)@.remove(swap_id@),
            final(self).entries() == without(old(self).entries(), swap_id@),
            match r {
                Some(dropped) => old(self)@.dom().contains(swap_id@) && hands_over(
                    dropped,
                    swap_id@,
                    old(self)@[swap_id@],
                ),
                None => !old(self)@.dom().contains(swap_id@),
            },
    {
        match self.swaps.remove(swap_id) {
            None => None,
            Some(swap) => Some(drop_swap(swap_id.to_owned(), swap)),
        }
    }

    /// Takes off one swap whose taker has been silent for too long, where
    /// there is one.
    pub fn take_idle(&mut self, now: u64) -> (r: Option<DroppedSwap>)
        requires
            old(self).wf(),
        ensures
            final(self).wf(),
            match r {
                Some(dropped) => {
                    let id = dropped.swap_id@;
                    &&& old(self)@.dom().contains(id)
                    &&& is_silent(old(self)@[id], now)
                    &&& hands_over(dropped, id, old(self)@[id])
                    &&& final(self)@ == old(self)@.remove(id)
                    &&& final(self).entries() == without(old(self).entries(), id)
                },
                None => {
                    &&& *final(self) == *old(self)
                    &&& forall|id: Seq<char>| #[trigger]
                        old(self)@.dom().contains(id) ==> !is_silent(old(self)@[id], now)
                },
            },
    {
        let mut i: usize = 0;
        while i < self.swaps.len()
            invariant
                *self == *old(self),
                self.wf(),
                i <= self.entries().len(),
                forall|k: int|
                    0 <= k < i ==> !is_silent((#[trigger] self.entries()[k]).1, now),
            decreases self.entries().len() - i,
        {
            if now.saturating_sub(self.swaps.value_at(i).last_active) > IDLE_CONNECTION_TIMEOUT {
                proof {
                    lemma_entry(self.entries(), i as int);
                }
                let swap_id = self.swaps.key_at(i).clone();
                let swap = self.swaps.remove_at(i);
                return Some(drop_swap(swap_id, swap));
            }
            i += 1;
        }
        None
    }
}

/// What is handed over of a swap that was taken off.
fn drop_swap(swap_id: String, swap: OngoingSwapV2) -> (r: DroppedSwap)
    ensures
        hands_over(r, swap_id@, swap),
{
    let contracts = match swap.state.incoming_contract.contract_txid {
        None => None,
        Some(_) => Some((swap.state.incoming_contract, swap.state.outgoing_contract)),
    };
    DroppedSwap { swap_id, contracts }
}

/// Whether a swap is broken off: the output of either contract was spent, the
/// outgoing one with the preimage, or the incoming one by its sender.
pub fn is_broken_off(outgoing_spent: bool, incoming_spent: bool) -> (r: bool)
    ensures
        r == (outgoing_spent || incoming_spent),
{
    outgoing_spent || incoming_spent
}

/// How many heart beats lie between two checks that are to be `period` seconds
/// apart; at least one.
pub fn beats_between(period: u64, heart_beat: u64) -> (r: u64)
    ensures
        r >= 1,
        heart_beat == 0 ==> r == if period > 1 {
            period
        } else {
            1
        },
        heart_beat > 0 ==> r == if period / heart_beat > 1 {
            period / heart_beat
        } else {
            1
        },
{
    let beat: u64 = if heart_beat == 0 {
        1
    } else {
        heart_beat
    };
    let beats: u64 = period / beat;
    if beats > 1 {
        beats
    } else {
        1
    }
}

/// Whether the check of the fidelity bond runs on the heart beat `counter`, and
/// the number of the next: a check that is due waits while there are swaps
/// under way.
pub open spec fn fidelity_beat(counter: int, interval: int, swaps_empty: bool) -> (bool, int) {
    if counter % interval != 0 {
        (false, counter + 1)
    } else if swaps_empty {
        (true, counter + 1)
    } else {
        (false, counter)
    }
}

/// Whether the check of the fidelity bond runs on this heart beat, and the
/// number of the next.
pub fn fidelity_check(counter: u64, interval: u64, swaps_empty: bool) -> (r: (bool, u64))
    requires
        interval > 0,
        counter < u64::MAX,
    ensures
        (r.0, r.1 as int) == fidelity_beat(counter as int, interval as int, swaps_empty),
{
    let due = counter % interval == 0;
    let next: u64 = if swaps_empty || !due {
        counter + 1
    } else {
        counter
    };
    (due && swaps_empty, next)
}

/// A fidelity check never runs while swaps are under way, and one that is due
/// is not lost to them: the first heart beat without swaps runs it.
pub proof fn law_due_fidelity_check_is_not_lost(counter: int, interval: int)
    requires
        interval > 0,
    ensures
        !fidelity_beat(counter, interval, false).0,
        counter % interval == 0 ==> {
            let held = fidelity_beat(counter, interval, false).1;
            fidelity_beat(held, interval, true).0
        },
{
}

/// When a fidelity bond is announced: the bond last tried, and the seconds
/// since.
#[derive(Debug)]
pub struct Announcer {
    /// The bond of the last announcement that was tried.
    pub last_attempted: Option<OutPoint>,
    /// The seconds since the last announcement that was tried.
    pub elapsed: u64,
}

impl Announcer {
    /// An announcer that announces at once.
    pub fn new() -> (r: Self)
        ensures
            r.last_attempted is None,
            r.elapsed == ANNOUNCE_INTERVAL,
    {
        Announcer { last_attempted: None, elapsed: ANNOUNCE_INTERVAL }
    }

    /// Whether a bond is announced now: where it is another than the last one
    /// tried, or where the last announcement is long ago. An announcement
    /// starts the interval anew, whether it succeeds or not.
    pub fn is_due(&mut self, latest: Option<OutPoint>) -> (r: bool)
        ensures
            r == (latest is Some && (old(self).last_attempted != latest || old(self).elapsed
                >= ANNOUNCE_INTERVAL)),
            r ==> final(self).last_attempted == latest && final(self).elapsed == 0,
            !r ==> *final(self) == *old(self),
    {
        match latest {
            None => false,
            Some(outpoint) => {
                let changed = match &self.last_attempted {
                    None => true,
                    Some(previous) => !outpoint_equal(previous, &outpoint),
                };
                if changed || self.elapsed >= ANNOUNCE_INTERVAL {
                    self.last_attempted = Some(outpoint);
                    self.elapsed = 0;
                    true
                } else {
                    false
                }
            },
        }
    }

    /// Counts the time between two looks.
    pub fn tick(&mut self)
        ensures
            final(self).last_attempted == old(self).last_attempted,
            final(self).elapsed == if old(self).elapsed + ANNOUNCE_TICK > u64::MAX {
                u64::MAX as int
            } else {
                old(self).elapsed + ANNOUNCE_TICK
            },
    {
        self.elapsed = self.elapsed.saturating_add(ANNOUNCE_TICK);
    }
}

/// A request for an offer always begins afresh, new swap details only where
/// the swap is not under way, and every other message only where it is; it is
/// then handled in the state that was kept.
pub proof fn law_messages_continue_their_swap(
    swaps: Map<Seq<char>, OngoingSwapV2>,
    message: TakerToMakerMessage,
)
    ensures
        message is GetOffer ==> state_verdict(swaps, message) == Ok::<
            Option<StateV2Model>,
            MakerError,
        >(None),
        message is SwapDetails ==> (state_verdict(swaps, message) is Ok <==> !swaps.dom().contains(
            message.filed_under(),
        )),
        !(message is GetOffer) && !(message is SwapDetails) ==> (state_verdict(swaps, message) is Ok
            <==> swaps.dom().contains(message.filed_under())),
        state_verdict(swaps, message) matches Ok(Some(state)) ==> state
            == swaps[message.filed_under()].state@,
        state_verdict(swaps, message) matches Ok(state) ==> (state is None <==> message is GetOffer
            || message is SwapDetails),
{
}

/// A taker is silent once more than 15 minutes have passed since it last sent
/// something.
pub proof fn law_silent_after_a_quarter_of_an_hour(swap: OngoingSwapV2, now: u64)
    ensures
        is_silent(swap, now) <==> now > swap.last_active + 15 * 60 * 1_000_000_000,
        LIQUIDITY_CHECK_INTERVAL == 300,
        RPC_PING_INTERVAL == 9,
        ANNOUNCE_INTERVAL == 1800,
        ANNOUNCE_TICK == 2,
{
}

/// No output that another swap has reserved is left free, and none is kept from
/// a swap but what others have reserved.
pub proof fn law_reserved_elsewhere_is_excluded(
    entries: Seq<(String, OngoingSwapV2)>,
    id: Seq<char>,
    point: OutPoint,
)
    ensures
        reserved_elsewhere(entries, id).contains(point) <==> exists|i: int|
            0 <= i < entries.len() && (#[trigger] entries[i]).0@ != id
                && entries[i].1.state.reserve_utxo@.contains(point),
    decreases entries.len(),
{
    if entries.len() > 0 {
        law_reserved_elsewhere_is_excluded(entries.drop_last(), id, point);
        let before = reserved_elsewhere(entries.drop_last(), id);
        let own = entries.last().1.state.reserve_utxo@;
        let all = reserved_elsewhere(entries, id);
        if entries.last().0@ != id {
            assert(all == before + own);
            if before.contains(point) {
                let k = choose|k: int| 0 <= k < before.len() && before[k] == point;
                assert(all[k] == point);
            }
            if own.contains(point) {
                let k = choose|k: int| 0 <= k < own.len() && own[k] == point;
                assert(all[before.len() + k] == point);
                assert(entries[entries.len() - 1].0@ != id);
            }
            if all.contains(point) {
                let k = choose|k: int| 0 <= k < all.len() && all[k] == point;
                if k < before.len() {
                    assert(before[k] == point);
                } else {
                    assert(own[k - before.len()] == point);
                }
            }
        }
        if before.contains(point) {
            let i = choose|i: int|
                0 <= i < entries.drop_last().len() && (#[trigger] entries.drop_last()[i]).0@ != id
                    && entries.drop_last()[i].1.state.reserve_utxo@.contains(point);
            assert(entries[i] == entries.drop_last()[i]);
        }
        if exists|i: int|
            0 <= i < entries.len() && (#[trigger] entries[i]).0@ != id
                && entries[i].1.state.reserve_utxo@.contains(point) {
            let i = choose|i: int|
                0 <= i < entries.len() && (#[trigger] entries[i]).0@ != id
                    && entries[i].1.state.reserve_utxo@.contains(point);
            if i < entries.len() - 1 {
                assert(entries.drop_last()[i] == entries[i]);
            }
        }
    }
}

/// Every swap that has a transaction of the taker, and no other, has its
/// contracts watched: the first output of either contract transaction.
pub proof fn law_exchanged_contracts_are_watched(
    entries: Seq<(String, OngoingSwapV2)>,
    watched: WatchedContracts,
    n: int,
    i: int,
    k: int,
)
    requires
        0 <= n <= entries.len(),
    ensures
        0 <= i < n && entries[i].1.state.incoming_contract.contract_txid is Some ==> exchanged(
            entries,
            n,
        ).contains(entries[i]),
        0 <= k < exchanged(entries, n).len() ==> exchanged(
            entries,
            n,
        )[k].1.state.incoming_contract.contract_txid is Some && exists|j: int|
            0 <= j < n && #[trigger] entries[j] == exchanged(entries, n)[k],
        0 <= i < n && watches(watched, entries[i]) ==> {
            &&& watched.swap_id@ == entries[i].0@
            &&& watched.outgoing.txid == txid_of(
                entries[i].1.state.outgoing_contract.contract_tx@,
            )
            &&& watched.outgoing.vout == 0
            &&& Some(watched.incoming.txid)
                == entries[i].1.state.incoming_contract.contract_txid
            &&& watched.incoming.vout == 0
        },
    decreases n,
{
    if n > 0 {
        law_exchanged_contracts_are_watched(entries, watched, n - 1, i, k);
        let before = exchanged(entries, n - 1);
        let all = exchanged(entries, n);
        if 0 <= i < n && entries[i].1.state.incoming_contract.contract_txid is Some {
            if i < n - 1 {
                let m = choose|m: int| 0 <= m < before.len() && before[m] == entries[i];
                assert(all[m] == entries[i]);
            } else {
                assert(all[before.len() as int] == entries[i]);
            }
        }
        if 0 <= k < before.len() {
            let j = choose|j: int| 0 <= j < n - 1 && #[trigger] entries[j] == before[k];
            assert(entries[j] == all[k]);
        } else if 0 <= k < all.len() {
            assert(entries[n - 1] == all[k]);
        }
    }
}

/// A swap that is taken off is handed to recovery with both contracts, where
/// the taker had sent its own, and without any where it had not.
pub proof fn law_dropped_swap_has_its_contracts(
    dropped: DroppedSwap,
    id: Seq<char>,
    swap: OngoingSwapV2,
)
    requires
        hands_over(dropped, id, swap),
    ensures
        dropped.swap_id@ == id,
        swap.state.incoming_contract.contract_txid is Some ==> (dropped.contracts matches Some(
            (incoming, outgoing),
        ) && incoming@ == swap.state.incoming_contract@ && outgoing@
            == swap.state.outgoing_contract@),
        swap.state.incoming_contract.contract_txid is None ==> dropped.contracts is None,
{
}

/// The check of the bond runs on every `interval`th heart beat without swaps,
/// and each beat that is not held back by a swap counts one.
pub proof fn law_fidelity_check_runs_at_the_interval(counter: int, interval: int, empty: bool)
    requires
        interval > 0,
    ensures
        fidelity_beat(counter, interval, empty).0 <==> counter % interval == 0 && empty,
        empty ==> fidelity_beat(counter, interval, empty).1 == counter + 1,
        counter % interval != 0 ==> fidelity_beat(counter, interval, empty).1 == counter + 1,
        counter % interval == 0 && !empty ==> fidelity_beat(counter, interval, empty).1 == counter,
{
}

} // verus!
