//! The record of how far each swap and its recovery have come.

use crate::chain::Txid;
use crate::protocol::common_messages::ProtocolVersion;
use crate::table::{
    contents, distinct_keys, has_key, lemma_entry, lemma_push, lemma_update, position_of, Table,
};
use vstd::prelude::*;

verus! {

/// Maker swap lifecycle phases.
#[derive(Debug, Clone, Copy, PartialEq, Eq, Ord, Default, Structural)]
pub enum MakerSwapPhase {
    #[default]
    Active,
    TakerDropped,
    Recovering,
    Recovered,
    Completed,
}

impl MakerSwapPhase {
    /// The name of the phase.
    pub open spec fn name(&self) -> &'static str {
        match self {
            MakerSwapPhase::Active => "Active",
            MakerSwapPhase::TakerDropped => "TakerDropped",
            MakerSwapPhase::Recovering => "Recovering",
            MakerSwapPhase::Recovered => "Recovered",
            MakerSwapPhase::Completed => "Completed",
        }
    }

    /// The name of the phase.
    pub fn as_text(&self) -> (r: &'static str)
        ensures
            r == self.name(),
    {
        match self {
            MakerSwapPhase::Active => "Active",
            MakerSwapPhase::TakerDropped => "TakerDropped",
            MakerSwapPhase::Recovering => "Recovering",
            MakerSwapPhase::Recovered => "Recovered",
            MakerSwapPhase::Completed => "Completed",
        }
    }
}

impl MakerSwapPhase {
    /// The place of the phase among all.
    pub open spec fn place(&self) -> u8 {
        match self {
            MakerSwapPhase::Active => 0,
            MakerSwapPhase::TakerDropped => 1,
            MakerSwapPhase::Recovering => 2,
            MakerSwapPhase::Recovered => 3,
            MakerSwapPhase::Completed => 4,
        }
    }

    /// The place of the phase among all.
    pub fn rank(&self) -> (r: u8)
        ensures
            r == self.place(),
    {
        match self {
            MakerSwapPhase::Active => 0,
            MakerSwapPhase::TakerDropped => 1,
            MakerSwapPhase::Recovering => 2,
            MakerSwapPhase::Recovered => 3,
            MakerSwapPhase::Completed => 4,
        }
    }
}

impl PartialOrd for MakerSwapPhase {
    /// A phase is less than those that come after it.
    fn partial_cmp(&self, other: &Self) -> (r: Option<core::cmp::Ordering>) {
        if self.rank() < other.rank() {
            Some(core::cmp::Ordering::Less)
        } else if self.rank() > other.rank() {
            Some(core::cmp::Ordering::Greater)
        } else {
            Some(core::cmp::Ordering::Equal)
        }
    }
}

impl vstd::std_specs::cmp::PartialOrdSpecImpl for MakerSwapPhase {
    open spec fn obeys_partial_cmp_spec() -> bool {
        true
    }

    open spec fn partial_cmp_spec(&self, other: &Self) -> Option<core::cmp::Ordering> {
        if self.place() < other.place() {
            Some(core::cmp::Ordering::Less)
        } else if self.place() > other.place() {
            Some(core::cmp::Ordering::Greater)
        } else {
            Some(core::cmp::Ordering::Equal)
        }
    }
}

/// Maker recovery progress within a swap.
#[derive(Debug, Clone, Copy, PartialEq, Eq, Ord, Default, Structural)]
pub enum MakerRecoveryPhase {
    #[default]
    NotStarted,
    Monitoring,
    HashlockRecovered,
    TimelockWaiting,
    TimelockRecovered,
    CleanedUp,
}

impl MakerRecoveryPhase {
    /// The name of the phase.
    pub open spec fn name(&self) -> &'static str {
        match self {
            MakerRecoveryPhase::NotStarted => "NotStarted",
            MakerRecoveryPhase::Monitoring => "Monitoring",
            MakerRecoveryPhase::HashlockRecovered => "HashlockRecovered",
            MakerRecoveryPhase::TimelockWaiting => "TimelockWaiting",
            MakerRecoveryPhase::TimelockRecovered => "TimelockRecovered",
            MakerRecoveryPhase::CleanedUp => "CleanedUp",
        }
    }

    /// The name of the phase.
    pub fn as_text(&self) -> (r: &'static str)
        ensures
            r == self.name(),
    {
        match self {
            MakerRecoveryPhase::NotStarted => "NotStarted",
            MakerRecoveryPhase::Monitoring => "Monitoring",
            MakerRecoveryPhase::HashlockRecovered => "HashlockRecovered",
            MakerRecoveryPhase::TimelockWaiting => "TimelockWaiting",
            MakerRecoveryPhase::TimelockRecovered => "TimelockRecovered",
            MakerRecoveryPhase::CleanedUp => "CleanedUp",
        }
    }
}

impl MakerRecoveryPhase {
    /// The place of the phase among all.
    pub open spec fn place(&self) -> u8 {
        match self {
            MakerRecoveryPhase::NotStarted => 0,
            MakerRecoveryPhase::Monitoring => 1,
            MakerRecoveryPhase::HashlockRecovered => 2,
            MakerRecoveryPhase::TimelockWaiting => 3,
            MakerRecoveryPhase::TimelockRecovered => 4,
            MakerRecoveryPhase::CleanedUp => 5,
        }
    }

    /// The place of the phase among all.
    pub fn rank(&self) -> (r: u8)
        ensures
            r == self.place(),
    {
        match self {
            MakerRecoveryPhase::NotStarted => 0,
            MakerRecoveryPhase::Monitoring => 1,
            MakerRecoveryPhase::HashlockRecovered => 2,
            MakerRecoveryPhase::TimelockWaiting => 3,
            MakerRecoveryPhase::TimelockRecovered => 4,
            MakerRecoveryPhase::CleanedUp => 5,
        }
    }
}

impl PartialOrd for MakerRecoveryPhase {
    /// A phase is less than those that come after it.
    fn partial_cmp(&self, other: &Self) -> (r: Option<core::cmp::Ordering>) {
        if self.rank() < other.rank() {
            Some(core::cmp::Ordering::Less)
        } else if self.rank() > other.rank() {
            Some(core::cmp::Ordering::Greater)
        } else {
            Some(core::cmp::Ordering::Equal)
        }
    }
}

impl vstd::std_specs::cmp::PartialOrdSpecImpl for MakerRecoveryPhase {
    open spec fn obeys_partial_cmp_spec() -> bool {
        true
    }

    open spec fn partial_cmp_spec(&self, other: &Self) -> Option<core::cmp::Ordering> {
        if self.place() < other.place() {
            Some(core::cmp::Ordering::Less)
        } else if self.place() > other.place() {
            Some(core::cmp::Ordering::Greater)
        } else {
            Some(core::cmp::Ordering::Equal)
        }
    }
}

/// Per-swap recovery state.
#[derive(Debug, Clone)]
pub struct MakerRecoveryState {
    pub phase: MakerRecoveryPhase,
    pub incoming_swept: Vec<Txid>,
    pub outgoing_recovered: Vec<Txid>,
    pub outgoing_discarded: Vec<Txid>,
}

impl Default for MakerRecoveryState {
    fn default() -> (r: Self)
        ensures
            r.phase == MakerRecoveryPhase::NotStarted,
            r.incoming_swept@.len() == 0,
            r.outgoing_recovered@.len() == 0,
            r.outgoing_discarded@.len() == 0,
    {
        MakerRecoveryState {
            phase: MakerRecoveryPhase::NotStarted,
            incoming_swept: Vec::new(),
            outgoing_recovered: Vec::new(),
            outgoing_discarded: Vec::new(),
        }
    }
}

/// The record of a single swap's state and progress.
#[derive(Debug, Clone)]
pub struct MakerSwapRecord {
    pub swap_id: String,
    pub protocol: ProtocolVersion,
    pub phase: MakerSwapPhase,
    pub swap_amount_sat: u64,
    pub incoming_count: usize,
    pub outgoing_count: usize,
    /// Whether the funding transaction was broadcast. If not, there is nothing
    /// on the chain to recover for this swap.
    pub funding_broadcast: bool,
    pub recovery: MakerRecoveryState,
    pub created_at: u64,
    pub updated_at: u64,
}

/// A record that is not fully resolved: the swap is neither recovered nor
/// completed, or its recovery has not been cleaned up.
pub open spec fn is_incomplete(record: MakerSwapRecord) -> bool {
    !(record.phase == MakerSwapPhase::Recovered || record.phase == MakerSwapPhase::Completed)
        || record.recovery.phase != MakerRecoveryPhase::CleanedUp
}

/// The records among `entries` that are not fully resolved, in order.
pub open spec fn incomplete_among(entries: Seq<(String, MakerSwapRecord)>) -> Seq<MakerSwapRecord>
    decreases entries.len(),
{
    if entries.len() == 0 {
        seq![]
    } else {
        let before = incomplete_among(entries.drop_last());
        if is_incomplete(entries.last().1) {
            before.push(entries.last().1)
        } else {
            before
        }
    }
}

/// What happens to a record while its swap is recovered.
#[derive(Debug)]
pub enum RecordUpdate {
    /// Recovery has begun.
    Recovering,
    /// Nothing of the swap is on the chain.
    NothingToRecover,
    /// The incoming coins were swept, by these transactions.
    HashlockRecovered(Vec<Txid>),
    /// The timelock has expired.
    TimelockWaiting,
    /// The outgoing coins were reclaimed, by these transactions.
    TimelockRecovered(Vec<Txid>),
    /// Nothing is left to do.
    CleanedUp,
}

/// The record after an update at the time `now`.
pub open spec fn updated_record(
    record: MakerSwapRecord,
    update: RecordUpdate,
    now: u64,
) -> MakerSwapRecord {
    match update {
        RecordUpdate::Recovering => MakerSwapRecord {
            phase: MakerSwapPhase::Recovering,
            recovery: MakerRecoveryState {
                phase: MakerRecoveryPhase::Monitoring,
                ..record.recovery
            },
            updated_at: now,
            ..record
        },
        RecordUpdate::HashlockRecovered(txids) => MakerSwapRecord {
            recovery: MakerRecoveryState {
                phase: MakerRecoveryPhase::HashlockRecovered,
                incoming_swept: txids,
                ..record.recovery
            },
            updated_at: now,
            ..record
        },
        RecordUpdate::TimelockWaiting => MakerSwapRecord {
            recovery: MakerRecoveryState {
                phase: MakerRecoveryPhase::TimelockWaiting,
                ..record.recovery
            },
            updated_at: now,
            ..record
        },
        RecordUpdate::TimelockRecovered(txids) => MakerSwapRecord {
            recovery: MakerRecoveryState {
                phase: MakerRecoveryPhase::TimelockRecovered,
                outgoing_recovered: txids,
                ..record.recovery
            },
            updated_at: now,
            ..record
        },
        RecordUpdate::NothingToRecover | RecordUpdate::CleanedUp => MakerSwapRecord {
            phase: MakerSwapPhase::Recovered,
            recovery: MakerRecoveryState {
                phase: MakerRecoveryPhase::CleanedUp,
                ..record.recovery
            },
            updated_at: now,
            ..record
        },
    }
}

impl MakerSwapRecord {
    /// Applies an update at the time `now`.
    pub fn apply(&mut self, update: RecordUpdate, now: u64)
        ensures
            *final(self) == updated_record(*old(self), update, now),
    {
        match update {
            RecordUpdate::Recovering => {
                self.phase = MakerSwapPhase::Recovering;
                self.recovery.phase = MakerRecoveryPhase::Monitoring;
            },
            RecordUpdate::HashlockRecovered(txids) => {
                self.recovery.incoming_swept = txids;
                self.recovery.phase = MakerRecoveryPhase::HashlockRecovered;
            },
            RecordUpdate::TimelockWaiting => {
                self.recovery.phase = MakerRecoveryPhase::TimelockWaiting;
            },
            RecordUpdate::TimelockRecovered(txids) => {
                self.recovery.outgoing_recovered = txids;
                self.recovery.phase = MakerRecoveryPhase::TimelockRecovered;
            },
            RecordUpdate::NothingToRecover | RecordUpdate::CleanedUp => {
                self.phase = MakerSwapPhase::Recovered;
                self.recovery.phase = MakerRecoveryPhase::CleanedUp;
            },
        }
        self.updated_at = now;
    }
}

/// There is one record per swap, under the swap's id.
pub open spec fn one_per_swap(entries: Seq<(String, MakerSwapRecord)>) -> bool {
    &&& distinct_keys(entries)
    &&& forall|i: int|
        0 <= i < entries.len() ==> (#[trigger] entries[i]).0@ == entries[i].1.swap_id@
}

/// The records once another is saved: it takes the place of the earlier one of
/// its swap, or the last place.
pub open spec fn saved(
    entries: Seq<(String, MakerSwapRecord)>,
    record: MakerSwapRecord,
) -> Seq<(String, MakerSwapRecord)> {
    if has_key(entries, record.swap_id@) {
        entries.update(position_of(entries, record.swap_id@), (record.swap_id, record))
    } else {
        entries.push((record.swap_id, record))
    }
}

/// The records of a tracker that the given ones are saved to in turn.
pub open spec fn rebuilt(records: Seq<MakerSwapRecord>) -> Seq<(String, MakerSwapRecord)>
    decreases records.len(),
{
    if records.len() == 0 {
        seq![]
    } else {
        saved(rebuilt(records.drop_last()), records.last())
    }
}

/// Saving a record changes what stands under its swap's id alone.
proof fn lemma_saved(entries: Seq<(String, MakerSwapRecord)>, record: MakerSwapRecord)
    requires
        one_per_swap(entries),
    ensures
        one_per_swap(saved(entries, record)),
        contents(saved(entries, record)) == contents(entries).insert(record.swap_id@, record),
{
    if has_key(entries, record.swap_id@) {
        lemma_update(
            entries,
            position_of(entries, record.swap_id@),
            record.swap_id,
            record,
        );
    } else {
        lemma_push(entries, record.swap_id, record);
    }
}

/// The records of a maker's swaps, by swap id.
#[derive(Debug)]
pub struct MakerSwapTracker {
    records: Table<MakerSwapRecord>,
}

impl MakerSwapTracker {
    /// The records in the order in which they were first saved.
    pub closed spec fn entries(&self) -> Seq<(String, MakerSwapRecord)> {
        self.records.entries()
    }

    /// There is one record per swap, under the swap's id.
    pub open spec fn wf(&self) -> bool {
        one_per_swap(self.entries())
    }

    /// The records by swap id.
    pub open spec fn view(&self) -> Map<Seq<char>, MakerSwapRecord> {
        contents(self.entries())
    }

    /// A tracker without records.
    pub fn new() -> (r: Self)
        ensures
            r.wf(),
            r.entries() == Seq::<(String, MakerSwapRecord)>::empty(),
            r@ == Map::<Seq<char>, MakerSwapRecord>::empty(),
    {
        let r = MakerSwapTracker { records: Table::new() };
        assert(r@ =~= Map::<Seq<char>, MakerSwapRecord>::empty());
        r
    }

    /// A tracker of the given records; of several of one swap, the last.
    pub fn from_records(records: Vec<MakerSwapRecord>) -> (r: Self)
        ensures
            r.wf(),
            r.entries() == rebuilt(records@),
    {
        let ghost all = records@;
        let mut rest = records;
        let mut tracker = MakerSwapTracker::new();
        let ghost mut n: int = 0;
        assert(all.subrange(0, 0).len() == 0);
        assert(rest@ =~= all.subrange(0, all.len() as int));
        while rest.len() > 0
            invariant
                0 <= n <= all.len(),
                rest@ == all.subrange(n, all.len() as int),
                tracker.wf(),
                tracker.entries() == rebuilt(all.subrange(0, n)),
            decreases rest@.len(),
        {
            let record = rest.remove(0);
            proof {
                let next = all.subrange(0, n + 1);
                assert(next.drop_last() =~= all.subrange(0, n));
                assert(next.last() == record);
                assert(rest@ =~= all.subrange(n + 1, all.len() as int));
                n = n + 1;
            }
            tracker.save_record(record);
        }
        assert(all.subrange(0, n) =~= all);
        tracker
    }

    /// Saves a record, in the place of an earlier one of the same swap.
    pub fn save_record(&mut self, record: MakerSwapRecord)
        requires
            old(self).wf(),
        ensures
            final(self).wf(),
            final(self)@ == old(self)@.insert(record.swap_id@, record),
            final(self).entries() == saved(old(self).entries(), record),
    {
        let key = record.swap_id.clone();
        proof {
            lemma_saved(self.entries(), record);
        }
        self.records.insert(key, record);
    }

    /// The record of a swap.
    pub fn get_record(&self, swap_id: &str) -> (r: Option<&MakerSwapRecord>)
        requires
            self.wf(),
        ensures
            match r {
                Some(record) => self@.dom().contains(swap_id@) && *record == self@[swap_id@]
                    && record.swap_id@ == swap_id@,
                None => !self@.dom().contains(swap_id@),
            },
    {
        proof {
            if self.records@.dom().contains(swap_id@) {
                let p = position_of(self.records.entries(), swap_id@);
                assert(self.records.entries()[p].0@ == swap_id@);
                lemma_entry(self.records.entries(), p);
            }
        }
        self.records.get(swap_id)
    }

    /// Applies an update to the record of a swap, where there is one, and
    /// tells whether there was.
    pub fn update_record(&mut self, swap_id: &str, update: RecordUpdate, now: u64) -> (r: bool)
        requires
            old(self).wf(),
        ensures
            final(self).wf(),
            r == old(self)@.dom().contains(swap_id@),
            r ==> final(self)@ == old(self)@.insert(
                swap_id@,
                updated_record(old(self)@[swap_id@], update, now),
            ),
            r ==> final(self).entries() == old(self).entries().update(
                position_of(old(self).entries(), swap_id@),
                (
                    old(self).entries()[position_of(old(self).entries(), swap_id@)].0,
                    updated_record(old(self)@[swap_id@], update, now),
                ),
            ),
            !r ==> final(self).entries() == old(self).entries(),
    {
        let ghost before = self.entries();
        match self.records.get_mut(swap_id) {
            Some(record) => {
                record.apply(update, now);
                proof {
                    lemma_entry(before, position_of(before, swap_id@));
                    assert forall|i: int| 0 <= i < self.entries().len() implies (
                    #[trigger] self.entries()[i]).0@ == self.entries()[i].1.swap_id@ by {
                        assert(before[i].0@ == before[i].1.swap_id@);
                    }
                }
                true
            },
            None => false,
        }
    }

    /// All records, in the order in which they were first saved.
    pub fn all_records(&self) -> (r: Vec<&MakerSwapRecord>)
        requires
            self.wf(),
        ensures
            r@.len() == self.entries().len(),
            forall|i: int| 0 <= i < r@.len() ==> *(#[trigger] r@[i]) == self.entries()[i].1,
    {
        let mut out: Vec<&MakerSwapRecord> = Vec::new();
        let mut i: usize = 0;
        while i < self.records.len()
            invariant
                i <= self.entries().len(),
                self.entries() == self.records.entries(),
                out@.len() == i,
                forall|k: int| 0 <= k < i ==> *(#[trigger] out@[k]) == self.entries()[k].1,
            decreases self.entries().len() - i,
        {
            out.push(self.records.value_at(i));
            i += 1;
        }
        out
    }

    /// Returns all swap records not yet fully resolved.
    pub fn incomplete_swaps(&self) -> (r: Vec<&MakerSwapRecord>)
        requires
            self.wf(),
        ensures
            r@.len() == incomplete_among(self.entries()).len(),
            forall|i: int| 0 <= i < r@.len() ==> *(#[trigger] r@[i]) == incomplete_among(self.entries())[i],
    {
        let mut out: Vec<&MakerSwapRecord> = Vec::new();
        let mut i: usize = 0;
        assert(self.entries().subrange(0, 0).len() == 0);
        while i < self.records.len()
            invariant
                i <= self.entries().len(),
                self.entries() == self.records.entries(),
                out@.len() == incomplete_among(self.entries().subrange(0, i as int)).len(),
                forall|k: int|
                    0 <= k < out@.len() ==> *(#[trigger] out@[k]) == incomplete_among(
                        self.entries().subrange(0, i as int),
                    )[k],
            decreases self.entries().len() - i,
        {
            let record = self.records.value_at(i);
            let resolved = record.phase == MakerSwapPhase::Recovered || record.phase
                == MakerSwapPhase::Completed;
            proof {
                let next = self.entries().subrange(0, i + 1);
                assert(next.drop_last() =~= self.entries().subrange(0, i as int));
                assert(next.last() == self.entries()[i as int]);
            }
            if !resolved || record.recovery.phase != MakerRecoveryPhase::CleanedUp {
                out.push(record);
            }
            i += 1;
        }
        assert(self.entries().subrange(0, i as int) =~= self.entries());
        out
    }
}

/// Cleaning up, or finding nothing to recover, resolves a record for good:
/// only those two updates do.
pub proof fn law_cleanup_resolves(record: MakerSwapRecord, update: RecordUpdate, now: u64)
    ensures
        !is_incomplete(updated_record(record, update, now)) <==> (update is NothingToRecover
            || update is CleanedUp),
{
}

/// The records that are not fully resolved are exactly those among all that
/// are incomplete.
pub proof fn law_incomplete_swaps(entries: Seq<(String, MakerSwapRecord)>, record: MakerSwapRecord)
    ensures
        incomplete_among(entries).contains(record) <==> is_incomplete(record) && exists|i: int|
            0 <= i < entries.len() && (#[trigger] entries[i]).1 == record,
    decreases entries.len(),
{
    if entries.len() > 0 {
        let rest = entries.drop_last();
        law_incomplete_swaps(rest, record);
        let last = entries.last().1;
        let before = incomplete_among(rest);
        if is_incomplete(last) {
            assert(incomplete_among(entries) == before.push(last));
            if before.push(last).contains(record) {
                let k = choose|k: int|
                    0 <= k < before.push(last).len() && before.push(last)[k] == record;
                if k < before.len() {
                    assert(before[k] == record);
                }
            }
            if before.contains(record) {
                let k = choose|k: int| 0 <= k < before.len() && before[k] == record;
                assert(before.push(last)[k] == record);
            }
            assert(before.push(last)[before.len() as int] == last);
        }
        if exists|i: int| 0 <= i < entries.len() && (#[trigger] entries[i]).1 == record {
            let i = choose|i: int| 0 <= i < entries.len() && (#[trigger] entries[i]).1 == record;
            if i < rest.len() {
                assert(rest[i].1 == record);
            }
        }
        if exists|i: int| 0 <= i < rest.len() && (#[trigger] rest[i]).1 == record {
            let i = choose|i: int| 0 <= i < rest.len() && (#[trigger] rest[i]).1 == record;
            assert(entries[i].1 == record);
        }
    }
}

/// A record is listed as not fully resolved exactly if it is what the tracker
/// holds of its swap and it is incomplete.
pub proof fn law_listed_iff_unresolved(
    entries: Seq<(String, MakerSwapRecord)>,
    record: MakerSwapRecord,
)
    requires
        one_per_swap(entries),
    ensures
        incomplete_among(entries).contains(record) <==> is_incomplete(record) && contents(
            entries,
        ).dom().contains(record.swap_id@) && contents(entries)[record.swap_id@] == record,
{
    law_incomplete_swaps(entries, record);
    if exists|i: int| 0 <= i < entries.len() && (#[trigger] entries[i]).1 == record {
        let i = choose|i: int| 0 <= i < entries.len() && (#[trigger] entries[i]).1 == record;
        lemma_entry(entries, i);
    }
    if has_key(entries, record.swap_id@) {
        let p = position_of(entries, record.swap_id@);
        lemma_entry(entries, p);
    }
}

/// A record that is saved is listed exactly if it is incomplete, what it took
/// the place of no longer is, and nothing changes for the other swaps.
pub proof fn law_saved_record_is_listed(
    entries: Seq<(String, MakerSwapRecord)>,
    record: MakerSwapRecord,
    other: MakerSwapRecord,
)
    requires
        one_per_swap(entries),
    ensures
        incomplete_among(saved(entries, record)).contains(record) <==> is_incomplete(record),
        other.swap_id@ == record.swap_id@ && other != record ==> !incomplete_among(
            saved(entries, record),
        ).contains(other),
        other.swap_id@ != record.swap_id@ ==> (incomplete_among(saved(entries, record)).contains(
            other,
        ) <==> incomplete_among(entries).contains(other)),
{
    lemma_saved(entries, record);
    law_listed_iff_unresolved(saved(entries, record), record);
    law_listed_iff_unresolved(saved(entries, record), other);
    law_listed_iff_unresolved(entries, other);
}

/// What a tracker that is rebuilt holds under an id: one of the given records
/// of that swap, where there is any.
proof fn lemma_rebuilt(records: Seq<MakerSwapRecord>, id: Seq<char>)
    ensures
        one_per_swap(rebuilt(records)),
        has_key(rebuilt(records), id) <==> exists|i: int|
            0 <= i < records.len() && (#[trigger] records[i]).swap_id@ == id,
        has_key(rebuilt(records), id) ==> records.contains(contents(rebuilt(records))[id])
            && contents(rebuilt(records))[id].swap_id@ == id,
    decreases records.len(),
{
    if records.len() > 0 {
        let rest = records.drop_last();
        let last = records.last();
        lemma_rebuilt(rest, id);
        lemma_saved(rebuilt(rest), last);
        let before = contents(rebuilt(rest));
        let after = contents(rebuilt(records));
        assert(after == before.insert(last.swap_id@, last));
        assert(after.dom().contains(id) <==> before.dom().contains(id) || last.swap_id@ == id);
        assert(records[records.len() - 1] == last);
        if before.dom().contains(id) {
            let i = choose|i: int| 0 <= i < rest.len() && (#[trigger] rest[i]).swap_id@ == id;
            assert(records[i].swap_id@ == id);
            let k = choose|k: int| 0 <= k < rest.len() && rest[k] == before[id];
            assert(records[k] == before[id]);
        }
        if exists|i: int| 0 <= i < records.len() && (#[trigger] records[i]).swap_id@ == id {
            let i = choose|i: int| 0 <= i < records.len() && (#[trigger] records[i]).swap_id@ == id;
            if i < rest.len() {
                assert(rest[i].swap_id@ == id);
            }
        }
    }
}

/// A tracker that is rebuilt from the records of another, in whatever order
/// they come, holds the same record of each swap and lists the same ones as not
/// fully resolved.
pub proof fn law_rebuilt_tracker_is_the_same(
    entries: Seq<(String, MakerSwapRecord)>,
    records: Seq<MakerSwapRecord>,
)
    requires
        one_per_swap(entries),
        forall|record: MakerSwapRecord| #[trigger]
            records.contains(record) <==> exists|i: int|
                0 <= i < entries.len() && (#[trigger] entries[i]).1 == record,
    ensures
        one_per_swap(rebuilt(records)),
        contents(rebuilt(records)) == contents(entries),
        forall|record: MakerSwapRecord| #[trigger]
            incomplete_among(rebuilt(records)).contains(record) <==> incomplete_among(
                entries,
            ).contains(record),
{
    let after = rebuilt(records);
    assert forall|id: Seq<char>| #[trigger]
        contents(after).dom().contains(id) <==> contents(entries).dom().contains(id) by {
        lemma_rebuilt(records, id);
        if has_key(after, id) {
            let record = contents(after)[id];
            let i = choose|i: int| 0 <= i < entries.len() && (#[trigger] entries[i]).1 == record;
            assert(records.contains(record));
            assert(entries[i].0@ == id);
        }
        if has_key(entries, id) {
            let p = position_of(entries, id);
            assert(records.contains(entries[p].1));
            let k = choose|k: int| 0 <= k < records.len() && records[k] == entries[p].1;
            assert(records[k].swap_id@ == id);
        }
    }
    assert forall|id: Seq<char>| #[trigger] contents(after).dom().contains(id) implies contents(
        after,
    )[id] == contents(entries)[id] by {
        lemma_rebuilt(records, id);
        let record = contents(after)[id];
        assert(records.contains(record));
        let i = choose|i: int| 0 <= i < entries.len() && (#[trigger] entries[i]).1 == record;
        lemma_entry(entries, i);
    }
    assert(contents(after) =~= contents(entries));
    lemma_rebuilt(records, seq![]);
    assert forall|record: MakerSwapRecord| #[trigger]
        incomplete_among(after).contains(record) <==> incomplete_among(entries).contains(
            record,
        ) by {
        law_listed_iff_unresolved(after, record);
        law_listed_iff_unresolved(entries, record);
    }
}

/// A record that is saved is what the tracker holds of its swap from then on,
/// nothing changes for the other swaps, and a tracker that is rebuilt from the
/// records, in whatever order they come, holds the same.
pub proof fn law_saved_record_is_read_back(
    entries: Seq<(String, MakerSwapRecord)>,
    record: MakerSwapRecord,
    id: Seq<char>,
    records: Seq<MakerSwapRecord>,
)
    requires
        one_per_swap(entries),
        forall|other: MakerSwapRecord| #[trigger]
            records.contains(other) <==> exists|i: int|
                0 <= i < saved(entries, record).len() && (#[trigger] saved(entries, record)[i]).1
                    == other,
    ensures
        contents(saved(entries, record)).dom().contains(record.swap_id@),
        contents(saved(entries, record))[record.swap_id@] == record,
        id != record.swap_id@ ==> (contents(saved(entries, record)).dom().contains(id)
            <==> contents(entries).dom().contains(id)),
        id != record.swap_id@ && contents(entries).dom().contains(id) ==> contents(
            saved(entries, record),
        )[id] == contents(entries)[id],
        contents(rebuilt(records)) == contents(saved(entries, record)),
{
    lemma_saved(entries, record);
    law_rebuilt_tracker_is_the_same(saved(entries, record), records);
}

/// A record is resolved exactly where its swap is recovered or completed and
/// the recovery is cleaned up.
pub proof fn law_resolved_records(record: MakerSwapRecord)
    ensures
        is_incomplete(record) <==> {
            ||| record.phase is Active
            ||| record.phase is TakerDropped
            ||| record.phase is Recovering
            ||| !(record.recovery.phase is CleanedUp)
        },
{
}

/// An update is dated, and touches the progress of the recovery alone: what the
/// swap is about stays as it was saved.
pub proof fn law_updates_keep_the_swap(record: MakerSwapRecord, update: RecordUpdate, now: u64)
    ensures
        ({
            let after = updated_record(record, update, now);
            &&& after.updated_at == now
            &&& after.swap_id == record.swap_id
            &&& after.protocol == record.protocol
            &&& after.swap_amount_sat == record.swap_amount_sat
            &&& after.incoming_count == record.incoming_count
            &&& after.outgoing_count == record.outgoing_count
            &&& after.funding_broadcast == record.funding_broadcast
            &&& after.created_at == record.created_at
            &&& after.recovery.outgoing_discarded == record.recovery.outgoing_discarded
        }),
{
}

/// A recovery's transactions are recorded on their own side: sweeps of incoming
/// coins and reclaims of outgoing ones, each together with its phase; the swap
/// itself counts as recovered only once nothing is left to do.
pub proof fn law_recovery_is_recorded(record: MakerSwapRecord, txids: Vec<Txid>, now: u64)
    ensures
        ({
            let begun = updated_record(record, RecordUpdate::Recovering, now);
            let swept = updated_record(record, RecordUpdate::HashlockRecovered(txids), now);
            let waiting = updated_record(record, RecordUpdate::TimelockWaiting, now);
            let reclaimed = updated_record(record, RecordUpdate::TimelockRecovered(txids), now);
            let cleaned = updated_record(record, RecordUpdate::CleanedUp, now);
            let nothing = updated_record(record, RecordUpdate::NothingToRecover, now);
            &&& begun.phase is Recovering && begun.recovery.phase is Monitoring
            &&& begun.recovery.incoming_swept == record.recovery.incoming_swept
            &&& begun.recovery.outgoing_recovered == record.recovery.outgoing_recovered
            &&& swept.recovery.phase is HashlockRecovered
            &&& swept.recovery.incoming_swept == txids
            &&& swept.recovery.outgoing_recovered == record.recovery.outgoing_recovered
            &&& swept.phase == record.phase
            &&& waiting.recovery.phase is TimelockWaiting
            &&& waiting.recovery.incoming_swept == record.recovery.incoming_swept
            &&& waiting.recovery.outgoing_recovered == record.recovery.outgoing_recovered
            &&& waiting.phase == record.phase
            &&& reclaimed.recovery.phase is TimelockRecovered
            &&& reclaimed.recovery.outgoing_recovered == txids
            &&& reclaimed.recovery.incoming_swept == record.recovery.incoming_swept
            &&& reclaimed.phase == record.phase
            &&& cleaned.phase is Recovered && cleaned.recovery.phase is CleanedUp
            &&& cleaned.recovery.incoming_swept == record.recovery.incoming_swept
            &&& cleaned.recovery.outgoing_recovered == record.recovery.outgoing_recovered
            &&& nothing == cleaned
        }),
{
}

/// The record of a swap that is recovered with the preimages keeps the sweeps
/// to the end, and one that is reclaimed keeps the reclaims.
pub proof fn law_recorded_transactions_are_kept(
    record: MakerSwapRecord,
    txids: Vec<Txid>,
    first: u64,
    second: u64,
)
    ensures
        updated_record(
            updated_record(record, RecordUpdate::HashlockRecovered(txids), first),
            RecordUpdate::CleanedUp,
            second,
        ).recovery.incoming_swept == txids,
        updated_record(
            updated_record(record, RecordUpdate::TimelockRecovered(txids), first),
            RecordUpdate::CleanedUp,
            second,
        ).recovery.outgoing_recovered == txids,
        !is_incomplete(
            updated_record(
                updated_record(record, RecordUpdate::HashlockRecovered(txids), first),
                RecordUpdate::CleanedUp,
                second,
            ),
        ),
{
}

/// The phases come one after the other, and each has a name of its own.
pub proof fn law_phases_are_in_order(a: MakerSwapPhase, b: MakerRecoveryPhase)
    ensures
        MakerSwapPhase::Active.place() < MakerSwapPhase::TakerDropped.place()
            < MakerSwapPhase::Recovering.place() < MakerSwapPhase::Recovered.place()
            < MakerSwapPhase::Completed.place(),
        MakerRecoveryPhase::NotStarted.place() < MakerRecoveryPhase::Monitoring.place()
            < MakerRecoveryPhase::HashlockRecovered.place()
            < MakerRecoveryPhase::TimelockWaiting.place()
            < MakerRecoveryPhase::TimelockRecovered.place()
            < MakerRecoveryPhase::CleanedUp.place(),
        a is Active <==> a.place() == 0,
        b is NotStarted <==> b.place() == 0,
        a is Active ==> a.name() == "Active",
        a is TakerDropped ==> a.name() == "TakerDropped",
        a is Recovering ==> a.name() == "Recovering",
        a is Recovered ==> a.name() == "Recovered",
        a is Completed ==> a.name() == "Completed",
        b is NotStarted ==> b.name() == "NotStarted",
        b is Monitoring ==> b.name() == "Monitoring",
        b is HashlockRecovered ==> b.name() == "HashlockRecovered",
        b is TimelockWaiting ==> b.name() == "TimelockWaiting",
        b is TimelockRecovered ==> b.name() == "TimelockRecovered",
        b is CleanedUp ==> b.name() == "CleanedUp",
{
}

} // verus!
