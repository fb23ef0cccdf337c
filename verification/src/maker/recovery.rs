//! Recovering the maker's funds after a taker drops.
//!
//! Two paths are tried in a loop. If someone spends an outgoing contract with
//! the preimage, the preimage is on the chain, and the maker sweeps its
//! incoming coins with it. After the timelock has expired, the maker reclaims
//! its outgoing coins.

use crate::chain::{has_outpoint, hash_equal, InputModel, OutPoint, Preimage, Transaction, Txid};
use crate::error::MakerError;
use crate::maker::swap_tracker::RecordUpdate;
use crate::maker::swapcoin::{incoming_models, IncomingModel, IncomingSwapCoin, OutgoingSwapCoin};
use crate::primitives::{
    compute_txid, hash160, hash160_of, hashlock_bytes, sha256, sha256_of, txid_of,
};
use crate::protocol::taproot_messages::{array_of, lemma_array_of, to_array};
use vstd::prelude::*;

verus! {

/// Minimum witness items for a hashlock spend (signature and preimage).
pub const MIN_WITNESS_ITEM_FOR_HASHLOCK: usize = 2;

/// Preimage length in bytes.
pub const PREIMAGE_LEN: usize = 32;

/// The preimages that were found, and the outputs whose spends were looked at.
#[derive(Debug)]
pub struct PreimageSearch {
    /// The outputs whose spends were looked at.
    pub seen: Vec<OutPoint>,
    /// The preimages, in the order in which they were found.
    pub preimages: Vec<Preimage>,
}

/// What a search holds.
pub struct SearchModel {
    pub seen: Seq<OutPoint>,
    pub preimages: Seq<Preimage>,
}

impl View for PreimageSearch {
    type V = SearchModel;

    open spec fn view(&self) -> SearchModel {
        SearchModel { seen: self.seen@, preimages: self.preimages@ }
    }
}

/// Whether an input's witness reveals a preimage: its second item has the
/// length of one.
pub open spec fn reveals(input: InputModel) -> bool {
    input.witness.len() >= MIN_WITNESS_ITEM_FOR_HASHLOCK && input.witness[1].len() == PREIMAGE_LEN
}

/// The search after another input. An output's spend is looked at once.
pub open spec fn searched(search: SearchModel, input: InputModel) -> SearchModel {
    if search.seen.contains(input.previous_output) {
        search
    } else {
        SearchModel {
            seen: search.seen.push(input.previous_output),
            preimages: if reveals(input) {
                search.preimages.push(array_of(input.witness[1]))
            } else {
                search.preimages
            },
        }
    }
}

/// The search after the first `n` inputs of a transaction.
pub open spec fn searched_inputs(search: SearchModel, inputs: Seq<InputModel>, n: int) -> SearchModel
    decreases n,
{
    if n <= 0 {
        search
    } else {
        searched(searched_inputs(search, inputs, n - 1), inputs[n - 1])
    }
}

impl PreimageSearch {
    /// A search that has found nothing.
    pub fn new() -> (r: Self)
        ensures
            r@ == (SearchModel { seen: seq![], preimages: seq![] }),
    {
        let r = PreimageSearch { seen: Vec::new(), preimages: Vec::new() };
        assert(r@.seen =~= seq![]);
        assert(r@.preimages =~= seq![]);
        r
    }

    /// Looks for preimages in a transaction that spends a contract.
    pub fn scan(&mut self, tx: &Transaction)
        ensures
            final(self)@ == searched_inputs(old(self)@, tx@.input, tx@.input.len() as int),
    {
        let ghost before = self@;
        let ghost inputs = tx@.input;
        let mut i: usize = 0;
        while i < tx.input.len()
            invariant
                i <= tx.input.len(),
                inputs == tx@.input,
                inputs.len() == tx.input@.len(),
                self@ == searched_inputs(before, inputs, i as int),
            decreases tx.input.len() - i,
        {
            let input = &tx.input[i];
            assert(inputs[i as int] == input@);
            if !has_outpoint(&self.seen, &input.previous_output) {
                self.seen.push(input.previous_output);
                if input.witness.len() >= MIN_WITNESS_ITEM_FOR_HASHLOCK && input.witness[1].len()
                    == PREIMAGE_LEN {
                    assert(input@.witness[1] == input.witness@[1]@);
                    if let Some(preimage) = to_array(input.witness[1].as_slice()) {
                        proof {
                            lemma_array_of(preimage, input.witness@[1]@);
                        }
                        self.preimages.push(preimage);
                    }
                }
            }
            i += 1;
        }
    }
}

/// Looking at the same spends again finds nothing new.
pub proof fn law_spends_are_looked_at_once(search: SearchModel, input: InputModel)
    ensures
        searched(searched(search, input), input) == searched(search, input),
{
    let once = searched(search, input);
    if !search.seen.contains(input.previous_output) {
        assert(once.seen[search.seen.len() as int] == input.previous_output);
    }
}

/// Whether a preimage opens an incoming coin: its hash is the one that the
/// contract is locked to. A legacy contract has the shorter hash; the hash of
/// a taproot contract stands behind the first two bytes of its hashlock
/// script.
pub open spec fn opens(coin: IncomingModel, preimage: Preimage) -> bool {
    if coin.contract_redeemscript is Some {
        coin.hashvalue == Some(hash160_of(preimage@))
    } else {
        &&& coin.hashlock_script is Some
        &&& coin.hashlock_script->0.len() >= 34
        &&& coin.hashlock_script->0.subrange(2, 34) == sha256_of(preimage@)@
    }
}

/// Whether bytes 2 to 33 of a script are the given ones.
fn has_hash(script: &Vec<u8>, hash: &[u8; 32]) -> (r: bool)
    ensures
        r == (script@.len() >= 34 && script@.subrange(2, 34) == hash@),
{
    if script.len() < 34 {
        return false;
    }
    let mut i: usize = 0;
    while i < 32
        invariant
            i <= 32,
            script@.len() >= 34,
            forall|j: int| 0 <= j < i ==> script@[j + 2] == hash@[j],
        decreases 32 - i,
    {
        if script[i + 2] != hash[i] {
            assert(script@.subrange(2, 34)[i as int] != hash@[i as int]);
            return false;
        }
        i += 1;
    }
    assert(script@.subrange(2, 34) =~= hash@);
    true
}

/// Whether a preimage opens an incoming coin.
pub fn preimage_opens(coin: &IncomingSwapCoin, preimage: &Preimage) -> (r: bool)
    ensures
        r == opens(coin@, *preimage),
{
    if coin.contract_redeemscript.is_some() {
        let hash = hash160(preimage.as_slice());
        match coin.hashvalue {
            Some(expected) => hash_equal(&expected, &hash),
            None => false,
        }
    } else {
        let hash = sha256(preimage.as_slice());
        match &coin.hashlock_script {
            Some(script) => has_hash(script, &hash),
            None => false,
        }
    }
}

/// The first of the preimages, from the one at `i` on, that opens a coin.
pub open spec fn first_opening(coin: IncomingModel, preimages: Seq<Preimage>, i: int) -> Option<
    Preimage,
>
    decreases preimages.len() - i,
{
    if i < 0 || i >= preimages.len() {
        None
    } else if opens(coin, preimages[i]) {
        Some(preimages[i])
    } else {
        first_opening(coin, preimages, i + 1)
    }
}

/// The first of the preimages that opens a coin.
pub fn find_preimage(coin: &IncomingSwapCoin, preimages: &Vec<Preimage>) -> (r: Option<Preimage>)
    ensures
        r == first_opening(coin@, preimages@, 0),
{
    let mut i: usize = 0;
    while i < preimages.len()
        invariant
            i <= preimages.len(),
            first_opening(coin@, preimages@, 0) == first_opening(coin@, preimages@, i as int),
        decreases preimages.len() - i,
    {
        if preimage_opens(coin, &preimages[i]) {
            return Some(preimages[i]);
        }
        i += 1;
    }
    None
}

/// A coin with a preimage: the one that it has, or this one.
pub open spec fn with_preimage(coin: IncomingModel, preimage: Preimage) -> IncomingModel {
    if coin.hash_preimage is None {
        IncomingModel { hash_preimage: Some(preimage), ..coin }
    } else {
        coin
    }
}

/// Stores a preimage on a coin that has none yet.
pub fn apply_preimage(coin: &mut IncomingSwapCoin, preimage: Preimage)
    ensures
        final(coin)@ == with_preimage(old(coin)@, preimage),
{
    if coin.hash_preimage.is_none() {
        coin.hash_preimage = Some(preimage);
    }
}

/// A coin once preimages were revealed: one without a preimage gets the first
/// that opens it.
pub open spec fn opened(coin: IncomingModel, preimages: Seq<Preimage>) -> IncomingModel {
    if coin.hash_preimage is None {
        IncomingModel { hash_preimage: first_opening(coin, preimages, 0), ..coin }
    } else {
        coin
    }
}

/// Gives the coins of a swap the preimages that were revealed, and tells
/// whether every coin now has one.
pub fn apply_preimages(coins: &mut Vec<IncomingSwapCoin>, preimages: &Vec<Preimage>) -> (r: bool)
    ensures
        incoming_models(final(coins)@) == incoming_models(old(coins)@).map_values(
            |coin: IncomingModel| opened(coin, preimages@),
        ),
        r <==> forall|i: int|
            0 <= i < final(coins)@.len() ==> (#[trigger] final(coins)@[i]).hash_preimage is Some,
{
    let ghost before = incoming_models(coins@);
    let mut all = true;
    let mut i: usize = 0;
    while i < coins.len()
        invariant
            i <= coins.len(),
            before.len() == coins.len(),
            forall|k: int|
                0 <= k < i ==> (#[trigger] coins@[k])@ == opened(before[k], preimages@),
            forall|k: int| i <= k < coins.len() ==> (#[trigger] coins@[k])@ == before[k],
            all <==> forall|k: int|
                0 <= k < i ==> (#[trigger] coins@[k]).hash_preimage is Some,
        decreases coins.len() - i,
    {
        let ghost held = coins@;
        match find_preimage(&coins[i], preimages) {
            Some(preimage) => {
                apply_preimage(&mut coins[i], preimage);
            },
            None => {},
        }
        assert(coins@ =~= held.update(i as int, coins@[i as int]));
        assert(coins@[i as int]@ == opened(before[i as int], preimages@));
        let known = coins[i].hash_preimage.is_some();
        proof {
            assert(forall|k: int| 0 <= k < i ==> #[trigger] coins@[k] == held[k]);
            if !all {
                let k = choose|k: int|
                    0 <= k < i && !((#[trigger] held[k]).hash_preimage is Some);
                assert(!(coins@[k].hash_preimage is Some));
            }
        }
        all = all && known;
        i += 1;
    }
    assert(incoming_models(coins@) =~= before.map_values(
        |coin: IncomingModel| opened(coin, preimages@),
    ));
    all
}

/// A coin keeps the preimage that it has, and gets only one that opens it.
pub proof fn law_revealed_preimages_open(coin: IncomingModel, preimages: Seq<Preimage>)
    ensures
        coin.hash_preimage is Some ==> opened(coin, preimages) == coin,
        coin.hash_preimage is None ==> match opened(coin, preimages).hash_preimage {
            Some(preimage) => preimages.contains(preimage) && opens(coin, preimage),
            None => forall|i: int|
                0 <= i < preimages.len() ==> !opens(coin, #[trigger] preimages[i]),
        },
{
    lemma_first_opening(coin, preimages, 0);
}

proof fn lemma_first_opening(coin: IncomingModel, preimages: Seq<Preimage>, i: int)
    requires
        0 <= i,
    ensures
        match first_opening(coin, preimages, i) {
            Some(preimage) => preimages.contains(preimage) && opens(coin, preimage),
            None => forall|k: int|
                i <= k < preimages.len() ==> !opens(coin, #[trigger] preimages[k]),
        },
    decreases preimages.len() - i,
{
    if i < preimages.len() && !opens(coin, preimages[i]) {
        lemma_first_opening(coin, preimages, i + 1);
    }
}

/// How a recovery begins.
#[derive(Debug, Clone, Copy, PartialEq, Eq, Structural)]
pub enum RecoveryStart {
    /// Nothing of the swap is on the chain: its coins are discarded.
    Discard,
    /// Watch the chain; the outgoing coins can be reclaimed from this height.
    Monitor { expiry: u32 },
}

/// How the recovery of a swap begins. Only a record that says that the funding
/// was not broadcast lets the coins be discarded: after a restart there may be
/// no record, and then the coins are kept.
pub open spec fn recovery_start(outgoing: Seq<OutgoingSwapCoin>, recorded: Option<bool>) -> Result<
    RecoveryStart,
    MakerError,
> {
    if outgoing.len() == 0 || outgoing[0].timelock is None {
        Err(MakerError::General("missing timelock on outgoing swapcoin"))
    } else if recorded == Some(false) {
        Ok(RecoveryStart::Discard)
    } else {
        Ok(RecoveryStart::Monitor { expiry: outgoing[0].timelock->0 })
    }
}

/// Decides how the recovery of a swap begins. `recorded` is what the swap's
/// record says of the funding's broadcast, where there is a record.
pub fn begin_recovery(outgoing: &Vec<OutgoingSwapCoin>, recorded: Option<bool>) -> (r: Result<
    RecoveryStart,
    MakerError,
>)
    ensures
        r == recovery_start(outgoing@, recorded),
{
    if outgoing.len() == 0 {
        return Err(MakerError::General("missing timelock on outgoing swapcoin"));
    }
    match outgoing[0].timelock {
        None => Err(MakerError::General("missing timelock on outgoing swapcoin")),
        Some(expiry) => {
            if let Some(false) = recorded {
                Ok(RecoveryStart::Discard)
            } else {
                Ok(RecoveryStart::Monitor { expiry })
            }
        },
    }
}

/// The coins of a swap are discarded only where its record says that nothing
/// was broadcast.
pub proof fn law_funded_swaps_are_never_discarded(
    outgoing: Seq<OutgoingSwapCoin>,
    recorded: Option<bool>,
)
    ensures
        recovery_start(outgoing, recorded) == Ok::<RecoveryStart, MakerError>(
            RecoveryStart::Discard,
        ) ==> recorded == Some(false),
{
}

/// Where a recovery stands.
#[derive(Debug, Clone, Copy, PartialEq, Eq, Structural)]
pub enum RecoveryStage {
    /// The chain is being searched for preimages.
    Checking,
    /// The incoming coins are being swept.
    Sweeping,
    /// The outgoing coins, spent by someone else, are being discarded.
    Discarding,
    /// The outgoing coins are being reclaimed.
    Reclaiming,
    /// It is being checked whether any contract is still open.
    Resolving,
    /// Waiting for the next pass.
    Resting,
    /// Nothing is left to do.
    Done,
}

/// A recovery under way.
#[derive(Debug)]
pub struct Recovery {
    /// The height from which the outgoing coins can be reclaimed.
    pub expiry: u32,
    /// Whether there are incoming coins.
    pub has_incoming: bool,
    /// Whether the timelock had expired at the start of this pass.
    pub expired: bool,
    /// The transactions that swept the incoming coins.
    pub swept: Vec<Txid>,
    /// The transactions that reclaimed outgoing coins so far.
    pub reclaimed: Vec<Txid>,
    /// Where the recovery stands.
    pub stage: RecoveryStage,
}

/// What a recovery holds.
pub struct RecoveryModel {
    pub expiry: u32,
    pub has_incoming: bool,
    pub expired: bool,
    pub swept: Seq<Txid>,
    pub reclaimed: Seq<Txid>,
    pub stage: RecoveryStage,
}

impl View for Recovery {
    type V = RecoveryModel;

    open spec fn view(&self) -> RecoveryModel {
        RecoveryModel {
            expiry: self.expiry,
            has_incoming: self.has_incoming,
            expired: self.expired,
            swept: self.swept@,
            reclaimed: self.reclaimed@,
            stage: self.stage,
        }
    }
}

/// What happened.
#[derive(Debug)]
pub enum RecoveryEvent {
    /// The contracts' spends could not be read.
    CheckFailed,
    /// The contracts' spends were read: whether every incoming coin has its
    /// preimage, and the height of the chain.
    Checked { all_preimages_known: bool, height: u32 },
    /// The sweep is over: whether it resolved anything, and by which
    /// transactions.
    Swept { any: bool, txids: Vec<Txid> },
    /// The outgoing coins were discarded.
    Discarded,
    /// Reclaiming is over: whether it resolved anything, and by which
    /// transactions.
    Reclaimed { any: bool, txids: Vec<Txid> },
    /// Whether all contracts of the swap are spent; a failed check says no.
    Resolved(bool),
    /// The pause is over.
    Rested,
}

/// What such an event holds.
pub enum RecoveryEventModel {
    CheckFailed,
    Checked { all_preimages_known: bool, height: u32 },
    Swept { any: bool, txids: Seq<Txid> },
    Discarded,
    Reclaimed { any: bool, txids: Seq<Txid> },
    Resolved(bool),
    Rested,
}

impl View for RecoveryEvent {
    type V = RecoveryEventModel;

    open spec fn view(&self) -> RecoveryEventModel {
        match self {
            RecoveryEvent::CheckFailed => RecoveryEventModel::CheckFailed,
            RecoveryEvent::Checked { all_preimages_known, height } =>
                RecoveryEventModel::Checked {
                    all_preimages_known: *all_preimages_known,
                    height: *height,
                },
            RecoveryEvent::Swept { any, txids } => RecoveryEventModel::Swept {
                any: *any,
                txids: txids@,
            },
            RecoveryEvent::Discarded => RecoveryEventModel::Discarded,
            RecoveryEvent::Reclaimed { any, txids } => RecoveryEventModel::Reclaimed {
                any: *any,
                txids: txids@,
            },
            RecoveryEvent::Resolved(all) => RecoveryEventModel::Resolved(*all),
            RecoveryEvent::Rested => RecoveryEventModel::Rested,
        }
    }
}

/// What to do next.
#[derive(Debug, Clone, Copy, PartialEq, Eq, Structural)]
pub enum RecoveryAction {
    /// Search the chain for preimages.
    Check,
    /// Sweep the incoming coins.
    Sweep,
    /// Discard the outgoing coins.
    DiscardOutgoing,
    /// Reclaim the outgoing coins.
    Reclaim,
    /// Check whether all contracts are spent.
    CheckResolved,
    /// Pause.
    Rest,
    /// Report that the swap was recovered with the preimage.
    ReportHashlock,
    /// Report that the swap was recovered after the timeout.
    ReportTimelock,
    /// The event does not belong to the stage; nothing changes.
    Ignore,
}

/// What a record update holds.
pub enum UpdateModel {
    Recovering,
    NothingToRecover,
    HashlockRecovered(Seq<Txid>),
    TimelockWaiting,
    TimelockRecovered(Seq<Txid>),
    CleanedUp,
}

/// What a record update holds.
pub open spec fn update_model(update: Option<RecordUpdate>) -> Option<UpdateModel> {
    match update {
        None => None,
        Some(RecordUpdate::Recovering) => Some(UpdateModel::Recovering),
        Some(RecordUpdate::NothingToRecover) => Some(UpdateModel::NothingToRecover),
        Some(RecordUpdate::HashlockRecovered(txids)) => Some(
            UpdateModel::HashlockRecovered(txids@),
        ),
        Some(RecordUpdate::TimelockWaiting) => Some(UpdateModel::TimelockWaiting),
        Some(RecordUpdate::TimelockRecovered(txids)) => Some(
            UpdateModel::TimelockRecovered(txids@),
        ),
        Some(RecordUpdate::CleanedUp) => Some(UpdateModel::CleanedUp),
    }
}

/// The recovery in a stage, with what goes into the record and what is done
/// next.
pub open spec fn entered(
    recovery: RecoveryModel,
    stage: RecoveryStage,
    update: Option<UpdateModel>,
    action: RecoveryAction,
) -> (RecoveryModel, Option<UpdateModel>, RecoveryAction) {
    (RecoveryModel { stage, ..recovery }, update, action)
}

/// The rest of a pass once sweeping is out of the way: reclaim where the
/// timelock has expired, pause otherwise.
pub open spec fn rest_of_pass(recovery: RecoveryModel) -> (
    RecoveryModel,
    Option<UpdateModel>,
    RecoveryAction,
) {
    if recovery.expired {
        entered(
            recovery,
            RecoveryStage::Reclaiming,
            Some(UpdateModel::TimelockWaiting),
            RecoveryAction::Reclaim,
        )
    } else {
        entered(recovery, RecoveryStage::Resting, None, RecoveryAction::Rest)
    }
}

/// How a recovery goes on after an event: the recovery, what goes into the
/// swap's record first, and what is done next.
pub open spec fn recovery_next(recovery: RecoveryModel, event: RecoveryEventModel) -> (
    RecoveryModel,
    Option<UpdateModel>,
    RecoveryAction,
) {
    match (recovery.stage, event) {
        (RecoveryStage::Checking, RecoveryEventModel::CheckFailed) => entered(
            recovery,
            RecoveryStage::Resting,
            None,
            RecoveryAction::Rest,
        ),
        (
            RecoveryStage::Checking,
            RecoveryEventModel::Checked { all_preimages_known, height },
        ) => {
            let seen = RecoveryModel { expired: height >= recovery.expiry, ..recovery };
            if all_preimages_known && recovery.has_incoming {
                entered(seen, RecoveryStage::Sweeping, None, RecoveryAction::Sweep)
            } else {
                rest_of_pass(seen)
            }
        },
        (RecoveryStage::Sweeping, RecoveryEventModel::Swept { any, txids }) => if any {
            entered(
                RecoveryModel { swept: txids, ..recovery },
                RecoveryStage::Discarding,
                Some(UpdateModel::HashlockRecovered(txids)),
                RecoveryAction::DiscardOutgoing,
            )
        } else {
            rest_of_pass(recovery)
        },
        (RecoveryStage::Discarding, RecoveryEventModel::Discarded) => entered(
            recovery,
            RecoveryStage::Done,
            Some(UpdateModel::CleanedUp),
            RecoveryAction::ReportHashlock,
        ),
        (RecoveryStage::Reclaiming, RecoveryEventModel::Reclaimed { any, txids }) => if any {
            let all = recovery.reclaimed + txids;
            entered(
                RecoveryModel { reclaimed: all, ..recovery },
                RecoveryStage::Resolving,
                Some(UpdateModel::TimelockRecovered(all)),
                RecoveryAction::CheckResolved,
            )
        } else {
            entered(recovery, RecoveryStage::Resting, None, RecoveryAction::Rest)
        },
        (RecoveryStage::Resolving, RecoveryEventModel::Resolved(all)) => if all {
            entered(
                recovery,
                RecoveryStage::Done,
                Some(UpdateModel::CleanedUp),
                RecoveryAction::ReportTimelock,
            )
        } else {
            entered(recovery, RecoveryStage::Resting, None, RecoveryAction::Rest)
        },
        (RecoveryStage::Resting, RecoveryEventModel::Rested) => entered(
            recovery,
            RecoveryStage::Checking,
            None,
            RecoveryAction::Check,
        ),
        _ => (recovery, None, RecoveryAction::Ignore),
    }
}

/// A copy of a list of transaction ids.
pub fn copy_txids(txids: &Vec<Txid>) -> (r: Vec<Txid>)
    ensures
        r@ == txids@,
{
    let mut out: Vec<Txid> = Vec::new();
    let mut i: usize = 0;
    while i < txids.len()
        invariant
            i <= txids.len(),
            out@ == txids@.subrange(0, i as int),
        decreases txids.len() - i,
    {
        out.push(txids[i]);
        i += 1;
        assert(out@ =~= txids@.subrange(0, i as int));
    }
    assert(txids@.subrange(0, i as int) =~= txids@);
    out
}

/// The recovery of a swap that begins to be monitored.
pub open spec fn monitored(expiry: u32, incoming: usize) -> RecoveryModel {
    RecoveryModel {
        expiry,
        has_incoming: incoming > 0,
        expired: false,
        swept: seq![],
        reclaimed: seq![],
        stage: RecoveryStage::Checking,
    }
}

impl Recovery {
    /// Begins to monitor a swap: its record says so, and the chain is searched
    /// first.
    pub fn monitor(expiry: u32, incoming: usize) -> (r: (Self, RecordUpdate, RecoveryAction))
        ensures
            r.0@ == monitored(expiry, incoming),
            r.1 is Recovering,
            r.2 == RecoveryAction::Check,
    {
        let recovery = Recovery {
            expiry,
            has_incoming: incoming > 0,
            expired: false,
            swept: Vec::new(),
            reclaimed: Vec::new(),
            stage: RecoveryStage::Checking,
        };
        assert(recovery@.swept =~= seq![]);
        assert(recovery@.reclaimed =~= seq![]);
        (recovery, RecordUpdate::Recovering, RecoveryAction::Check)
    }

    /// Enters the rest of a pass.
    fn finish_pass(&mut self) -> (r: (Option<RecordUpdate>, RecoveryAction))
        ensures
            (final(self)@, update_model(r.0), r.1) == rest_of_pass(old(self)@),
    {
        if self.expired {
            self.stage = RecoveryStage::Reclaiming;
            (Some(RecordUpdate::TimelockWaiting), RecoveryAction::Reclaim)
        } else {
            self.stage = RecoveryStage::Resting;
            (None, RecoveryAction::Rest)
        }
    }

    /// Goes on after an event.
    pub fn step(&mut self, event: RecoveryEvent) -> (r: (Option<RecordUpdate>, RecoveryAction))
        ensures
            (final(self)@, update_model(r.0), r.1) == recovery_next(old(self)@, event@),
    {
        match (self.stage, event) {
            (RecoveryStage::Checking, RecoveryEvent::CheckFailed) => {
                self.stage = RecoveryStage::Resting;
                (None, RecoveryAction::Rest)
            },
            (
                RecoveryStage::Checking,
                RecoveryEvent::Checked { all_preimages_known, height },
            ) => {
                self.expired = height >= self.expiry;
                if all_preimages_known && self.has_incoming {
                    self.stage = RecoveryStage::Sweeping;
                    (None, RecoveryAction::Sweep)
                } else {
                    self.finish_pass()
                }
            },
            (RecoveryStage::Sweeping, RecoveryEvent::Swept { any, txids }) => {
                if any {
                    self.stage = RecoveryStage::Discarding;
                    self.swept = copy_txids(&txids);
                    (Some(RecordUpdate::HashlockRecovered(txids)), RecoveryAction::DiscardOutgoing)
                } else {
                    self.finish_pass()
                }
            },
            (RecoveryStage::Discarding, RecoveryEvent::Discarded) => {
                self.stage = RecoveryStage::Done;
                (Some(RecordUpdate::CleanedUp), RecoveryAction::ReportHashlock)
            },
            (RecoveryStage::Reclaiming, RecoveryEvent::Reclaimed { any, txids }) => {
                if any {
                    let mut txids = txids;
                    self.reclaimed.append(&mut txids);
                    self.stage = RecoveryStage::Resolving;
                    (
                        Some(RecordUpdate::TimelockRecovered(copy_txids(&self.reclaimed))),
                        RecoveryAction::CheckResolved,
                    )
                } else {
                    self.stage = RecoveryStage::Resting;
                    (None, RecoveryAction::Rest)
                }
            },
            (RecoveryStage::Resolving, RecoveryEvent::Resolved(all)) => {
                if all {
                    self.stage = RecoveryStage::Done;
                    (Some(RecordUpdate::CleanedUp), RecoveryAction::ReportTimelock)
                } else {
                    self.stage = RecoveryStage::Resting;
                    (None, RecoveryAction::Rest)
                }
            },
            (RecoveryStage::Resting, RecoveryEvent::Rested) => {
                self.stage = RecoveryStage::Checking;
                (None, RecoveryAction::Check)
            },
            _ => (None, RecoveryAction::Ignore),
        }
    }
}

/// The outgoing coins are reclaimed only once the timelock has expired, and
/// discarded only once the incoming coins were swept.
pub proof fn law_recovery_paths(recovery: RecoveryModel, event: RecoveryEventModel)
    ensures
        ({
            let (next, update, action) = recovery_next(recovery, event);
            &&& action == RecoveryAction::Reclaim ==> next.expired
            &&& action == RecoveryAction::DiscardOutgoing ==> event is Swept && event->Swept_any
                && update == Some(UpdateModel::HashlockRecovered(event->Swept_txids))
            &&& event is Checked && recovery.stage == RecoveryStage::Checking ==> next.expired == (
            event->height >= recovery.expiry)
        }),
{
}

/// A recovery ends only with the incoming coins swept and the outgoing ones
/// discarded, or with all contracts spent; and then, and only then, the record
/// is cleaned up.
pub proof fn law_recovery_ends(recovery: RecoveryModel, event: RecoveryEventModel)
    requires
        recovery.stage != RecoveryStage::Done,
    ensures
        ({
            let (next, update, action) = recovery_next(recovery, event);
            &&& next.stage == RecoveryStage::Done <==> (recovery.stage == RecoveryStage::Discarding
                && event is Discarded) || (recovery.stage == RecoveryStage::Resolving && event
                == RecoveryEventModel::Resolved(true))
            &&& next.stage == RecoveryStage::Done <==> update == Some(UpdateModel::CleanedUp)
        }),
{
}

/// What was reclaimed is never forgotten.
pub proof fn law_reclaimed_coins_accumulate(recovery: RecoveryModel, event: RecoveryEventModel)
    ensures
        recovery.reclaimed.is_prefix_of(recovery_next(recovery, event).0.reclaimed),
{
    let next = recovery_next(recovery, event).0;
    assert(next.reclaimed.subrange(0, recovery.reclaimed.len() as int) =~= recovery.reclaimed);
}

/// The contract outputs of a swap, outgoing before incoming: each coin's contract
/// transaction and the position of the contract in it.
pub open spec fn contract_points(
    outgoing: Seq<OutgoingSwapCoin>,
    outgoing_vouts: Seq<u32>,
    incoming: Seq<IncomingSwapCoin>,
    incoming_vouts: Seq<u32>,
) -> Seq<OutPoint> {
    Seq::new(
        outgoing.len(),
        |i: int| OutPoint { txid: txid_of(outgoing[i].contract_tx@), vout: outgoing_vouts[i] },
    ) + Seq::new(
        incoming.len(),
        |i: int| OutPoint { txid: txid_of(incoming[i].contract_tx@), vout: incoming_vouts[i] },
    )
}

/// The contract outputs that must be spent before a swap counts as resolved,
/// given the position of the contract output of each coin.
pub fn contract_outpoints(
    outgoing: &Vec<OutgoingSwapCoin>,
    outgoing_vouts: &Vec<u32>,
    incoming: &Vec<IncomingSwapCoin>,
    incoming_vouts: &Vec<u32>,
) -> (r: Vec<OutPoint>)
    requires
        outgoing_vouts@.len() == outgoing@.len(),
        incoming_vouts@.len() == incoming@.len(),
    ensures
        r@ == contract_points(outgoing@, outgoing_vouts@, incoming@, incoming_vouts@),
{
    let ghost points = contract_points(outgoing@, outgoing_vouts@, incoming@, incoming_vouts@);
    let mut out: Vec<OutPoint> = Vec::new();
    let mut i: usize = 0;
    while i < outgoing.len()
        invariant
            i <= outgoing.len(),
            outgoing_vouts@.len() == outgoing@.len(),
            points == contract_points(outgoing@, outgoing_vouts@, incoming@, incoming_vouts@),
            out@ == points.subrange(0, i as int),
        decreases outgoing.len() - i,
    {
        let txid = compute_txid(&outgoing[i].contract_tx);
        out.push(OutPoint { txid, vout: outgoing_vouts[i] });
        i += 1;
        assert(out@ =~= points.subrange(0, i as int));
    }
    let mut k: usize = 0;
    while k < incoming.len()
        invariant
            k <= incoming.len(),
            incoming_vouts@.len() == incoming@.len(),
            points == contract_points(outgoing@, outgoing_vouts@, incoming@, incoming_vouts@),
            out@ == points.subrange(0, outgoing@.len() + k),
        decreases incoming.len() - k,
    {
        let txid = compute_txid(&incoming[k].contract_tx);
        out.push(OutPoint { txid, vout: incoming_vouts[k] });
        k += 1;
        assert(out@ =~= points.subrange(0, outgoing@.len() + k));
    }
    assert(out@ =~= points);
    out
}

/// Whether a swap is resolved: none of its contract outputs is unspent.
pub fn all_resolved(unspent: &Vec<bool>) -> (r: bool)
    ensures
        r <==> forall|i: int| 0 <= i < unspent@.len() ==> !#[trigger] unspent@[i],
{
    let mut i: usize = 0;
    while i < unspent.len()
        invariant
            i <= unspent.len(),
            forall|k: int| 0 <= k < i ==> !#[trigger] unspent@[k],
        decreases unspent.len() - i,
    {
        if unspent[i] {
            return false;
        }
        i += 1;
    }
    true
}

/// Searching more inputs forgets nothing, and marks exactly the outputs that
/// they spend.
proof fn lemma_search_grows(search: SearchModel, inputs: Seq<InputModel>, n: int)
    requires
        0 <= n <= inputs.len(),
    ensures
        ({
            let after = searched_inputs(search, inputs, n);
            &&& forall|p: Preimage| search.preimages.contains(p) ==> after.preimages.contains(p)
            &&& forall|point: OutPoint| #[trigger]
                after.seen.contains(point) <==> search.seen.contains(point) || exists|k: int|
                    0 <= k < n && (#[trigger] inputs[k]).previous_output == point
        }),
    decreases n,
{
    if n > 0 {
        lemma_search_grows(search, inputs, n - 1);
        let before = searched_inputs(search, inputs, n - 1);
        let after = searched_inputs(search, inputs, n);
        let input = inputs[n - 1];
        assert(after == searched(before, input));
        assert forall|p: Preimage| before.preimages.contains(p) implies after.preimages.contains(
            p,
        ) by {
            let i = choose|i: int| 0 <= i < before.preimages.len() && before.preimages[i] == p;
            assert(after.preimages[i] == p);
        }
        assert forall|point: OutPoint| #[trigger]
            after.seen.contains(point) <==> search.seen.contains(point) || exists|k: int|
                0 <= k < n && (#[trigger] inputs[k]).previous_output == point by {
            if before.seen.contains(point) {
                let i = choose|i: int| 0 <= i < before.seen.len() && before.seen[i] == point;
                assert(after.seen[i] == point);
            }
            if input.previous_output == point {
                assert(inputs[n - 1].previous_output == point);
                if !before.seen.contains(point) {
                    assert(after.seen[before.seen.len() as int] == point);
                }
            }
        }
    }
}

/// A preimage on the chain is found: where an input spends an output that was
/// not looked at before, and the second item of its witness is a preimage, a
/// scan of the transaction finds that preimage, whatever follows it in the
/// witness. What was found before is kept, and every output spent counts as
/// looked at.
pub proof fn law_revealed_preimage_is_found(
    search: SearchModel,
    inputs: Seq<InputModel>,
    k: int,
    preimage: Preimage,
)
    requires
        0 <= k < inputs.len(),
        !search.seen.contains(inputs[k].previous_output),
        forall|j: int|
            0 <= j < k ==> (#[trigger] inputs[j]).previous_output != inputs[k].previous_output,
        inputs[k].witness.len() >= 2,
        inputs[k].witness[1] == preimage@,
    ensures
        ({
            let after = searched_inputs(search, inputs, inputs.len() as int);
            &&& after.preimages.contains(preimage)
            &&& forall|p: Preimage| search.preimages.contains(p) ==> after.preimages.contains(p)
            &&& forall|i: int|
                0 <= i < inputs.len() ==> after.seen.contains(
                    (#[trigger] inputs[i]).previous_output,
                )
        }),
{
    lemma_search_grows(search, inputs, inputs.len() as int);
    lemma_search_finds(search, inputs, k, preimage, inputs.len() as int);
}

/// A preimage is found by the first input that reveals it, and stays found.
proof fn lemma_search_finds(
    search: SearchModel,
    inputs: Seq<InputModel>,
    k: int,
    preimage: Preimage,
    n: int,
)
    requires
        0 <= k < n <= inputs.len(),
        !search.seen.contains(inputs[k].previous_output),
        forall|j: int|
            0 <= j < k ==> (#[trigger] inputs[j]).previous_output != inputs[k].previous_output,
        inputs[k].witness.len() >= 2,
        inputs[k].witness[1] == preimage@,
    ensures
        searched_inputs(search, inputs, n).preimages.contains(preimage),
    decreases n,
{
    let before = searched_inputs(search, inputs, n - 1);
    let after = searched_inputs(search, inputs, n);
    assert(after == searched(before, inputs[n - 1]));
    if n - 1 == k {
        lemma_search_grows(search, inputs, k);
        lemma_array_of(preimage, inputs[k].witness[1]);
        assert(!before.seen.contains(inputs[k].previous_output));
        assert(after.preimages[before.preimages.len() as int] == preimage);
    } else {
        lemma_search_finds(search, inputs, k, preimage, n - 1);
        let i = choose|i: int| 0 <= i < before.preimages.len() && before.preimages[i] == preimage;
        assert(after.preimages[i] == preimage);
    }
}

/// The witnesses that contracts are spent with reveal the preimage: a legacy
/// contract by a signature, the preimage and its script, a taproot one by the
/// control block besides.
pub proof fn law_contract_spends_reveal_the_preimage(
    search: SearchModel,
    input: InputModel,
    signature: Seq<u8>,
    preimage: Preimage,
    script: Seq<u8>,
    block: Seq<u8>,
)
    requires
        !search.seen.contains(input.previous_output),
        input.witness == seq![signature, preimage@, script] || input.witness == seq![
            signature,
            preimage@,
            script,
            block,
        ],
    ensures
        searched_inputs(search, seq![input], 1).preimages == search.preimages.push(preimage),
        searched_inputs(search, seq![input], 1).seen == search.seen.push(input.previous_output),
{
    let inputs = seq![input];
    lemma_array_of(preimage, input.witness[1]);
    assert(searched_inputs(search, inputs, 0) == search);
    assert(searched_inputs(search, inputs, 1) == searched(search, inputs[0]));
}

/// Nothing is taken for a preimage that is not one on the chain: each that a
/// scan finds is the second item of the witness of an input, which spends an
/// output that was not looked at before.
pub proof fn law_found_preimages_are_on_the_chain(
    search: SearchModel,
    inputs: Seq<InputModel>,
    n: int,
    preimage: Preimage,
)
    requires
        0 <= n <= inputs.len(),
        searched_inputs(search, inputs, n).preimages.contains(preimage),
        !search.preimages.contains(preimage),
    ensures
        exists|k: int|
            0 <= k < n && (#[trigger] inputs[k]).witness.len() >= 2 && inputs[k].witness[1]
                == preimage@ && !search.seen.contains(inputs[k].previous_output),
    decreases n,
{
    if n > 0 {
        let before = searched_inputs(search, inputs, n - 1);
        let after = searched_inputs(search, inputs, n);
        assert(after == searched(before, inputs[n - 1]));
        if before.preimages.contains(preimage) {
            law_found_preimages_are_on_the_chain(search, inputs, n - 1, preimage);
        } else {
            let i = choose|i: int| 0 <= i < after.preimages.len() && after.preimages[i] == preimage;
            if i < before.preimages.len() {
                assert(before.preimages[i] == preimage);
            }
            let item = inputs[n - 1].witness[1];
            lemma_array_from(item);
            lemma_search_grows(search, inputs, n - 1);
            assert(inputs[n - 1].witness[1] == preimage@);
        }
    }
}

/// The array of 32 bytes holds them.
pub proof fn lemma_array_from(bytes: Seq<u8>)
    requires
        bytes.len() == 32,
    ensures
        array_of(bytes)@ == bytes,
{
    let a: [u8; 32] = [
        bytes[0],
        bytes[1],
        bytes[2],
        bytes[3],
        bytes[4],
        bytes[5],
        bytes[6],
        bytes[7],
        bytes[8],
        bytes[9],
        bytes[10],
        bytes[11],
        bytes[12],
        bytes[13],
        bytes[14],
        bytes[15],
        bytes[16],
        bytes[17],
        bytes[18],
        bytes[19],
        bytes[20],
        bytes[21],
        bytes[22],
        bytes[23],
        bytes[24],
        bytes[25],
        bytes[26],
        bytes[27],
        bytes[28],
        bytes[29],
        bytes[30],
        bytes[31],
    ];
    assert(a@ =~= bytes);
    lemma_array_of(a, bytes);
}

/// A taproot coin whose hashlock script was made with a hash is opened by the
/// preimages of that hash, and by nothing else; so is a legacy coin that is
/// locked to a hash of its kind.
pub proof fn law_only_preimages_of_the_hash_open(
    coin: IncomingModel,
    hash: [u8; 32],
    key: Seq<u8>,
    preimage: Preimage,
)
    ensures
        coin.contract_redeemscript is None && coin.hashlock_script == Some(
            hashlock_bytes(hash@, key),
        ) ==> (opens(coin, preimage) <==> sha256_of(preimage@) == hash),
        coin.contract_redeemscript is Some ==> (opens(coin, preimage) <==> coin.hashvalue == Some(
            hash160_of(preimage@),
        )),
{
    let script = hashlock_bytes(hash@, key);
    assert(script.subrange(2, 34) =~= hash@);
    if sha256_of(preimage@)@ == hash@ {
        lemma_array_of(sha256_of(preimage@), hash@);
        lemma_array_of(hash, hash@);
    }
}

/// Revealed preimages change nothing of a coin but the preimage it lacks; where
/// one of them opens it, it has one that does.
pub proof fn law_revealed_preimages_reach_the_coin(
    coin: IncomingModel,
    preimages: Seq<Preimage>,
    preimage: Preimage,
)
    requires
        preimages.contains(preimage),
        opens(coin, preimage),
        coin.hash_preimage is None,
    ensures
        opened(coin, preimages).hash_preimage is Some,
        opens(coin, opened(coin, preimages).hash_preimage->0),
        preimages.contains(opened(coin, preimages).hash_preimage->0),
        opened(coin, preimages) == (IncomingModel {
            hash_preimage: opened(coin, preimages).hash_preimage,
            ..coin
        }),
{
    lemma_first_opening(coin, preimages, 0);
    let i = choose|i: int| 0 <= i < preimages.len() && preimages[i] == preimage;
    assert(opens(coin, preimages[i]));
}

/// A taker that takes an outgoing contract with the preimage lets the maker
/// take its incoming coins: after a scan of that spend, every incoming coin
/// without a preimage whose hashlock script is locked to the same hash has a
/// preimage of that hash.
pub proof fn law_spent_contract_lets_the_maker_sweep(
    search: SearchModel,
    inputs: Seq<InputModel>,
    k: int,
    preimage: Preimage,
    coin: IncomingModel,
    key: Seq<u8>,
)
    requires
        0 <= k < inputs.len(),
        !search.seen.contains(inputs[k].previous_output),
        forall|j: int|
            0 <= j < k ==> (#[trigger] inputs[j]).previous_output != inputs[k].previous_output,
        inputs[k].witness.len() >= 3,
        inputs[k].witness[1] == preimage@,
        coin.hash_preimage is None,
        coin.contract_redeemscript is None,
        coin.hashlock_script == Some(hashlock_bytes(sha256_of(preimage@)@, key)),
    ensures
        ({
            let found = searched_inputs(search, inputs, inputs.len() as int).preimages;
            let known = opened(coin, found).hash_preimage;
            known is Some && sha256_of(known->0@) == sha256_of(preimage@)
        }),
{
    let found = searched_inputs(search, inputs, inputs.len() as int).preimages;
    law_revealed_preimage_is_found(search, inputs, k, preimage);
    law_only_preimages_of_the_hash_open(coin, sha256_of(preimage@), key, preimage);
    law_revealed_preimages_reach_the_coin(coin, found, preimage);
    law_only_preimages_of_the_hash_open(
        coin,
        sha256_of(preimage@),
        key,
        opened(coin, found).hash_preimage->0,
    );
}

/// A recovery watches the chain until the first outgoing coin's timelock,
/// unless the record says that nothing was broadcast: coins without a record
/// are never discarded.
pub proof fn law_recovery_begins(outgoing: Seq<OutgoingSwapCoin>, recorded: Option<bool>)
    ensures
        recovery_start(outgoing, recorded) is Ok <==> outgoing.len() > 0
            && outgoing[0].timelock is Some,
        recovery_start(outgoing, recorded) is Ok && recorded == Some(false) ==> recovery_start(
            outgoing,
            recorded,
        )->Ok_0 == RecoveryStart::Discard,
        recovery_start(outgoing, recorded) is Ok && recorded != Some(false) ==> recovery_start(
            outgoing,
            recorded,
        )->Ok_0 == (RecoveryStart::Monitor { expiry: outgoing[0].timelock->0 }),
{
}

/// Where every incoming coin has its preimage, they are swept, whatever the
/// height; where not, or where the sweep brings nothing, the outgoing coins are
/// reclaimed from the expiry on, and before it the maker waits.
pub proof fn law_every_pass_tries_what_it_can(
    recovery: RecoveryModel,
    all_preimages_known: bool,
    height: u32,
    txids: Seq<Txid>,
)
    requires
        recovery.stage == RecoveryStage::Checking,
    ensures
        ({
            let checked = RecoveryEventModel::Checked { all_preimages_known, height };
            let (next, _, action) = recovery_next(recovery, checked);
            let nothing = RecoveryEventModel::Swept { any: false, txids };
            let (later, _, then_action) = recovery_next(next, nothing);
            &&& all_preimages_known && recovery.has_incoming <==> action == RecoveryAction::Sweep
            &&& action != RecoveryAction::Sweep && height >= recovery.expiry <==> action
                == RecoveryAction::Reclaim
            &&& action != RecoveryAction::Sweep && height < recovery.expiry <==> action
                == RecoveryAction::Rest
            &&& action == RecoveryAction::Sweep ==> (then_action == RecoveryAction::Reclaim <==> height
                >= recovery.expiry)
            &&& action == RecoveryAction::Sweep ==> (then_action == RecoveryAction::Rest <==> height
                < recovery.expiry)
            &&& next.expiry == recovery.expiry && later.expiry == recovery.expiry
            &&& next.reclaimed == recovery.reclaimed && later.reclaimed == recovery.reclaimed
            &&& next.has_incoming == recovery.has_incoming
        }),
{
}

/// A recovery with the preimage: a sweep that brought something is recorded
/// with its transactions, the outgoing coins are discarded, and that ends it
/// with a report of the hashlock path.
pub proof fn law_swept_coins_end_the_recovery(recovery: RecoveryModel, txids: Seq<Txid>)
    requires
        recovery.stage == RecoveryStage::Sweeping,
    ensures
        ({
            let (next, update, action) = recovery_next(
                recovery,
                RecoveryEventModel::Swept { any: true, txids },
            );
            let (last, done, report) = recovery_next(next, RecoveryEventModel::Discarded);
            &&& update == Some(UpdateModel::HashlockRecovered(txids))
            &&& action == RecoveryAction::DiscardOutgoing
            &&& next.swept == txids
            &&& last.swept == txids
            &&& done == Some(UpdateModel::CleanedUp)
            &&& report == RecoveryAction::ReportHashlock
            &&& last.stage == RecoveryStage::Done
        }),
{
}

/// A recovery after the timeout: what is reclaimed is added to what was, the
/// record names all of it, and the recovery ends once every contract is spent
/// and goes on otherwise.
pub proof fn law_reclaimed_coins_end_the_recovery(
    recovery: RecoveryModel,
    txids: Seq<Txid>,
    all: bool,
)
    requires
        recovery.stage == RecoveryStage::Reclaiming,
    ensures
        ({
            let (next, update, action) = recovery_next(
                recovery,
                RecoveryEventModel::Reclaimed { any: true, txids },
            );
            let (last, done, report) = recovery_next(next, RecoveryEventModel::Resolved(all));
            let (idle, none, rest) = recovery_next(
                recovery,
                RecoveryEventModel::Reclaimed { any: false, txids },
            );
            &&& next.reclaimed == recovery.reclaimed + txids
            &&& update == Some(UpdateModel::TimelockRecovered(recovery.reclaimed + txids))
            &&& action == RecoveryAction::CheckResolved
            &&& last.reclaimed == recovery.reclaimed + txids
            &&& all <==> report == RecoveryAction::ReportTimelock
            &&& all <==> done == Some(UpdateModel::CleanedUp)
            &&& all <==> last.stage == RecoveryStage::Done
            &&& !all <==> report == RecoveryAction::Rest
            &&& rest == RecoveryAction::Rest && none is None && idle.reclaimed == recovery.reclaimed
        }),
{
}

/// A pause, and a check that failed, lose nothing: the next thing done is to
/// check again.
pub proof fn law_recovery_is_tried_again(recovery: RecoveryModel)
    requires
        recovery.stage == RecoveryStage::Checking,
    ensures
        ({
            let (resting, update, action) = recovery_next(recovery, RecoveryEventModel::CheckFailed);
            let (again, none, check) = recovery_next(resting, RecoveryEventModel::Rested);
            &&& action == RecoveryAction::Rest
            &&& update is None
            &&& check == RecoveryAction::Check
            &&& none is None
            &&& again == recovery
        }),
{
}

/// A swap is resolved by the contract outputs of all its coins, and of no
/// others.
pub proof fn law_every_contract_must_be_spent(
    outgoing: Seq<OutgoingSwapCoin>,
    outgoing_vouts: Seq<u32>,
    incoming: Seq<IncomingSwapCoin>,
    incoming_vouts: Seq<u32>,
)
    ensures
        ({
            let points = contract_points(outgoing, outgoing_vouts, incoming, incoming_vouts);
            &&& points.len() == outgoing.len() + incoming.len()
            &&& forall|i: int|
                0 <= i < outgoing.len() ==> points[i].txid == txid_of(
                    (#[trigger] outgoing[i]).contract_tx@,
                ) && points[i].vout == outgoing_vouts[i]
            &&& forall|i: int|
                0 <= i < incoming.len() ==> points[outgoing.len() + i].txid == txid_of(
                    (#[trigger] incoming[i]).contract_tx@,
                ) && points[outgoing.len() + i].vout == incoming_vouts[i]
        }),
{
}

/// The first preimage of a coin stays: a coin that has none gets it, and
/// nothing else of the coin changes.
pub proof fn law_first_preimage_stays(coin: IncomingModel, preimage: Preimage, other: Preimage)
    ensures
        with_preimage(coin, preimage).hash_preimage is Some,
        coin.hash_preimage is None ==> with_preimage(coin, preimage).hash_preimage == Some(
            preimage,
        ),
        coin.hash_preimage is Some ==> with_preimage(coin, preimage) == coin,
        with_preimage(with_preimage(coin, preimage), other) == with_preimage(coin, preimage),
        (IncomingModel { hash_preimage: coin.hash_preimage, ..with_preimage(coin, preimage) })
            == coin,
{
}

/// A recovery begins with nothing swept, nothing reclaimed and nothing expired,
/// by looking at the chain, and keeps the height of the time lock.
pub proof fn law_monitoring_begins_with_nothing(expiry: u32, incoming: usize)
    ensures
        monitored(expiry, incoming).expiry == expiry,
        monitored(expiry, incoming).has_incoming <==> incoming > 0,
        !monitored(expiry, incoming).expired,
        monitored(expiry, incoming).swept.len() == 0,
        monitored(expiry, incoming).reclaimed.len() == 0,
        monitored(expiry, incoming).stage is Checking,
{
}

} // verus!
