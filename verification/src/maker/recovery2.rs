//! Recovery from a failed swap of the first taproot protocol.

use crate::chain::{str_equal, OutPoint, Preimage};
use crate::error::MakerError;
use crate::maker::api2::{
    IncomingSwapCoinV2, IncomingV2Model, OutgoingSwapCoinV2, OutgoingV2Model,
};
use crate::primitives::{compute_txid, txid_of};
use vstd::prelude::*;

verus! {

/// What a recovery does next.
#[derive(Debug, Clone, Copy, PartialEq, Eq, Structural)]
pub enum RecoveryAction {
    /// Look whether the incoming contract's output is spent.
    CheckIncoming,
    /// Ask the watch tower for the spend of the outgoing contract, and take the
    /// preimage from it.
    LookForPreimage,
    /// Ask whether the time lock of the outgoing contract has matured.
    CheckMaturity,
    /// Look whether the outgoing contract's output is spent.
    CheckOutgoing,
    /// Ask the watch tower once more, since the outgoing contract is spent.
    LookOnceMore,
    /// Wait for a while and begin again.
    Wait,
    /// Stop watching and take the incoming contract with the preimage.
    ClaimIncoming,
    /// Stop watching and take the outgoing contract back.
    ReclaimOutgoing,
    /// Stop watching: there is nothing left to recover.
    Done,
}

/// What came of an action.
#[derive(Debug, Clone, Copy, PartialEq, Eq)]
pub enum RecoveryEvent {
    /// Whether the output that was looked at is spent.
    Spent(bool),
    /// The preimage, where the watch tower knew a spend that reveals it.
    Preimage(Option<Preimage>),
    /// Whether the time lock has matured.
    Matured(bool),
    /// The wait is over.
    Waited,
}

/// A recovery under way.
#[derive(Debug)]
pub struct RecoveryV2 {
    /// The contract that the maker receives.
    pub incoming: IncomingSwapCoinV2,
    /// What is being done.
    pub doing: RecoveryAction,
}

/// What a recovery knows and does.
pub struct RecoveryV2Model {
    pub incoming: IncomingV2Model,
    pub doing: RecoveryAction,
}

impl View for RecoveryV2 {
    type V = RecoveryV2Model;

    open spec fn view(&self) -> RecoveryV2Model {
        RecoveryV2Model { incoming: self.incoming@, doing: self.doing }
    }
}

/// Whether an event is what an action brings.
pub open spec fn answers(doing: RecoveryAction, event: RecoveryEvent) -> bool {
    match doing {
        RecoveryAction::CheckIncoming => event is Spent,
        RecoveryAction::LookForPreimage => event is Preimage,
        RecoveryAction::CheckMaturity => event is Matured,
        RecoveryAction::CheckOutgoing => event is Spent,
        RecoveryAction::LookOnceMore => event is Preimage,
        RecoveryAction::Wait => event is Waited,
        _ => false,
    }
}

/// Whether a recovery has come to its end.
pub open spec fn is_over(doing: RecoveryAction) -> bool {
    doing is ClaimIncoming || doing is ReclaimOutgoing || doing is Done
}

/// The recovery after an event.
pub open spec fn recovery_after(recovery: RecoveryV2Model, event: RecoveryEvent) -> RecoveryV2Model {
    let incoming = recovery.incoming;
    match (recovery.doing, event) {
        (RecoveryAction::CheckIncoming, RecoveryEvent::Spent(spent)) => RecoveryV2Model {
            incoming,
            doing: if spent && incoming.other_privkey is Some {
                RecoveryAction::Done
            } else if incoming.hash_preimage is Some {
                RecoveryAction::ClaimIncoming
            } else {
                RecoveryAction::LookForPreimage
            },
        },
        (RecoveryAction::LookForPreimage, RecoveryEvent::Preimage(Some(preimage)))
        | (RecoveryAction::LookOnceMore, RecoveryEvent::Preimage(Some(preimage))) =>
        RecoveryV2Model {
            incoming: IncomingV2Model { hash_preimage: Some(preimage), ..incoming },
            doing: RecoveryAction::ClaimIncoming,
        },
        (RecoveryAction::LookForPreimage, RecoveryEvent::Preimage(None)) => RecoveryV2Model {
            incoming,
            doing: RecoveryAction::CheckMaturity,
        },
        (RecoveryAction::CheckMaturity, RecoveryEvent::Matured(matured)) => RecoveryV2Model {
            incoming,
            doing: if matured {
                RecoveryAction::CheckOutgoing
            } else {
                RecoveryAction::Wait
            },
        },
        (RecoveryAction::CheckOutgoing, RecoveryEvent::Spent(spent)) => RecoveryV2Model {
            incoming,
            doing: if spent {
                RecoveryAction::LookOnceMore
            } else {
                RecoveryAction::ReclaimOutgoing
            },
        },
        (RecoveryAction::LookOnceMore, RecoveryEvent::Preimage(None)) => RecoveryV2Model {
            incoming,
            doing: RecoveryAction::Done,
        },
        (RecoveryAction::Wait, RecoveryEvent::Waited) => RecoveryV2Model {
            incoming,
            doing: RecoveryAction::CheckIncoming,
        },
        _ => recovery,
    }
}

/// The output of an outgoing contract: the first of its transaction.
pub fn outgoing_output(contract: &OutgoingSwapCoinV2) -> (r: OutPoint)
    ensures
        r == (OutPoint { txid: txid_of(contract.contract_tx@), vout: 0 }),
{
    OutPoint { txid: compute_txid(&contract.contract_tx), vout: 0 }
}

/// The output of an incoming contract: the first of its transaction.
pub fn incoming_output(contract: &IncomingSwapCoinV2) -> (r: OutPoint)
    ensures
        r == (OutPoint { txid: txid_of(contract.contract_tx@), vout: 0 }),
{
    OutPoint { txid: compute_txid(&contract.contract_tx), vout: 0 }
}

impl RecoveryV2 {
    /// Begins a recovery. `timelock` is that of the outgoing contract, without
    /// which there is no way back.
    pub fn begin(incoming: IncomingSwapCoinV2, timelock: Option<u32>) -> (r: Result<
        (Self, u32),
        MakerError,
    >)
        ensures
            match (r, timelock) {
                (Ok((recovery, lock)), Some(expected)) => lock == expected && recovery@ == (
                RecoveryV2Model { incoming: incoming@, doing: RecoveryAction::CheckIncoming }),
                (Err(e), None) => e == MakerError::General("missing timelock on outgoing swapcoin"),
                _ => false,
            },
    {
        match timelock {
            None => Err(MakerError::General("missing timelock on outgoing swapcoin")),
            Some(lock) => Ok(
                (RecoveryV2 { incoming, doing: RecoveryAction::CheckIncoming }, lock),
            ),
        }
    }

    /// Takes what came of the last action and returns the next. An event that
    /// the action does not bring changes nothing.
    pub fn step(&mut self, event: RecoveryEvent) -> (r: RecoveryAction)
        ensures
            final(self)@ == recovery_after(old(self)@, event),
            r == final(self).doing,
    {
        match (self.doing, event) {
            (RecoveryAction::CheckIncoming, RecoveryEvent::Spent(spent)) => {
                self.doing = if spent && self.incoming.other_privkey.is_some() {
                    RecoveryAction::Done
                } else if self.incoming.hash_preimage.is_some() {
                    RecoveryAction::ClaimIncoming
                } else {
                    RecoveryAction::LookForPreimage
                };
            },
            (RecoveryAction::LookForPreimage, RecoveryEvent::Preimage(Some(preimage)))
            | (RecoveryAction::LookOnceMore, RecoveryEvent::Preimage(Some(preimage))) => {
                self.incoming.hash_preimage = Some(preimage);
                self.doing = RecoveryAction::ClaimIncoming;
            },
            (RecoveryAction::LookForPreimage, RecoveryEvent::Preimage(None)) => {
                self.doing = RecoveryAction::CheckMaturity;
            },
            (RecoveryAction::CheckMaturity, RecoveryEvent::Matured(matured)) => {
                self.doing = if matured {
                    RecoveryAction::CheckOutgoing
                } else {
                    RecoveryAction::Wait
                };
            },
            (RecoveryAction::CheckOutgoing, RecoveryEvent::Spent(spent)) => {
                self.doing = if spent {
                    RecoveryAction::LookOnceMore
                } else {
                    RecoveryAction::ReclaimOutgoing
                };
            },
            (RecoveryAction::LookOnceMore, RecoveryEvent::Preimage(None)) => {
                self.doing = RecoveryAction::Done;
            },
            (RecoveryAction::Wait, RecoveryEvent::Waited) => {
                self.doing = RecoveryAction::CheckIncoming;
            },
            _ => {},
        }
        self.doing
    }
}

/// Whether what a recovery does fits what it knows: it claims with a preimage,
/// and looks for one or reclaims without.
pub open spec fn consistent(recovery: RecoveryV2Model) -> bool {
    match recovery.doing {
        RecoveryAction::ClaimIncoming => recovery.incoming.hash_preimage is Some,
        RecoveryAction::CheckIncoming => true,
        RecoveryAction::Done => true,
        _ => recovery.incoming.hash_preimage is None,
    }
}

/// A recovery takes the incoming contract only with a preimage, and takes the
/// outgoing contract back only while it knows none and just saw its output
/// unspent; a preimage, once known, is kept.
pub proof fn law_hashlock_comes_first(recovery: RecoveryV2Model, event: RecoveryEvent)
    requires
        consistent(recovery),
    ensures
        consistent(recovery_after(recovery, event)),
        recovery_after(recovery, event).doing is ReclaimOutgoing && !(
        recovery.doing is ReclaimOutgoing) ==> recovery.doing is CheckOutgoing && event
            == RecoveryEvent::Spent(false) && recovery.incoming.hash_preimage is None,
        recovery.incoming.hash_preimage is Some ==> recovery_after(
            recovery,
            event,
        ).incoming.hash_preimage == recovery.incoming.hash_preimage,
{
}

/// A recovery gives up only where the keys were exchanged and the incoming
/// contract is spent, or where the outgoing contract is spent and no preimage
/// can be had.
pub proof fn law_when_recovery_is_not_needed(recovery: RecoveryV2Model, event: RecoveryEvent)
    requires
        !(recovery.doing is Done),
        recovery_after(recovery, event).doing is Done,
    ensures
        (recovery.doing is CheckIncoming && event == RecoveryEvent::Spent(true)
            && recovery.incoming.other_privkey is Some) || (recovery.doing is LookOnceMore && event
            == RecoveryEvent::Preimage(None)),
{
}

/// Until a recovery is over, each answer moves it on, and after at most five
/// answers it is over or waits.
pub proof fn law_recovery_moves_on(recovery: RecoveryV2Model, event: RecoveryEvent)
    requires
        !is_over(recovery.doing),
        answers(recovery.doing, event),
    ensures
        recovery.doing is Wait || remaining(recovery_after(recovery, event).doing) < remaining(
            recovery.doing,
        ),
        recovery.doing is Wait ==> recovery_after(recovery, event).doing is CheckIncoming,
{
}

/// How many answers are left at most until a recovery is over or waits.
pub open spec fn remaining(doing: RecoveryAction) -> nat {
    match doing {
        RecoveryAction::CheckIncoming => 5,
        RecoveryAction::LookForPreimage => 4,
        RecoveryAction::CheckMaturity => 3,
        RecoveryAction::CheckOutgoing => 2,
        RecoveryAction::LookOnceMore => 1,
        _ => 0,
    }
}

/// Whether `position` is that of the first outgoing contract of the swap `id`.
pub open spec fn is_first_of_swap(
    outgoing: Seq<OutgoingSwapCoinV2>,
    id: Seq<char>,
    position: int,
) -> bool {
    &&& 0 <= position < outgoing.len()
    &&& outgoing[position]@.swap_id == Some(id)
    &&& forall|j: int| 0 <= j < position ==> (#[trigger] outgoing[j])@.swap_id != Some(id)
}

/// Whether a swap has an outgoing contract.
pub open spec fn has_outgoing(outgoing: Seq<OutgoingSwapCoinV2>, id: Seq<char>) -> bool {
    exists|j: int| 0 <= j < outgoing.len() && (#[trigger] outgoing[j])@.swap_id == Some(id)
}

/// The outgoing contract that belongs to an incoming one.
fn find_outgoing(outgoing: &Vec<OutgoingSwapCoinV2>, id: &str) -> (r: Option<usize>)
    ensures
        match r {
            Some(position) => is_first_of_swap(outgoing@, id@, position as int),
            None => !has_outgoing(outgoing@, id@),
        },
{
    let mut i: usize = 0;
    while i < outgoing.len()
        invariant
            i <= outgoing.len(),
            forall|j: int| 0 <= j < i ==> (#[trigger] outgoing@[j])@.swap_id != Some(id@),
        decreases outgoing.len() - i,
    {
        let found = match &outgoing[i].swap_id {
            Some(other) => str_equal(other.as_str(), id),
            None => false,
        };
        if found {
            return Some(i);
        }
        i += 1;
    }
    None
}

/// Whether an incoming contract can be recovered with its counterpart.
pub open spec fn has_counterpart(
    incoming: IncomingSwapCoinV2,
    outgoing: Seq<OutgoingSwapCoinV2>,
) -> bool {
    incoming@.swap_id is Some && has_outgoing(outgoing, incoming@.swap_id->0)
}

/// The incoming contracts among the first `n` that have a counterpart, in
/// order.
pub open spec fn recoverable(
    incoming: Seq<IncomingSwapCoinV2>,
    outgoing: Seq<OutgoingSwapCoinV2>,
    n: int,
) -> Seq<IncomingV2Model>
    decreases n,
{
    if n <= 0 {
        seq![]
    } else {
        let earlier = recoverable(incoming, outgoing, n - 1);
        if has_counterpart(incoming[n - 1], outgoing) {
            earlier.push(incoming[n - 1]@)
        } else {
            earlier
        }
    }
}

/// Whether `pair` is an incoming contract with the first outgoing contract of
/// the same swap.
pub open spec fn belongs_together(
    incoming: IncomingV2Model,
    counterpart: OutgoingV2Model,
    outgoing: Seq<OutgoingSwapCoinV2>,
) -> bool {
    &&& incoming.swap_id is Some
    &&& exists|p: int| #[trigger]
        is_first_of_swap(outgoing, incoming.swap_id->0, p) && counterpart == outgoing[p]@
}

/// Pairs the contracts of unfinished swaps after a restart: each incoming
/// contract with the first outgoing contract of the same swap. An incoming
/// contract without a swap id or without a counterpart is skipped.
pub fn restore_broadcasted_contracts_on_reboot_v2(
    incoming: &Vec<IncomingSwapCoinV2>,
    outgoing: &Vec<OutgoingSwapCoinV2>,
) -> (r: Vec<(IncomingSwapCoinV2, OutgoingSwapCoinV2)>)
    ensures
        r@.len() == recoverable(incoming@, outgoing@, incoming@.len() as int).len(),
        forall|k: int|
            0 <= k < r@.len() ==> (#[trigger] r@[k]).0@ == recoverable(
                incoming@,
                outgoing@,
                incoming@.len() as int,
            )[k] && belongs_together(r@[k].0@, r@[k].1@, outgoing@),
{
    let mut pairs: Vec<(IncomingSwapCoinV2, OutgoingSwapCoinV2)> = Vec::new();
    let mut i: usize = 0;
    while i < incoming.len()
        invariant
            i <= incoming.len(),
            pairs@.len() == recoverable(incoming@, outgoing@, i as int).len(),
            forall|k: int|
                0 <= k < pairs@.len() ==> (#[trigger] pairs@[k]).0@ == recoverable(
                    incoming@,
                    outgoing@,
                    i as int,
                )[k] && belongs_together(pairs@[k].0@, pairs@[k].1@, outgoing@),
        decreases incoming.len() - i,
    {
        let ghost before = pairs@;
        match &incoming[i].swap_id {
            None => {},
            Some(id) => match find_outgoing(outgoing, id.as_str()) {
                None => {},
                Some(p) => {
                    assert(outgoing@[p as int]@.swap_id == Some(id@));
                    pairs.push((incoming[i].clone(), outgoing[p].clone()));
                    assert(is_first_of_swap(outgoing@, id@, p as int));
                },
            },
        }
        i += 1;
        assert(forall|k: int| 0 <= k < before.len() ==> pairs@[k] == before[k]);
    }
    pairs
}

/// After a restart every unfinished incoming contract that has a counterpart
/// is recovered.
pub proof fn law_counterparts_are_recovered(
    incoming: Seq<IncomingSwapCoinV2>,
    outgoing: Seq<OutgoingSwapCoinV2>,
    n: int,
    i: int,
)
    requires
        0 <= i < n <= incoming.len(),
        has_counterpart(incoming[i], outgoing),
    ensures
        recoverable(incoming, outgoing, n).contains(incoming[i]@),
    decreases n,
{
    let all = recoverable(incoming, outgoing, n);
    if i == n - 1 {
        assert(all[all.len() - 1] == incoming[i]@);
    } else {
        law_counterparts_are_recovered(incoming, outgoing, n - 1, i);
        let earlier = recoverable(incoming, outgoing, n - 1);
        let k = choose|k: int| 0 <= k < earlier.len() && earlier[k] == incoming[i]@;
        assert(all[k] == incoming[i]@);
    }
}

/// A preimage that the watch tower learns of from a spend, at either of the
/// two moments at which it is asked, is the one that the incoming contract is
/// then taken with.
pub proof fn law_learned_preimage_claims(
    incoming: IncomingV2Model,
    preimage: Preimage,
    spent: bool,
    matured: bool,
)
    requires
        incoming.hash_preimage is None,
        !spent || incoming.other_privkey is None,
    ensures
        ({
            let looked = recovery_after(
                RecoveryV2Model { incoming, doing: RecoveryAction::CheckIncoming },
                RecoveryEvent::Spent(spent),
            );
            let found = recovery_after(looked, RecoveryEvent::Preimage(Some(preimage)));
            let asked = recovery_after(looked, RecoveryEvent::Preimage(None));
            let known = recovery_after(asked, RecoveryEvent::Matured(true));
            let early = recovery_after(asked, RecoveryEvent::Matured(false));
            let gone = recovery_after(known, RecoveryEvent::Spent(true));
            let late = recovery_after(gone, RecoveryEvent::Preimage(Some(preimage)));
            let back = recovery_after(known, RecoveryEvent::Spent(false));
            &&& looked.doing is LookForPreimage
            &&& found.doing is ClaimIncoming
            &&& found.incoming == (IncomingV2Model { hash_preimage: Some(preimage), ..incoming })
            &&& asked.doing is CheckMaturity
            &&& known.doing is CheckOutgoing
            &&& gone.doing is LookOnceMore
            &&& late.doing is ClaimIncoming
            &&& late.incoming == (IncomingV2Model { hash_preimage: Some(preimage), ..incoming })
            &&& back.doing is ReclaimOutgoing
            &&& back.incoming == incoming
            &&& early.doing is Wait
            &&& recovery_after(early, RecoveryEvent::Waited) == (RecoveryV2Model {
                incoming,
                doing: RecoveryAction::CheckIncoming,
            })
            &&& recovery_after(gone, RecoveryEvent::Preimage(None)).doing is Done
        }),
{
}

/// A contract whose preimage is known already is taken at once, unless it is
/// spent and the keys were exchanged.
pub proof fn law_known_preimage_claims_at_once(incoming: IncomingV2Model, spent: bool)
    requires
        incoming.hash_preimage is Some,
    ensures
        ({
            let after = recovery_after(
                RecoveryV2Model { incoming, doing: RecoveryAction::CheckIncoming },
                RecoveryEvent::Spent(spent),
            );
            &&& after.incoming == incoming
            &&& spent && incoming.other_privkey is Some ==> after.doing is Done
            &&& !spent || incoming.other_privkey is None ==> after.doing is ClaimIncoming
        }),
{
}

/// A recovery that is over stays so, and an event that the action under way
/// does not bring changes nothing; nothing but the preimage of the contract
/// ever changes.
pub proof fn law_recovery_changes_the_preimage_only(
    recovery: RecoveryV2Model,
    event: RecoveryEvent,
)
    ensures
        recovery.doing is ClaimIncoming || recovery.doing is ReclaimOutgoing
            || recovery.doing is Done ==> recovery_after(recovery, event) == recovery,
        event is Waited && !(recovery.doing is Wait) ==> recovery_after(recovery, event)
            == recovery,
        event is Matured && !(recovery.doing is CheckMaturity) ==> recovery_after(recovery, event)
            == recovery,
        event is Spent && !(recovery.doing is CheckIncoming || recovery.doing is CheckOutgoing)
            ==> recovery_after(recovery, event) == recovery,
        event is Preimage && !(recovery.doing is LookForPreimage
            || recovery.doing is LookOnceMore) ==> recovery_after(recovery, event) == recovery,
        (IncomingV2Model {
            hash_preimage: recovery.incoming.hash_preimage,
            ..recovery_after(recovery, event).incoming
        }) == recovery.incoming,
{
}

/// What is paired after a restart are contracts of the incoming list, no more
/// of them than it holds, each of a swap that has an outgoing contract; and its
/// counterpart is of the same swap.
pub proof fn law_pairs_are_of_one_swap(
    incoming: Seq<IncomingSwapCoinV2>,
    outgoing: Seq<OutgoingSwapCoinV2>,
    counterpart: OutgoingV2Model,
    n: int,
    k: int,
)
    requires
        0 <= n <= incoming.len(),
        0 <= k < recoverable(incoming, outgoing, n).len(),
    ensures
        recoverable(incoming, outgoing, n).len() <= n,
        exists|i: int|
            0 <= i < n && (#[trigger] incoming[i])@ == recoverable(incoming, outgoing, n)[k],
        recoverable(incoming, outgoing, n)[k].swap_id is Some,
        belongs_together(recoverable(incoming, outgoing, n)[k], counterpart, outgoing)
            ==> counterpart.swap_id == recoverable(incoming, outgoing, n)[k].swap_id,
    decreases n,
{
    let before = recoverable(incoming, outgoing, n - 1);
    if n > 0 {
        if before.len() > 0 {
            let m = if k < before.len() {
                k
            } else {
                0
            };
            law_pairs_are_of_one_swap(incoming, outgoing, counterpart, n - 1, m);
        }
        if k < before.len() {
            let i = choose|i: int| 0 <= i < n - 1 && (#[trigger] incoming[i])@ == before[k];
            assert(incoming[i]@ == recoverable(incoming, outgoing, n)[k]);
        } else {
            assert(incoming[n - 1]@ == recoverable(incoming, outgoing, n)[k]);
        }
    }
}

} // verus!
