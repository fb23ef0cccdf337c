//! The fidelity bond: the coins that a maker locks up so that its offers count.

use crate::chain::Txid;
use crate::error::{MakerError, WalletFault};
use crate::primitives::LOCK_TIME_THRESHOLD;
use crate::protocol::common_messages::{FidelityBond, FidelityProof};
use vstd::prelude::*;

verus! {

/// Seconds by which each wait for funds exceeds the last.
pub const WAIT_STEP: u64 = 10;

/// Most seconds of a wait for liquidity.
pub const MAX_LIQUIDITY_WAIT: u64 = 600;

/// The height at which a bond created at `tip` is released, or why there is
/// none.
pub open spec fn release_height(timelock: u32, tip: u64) -> Result<u32, MakerError> {
    if tip > u32::MAX {
        Err(MakerError::General("backend tip does not fit u32"))
    } else if timelock + tip > u32::MAX {
        Err(MakerError::General("fidelity locktime height overflows"))
    } else if timelock + tip >= LOCK_TIME_THRESHOLD {
        Err(MakerError::Wallet(WalletFault::Locktime))
    } else {
        Ok((timelock + tip) as u32)
    }
}

/// The height at which a bond created at `tip` is released.
pub fn bond_lock_height(timelock: u32, tip: u64) -> (r: Result<u32, MakerError>)
    ensures
        r == release_height(timelock, tip),
{
    if tip > u32::MAX as u64 {
        return Err(MakerError::General("backend tip does not fit u32"));
    }
    match timelock.checked_add(tip as u32) {
        None => Err(MakerError::General("fidelity locktime height overflows")),
        Some(height) => if height >= LOCK_TIME_THRESHOLD {
            Err(MakerError::Wallet(WalletFault::Locktime))
        } else {
            Ok(height)
        },
    }
}

/// Whether a bond was broadcast and has not confirmed yet.
pub open spec fn is_pending(bond: FidelityBond) -> bool {
    !bond.is_spent && bond.conf_height is None
}

/// The first bond that was broadcast and has not confirmed yet: its index in
/// the wallet and its transaction.
pub fn pending_bond(bonds: &Vec<FidelityBond>) -> (r: Option<(u32, Txid)>)
    ensures
        match r {
            Some((index, txid)) => exists|i: int|
                {
                    &&& 0 <= i < bonds@.len()
                    &&& is_pending(#[trigger] bonds@[i])
                    &&& index == bonds@[i].bond_index
                    &&& txid == bonds@[i].outpoint.txid
                    &&& forall|j: int| 0 <= j < i ==> !is_pending(#[trigger] bonds@[j])
                },
            None => forall|j: int| 0 <= j < bonds@.len() ==> !is_pending(#[trigger] bonds@[j]),
        },
{
    let mut i: usize = 0;
    while i < bonds.len()
        invariant
            i <= bonds.len(),
            forall|j: int| 0 <= j < i ==> !is_pending(#[trigger] bonds@[j]),
        decreases bonds.len() - i,
    {
        if !bonds[i].is_spent && bonds[i].conf_height.is_none() {
            assert(is_pending(bonds@[i as int]));
            return Some((bonds[i].bond_index, bonds[i].outpoint.txid));
        }
        i += 1;
    }
    None
}

/// What the maker of the first taproot protocol knows of a bond's progress.
#[derive(Debug, Clone, Copy, PartialEq, Eq, Structural)]
pub struct BondProgress {
    /// The height the bond confirmed at, once it has.
    pub conf_height: Option<u32>,
    /// When its certificate expires, once there is one.
    pub cert_expiry: Option<u32>,
}

/// Whether a bond has neither confirmed nor got a certificate.
pub open spec fn is_unconfirmed(bond: BondProgress) -> bool {
    bond.conf_height is None && bond.cert_expiry is None
}

/// The positions of the bonds among the first `n` that are to be waited for.
pub open spec fn unconfirmed_positions(bonds: Seq<BondProgress>, n: int) -> Seq<int>
    decreases n,
{
    if n <= 0 {
        seq![]
    } else if is_unconfirmed(bonds[n - 1]) {
        unconfirmed_positions(bonds, n - 1).push(n - 1)
    } else {
        unconfirmed_positions(bonds, n - 1)
    }
}

/// The bonds that are to be waited for, by their positions.
pub fn unconfirmed_bonds(bonds: &Vec<BondProgress>) -> (r: Vec<usize>)
    ensures
        r@.map_values(|i: usize| i as int) == unconfirmed_positions(bonds@, bonds@.len() as int),
{
    let mut out: Vec<usize> = Vec::new();
    let mut i: usize = 0;
    assert(out@.map_values(|k: usize| k as int) =~= seq![]);
    while i < bonds.len()
        invariant
            i <= bonds.len(),
            out@.map_values(|k: usize| k as int) == unconfirmed_positions(bonds@, i as int),
        decreases bonds.len() - i,
    {
        let ghost before = out@;
        if bonds[i].conf_height.is_none() && bonds[i].cert_expiry.is_none() {
            out.push(i);
            assert(out@.map_values(|k: usize| k as int) =~= before.map_values(
                |k: usize| k as int,
            ).push(i as int));
        }
        i += 1;
    }
    out
}

/// How a maker sets up its bond.
#[derive(Debug, Clone, Copy, PartialEq, Eq, Structural)]
pub struct BondPolicy {
    /// Whether a bond that has not confirmed yet is waited for first.
    pub adopt_pending: bool,
    /// Whether a new bond is waited for before its proof is made.
    pub await_confirmation: bool,
    /// How many steps the wait for funds grows to at most.
    pub max_steps: u64,
    /// Whether a proof made earlier serves where the set-up is cut short.
    pub keep_previous: bool,
    /// Whether a stop fails the set-up while it waits for funds; it is noticed
    /// after the wait otherwise.
    pub stops_waiting: bool,
}

/// The policy of the maker server.
pub fn maker_policy() -> (r: BondPolicy)
    ensures
        r == (BondPolicy {
            adopt_pending: true,
            await_confirmation: true,
            max_steps: 60,
            keep_previous: true,
            stops_waiting: true,
        }),
{
    BondPolicy {
        adopt_pending: true,
        await_confirmation: true,
        max_steps: 60,
        keep_previous: true,
        stops_waiting: true,
    }
}

/// The policy of the unified maker server.
pub fn unified_policy() -> (r: BondPolicy)
    ensures
        r == (BondPolicy {
            adopt_pending: false,
            await_confirmation: false,
            max_steps: 60,
            keep_previous: true,
            stops_waiting: false,
        }),
{
    BondPolicy {
        adopt_pending: false,
        await_confirmation: false,
        max_steps: 60,
        keep_previous: true,
        stops_waiting: false,
    }
}

/// The policy of the maker of the first taproot protocol.
pub fn taproot_policy() -> (r: BondPolicy)
    ensures
        r == (BondPolicy {
            adopt_pending: false,
            await_confirmation: false,
            max_steps: 600,
            keep_previous: false,
            stops_waiting: false,
        }),
{
    BondPolicy {
        adopt_pending: false,
        await_confirmation: false,
        max_steps: 600,
        keep_previous: false,
        stops_waiting: false,
    }
}

/// What a set-up does next.
#[allow(inconsistent_fields)]
#[derive(Debug, Clone, Copy, PartialEq, Eq)]
pub enum BondAction {
    /// Look for a bond that has not confirmed yet.
    FindPending,
    /// See to it that the bond is broadcast, wait until it confirms, and record
    /// the height.
    AwaitPending { index: u32, txid: Txid },
    /// Look for the bond of the highest value.
    FindHighest,
    /// Make the proof of an existing bond.
    ProveExisting { index: u32 },
    /// Ask for the height of the chain.
    ReadTip,
    /// Ask whether the maker is to stop.
    CheckShutdown,
    /// Sync the wallet and create a bond that is released at `height`.
    Create { amount: u64, height: u32 },
    /// Ask for `needed` satoshis and wait.
    AwaitFunds { seconds: u64, needed: u64 },
    /// Wait until the new bond confirms, and record the height.
    AwaitNew { index: u32, txid: Txid },
    /// Make the proof of the new bond.
    ProveNew { index: u32 },
    /// Sync and save the wallet.
    Save,
    /// The set-up is over.
    Finish,
}

/// What came of an action.
#[derive(Debug)]
pub enum BondEvent {
    /// The first bond that has not confirmed yet.
    Pending(Option<(u32, Txid)>),
    /// A pending or new bond has confirmed.
    Confirmed,
    /// The bond of the highest value, and the number of bonds.
    Highest(Option<u32>, usize),
    /// A proof was made.
    Proof(FidelityProof),
    /// The height of the chain.
    Tip(u64),
    /// Whether the maker is to stop.
    Shutdown(bool),
    /// A bond was created and broadcast.
    Created(u32, Txid),
    /// No bond could be created.
    Failed(WalletFault),
    /// The wait is over; whether it ended because the maker is to stop.
    Waited(bool),
    /// The wallet was saved.
    Saved,
}

/// The set-up of a fidelity bond under way.
#[derive(Debug)]
pub struct BondSetup {
    /// How the bond is set up.
    pub policy: BondPolicy,
    /// The amount to lock up in satoshis.
    pub amount: u64,
    /// The blocks to lock it for.
    pub timelock: u32,
    /// The height at which a new bond is released.
    pub height: u32,
    /// How often a bond was to be created.
    pub attempts: u64,
    /// The proof, an earlier one until a new one is made.
    pub proof: Option<FidelityProof>,
    /// What is being done.
    pub doing: BondAction,
}

/// The action that follows an event, or why the set-up fails.
pub open spec fn bond_next(setup: BondSetup, event: BondEvent) -> Result<BondAction, MakerError> {
    match (setup.doing, event) {
        (BondAction::FindPending, BondEvent::Pending(Some((index, txid)))) => Ok(
            BondAction::AwaitPending { index, txid },
        ),
        (BondAction::FindPending, BondEvent::Pending(None)) => Ok(BondAction::FindHighest),
        (BondAction::AwaitPending { .. }, BondEvent::Confirmed) => Ok(BondAction::FindPending),
        (BondAction::FindHighest, BondEvent::Highest(Some(index), bonds)) => if index < bonds {
            Ok(BondAction::ProveExisting { index })
        } else {
            Err(MakerError::General("fidelity bond index stale"))
        },
        (BondAction::FindHighest, BondEvent::Highest(None, _)) => Ok(BondAction::ReadTip),
        (BondAction::ProveExisting { .. }, BondEvent::Proof(_)) => Ok(BondAction::Finish),
        (BondAction::ReadTip, BondEvent::Tip(tip)) => match release_height(setup.timelock, tip) {
            Ok(_) => Ok(BondAction::CheckShutdown),
            Err(e) => Err(e),
        },
        (BondAction::CheckShutdown, BondEvent::Shutdown(stop)) => if !stop {
            Ok(BondAction::Create { amount: setup.amount, height: setup.height })
        } else if setup.policy.keep_previous {
            Ok(BondAction::Finish)
        } else {
            Err(MakerError::General("Failed to create fidelity bond due to shutdown"))
        },
        (
            BondAction::Create { .. },
            BondEvent::Failed(WalletFault::InsufficientFund { available, required }),
        ) => Ok(
            BondAction::AwaitFunds {
                seconds: wait_for_funds(setup.attempts, setup.policy.max_steps),
                needed: (required - available) as u64,
            },
        ),
        (BondAction::Create { .. }, BondEvent::Failed(fault)) => Err(MakerError::Wallet(fault)),
        (BondAction::Create { .. }, BondEvent::Created(index, txid)) =>
        if setup.policy.await_confirmation {
            Ok(BondAction::AwaitNew { index, txid })
        } else {
            Ok(BondAction::ProveNew { index })
        },
        (BondAction::AwaitFunds { .. }, BondEvent::Waited(stopped)) => if stopped
            && setup.policy.stops_waiting {
            Err(MakerError::General("Shutdown requested"))
        } else {
            Ok(BondAction::CheckShutdown)
        },
        (BondAction::AwaitNew { index, .. }, BondEvent::Confirmed) => Ok(
            BondAction::ProveNew { index },
        ),
        (BondAction::ProveNew { .. }, BondEvent::Proof(_)) => Ok(BondAction::Save),
        (BondAction::Save, BondEvent::Saved) => Ok(BondAction::Finish),
        _ => Ok(setup.doing),
    }
}

/// The seconds of the wait for funds after some attempts.
pub open spec fn wait_for_funds(attempts: u64, max_steps: u64) -> u64 {
    if attempts < max_steps {
        (WAIT_STEP * attempts) as u64
    } else {
        (WAIT_STEP * max_steps) as u64
    }
}

/// The set-up after an event.
pub open spec fn bond_after(setup: BondSetup, event: BondEvent) -> BondSetup {
    let doing = match bond_next(setup, event) {
        Ok(next) => next,
        Err(_) => setup.doing,
    };
    BondSetup {
        doing,
        proof: match (setup.doing, event) {
            (BondAction::ProveExisting { .. }, BondEvent::Proof(proof))
            | (BondAction::ProveNew { .. }, BondEvent::Proof(proof)) => Some(proof),
            _ => setup.proof,
        },
        height: match (setup.doing, event) {
            (BondAction::ReadTip, BondEvent::Tip(tip)) => match release_height(
                setup.timelock,
                tip,
            ) {
                Ok(height) => height,
                Err(_) => setup.height,
            },
            _ => setup.height,
        },
        attempts: match (setup.doing, event) {
            (BondAction::CheckShutdown, BondEvent::Shutdown(false)) => if setup.attempts
                < u64::MAX {
                (setup.attempts + 1) as u64
            } else {
                u64::MAX
            },
            _ => setup.attempts,
        },
        ..setup
    }
}

/// Whether an event can come of an action at all: a wallet that lacks funds
/// holds less than it needs.
pub open spec fn is_sound(event: BondEvent) -> bool {
    event matches BondEvent::Failed(WalletFault::InsufficientFund { available, required })
        ==> available <= required
}

/// The set-up of a bond at its start.
pub open spec fn begun(
    policy: BondPolicy,
    amount: u64,
    timelock: u32,
    proof: Option<FidelityProof>,
) -> BondSetup {
    BondSetup {
        policy,
        amount,
        timelock,
        height: 0,
        attempts: 0,
        proof,
        doing: if policy.adopt_pending {
            BondAction::FindPending
        } else {
            BondAction::FindHighest
        },
    }
}

impl BondSetup {
    /// Begins the set-up of a bond. `proof` is one that was made earlier.
    pub fn begin(
        policy: BondPolicy,
        amount: u64,
        timelock: u32,
        proof: Option<FidelityProof>,
    ) -> (r: Self)
        ensures
            r == begun(policy, amount, timelock, proof),
    {
        let doing = if policy.adopt_pending {
            BondAction::FindPending
        } else {
            BondAction::FindHighest
        };
        BondSetup { policy, amount, timelock, height: 0, attempts: 0, proof, doing }
    }

    /// Takes what came of the last action and returns the next. An event that
    /// the action does not bring changes nothing.
    pub fn step(&mut self, event: BondEvent) -> (r: Result<BondAction, MakerError>)
        requires
            is_sound(event),
            old(self).policy.max_steps <= 1_000_000,
        ensures
            *final(self) == bond_after(*old(self), event),
            r == bond_next(*old(self), event),
    {
        let next: Result<BondAction, MakerError> = match (self.doing, event) {
            (BondAction::FindPending, BondEvent::Pending(Some((index, txid)))) => Ok(
                BondAction::AwaitPending { index, txid },
            ),
            (BondAction::FindPending, BondEvent::Pending(None)) => Ok(BondAction::FindHighest),
            (BondAction::AwaitPending { .. }, BondEvent::Confirmed) => Ok(BondAction::FindPending),
            (BondAction::FindHighest, BondEvent::Highest(Some(index), bonds)) => {
                if (index as u64) < (bonds as u64) {
                    Ok(BondAction::ProveExisting { index })
                } else {
                    Err(MakerError::General("fidelity bond index stale"))
                }
            },
            (BondAction::FindHighest, BondEvent::Highest(None, _)) => Ok(BondAction::ReadTip),
            (BondAction::ProveExisting { .. }, BondEvent::Proof(proof)) => {
                self.proof = Some(proof);
                Ok(BondAction::Finish)
            },
            (BondAction::ReadTip, BondEvent::Tip(tip)) => match bond_lock_height(
                self.timelock,
                tip,
            ) {
                Ok(height) => {
                    self.height = height;
                    Ok(BondAction::CheckShutdown)
                },
                Err(e) => Err(e),
            },
            (BondAction::CheckShutdown, BondEvent::Shutdown(stop)) => {
                if !stop {
                    self.attempts = self.attempts.saturating_add(1);
                    Ok(BondAction::Create { amount: self.amount, height: self.height })
                } else if self.policy.keep_previous {
                    Ok(BondAction::Finish)
                } else {
                    Err(MakerError::General("Failed to create fidelity bond due to shutdown"))
                }
            },
            (BondAction::Create { .. }, BondEvent::Failed(fault)) => match fault {
                WalletFault::InsufficientFund { available, required } => {
                    let steps: u64 = if self.attempts < self.policy.max_steps {
                        self.attempts
                    } else {
                        self.policy.max_steps
                    };
                    Ok(
                        BondAction::AwaitFunds {
                            seconds: WAIT_STEP * steps,
                            needed: required - available,
                        },
                    )
                },
                other => Err(MakerError::Wallet(other)),
            },
            (BondAction::Create { .. }, BondEvent::Created(index, txid)) => {
                if self.policy.await_confirmation {
                    Ok(BondAction::AwaitNew { index, txid })
                } else {
                    Ok(BondAction::ProveNew { index })
                }
            },
            (BondAction::AwaitFunds { .. }, BondEvent::Waited(stopped)) => {
                if stopped && self.policy.stops_waiting {
                    Err(MakerError::General("Shutdown requested"))
                } else {
                    Ok(BondAction::CheckShutdown)
                }
            },
            (BondAction::AwaitNew { index, .. }, BondEvent::Confirmed) => Ok(
                BondAction::ProveNew { index },
            ),
            (BondAction::ProveNew { .. }, BondEvent::Proof(proof)) => {
                self.proof = Some(proof);
                Ok(BondAction::Save)
            },
            (BondAction::Save, BondEvent::Saved) => Ok(BondAction::Finish),
            _ => Ok(self.doing),
        };
        if let Ok(doing) = &next {
            self.doing = *doing;
        }
        next
    }

    /// The proof once the set-up is over.
    pub fn finish(self) -> (r: Result<FidelityProof, MakerError>)
        ensures
            r == match self.proof {
                Some(proof) => Ok::<FidelityProof, MakerError>(proof),
                None => Err(MakerError::General("No fidelity proof after setup")),
            },
    {
        match self.proof {
            Some(proof) => Ok(proof),
            None => Err(MakerError::General("No fidelity proof after setup")),
        }
    }
}

/// Funds are not locked up twice: a set-up that adopts pending bonds looks for
/// the highest bond only once none is pending, and a set-up gets to creating a
/// bond only where there is no other.
pub proof fn law_no_second_bond(setup: BondSetup, event: BondEvent)
    ensures
        setup.doing is FindPending && bond_next(setup, event) == Ok::<BondAction, MakerError>(
            BondAction::FindHighest,
        ) ==> event == BondEvent::Pending(None),
        !(setup.doing is ReadTip) && bond_next(setup, event) == Ok::<BondAction, MakerError>(
            BondAction::ReadTip,
        ) ==> setup.doing is FindHighest && event is Highest && event->Highest_0 is None,
        !(setup.doing is CheckShutdown) && bond_next(setup, event) == Ok::<BondAction, MakerError>(
            BondAction::CheckShutdown,
        ) ==> setup.doing is ReadTip || setup.doing is AwaitFunds,
        !(setup.doing is Create) && bond_next(setup, event) is Ok && bond_next(
            setup,
            event,
        )->Ok_0 is Create ==> setup.doing is CheckShutdown,
{
}

/// The proof that a set-up ends with is the one that was made in it, unless it
/// was cut short; then it is the earlier one, if any.
pub proof fn law_proof_is_the_new_one(setup: BondSetup, event: BondEvent)
    requires
        !(setup.doing is Finish),
        bond_after(setup, event).doing is Finish,
    ensures
        event is Proof ==> bond_after(setup, event).proof == Some(event->Proof_0),
        !(event is Proof) ==> bond_after(setup, event).proof == setup.proof,
        !(event is Proof) ==> setup.doing is Save || event == BondEvent::Shutdown(true),
{
}

/// The wait before the next look at the liquidity.
pub open spec fn next_liquidity_wait(available: u64, min_required: u64, last: u64) -> Option<u64> {
    if available >= min_required {
        None
    } else if last + WAIT_STEP < MAX_LIQUIDITY_WAIT {
        Some((last + WAIT_STEP) as u64)
    } else {
        Some(MAX_LIQUIDITY_WAIT)
    }
}

/// What to wait before the next look at the liquidity, in seconds, where the
/// wallet cannot serve the smallest swap; nothing where it can. `last` is the
/// last wait.
pub fn liquidity_wait(available: u64, min_required: u64, last: u64) -> (r: Option<u64>)
    requires
        last <= MAX_LIQUIDITY_WAIT,
    ensures
        r == next_liquidity_wait(available, min_required, last),
{
    if available >= min_required {
        return None;
    }
    let wait: u64 = last + WAIT_STEP;
    if wait < MAX_LIQUIDITY_WAIT {
        Some(wait)
    } else {
        Some(MAX_LIQUIDITY_WAIT)
    }
}

/// A bond is released the agreed number of blocks after the tip, at a height
/// that a lock time can express, and only such a height is used.
pub proof fn law_bond_is_locked_for_the_timelock(timelock: u32, tip: u64)
    ensures
        release_height(timelock, tip) is Ok <==> timelock + tip < 500_000_000,
        release_height(timelock, tip) matches Ok(height) ==> height - tip == timelock,
{
}

/// A bond that was created is proved, whatever the policy: the proof of that
/// bond is made, after its confirmation where the policy waits for it, and the
/// set-up ends with that proof once the wallet is saved.
pub proof fn law_created_bond_is_proved(
    setup: BondSetup,
    index: u32,
    txid: Txid,
    proof: FidelityProof,
)
    requires
        setup.doing is Create,
    ensures
        ({
            let created = bond_after(setup, BondEvent::Created(index, txid));
            let proving = if setup.policy.await_confirmation {
                bond_after(created, BondEvent::Confirmed)
            } else {
                created
            };
            let proved = bond_after(proving, BondEvent::Proof(proof));
            let saved = bond_after(proved, BondEvent::Saved);
            &&& bond_next(setup, BondEvent::Created(index, txid)) is Ok
            &&& setup.policy.await_confirmation ==> created.doing == (BondAction::AwaitNew {
                index,
                txid,
            })
            &&& proving.doing == (BondAction::ProveNew { index })
            &&& proving.proof == setup.proof
            &&& proved.doing == BondAction::Save
            &&& proved.proof == Some(proof)
            &&& saved.doing == BondAction::Finish
            &&& saved.proof == Some(proof)
        }),
{
}

/// The wallet is saved, and a set-up with a new bond thereby ended, only once
/// the proof of that bond was made; a proof is made only of the bond that was
/// created or found.
pub proof fn law_saved_only_with_a_proof(setup: BondSetup, event: BondEvent)
    requires
        bond_next(setup, event) is Ok,
        bond_next(setup, event)->Ok_0 != setup.doing,
    ensures
        ({
            let next = bond_next(setup, event)->Ok_0;
            &&& next is Save ==> setup.doing is ProveNew && event is Proof && bond_after(
                setup,
                event,
            ).proof == Some(event->Proof_0)
            &&& next matches BondAction::ProveNew { index } ==> {
                ||| setup.doing is Create && event is Created && event->Created_0 == index
                ||| event is Confirmed && setup.doing is AwaitNew && setup.doing->AwaitNew_index
                    == index
            }
            &&& next matches BondAction::AwaitNew { index, txid } ==> setup.doing is Create && event
                == BondEvent::Created(index, txid)
            &&& next is Finish ==> {
                ||| setup.doing is Save && event is Saved
                ||| setup.doing is ProveExisting && event is Proof
                ||| setup.doing is CheckShutdown && event == BondEvent::Shutdown(true)
                    && setup.policy.keep_previous
            }
        }),
{
}

/// The bond of the highest value is proved where there is one, and the set-up
/// ends with that proof; an index outside the wallet's bonds is an error.
pub proof fn law_highest_bond_is_proved(
    setup: BondSetup,
    index: u32,
    bonds: usize,
    proof: FidelityProof,
)
    requires
        setup.doing is FindHighest,
    ensures
        index < bonds ==> ({
            let proving = bond_after(setup, BondEvent::Highest(Some(index), bonds));
            let proved = bond_after(proving, BondEvent::Proof(proof));
            &&& proving.doing == (BondAction::ProveExisting { index })
            &&& proved.doing == BondAction::Finish
            &&& proved.proof == Some(proof)
        }),
        index >= bonds ==> bond_next(setup, BondEvent::Highest(Some(index), bonds)) is Err,
{
}

/// Where there is no bond, one of the agreed amount is created, which is
/// released the agreed number of blocks above the tip.
pub proof fn law_new_bond_has_the_agreed_terms(setup: BondSetup, bonds: usize, tip: u64)
    requires
        setup.doing is FindHighest,
    ensures
        setup.timelock + tip < 500_000_000 ==> ({
            let reading = bond_after(setup, BondEvent::Highest(None, bonds));
            let known = bond_after(reading, BondEvent::Tip(tip));
            let creating = bond_after(known, BondEvent::Shutdown(false));
            &&& reading.doing == BondAction::ReadTip
            &&& known.doing == BondAction::CheckShutdown
            &&& creating.doing == (BondAction::Create {
                amount: setup.amount,
                height: (setup.timelock + tip) as u32,
            })
        }),
        setup.timelock + tip >= 500_000_000 ==> bond_next(
            bond_after(setup, BondEvent::Highest(None, bonds)),
            BondEvent::Tip(tip),
        ) is Err,
{
}

/// A wallet that lacks funds is asked for what it lacks, waited for, and tried
/// again with the same bond. Each wait is ten seconds longer than the last, up
/// to the policy's limit.
pub proof fn law_missing_funds_are_waited_for(setup: BondSetup, available: u64, required: u64)
    requires
        setup.doing == (BondAction::Create { amount: setup.amount, height: setup.height }),
        available <= required,
        setup.attempts < u64::MAX,
        setup.policy.max_steps <= 1_000_000,
    ensures
        ({
            let waiting = bond_after(
                setup,
                BondEvent::Failed(WalletFault::InsufficientFund { available, required }),
            );
            let asking = bond_after(waiting, BondEvent::Waited(false));
            let again = bond_after(asking, BondEvent::Shutdown(false));
            &&& waiting.doing is AwaitFunds
            &&& available + waiting.doing->AwaitFunds_needed == required
            &&& setup.attempts <= setup.policy.max_steps ==> waiting.doing->AwaitFunds_seconds == 10
                * setup.attempts
            &&& setup.attempts > setup.policy.max_steps ==> waiting.doing->AwaitFunds_seconds == 10
                * setup.policy.max_steps
            &&& asking.doing == BondAction::CheckShutdown
            &&& again.doing == setup.doing
            &&& again.attempts == setup.attempts + 1
            &&& again.proof == setup.proof
        }),
{
}

/// Any other failure of the wallet ends the set-up with that failure.
pub proof fn law_wallet_failures_end_the_setup(setup: BondSetup, fault: WalletFault)
    requires
        setup.doing is Create,
        !(fault is InsufficientFund),
    ensures
        bond_next(setup, BondEvent::Failed(fault)) == Err::<BondAction, MakerError>(
            MakerError::Wallet(fault),
        ),
        bond_after(setup, BondEvent::Failed(fault)) == setup,
{
}

/// A stop creates no bond: where an earlier proof may serve, the set-up ends
/// with it, and fails otherwise; a policy that stops while it waits fails at
/// once.
pub proof fn law_a_stop_creates_no_bond(setup: BondSetup)
    ensures
        setup.doing is CheckShutdown && setup.policy.keep_previous ==> ({
            let after = bond_after(setup, BondEvent::Shutdown(true));
            after.doing == BondAction::Finish && after.proof == setup.proof
        }),
        setup.doing is CheckShutdown && !setup.policy.keep_previous ==> bond_next(
            setup,
            BondEvent::Shutdown(true),
        ) is Err,
        setup.doing is AwaitFunds && setup.policy.stops_waiting ==> bond_next(
            setup,
            BondEvent::Waited(true),
        ) is Err,
        setup.doing is AwaitFunds && !setup.policy.stops_waiting ==> bond_next(
            setup,
            BondEvent::Waited(true),
        ) == Ok::<BondAction, MakerError>(BondAction::CheckShutdown),
{
}

/// A bond that was broadcast and has not confirmed is waited for before another
/// is looked for, one after the other, until none is left.
pub proof fn law_pending_bonds_are_adopted(setup: BondSetup, index: u32, txid: Txid)
    requires
        setup.doing is FindPending,
    ensures
        ({
            let waiting = bond_after(setup, BondEvent::Pending(Some((index, txid))));
            let looking = bond_after(waiting, BondEvent::Confirmed);
            &&& waiting.doing == (BondAction::AwaitPending { index, txid })
            &&& looking == setup
            &&& bond_after(setup, BondEvent::Pending(None)).doing == BondAction::FindHighest
        }),
{
}

/// A bond is pending from its broadcast until it confirms or is spent.
pub proof fn law_pending_until_confirmed(bond: FidelityBond)
    ensures
        bond.is_spent ==> !is_pending(bond),
        bond.conf_height is Some ==> !is_pending(bond),
        !bond.is_spent && bond.conf_height is None ==> is_pending(bond),
{
}

/// The bonds that are waited for are exactly those that have neither confirmed
/// nor got a certificate, each once and in order.
pub proof fn law_unconfirmed_bonds_are_listed(bonds: Seq<BondProgress>, n: int)
    requires
        0 <= n <= bonds.len(),
    ensures
        ({
            let listed = unconfirmed_positions(bonds, n);
            &&& forall|i: int|
                0 <= i < n ==> (listed.contains(i) <==> (#[trigger] bonds[i]).conf_height is None
                    && bonds[i].cert_expiry is None)
            &&& forall|k: int| 0 <= k < listed.len() ==> 0 <= #[trigger] listed[k] < n
            &&& forall|a: int, b: int| 0 <= a < b < listed.len() ==> listed[a] < listed[b]
        }),
    decreases n,
{
    if n > 0 {
        law_unconfirmed_bonds_are_listed(bonds, n - 1);
        let earlier = unconfirmed_positions(bonds, n - 1);
        let listed = unconfirmed_positions(bonds, n);
        assert forall|i: int| 0 <= i < n implies (listed.contains(i) <==> (
        #[trigger] bonds[i]).conf_height is None && bonds[i].cert_expiry is None) by {
            if i < n - 1 {
                if earlier.contains(i) {
                    let k = choose|k: int| 0 <= k < earlier.len() && earlier[k] == i;
                    assert(listed[k] == i);
                }
                if listed.contains(i) {
                    let k = choose|k: int| 0 <= k < listed.len() && listed[k] == i;
                    assert(earlier[k] == i);
                }
            } else {
                if is_unconfirmed(bonds[i]) {
                    assert(listed[earlier.len() as int] == i);
                } else if earlier.contains(i) {
                    let k = choose|k: int| 0 <= k < earlier.len() && earlier[k] == i;
                    assert(0 <= earlier[k] < n - 1);
                }
            }
        }
    }
}

/// The maker waits for liquidity only as long as it lacks it, each time ten
/// seconds longer, and never longer than ten minutes.
pub proof fn law_liquidity_waits_grow(available: u64, min_required: u64, last: u64)
    requires
        last <= 600,
    ensures
        next_liquidity_wait(available, min_required, last) is None <==> available >= min_required,
        next_liquidity_wait(available, min_required, last) matches Some(wait) ==> wait <= 600 && (
        wait == last + 10 || (wait == 600 && last + 10 > 600)),
{
}

/// A set-up begins with the terms and the proof that it is given, and looks at
/// bonds that there are before it makes one: at pending ones first exactly
/// where the policy adopts them.
pub proof fn law_setup_looks_before_it_creates(
    policy: BondPolicy,
    amount: u64,
    timelock: u32,
    proof: Option<FidelityProof>,
)
    ensures
        begun(policy, amount, timelock, proof).amount == amount,
        begun(policy, amount, timelock, proof).timelock == timelock,
        begun(policy, amount, timelock, proof).proof == proof,
        begun(policy, amount, timelock, proof).policy == policy,
        begun(policy, amount, timelock, proof).attempts == 0,
        begun(policy, amount, timelock, proof).doing is FindPending <==> policy.adopt_pending,
        begun(policy, amount, timelock, proof).doing is FindHighest <==> !policy.adopt_pending,
{
}

} // verus!
