//! The decisions of the maker's server: which connections it takes, how long
//! it waits on them, and what it does when a swap completes or goes quiet.

use crate::chain::copy_bytes;
use crate::error::MakerError;
use crate::maker::handlers::{timed_out, ConnectionState, StateModel, SwapPhase};
use crate::maker::ongoing_swaps::IdleSwapData;
use crate::maker::swap_tracker::{
    MakerRecoveryPhase, MakerRecoveryState, MakerSwapPhase, MakerSwapRecord,
};
use crate::maker::swapcoin::{
    copy_text, text_model, IncomingSwapCoin, OutgoingSwapCoin,
};
use crate::maker::watches::{
    incoming_watches, outgoing_watches, watch_incoming, watch_models, watch_outgoing, WatchRequest,
};
use crate::table::Table;
use vstd::prelude::*;

verus! {

/// A live swap normally owns a heartbeat connection and one protocol
/// connection. The third slot allows a replacement connection to arrive before
/// the dead one has noticed the disconnect.
pub const MAX_INBOUND_CONNECTIONS: usize = 90;

/// Unidentified peers may use only one third of the connections.
pub const MAX_PENDING_CONNECTIONS: usize = 30;

/// A token, in the units in which they are counted.
pub const TOKEN: u64 = 1_000_000_000;

/// Connections per second that are taken in the long run: this many units of
/// a token come back per nanosecond.
pub const CONNECTIONS_PER_SECOND: u64 = 4;

/// A burst lets all swaps reconnect together: as many tokens as there may be
/// swaps.
pub const CONNECTION_BURST: u64 = 30_000_000_000;

/// Time until a connection must belong to a swap, in nanoseconds.
pub const PENDING_CONNECTION_TIMEOUT: u64 = 20_000_000_000;

/// Maximum time to finish a frame after its first byte arrives.
pub const MESSAGE_ASSEMBLY_TIMEOUT: u64 = 60_000_000_000;

/// Least time between two heartbeats of a connection.
pub const MIN_KEEPALIVE_INTERVAL: u64 = 30_000_000_000;

/// Seconds without activity after which a connection is idle.
pub const IDLE_CONNECTION_TIMEOUT: u64 = 900;

/// How long a read of a swap connection waits.
pub const CONNECTION_READ_TIMEOUT: u64 = 1_800_000_000_000;

/// The shortest read timeout that is set.
pub const MIN_READ_TIMEOUT: u64 = 1_000_000;

/// Bounds the connections of a server: how many there are, how many of them do
/// not belong to a swap yet, and how fast new ones come.
#[derive(Debug)]
pub struct ConnectionLimiter {
    active: usize,
    pending: usize,
    tokens: u64,
    last_refill: u64,
}

/// The tokens after a while, given when they were last counted.
pub open spec fn refilled(tokens: u64, last_refill: u64, now: u64) -> u64 {
    let gained = if now > last_refill {
        (now - last_refill) * CONNECTIONS_PER_SECOND
    } else {
        0
    };
    if tokens + gained > CONNECTION_BURST {
        CONNECTION_BURST
    } else {
        (tokens + gained) as u64
    }
}

/// The place of a connection, to be given back with
/// [`ConnectionLimiter::release`].
#[derive(Debug)]
pub struct ConnectionPermit {
    pending: bool,
}

impl ConnectionPermit {
    /// Whether the connection does not belong to a swap yet.
    pub closed spec fn pending(&self) -> bool {
        self.pending
    }

    /// Whether the connection does not belong to a swap yet.
    pub fn is_pending(&self) -> (r: bool)
        ensures
            r == self.pending(),
    {
        self.pending
    }
}

impl ConnectionLimiter {
    /// The connections that hold a place.
    pub closed spec fn active(&self) -> nat {
        self.active as nat
    }

    /// Those of them that do not belong to a swap yet.
    pub closed spec fn pending(&self) -> nat {
        self.pending as nat
    }

    /// The tokens, in units.
    pub closed spec fn tokens(&self) -> u64 {
        self.tokens
    }

    /// When the tokens were last counted.
    pub closed spec fn last_refill(&self) -> u64 {
        self.last_refill
    }

    /// The limits are kept.
    pub open spec fn wf(&self) -> bool {
        &&& self.pending() <= self.active() <= MAX_INBOUND_CONNECTIONS
        &&& self.pending() <= MAX_PENDING_CONNECTIONS
        &&& self.tokens() <= CONNECTION_BURST
    }

    /// A limiter without connections, with all tokens.
    pub fn new(now: u64) -> (r: Self)
        ensures
            r.wf(),
            r.active() == 0,
            r.pending() == 0,
            r.tokens() == CONNECTION_BURST,
            r.last_refill() == now,
    {
        ConnectionLimiter { active: 0, pending: 0, tokens: CONNECTION_BURST, last_refill: now }
    }

    /// The number of connections, and of those that are pending.
    pub fn counts(&self) -> (r: (usize, usize))
        ensures
            r.0 == self.active(),
            r.1 == self.pending(),
    {
        (self.active, self.pending)
    }

    /// The tokens, in units, as they were last counted.
    pub fn tokens_left(&self) -> (r: u64)
        ensures
            r == self.tokens(),
    {
        self.tokens
    }

    /// Counts the tokens that came back since the last time.
    fn refill(&mut self, now: u64)
        requires
            old(self).wf(),
        ensures
            final(self).wf(),
            final(self).tokens() == refilled(old(self).tokens(), old(self).last_refill(), now),
            final(self).last_refill() == now,
            final(self).active() == old(self).active(),
            final(self).pending() == old(self).pending(),
    {
        let elapsed: u64 = now.saturating_sub(self.last_refill);
        if elapsed >= CONNECTION_BURST {
            self.tokens = CONNECTION_BURST;
        } else {
            let tokens: u64 = self.tokens + elapsed * CONNECTIONS_PER_SECOND;
            self.tokens = if tokens > CONNECTION_BURST {
                CONNECTION_BURST
            } else {
                tokens
            };
        }
        self.last_refill = now;
    }

    /// Takes a place for a new connection, where there is a token and a place.
    /// The token is used up even where there is no place: otherwise a full
    /// burst would gather during a flood.
    pub fn try_acquire(&mut self, now: u64) -> (r: Option<ConnectionPermit>)
        requires
            old(self).wf(),
        ensures
            final(self).wf(),
            final(self).last_refill() == now,
            ({
                let tokens = refilled(old(self).tokens(), old(self).last_refill(), now);
                let free = old(self).active() < MAX_INBOUND_CONNECTIONS && old(self).pending()
                    < MAX_PENDING_CONNECTIONS;
                &&& r is Some <==> tokens >= TOKEN && free
                &&& r is Some ==> r->0.pending()
                &&& final(self).tokens() == if tokens >= TOKEN {
                    (tokens - TOKEN) as u64
                } else {
                    tokens
                }
                &&& final(self).active() == if r is Some {
                    old(self).active() + 1
                } else {
                    old(self).active()
                }
                &&& final(self).pending() == if r is Some {
                    old(self).pending() + 1
                } else {
                    old(self).pending()
                }
            }),
    {
        self.refill(now);
        if self.tokens < TOKEN {
            return None;
        }
        self.tokens = self.tokens - TOKEN;
        if self.active >= MAX_INBOUND_CONNECTIONS || self.pending >= MAX_PENDING_CONNECTIONS {
            return None;
        }
        self.active = self.active + 1;
        self.pending = self.pending + 1;
        Some(ConnectionPermit { pending: true })
    }

    /// Records that a connection belongs to a swap.
    pub fn mark_established(&mut self, permit: &mut ConnectionPermit)
        requires
            old(self).wf(),
            old(permit).pending() ==> old(self).pending() > 0,
        ensures
            final(self).wf(),
            !final(permit).pending(),
            final(self).active() == old(self).active(),
            final(self).pending() == if old(permit).pending() {
                (old(self).pending() - 1) as nat
            } else {
                old(self).pending()
            },
            final(self).tokens() == old(self).tokens(),
            final(self).last_refill() == old(self).last_refill(),
    {
        if permit.pending {
            permit.pending = false;
            self.pending = self.pending - 1;
        }
    }

    /// Gives a connection's place back.
    pub fn release(&mut self, permit: ConnectionPermit)
        requires
            old(self).wf(),
            old(self).active() > 0,
            permit.pending() ==> old(self).pending() > 0,
            !permit.pending() ==> old(self).pending() < old(self).active(),
        ensures
            final(self).wf(),
            final(self).active() == old(self).active() - 1,
            final(self).pending() == if permit.pending() {
                (old(self).pending() - 1) as nat
            } else {
                old(self).pending()
            },
            final(self).tokens() == old(self).tokens(),
            final(self).last_refill() == old(self).last_refill(),
    {
        if permit.pending {
            self.pending = self.pending - 1;
        }
        self.active = self.active - 1;
    }
}

/// Tokens never exceed the burst, and they come back at the rate.
pub proof fn law_tokens_are_bounded(tokens: u64, last_refill: u64, now: u64)
    requires
        tokens <= CONNECTION_BURST,
    ensures
        tokens <= refilled(tokens, last_refill, now) <= CONNECTION_BURST,
        now <= last_refill ==> refilled(tokens, last_refill, now) == tokens,
        now >= last_refill ==> refilled(tokens, last_refill, now) <= tokens + (now - last_refill)
            * CONNECTIONS_PER_SECOND,
{
}

/// What is done with a heartbeat.
#[derive(Debug, Clone, Copy, PartialEq, Eq, Structural)]
pub enum HeartbeatAction {
    Accept,
    Reject,
    Throttle,
}

/// What is done with a heartbeat for a swap.
pub open spec fn heartbeat_action(known_swap: bool, last: Option<u64>, now: u64) -> HeartbeatAction {
    if !known_swap {
        HeartbeatAction::Reject
    } else if last is Some && now - last->0 < MIN_KEEPALIVE_INTERVAL {
        HeartbeatAction::Throttle
    } else {
        HeartbeatAction::Accept
    }
}

/// Decides on a heartbeat: only one for a known swap counts, and not too often.
/// An accepted one shows that the connection belongs to a swap.
pub fn admit_heartbeat(
    known_swap: bool,
    last_keepalive: &mut Option<u64>,
    permit: &mut ConnectionPermit,
    limiter: &mut ConnectionLimiter,
    now: u64,
) -> (r: HeartbeatAction)
    requires
        old(limiter).wf(),
        old(permit).pending() ==> old(limiter).pending() > 0,
    ensures
        final(limiter).wf(),
        r == heartbeat_action(known_swap, *old(last_keepalive), now),
        r is Accept ==> {
            &&& *final(last_keepalive) == Some(now)
            &&& !final(permit).pending()
            &&& final(limiter).active() == old(limiter).active()
            &&& final(limiter).pending() == if old(permit).pending() {
                (old(limiter).pending() - 1) as nat
            } else {
                old(limiter).pending()
            }
            &&& final(limiter).tokens() == old(limiter).tokens()
            &&& final(limiter).last_refill() == old(limiter).last_refill()
        },
        !(r is Accept) ==> {
            &&& *final(last_keepalive) == *old(last_keepalive)
            &&& *final(permit) == *old(permit)
            &&& *final(limiter) == *old(limiter)
        },
{
    if !known_swap {
        return HeartbeatAction::Reject;
    }
    if let Some(last) = *last_keepalive {
        if now.saturating_sub(last) < MIN_KEEPALIVE_INTERVAL {
            return HeartbeatAction::Throttle;
        }
    }
    *last_keepalive = Some(now);
    limiter.mark_established(permit);
    HeartbeatAction::Accept
}

/// What a connection's loop does next.
#[derive(Debug, Clone, Copy, PartialEq, Eq, Structural)]
pub enum LoopStep {
    /// Close the connection.
    Close,
    /// Read a message, by the given moment where there is one.
    Read { deadline: Option<u64> },
}

/// What the loop of a connection with this last activity does at its start.
pub open spec fn loop_step(
    last_activity: u64,
    pending: bool,
    pending_deadline: u64,
    shutdown: bool,
    now: u64,
) -> LoopStep {
    if shutdown || timed_out(last_activity, now, IDLE_CONNECTION_TIMEOUT) {
        LoopStep::Close
    } else {
        LoopStep::Read {
            deadline: if pending {
                Some(pending_deadline)
            } else {
                None
            },
        }
    }
}

/// What a connection's loop does at its start: it ends on a stop request and
/// where the connection is idle. A connection that does not belong to a swap
/// yet has until `pending_deadline`.
pub fn next_loop_step(
    state: &ConnectionState,
    permit: &ConnectionPermit,
    pending_deadline: u64,
    shutdown: bool,
    now: u64,
) -> (r: LoopStep)
    ensures
        r == loop_step(state.last_activity, permit.pending(), pending_deadline, shutdown, now),
{
    if shutdown {
        return LoopStep::Close;
    }
    if state.is_timed_out(IDLE_CONNECTION_TIMEOUT, now) {
        return LoopStep::Close;
    }
    LoopStep::Read {
        deadline: if permit.pending {
            Some(pending_deadline)
        } else {
            None
        },
    }
}

/// Whether a swap shows no activity, here or on its other connections.
pub open spec fn is_quiet(state: StateModel, stored: Option<StateModel>, now: u64) -> bool {
    match (state.swap_id, stored) {
        (Some(_), Some(other)) => timed_out(other.last_activity, now, IDLE_CONNECTION_TIMEOUT),
        _ => timed_out(state.last_activity, now, IDLE_CONNECTION_TIMEOUT),
    }
}

/// A swap is quiet when neither this connection nor any keepalive connection
/// has shown activity within the idle timeout. `stored` is what the table
/// holds of the connection's swap.
pub fn swap_is_quiet(state: &ConnectionState, stored: Option<&ConnectionState>, now: u64) -> (r:
    bool)
    ensures
        r == is_quiet(
            state@,
            match stored {
                Some(other) => Some(other@),
                None => None,
            },
            now,
        ),
{
    match (&state.swap_id, stored) {
        (Some(_), Some(other)) => other.is_timed_out(IDLE_CONNECTION_TIMEOUT, now),
        _ => state.is_timed_out(IDLE_CONNECTION_TIMEOUT, now),
    }
}

/// Whether a connection stays open after a read failed: a timeout is only a
/// wakeup while the swap is active elsewhere.
pub fn keeps_reading(read_timed_out: bool, quiet: bool) -> (r: bool)
    ensures
        r == (read_timed_out && !quiet),
{
    read_timed_out && !quiet
}

/// Records that a message was handled: the work itself counts as activity,
/// and a connection with a swap is no longer pending.
pub fn after_handling(
    state: &mut ConnectionState,
    permit: &mut ConnectionPermit,
    limiter: &mut ConnectionLimiter,
    now: u64,
)
    requires
        old(limiter).wf(),
        old(permit).pending() ==> old(limiter).pending() > 0,
    ensures
        final(limiter).wf(),
        final(state)@ == (StateModel { last_activity: now, ..old(state)@ }),
        final(permit).pending() == (old(permit).pending() && old(state).swap_id is None),
        final(limiter).active() == old(limiter).active(),
        final(limiter).pending() == if old(permit).pending() && old(state).swap_id is Some {
            (old(limiter).pending() - 1) as nat
        } else {
            old(limiter).pending()
        },
        final(limiter).tokens() == old(limiter).tokens(),
        final(limiter).last_refill() == old(limiter).last_refill(),
{
    if state.swap_id.is_some() {
        limiter.mark_established(permit);
    }
    state.touch(now);
}

/// What is left to do once a swap is completed: drop its state before the
/// sweep, sweep and save, and stop watching its contracts.
#[derive(Debug)]
pub struct CompletionPlan {
    /// The swap to remove from the table, where the connection has one.
    pub remove: Option<String>,
    /// The outputs that need no watching any more.
    pub unwatch: Vec<WatchRequest>,
}

/// The plan of a connection's completed swap; nothing while it is not.
pub fn plan_completion(state: &ConnectionState) -> (r: Option<CompletionPlan>)
    ensures
        r is Some <==> state.phase == SwapPhase::Completed,
        r matches Some(plan) ==> {
            &&& text_model(plan.remove) == state@.swap_id
            &&& watch_models(plan.unwatch@) == incoming_watches(state@.incoming_swapcoins)
                + outgoing_watches(state@.outgoing_swapcoins)
        },
{
    if state.phase != SwapPhase::Completed {
        return None;
    }
    let mut unwatch = watch_incoming(&state.incoming_swapcoins);
    let mut more = watch_outgoing(&state.outgoing_swapcoins);
    let ghost first = unwatch@;
    let ghost second = more@;
    unwatch.append(&mut more);
    assert(watch_models(unwatch@) =~= watch_models(first) + watch_models(second));
    Some(CompletionPlan { remove: copy_text(&state.swap_id), unwatch })
}

/// The record of a swap whose taker went quiet.
pub fn dropped_swap_record(idle: &IdleSwapData, now: u64) -> (r: MakerSwapRecord)
    ensures
        r.swap_id@ == idle.swap_id@,
        r.protocol == idle.protocol,
        r.phase == MakerSwapPhase::TakerDropped,
        r.swap_amount_sat == idle.swap_amount_sat,
        r.incoming_count == idle.incoming_swapcoins@.len(),
        r.outgoing_count == idle.outgoing_swapcoins@.len(),
        r.funding_broadcast == idle.funding_broadcast,
        r.recovery.phase == MakerRecoveryPhase::NotStarted,
        r.recovery.incoming_swept@.len() == 0,
        r.recovery.outgoing_recovered@.len() == 0,
        r.recovery.outgoing_discarded@.len() == 0,
        r.created_at == now,
        r.updated_at == now,
{
    MakerSwapRecord {
        swap_id: idle.swap_id.clone(),
        protocol: idle.protocol,
        phase: MakerSwapPhase::TakerDropped,
        swap_amount_sat: idle.swap_amount_sat,
        incoming_count: idle.incoming_swapcoins.len(),
        outgoing_count: idle.outgoing_swapcoins.len(),
        funding_broadcast: idle.funding_broadcast,
        recovery: MakerRecoveryState::default(),
        created_at: now,
        updated_at: now,
    }
}

/// Seconds between two looks of a background task at its timer.
pub const TICK_SECS: u64 = 2;

/// Seconds between two checks of the fidelity bonds.
pub const FIDELITY_BOND_UPDATE_INTERVAL: u64 = 600;

/// Seconds between two announcements of the bond.
pub const NOSTR_BROADCAST_INTERVAL: u64 = 1800;

/// How a maker starts.
#[derive(Debug, Clone, Copy, PartialEq, Eq, Structural)]
pub enum StartupMode {
    /// It listens for takers, sets up its fidelity bond, waits for liquidity and
    /// announces itself; and it recovers unfinished swaps.
    Serve,
    /// It only recovers unfinished swaps: new ones could not be watched.
    RecoverOnly,
}

/// How a maker starts, by whether its watchtower is alive.
pub fn startup_mode(watchtower_alive: bool) -> (r: StartupMode)
    ensures
        r == if watchtower_alive {
            StartupMode::Serve
        } else {
            StartupMode::RecoverOnly
        },
{
    if watchtower_alive {
        StartupMode::Serve
    } else {
        StartupMode::RecoverOnly
    }
}

/// The timer of a task that comes up at an interval.
#[derive(Debug, Clone, Copy, PartialEq, Eq, Structural)]
pub struct PeriodicTimer {
    /// Seconds since the task last came up.
    pub elapsed: u64,
    /// Seconds between two times.
    pub interval: u64,
}

/// The seconds since a task last came up, once another tick has passed.
pub open spec fn ticked(elapsed: u64) -> u64 {
    if elapsed + TICK_SECS > u64::MAX {
        u64::MAX
    } else {
        (elapsed + TICK_SECS) as u64
    }
}

impl PeriodicTimer {
    /// A timer whose task comes up after an interval.
    pub fn after_interval(interval: u64) -> (r: Self)
        ensures
            r == (PeriodicTimer { elapsed: 0, interval }),
    {
        PeriodicTimer { elapsed: 0, interval }
    }

    /// A timer whose task comes up at once, and then at the interval.
    pub fn at_once(interval: u64) -> (r: Self)
        ensures
            r == (PeriodicTimer { elapsed: interval, interval }),
    {
        PeriodicTimer { elapsed: interval, interval }
    }

    /// Counts a tick.
    pub fn tick(&mut self)
        ensures
            final(self).interval == old(self).interval,
            final(self).elapsed == ticked(old(self).elapsed),
    {
        self.elapsed = self.elapsed.saturating_add(TICK_SECS);
    }

    /// Whether the task comes up now; if so, the interval begins anew.
    pub fn is_due(&mut self) -> (r: bool)
        ensures
            r == (old(self).elapsed >= old(self).interval),
            final(self).interval == old(self).interval,
            final(self).elapsed == if r {
                0
            } else {
                old(self).elapsed
            },
    {
        if self.elapsed >= self.interval {
            self.elapsed = 0;
            true
        } else {
            false
        }
    }
}

/// What the renewal of the fidelity bond asks for.
#[derive(Debug, Clone, Copy, PartialEq, Eq, Structural)]
pub enum RenewalAction {
    /// Let a tick pass.
    Rest,
    /// Redeem the bonds that have expired.
    Redeem,
    /// Set up a bond where there is none any more.
    SetUp,
}

/// What came of it.
#[derive(Debug, Clone, Copy, PartialEq, Eq, Structural)]
pub enum RenewalEvent {
    /// A tick has passed.
    Ticked {
        /// Whether the maker is serving a swap.
        swaps_under_way: bool,
    },
    /// The expired bonds were redeemed, or could not be.
    Redeemed {
        /// Whether they were.
        done: bool,
    },
    /// A bond was set up, or could not be.
    SetUp,
}

/// The renewal of the fidelity bond: it comes up at an interval, is left out
/// while a swap is under way, and gives up until the next interval where the
/// expired bonds cannot be redeemed.
#[derive(Debug, Clone, Copy, PartialEq, Eq, Structural)]
pub struct BondRenewal {
    /// When it next comes up.
    pub timer: PeriodicTimer,
}

/// The timer after an event, and what to do next.
pub open spec fn renewed(timer: PeriodicTimer, event: RenewalEvent) -> (
    PeriodicTimer,
    RenewalAction,
) {
    match event {
        RenewalEvent::Ticked { swaps_under_way } => {
            let elapsed = ticked(timer.elapsed);
            let due = elapsed >= timer.interval;
            (
                PeriodicTimer {
                    elapsed: if due {
                        0
                    } else {
                        elapsed
                    },
                    interval: timer.interval,
                },
                if due && !swaps_under_way {
                    RenewalAction::Redeem
                } else {
                    RenewalAction::Rest
                },
            )
        },
        RenewalEvent::Redeemed { done } => (
            timer,
            if done {
                RenewalAction::SetUp
            } else {
                RenewalAction::Rest
            },
        ),
        RenewalEvent::SetUp => (timer, RenewalAction::Rest),
    }
}

impl BondRenewal {
    /// A renewal that first comes up after an interval.
    pub fn new() -> (r: Self)
        ensures
            r.timer == (PeriodicTimer { elapsed: 0, interval: FIDELITY_BOND_UPDATE_INTERVAL }),
    {
        BondRenewal { timer: PeriodicTimer::after_interval(FIDELITY_BOND_UPDATE_INTERVAL) }
    }

    /// What to do next.
    pub fn step(&mut self, event: RenewalEvent) -> (r: RenewalAction)
        ensures
            (final(self).timer, r) == renewed(old(self).timer, event),
    {
        match event {
            RenewalEvent::Ticked { swaps_under_way } => {
                self.timer.tick();
                if self.timer.is_due() && !swaps_under_way {
                    RenewalAction::Redeem
                } else {
                    RenewalAction::Rest
                }
            },
            RenewalEvent::Redeemed { done } => if done {
                RenewalAction::SetUp
            } else {
                RenewalAction::Rest
            },
            RenewalEvent::SetUp => RenewalAction::Rest,
        }
    }
}

/// The coins of a swap that a restart found unfinished.
#[derive(Debug)]
pub struct SwapGroup {
    /// Incoming coins of the swap.
    pub incoming: Vec<IncomingSwapCoin>,
    /// Outgoing coins of the swap.
    pub outgoing: Vec<OutgoingSwapCoin>,
}

/// The incoming coins among the first `n` that belong to a swap.
pub open spec fn incoming_of(coins: Seq<IncomingSwapCoin>, id: Seq<char>, n: int) -> Seq<
    IncomingSwapCoin,
>
    decreases n,
{
    if n <= 0 {
        seq![]
    } else if text_model(coins[n - 1].swap_id) == Some(id) {
        incoming_of(coins, id, n - 1).push(coins[n - 1])
    } else {
        incoming_of(coins, id, n - 1)
    }
}

/// The outgoing coins among the first `n` that belong to a swap.
pub open spec fn outgoing_of(coins: Seq<OutgoingSwapCoin>, id: Seq<char>, n: int) -> Seq<
    OutgoingSwapCoin,
>
    decreases n,
{
    if n <= 0 {
        seq![]
    } else if text_model(coins[n - 1].swap_id) == Some(id) {
        outgoing_of(coins, id, n - 1).push(coins[n - 1])
    } else {
        outgoing_of(coins, id, n - 1)
    }
}

/// Whether groups hold the first coins of two lists, each under its swap.
pub open spec fn grouped(
    groups: Map<Seq<char>, SwapGroup>,
    incoming: Seq<IncomingSwapCoin>,
    outgoing: Seq<OutgoingSwapCoin>,
    m: int,
    n: int,
) -> bool {
    &&& forall|id: Seq<char>|
        #![trigger groups.dom().contains(id)]
        groups.dom().contains(id) <==> incoming_of(incoming, id, m).len() + outgoing_of(
            outgoing,
            id,
            n,
        ).len() > 0
    &&& forall|id: Seq<char>|
        #![trigger groups[id]]
        groups.dom().contains(id) ==> {
            &&& groups[id].incoming@ == incoming_of(incoming, id, m)
            &&& groups[id].outgoing@ == outgoing_of(outgoing, id, n)
        }
}

/// Whether every coin knows its swap.
pub open spec fn incoming_named(coins: Seq<IncomingSwapCoin>) -> bool {
    forall|i: int| 0 <= i < coins.len() ==> (#[trigger] coins[i]).swap_id is Some
}

/// Whether every coin knows its swap.
pub open spec fn outgoing_named(coins: Seq<OutgoingSwapCoin>) -> bool {
    forall|i: int| 0 <= i < coins.len() ==> (#[trigger] coins[i]).swap_id is Some
}

/// What a restart's unfinished coins are rejected for.
pub open spec fn grouping_verdict(
    incoming: Seq<IncomingSwapCoin>,
    outgoing: Seq<OutgoingSwapCoin>,
) -> Result<(), MakerError> {
    if !incoming_named(incoming) {
        Err(MakerError::General("Persisted incoming swapcoin missing swap id"))
    } else if !outgoing_named(outgoing) {
        Err(MakerError::General("Persisted outgoing swapcoin missing swap id"))
    } else {
        Ok(())
    }
}

/// Adds an incoming coin to the group of its swap.
fn add_incoming(groups: &mut Table<SwapGroup>, id: &String, coin: IncomingSwapCoin)
    requires
        old(groups).wf(),
    ensures
        final(groups).wf(),
        final(groups)@.dom() == old(groups)@.dom().insert(id@),
        forall|other: Seq<char>|
            #![trigger final(groups)@[other]]
            other != id@ && old(groups)@.dom().contains(other) ==> final(groups)@[other] == old(
                groups,
            )@[other],
        final(groups)@[id@].incoming@ == if old(groups)@.dom().contains(id@) {
            old(groups)@[id@].incoming@.push(coin)
        } else {
            seq![coin]
        },
        final(groups)@[id@].outgoing@ == if old(groups)@.dom().contains(id@) {
            old(groups)@[id@].outgoing@
        } else {
            seq![]
        },
{
    let known = groups.find(id.as_str()).is_some();
    if known {
        if let Some(group) = groups.get_mut(id.as_str()) {
            group.incoming.push(coin);
        }
    } else {
        let mut incoming: Vec<IncomingSwapCoin> = Vec::new();
        incoming.push(coin);
        let outgoing: Vec<OutgoingSwapCoin> = Vec::new();
        assert(incoming@ =~= seq![coin]);
        assert(outgoing@ =~= seq![]);
        groups.insert(id.clone(), SwapGroup { incoming, outgoing });
    }
    assert(groups@.dom() =~= old(groups)@.dom().insert(id@));
}

/// Adds an outgoing coin to the group of its swap.
fn add_outgoing(groups: &mut Table<SwapGroup>, id: &String, coin: OutgoingSwapCoin)
    requires
        old(groups).wf(),
    ensures
        final(groups).wf(),
        final(groups)@.dom() == old(groups)@.dom().insert(id@),
        forall|other: Seq<char>|
            #![trigger final(groups)@[other]]
            other != id@ && old(groups)@.dom().contains(other) ==> final(groups)@[other] == old(
                groups,
            )@[other],
        final(groups)@[id@].outgoing@ == if old(groups)@.dom().contains(id@) {
            old(groups)@[id@].outgoing@.push(coin)
        } else {
            seq![coin]
        },
        final(groups)@[id@].incoming@ == if old(groups)@.dom().contains(id@) {
            old(groups)@[id@].incoming@
        } else {
            seq![]
        },
{
    let known = groups.find(id.as_str()).is_some();
    if known {
        if let Some(group) = groups.get_mut(id.as_str()) {
            group.outgoing.push(coin);
        }
    } else {
        let incoming: Vec<IncomingSwapCoin> = Vec::new();
        let mut outgoing: Vec<OutgoingSwapCoin> = Vec::new();
        outgoing.push(coin);
        assert(outgoing@ =~= seq![coin]);
        assert(incoming@ =~= seq![]);
        groups.insert(id.clone(), SwapGroup { incoming, outgoing });
    }
    assert(groups@.dom() =~= old(groups)@.dom().insert(id@));
}

/// Groups unfinished coins by swap, so that each swap is recovered on its own
/// and what is decided for one never touches the coins of another.
#[verifier::loop_isolation(false)]
pub fn group_by_swap(incoming: Vec<IncomingSwapCoin>, outgoing: Vec<OutgoingSwapCoin>) -> (r:
    Result<Table<SwapGroup>, MakerError>)
    ensures
        match grouping_verdict(incoming@, outgoing@) {
            Err(e) => r == Err::<Table<SwapGroup>, MakerError>(e),
            Ok(_) => r is Ok && r->Ok_0.wf() && grouped(
                r->Ok_0@,
                incoming@,
                outgoing@,
                incoming@.len() as int,
                outgoing@.len() as int,
            ),
        },
{
    let ghost all_in = incoming@;
    let ghost all_out = outgoing@;
    let ghost m = all_in.len() as int;
    let ghost n = all_out.len() as int;
    let mut groups: Table<SwapGroup> = Table::new();
    let mut next_in = incoming;
    let mut next_out = outgoing;
    let ghost mut i: int = 0;
    assert(all_in.subrange(0, m) =~= all_in);
    assert(all_out.subrange(0, n) =~= all_out);
    while next_in.len() > 0
        invariant
            groups.wf(),
            0 <= i <= m,
            m == all_in.len(),
            next_in@ == all_in.subrange(i, m),
            forall|k: int| 0 <= k < i ==> (#[trigger] all_in[k]).swap_id is Some,
            grouped(groups@, all_in, all_out, i, 0),
        decreases m - i,
    {
        let coin = next_in.remove(0);
        proof {
            assert(coin == all_in[i]);
            assert(next_in@ =~= all_in.subrange(i + 1, m));
        }
        let id = match &coin.swap_id {
            None => {
                assert(all_in[i].swap_id is None);
                return Err(MakerError::General("Persisted incoming swapcoin missing swap id"));
            },
            Some(id) => id.clone(),
        };
        let ghost before = groups@;
        add_incoming(&mut groups, &id, coin);
        proof {
            assert forall|other: Seq<char>|
                #![trigger incoming_of(all_in, other, i + 1)]
                incoming_of(all_in, other, i + 1) == if other == id@ {
                    incoming_of(all_in, other, i).push(coin)
                } else {
                    incoming_of(all_in, other, i)
                } by {}
            assert forall|other: Seq<char>|
                #![trigger groups@.dom().contains(other)]
                groups@.dom().contains(other) <==> incoming_of(all_in, other, i + 1).len()
                    + outgoing_of(all_out, other, 0).len() > 0 by {
                assert(before.dom().contains(other) <==> incoming_of(all_in, other, i).len()
                    + outgoing_of(all_out, other, 0).len() > 0);
            }
            assert forall|other: Seq<char>|
                #![trigger groups@[other]]
                groups@.dom().contains(other) implies groups@[other].incoming@ == incoming_of(
                all_in,
                other,
                i + 1,
            ) && groups@[other].outgoing@ == outgoing_of(all_out, other, 0) by {
                assert(before.dom().contains(other) <==> incoming_of(all_in, other, i).len()
                    + outgoing_of(all_out, other, 0).len() > 0);
                if before.dom().contains(other) {
                    assert(before[other].incoming@ == incoming_of(all_in, other, i));
                } else {
                    assert(incoming_of(all_in, other, i) =~= seq![]);
                    assert(incoming_of(all_in, other, i).push(coin) =~= seq![coin]);
                }
            }
            i = i + 1;
        }
    }
    proof {
        assert forall|k: int| 0 <= k < m implies (#[trigger] all_in[k]).swap_id is Some by {}
    }
    let ghost mut j: int = 0;
    while next_out.len() > 0
        invariant
            groups.wf(),
            0 <= j <= n,
            n == all_out.len(),
            next_out@ == all_out.subrange(j, n),
            forall|k: int| 0 <= k < j ==> (#[trigger] all_out[k]).swap_id is Some,
            grouped(groups@, all_in, all_out, m, j),
        decreases n - j,
    {
        let coin = next_out.remove(0);
        proof {
            assert(coin == all_out[j]);
            assert(next_out@ =~= all_out.subrange(j + 1, n));
        }
        let id = match &coin.swap_id {
            None => {
                assert(all_out[j].swap_id is None);
                return Err(MakerError::General("Persisted outgoing swapcoin missing swap id"));
            },
            Some(id) => id.clone(),
        };
        let ghost before = groups@;
        add_outgoing(&mut groups, &id, coin);
        proof {
            assert forall|other: Seq<char>|
                #![trigger outgoing_of(all_out, other, j + 1)]
                outgoing_of(all_out, other, j + 1) == if other == id@ {
                    outgoing_of(all_out, other, j).push(coin)
                } else {
                    outgoing_of(all_out, other, j)
                } by {}
            assert forall|other: Seq<char>|
                #![trigger groups@.dom().contains(other)]
                groups@.dom().contains(other) <==> incoming_of(all_in, other, m).len()
                    + outgoing_of(all_out, other, j + 1).len() > 0 by {
                assert(before.dom().contains(other) <==> incoming_of(all_in, other, m).len()
                    + outgoing_of(all_out, other, j).len() > 0);
            }
            assert forall|other: Seq<char>|
                #![trigger groups@[other]]
                groups@.dom().contains(other) implies groups@[other].incoming@ == incoming_of(
                all_in,
                other,
                m,
            ) && groups@[other].outgoing@ == outgoing_of(all_out, other, j + 1) by {
                assert(before.dom().contains(other) <==> incoming_of(all_in, other, m).len()
                    + outgoing_of(all_out, other, j).len() > 0);
                if before.dom().contains(other) {
                    assert(before[other].outgoing@ == outgoing_of(all_out, other, j));
                } else {
                    assert(incoming_of(all_in, other, m) =~= seq![]);
                    assert(outgoing_of(all_out, other, j) =~= seq![]);
                    assert(outgoing_of(all_out, other, j).push(coin) =~= seq![coin]);
                }
            }
            j = j + 1;
        }
    }
    proof {
        assert forall|k: int| 0 <= k < n implies (#[trigger] all_out[k]).swap_id is Some by {}
    }
    Ok(groups)
}

/// The number that four big-endian bytes stand for.
pub open spec fn big_endian(bytes: Seq<u8>) -> int {
    bytes[0] * 0x1000000 + bytes[1] * 0x10000 + bytes[2] * 0x100 + bytes[3]
}

/// The length of a frame's body, by the four bytes in front of it.
pub fn frame_length(prefix: &[u8; 4], max: u32) -> (r: Result<u32, MakerError>)
    ensures
        r == if big_endian(prefix@) > max {
            Err::<u32, MakerError>(MakerError::General("Message too large"))
        } else {
            Ok(big_endian(prefix@) as u32)
        },
{
    let len: u32 = prefix[0] as u32 * 0x1000000 + prefix[1] as u32 * 0x10000 + prefix[2] as u32
        * 0x100 + prefix[3] as u32;
    if len > max {
        Err(MakerError::General("Message too large"))
    } else {
        Ok(len)
    }
}

/// The frame of a message: the length of its body and the body.
pub fn frame_message(body: &Vec<u8>) -> (r: Vec<u8>)
    requires
        body@.len() <= u32::MAX,
    ensures
        r@.len() == 4 + body@.len(),
        big_endian(r@) == body@.len(),
        r@.subrange(4, r@.len() as int) == body@,
{
    let len: u32 = body.len() as u32;
    let mut out: Vec<u8> = Vec::new();
    out.push((len / 0x1000000) as u8);
    out.push((len / 0x10000 % 0x100) as u8);
    out.push((len / 0x100 % 0x100) as u8);
    out.push((len % 0x100) as u8);
    assert(big_endian(out@) == len) by {
        assert(len / 0x1000000 < 0x100);
        assert((len / 0x1000000) * 0x1000000 + (len / 0x10000 % 0x100) * 0x10000 + (len / 0x100
            % 0x100) * 0x100 + len % 0x100 == len);
    }
    let ghost prefix = out@;
    let mut rest = copy_bytes(body.as_slice());
    out.append(&mut rest);
    assert(out@ =~= prefix + body@);
    assert(out@.subrange(4, out@.len() as int) =~= body@);
    out
}

/// A frame that is read back gives the length of the message it was made for.
pub proof fn law_frame_is_read_back(frame: Seq<u8>, body: Seq<u8>, max: u32)
    requires
        frame.len() == 4 + body.len(),
        big_endian(frame) == body.len(),
        body.len() <= max,
    ensures
        big_endian(frame.subrange(0, 4)) == body.len(),
{
}

/// When a frame that has begun now must be complete.
pub open spec fn assembled_by(now: u64, pending_deadline: Option<u64>) -> u64 {
    let assembled = if now + MESSAGE_ASSEMBLY_TIMEOUT > u64::MAX {
        u64::MAX
    } else {
        (now + MESSAGE_ASSEMBLY_TIMEOUT) as u64
    };
    if pending_deadline is Some && pending_deadline->0 < assembled {
        pending_deadline->0
    } else {
        assembled
    }
}

/// When a frame that has begun must be complete: within the time for a frame,
/// and by the deadline of a pending connection.
pub fn frame_deadline(now: u64, pending_deadline: Option<u64>) -> (r: u64)
    ensures
        r == assembled_by(now, pending_deadline),
{
    let assembled: u64 = now.saturating_add(MESSAGE_ASSEMBLY_TIMEOUT);
    match pending_deadline {
        Some(pending) => if pending < assembled {
            pending
        } else {
            assembled
        },
        None => assembled,
    }
}

/// How long a read may wait.
pub open spec fn read_wait(deadline: Option<u64>, now: u64) -> Result<u64, MakerError> {
    match deadline {
        None => Ok(CONNECTION_READ_TIMEOUT),
        Some(end) => if now > end {
            Err(MakerError::General("Message read deadline expired"))
        } else if end - now < MIN_READ_TIMEOUT {
            Ok(MIN_READ_TIMEOUT)
        } else {
            Ok((end - now) as u64)
        },
    }
}

/// How long the next read of a message may wait, in nanoseconds.
pub fn next_read_timeout(deadline: Option<u64>, now: u64) -> (r: Result<u64, MakerError>)
    ensures
        r == read_wait(deadline, now),
{
    match deadline {
        None => Ok(CONNECTION_READ_TIMEOUT),
        Some(end) => match end.checked_sub(now) {
            None => Err(MakerError::General("Message read deadline expired")),
            Some(left) => if left < MIN_READ_TIMEOUT {
                Ok(MIN_READ_TIMEOUT)
            } else {
                Ok(left)
            },
        },
    }
}

/// How a read ended.
#[derive(Debug, Clone, Copy, PartialEq, Eq, Structural)]
pub enum ReadEnd {
    /// This many bytes came.
    Bytes(usize),
    /// A signal interrupted it.
    Interrupted,
    /// Nothing came in time.
    TimedOut,
    /// It failed.
    Failed,
}

/// What follows from a read of `wanted` bytes.
#[derive(Debug, Clone, Copy, PartialEq, Eq, Structural)]
pub enum ReadNext {
    /// Read on; this many bytes are missing.
    Missing(usize),
    /// The peer has closed the connection.
    Closed,
    /// The deadline has passed.
    Expired,
    /// The read's own error.
    Error,
}

/// What follows from the end of a read of `wanted` bytes.
pub open spec fn read_next(end: ReadEnd, wanted: usize, has_deadline: bool) -> ReadNext {
    match end {
        ReadEnd::Bytes(n) => if n == 0 {
            ReadNext::Closed
        } else {
            ReadNext::Missing((wanted - n) as usize)
        },
        ReadEnd::Interrupted => ReadNext::Missing(wanted),
        ReadEnd::TimedOut => if has_deadline {
            ReadNext::Expired
        } else {
            ReadNext::Error
        },
        ReadEnd::Failed => ReadNext::Error,
    }
}

/// What follows from a read: a timeout under a deadline means that the
/// deadline has passed.
pub fn after_read(end: ReadEnd, wanted: usize, has_deadline: bool) -> (r: ReadNext)
    requires
        end matches ReadEnd::Bytes(n) ==> n <= wanted,
    ensures
        r == read_next(end, wanted, has_deadline),
{
    match end {
        ReadEnd::Bytes(n) => if n == 0 {
            ReadNext::Closed
        } else {
            ReadNext::Missing(wanted - n)
        },
        ReadEnd::Interrupted => ReadNext::Missing(wanted),
        ReadEnd::TimedOut => if has_deadline {
            ReadNext::Expired
        } else {
            ReadNext::Error
        },
        ReadEnd::Failed => ReadNext::Error,
    }
}

/// The ports that are tried lie below this one.
pub const MAX_PORT: u16 = 62000;

/// A port, where it lies in the range that is tried.
pub open spec fn port_in_range(port: int) -> Result<u16, MakerError> {
    if port < MAX_PORT {
        Ok(port as u16)
    } else {
        Err(MakerError::General("No available ports found in valid range"))
    }
}

/// The port that is tried after `port`, whether that is the configured one or
/// one that was in use.
pub fn next_port(port: u16) -> (r: Result<u16, MakerError>)
    ensures
        r == port_in_range(port + 2),
{
    match port.checked_add(2) {
        Some(next) => if next < MAX_PORT {
            Ok(next)
        } else {
            Err(MakerError::General("No available ports found in valid range"))
        },
        None => Err(MakerError::General("No available ports found in valid range")),
    }
}

/// Four tokens come back per second, up to thirty: waiting in two parts gives
/// as many as waiting once, and a quarter of a second is enough for one more
/// connection.
pub proof fn law_four_connections_per_second(tokens: u64, start: u64, middle: u64, end: u64)
    requires
        tokens <= 30_000_000_000,
        start <= middle <= end,
    ensures
        refilled(refilled(tokens, start, middle), middle, end) == refilled(tokens, start, end),
        tokens + 4 * (end - start) <= 30_000_000_000 ==> refilled(tokens, start, end) == tokens + 4
            * (end - start),
        tokens + 4 * (end - start) > 30_000_000_000 ==> refilled(tokens, start, end)
            == 30_000_000_000,
        end - start >= 250_000_000 ==> refilled(tokens, start, end) >= 1_000_000_000,
        TOKEN == 1_000_000_000,
{
}

/// The limits of a server: 90 connections, of which 30 may be without a swap,
/// for 20 seconds; a frame within a minute, heartbeats half a minute apart, and
/// a quarter of an hour until a connection is idle.
pub proof fn law_server_limits()
    ensures
        MAX_INBOUND_CONNECTIONS == 90,
        MAX_PENDING_CONNECTIONS * 3 == MAX_INBOUND_CONNECTIONS,
        CONNECTION_BURST == 30 * TOKEN,
        PENDING_CONNECTION_TIMEOUT == 20 * 1_000_000_000,
        MESSAGE_ASSEMBLY_TIMEOUT == 60 * 1_000_000_000,
        MIN_KEEPALIVE_INTERVAL == 30 * 1_000_000_000,
        CONNECTION_READ_TIMEOUT == 1800 * 1_000_000_000,
        IDLE_CONNECTION_TIMEOUT == 900,
        FIDELITY_BOND_UPDATE_INTERVAL == 600,
        NOSTR_BROADCAST_INTERVAL == 1800,
{
}

/// A heartbeat counts exactly where the swap is known and the last one that
/// counted is at least 30 seconds ago: right after one that counted, the next
/// is held back, and half a minute later it counts again.
pub proof fn law_heartbeats_are_spaced(known_swap: bool, last: Option<u64>, now: u64, later: u64)
    ensures
        heartbeat_action(known_swap, last, now) is Accept <==> known_swap && (last is None || now
            - last->0 >= 30_000_000_000),
        heartbeat_action(known_swap, last, now) is Reject <==> !known_swap,
        known_swap && later - now < 30_000_000_000 ==> heartbeat_action(
            known_swap,
            Some(now),
            later,
        ) is Throttle,
        known_swap && later - now >= 30_000_000_000 ==> heartbeat_action(
            known_swap,
            Some(now),
            later,
        ) is Accept,
{
}

/// A connection without a stored swap is quiet by its own activity, one with a
/// stored swap by that of the swap, which its other connections refresh: more
/// than 900 whole seconds without any.
pub proof fn law_quiet_by_the_swap(
    state: StateModel,
    stored: StateModel,
    now: u64,
)
    ensures
        is_quiet(state, None, now) <==> now >= state.last_activity && (now - state.last_activity)
            / 1_000_000_000 > 900,
        state.swap_id is None ==> is_quiet(state, Some(stored), now) == is_quiet(state, None, now),
        state.swap_id is Some ==> (is_quiet(state, Some(stored), now) <==> now
            >= stored.last_activity && (now - stored.last_activity) / 1_000_000_000 > 900),
        state.swap_id is Some && now < stored.last_activity + 900_000_000_000 ==> !is_quiet(
            state,
            Some(stored),
            now,
        ),
{
}

/// A tick counts two seconds, and an interval of an even number of seconds
/// takes half as many ticks.
pub proof fn law_ticks_count_seconds(elapsed: u64)
    ensures
        elapsed <= u64::MAX - 2 ==> ticked(elapsed) == elapsed + 2,
        ticked(elapsed) >= elapsed,
        elapsed > u64::MAX - 2 ==> ticked(elapsed) == u64::MAX,
{
}

/// The coins of a swap's group are exactly the coins of the lists that carry
/// the swap's id, as often and in the order in which they are listed.
pub proof fn law_group_has_the_coins_of_its_swap(
    incoming: Seq<IncomingSwapCoin>,
    outgoing: Seq<OutgoingSwapCoin>,
    id: Seq<char>,
    m: int,
    n: int,
)
    requires
        0 <= m <= incoming.len(),
        0 <= n <= outgoing.len(),
    ensures
        incoming_of(incoming, id, m) == incoming.take(m).filter(
            |coin: IncomingSwapCoin| text_model(coin.swap_id) == Some(id),
        ),
        outgoing_of(outgoing, id, n) == outgoing.take(n).filter(
            |coin: OutgoingSwapCoin| text_model(coin.swap_id) == Some(id),
        ),
    decreases m + n,
{
    reveal(Seq::filter);
    if m > 0 {
        law_group_has_the_coins_of_its_swap(incoming, outgoing, id, m - 1, n);
        assert(incoming.take(m).drop_last() =~= incoming.take(m - 1));
        assert(incoming.take(m).last() == incoming[m - 1]);
    } else if n > 0 {
        law_group_has_the_coins_of_its_swap(incoming, outgoing, id, m, n - 1);
        assert(outgoing.take(n).drop_last() =~= outgoing.take(n - 1));
        assert(outgoing.take(n).last() == outgoing[n - 1]);
        assert(incoming.take(m).len() == 0);
    } else {
        assert(incoming.take(m).len() == 0);
        assert(outgoing.take(n).len() == 0);
    }
}

/// Every unfinished coin is in the group of its swap, where every coin names
/// one; a coin that names none stops the grouping.
pub proof fn law_no_unfinished_coin_is_left_out(
    groups: Map<Seq<char>, SwapGroup>,
    incoming: Seq<IncomingSwapCoin>,
    outgoing: Seq<OutgoingSwapCoin>,
    i: int,
)
    requires
        grouped(groups, incoming, outgoing, incoming.len() as int, outgoing.len() as int),
    ensures
        0 <= i < incoming.len() && incoming[i].swap_id is Some ==> {
            let id = text_model(incoming[i].swap_id)->0;
            groups.dom().contains(id) && groups[id].incoming@.contains(incoming[i])
        },
        0 <= i < outgoing.len() && outgoing[i].swap_id is Some ==> {
            let id = text_model(outgoing[i].swap_id)->0;
            groups.dom().contains(id) && groups[id].outgoing@.contains(outgoing[i])
        },
        0 <= i < incoming.len() && incoming[i].swap_id is None ==> grouping_verdict(
            incoming,
            outgoing,
        ) is Err,
        0 <= i < outgoing.len() && outgoing[i].swap_id is None ==> grouping_verdict(
            incoming,
            outgoing,
        ) is Err,
{
    if 0 <= i < incoming.len() && incoming[i].swap_id is Some {
        let id = text_model(incoming[i].swap_id)->0;
        lemma_incoming_of(incoming, id, incoming.len() as int, i);
        assert(groups.dom().contains(id));
        assert(groups[id].incoming@ == incoming_of(incoming, id, incoming.len() as int));
    }
    if 0 <= i < outgoing.len() && outgoing[i].swap_id is Some {
        let id = text_model(outgoing[i].swap_id)->0;
        lemma_outgoing_of(outgoing, id, outgoing.len() as int, i);
        assert(groups.dom().contains(id));
        assert(groups[id].outgoing@ == outgoing_of(outgoing, id, outgoing.len() as int));
    }
}

proof fn lemma_incoming_of(coins: Seq<IncomingSwapCoin>, id: Seq<char>, n: int, i: int)
    requires
        0 <= i < n <= coins.len(),
        text_model(coins[i].swap_id) == Some(id),
    ensures
        incoming_of(coins, id, n).contains(coins[i]),
        incoming_of(coins, id, n).len() > 0,
    decreases n,
{
    let before = incoming_of(coins, id, n - 1);
    let all = incoming_of(coins, id, n);
    if i < n - 1 {
        lemma_incoming_of(coins, id, n - 1, i);
        let k = choose|k: int| 0 <= k < before.len() && before[k] == coins[i];
        assert(all[k] == coins[i]);
    } else {
        assert(all[before.len() as int] == coins[i]);
    }
}

proof fn lemma_outgoing_of(coins: Seq<OutgoingSwapCoin>, id: Seq<char>, n: int, i: int)
    requires
        0 <= i < n <= coins.len(),
        text_model(coins[i].swap_id) == Some(id),
    ensures
        outgoing_of(coins, id, n).contains(coins[i]),
        outgoing_of(coins, id, n).len() > 0,
    decreases n,
{
    let before = outgoing_of(coins, id, n - 1);
    let all = outgoing_of(coins, id, n);
    if i < n - 1 {
        lemma_outgoing_of(coins, id, n - 1, i);
        let k = choose|k: int| 0 <= k < before.len() && before[k] == coins[i];
        assert(all[k] == coins[i]);
    } else {
        assert(all[before.len() as int] == coins[i]);
    }
}

/// The highest of four bytes comes first: a step of the last counts one, of the
/// one before it 256, and so on; different prefixes stand for different
/// lengths.
pub proof fn law_lengths_are_big_endian(bytes: Seq<u8>, other: Seq<u8>)
    requires
        bytes.len() == 4,
        other.len() == 4,
    ensures
        0 <= big_endian(bytes) <= u32::MAX,
        big_endian(bytes) % 256 == bytes[3],
        big_endian(bytes) / 256 == bytes[0] * 0x10000 + bytes[1] * 0x100 + bytes[2],
        big_endian(bytes) == big_endian(other) ==> bytes == other,
{
    if big_endian(bytes) == big_endian(other) {
        lemma_leading_digit(
            bytes[0] * 0x10000 + bytes[1] * 0x100 + bytes[2],
            bytes[3] as int,
            other[0] * 0x10000 + other[1] * 0x100 + other[2],
            other[3] as int,
        );
        lemma_leading_digit(
            bytes[0] * 0x100 + bytes[1],
            bytes[2] as int,
            other[0] * 0x100 + other[1],
            other[2] as int,
        );
        lemma_leading_digit(bytes[0] as int, bytes[1] as int, other[0] as int, other[1] as int);
        assert(bytes =~= other);
    }
}

/// Two numbers to the base 256 are equal digit by digit.
proof fn lemma_leading_digit(a: int, b: int, c: int, d: int)
    requires
        0 <= b < 256,
        0 <= d < 256,
        a * 256 + b == c * 256 + d,
    ensures
        a == c,
        b == d,
{
}

/// A read waits until its deadline and never after it, but for a last
/// millisecond; without a deadline it waits half an hour.
pub proof fn law_reads_end_by_the_deadline(end: u64, now: u64)
    ensures
        read_wait(None, now) == Ok::<u64, MakerError>(1_800_000_000_000),
        read_wait(Some(end), now) is Err <==> now > end,
        read_wait(Some(end), now) matches Ok(wait) ==> 1_000_000 <= wait && (now + wait == end
            || wait == 1_000_000 && end < now + wait),
{
}

/// Ports up to 61,999 are tried, and none beyond.
pub proof fn law_ports_are_tried_below_the_end(port: int)
    requires
        0 <= port,
    ensures
        port_in_range(port) is Ok <==> port <= 61_999,
        port_in_range(port) matches Ok(found) ==> found == port,
{
}

/// The bond is looked after every interval: until it is over the timer counts
/// two seconds a tick, and at its end it begins anew. Expired bonds are redeemed
/// then, unless a swap is under way, and a bond is set up only once they are.
pub proof fn law_bond_is_renewed_at_the_interval(timer: PeriodicTimer, swaps_under_way: bool)
    ensures
        timer.elapsed + 2 < timer.interval ==> renewed(
            timer,
            RenewalEvent::Ticked { swaps_under_way },
        ) == (
            PeriodicTimer { elapsed: (timer.elapsed + 2) as u64, interval: timer.interval },
            RenewalAction::Rest,
        ),
        timer.elapsed + 2 >= timer.interval ==> {
            let after = renewed(timer, RenewalEvent::Ticked { swaps_under_way });
            &&& after.0 == (PeriodicTimer { elapsed: 0, interval: timer.interval })
            &&& after.1 is Redeem <==> !swaps_under_way
            &&& after.1 is Rest <==> swaps_under_way
        },
        renewed(timer, RenewalEvent::Redeemed { done: true }) == (timer, RenewalAction::SetUp),
        renewed(timer, RenewalEvent::Redeemed { done: false }) == (timer, RenewalAction::Rest),
        renewed(timer, RenewalEvent::SetUp) == (timer, RenewalAction::Rest),
{
}

/// A connection is closed exactly on a stop request or after a quarter of an
/// hour without activity; until then it is read from, by the deadline for
/// connections without a swap where it has none.
pub proof fn law_loop_reads_until_idle(
    last_activity: u64,
    pending: bool,
    pending_deadline: u64,
    shutdown: bool,
    now: u64,
)
    ensures
        loop_step(last_activity, pending, pending_deadline, shutdown, now) is Close <==> shutdown
            || (now >= last_activity && (now - last_activity) / 1_000_000_000 > 900),
        loop_step(last_activity, pending, pending_deadline, shutdown, now) matches LoopStep::Read {
            deadline,
        } ==> (pending ==> deadline == Some(pending_deadline)) && (!pending ==> deadline is None),
{
}

/// A frame is complete within a minute and by the deadline of a connection
/// without a swap, whichever comes first.
pub proof fn law_frames_are_complete_in_time(now: u64, pending_deadline: Option<u64>)
    ensures
        assembled_by(now, pending_deadline) <= now + 60_000_000_000,
        pending_deadline matches Some(end) ==> assembled_by(now, pending_deadline) <= end,
        pending_deadline is None && now + 60_000_000_000 <= u64::MAX ==> assembled_by(
            now,
            pending_deadline,
        ) == now + 60_000_000_000,
        pending_deadline matches Some(end) ==> (end <= now + 60_000_000_000 ==> assembled_by(
            now,
            pending_deadline,
        ) == end),
{
}

/// Bytes that came are no longer missing, none means that the peer is gone, an
/// interruption changes nothing, and a timeout ends the message only where it
/// has a deadline.
pub proof fn law_reads_go_on_until_complete(wanted: usize, n: usize, has_deadline: bool)
    requires
        0 < n <= wanted,
    ensures
        read_next(ReadEnd::Bytes(n), wanted, has_deadline) matches ReadNext::Missing(left) && left
            + n == wanted,
        read_next(ReadEnd::Bytes(0), wanted, has_deadline) is Closed,
        read_next(ReadEnd::Interrupted, wanted, has_deadline) == ReadNext::Missing(wanted),
        read_next(ReadEnd::TimedOut, wanted, true) is Expired,
        read_next(ReadEnd::TimedOut, wanted, false) is Error,
        read_next(ReadEnd::Failed, wanted, has_deadline) is Error,
{
}

} // verus!
