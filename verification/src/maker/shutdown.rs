//! The stop request of a maker server.

use vstd::prelude::*;

verus! {

/// Latches the server's stop request while allowing its backend abort arm to
/// be reset after every thread of the server has joined.
#[derive(Debug)]
pub struct ShutdownSignal {
    requested: bool,
    backend: bool,
}

impl ShutdownSignal {
    /// Whether a stop has been requested.
    pub closed spec fn requested(&self) -> bool {
        self.requested
    }

    /// Whether the backend is told to give up.
    pub closed spec fn backend(&self) -> bool {
        self.backend
    }

    /// A signal with both flags down.
    pub fn new() -> (r: Self)
        ensures
            !r.requested(),
            !r.backend(),
    {
        ShutdownSignal { requested: false, backend: false }
    }

    /// Reads the stop request, which rearming the backend never clears.
    pub fn load(&self) -> (r: bool)
        ensures
            r == self.requested(),
    {
        self.requested
    }

    /// Changes both flags, so that every stop source also cancels the
    /// backend's retries.
    pub fn store(&mut self, value: bool)
        ensures
            final(self).requested() == value,
            final(self).backend() == value,
    {
        self.requested = value;
        self.backend = value;
    }

    /// The backend's flag.
    pub fn backend_flag(&self) -> (r: bool)
        ensures
            r == self.backend(),
    {
        self.backend
    }

    /// Rearms wallet access once every user of the backend has joined.
    pub fn reset_backend(&mut self)
        ensures
            !final(self).backend(),
            final(self).requested() == old(self).requested(),
    {
        self.backend = false;
    }
}

/// The longest a wait sleeps without looking at the stop request, in
/// milliseconds.
pub const WAIT_SLICE_MS: u64 = 1_000;

/// What a wait does next.
#[derive(Debug, Clone, Copy, PartialEq, Eq, Structural)]
pub enum WaitStep {
    /// Sleep for this many milliseconds, with `remaining` left afterwards.
    Sleep { slice: u64, remaining: u64 },
    /// Stop waiting; `completed` tells whether the wait ran to its end without
    /// a stop request.
    Done { completed: bool },
}

/// The next step of a wait with `remaining` milliseconds to go.
pub open spec fn wait_step_spec(remaining: u64, shutdown: bool) -> WaitStep {
    if remaining == 0 {
        WaitStep::Done { completed: !shutdown }
    } else if shutdown {
        WaitStep::Done { completed: false }
    } else if remaining <= WAIT_SLICE_MS {
        WaitStep::Sleep { slice: remaining, remaining: 0 }
    } else {
        WaitStep::Sleep { slice: WAIT_SLICE_MS, remaining: (remaining - WAIT_SLICE_MS) as u64 }
    }
}

/// Decides how a wait that observes the stop request goes on.
pub fn wait_for_shutdown(remaining: u64, shutdown: bool) -> (r: WaitStep)
    ensures
        r == wait_step_spec(remaining, shutdown),
{
    if remaining == 0 {
        return WaitStep::Done { completed: !shutdown };
    }
    if shutdown {
        return WaitStep::Done { completed: false };
    }
    if remaining <= WAIT_SLICE_MS {
        WaitStep::Sleep { slice: remaining, remaining: 0 }
    } else {
        WaitStep::Sleep { slice: WAIT_SLICE_MS, remaining: remaining - WAIT_SLICE_MS }
    }
}

/// The milliseconds that a wait sleeps in all, where no stop request comes.
pub open spec fn total_sleep(remaining: u64) -> int
    decreases remaining,
{
    match wait_step_spec(remaining, false) {
        WaitStep::Sleep { slice, remaining: rest } => if rest < remaining {
            slice + total_sleep(rest)
        } else {
            0
        },
        WaitStep::Done { .. } => 0,
    }
}

/// Without a stop request, a wait sleeps exactly as long as it was asked to,
/// and never longer than a slice between two looks at the request.
pub proof fn law_wait_sleeps_the_whole_time(remaining: u64)
    ensures
        total_sleep(remaining) == remaining,
        wait_step_spec(remaining, false) matches WaitStep::Sleep { slice, .. } ==> 0 < slice
            <= WAIT_SLICE_MS,
    decreases remaining,
{
    match wait_step_spec(remaining, false) {
        WaitStep::Sleep { slice, remaining: rest } => {
            law_wait_sleeps_the_whole_time(rest);
        },
        WaitStep::Done { .. } => {},
    }
}

/// A stop request ends a wait at once, as one that did not run to its end; a
/// wait sleeps a second at a time and what is left afterwards is what it did
/// not sleep.
pub proof fn law_wait_heeds_the_stop(remaining: u64)
    ensures
        wait_step_spec(remaining, true) == (WaitStep::Done { completed: false }),
        wait_step_spec(0, false) == (WaitStep::Done { completed: true }),
        remaining > 0 ==> (wait_step_spec(remaining, false) matches WaitStep::Sleep {
            slice,
            remaining: rest,
        } && slice + rest == remaining && slice <= 1_000 && (rest > 0 ==> slice == 1_000)),
{
}

} // verus!
