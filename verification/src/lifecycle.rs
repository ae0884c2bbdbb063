//! Idle tracking for the socket-activated daemon: it exits after a full
//! idle period in which no operation was running and no D-Bus activity
//! happened. The shared counter behind a lock and the timers are the
//! daemon's plumbing; the state, its transitions and every decision of the
//! idle wait are here.

use vstd::prelude::*;

verus! {

/// The tracked activity: operations in flight, and a generation counter
/// bumped by every change (so a waiter can tell that something happened
/// while it slept).
#[derive(Debug, Clone, Copy, PartialEq, Eq, Structural)]
pub struct ActivityState {
    pub active_operations: usize,
    pub generation: u64,
}

/// The generation after one more change (wrapping at `u64::MAX`).
pub open spec fn next_generation(g: u64) -> u64 {
    if g == u64::MAX {
        0
    } else {
        (g + 1) as u64
    }
}

fn bump(g: u64) -> (r: u64)
    ensures
        r == next_generation(g),
{
    if g == u64::MAX {
        0
    } else {
        g + 1
    }
}

/// The state after an operation began.
pub open spec fn begun(s: ActivityState) -> ActivityState {
    ActivityState {
        active_operations: if s.active_operations == usize::MAX {
            usize::MAX
        } else {
            (s.active_operations + 1) as usize
        },
        generation: next_generation(s.generation),
    }
}

/// The state after an operation ended.
pub open spec fn finished(s: ActivityState) -> ActivityState {
    ActivityState {
        active_operations: if s.active_operations == 0 {
            0
        } else {
            (s.active_operations - 1) as usize
        },
        generation: next_generation(s.generation),
    }
}

/// The state after some D-Bus activity.
pub open spec fn recorded(s: ActivityState) -> ActivityState {
    ActivityState { active_operations: s.active_operations, generation: next_generation(s.generation) }
}

/// An idle period that started at `observed` and ends at `current` lets
/// the daemon exit.
pub open spec fn may_exit(observed: ActivityState, current: ActivityState) -> bool {
    current.active_operations == 0 && current.generation == observed.generation
}

impl ActivityState {
    /// No operation in flight, generation zero.
    pub fn new() -> (s: Self)
        ensures
            s.active_operations == 0,
            s.generation == 0,
    {
        ActivityState { active_operations: 0, generation: 0 }
    }

    /// An operation began (the count saturates at `usize::MAX`).
    pub fn begin(self) -> (s: Self)
        ensures
            s == begun(self),
    {
        let n = if self.active_operations == usize::MAX {
            usize::MAX
        } else {
            self.active_operations + 1
        };
        ActivityState { active_operations: n, generation: bump(self.generation) }
    }

    /// An operation ended (the count does not go below zero).
    pub fn finish(self) -> (s: Self)
        ensures
            s == finished(self),
    {
        let n = if self.active_operations == 0 {
            0
        } else {
            self.active_operations - 1
        };
        ActivityState { active_operations: n, generation: bump(self.generation) }
    }

    /// Some D-Bus activity happened: the idle period restarts.
    pub fn record_activity(self) -> (s: Self)
        ensures
            s == recorded(self),
    {
        ActivityState { active_operations: self.active_operations, generation: bump(self.generation) }
    }
}

/// The daemon's record of running method calls and D-Bus traffic. The
/// daemon shares one behind a lock and hands every new state to the idle
/// waiter; each change goes through the methods below.
#[derive(Debug)]
pub struct ActivityTracker {
    state: ActivityState,
}

/// One running method call. Only [`ActivityTracker::begin_operation`]
/// makes one and it cannot be copied, so each guard ends exactly one
/// operation when handed back.
#[derive(Debug)]
pub struct OperationGuard {
    _token: (),
}

impl View for ActivityTracker {
    type V = ActivityState;

    closed spec fn view(&self) -> ActivityState {
        self.state
    }
}

impl Default for ActivityTracker {
    /// Nothing running, generation zero.
    fn default() -> (t: Self)
        ensures
            t@ == (ActivityState { active_operations: 0, generation: 0 }),
    {
        ActivityTracker { state: ActivityState::new() }
    }
}

impl ActivityTracker {
    /// Start an operation that keeps the daemon alive until its guard is
    /// handed back.
    pub fn begin_operation(&mut self) -> (g: OperationGuard)
        ensures
            final(self)@ == begun(old(self)@),
    {
        self.state = self.state.begin();
        OperationGuard { _token: () }
    }

    /// End the operation the guard stands for.
    pub fn finish_operation(&mut self, guard: OperationGuard)
        ensures
            final(self)@ == finished(old(self)@),
    {
        let OperationGuard { _token } = guard;
        self.state = self.state.finish();
    }

    /// Record connection traffic: the idle period restarts.
    pub fn record_activity(&mut self)
        ensures
            final(self)@ == recorded(old(self)@),
    {
        self.state = self.state.record_activity();
    }

    /// The number of method calls keeping the daemon alive.
    pub fn active_operations(&self) -> (n: usize)
        ensures
            n == self@.active_operations,
    {
        self.state.active_operations
    }

    /// The state an idle waiter observes.
    pub fn observe(&self) -> (s: ActivityState)
        ensures
            s == self@,
    {
        self.state
    }
}

/// What the idle wait does after observing the state.
#[derive(Debug, Clone, Copy, PartialEq, Eq, Structural)]
pub enum IdleStep {
    /// Operations are in flight: wait for the next change.
    WaitForChange,
    /// Nothing is in flight: start a full idle period (or stop at the next
    /// change).
    StartIdlePeriod,
}

/// The idle wait's step after observing `observed`.
pub fn idle_step(observed: ActivityState) -> (s: IdleStep)
    ensures
        s == (if observed.active_operations > 0 {
            IdleStep::WaitForChange
        } else {
            IdleStep::StartIdlePeriod
        }),
{
    if observed.active_operations > 0 {
        IdleStep::WaitForChange
    } else {
        IdleStep::StartIdlePeriod
    }
}

/// When an idle period started at `observed` runs out with the state at
/// `current`, the daemon may exit only if nothing is in flight and nothing
/// changed in between; otherwise the wait starts over.
pub fn idle_period_elapsed(observed: ActivityState, current: ActivityState) -> (exit: bool)
    ensures
        exit == may_exit(observed, current),
{
    current.active_operations == 0 && current.generation == observed.generation
}

/// The state after `n` operations began.
pub open spec fn begin_n(s: ActivityState, n: nat) -> ActivityState
    decreases n,
{
    if n == 0 {
        s
    } else {
        begun(begin_n(s, (n - 1) as nat))
    }
}

/// The state after `n` operations ended.
pub open spec fn finish_n(s: ActivityState, n: nat) -> ActivityState
    decreases n,
{
    if n == 0 {
        s
    } else {
        finished(finish_n(s, (n - 1) as nat))
    }
}

proof fn lemma_begin_n(s: ActivityState, n: nat)
    requires
        s.active_operations + n <= usize::MAX,
    ensures
        begin_n(s, n).active_operations == s.active_operations + n,
    decreases n,
{
    if n > 0 {
        lemma_begin_n(s, (n - 1) as nat);
    }
}

proof fn lemma_finish_n(s: ActivityState, n: nat)
    requires
        n <= s.active_operations,
    ensures
        finish_n(s, n).active_operations == s.active_operations - n,
    decreases n,
{
    if n > 0 {
        lemma_finish_n(s, (n - 1) as nat);
    }
}

/// Overlapping operations keep the daemon alive until the last one ends:
/// after `began` operations begin and fewer of them end, an operation is
/// still in flight, so no idle period can let the daemon exit.
pub proof fn lemma_overlapping_operations_stay_active(s: ActivityState, began: nat, ended: nat, observed: ActivityState)
    requires
        ended < began,
        s.active_operations + began <= usize::MAX,
    ensures
        finish_n(begin_n(s, began), ended).active_operations > 0,
        !may_exit(observed, finish_n(begin_n(s, began), ended)),
{
    lemma_begin_n(s, began);
    lemma_finish_n(begin_n(s, began), ended);
}

/// Activity restarts the idle period: an idle period during which any
/// change happened (an operation began or ended, or D-Bus activity was
/// recorded) never lets the daemon exit at its end.
pub proof fn lemma_activity_restarts_idle_period(observed: ActivityState)
    ensures
        !may_exit(observed, recorded(observed)),
        !may_exit(observed, begun(observed)),
        !may_exit(observed, finished(observed)),
{
}

} // verus!
