//! The probation timer: one per participant who joined, deciding once, when
//! its window has elapsed, whether the participant is removed.

use crate::key::ParticipantKey;
use crate::ledger::{has_activity, ActivityLedger};
use vstd::prelude::*;

verus! {

/// Where a timer stands.
///
/// ```text
/// Armed --Started--> Waiting --WindowElapsed--> Cleared            (activity on record)
///                            \--WindowElapsed--> Removing           (none on record)
///                                                Removing --RemovalSucceeded--> ExpiredRemoved
///                                                Removing --RemovalFailed-----> ExpiredFailed
/// ```
#[derive(Clone, Copy, Debug, PartialEq, Eq, Structural)]
pub enum TimerState {
    /// Created, not yet running.
    Armed,
    /// Running. Activity recorded now is seen when the window elapses, not
    /// before.
    Waiting,
    /// The window elapsed without activity on record; the removal has been
    /// handed out and its outcome is awaited.
    Removing,
    /// Final: the window elapsed and activity was on record. Nothing was
    /// removed.
    Cleared,
    /// Final: the window elapsed and the participant stays without any
    /// removal having been tried. No event leads here, so a timer that began
    /// armed is never in it.
    ExpiredKept,
    /// Final: the participant was removed.
    ExpiredRemoved,
    /// Final: the removal was tried and failed. It is not tried again and the
    /// participant stays.
    ExpiredFailed,
}

impl TimerState {
    /// The states that no event leaves.
    pub open spec fn terminal(self) -> bool {
        self == TimerState::Cleared || self == TimerState::ExpiredKept || self
            == TimerState::ExpiredRemoved || self == TimerState::ExpiredFailed
    }

    #[verifier::when_used_as_spec(terminal)]
    pub fn is_terminal(self) -> (done: bool)
        ensures
            done == self.terminal(),
    {
        match self {
            TimerState::Cleared => true,
            TimerState::ExpiredKept => true,
            TimerState::ExpiredRemoved => true,
            TimerState::ExpiredFailed => true,
            _ => false,
        }
    }
}

/// What the caller reports to a timer.
#[derive(Clone, Copy, Debug, PartialEq, Eq, Structural)]
pub enum TimerEvent {
    /// The timer's task has been started.
    Started,
    /// The probation window is over.
    WindowElapsed,
    /// The removal that the timer asked for was carried out.
    RemovalSucceeded,
    /// The removal that the timer asked for could not be carried out.
    RemovalFailed,
}

/// What a timer asks of the caller in answer to an event.
#[derive(Clone, Copy, Debug, PartialEq, Eq, Structural)]
pub enum TimerAction {
    /// Sleep for this many seconds, holding no lock, then report
    /// [`TimerEvent::WindowElapsed`].
    Wait { secs: u64 },
    /// Remove the participant from the space, once, then report
    /// [`TimerEvent::RemovalSucceeded`] or [`TimerEvent::RemovalFailed`].
    Remove { key: ParticipantKey },
    /// Nothing to do. The event either ended the timer or did not apply in
    /// the state the timer was in.
    Nothing,
}

/// Whether `event` makes a timer in `state` look into the ledger. It happens
/// in exactly one place: when the window of a waiting timer elapses.
pub open spec fn consults_ledger(state: TimerState, event: TimerEvent) -> bool {
    state == TimerState::Waiting && event == TimerEvent::WindowElapsed
}

/// The state that follows `state` on `event`. `active` is what the ledger
/// says of the timer's key at that moment; it matters only where
/// [`consults_ledger`] holds. An event that does not apply leaves the state
/// as it is.
pub open spec fn next_state(state: TimerState, event: TimerEvent, active: bool) -> TimerState {
    match (state, event) {
        (TimerState::Armed, TimerEvent::Started) => TimerState::Waiting,
        (TimerState::Waiting, TimerEvent::WindowElapsed) => if active {
            TimerState::Cleared
        } else {
            TimerState::Removing
        },
        (TimerState::Removing, TimerEvent::RemovalSucceeded) => TimerState::ExpiredRemoved,
        (TimerState::Removing, TimerEvent::RemovalFailed) => TimerState::ExpiredFailed,
        _ => state,
    }
}

/// The action that a timer for `key` with a window of `window_secs` hands out
/// when `event` takes it from `state` to `next`.
pub open spec fn action_on(
    key: ParticipantKey,
    window_secs: u64,
    state: TimerState,
    next: TimerState,
) -> TimerAction {
    if state == TimerState::Armed && next == TimerState::Waiting {
        TimerAction::Wait { secs: window_secs }
    } else if state == TimerState::Waiting && next == TimerState::Removing {
        TimerAction::Remove { key }
    } else {
        TimerAction::Nothing
    }
}

/// The probation of one participant.
///
/// The timer holds no clock and removes nobody. It is told what happened
/// ([`TimerEvent`]) and answers with what to do next ([`TimerAction`]); the
/// caller sleeps, removes and reports back.
pub struct ProbationTimer {
    key: ParticipantKey,
    window_secs: u64,
    state: TimerState,
}

impl ProbationTimer {
    pub closed spec fn spec_key(&self) -> ParticipantKey {
        self.key
    }

    pub closed spec fn spec_window_secs(&self) -> u64 {
        self.window_secs
    }

    pub closed spec fn spec_state(&self) -> TimerState {
        self.state
    }

    /// A timer for `key` in state [`TimerState::Armed`].
    pub fn new(key: ParticipantKey, window_secs: u64) -> (timer: Self)
        ensures
            timer.key() == key,
            timer.window_secs() == window_secs,
            timer.state() == TimerState::Armed,
    {
        ProbationTimer { key, window_secs, state: TimerState::Armed }
    }

    /// Whom the timer watches.
    #[verifier::when_used_as_spec(spec_key)]
    pub fn key(&self) -> (key: ParticipantKey)
        ensures
            key == self.spec_key(),
    {
        self.key
    }

    /// The length of the probation window in seconds.
    #[verifier::when_used_as_spec(spec_window_secs)]
    pub fn window_secs(&self) -> (secs: u64)
        ensures
            secs == self.spec_window_secs(),
    {
        self.window_secs
    }

    /// Where the timer stands.
    #[verifier::when_used_as_spec(spec_state)]
    pub fn state(&self) -> (state: TimerState)
        ensures
            state == self.spec_state(),
    {
        self.state
    }

    /// Takes one event and says what to do next.
    ///
    /// The state moves as [`next_state`] says and the answer is the one of
    /// [`action_on`]. The ledger is touched by one transition only, the end
    /// of the window of a waiting timer: the entry of the timer's key is
    /// taken out, and its flag decides between [`TimerState::Cleared`] and a
    /// removal. Every other event leaves the ledger alone.
    ///
    /// Reported the same event twice, or an event out of turn, the timer
    /// ignores it: a removal is asked for at most once in the life of a
    /// timer (`laws::law_at_most_one_removal`).
    pub fn step(&mut self, event: TimerEvent, ledger: &mut ActivityLedger) -> (action: TimerAction)
        ensures
            final(self).key() == old(self).key(),
            final(self).window_secs() == old(self).window_secs(),
            final(self).state() == next_state(
                old(self).state(),
                event,
                has_activity(old(ledger)@, old(self).key()),
            ),
            action == action_on(
                old(self).key(),
                old(self).window_secs(),
                old(self).state(),
                final(self).state(),
            ),
            final(ledger)@ == if consults_ledger(old(self).state(), event) {
                old(ledger)@.remove(old(self).key())
            } else {
                old(ledger)@
            },
    {
        match self.state {
            TimerState::Armed => match event {
                TimerEvent::Started => {
                    self.state = TimerState::Waiting;
                    TimerAction::Wait { secs: self.window_secs }
                },
                _ => TimerAction::Nothing,
            },
            TimerState::Waiting => match event {
                TimerEvent::WindowElapsed => {
                    if ledger.take_and_clear(self.key) {
                        self.state = TimerState::Cleared;
                        TimerAction::Nothing
                    } else {
                        self.state = TimerState::Removing;
                        TimerAction::Remove { key: self.key }
                    }
                },
                _ => TimerAction::Nothing,
            },
            TimerState::Removing => match event {
                TimerEvent::RemovalSucceeded => {
                    self.state = TimerState::ExpiredRemoved;
                    TimerAction::Nothing
                },
                TimerEvent::RemovalFailed => {
                    self.state = TimerState::ExpiredFailed;
                    TimerAction::Nothing
                },
                _ => TimerAction::Nothing,
            },
            _ => TimerAction::Nothing,
        }
    }
}

} // verus!
