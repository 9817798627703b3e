//! Histories: what happens to a ledger, and to a timer that watches one key
//! of it, written down as values.
//!
//! Nothing here runs. A [`LedgerOp`] stands for a call on the ledger, a
//! [`TimerEvent`] for an event reported to the timer, and replaying a
//! history applies to a `Map` and a [`TimerState`] what the contracts of
//! those calls say. A statement about all histories is therefore one about
//! every way of making the calls.
//!
//! The calls themselves take `&mut`, so where tasks share a ledger each call
//! is one critical section and the calls of all tasks fall into one order.
//! The histories range over every such order: what is proved of all
//! histories is proved of every interleaving of the tasks.

use crate::key::ParticipantKey;
use crate::ledger::{after_begin, has_activity};
use crate::timer::{action_on, consults_ledger, next_state, TimerAction, TimerEvent, TimerState};
use vstd::prelude::*;

verus! {

/// A call on the ledger.
pub enum LedgerOp {
    /// `begin_probation(key)`
    Begin(ParticipantKey),
    /// `record_activity(key)`
    Record(ParticipantKey),
    /// `take_and_clear(key)`
    Take(ParticipantKey),
}

impl LedgerOp {
    /// The key that the call is about.
    pub open spec fn key(self) -> ParticipantKey {
        match self {
            LedgerOp::Begin(key) => key,
            LedgerOp::Record(key) => key,
            LedgerOp::Take(key) => key,
        }
    }

    /// The entries after the call.
    pub open spec fn apply(self, entries: Map<ParticipantKey, bool>) -> Map<ParticipantKey, bool> {
        match self {
            LedgerOp::Begin(key) => after_begin(entries, key),
            LedgerOp::Record(key) => entries.insert(key, true),
            LedgerOp::Take(key) => entries.remove(key),
        }
    }
}

/// The entries after the calls `ops`, made in order.
pub open spec fn replay(entries: Map<ParticipantKey, bool>, ops: Seq<LedgerOp>) -> Map<
    ParticipantKey,
    bool,
>
    decreases ops.len(),
{
    if ops.len() == 0 {
        entries
    } else {
        ops.last().apply(replay(entries, ops.drop_last()))
    }
}

/// The same call, `times` times over.
pub open spec fn repeated(op: LedgerOp, times: nat) -> Seq<LedgerOp> {
    Seq::new(times, |i: int| op)
}

/// One thing that happens to a ledger and to the timer that watches one of
/// its keys.
pub enum Happening {
    /// Somebody called the ledger: a join, a message, the end of another
    /// timer, about this key or any other.
    Ledger(LedgerOp),
    /// An event was reported to the timer.
    Timer(TimerEvent),
}

/// The calls `ops` as happenings.
pub open spec fn on_ledger(ops: Seq<LedgerOp>) -> Seq<Happening> {
    Seq::new(ops.len(), |i: int| Happening::Ledger(ops[i]))
}

/// The whole window of a timer: it is started, the calls `ops` are made on
/// the ledger while it waits, and the window elapses.
pub open spec fn window_with(ops: Seq<LedgerOp>) -> Seq<Happening> {
    seq![Happening::Timer(TimerEvent::Started)] + on_ledger(ops)
        + seq![Happening::Timer(TimerEvent::WindowElapsed)]
}

/// A ledger and the timer of one key, with a count of what the timer has done
/// so far.
pub struct Probation {
    pub key: ParticipantKey,
    pub window_secs: u64,
    pub entries: Map<ParticipantKey, bool>,
    pub state: TimerState,
    /// How often the timer has answered [`TimerAction::Remove`].
    pub removals: nat,
    /// How often the timer has looked into the ledger.
    pub consultations: nat,
}

impl Probation {
    /// A timer as `ProbationTimer::new` makes it, beside a ledger that holds
    /// `entries`.
    pub open spec fn begin(
        key: ParticipantKey,
        window_secs: u64,
        entries: Map<ParticipantKey, bool>,
    ) -> Probation {
        Probation {
            key,
            window_secs,
            entries,
            state: TimerState::Armed,
            removals: 0,
            consultations: 0,
        }
    }

    /// What `ProbationTimer::step` makes of `event`: its contract, with the
    /// two counts kept.
    pub open spec fn step(self, event: TimerEvent) -> Probation {
        let next = next_state(self.state, event, has_activity(self.entries, self.key));
        let asked = action_on(self.key, self.window_secs, self.state, next);
        let looked = consults_ledger(self.state, event);
        Probation {
            key: self.key,
            window_secs: self.window_secs,
            entries: if looked {
                self.entries.remove(self.key)
            } else {
                self.entries
            },
            state: next,
            removals: if asked == (TimerAction::Remove { key: self.key }) {
                self.removals + 1
            } else {
                self.removals
            },
            consultations: if looked {
                self.consultations + 1
            } else {
                self.consultations
            },
        }
    }

    /// The ledger and the timer after `happening`.
    pub open spec fn after(self, happening: Happening) -> Probation {
        match happening {
            Happening::Ledger(op) => Probation { entries: op.apply(self.entries), ..self },
            Happening::Timer(event) => self.step(event),
        }
    }

    /// The ledger and the timer after `history`, in order.
    pub open spec fn after_all(self, history: Seq<Happening>) -> Probation
        decreases history.len(),
    {
        if history.len() == 0 {
            self
        } else {
            self.after_all(history.drop_last()).after(history.last())
        }
    }

    /// The counts that go with each state of a timer that began armed: no
    /// look into the ledger before the window has elapsed and one after, one
    /// removal asked for where the verdict was "no activity" and none
    /// elsewhere.
    pub open spec fn counts_fit_state(self) -> bool {
        match self.state {
            TimerState::Armed => self.consultations == 0 && self.removals == 0,
            TimerState::Waiting => self.consultations == 0 && self.removals == 0,
            TimerState::Cleared => self.consultations == 1 && self.removals == 0,
            TimerState::Removing => self.consultations == 1 && self.removals == 1,
            TimerState::ExpiredRemoved => self.consultations == 1 && self.removals == 1,
            TimerState::ExpiredFailed => self.consultations == 1 && self.removals == 1,
            TimerState::ExpiredKept => false,
        }
    }
}

/// Replaying one run of calls after another is replaying both as one.
pub proof fn lemma_replay_concat(
    entries: Map<ParticipantKey, bool>,
    first: Seq<LedgerOp>,
    then: Seq<LedgerOp>,
)
    ensures
        replay(entries, first + then) == replay(replay(entries, first), then),
    decreases then.len(),
{
    if then.len() == 0 {
        assert(first + then =~= first);
    } else {
        assert((first + then).drop_last() =~= first + then.drop_last());
        lemma_replay_concat(entries, first, then.drop_last());
    }
}

/// A ledger that says "no activity" of `key` keeps saying so as long as none
/// of the calls made on it records activity for `key`.
pub proof fn lemma_silence_is_kept(
    entries: Map<ParticipantKey, bool>,
    ops: Seq<LedgerOp>,
    key: ParticipantKey,
)
    requires
        !has_activity(entries, key),
        forall|i: int| 0 <= i < ops.len() ==> ops[i] != LedgerOp::Record(key),
    ensures
        !has_activity(replay(entries, ops), key),
    decreases ops.len(),
{
    if ops.len() > 0 {
        lemma_silence_is_kept(entries, ops.drop_last(), key);
    }
}

/// A history of a single happening is that happening.
pub proof fn lemma_after_one(start: Probation, happening: Happening)
    ensures
        start.after_all(seq![happening]) == start.after(happening),
{
    let one = seq![happening];
    assert(one.drop_last() =~= Seq::<Happening>::empty());
    assert(start.after_all(one.drop_last()) == start);
}

/// Replaying one history after another is replaying both as one.
pub proof fn lemma_after_all_concat(start: Probation, first: Seq<Happening>, then: Seq<Happening>)
    ensures
        start.after_all(first + then) == start.after_all(first).after_all(then),
    decreases then.len(),
{
    if then.len() == 0 {
        assert(first + then =~= first);
    } else {
        assert((first + then).drop_last() =~= first + then.drop_last());
        lemma_after_all_concat(start, first, then.drop_last());
    }
}

/// Calls on the ledger change the entries as [`replay`] says and nothing
/// else.
pub proof fn lemma_after_ledger_ops(start: Probation, ops: Seq<LedgerOp>)
    ensures
        start.after_all(on_ledger(ops)) == (Probation {
            entries: replay(start.entries, ops),
            ..start
        }),
    decreases ops.len(),
{
    if ops.len() > 0 {
        assert(on_ledger(ops).drop_last() =~= on_ledger(ops.drop_last()));
        lemma_after_ledger_ops(start, ops.drop_last());
    }
}

} // verus!
