//! What holds of the ledger and of a timer under every history.

use crate::history::{
    lemma_after_all_concat, lemma_after_ledger_ops, lemma_after_one, lemma_replay_concat,
    lemma_silence_is_kept, on_ledger, repeated, replay, window_with, Happening, LedgerOp,
    Probation,
};
use crate::key::ParticipantKey;
use crate::ledger::has_activity;
use crate::timer::{action_on, TimerAction, TimerEvent, TimerState};
use vstd::prelude::*;

verus! {

/// Without a record of activity there is none to take: on a ledger that
/// began empty and on which activity was never recorded for `key`,
/// whatever else was called, `take_and_clear(key)` returns `false`.
pub proof fn law_no_record_no_activity(ops: Seq<LedgerOp>, key: ParticipantKey)
    requires
        forall|i: int| 0 <= i < ops.len() ==> ops[i] != LedgerOp::Record(key),
    ensures
        !has_activity(replay(Map::empty(), ops), key),
{
    lemma_silence_is_kept(Map::empty(), ops, key);
}

/// What is recorded is taken once: after `record_activity(key)`,
/// `take_and_clear(key)` returns `true` and leaves no entry for `key`, so a
/// second `take_and_clear(key)` returns `false`.
pub proof fn law_record_then_take(entries: Map<ParticipantKey, bool>, key: ParticipantKey)
    ensures
        has_activity(entries.insert(key, true), key),
        !entries.insert(key, true).remove(key).contains_key(key),
        !has_activity(entries.insert(key, true).remove(key), key),
{
}

/// Recording again changes nothing: any number of `record_activity(key)`,
/// at least one, leaves the ledger as a single one does, so what
/// `take_and_clear(key)` then returns and leaves is the same too.
pub proof fn law_record_is_idempotent(
    entries: Map<ParticipantKey, bool>,
    key: ParticipantKey,
    times: nat,
)
    requires
        times >= 1,
    ensures
        replay(entries, repeated(LedgerOp::Record(key), times)) == entries.insert(key, true),
    decreases times,
{
    let ops = repeated(LedgerOp::Record(key), times);
    assert(ops.drop_last() =~= repeated(LedgerOp::Record(key), (times - 1) as nat));
    if times == 1 {
        assert(replay(entries, ops.drop_last()) == entries);
    } else {
        law_record_is_idempotent(entries, key, (times - 1) as nat);
        assert(entries.insert(key, true).insert(key, true) =~= entries.insert(key, true));
    }
}

/// Recorded activity stays on record until it is taken: if the ledger says
/// "activity" of `key` and none of the calls `ops` takes the entry of `key`,
/// then it still says so after them. A flag never goes back to `false` while
/// its entry is there.
pub proof fn law_activity_lasts_until_taken(
    entries: Map<ParticipantKey, bool>,
    ops: Seq<LedgerOp>,
    key: ParticipantKey,
)
    requires
        has_activity(entries, key),
        forall|i: int| 0 <= i < ops.len() ==> ops[i] != LedgerOp::Take(key),
    ensures
        has_activity(replay(entries, ops), key),
    decreases ops.len(),
{
    if ops.len() > 0 {
        law_activity_lasts_until_taken(entries, ops.drop_last(), key);
    }
}

/// A call about one key leaves every other key alone: whether `other` has an
/// entry, and with which flag, is the same before and after.
pub proof fn law_other_keys_untouched(
    entries: Map<ParticipantKey, bool>,
    op: LedgerOp,
    other: ParticipantKey,
)
    requires
        op.key() != other,
    ensures
        op.apply(entries).contains_key(other) == entries.contains_key(other),
        entries.contains_key(other) ==> op.apply(entries)[other] == entries[other],
{
}

/// A timer asks for a removal at most once and looks into the ledger at most
/// once, whatever is reported to it, however often and in whatever order, and
/// whatever happens to the ledger meanwhile. More exactly, after any history
/// the two counts are those that go with the state the timer is in.
pub proof fn law_at_most_one_removal(
    key: ParticipantKey,
    window_secs: u64,
    entries: Map<ParticipantKey, bool>,
    history: Seq<Happening>,
)
    ensures
        Probation::begin(key, window_secs, entries).after_all(history).counts_fit_state(),
        Probation::begin(key, window_secs, entries).after_all(history).removals <= 1,
        Probation::begin(key, window_secs, entries).after_all(history).consultations <= 1,
    decreases history.len(),
{
    if history.len() > 0 {
        law_at_most_one_removal(key, window_secs, entries, history.drop_last());
    }
}

/// A timer that has reached a final state stays in it: every event leaves
/// state and ledger as they are and is answered with
/// [`TimerAction::Nothing`].
pub proof fn law_final_states_are_final(probation: Probation, event: TimerEvent)
    requires
        probation.state.terminal(),
    ensures
        probation.step(event) == probation,
        action_on(
            probation.key,
            probation.window_secs,
            probation.state,
            probation.step(event).state,
        ) == TimerAction::Nothing,
{
}

/// The verdict is the ledger's at the end of the window. Start a timer, let
/// the calls `ops` be made on the ledger while it waits, then let the window
/// elapse: the timer is cleared if the ledger then says "activity" of its
/// key, and asks for the removal if not. Either way the look took the entry
/// of the key out of the ledger.
pub proof fn law_verdict_at_expiry(
    key: ParticipantKey,
    window_secs: u64,
    entries: Map<ParticipantKey, bool>,
    ops: Seq<LedgerOp>,
)
    ensures
        ({
            let end = Probation::begin(key, window_secs, entries).after_all(window_with(ops));
            let active = has_activity(replay(entries, ops), key);
            &&& end.state == if active {
                TimerState::Cleared
            } else {
                TimerState::Removing
            }
            &&& end.removals == if active {
                0nat
            } else {
                1nat
            }
            &&& end.entries == replay(entries, ops).remove(key)
            &&& !end.entries.contains_key(key)
        }),
{
    let begin = Probation::begin(key, window_secs, entries);
    let started = seq![Happening::Timer(TimerEvent::Started)];
    let elapsed = seq![Happening::Timer(TimerEvent::WindowElapsed)];
    lemma_after_one(begin, Happening::Timer(TimerEvent::Started));
    let waiting = begin.after_all(started);
    lemma_after_all_concat(begin, started, on_ledger(ops));
    lemma_after_ledger_ops(waiting, ops);
    let late = waiting.after_all(on_ledger(ops));
    lemma_after_all_concat(begin, started + on_ledger(ops), elapsed);
    lemma_after_one(late, Happening::Timer(TimerEvent::WindowElapsed));
}

/// Activity inside the window clears the participant, however late it comes
/// and whatever else happens around it: if activity is recorded for the
/// timer's key while the timer waits, and nobody else takes the entry of that
/// key afterwards, the timer ends cleared, asks for no removal, and the key
/// has left the ledger.
pub proof fn law_activity_in_window_clears(
    key: ParticipantKey,
    window_secs: u64,
    entries: Map<ParticipantKey, bool>,
    earlier: Seq<LedgerOp>,
    later: Seq<LedgerOp>,
)
    requires
        forall|i: int| 0 <= i < later.len() ==> later[i] != LedgerOp::Take(key),
    ensures
        ({
            let ops = earlier + seq![LedgerOp::Record(key)] + later;
            let end = Probation::begin(key, window_secs, entries).after_all(window_with(ops));
            &&& end.state == TimerState::Cleared
            &&& end.removals == 0
            &&& !end.entries.contains_key(key)
        }),
{
    let record = seq![LedgerOp::Record(key)];
    let ops = earlier + record + later;
    let recorded = replay(entries, earlier + record);
    assert(has_activity(recorded, key)) by {
        assert((earlier + record).drop_last() =~= earlier);
    }
    lemma_replay_concat(entries, earlier + record, later);
    law_activity_lasts_until_taken(recorded, later, key);
    law_verdict_at_expiry(key, window_secs, entries, ops);
}

/// Silence inside the window leads to the removal, once: if the ledger says
/// "no activity" of the timer's key when the timer is created and no activity
/// is recorded for that key while it waits, the timer asks for the removal
/// when the window elapses, and the key has left the ledger. The outcome of
/// the removal then decides between [`TimerState::ExpiredRemoved`] and
/// [`TimerState::ExpiredFailed`]; in neither case is a second removal asked
/// for or the entry brought back.
pub proof fn law_silence_in_window_removes(
    key: ParticipantKey,
    window_secs: u64,
    entries: Map<ParticipantKey, bool>,
    ops: Seq<LedgerOp>,
)
    requires
        !has_activity(entries, key),
        forall|i: int| 0 <= i < ops.len() ==> ops[i] != LedgerOp::Record(key),
    ensures
        ({
            let end = Probation::begin(key, window_secs, entries).after_all(window_with(ops));
            let removed = end.step(TimerEvent::RemovalSucceeded);
            let failed = end.step(TimerEvent::RemovalFailed);
            &&& end.state == TimerState::Removing
            &&& end.removals == 1
            &&& !end.entries.contains_key(key)
            &&& removed == (Probation { state: TimerState::ExpiredRemoved, ..end })
            &&& failed == (Probation { state: TimerState::ExpiredFailed, ..end })
        }),
{
    lemma_silence_is_kept(entries, ops, key);
    law_verdict_at_expiry(key, window_secs, entries, ops);
}

} // verus!
