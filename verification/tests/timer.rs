use probation::{
    ActivityLedger, ParticipantKey, ProbationTimer, TimerAction, TimerEvent, TimerState,
};

const WINDOW: u64 = 10;

fn key() -> ParticipantKey {
    ParticipantKey::new(77, 5)
}

/// A timer that has been started, beside a ledger that knows of its key.
fn waiting() -> (ProbationTimer, ActivityLedger) {
    let mut ledger = ActivityLedger::new();
    ledger.begin_probation(key());
    let mut timer = ProbationTimer::new(key(), WINDOW);
    assert_eq!(timer.step(TimerEvent::Started, &mut ledger), TimerAction::Wait { secs: WINDOW });
    (timer, ledger)
}

#[test]
fn new_timer_is_armed() {
    let timer = ProbationTimer::new(key(), WINDOW);
    assert_eq!(timer.state(), TimerState::Armed);
    assert_eq!(timer.key(), key());
    assert_eq!(timer.window_secs(), 10);
}

#[test]
fn started_timer_waits_for_its_window() {
    let mut ledger = ActivityLedger::new();
    ledger.begin_probation(key());
    let mut timer = ProbationTimer::new(key(), 3600);
    let action = timer.step(TimerEvent::Started, &mut ledger);
    assert_eq!(action, TimerAction::Wait { secs: 3600 });
    assert_eq!(timer.state(), TimerState::Waiting);
    assert!(ledger.contains(key()));
    assert_eq!(ledger.len(), 1);
}

#[test]
fn activity_just_before_expiry_clears() {
    let (mut timer, mut ledger) = waiting();
    ledger.record_activity(key());
    let action = timer.step(TimerEvent::WindowElapsed, &mut ledger);
    assert_eq!(action, TimerAction::Nothing);
    assert_eq!(timer.state(), TimerState::Cleared);
    assert!(!ledger.contains(key()));
    assert!(ledger.is_empty());
}

#[test]
fn silent_participant_is_removed() {
    let (mut timer, mut ledger) = waiting();
    let action = timer.step(TimerEvent::WindowElapsed, &mut ledger);
    assert_eq!(action, TimerAction::Remove { key: key() });
    assert_eq!(timer.state(), TimerState::Removing);
    assert!(!ledger.contains(key()));

    let action = timer.step(TimerEvent::RemovalSucceeded, &mut ledger);
    assert_eq!(action, TimerAction::Nothing);
    assert_eq!(timer.state(), TimerState::ExpiredRemoved);
    assert!(!ledger.contains(key()));
    assert!(ledger.is_empty());
}

#[test]
fn failed_removal_is_not_tried_again() {
    let (mut timer, mut ledger) = waiting();
    assert_eq!(
        timer.step(TimerEvent::WindowElapsed, &mut ledger),
        TimerAction::Remove { key: key() }
    );
    let action = timer.step(TimerEvent::RemovalFailed, &mut ledger);
    assert_eq!(action, TimerAction::Nothing);
    assert_eq!(timer.state(), TimerState::ExpiredFailed);
    assert!(!ledger.contains(key()));

    for event in [
        TimerEvent::Started,
        TimerEvent::WindowElapsed,
        TimerEvent::RemovalFailed,
        TimerEvent::RemovalSucceeded,
    ] {
        assert_eq!(timer.step(event, &mut ledger), TimerAction::Nothing);
        assert_eq!(timer.state(), TimerState::ExpiredFailed);
    }
    assert!(ledger.is_empty());
}

#[test]
fn missing_entry_at_expiry_means_no_activity() {
    let mut ledger = ActivityLedger::new();
    let mut timer = ProbationTimer::new(key(), WINDOW);
    timer.step(TimerEvent::Started, &mut ledger);
    assert!(!ledger.contains(key()));
    assert_eq!(
        timer.step(TimerEvent::WindowElapsed, &mut ledger),
        TimerAction::Remove { key: key() }
    );
    assert_eq!(timer.state(), TimerState::Removing);
}

#[test]
fn many_messages_clear_like_one() {
    let (mut timer, mut ledger) = waiting();
    for _ in 0..1000 {
        ledger.record_activity(key());
    }
    assert_eq!(timer.step(TimerEvent::WindowElapsed, &mut ledger), TimerAction::Nothing);
    assert_eq!(timer.state(), TimerState::Cleared);
    assert!(ledger.is_empty());
}

#[test]
fn repeated_expiry_asks_for_one_removal() {
    let (mut timer, mut ledger) = waiting();
    let mut removals = 0;
    for round in 0..20 {
        if timer.step(TimerEvent::WindowElapsed, &mut ledger) == (TimerAction::Remove { key: key() })
        {
            removals += 1;
        }
        if round % 3 == 0 {
            ledger.record_activity(key());
        }
        if round == 10 {
            timer.step(TimerEvent::RemovalSucceeded, &mut ledger);
        }
    }
    assert_eq!(removals, 1);
    assert_eq!(timer.state(), TimerState::ExpiredRemoved);
}

#[test]
fn activity_after_expiry_comes_too_late() {
    let (mut timer, mut ledger) = waiting();
    assert_eq!(
        timer.step(TimerEvent::WindowElapsed, &mut ledger),
        TimerAction::Remove { key: key() }
    );
    ledger.record_activity(key());
    assert_eq!(timer.step(TimerEvent::WindowElapsed, &mut ledger), TimerAction::Nothing);
    assert_eq!(timer.state(), TimerState::Removing);
    assert_eq!(timer.step(TimerEvent::RemovalSucceeded, &mut ledger), TimerAction::Nothing);
    assert_eq!(timer.state(), TimerState::ExpiredRemoved);
    // The late record stays behind: no timer is left to take it.
    assert!(ledger.contains(key()));
    assert_eq!(ledger.len(), 1);
}

#[test]
fn events_that_do_not_apply_are_ignored() {
    let mut ledger = ActivityLedger::new();
    ledger.record_activity(key());
    let mut timer = ProbationTimer::new(key(), WINDOW);

    for event in
        [TimerEvent::WindowElapsed, TimerEvent::RemovalSucceeded, TimerEvent::RemovalFailed]
    {
        assert_eq!(timer.step(event, &mut ledger), TimerAction::Nothing);
        assert_eq!(timer.state(), TimerState::Armed);
        assert!(ledger.contains(key()));
    }

    timer.step(TimerEvent::Started, &mut ledger);
    for event in [TimerEvent::Started, TimerEvent::RemovalSucceeded, TimerEvent::RemovalFailed] {
        assert_eq!(timer.step(event, &mut ledger), TimerAction::Nothing);
        assert_eq!(timer.state(), TimerState::Waiting);
        assert!(ledger.contains(key()));
    }

    assert_eq!(timer.step(TimerEvent::WindowElapsed, &mut ledger), TimerAction::Nothing);
    assert_eq!(timer.state(), TimerState::Cleared);
    for event in [
        TimerEvent::Started,
        TimerEvent::WindowElapsed,
        TimerEvent::RemovalSucceeded,
        TimerEvent::RemovalFailed,
    ] {
        assert_eq!(timer.step(event, &mut ledger), TimerAction::Nothing);
        assert_eq!(timer.state(), TimerState::Cleared);
    }
}

#[test]
fn a_removing_timer_waits_for_the_outcome() {
    let (mut timer, mut ledger) = waiting();
    timer.step(TimerEvent::WindowElapsed, &mut ledger);
    for event in [TimerEvent::Started, TimerEvent::WindowElapsed] {
        assert_eq!(timer.step(event, &mut ledger), TimerAction::Nothing);
        assert_eq!(timer.state(), TimerState::Removing);
    }
}

#[test]
fn expiry_takes_only_its_own_key() {
    let (mut timer, mut ledger) = waiting();
    let neighbour = ParticipantKey::new(78, 5);
    let elsewhere = ParticipantKey::new(77, 6);
    ledger.begin_probation(neighbour);
    ledger.record_activity(elsewhere);
    assert_eq!(
        timer.step(TimerEvent::WindowElapsed, &mut ledger),
        TimerAction::Remove { key: key() }
    );
    assert!(ledger.contains(neighbour));
    assert!(ledger.contains(elsewhere));
    assert_eq!(ledger.len(), 2);
    assert!(ledger.take_and_clear(elsewhere));
    assert!(!ledger.take_and_clear(neighbour));
}

#[test]
fn only_final_states_are_terminal() {
    assert!(!TimerState::Armed.is_terminal());
    assert!(!TimerState::Waiting.is_terminal());
    assert!(!TimerState::Removing.is_terminal());
    assert!(TimerState::Cleared.is_terminal());
    assert!(TimerState::ExpiredKept.is_terminal());
    assert!(TimerState::ExpiredRemoved.is_terminal());
    assert!(TimerState::ExpiredFailed.is_terminal());
}

#[test]
fn zero_window_is_a_window() {
    let mut ledger = ActivityLedger::new();
    let mut timer = ProbationTimer::new(key(), 0);
    assert_eq!(timer.step(TimerEvent::Started, &mut ledger), TimerAction::Wait { secs: 0 });
    assert_eq!(
        timer.step(TimerEvent::WindowElapsed, &mut ledger),
        TimerAction::Remove { key: key() }
    );
}

#[test]
fn longest_window_is_handed_out_whole() {
    let mut ledger = ActivityLedger::new();
    let mut timer = ProbationTimer::new(key(), u64::MAX);
    assert_eq!(timer.window_secs(), u64::MAX);
    assert_eq!(timer.step(TimerEvent::Started, &mut ledger), TimerAction::Wait { secs: u64::MAX });
}
