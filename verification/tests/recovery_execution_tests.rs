use hyper_lifecycle::network_event::NetworkRecoveryAction;
use hyper_lifecycle::recovery_execution::RecoveryExecutionTracker;
use hyper_lifecycle::recovery_policy::translate::ExecutionState as State;

#[test]
fn recovery_actions_follow_explicit_execution_phases() {
    let mut tracker = RecoveryExecutionTracker::default();

    assert_eq!(
        tracker.begin(NetworkRecoveryAction::Offline).unwrap(),
        (State::Idle, State::Disconnecting)
    );
    assert_eq!(
        tracker.complete(true).unwrap(),
        (State::Disconnecting, State::Idle)
    );

    assert_eq!(
        tracker.begin(NetworkRecoveryAction::Restore).unwrap(),
        (State::Idle, State::Restoring)
    );
    assert_eq!(
        tracker.complete(true).unwrap(),
        (State::Restoring, State::Idle)
    );

    assert_eq!(
        tracker.begin(NetworkRecoveryAction::CleanupOnly).unwrap(),
        (State::Idle, State::Cleaning)
    );
    assert_eq!(
        tracker.complete(true).unwrap(),
        (State::Cleaning, State::Idle)
    );
}

#[test]
fn failed_action_returns_execution_layer_to_idle() {
    let mut tracker = RecoveryExecutionTracker::default();

    tracker.begin(NetworkRecoveryAction::Probe).unwrap();
    assert_eq!(
        tracker.complete(false).unwrap(),
        (State::Probing, State::Idle)
    );
    assert_eq!(
        tracker
            .begin(NetworkRecoveryAction::ForceReconnect)
            .unwrap(),
        (State::Idle, State::Reconnecting)
    );
    assert_eq!(
        tracker.complete(true).unwrap(),
        (State::Reconnecting, State::Idle)
    );
}

#[test]
fn overlapping_actions_are_rejected() {
    let mut tracker = RecoveryExecutionTracker::default();

    tracker.begin(NetworkRecoveryAction::Restore).unwrap();
    let error = tracker
        .begin(NetworkRecoveryAction::ForceReconnect)
        .expect_err("an executing restore must reject another action");

    assert!(error.contains("invalid recovery action start"));
    assert_eq!(tracker.current_state(), State::Restoring);
}
