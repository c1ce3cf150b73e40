use hyper_lifecycle::network_event::{
    network_event_needs_lifecycle_barrier, recovery_timer_definition, teardown_outcome,
    AppLifecycleState, CleanupReason, NetworkAvailability, NetworkError, NetworkEvent,
    NetworkRecoveryError, NetworkSnapshot, NetworkTransportFlags, ReconnectReason,
    TeardownReport, LONG_BACKGROUND_RECONNECT_THRESHOLD_MS,
};
use hyper_lifecycle::recovery_policy::diagnosis::{EffectDiagnosis, EffectOutcome};
use hyper_lifecycle::recovery_policy::translate::{
    RetryDomain, TeardownDomain, TimerCategory, TimerId,
};

fn snapshot(sequence: u64, availability: NetworkAvailability) -> NetworkSnapshot {
    NetworkSnapshot {
        sequence,
        availability,
        transport: NetworkTransportFlags::default(),
        is_expensive: false,
        is_constrained: false,
    }
}

#[test]
fn recovery_timer_ids_keep_their_normative_categories() {
    let cases = [
        (
            TimerId::OfflineCandidate,
            TimerCategory::BusinessHysteresis,
        ),
        (TimerId::ShutdownOverall, TimerCategory::FailureDeadline),
        (
            TimerId::TeardownOverall(TeardownDomain::Cleanup),
            TimerCategory::FailureDeadline,
        ),
        (
            TimerId::TeardownOverall(TeardownDomain::OfflineDisconnect),
            TimerCategory::FailureDeadline,
        ),
        (TimerId::BootstrapPhase, TimerCategory::FailureDeadline),
        (
            TimerId::FailureBackoff(RetryDomain::Recovery),
            TimerCategory::FailureBackoff,
        ),
        (
            TimerId::FailureBackoff(RetryDomain::Cleanup),
            TimerCategory::FailureBackoff,
        ),
        (
            TimerId::FailureBackoff(RetryDomain::Offline),
            TimerCategory::FailureBackoff,
        ),
    ];

    for (id, expected_category) in cases {
        assert_eq!(recovery_timer_definition(id).category, expected_category);
    }
}

#[test]
fn recovery_effect_errors_preserve_typed_network_diagnoses() {
    let cases = [
        (
            NetworkRecoveryError::from_network_error(
                "connect",
                NetworkError::ConnectionError("offline".to_string()),
            ),
            EffectDiagnosis::PathUnreachable {
                stage: "connect: Connection error: offline".to_string(),
            },
        ),
        (
            NetworkRecoveryError::from_network_error(
                "probe",
                NetworkError::TimeoutError("deadline".to_string()),
            ),
            EffectDiagnosis::Timeout {
                stage: "probe: Timeout error: deadline".to_string(),
            },
        ),
        (
            NetworkRecoveryError::from_network_error(
                "connect",
                NetworkError::ResourceExhaustedError("sockets".to_string()),
            ),
            EffectDiagnosis::ResourceExhausted {
                resource: "connect: Resource exhausted: sockets".to_string(),
            },
        ),
        (
            NetworkRecoveryError::from_network_error(
                "connect",
                NetworkError::AuthenticationError("revoked".to_string()),
            ),
            EffectDiagnosis::AuthRejected {
                kind: "connect: Authentication error: revoked".to_string(),
            },
        ),
        (
            NetworkRecoveryError::from_network_error(
                "connect",
                NetworkError::ConfigurationError("endpoint".to_string()),
            ),
            EffectDiagnosis::ConfigRejected {
                detail: "connect: Configuration error: endpoint".to_string(),
            },
        ),
        (
            NetworkRecoveryError::from_network_error(
                "decode",
                NetworkError::DeserializationError("invalid frame".to_string()),
            ),
            EffectDiagnosis::InvariantViolation {
                detail: "decode: Deserialization error: invalid frame".to_string(),
            },
        ),
    ];

    for (error, expected) in cases {
        assert_eq!(error.into_diagnosis(), expected);
    }
}

#[test]
fn lifecycle_barrier_is_scoped_to_events_that_change_connections() {
    let cases = [
        (
            NetworkEvent::NetworkPathChanged {
                snapshot: snapshot(1, NetworkAvailability::Unavailable),
            },
            true,
        ),
        (
            NetworkEvent::NetworkPathChanged {
                snapshot: snapshot(2, NetworkAvailability::Available),
            },
            true,
        ),
        (
            NetworkEvent::NetworkPathChanged {
                snapshot: snapshot(3, NetworkAvailability::Unknown),
            },
            false,
        ),
        (
            NetworkEvent::AppLifecycleChanged {
                state: AppLifecycleState::Background,
            },
            false,
        ),
        (
            NetworkEvent::AppLifecycleChanged {
                state: AppLifecycleState::Foreground {
                    background_duration_ms: LONG_BACKGROUND_RECONNECT_THRESHOLD_MS - 1,
                },
            },
            false,
        ),
        (
            NetworkEvent::AppLifecycleChanged {
                state: AppLifecycleState::Foreground {
                    background_duration_ms: LONG_BACKGROUND_RECONNECT_THRESHOLD_MS,
                },
            },
            true,
        ),
        (
            NetworkEvent::CleanupConnections {
                reason: CleanupReason::ManualReset,
            },
            true,
        ),
        (
            NetworkEvent::ForceReconnect {
                reason: ReconnectReason::ManualReconnect,
            },
            true,
        ),
    ];

    for (event, expected) in cases {
        assert_eq!(
            network_event_needs_lifecycle_barrier(&event),
            expected,
            "{event:?}"
        );
    }
}

#[test]
fn snapshot_is_offline_and_should_restore() {
    let offline = snapshot(1, NetworkAvailability::Unavailable);
    assert!(offline.is_offline());
    assert!(!offline.should_restore());

    let online = snapshot(2, NetworkAvailability::Available);
    assert!(!online.is_offline());
    assert!(online.should_restore());

    // Unknown is neither offline (not Unavailable) nor restorable (not Available).
    let unknown = snapshot(3, NetworkAvailability::Unknown);
    assert!(!unknown.is_offline());
    assert!(!unknown.should_restore());
}

#[test]
fn teardown_outcome_maps_every_report_class() {
    assert!(matches!(
        teardown_outcome(TeardownReport::succeeded()),
        EffectOutcome::Succeeded
    ));
    assert!(matches!(
        teardown_outcome(TeardownReport::completed_with_residuals(vec!["x".into()])),
        EffectOutcome::CompletedWithResiduals { .. }
    ));
    assert!(matches!(
        teardown_outcome(TeardownReport::abandoned(vec!["x".into()])),
        EffectOutcome::Abandoned { .. }
    ));
    let failed = TeardownReport {
        reached_goal: false,
        deadline_reached: false,
        residuals: vec![],
    };
    assert!(matches!(
        teardown_outcome(failed),
        EffectOutcome::Failed { .. }
    ));
}
