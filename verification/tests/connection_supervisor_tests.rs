use hyper_lifecycle::connection_supervisor::{AcceptOutcome, ConnectionSupervisor, TimerOp};
use hyper_lifecycle::recovery_policy::classification::{FixedEntropy, UNIT_ONE};
use hyper_lifecycle::recovery_policy::diagnosis::{EffectDiagnosis, EffectKind, EffectOutcome};
use hyper_lifecycle::recovery_policy::translate::{
    Action, AppPhaseState, CancelReason, CleanupReason, CleanupWorkState, ExecutionState, Input,
    LifecycleProfile, NetworkPathState, OfflineWorkState, RecoveryIntentState,
    RecoveryModeState, RecoveryRequestReason, RecoveryStrength, RetryDomain, RetryGateState,
    SemanticPath, SendProjection, StatusRecord, TeardownDomain, TimerId,
};

/// A jitter sample in `[0, 1]` as a numerator over `UNIT_ONE`.
fn unit(x: f64) -> u64 {
    (x * UNIT_ONE as f64) as u64
}

fn ungated() -> ConnectionSupervisor<FixedEntropy> {
    ConnectionSupervisor::new_with_entropy(
        LifecycleProfile::Ungated,
        FixedEntropy::constant(unit(0.5)),
    )
}

fn gated() -> ConnectionSupervisor<FixedEntropy> {
    ConnectionSupervisor::new_with_entropy(
        LifecycleProfile::Gated,
        FixedEntropy::constant(unit(0.5)),
    )
}

fn ms(n: u64) -> u64 {
    n * 1_000_000
}

fn snapshot(epoch: u64, sequence: u64, path: SemanticPath) -> Input {
    Input::NetworkSnapshot {
        source_epoch: epoch,
        sequence,
        semantic_path: path,
        route_fingerprint: 0,
    }
}

fn online(epoch: u64, sequence: u64) -> Input {
    snapshot(epoch, sequence, SemanticPath::Online)
}

fn offline(epoch: u64, sequence: u64) -> Input {
    snapshot(epoch, sequence, SemanticPath::Offline)
}

fn has_arm(outcome: &AcceptOutcome, key: TimerId) -> bool {
    outcome
        .timer_ops
        .iter()
        .any(|op| matches!(op, TimerOp::Arm { key: k, .. } if *k == key))
}

// -- invariant 1: snapshot acceptance ordering ------------------------------

#[test]
fn duplicate_and_stale_snapshots_cannot_move_path_state() {
    let mut s = ungated();
    assert!(s.accept(online(1, 2), ms(0)).advanced);
    assert_eq!(s.view().network_path, NetworkPathState::Online);

    // A lower sequence in the same epoch is stale and discarded.
    let stale = s.accept(offline(1, 1), ms(1));
    assert!(!stale.advanced);
    assert_eq!(s.view().network_path, NetworkPathState::Online);

    // A newer sequence with identical semantics is a structural duplicate: it
    // records the sequence but advances no revision and rearms no candidate.
    let dup = s.accept(online(1, 3), ms(2));
    assert!(!dup.advanced);
    assert_eq!(s.view().network_path, NetworkPathState::Online);
    assert_eq!(s.view().last_snapshot.unwrap().sequence, 3);

    // A newer epoch begins a fresh monotonic sequence and is accepted.
    let reincarnate = s.accept(offline(2, 1), ms(3));
    assert!(reincarnate.advanced);
    assert_eq!(
        s.view().network_path,
        NetworkPathState::OfflineCandidate
    );
}

// -- offline hysteresis (invariants 2, 3) -----------------------------------

#[test]
fn offline_candidate_arms_grace_and_permits_existing_traffic() {
    let mut s = ungated();
    s.accept(online(1, 1), ms(0));
    let out = s.accept(offline(1, 2), ms(10));

    assert_eq!(
        s.view().network_path,
        NetworkPathState::OfflineCandidate
    );
    assert!(has_arm(&out, TimerId::OfflineCandidate));
    // A candidate allows existing-session traffic but no new negotiation and no
    // teardown barrier.
    assert_eq!(s.send_policy(), SendProjection::ExistingOnly);
    assert_eq!(s.composite_action(), None);
}

#[test]
fn offline_grace_expiry_commits_and_derives_confirmed_disconnect() {
    let mut s = ungated();
    s.accept(online(1, 1), ms(0));
    s.accept(offline(1, 2), ms(10));
    let candidate = s.view().offline_candidate.unwrap().candidate_id;

    let out = s.accept(
        Input::OfflineGraceExpired {
            candidate_id: candidate,
        },
        ms(410),
    );
    assert!(out.advanced);
    assert_eq!(s.view().network_path, NetworkPathState::Offline);
    assert_eq!(
        s.view().offline_work,
        OfflineWorkState::DisconnectPending
    );
    assert_eq!(
        s.composite_action(),
        Some(Action::ConfirmedOfflineDisconnect)
    );
    assert_eq!(s.send_policy(), SendProjection::Blocked);
    // The offline-disconnect obligation arms one overall teardown deadline.
    assert!(has_arm(
        &out,
        TimerId::TeardownOverall(TeardownDomain::OfflineDisconnect)
    ));
}

#[test]
fn online_before_grace_rolls_back_without_disconnect() {
    let mut s = ungated();
    s.accept(online(1, 1), ms(0));
    s.accept(offline(1, 2), ms(10));
    let candidate = s.view().offline_candidate.unwrap().candidate_id;

    let out = s.accept(online(1, 3), ms(100));
    assert_eq!(s.view().network_path, NetworkPathState::Online);
    assert!(s.view().offline_candidate.is_none());
    assert_eq!(s.view().offline_work, OfflineWorkState::Idle);
    // The candidate timer is cancelled by the rollback.
    assert!(out.timer_ops.iter().any(|op| matches!(
        op,
        TimerOp::Cancel {
            key: TimerId::OfflineCandidate
        }
    )));

    // A stale expiry for the abandoned candidate is inert.
    let stale = s.accept(
        Input::OfflineGraceExpired {
            candidate_id: candidate,
        },
        ms(410),
    );
    assert!(!stale.advanced);
    assert_eq!(s.view().network_path, NetworkPathState::Online);
}

// -- mode gating (invariant 5) ----------------------------------------------

#[test]
fn logout_gates_recovery_and_is_not_reactivated_by_network_facts() {
    let mut s = ungated();
    s.accept(
        Input::CleanupRequested {
            reason: CleanupReason::UserLogout,
        },
        ms(0),
    );
    assert_eq!(s.view().recovery_mode, RecoveryModeState::LoggedOut);
    assert_eq!(s.view().cleanup_work, CleanupWorkState::CleanupPending);

    // A later online fact cannot reactivate recovery.
    s.accept(online(1, 5), ms(10));
    assert_eq!(s.view().recovery_mode, RecoveryModeState::LoggedOut);
    assert_eq!(s.view().recovery_intent, RecoveryIntentState::Idle);
    // Cleanup remains the only admissible action.
    assert_eq!(s.composite_action(), Some(Action::Cleanup));
    assert_eq!(s.send_policy(), SendProjection::Blocked);
}

// -- duplicate foreground (invariant 6) -------------------------------------

#[test]
fn cold_and_duplicate_foreground_create_no_recovery_work() {
    let mut s = ungated();
    // First authoritative phase from Unknown does not fabricate recovery work.
    s.accept(Input::AppEnteredForeground {
            observed_background_duration: None,
        }, ms(0));
    assert_eq!(s.view().app_phase, AppPhaseState::Foreground);
    assert_eq!(s.view().recovery_intent, RecoveryIntentState::Idle);

    // A duplicate foreground is a self-loop.
    let dup = s.accept(Input::AppEnteredForeground {
            observed_background_duration: None,
        }, ms(1));
    assert!(!dup.advanced);
    assert_eq!(s.view().recovery_intent, RecoveryIntentState::Idle);
}

// -- cleanup supersession (invariants 4, 31) --------------------------------

#[test]
fn cleanup_supersedes_pending_recovery_by_revision() {
    let mut s = ungated();
    s.accept(
        Input::RecoveryRequested {
            minimum: RecoveryStrength::Reconnect,
            reason: RecoveryRequestReason::ManualReconnect,
        },
        ms(0),
    );
    assert_eq!(
        s.view().recovery_intent,
        RecoveryIntentState::ReconnectPending
    );

    s.accept(
        Input::CleanupRequested {
            reason: CleanupReason::ManualReset,
        },
        ms(1),
    );
    // Recovery intent is superseded; cleanup owns the slot.
    assert_eq!(s.view().recovery_intent, RecoveryIntentState::Idle);
    assert_eq!(s.view().cleanup_work, CleanupWorkState::CleanupPending);
    assert_eq!(s.composite_action(), Some(Action::Cleanup));
}

// -- completion procedure: success acknowledgement --------------------------

#[test]
fn probe_success_acknowledges_recovery_intent() {
    let mut s = ungated();
    s.accept(
        Input::RecoveryRequested {
            minimum: RecoveryStrength::Probe,
            reason: RecoveryRequestReason::ManualReconnect,
        },
        ms(1),
    );
    let started = s.maybe_start_effect(ms(1)).expect("probe should start");
    assert_eq!(started.kind, EffectKind::Probe);
    assert_eq!(s.view().execution, ExecutionState::Probing);

    s.accept(
        Input::EffectCompleted {
            action_id: started.action_id,
            kind: EffectKind::Probe,
            policy_revision: started.captured_revision,
            outcome: EffectOutcome::Succeeded,
        },
        ms(2),
    );
    assert_eq!(s.view().execution, ExecutionState::Idle);
    assert_eq!(s.view().recovery_intent, RecoveryIntentState::Idle);
    assert!(s.view().recovery_record.is_none());
}

// -- completion procedure: stale completion (invariant 9) -------------------

#[test]
fn stale_completion_cannot_acknowledge_work() {
    let mut s = ungated();
    s.accept(
        Input::RecoveryRequested {
            minimum: RecoveryStrength::Probe,
            reason: RecoveryRequestReason::ManualReconnect,
        },
        ms(1),
    );
    let started = s.maybe_start_effect(ms(1)).expect("probe should start");

    // Wrong action id: discarded, execution unchanged.
    let out = s.accept(
        Input::EffectCompleted {
            action_id: started.action_id + 99,
            kind: EffectKind::Probe,
            policy_revision: started.captured_revision,
            outcome: EffectOutcome::Succeeded,
        },
        ms(2),
    );
    assert!(!out.advanced);
    assert_eq!(s.view().execution, ExecutionState::Probing);
    assert_eq!(
        s.view().recovery_intent,
        RecoveryIntentState::ProbePending
    );
}

// -- retry gating (invariant 10) --------------------------------------------

#[test]
fn availability_failure_backs_off_and_only_matching_deadline_rearms() {
    let mut s = ungated();
    s.accept(
        Input::RecoveryRequested {
            minimum: RecoveryStrength::Probe,
            reason: RecoveryRequestReason::ManualReconnect,
        },
        ms(1),
    );
    let started = s.maybe_start_effect(ms(1)).expect("probe should start");

    let out = s.accept(
        Input::EffectCompleted {
            action_id: started.action_id,
            kind: EffectKind::Probe,
            policy_revision: started.captured_revision,
            outcome: EffectOutcome::Failed {
                diagnosis: EffectDiagnosis::PathUnreachable {
                    stage: "connect".into(),
                },
            },
        },
        ms(2),
    );
    let record = s.view().recovery_record.clone().unwrap();
    assert_eq!(record.gate, RetryGateState::BackingOff);
    assert_eq!(record.attempt, 1);
    assert!(has_arm(
        &out,
        TimerId::FailureBackoff(RetryDomain::Recovery)
    ));
    // Not Ready, so no action is selectable: it cannot hot-loop.
    assert_eq!(s.composite_action(), None);

    // A stale retry deadline (wrong id) is inert.
    let stale = s.accept(
        Input::RetryDeadlineExpired {
            domain: RetryDomain::Recovery,
            work_revision: record.work_revision,
            retry_id: record.retry_id + 7,
        },
        ms(3),
    );
    assert!(!stale.advanced);
    assert_eq!(
        s.view().recovery_record.as_ref().unwrap().gate,
        RetryGateState::BackingOff
    );

    // The matching deadline makes it Ready again.
    s.accept(
        Input::RetryDeadlineExpired {
            domain: RetryDomain::Recovery,
            work_revision: record.work_revision,
            retry_id: record.retry_id,
        },
        ms(4),
    );
    assert_eq!(
        s.view().recovery_record.as_ref().unwrap().gate,
        RetryGateState::Ready
    );
    assert_eq!(s.composite_action(), Some(Action::Probe));
}

// -- escalation retains the causal work revision ----------------------------

#[test]
fn transport_impairment_escalates_probe_to_restore_retaining_revision() {
    let mut s = ungated();
    s.accept(
        Input::RecoveryRequested {
            minimum: RecoveryStrength::Probe,
            reason: RecoveryRequestReason::ManualReconnect,
        },
        ms(1),
    );
    let work_revision = s.view().recovery_record.as_ref().unwrap().work_revision;
    let started = s.maybe_start_effect(ms(1)).expect("probe should start");

    s.accept(
        Input::EffectCompleted {
            action_id: started.action_id,
            kind: EffectKind::Probe,
            policy_revision: started.captured_revision,
            outcome: EffectOutcome::Failed {
                diagnosis: EffectDiagnosis::TransportImpaired {
                    scopes: vec!["data".into()],
                },
            },
        },
        ms(2),
    );
    assert_eq!(s.view().execution, ExecutionState::Idle);
    assert_eq!(
        s.view().recovery_intent,
        RecoveryIntentState::RestorePending
    );
    let record = s.view().recovery_record.as_ref().unwrap();
    // A fresh Ready gate at the *retained* causal work revision.
    assert_eq!(record.gate, RetryGateState::Ready);
    assert_eq!(record.attempt, 0);
    assert_eq!(record.work_revision, work_revision);
}

// -- precondition failure parks with a mask ---------------------------------

#[test]
fn auth_rejection_parks_recovery_until_a_clearing_trigger() {
    let mut s = ungated();
    s.accept(online(1, 1), ms(0));
    s.accept(
        Input::RecoveryRequested {
            minimum: RecoveryStrength::Restore,
            reason: RecoveryRequestReason::ManualReconnect,
        },
        ms(1),
    );
    let started = s.maybe_start_effect(ms(1)).expect("restore should start");

    s.accept(
        Input::EffectCompleted {
            action_id: started.action_id,
            kind: EffectKind::Restore,
            policy_revision: started.captured_revision,
            outcome: EffectOutcome::Failed {
                diagnosis: EffectDiagnosis::AuthRejected {
                    kind: "expired".into(),
                },
            },
        },
        ms(2),
    );
    let record = s.view().recovery_record.as_ref().unwrap();
    assert_eq!(record.gate, RetryGateState::Parked);
    assert!(!record.release_mask.is_empty());
    assert_eq!(s.composite_action(), None);

    // A committed session generation clears the auth park and re-arms recovery.
    s.accept(
        Input::SessionActivated {
            session_generation: 1,
        },
        ms(3),
    );
    assert_eq!(
        s.view().recovery_record.as_ref().unwrap().gate,
        RetryGateState::Ready
    );
}

// -- lifecycle profile / bootstrap (invariant 7) ----------------------------

#[test]
fn gated_profile_denies_eligibility_until_foreground() {
    let mut g = gated();
    assert!(g.bootstrap_arm(ms(0)).is_some());

    g.accept(online(1, 1), ms(0));
    g.accept(
        Input::RecoveryRequested {
            minimum: RecoveryStrength::Restore,
            reason: RecoveryRequestReason::ManualReconnect,
        },
        ms(1),
    );
    // Unknown phase under Gated grants no eligibility.
    assert_eq!(g.composite_action(), None);

    // The first authoritative foreground makes recovery eligible and cancels the
    // bootstrap deadline.
    let out = g.accept(Input::AppEnteredForeground {
            observed_background_duration: None,
        }, ms(2));
    assert!(out.timer_ops.iter().any(|op| matches!(
        op,
        TimerOp::Cancel {
            key: TimerId::BootstrapPhase
        }
    )));
    assert_eq!(g.composite_action(), Some(Action::Restore));
}

#[test]
fn gated_bootstrap_expiry_keeps_profile_gated() {
    let mut g = gated();
    let out = g.accept(Input::BootstrapPhaseDeadlineExpired, ms(5_000));
    assert!(
        out.status
            .iter()
            .any(|r| matches!(r, StatusRecord::BootstrapDeadlineElapsed))
    );
    // Still Unknown, still ineligible: eligibility is never granted silently.
    assert_eq!(g.view().app_phase, AppPhaseState::Unknown);
    assert_eq!(g.composite_action(), None);
}

// -- terminating cleanup arms shutdown; send policy blocked -----------------

#[test]
fn app_terminating_enters_terminating_and_blocks_sends() {
    let mut s = ungated();
    let out = s.accept(Input::ShutdownRequested, ms(0));
    assert_eq!(s.view().recovery_mode, RecoveryModeState::Terminating);
    assert_eq!(s.view().cleanup_work, CleanupWorkState::CleanupPending);
    assert!(has_arm(&out, TimerId::ShutdownOverall));
    assert!(has_arm(
        &out,
        TimerId::TeardownOverall(TeardownDomain::Cleanup)
    ));
    assert_eq!(s.send_policy(), SendProjection::Blocked);
}

// -- preemption records a cancel reason (invariant 27 slot release) ---------

#[test]
fn cleanup_preempts_a_running_probe() {
    let mut s = ungated();
    s.accept(
        Input::RecoveryRequested {
            minimum: RecoveryStrength::Probe,
            reason: RecoveryRequestReason::ManualReconnect,
        },
        ms(1),
    );
    let started = s.maybe_start_effect(ms(1)).expect("probe should start");
    assert_eq!(s.view().execution, ExecutionState::Probing);

    let out = s.accept(
        Input::CleanupRequested {
            reason: CleanupReason::ManualReset,
        },
        ms(2),
    );
    // Cancellation is requested but the execution slot is not directly mutated.
    assert!(out.cancel_effect);
    assert_eq!(s.view().execution, ExecutionState::Probing);
    assert_eq!(
        s.view().effect.as_ref().unwrap().cancel_reason,
        Some(CancelReason::PreemptedByCleanup)
    );

    // The recorded cancellation completes the slot; cleanup then runs.
    s.accept(
        Input::EffectCompleted {
            action_id: started.action_id,
            kind: EffectKind::Probe,
            policy_revision: started.captured_revision,
            outcome: EffectOutcome::Cancelled,
        },
        ms(3),
    );
    assert_eq!(s.view().execution, ExecutionState::Idle);
    assert_eq!(s.composite_action(), Some(Action::Cleanup));
}
