use hyper_lifecycle::recovery_policy::classification::{
    arm_backoff, classify, BackoffParams, ClassifyContext, FixedEntropy, ParkCause, ReleaseMask,
    TriggerClass, Verdict, UNIT_ONE,
};
use hyper_lifecycle::recovery_policy::diagnosis::{DiagnosisTag, EffectDiagnosis, EffectKind};

fn secs(n: u64) -> u64 {
    n * 1_000_000_000
}

fn millis(n: u64) -> u64 {
    n * 1_000_000
}

/// A jitter sample in `[0, 1]` as a numerator over `UNIT_ONE`.
fn unit(x: f64) -> u64 {
    (x * UNIT_ONE as f64) as u64
}


fn probe_ctx(attempt: u32) -> ClassifyContext {
    ClassifyContext::with_defaults(attempt)
}

fn diag(tag: DiagnosisTag) -> EffectDiagnosis {
    match tag {
        DiagnosisTag::PathUnreachable => EffectDiagnosis::PathUnreachable { stage: "s".into() },
        DiagnosisTag::Timeout => EffectDiagnosis::Timeout { stage: "s".into() },
        DiagnosisTag::Overloaded => EffectDiagnosis::Overloaded {
            retry_after: 0u64,
        },
        DiagnosisTag::ResourceExhausted => EffectDiagnosis::ResourceExhausted {
            resource: "s".into(),
        },
        DiagnosisTag::TransportImpaired => EffectDiagnosis::TransportImpaired {
            scopes: vec!["c".into()],
        },
        DiagnosisTag::GenerationDead => EffectDiagnosis::GenerationDead { generation: 1 },
        DiagnosisTag::AuthRejected => EffectDiagnosis::AuthRejected { kind: "s".into() },
        DiagnosisTag::ConfigRejected => EffectDiagnosis::ConfigRejected { detail: "s".into() },
        DiagnosisTag::InvariantViolation => {
            EffectDiagnosis::InvariantViolation { detail: "s".into() }
        }
    }
}

// --- Probe group: one test per classification cell ---

#[test]
fn probe_transport_impaired_escalates_to_restore() {
    assert_eq!(
        classify(
            EffectKind::Probe,
            &diag(DiagnosisTag::TransportImpaired),
            probe_ctx(1)
        ),
        Verdict::Escalate {
            to: EffectKind::Restore
        }
    );
}

#[test]
fn probe_generation_dead_escalates_to_reconnect() {
    assert_eq!(
        classify(
            EffectKind::Probe,
            &diag(DiagnosisTag::GenerationDead),
            probe_ctx(1)
        ),
        Verdict::Escalate {
            to: EffectKind::Reconnect
        }
    );
}

#[test]
fn probe_timeout_escalates_only_at_threshold_while_online() {
    // Below threshold -> Retry.
    assert_eq!(
        classify(
            EffectKind::Probe,
            &diag(DiagnosisTag::Timeout),
            probe_ctx(1)
        ),
        Verdict::Retry
    );
    // At threshold while online -> Escalate to Reconnect.
    assert_eq!(
        classify(
            EffectKind::Probe,
            &diag(DiagnosisTag::Timeout),
            probe_ctx(2)
        ),
        Verdict::Escalate {
            to: EffectKind::Reconnect
        }
    );
    // At threshold but offline -> Retry (no escalation without Online).
    let mut offline = probe_ctx(3);
    offline.path_online = false;
    assert_eq!(
        classify(EffectKind::Probe, &diag(DiagnosisTag::Timeout), offline),
        Verdict::Retry
    );
}

#[test]
fn probe_precondition_parks_with_matching_mask() {
    for (tag, cause) in [
        (DiagnosisTag::AuthRejected, ParkCause::AuthRejected),
        (DiagnosisTag::ConfigRejected, ParkCause::ConfigRejected),
        (
            DiagnosisTag::InvariantViolation,
            ParkCause::InvariantViolation,
        ),
    ] {
        assert_eq!(
            classify(EffectKind::Probe, &diag(tag), probe_ctx(1)),
            Verdict::Park {
                release_mask: ReleaseMask::single(cause)
            }
        );
    }
}

#[test]
fn probe_availability_retries() {
    for tag in [
        DiagnosisTag::PathUnreachable,
        DiagnosisTag::Overloaded,
        DiagnosisTag::ResourceExhausted,
    ] {
        assert_eq!(
            classify(EffectKind::Probe, &diag(tag), probe_ctx(9)),
            Verdict::Retry
        );
    }
}

// --- Restore group ---

#[test]
fn restore_generation_dead_escalates() {
    assert_eq!(
        classify(
            EffectKind::Restore,
            &diag(DiagnosisTag::GenerationDead),
            probe_ctx(1)
        ),
        Verdict::Escalate {
            to: EffectKind::Reconnect
        }
    );
}

#[test]
fn restore_transport_impaired_retries_then_escalates_at_two() {
    assert_eq!(
        classify(
            EffectKind::Restore,
            &diag(DiagnosisTag::TransportImpaired),
            probe_ctx(1)
        ),
        Verdict::Retry
    );
    assert_eq!(
        classify(
            EffectKind::Restore,
            &diag(DiagnosisTag::TransportImpaired),
            probe_ctx(2)
        ),
        Verdict::Escalate {
            to: EffectKind::Reconnect
        }
    );
}

#[test]
fn restore_timeout_escalates_at_threshold_online() {
    assert_eq!(
        classify(
            EffectKind::Restore,
            &diag(DiagnosisTag::Timeout),
            probe_ctx(1)
        ),
        Verdict::Retry
    );
    assert_eq!(
        classify(
            EffectKind::Restore,
            &diag(DiagnosisTag::Timeout),
            probe_ctx(2)
        ),
        Verdict::Escalate {
            to: EffectKind::Reconnect
        }
    );
}

#[test]
fn restore_precondition_parks() {
    assert_eq!(
        classify(
            EffectKind::Restore,
            &diag(DiagnosisTag::AuthRejected),
            probe_ctx(1)
        ),
        Verdict::Park {
            release_mask: ReleaseMask::single(ParkCause::AuthRejected)
        }
    );
}

#[test]
fn restore_availability_retries() {
    assert_eq!(
        classify(
            EffectKind::Restore,
            &diag(DiagnosisTag::PathUnreachable),
            probe_ctx(5)
        ),
        Verdict::Retry
    );
}

// --- Reconnect group ---

#[test]
fn reconnect_precondition_parks_but_others_sustain_backoff() {
    assert_eq!(
        classify(
            EffectKind::Reconnect,
            &diag(DiagnosisTag::ConfigRejected),
            probe_ctx(1)
        ),
        Verdict::Park {
            release_mask: ReleaseMask::single(ParkCause::ConfigRejected)
        }
    );
    for tag in [
        DiagnosisTag::PathUnreachable,
        DiagnosisTag::Timeout,
        DiagnosisTag::Overloaded,
        DiagnosisTag::ResourceExhausted,
        DiagnosisTag::TransportImpaired,
        DiagnosisTag::GenerationDead,
    ] {
        assert_eq!(
            classify(EffectKind::Reconnect, &diag(tag), probe_ctx(100)),
            Verdict::Retry,
            "reconnect never parks {tag:?}"
        );
    }
}

// --- Teardown group (cleanup and confirmed offline disconnect) ---

#[test]
fn teardown_invariant_violation_parks_or_abandons_by_mode() {
    for kind in [EffectKind::Cleanup, EffectKind::ConfirmedOfflineDisconnect] {
        let mut ctx = probe_ctx(1);
        ctx.mode_terminating = false;
        assert_eq!(
            classify(kind, &diag(DiagnosisTag::InvariantViolation), ctx),
            Verdict::Park {
                release_mask: ReleaseMask::single(ParkCause::InvariantViolation)
            }
        );
        ctx.mode_terminating = true;
        assert_eq!(
            classify(kind, &diag(DiagnosisTag::InvariantViolation), ctx),
            Verdict::Abandon
        );
    }
}

#[test]
fn teardown_availability_retries_inside_deadline_and_abandons_after() {
    for kind in [EffectKind::Cleanup, EffectKind::ConfirmedOfflineDisconnect] {
        let mut ctx = probe_ctx(3);
        ctx.past_teardown_deadline = false;
        assert_eq!(
            classify(kind, &diag(DiagnosisTag::Timeout), ctx),
            Verdict::Retry
        );
        ctx.past_teardown_deadline = true;
        assert_eq!(
            classify(kind, &diag(DiagnosisTag::Timeout), ctx),
            Verdict::Abandon
        );
    }
}

#[test]
fn teardown_non_producible_diagnosis_is_ruled_as_invariant_violation() {
    // GenerationDead is not producible by a teardown effect; it must be
    // handled as the InvariantViolation cell (fail-closed park when active).
    assert_eq!(
        classify(
            EffectKind::Cleanup,
            &diag(DiagnosisTag::GenerationDead),
            probe_ctx(1)
        ),
        Verdict::Park {
            release_mask: ReleaseMask::single(ParkCause::InvariantViolation)
        }
    );
}

// --- Release mask algebra ---

#[test]
fn mask_release_is_sticky_and_empties_only_when_all_cleared() {
    let mut mask = ReleaseMask::single(ParkCause::AuthRejected);
    mask.insert(ParkCause::ExplicitPause);
    assert!(!mask.is_empty());

    // A resume clears only the explicit-pause entry; auth survives.
    assert!(mask.clear_matching(TriggerClass::ExplicitResume));
    assert!(mask.contains(ParkCause::AuthRejected));
    assert!(!mask.contains(ParkCause::ExplicitPause));
    assert!(!mask.is_empty());

    // A config change matches nothing here.
    assert!(!mask.clear_matching(TriggerClass::ConfigurationChanged));
    assert!(!mask.is_empty());

    // SessionActivated clears the auth entry; the mask now empties.
    assert!(mask.clear_matching(TriggerClass::SessionActivated));
    assert!(mask.is_empty());
}

#[test]
fn resume_alone_cannot_free_a_precondition_park() {
    let mut mask = ReleaseMask::single(ParkCause::InvariantViolation);
    assert!(!mask.would_clear(TriggerClass::ExplicitResume));
    assert!(!mask.clear_matching(TriggerClass::ExplicitResume));
    assert!(!mask.is_empty());
    // Only an explicit command releases an invariant park.
    assert!(mask.would_clear(TriggerClass::ExplicitCommand));
    assert!(mask.clear_matching(TriggerClass::ExplicitCommand));
    assert!(mask.is_empty());
}

#[test]
fn explicit_command_does_not_clear_explicit_pause() {
    let mut mask = ReleaseMask::single(ParkCause::ExplicitPause);
    assert!(!mask.would_clear(TriggerClass::ExplicitCommand));
    assert!(!mask.clear_matching(TriggerClass::ExplicitCommand));
    assert!(!mask.is_empty());
}

#[test]
fn config_and_session_triggers_do_not_cross_clear() {
    let mut mask = ReleaseMask::single(ParkCause::AuthRejected);
    mask.insert(ParkCause::ConfigRejected);
    // A config change clears only config; a session clears only auth.
    assert!(mask.clear_matching(TriggerClass::ConfigurationChanged));
    assert!(mask.contains(ParkCause::AuthRejected));
    assert!(mask.clear_matching(TriggerClass::SessionActivated));
    assert!(mask.is_empty());
}

// --- Backoff arithmetic ---

fn params() -> BackoffParams {
    BackoffParams {
        base_delay: millis(100),
        max_delay: secs(10),
        exponent_cap: 6,
        jitter_ppm: 200_000,
    }
}

#[test]
fn backoff_grows_exponentially_then_caps_at_exponent_and_max() {
    let mut e = FixedEntropy::constant(unit(0.0)); // jitter factor == 1.0
    let now: u64 = 0;
    let p = params();
    // attempt 1 -> 100ms, 2 -> 200ms, 3 -> 400ms.
    assert_eq!(
        arm_backoff(now, 1, &p, 0u64, &mut e),
        millis(100)
    );
    assert_eq!(
        arm_backoff(now, 2, &p, 0u64, &mut e),
        millis(200)
    );
    assert_eq!(
        arm_backoff(now, 3, &p, 0u64, &mut e),
        millis(400)
    );
    // The exponent saturates at cap = 6, so the curve settles at
    // 100ms * 2^6 = 6.4s and never grows past it (still under max_delay).
    assert_eq!(
        arm_backoff(now, 7, &p, 0u64, &mut e),
        millis(6400)
    );
    assert_eq!(
        arm_backoff(now, 1_000, &p, 0u64, &mut e),
        millis(6400)
    );
    // max_delay clamps when base * 2^exponent would exceed it: 5s * 2^2 =
    // 20s, clamped to the 8s ceiling.
    let clamped = BackoffParams {
        base_delay: secs(5),
        max_delay: secs(8),
        exponent_cap: 6,
        jitter_ppm: 200_000,
    };
    assert_eq!(
        arm_backoff(now, 3, &clamped, 0u64, &mut e),
        secs(8)
    );
}

#[test]
fn jitter_scales_within_configured_span() {
    let now: u64 = 0;
    let p = params();
    // u == 1.0 (approached) -> factor 1 - 0.2 == 0.8 of the 100ms base.
    let mut e = FixedEntropy::constant(unit(1.0));
    assert_eq!(
        arm_backoff(now, 1, &p, 0u64, &mut e),
        millis(80)
    );
}

#[test]
fn retry_after_floor_is_applied_after_jitter() {
    let now: u64 = 0;
    let p = params();
    // Jitter would drop the 100ms base to 80ms, but the 5s floor wins and
    // is honored even though it exceeds the jittered delay.
    let mut e = FixedEntropy::constant(unit(1.0));
    let deadline = arm_backoff(now, 1, &p, secs(5), &mut e);
    assert_eq!(deadline, secs(5));
}

#[test]
fn retry_after_is_honored_even_above_max_delay() {
    let now: u64 = 0;
    let p = params();
    let mut e = FixedEntropy::constant(unit(0.0));
    let deadline = arm_backoff(now, 1, &p, secs(30), &mut e);
    assert_eq!(deadline, secs(30));
}

#[test]
fn each_armed_deadline_draws_exactly_one_sample() {
    let now: u64 = 0;
    let p = params();
    let mut e = FixedEntropy::new(vec![unit(0.0), unit(0.5), unit(1.0)]);
    let _ = arm_backoff(now, 1, &p, 0u64, &mut e);
    let _ = arm_backoff(now, 2, &p, 0u64, &mut e);
    assert_eq!(e.drawn(), 2);
}

#[test]
fn extreme_retry_after_saturates_instead_of_panicking() {
    // A hostile or corrupt `retry_after` must never panic the policy
    // engine; the deadline saturates at the far future.
    let now = secs(1);
    let p = params();
    let mut e = FixedEntropy::constant(unit(0.0));
    let deadline = arm_backoff(now, 1, &p, u64::MAX, &mut e);
    assert_eq!(deadline, u64::MAX);
}

#[test]
fn arm_backoff_draws_one_sample_and_uses_it() {
    let p = params();
    let mut e = FixedEntropy::new(vec![UNIT_ONE, 0]);
    // The first sample is a full jitter unit: 100ms shortened by 20%.
    assert_eq!(arm_backoff(0, 1, &p, 0u64, &mut e), millis(80));
    assert_eq!(e.drawn(), 1);
    // The second call uses the second sample: no jitter.
    assert_eq!(arm_backoff(0, 1, &p, 0u64, &mut e), millis(100));
    assert_eq!(e.drawn(), 2);
}
