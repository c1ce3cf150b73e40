//! The responsive connection-recovery supervisor.
//!
//! The supervisor is the sole writer of lifecycle recovery policy. It holds the
//! discrete state of the eight machines plus the extended context of the
//! policy snapshot, and drives every transition through the pure
//! [`translate`] reducer: an accepted input becomes a decision, and the
//! supervisor applies that decision to its snapshot through the checked
//! machine transitions of [`crate::recovery_policy::machines`]. An undefined
//! transition leaves the state unchanged; nothing here panics.
//!
//! Asynchronous execution, timers and completion delivery live in the shell
//! around the library; the supervisor is synchronous and clock-free (it is
//! handed `now`).
use vstd::prelude::*;

use crate::network_event::{
    observed_outcome, observed_spec, AppLifecycleState, CleanupReason as WireCleanupReason,
    NetworkAvailability, NetworkEvent, NetworkRecoveryAction, NetworkSnapshot, ReconnectReason,
    SupervisorStatus, LONG_BACKGROUND_RECONNECT_THRESHOLD_MS,
};
use crate::recovery_policy::classification::{
    DefaultEntropy, EntropySource, ParkCause, ReleaseMask, TriggerClass,
};
use crate::recovery_policy::diagnosis::{is_teardown_kind, EffectKind};
use crate::recovery_policy::machines::{
    app_phase_next, app_phase_next_spec, cleanup_work_next, cleanup_work_next_spec,
    execution_next, execution_next_spec, network_path_next, network_path_next_spec,
    offline_work_next, offline_work_next_spec, recovery_intent_next, recovery_intent_next_spec,
    recovery_mode_next, recovery_mode_next_spec, retry_gate_next, retry_gate_next_spec,
};
use crate::recovery_policy::translate::{
    begins_nothing, completion_matches, composite_action, composite_action_spec,
    derive_send_policy, draws_entropy, entropy_after_translation, translation_sample, fresh_record, is_begin_input,
    lemma_decisions_begin_no_effect, record_of, send_policy_spec, snapshot_is_accepted,
    translate, translate_model, AcceptedSnapshot, Action, AppPhaseInput, AppPhaseState,
    CancelReason, CleanupReason, CleanupWorkInput, CleanupWorkState, DecisionModel,
    EffectContext, ExecutionInput, ExecutionState, GateTrigger, Input, LifecycleProfile,
    MachineInput, NetworkPathInput, NetworkPathState, OfflineCandidate, OfflineWorkInput,
    OfflineWorkState, ParkDirective, PendingRecord, PolicyConfig, PolicyModel, PolicyView,
    RecoveryIntentInput, RecoveryIntentState, RecoveryModeInput, RecoveryModeState,
    RecoveryRequestReason, RecoveryStrength, RetryDomain, RetryGateInput, RetryGateState,
    RevisionDirective, SemanticPath, SendProjection, ShutdownDeadline, SignalingDirective,
    StatusRecord, TeardownDeadline, TeardownDomain, TimerDirective, TimerId,
};
use crate::recovery_policy::{PolicyInstant, Revision};

verus! {

broadcast use vstd::std_specs::btree::group_btree_axioms;

// ---------------------------------------------------------------------------
// Shell-facing outputs
// ---------------------------------------------------------------------------

/// A concrete arm/cancel instruction for the shell's timer facade. An arm
/// carries the fully formed expiry input the shell delivers when it fires, so
/// the supervisor stays the single source of the identities the expiry echoes.
#[derive(Debug, Clone, PartialEq, Eq)]
pub enum TimerOp {
    Arm { key: TimerId, at: PolicyInstant, fire: Input },
    Cancel { key: TimerId },
}

/// What the shell must do after one accepted input.
#[derive(Debug, Clone, PartialEq, Eq)]
pub struct AcceptOutcome {
    /// Whether the input advanced the policy revision.
    pub advanced: bool,
    /// Timer arm/cancel instructions in application order.
    pub timer_ops: Vec<TimerOp>,
    /// Whether the running effect must be cancelled.
    pub cancel_effect: bool,
    /// Structured status-stream records produced by translation.
    pub status: Vec<StatusRecord>,
    /// Signaling directives, executed before any cancellation.
    pub signals: Vec<SignalingDirective>,
    /// The supervisor has ended; the shell stops its loop.
    pub terminate: bool,
}

/// The mathematical content of an [`AcceptOutcome`].
#[verifier::ext_equal]
pub struct AcceptOutcomeModel {
    pub advanced: bool,
    pub timer_ops: Seq<TimerOp>,
    pub cancel_effect: bool,
    pub status: Seq<StatusRecord>,
    pub signals: Seq<SignalingDirective>,
    pub terminate: bool,
}

impl View for AcceptOutcome {
    type V = AcceptOutcomeModel;

    open spec fn view(&self) -> AcceptOutcomeModel {
        AcceptOutcomeModel {
            advanced: self.advanced,
            timer_ops: self.timer_ops@,
            cancel_effect: self.cancel_effect,
            status: self.status@,
            signals: self.signals@,
            terminate: self.terminate,
        }
    }
}

/// A newly started lifecycle effect the shell must spawn.
#[derive(Debug, Clone, Copy, PartialEq, Eq, Structural)]
pub struct StartedEffect {
    pub action_id: u64,
    pub kind: EffectKind,
    pub action: Action,
    pub captured_revision: Revision,
    /// The remaining overall-teardown budget of a teardown effect, from its
    /// armed obligation deadline; `None` for recovery effects.
    pub teardown_budget: Option<PolicyInstant>,
}

// ---------------------------------------------------------------------------
// The supervisor state and its model
// ---------------------------------------------------------------------------

/// The persistent, layered recovery supervisor.
pub struct ConnectionSupervisor<E: EntropySource> {
    view: PolicyView,
    config: PolicyConfig,
    entropy: E,
    next_action_id: u64,
    next_candidate_id: u64,
    next_retry_id: u64,
    next_deadline_id: u64,
    pending_ops: Vec<TimerOp>,
}

/// The mathematical content of a supervisor: its policy snapshot, its
/// configuration, the next identities it allocates, and the timer work
/// collected for the input being applied.
#[verifier::ext_equal]
pub struct SupervisorModel {
    pub view: PolicyModel,
    pub config: PolicyConfig,
    pub next_action_id: u64,
    pub next_candidate_id: u64,
    pub next_retry_id: u64,
    pub next_deadline_id: u64,
    pub pending_ops: Seq<TimerOp>,
}

impl<E: EntropySource> ConnectionSupervisor<E> {
    /// The supervisor's model.
    pub closed spec fn model(&self) -> SupervisorModel {
        SupervisorModel {
            view: self.view@,
            config: self.config,
            next_action_id: self.next_action_id,
            next_candidate_id: self.next_candidate_id,
            next_retry_id: self.next_retry_id,
            next_deadline_id: self.next_deadline_id,
            pending_ops: self.pending_ops@,
        }
    }

    /// The injected entropy source.
    pub closed spec fn entropy_source(&self) -> E {
        self.entropy
    }
}

/// Replace the policy snapshot of a model.
pub open spec fn with_view(m: SupervisorModel, v: PolicyModel) -> SupervisorModel {
    SupervisorModel { view: v, ..m }
}

/// Append one timer op to a model's pending work.
pub open spec fn push_op(m: SupervisorModel, op: TimerOp) -> SupervisorModel {
    SupervisorModel { pending_ops: m.pending_ops.push(op), ..m }
}

/// Replace one domain's record.
pub open spec fn with_record(v: PolicyModel, domain: RetryDomain, r: Option<PendingRecord>) -> PolicyModel {
    match domain {
        RetryDomain::Recovery => PolicyModel { recovery_record: r, ..v },
        RetryDomain::Cleanup => PolicyModel { cleanup_record: r, ..v },
        RetryDomain::Offline => PolicyModel { offline_record: r, ..v },
    }
}

/// The initial snapshot of a supervisor with the given profile.
pub open spec fn initial_model(profile: LifecycleProfile, config: PolicyConfig) -> SupervisorModel {
    SupervisorModel {
        view: PolicyModel {
            recovery_mode: RecoveryModeState::Active,
            app_phase: AppPhaseState::Unknown,
            network_path: NetworkPathState::Unknown,
            recovery_intent: RecoveryIntentState::Idle,
            cleanup_work: CleanupWorkState::Idle,
            offline_work: OfflineWorkState::Idle,
            execution: ExecutionState::Idle,
            recovery_record: None,
            cleanup_record: None,
            offline_record: None,
            effect: None,
            policy_revision: 0,
            last_snapshot: None,
            offline_candidate: None,
            cleanup_teardown: None,
            offline_teardown: None,
            background_entered_at: None,
            committed_session_generation: None,
            live_signaling_generation: None,
            teardown_scope_generations: Set::empty(),
            shutdown_deadline: None,
            profile,
        },
        config,
        next_action_id: 1,
        next_candidate_id: 1,
        next_retry_id: 1,
        next_deadline_id: 1,
        pending_ops: Seq::empty(),
    }
}

// ---------------------------------------------------------------------------
// Machine-input application, one machine at a time
// ---------------------------------------------------------------------------

/// `RecoveryMode`: follow the machine; an undefined pair changes nothing.
pub open spec fn mode_step(m: SupervisorModel, i: RecoveryModeInput) -> SupervisorModel {
    match recovery_mode_next_spec(m.view.recovery_mode, i) {
        Some(n) => with_view(m, PolicyModel { recovery_mode: n, ..m.view }),
        None => m,
    }
}

/// `AppPhase`: entering the background stamps the entry time; the first
/// authoritative phase cancels the bootstrap deadline.
pub open spec fn phase_step(m: SupervisorModel, i: AppPhaseInput, now: PolicyInstant) -> SupervisorModel {
    let old = m.view.app_phase;
    match app_phase_next_spec(old, i) {
        Some(n) => {
            let entered = if n == AppPhaseState::Background && old != AppPhaseState::Background {
                Some(now)
            } else {
                m.view.background_entered_at
            };
            let m1 = with_view(
                m,
                PolicyModel { app_phase: n, background_entered_at: entered, ..m.view },
            );
            if old == AppPhaseState::Unknown && n != AppPhaseState::Unknown {
                push_op(m1, TimerOp::Cancel { key: TimerId::BootstrapPhase })
            } else {
                m1
            }
        },
        None => m,
    }
}

/// `NetworkPath`: leaving the candidate state drops the candidate identity.
pub open spec fn path_step(m: SupervisorModel, i: NetworkPathInput) -> SupervisorModel {
    match network_path_next_spec(m.view.network_path, i) {
        Some(n) => with_view(
            m,
            PolicyModel {
                network_path: n,
                offline_candidate: if n != NetworkPathState::OfflineCandidate {
                    None
                } else {
                    m.view.offline_candidate
                },
                ..m.view
            },
        ),
        None => m,
    }
}

impl<E: EntropySource> ConnectionSupervisor<E> {
    fn apply_recovery_mode(&mut self, i: RecoveryModeInput)
        ensures
            final(self).model() == mode_step(old(self).model(), i),
            final(self).entropy_source() == old(self).entropy_source(),
    {
        match recovery_mode_next(self.view.recovery_mode, i) {
            Some(n) => {
                self.view.recovery_mode = n;
            },
            None => {},
        }
    }

    fn apply_app_phase(&mut self, i: AppPhaseInput, now: PolicyInstant)
        ensures
            final(self).model() == phase_step(old(self).model(), i, now),
            final(self).entropy_source() == old(self).entropy_source(),
    {
        let old_phase = self.view.app_phase;
        match app_phase_next(old_phase, i) {
            Some(n) => {
                self.view.app_phase = n;
                if n == AppPhaseState::Background && old_phase != AppPhaseState::Background {
                    self.view.background_entered_at = Some(now);
                }
                if old_phase == AppPhaseState::Unknown && n != AppPhaseState::Unknown {
                    self.pending_ops.push(TimerOp::Cancel { key: TimerId::BootstrapPhase });
                }
            },
            None => {},
        }
    }

    fn apply_network_path(&mut self, i: NetworkPathInput)
        ensures
            final(self).model() == path_step(old(self).model(), i),
            final(self).entropy_source() == old(self).entropy_source(),
    {
        match network_path_next(self.view.network_path, i) {
            Some(n) => {
                self.view.network_path = n;
                if n != NetworkPathState::OfflineCandidate {
                    self.view.offline_candidate = None;
                }
            },
            None => {},
        }
    }
}

/// The strength of a pending intent state; `Probe` for `Idle`, which no
/// request produces.
pub open spec fn pending_strength(s: RecoveryIntentState) -> RecoveryStrength {
    match s {
        RecoveryIntentState::RestorePending => RecoveryStrength::Restore,
        RecoveryIntentState::ReconnectPending => RecoveryStrength::Reconnect,
        _ => RecoveryStrength::Probe,
    }
}

/// A request input of the intent machine.
pub open spec fn is_request(i: RecoveryIntentInput) -> bool {
    i == RecoveryIntentInput::RequestProbe || i == RecoveryIntentInput::RequestRestore || i
        == RecoveryIntentInput::RequestReconnect
}

/// `RecoveryIntent`: a request keeps or creates the recovery record (an
/// escalation, which never advances the revision, keeps the causal work
/// revision and re-arms a fresh `Ready` gate; anything else starts a fresh
/// record at the current revision); a completion or supersession drops it.
/// Either way the recovery backoff timer is cancelled.
pub open spec fn intent_step(m: SupervisorModel, i: RecoveryIntentInput, advanced: bool, rev: Revision) -> SupervisorModel {
    match recovery_intent_next_spec(m.view.recovery_intent, i) {
        Some(n) => {
            let v = PolicyModel { recovery_intent: n, ..m.view };
            let record = if is_request(i) {
                let strength = pending_strength(n);
                match m.view.recovery_record {
                    Some(rec) if !advanced => Some(
                        PendingRecord {
                            gate: RetryGateState::Ready,
                            attempt: 0,
                            retry_id: 0,
                            release_mask: ReleaseMask::empty_spec(),
                            strength: Some(strength),
                            ..rec
                        },
                    ),
                    _ => Some(fresh_record(rev, Some(strength))),
                }
            } else {
                None
            };
            push_op(
                with_view(m, PolicyModel { recovery_record: record, ..v }),
                TimerOp::Cancel { key: TimerId::FailureBackoff(RetryDomain::Recovery) },
            )
        },
        None => m,
    }
}

/// `CleanupWork`: a request creates a fresh cleanup record at the current
/// revision; a completion drops it, its overall deadline, and its backoff.
pub open spec fn cleanup_step(m: SupervisorModel, i: CleanupWorkInput, rev: Revision) -> SupervisorModel {
    match cleanup_work_next_spec(m.view.cleanup_work, i) {
        Some(n) => match i {
            CleanupWorkInput::RequestCleanup => with_view(
                m,
                PolicyModel {
                    cleanup_work: n,
                    cleanup_record: Some(fresh_record(rev, None)),
                    ..m.view
                },
            ),
            CleanupWorkInput::CompleteCleanup => {
                let m1 = with_view(
                    m,
                    PolicyModel {
                        cleanup_work: n,
                        cleanup_record: None,
                        cleanup_teardown: None,
                        ..m.view
                    },
                );
                let m2 = if m.view.cleanup_teardown is Some {
                    push_op(
                        m1,
                        TimerOp::Cancel { key: TimerId::TeardownOverall(TeardownDomain::Cleanup) },
                    )
                } else {
                    m1
                };
                push_op(m2, TimerOp::Cancel { key: TimerId::FailureBackoff(RetryDomain::Cleanup) })
            },
        },
        None => m,
    }
}

/// `OfflineWork`: a request creates a fresh disconnect record at the current
/// revision; a completion or supersession drops it, its overall deadline, and
/// its backoff.
pub open spec fn offline_step(m: SupervisorModel, i: OfflineWorkInput) -> SupervisorModel {
    match offline_work_next_spec(m.view.offline_work, i) {
        Some(n) => match i {
            OfflineWorkInput::RequestDisconnect => with_view(
                m,
                PolicyModel {
                    offline_work: n,
                    offline_record: Some(fresh_record(m.view.policy_revision, None)),
                    ..m.view
                },
            ),
            _ => {
                let m1 = with_view(
                    m,
                    PolicyModel {
                        offline_work: n,
                        offline_record: None,
                        offline_teardown: None,
                        ..m.view
                    },
                );
                let m2 = if m.view.offline_teardown is Some {
                    push_op(
                        m1,
                        TimerOp::Cancel {
                            key: TimerId::TeardownOverall(TeardownDomain::OfflineDisconnect),
                        },
                    )
                } else {
                    m1
                };
                push_op(m2, TimerOp::Cancel { key: TimerId::FailureBackoff(RetryDomain::Offline) })
            },
        },
        None => m,
    }
}

impl<E: EntropySource> ConnectionSupervisor<E> {
    fn apply_recovery_intent(&mut self, i: RecoveryIntentInput, advanced: bool, rev: Revision)
        ensures
            final(self).model() == intent_step(old(self).model(), i, advanced, rev),
            final(self).entropy_source() == old(self).entropy_source(),
    {
        match recovery_intent_next(self.view.recovery_intent, i) {
            Some(n) => {
                self.view.recovery_intent = n;
                let request = match i {
                    RecoveryIntentInput::RequestProbe | RecoveryIntentInput::RequestRestore
                    | RecoveryIntentInput::RequestReconnect => true,
                    _ => false,
                };
                if request {
                    let strength = match n {
                        RecoveryIntentState::RestorePending => RecoveryStrength::Restore,
                        RecoveryIntentState::ReconnectPending => RecoveryStrength::Reconnect,
                        _ => RecoveryStrength::Probe,
                    };
                    match self.view.recovery_record {
                        Some(rec) if !advanced => {
                            self.view.recovery_record = Some(
                                PendingRecord {
                                    work_revision: rec.work_revision,
                                    gate: RetryGateState::Ready,
                                    attempt: 0,
                                    retry_id: 0,
                                    release_mask: ReleaseMask {
                                        auth: false,
                                        config: false,
                                        invariant: false,
                                        pause: false,
                                    },
                                    strength: Some(strength),
                                },
                            );
                        },
                        _ => {
                            self.view.recovery_record = Some(PendingRecord::recovery(rev, strength));
                        },
                    }
                } else {
                    self.view.recovery_record = None;
                }
                self.pending_ops.push(
                    TimerOp::Cancel { key: TimerId::FailureBackoff(RetryDomain::Recovery) },
                );
            },
            None => {},
        }
    }

    fn apply_cleanup_work(&mut self, i: CleanupWorkInput, rev: Revision)
        ensures
            final(self).model() == cleanup_step(old(self).model(), i, rev),
            final(self).entropy_source() == old(self).entropy_source(),
    {
        match cleanup_work_next(self.view.cleanup_work, i) {
            Some(n) => {
                self.view.cleanup_work = n;
                match i {
                    CleanupWorkInput::RequestCleanup => {
                        self.view.cleanup_record = Some(PendingRecord::teardown(rev));
                    },
                    CleanupWorkInput::CompleteCleanup => {
                        self.view.cleanup_record = None;
                        let armed = self.view.cleanup_teardown.is_some();
                        self.view.cleanup_teardown = None;
                        if armed {
                            self.pending_ops.push(
                                TimerOp::Cancel {
                                    key: TimerId::TeardownOverall(TeardownDomain::Cleanup),
                                },
                            );
                        }
                        self.pending_ops.push(
                            TimerOp::Cancel { key: TimerId::FailureBackoff(RetryDomain::Cleanup) },
                        );
                    },
                }
            },
            None => {},
        }
    }

    fn apply_offline_work(&mut self, i: OfflineWorkInput)
        ensures
            final(self).model() == offline_step(old(self).model(), i),
            final(self).entropy_source() == old(self).entropy_source(),
    {
        match offline_work_next(self.view.offline_work, i) {
            Some(n) => {
                self.view.offline_work = n;
                match i {
                    OfflineWorkInput::RequestDisconnect => {
                        self.view.offline_record = Some(
                            PendingRecord::teardown(self.view.policy_revision),
                        );
                    },
                    _ => {
                        self.view.offline_record = None;
                        let armed = self.view.offline_teardown.is_some();
                        self.view.offline_teardown = None;
                        if armed {
                            self.pending_ops.push(
                                TimerOp::Cancel {
                                    key: TimerId::TeardownOverall(TeardownDomain::OfflineDisconnect),
                                },
                            );
                        }
                        self.pending_ops.push(
                            TimerOp::Cancel { key: TimerId::FailureBackoff(RetryDomain::Offline) },
                        );
                    },
                }
            },
            None => {},
        }
    }
}

/// `RetryGate` on one domain's record. A retryable failure allocates the next
/// retry identity (even when no record is present); a missing record or an
/// undefined transition changes nothing else. A retryable failure counts the
/// attempt and records the retry identity; an expired deadline or a material
/// trigger re-stamps the work revision, and the trigger also resets the
/// attempt count; a trigger or a pause cancels the domain's backoff timer.
pub open spec fn gate_step(m: SupervisorModel, domain: RetryDomain, input: RetryGateInput, rev: Revision) -> SupervisorModel {
    let retryable = input == RetryGateInput::RetryableFailure;
    let new_retry_id = if retryable {
        m.next_retry_id
    } else {
        0
    };
    let m1 = if retryable {
        SupervisorModel { next_retry_id: m.next_retry_id.wrapping_add(1), ..m }
    } else {
        m
    };
    match record_of(m.view, domain) {
        None => m1,
        Some(rec) => match retry_gate_next_spec(rec.gate, input) {
            None => m1,
            Some(next) => {
                let r = match input {
                    RetryGateInput::RetryableFailure => PendingRecord {
                        gate: next,
                        attempt: rec.attempt.saturating_add(1),
                        retry_id: new_retry_id,
                        ..rec
                    },
                    RetryGateInput::RetryDeadlineExpired => PendingRecord {
                        gate: next,
                        work_revision: rev,
                        ..rec
                    },
                    RetryGateInput::NewMaterialTrigger => PendingRecord {
                        gate: next,
                        attempt: 0,
                        work_revision: rev,
                        ..rec
                    },
                    _ => PendingRecord { gate: next, ..rec },
                };
                let m2 = with_view(m1, with_record(m1.view, domain, Some(r)));
                if input == RetryGateInput::NewMaterialTrigger || input
                    == RetryGateInput::ExplicitPause {
                    push_op(m2, TimerOp::Cancel { key: TimerId::FailureBackoff(domain) })
                } else {
                    m2
                }
            },
        },
    }
}

/// A completion input of the execution machine.
pub open spec fn is_completion(i: ExecutionInput) -> bool {
    i == ExecutionInput::Succeeded || i == ExecutionInput::Failed || i == ExecutionInput::Cancelled
}

/// The running effect is a teardown effect.
pub open spec fn effect_is_teardown(v: PolicyModel) -> bool {
    match v.effect {
        Some(e) => is_teardown_kind(e.kind),
        None => false,
    }
}

/// `Execution`: a completion releases the effect context; a successful
/// teardown also drops its scoped generations, and the live signaling
/// generation with them when it is one of them.
pub open spec fn execution_step(m: SupervisorModel, i: ExecutionInput) -> SupervisorModel {
    match execution_next_spec(m.view.execution, i) {
        None => m,
        Some(n) => {
            let v = m.view;
            let v1 = if is_completion(i) {
                if i == ExecutionInput::Succeeded && effect_is_teardown(v) {
                    let live = match v.live_signaling_generation {
                        Some(g) => if v.teardown_scope_generations.contains(g) {
                            None
                        } else {
                            Some(g)
                        },
                        None => None,
                    };
                    PolicyModel {
                        live_signaling_generation: live,
                        teardown_scope_generations: Set::empty(),
                        effect: None,
                        ..v
                    }
                } else {
                    PolicyModel { effect: None, ..v }
                }
            } else {
                v
            };
            with_view(m, PolicyModel { execution: n, ..v1 })
        },
    }
}

/// Apply one machine input.
pub open spec fn machine_step(m: SupervisorModel, mi: MachineInput, advanced: bool, rev: Revision, now: PolicyInstant) -> SupervisorModel {
    match mi {
        MachineInput::RecoveryMode(i) => mode_step(m, i),
        MachineInput::AppPhase(i) => phase_step(m, i, now),
        MachineInput::NetworkPath(i) => path_step(m, i),
        MachineInput::RecoveryIntent(i) => intent_step(m, i, advanced, rev),
        MachineInput::CleanupWork(i) => cleanup_step(m, i, rev),
        MachineInput::OfflineWork(i) => offline_step(m, i),
        MachineInput::RetryGate { domain, input } => gate_step(m, domain, input, rev),
        MachineInput::Execution(i) => execution_step(m, i),
    }
}

/// Apply machine inputs in order.
pub open spec fn machine_steps(m: SupervisorModel, s: Seq<MachineInput>, advanced: bool, rev: Revision, now: PolicyInstant) -> SupervisorModel
    decreases s.len(),
{
    if s.len() == 0 {
        m
    } else {
        machine_step(machine_steps(m, s.drop_last(), advanced, rev, now), s.last(), advanced, rev, now)
    }
}

impl<E: EntropySource> ConnectionSupervisor<E> {
    fn set_record(&mut self, domain: RetryDomain, r: Option<PendingRecord>)
        ensures
            final(self).model() == with_view(old(self).model(), with_record(old(self).model().view, domain, r)),
            final(self).entropy_source() == old(self).entropy_source(),
    {
        match domain {
            RetryDomain::Recovery => {
                self.view.recovery_record = r;
            },
            RetryDomain::Cleanup => {
                self.view.cleanup_record = r;
            },
            RetryDomain::Offline => {
                self.view.offline_record = r;
            },
        }
    }

    fn apply_retry_gate(&mut self, domain: RetryDomain, input: RetryGateInput, rev: Revision)
        ensures
            final(self).model() == gate_step(old(self).model(), domain, input, rev),
            final(self).entropy_source() == old(self).entropy_source(),
    {
        let retryable = input == RetryGateInput::RetryableFailure;
        let new_retry_id = if retryable {
            self.next_retry_id
        } else {
            0
        };
        if retryable {
            self.next_retry_id = self.next_retry_id.wrapping_add(1);
        }
        match self.view.record(domain) {
            None => {},
            Some(rec) => match retry_gate_next(rec.gate, input) {
                None => {},
                Some(next) => {
                    let r = match input {
                        RetryGateInput::RetryableFailure => PendingRecord {
                            gate: next,
                            attempt: rec.attempt.saturating_add(1),
                            retry_id: new_retry_id,
                            ..rec
                        },
                        RetryGateInput::RetryDeadlineExpired => PendingRecord {
                            gate: next,
                            work_revision: rev,
                            ..rec
                        },
                        RetryGateInput::NewMaterialTrigger => PendingRecord {
                            gate: next,
                            attempt: 0,
                            work_revision: rev,
                            ..rec
                        },
                        _ => PendingRecord { gate: next, ..rec },
                    };
                    self.set_record(domain, Some(r));
                    if input == RetryGateInput::NewMaterialTrigger || input
                        == RetryGateInput::ExplicitPause {
                        self.pending_ops.push(
                            TimerOp::Cancel { key: TimerId::FailureBackoff(domain) },
                        );
                    }
                },
            },
        }
    }

    fn apply_execution(&mut self, i: ExecutionInput)
        ensures
            final(self).model() == execution_step(old(self).model(), i),
            final(self).entropy_source() == old(self).entropy_source(),
    {
        match execution_next(self.view.execution, i) {
            None => {},
            Some(n) => {
                let completion = match i {
                    ExecutionInput::Succeeded | ExecutionInput::Failed
                    | ExecutionInput::Cancelled => true,
                    _ => false,
                };
                if completion {
                    let was_teardown = match self.view.effect {
                        Some(e) => e.kind.is_teardown(),
                        None => false,
                    };
                    if i == ExecutionInput::Succeeded && was_teardown {
                        match self.view.live_signaling_generation {
                            Some(g) => {
                                if self.view.teardown_scope_generations.contains(&g) {
                                    self.view.live_signaling_generation = None;
                                }
                            },
                            None => {},
                        }
                        self.view.teardown_scope_generations.clear();
                    }
                    self.view.effect = None;
                }
                self.view.execution = n;
            },
        }
    }

    fn apply_machine_input(&mut self, mi: MachineInput, advanced: bool, rev: Revision, now: PolicyInstant)
        ensures
            final(self).model() == machine_step(old(self).model(), mi, advanced, rev, now),
            final(self).entropy_source() == old(self).entropy_source(),
    {
        match mi {
            MachineInput::RecoveryMode(i) => self.apply_recovery_mode(i),
            MachineInput::AppPhase(i) => self.apply_app_phase(i, now),
            MachineInput::NetworkPath(i) => self.apply_network_path(i),
            MachineInput::RecoveryIntent(i) => self.apply_recovery_intent(i, advanced, rev),
            MachineInput::CleanupWork(i) => self.apply_cleanup_work(i, rev),
            MachineInput::OfflineWork(i) => self.apply_offline_work(i),
            MachineInput::RetryGate { domain, input } => self.apply_retry_gate(domain, input, rev),
            MachineInput::Execution(i) => self.apply_execution(i),
        }
    }
}

/// Apply one gate trigger. `Wake` frees a `BackingOff` record (resetting its
/// attempt count and re-stamping its work revision, and cancelling its
/// backoff timer). `ClearMask` removes the mask entries the trigger clears on
/// a `Parked` record, and frees the record only once its mask is empty.
pub open spec fn trigger_step(m: SupervisorModel, gt: GateTrigger, rev: Revision) -> SupervisorModel {
    match gt {
        GateTrigger::Wake { domain } => match record_of(m.view, domain) {
            Some(rec) => if rec.gate == RetryGateState::BackingOff {
                push_op(
                    with_view(
                        m,
                        with_record(
                            m.view,
                            domain,
                            Some(
                                PendingRecord {
                                    gate: RetryGateState::Ready,
                                    attempt: 0,
                                    work_revision: rev,
                                    ..rec
                                },
                            ),
                        ),
                    ),
                    TimerOp::Cancel { key: TimerId::FailureBackoff(domain) },
                )
            } else {
                m
            },
            None => m,
        },
        GateTrigger::ClearMask { domain, trigger } => match record_of(m.view, domain) {
            Some(rec) => if rec.gate == RetryGateState::Parked {
                let mask = rec.release_mask.cleared_spec(trigger);
                let r = if mask.is_empty_spec() {
                    PendingRecord {
                        gate: RetryGateState::Ready,
                        attempt: 0,
                        work_revision: rev,
                        release_mask: mask,
                        ..rec
                    }
                } else {
                    PendingRecord { release_mask: mask, ..rec }
                };
                with_view(m, with_record(m.view, domain, Some(r)))
            } else {
                m
            },
            None => m,
        },
    }
}

/// Apply gate triggers in order.
pub open spec fn trigger_steps(m: SupervisorModel, s: Seq<GateTrigger>, rev: Revision) -> SupervisorModel
    decreases s.len(),
{
    if s.len() == 0 {
        m
    } else {
        trigger_step(trigger_steps(m, s.drop_last(), rev), s.last(), rev)
    }
}

/// Record the release mask of a parking record (union with what it holds).
pub open spec fn park_step(m: SupervisorModel, pk: ParkDirective) -> SupervisorModel {
    match record_of(m.view, pk.domain) {
        Some(rec) => with_view(
            m,
            with_record(
                m.view,
                pk.domain,
                Some(PendingRecord { release_mask: rec.release_mask.union_spec(pk.release_mask), ..rec }),
            ),
        ),
        None => m,
    }
}

/// Apply park directives in order.
pub open spec fn park_steps(m: SupervisorModel, s: Seq<ParkDirective>) -> SupervisorModel
    decreases s.len(),
{
    if s.len() == 0 {
        m
    } else {
        park_step(park_steps(m, s.drop_last()), s.last())
    }
}

/// Input-specific extended context: an accepted snapshot identity is recorded
/// even when it is a structural duplicate; a committed session or signaling
/// generation and a lost live generation are recorded when they advanced.
pub open spec fn extended_step(m: SupervisorModel, input: Input, advanced: bool) -> SupervisorModel {
    let v = m.view;
    match input {
        Input::NetworkSnapshot { source_epoch, sequence, semantic_path, route_fingerprint } =>
            if snapshot_is_accepted(v.last_snapshot, source_epoch, sequence) {
            with_view(
                m,
                PolicyModel {
                    last_snapshot: Some(
                        AcceptedSnapshot { source_epoch, sequence, semantic_path, route_fingerprint },
                    ),
                    ..v
                },
            )
        } else {
            m
        },
        Input::SessionActivated { session_generation } => if advanced {
            with_view(m, PolicyModel { committed_session_generation: Some(session_generation), ..v })
        } else {
            m
        },
        Input::SignalingGenerationCommitted { generation, .. } => if advanced {
            with_view(m, PolicyModel { live_signaling_generation: Some(generation), ..v })
        } else {
            m
        },
        Input::SignalingGenerationLost { generation, .. } => if advanced
            && v.live_signaling_generation == Some(generation) {
            with_view(m, PolicyModel { live_signaling_generation: None, ..v })
        } else {
            m
        },
        _ => m,
    }
}

/// Lower one timer directive. Arming an offline candidate, the shutdown
/// deadline or a teardown deadline allocates its identity and records it in
/// the snapshot; a backoff arm echoes its record's work revision and retry
/// identity; a cancel forgets the recorded identity.
pub open spec fn timer_step(m: SupervisorModel, td: TimerDirective) -> SupervisorModel {
    let v = m.view;
    match td {
        TimerDirective::Arm { id, deadline, .. } => match id {
            TimerId::OfflineCandidate => {
                let cid = m.next_candidate_id;
                push_op(
                    SupervisorModel {
                        next_candidate_id: cid.wrapping_add(1),
                        view: PolicyModel {
                            offline_candidate: Some(OfflineCandidate { candidate_id: cid, deadline }),
                            ..v
                        },
                        ..m
                    },
                    TimerOp::Arm { key: id, at: deadline, fire: Input::OfflineGraceExpired { candidate_id: cid } },
                )
            },
            TimerId::ShutdownOverall => {
                let did = m.next_deadline_id;
                push_op(
                    SupervisorModel {
                        next_deadline_id: did.wrapping_add(1),
                        view: PolicyModel {
                            shutdown_deadline: Some(ShutdownDeadline { deadline_id: did, deadline }),
                            ..v
                        },
                        ..m
                    },
                    TimerOp::Arm { key: id, at: deadline, fire: Input::ShutdownDeadlineExpired { deadline_id: did } },
                )
            },
            TimerId::TeardownOverall(domain) => {
                let did = m.next_deadline_id;
                let t = Some(TeardownDeadline { deadline_id: did, deadline });
                let v1 = match domain {
                    TeardownDomain::Cleanup => PolicyModel { cleanup_teardown: t, ..v },
                    TeardownDomain::OfflineDisconnect => PolicyModel { offline_teardown: t, ..v },
                };
                push_op(
                    SupervisorModel { next_deadline_id: did.wrapping_add(1), view: v1, ..m },
                    TimerOp::Arm {
                        key: id,
                        at: deadline,
                        fire: Input::TeardownDeadlineExpired { domain, deadline_id: did },
                    },
                )
            },
            TimerId::FailureBackoff(domain) => {
                let (work_revision, retry_id) = match record_of(v, domain) {
                    Some(r) => (r.work_revision, r.retry_id),
                    None => (0, 0),
                };
                push_op(
                    m,
                    TimerOp::Arm {
                        key: id,
                        at: deadline,
                        fire: Input::RetryDeadlineExpired { domain, work_revision, retry_id },
                    },
                )
            },
            TimerId::BootstrapPhase => push_op(
                m,
                TimerOp::Arm { key: id, at: deadline, fire: Input::BootstrapPhaseDeadlineExpired },
            ),
        },
        TimerDirective::Cancel { id } => {
            let v1 = match id {
                TimerId::OfflineCandidate => PolicyModel { offline_candidate: None, ..v },
                TimerId::ShutdownOverall => PolicyModel { shutdown_deadline: None, ..v },
                TimerId::TeardownOverall(TeardownDomain::Cleanup) => PolicyModel {
                    cleanup_teardown: None,
                    ..v
                },
                TimerId::TeardownOverall(TeardownDomain::OfflineDisconnect) => PolicyModel {
                    offline_teardown: None,
                    ..v
                },
                _ => v,
            };
            push_op(with_view(m, v1), TimerOp::Cancel { key: id })
        },
    }
}

/// Lower timer directives in order.
pub open spec fn timer_steps(m: SupervisorModel, s: Seq<TimerDirective>) -> SupervisorModel
    decreases s.len(),
{
    if s.len() == 0 {
        m
    } else {
        timer_step(timer_steps(m, s.drop_last()), s.last())
    }
}

impl<E: EntropySource> ConnectionSupervisor<E> {
    fn apply_gate_trigger(&mut self, gt: GateTrigger, rev: Revision)
        ensures
            final(self).model() == trigger_step(old(self).model(), gt, rev),
            final(self).entropy_source() == old(self).entropy_source(),
    {
        match gt {
            GateTrigger::Wake { domain } => match self.view.record(domain) {
                Some(rec) => {
                    if rec.gate == RetryGateState::BackingOff {
                        self.set_record(
                            domain,
                            Some(
                                PendingRecord {
                                    gate: RetryGateState::Ready,
                                    attempt: 0,
                                    work_revision: rev,
                                    ..rec
                                },
                            ),
                        );
                        self.pending_ops.push(
                            TimerOp::Cancel { key: TimerId::FailureBackoff(domain) },
                        );
                    }
                },
                None => {},
            },
            GateTrigger::ClearMask { domain, trigger } => match self.view.record(domain) {
                Some(rec) => {
                    if rec.gate == RetryGateState::Parked {
                        let mut mask = rec.release_mask;
                        let _ = mask.clear_matching(trigger);
                        let r = if mask.is_empty() {
                            PendingRecord {
                                gate: RetryGateState::Ready,
                                attempt: 0,
                                work_revision: rev,
                                release_mask: mask,
                                ..rec
                            }
                        } else {
                            PendingRecord { release_mask: mask, ..rec }
                        };
                        self.set_record(domain, Some(r));
                    }
                },
                None => {},
            },
        }
    }

    fn apply_park(&mut self, pk: ParkDirective)
        ensures
            final(self).model() == park_step(old(self).model(), pk),
            final(self).entropy_source() == old(self).entropy_source(),
    {
        match self.view.record(pk.domain) {
            Some(rec) => {
                let mut mask = rec.release_mask;
                mask.union_with(&pk.release_mask);
                self.set_record(pk.domain, Some(PendingRecord { release_mask: mask, ..rec }));
            },
            None => {},
        }
    }

    fn apply_input_extended(&mut self, input: &Input, advanced: bool)
        ensures
            final(self).model() == extended_step(old(self).model(), *input, advanced),
            final(self).entropy_source() == old(self).entropy_source(),
    {
        match input {
            Input::NetworkSnapshot { source_epoch, sequence, semantic_path, route_fingerprint } => {
                let accepted = match self.view.last_snapshot {
                    None => true,
                    Some(l) => *source_epoch > l.source_epoch || (*source_epoch == l.source_epoch
                        && *sequence > l.sequence),
                };
                if accepted {
                    self.view.last_snapshot = Some(
                        AcceptedSnapshot {
                            source_epoch: *source_epoch,
                            sequence: *sequence,
                            semantic_path: *semantic_path,
                            route_fingerprint: *route_fingerprint,
                        },
                    );
                }
            },
            Input::SessionActivated { session_generation } => {
                if advanced {
                    self.view.committed_session_generation = Some(*session_generation);
                }
            },
            Input::SignalingGenerationCommitted { generation, .. } => {
                if advanced {
                    self.view.live_signaling_generation = Some(*generation);
                }
            },
            Input::SignalingGenerationLost { generation, .. } => {
                let live = match self.view.live_signaling_generation {
                    Some(g) => g == *generation,
                    None => false,
                };
                if advanced && live {
                    self.view.live_signaling_generation = None;
                }
            },
            _ => {},
        }
    }

    fn push_timer_op(&mut self, td: TimerDirective)
        ensures
            final(self).model() == timer_step(old(self).model(), td),
            final(self).entropy_source() == old(self).entropy_source(),
    {
        match td {
            TimerDirective::Arm { id, deadline, .. } => match id {
                TimerId::OfflineCandidate => {
                    let cid = self.next_candidate_id;
                    self.next_candidate_id = cid.wrapping_add(1);
                    self.view.offline_candidate = Some(
                        OfflineCandidate { candidate_id: cid, deadline },
                    );
                    self.pending_ops.push(
                        TimerOp::Arm {
                            key: id,
                            at: deadline,
                            fire: Input::OfflineGraceExpired { candidate_id: cid },
                        },
                    );
                },
                TimerId::ShutdownOverall => {
                    let did = self.next_deadline_id;
                    self.next_deadline_id = did.wrapping_add(1);
                    self.view.shutdown_deadline = Some(
                        ShutdownDeadline { deadline_id: did, deadline },
                    );
                    self.pending_ops.push(
                        TimerOp::Arm {
                            key: id,
                            at: deadline,
                            fire: Input::ShutdownDeadlineExpired { deadline_id: did },
                        },
                    );
                },
                TimerId::TeardownOverall(domain) => {
                    let did = self.next_deadline_id;
                    self.next_deadline_id = did.wrapping_add(1);
                    let t = Some(TeardownDeadline { deadline_id: did, deadline });
                    match domain {
                        TeardownDomain::Cleanup => {
                            self.view.cleanup_teardown = t;
                        },
                        TeardownDomain::OfflineDisconnect => {
                            self.view.offline_teardown = t;
                        },
                    }
                    self.pending_ops.push(
                        TimerOp::Arm {
                            key: id,
                            at: deadline,
                            fire: Input::TeardownDeadlineExpired { domain, deadline_id: did },
                        },
                    );
                },
                TimerId::FailureBackoff(domain) => {
                    let (work_revision, retry_id) = match self.view.record(domain) {
                        Some(r) => (r.work_revision, r.retry_id),
                        None => (0, 0),
                    };
                    self.pending_ops.push(
                        TimerOp::Arm {
                            key: id,
                            at: deadline,
                            fire: Input::RetryDeadlineExpired { domain, work_revision, retry_id },
                        },
                    );
                },
                TimerId::BootstrapPhase => {
                    self.pending_ops.push(
                        TimerOp::Arm {
                            key: id,
                            at: deadline,
                            fire: Input::BootstrapPhaseDeadlineExpired,
                        },
                    );
                },
            },
            TimerDirective::Cancel { id } => {
                match id {
                    TimerId::OfflineCandidate => {
                        self.view.offline_candidate = None;
                    },
                    TimerId::ShutdownOverall => {
                        self.view.shutdown_deadline = None;
                    },
                    TimerId::TeardownOverall(TeardownDomain::Cleanup) => {
                        self.view.cleanup_teardown = None;
                    },
                    TimerId::TeardownOverall(TeardownDomain::OfflineDisconnect) => {
                        self.view.offline_teardown = None;
                    },
                    _ => {},
                }
                self.pending_ops.push(TimerOp::Cancel { key: id });
            },
        }
    }
}

/// Record the first cancellation reason on the running effect, unless it
/// already carries one.
pub open spec fn cancel_step(m: SupervisorModel, cancels: Seq<CancelReason>) -> SupervisorModel {
    if cancels.len() > 0 {
        match m.view.effect {
            Some(e) => if e.cancel_reason is None {
                with_view(
                    m,
                    PolicyModel {
                        effect: Some(EffectContext { cancel_reason: Some(cancels[0]), ..e }),
                        ..m.view
                    },
                )
            } else {
                m
            },
            None => m,
        }
    } else {
        m
    }
}

/// The model just before the decision's machine inputs are applied: pending
/// timer work emptied and the revision advanced when the decision says so.
pub open spec fn accept_start(m: SupervisorModel, d: DecisionModel) -> SupervisorModel {
    let advanced = d.revision == RevisionDirective::Advances;
    SupervisorModel {
        pending_ops: Seq::empty(),
        view: PolicyModel {
            policy_revision: if advanced {
                m.view.policy_revision.saturating_add(1)
            } else {
                m.view.policy_revision
            },
            ..m.view
        },
        ..m
    }
}

/// Apply a decision for `input`: machine inputs, gate triggers, parks, the
/// input's extended context, timer directives, and the first cancellation
/// reason, in that order. The pending timer work is the outcome's.
pub open spec fn accept_applied(m: SupervisorModel, input: Input, now: PolicyInstant, d: DecisionModel) -> SupervisorModel {
    let advanced = d.revision == RevisionDirective::Advances;
    let m0 = accept_start(m, d);
    let rev = m0.view.policy_revision;
    let m1 = machine_steps(m0, d.machine_inputs, advanced, rev, now);
    let m2 = trigger_steps(m1, d.gate_triggers, rev);
    let m3 = park_steps(m2, d.parks);
    let m4 = extended_step(m3, input, advanced);
    let m5 = timer_steps(m4, d.timers);
    cancel_step(m5, d.cancels)
}

/// The supervisor after accepting `input` under decision `d`.
pub open spec fn accept_state(m: SupervisorModel, input: Input, now: PolicyInstant, d: DecisionModel) -> SupervisorModel {
    SupervisorModel { pending_ops: Seq::empty(), ..accept_applied(m, input, now, d) }
}

/// The shell's work after accepting `input` under decision `d`.
pub open spec fn accept_outcome(m: SupervisorModel, input: Input, now: PolicyInstant, d: DecisionModel) -> AcceptOutcomeModel {
    AcceptOutcomeModel {
        advanced: d.revision == RevisionDirective::Advances,
        timer_ops: accept_applied(m, input, now, d).pending_ops,
        cancel_effect: d.cancels.len() > 0,
        status: d.status,
        signals: d.signals,
        terminate: d.terminate,
    }
}

/// Accepting `input` with jitter sample `u` turns `before` into `after` and
/// yields `out`.
#[verifier::opaque]
pub open spec fn accepts(before: SupervisorModel, input: Input, now: PolicyInstant, u: u64, after: SupervisorModel, out: AcceptOutcomeModel) -> bool {
    let d = translate_model(before.view, input, now, before.config, u);
    after == accept_state(before, input, now, d) && out == accept_outcome(before, input, now, d)
}

impl<E: EntropySource> ConnectionSupervisor<E> {
    /// Construct a supervisor with the given lifecycle profile and entropy
    /// source. Rust-core and headless deployments use `Ungated`; mobile
    /// bindings use `Gated`.
    pub fn new_with_entropy(profile: LifecycleProfile, entropy: E) -> (s: Self)
        ensures
            s.model() == initial_model(profile, crate::recovery_policy::translate::default_policy_config()),
            s.entropy_source() == entropy,
    {
        let mut view = PolicyView::initial();
        view.profile = profile;
        let s = ConnectionSupervisor {
            view,
            config: PolicyConfig::defaults(),
            entropy,
            next_action_id: 1,
            next_candidate_id: 1,
            next_retry_id: 1,
            next_deadline_id: 1,
            pending_ops: Vec::new(),
        };
        assert(s.model().view =~= initial_model(profile, crate::recovery_policy::translate::default_policy_config()).view);
        s
    }

    /// Read-only access to the policy snapshot.
    pub fn view(&self) -> (v: &PolicyView)
        ensures
            v@ == self.model().view,
    {
        &self.view
    }

    /// The outbound-send admission projection of the current policy.
    pub fn send_policy(&self) -> (p: SendProjection)
        ensures
            p == send_policy_spec(self.model().view),
    {
        derive_send_policy(&self.view)
    }

    /// The action the composite decision table currently selects, if any.
    pub fn composite_action(&self) -> (a: Option<Action>)
        ensures
            a == composite_action_spec(self.model().view),
    {
        composite_action(&self.view)
    }

    /// The bootstrap-deadline arm op of a `Gated` supervisor: the shell arms
    /// it once at start; the first authoritative phase cancels it.
    pub fn bootstrap_arm(&self, now: PolicyInstant) -> (op: Option<TimerOp>)
        ensures
            op == (if self.model().view.profile == LifecycleProfile::Gated {
                Some(
                    TimerOp::Arm {
                        key: TimerId::BootstrapPhase,
                        at: now.saturating_add(self.model().config.bootstrap_phase_deadline),
                        fire: Input::BootstrapPhaseDeadlineExpired,
                    },
                )
            } else {
                None
            }),
    {
        if self.view.profile == LifecycleProfile::Gated {
            Some(
                TimerOp::Arm {
                    key: TimerId::BootstrapPhase,
                    at: now.saturating_add(self.config.bootstrap_phase_deadline),
                    fire: Input::BootstrapPhaseDeadlineExpired,
                },
            )
        } else {
            None
        }
    }

    /// Accept one input: translate it, apply the decision through checked
    /// transitions, maintain extended context, and return the shell's work.
    ///
    /// The result is exactly the application of the input's decision (see
    /// [`accept_state`] and [`accept_outcome`]), translated with the next
    /// sample of the entropy source when it draws; the source advances by
    /// exactly one draw then, and is untouched otherwise.
    #[verifier::rlimit(50)]
    pub fn accept(&mut self, input: Input, now: PolicyInstant) -> (out: AcceptOutcome)
        ensures
            accepts(
                old(self).model(),
                input,
                now,
                translation_sample(
                    old(self).model().view,
                    input,
                    now,
                    old(self).model().config,
                    old(self).entropy_source(),
                ),
                final(self).model(),
                out@,
            ),
            final(self).entropy_source() == entropy_after_translation(
                old(self).model().view,
                input,
                now,
                old(self).model().config,
                old(self).entropy_source(),
            ),
            final(self).model().view.policy_revision == if out.advanced {
                old(self).model().view.policy_revision.saturating_add(1)
            } else {
                old(self).model().view.policy_revision
            },
            out.cancel_effect == (translate_model(
                old(self).model().view,
                input,
                now,
                old(self).model().config,
                translation_sample(
                    old(self).model().view,
                    input,
                    now,
                    old(self).model().config,
                    old(self).entropy_source(),
                ),
            ).cancels.len() > 0),
    {
        let ghost m = self.model();
        let ghost u = translation_sample(m.view, input, now, m.config, self.entropy_source());
        let decision = translate(&self.view, &input, now, &self.config, &mut self.entropy);
        let ghost d = decision@;
        assert(d == translate_model(m.view, input, now, m.config, u));
        let ghost e1 = self.entropy_source();
        self.pending_ops = Vec::new();
        let advanced = match decision.revision {
            RevisionDirective::Advances => true,
            RevisionDirective::Unchanged => false,
        };
        if advanced {
            self.view.policy_revision = self.view.policy_revision.saturating_add(1);
        }
        let rev = self.view.policy_revision;
        assert(self.model() == accept_start(m, d));
        let ghost m0 = self.model();

        let mut i: usize = 0;
        while i < decision.machine_inputs.len()
            invariant
                i <= decision.machine_inputs@.len(),
                self.model() == machine_steps(
                    m0,
                    decision.machine_inputs@.take(i as int),
                    advanced,
                    rev,
                    now,
                ),
                self.entropy_source() == e1,
            decreases decision.machine_inputs@.len() - i,
        {
            let mi = decision.machine_inputs[i];
            assert(decision.machine_inputs@.take(i + 1).drop_last() =~= decision.machine_inputs@.take(
                i as int,
            ));
            self.apply_machine_input(mi, advanced, rev, now);
            i = i + 1;
        }
        assert(decision.machine_inputs@.take(i as int) =~= decision.machine_inputs@);
        let ghost m1 = self.model();

        let mut i: usize = 0;
        while i < decision.gate_triggers.len()
            invariant
                i <= decision.gate_triggers@.len(),
                self.model() == trigger_steps(m1, decision.gate_triggers@.take(i as int), rev),
                self.entropy_source() == e1,
            decreases decision.gate_triggers@.len() - i,
        {
            let gt = decision.gate_triggers[i];
            assert(decision.gate_triggers@.take(i + 1).drop_last() =~= decision.gate_triggers@.take(
                i as int,
            ));
            self.apply_gate_trigger(gt, rev);
            i = i + 1;
        }
        assert(decision.gate_triggers@.take(i as int) =~= decision.gate_triggers@);
        let ghost m2 = self.model();

        let mut i: usize = 0;
        while i < decision.parks.len()
            invariant
                i <= decision.parks@.len(),
                self.model() == park_steps(m2, decision.parks@.take(i as int)),
                self.entropy_source() == e1,
            decreases decision.parks@.len() - i,
        {
            let pk = decision.parks[i];
            assert(decision.parks@.take(i + 1).drop_last() =~= decision.parks@.take(i as int));
            self.apply_park(pk);
            i = i + 1;
        }
        assert(decision.parks@.take(i as int) =~= decision.parks@);

        self.apply_input_extended(&input, advanced);
        let ghost m4 = self.model();

        let mut i: usize = 0;
        while i < decision.timers.len()
            invariant
                i <= decision.timers@.len(),
                self.model() == timer_steps(m4, decision.timers@.take(i as int)),
                self.entropy_source() == e1,
            decreases decision.timers@.len() - i,
        {
            let td = decision.timers[i];
            assert(decision.timers@.take(i + 1).drop_last() =~= decision.timers@.take(i as int));
            self.push_timer_op(td);
            i = i + 1;
        }
        assert(decision.timers@.take(i as int) =~= decision.timers@);

        let cancel_effect = decision.cancels.len() > 0;
        if cancel_effect {
            let reason = decision.cancels[0];
            match self.view.effect {
                Some(e) => {
                    if e.cancel_reason.is_none() {
                        self.view.effect = Some(EffectContext { cancel_reason: Some(reason), ..e });
                    }
                },
                None => {},
            }
        }
        assert(self.model() == accept_applied(m, input, now, d));
        let mut timer_ops: Vec<TimerOp> = Vec::new();
        std::mem::swap(&mut timer_ops, &mut self.pending_ops);
        let out = AcceptOutcome {
            advanced,
            timer_ops,
            cancel_effect,
            status: decision.status,
            signals: decision.signals,
            terminate: decision.terminate,
        };
        assert(self.model() == accept_state(m, input, now, d));
        assert(out@ == accept_outcome(m, input, now, d));
        assert(accepts(m, input, now, u, self.model(), out@)) by {
            reveal(accepts);
        }
        proof {
            lemma_accept_moves_revision_by_at_most_one(m, input, now, d);
        }
        out
    }
}

/// The effect kind that runs an action.
pub open spec fn effect_kind_spec(action: Action) -> EffectKind {
    match action {
        Action::Cleanup => EffectKind::Cleanup,
        Action::ConfirmedOfflineDisconnect => EffectKind::ConfirmedOfflineDisconnect,
        Action::Reconnect => EffectKind::Reconnect,
        Action::Restore => EffectKind::Restore,
        Action::Probe => EffectKind::Probe,
    }
}

/// The effect kind that runs an action.
pub fn effect_kind_of(action: Action) -> (k: EffectKind)
    ensures
        k == effect_kind_spec(action),
{
    match action {
        Action::Cleanup => EffectKind::Cleanup,
        Action::ConfirmedOfflineDisconnect => EffectKind::ConfirmedOfflineDisconnect,
        Action::Reconnect => EffectKind::Reconnect,
        Action::Restore => EffectKind::Restore,
        Action::Probe => EffectKind::Probe,
    }
}

/// The wire recovery action that the effect processor executes for an action.
pub open spec fn network_action_spec(action: Action) -> NetworkRecoveryAction {
    match action {
        Action::Cleanup => NetworkRecoveryAction::CleanupOnly,
        Action::ConfirmedOfflineDisconnect => NetworkRecoveryAction::Offline,
        Action::Reconnect => NetworkRecoveryAction::ForceReconnect,
        Action::Restore => NetworkRecoveryAction::Restore,
        Action::Probe => NetworkRecoveryAction::Probe,
    }
}

/// Map a composite action onto the wire recovery-action vocabulary.
pub fn network_action_of(action: Action) -> (a: NetworkRecoveryAction)
    ensures
        a == network_action_spec(action),
{
    match action {
        Action::Cleanup => NetworkRecoveryAction::CleanupOnly,
        Action::ConfirmedOfflineDisconnect => NetworkRecoveryAction::Offline,
        Action::Reconnect => NetworkRecoveryAction::ForceReconnect,
        Action::Restore => NetworkRecoveryAction::Restore,
        Action::Probe => NetworkRecoveryAction::Probe,
    }
}

/// The execution input that begins an action.
pub open spec fn begin_input(action: Action) -> ExecutionInput {
    match action {
        Action::Probe => ExecutionInput::BeginProbe,
        Action::Restore => ExecutionInput::BeginRestore,
        Action::Reconnect => ExecutionInput::BeginReconnect,
        Action::ConfirmedOfflineDisconnect => ExecutionInput::BeginOffline,
        Action::Cleanup => ExecutionInput::BeginCleanup,
    }
}

/// The overall-teardown budget a teardown effect inherits: the time left
/// until its obligation's armed deadline, or the cleanup deadline when none
/// is armed.
pub open spec fn teardown_budget_spec(m: SupervisorModel, kind: EffectKind, now: PolicyInstant) -> Option<PolicyInstant> {
    if is_teardown_kind(kind) {
        let deadline = match kind {
            EffectKind::Cleanup => m.view.cleanup_teardown,
            _ => m.view.offline_teardown,
        };
        Some(
            match deadline {
                Some(t) => t.deadline.saturating_sub(now),
                None => m.config.cleanup_teardown_deadline,
            },
        )
    } else {
        None
    }
}

/// The effect started from `m` at `now`: only from an idle execution slot,
/// and only when the composite decision selects an action.
pub open spec fn started_spec(m: SupervisorModel, now: PolicyInstant) -> Option<StartedEffect> {
    if m.view.execution != ExecutionState::Idle {
        None
    } else {
        match composite_action_spec(m.view) {
            None => None,
            Some(action) => {
                let kind = effect_kind_spec(action);
                Some(
                    StartedEffect {
                        action_id: m.next_action_id,
                        kind,
                        action,
                        captured_revision: m.view.policy_revision,
                        teardown_budget: teardown_budget_spec(m, kind, now),
                    },
                )
            },
        }
    }
}

/// The supervisor after starting `started_spec(m, now)`: the action identity
/// is consumed, the execution slot begins the action, a teardown effect
/// scopes the live signaling generation, and the effect context is recorded.
pub open spec fn start_state(m: SupervisorModel, now: PolicyInstant) -> SupervisorModel {
    match started_spec(m, now) {
        None => m,
        Some(st) => {
            let m1 = execution_step(
                SupervisorModel { next_action_id: m.next_action_id.wrapping_add(1), ..m },
                begin_input(st.action),
            );
            let scope = if is_teardown_kind(st.kind) {
                match m1.view.live_signaling_generation {
                    Some(g) => m1.view.teardown_scope_generations.insert(g),
                    None => m1.view.teardown_scope_generations,
                }
            } else {
                m1.view.teardown_scope_generations
            };
            with_view(
                m1,
                PolicyModel {
                    teardown_scope_generations: scope,
                    effect: Some(
                        EffectContext {
                            action_id: st.action_id,
                            kind: st.kind,
                            captured_revision: st.captured_revision,
                            cancel_reason: None,
                        },
                    ),
                    ..m1.view
                },
            )
        },
    }
}

impl<E: EntropySource> ConnectionSupervisor<E> {
    /// If the execution slot is idle, select and begin the highest-priority
    /// action and record its effect context; return the started effect so
    /// the shell can spawn its task.
    pub fn maybe_start_effect(&mut self, now: PolicyInstant) -> (st: Option<StartedEffect>)
        ensures
            st == started_spec(old(self).model(), now),
            final(self).model() == start_state(old(self).model(), now),
            final(self).entropy_source() == old(self).entropy_source(),
    {
        if self.view.execution != ExecutionState::Idle {
            return None;
        }
        let action = match composite_action(&self.view) {
            Some(a) => a,
            None => {
                return None;
            },
        };
        let kind = effect_kind_of(action);
        let action_id = self.next_action_id;
        self.next_action_id = action_id.wrapping_add(1);
        let teardown = kind.is_teardown();
        let teardown_budget = if teardown {
            let deadline = match kind {
                EffectKind::Cleanup => self.view.cleanup_teardown,
                _ => self.view.offline_teardown,
            };
            Some(
                match deadline {
                    Some(t) => t.deadline.saturating_sub(now),
                    None => self.config.cleanup_teardown_deadline,
                },
            )
        } else {
            None
        };
        let input = match action {
            Action::Probe => ExecutionInput::BeginProbe,
            Action::Restore => ExecutionInput::BeginRestore,
            Action::Reconnect => ExecutionInput::BeginReconnect,
            Action::ConfirmedOfflineDisconnect => ExecutionInput::BeginOffline,
            Action::Cleanup => ExecutionInput::BeginCleanup,
        };
        self.apply_execution(input);
        if teardown {
            match self.view.live_signaling_generation {
                Some(g) => {
                    self.view.teardown_scope_generations.insert(g);
                },
                None => {},
            }
        }
        let captured_revision = self.view.policy_revision;
        self.view.effect = Some(
            EffectContext { action_id, kind, captured_revision, cancel_reason: None },
        );
        Some(StartedEffect { action_id, kind, action, captured_revision, teardown_budget })
    }
}

// ---------------------------------------------------------------------------
// Invariants and laws of the supervisor
// ---------------------------------------------------------------------------

/// A record, if present, is not newer than the revision.
pub open spec fn not_newer(r: Option<PendingRecord>, rev: Revision) -> bool {
    match r {
        Some(rec) => rec.work_revision <= rev,
        None => true,
    }
}

/// The supervisor's well-formedness: each pending-work domain holds a record
/// exactly while its machine has work pending; the execution slot is busy
/// exactly while an effect context is recorded; and no record or effect is
/// newer than the policy revision.
pub open spec fn supervisor_wf(m: SupervisorModel) -> bool {
    let v = m.view;
    &&& (v.recovery_intent == RecoveryIntentState::Idle) == (v.recovery_record is None)
    &&& (v.cleanup_work == CleanupWorkState::CleanupPending) == (v.cleanup_record is Some)
    &&& (v.offline_work == OfflineWorkState::DisconnectPending) == (v.offline_record is Some)
    &&& (v.execution == ExecutionState::Idle) == (v.effect is None)
    &&& not_newer(v.recovery_record, v.policy_revision)
    &&& not_newer(v.cleanup_record, v.policy_revision)
    &&& not_newer(v.offline_record, v.policy_revision)
    &&& match v.effect {
        Some(e) => e.captured_revision <= v.policy_revision,
        None => true,
    }
}

proof fn lemma_machine_step_wf(m: SupervisorModel, mi: MachineInput, advanced: bool, rev: Revision, now: PolicyInstant)
    requires
        supervisor_wf(m),
        rev == m.view.policy_revision,
        !is_begin_input(mi),
    ensures
        supervisor_wf(machine_step(m, mi, advanced, rev, now)),
        machine_step(m, mi, advanced, rev, now).view.policy_revision == rev,
{
}

proof fn lemma_machine_steps_wf(m: SupervisorModel, s: Seq<MachineInput>, advanced: bool, rev: Revision, now: PolicyInstant)
    requires
        supervisor_wf(m),
        rev == m.view.policy_revision,
        begins_nothing(s),
    ensures
        supervisor_wf(machine_steps(m, s, advanced, rev, now)),
        machine_steps(m, s, advanced, rev, now).view.policy_revision == rev,
    decreases s.len(),
{
    if s.len() > 0 {
        assert(begins_nothing(s.drop_last())) by {
            assert forall|k: int| 0 <= k < s.drop_last().len() implies !is_begin_input(
                #[trigger] s.drop_last()[k],
            ) by {
                assert(s.drop_last()[k] == s[k]);
            }
        }
        lemma_machine_steps_wf(m, s.drop_last(), advanced, rev, now);
        assert(!is_begin_input(s[s.len() - 1]));
        lemma_machine_step_wf(machine_steps(m, s.drop_last(), advanced, rev, now), s.last(), advanced, rev, now);
    }
}

proof fn lemma_trigger_steps_wf(m: SupervisorModel, s: Seq<GateTrigger>, rev: Revision)
    requires
        supervisor_wf(m),
        rev == m.view.policy_revision,
    ensures
        supervisor_wf(trigger_steps(m, s, rev)),
        trigger_steps(m, s, rev).view.policy_revision == rev,
    decreases s.len(),
{
    if s.len() > 0 {
        lemma_trigger_steps_wf(m, s.drop_last(), rev);
    }
}

proof fn lemma_park_steps_wf(m: SupervisorModel, s: Seq<ParkDirective>)
    requires
        supervisor_wf(m),
    ensures
        supervisor_wf(park_steps(m, s)),
        park_steps(m, s).view.policy_revision == m.view.policy_revision,
    decreases s.len(),
{
    if s.len() > 0 {
        lemma_park_steps_wf(m, s.drop_last());
    }
}

proof fn lemma_timer_steps_wf(m: SupervisorModel, s: Seq<TimerDirective>)
    requires
        supervisor_wf(m),
    ensures
        supervisor_wf(timer_steps(m, s)),
        timer_steps(m, s).view.policy_revision == m.view.policy_revision,
    decreases s.len(),
{
    if s.len() > 0 {
        lemma_timer_steps_wf(m, s.drop_last());
    }
}

/// A new supervisor is well formed.
pub proof fn lemma_initial_wf(profile: LifecycleProfile, config: PolicyConfig)
    ensures
        supervisor_wf(initial_model(profile, config)),
{
}

proof fn lemma_apply_preserves_wf(m: SupervisorModel, input: Input, now: PolicyInstant, d: DecisionModel)
    requires
        supervisor_wf(m),
        begins_nothing(d.machine_inputs),
    ensures
        supervisor_wf(accept_state(m, input, now, d)),
        accept_state(m, input, now, d).view.policy_revision == if d.revision
            == RevisionDirective::Advances {
            m.view.policy_revision.saturating_add(1)
        } else {
            m.view.policy_revision
        },
{
    let advanced = d.revision == RevisionDirective::Advances;
    let m0 = accept_start(m, d);
    let rev = m0.view.policy_revision;
    lemma_machine_steps_wf(m0, d.machine_inputs, advanced, rev, now);
    let m1 = machine_steps(m0, d.machine_inputs, advanced, rev, now);
    lemma_trigger_steps_wf(m1, d.gate_triggers, rev);
    let m2 = trigger_steps(m1, d.gate_triggers, rev);
    lemma_park_steps_wf(m2, d.parks);
    let m3 = park_steps(m2, d.parks);
    lemma_extended_wf(m3, input, advanced);
    let m4 = extended_step(m3, input, advanced);
    lemma_timer_steps_wf(m4, d.timers);
    let m5 = timer_steps(m4, d.timers);
    lemma_cancel_wf(m5, d.cancels);
    let m6 = cancel_step(m5, d.cancels);
    assert(accept_state(m, input, now, d) == SupervisorModel { pending_ops: Seq::empty(), ..m6 });
}

proof fn lemma_extended_wf(m: SupervisorModel, input: Input, advanced: bool)
    requires
        supervisor_wf(m),
    ensures
        supervisor_wf(extended_step(m, input, advanced)),
        extended_step(m, input, advanced).view.policy_revision == m.view.policy_revision,
{
}

proof fn lemma_cancel_wf(m: SupervisorModel, cancels: Seq<CancelReason>)
    requires
        supervisor_wf(m),
    ensures
        supervisor_wf(cancel_step(m, cancels)),
        cancel_step(m, cancels).view.policy_revision == m.view.policy_revision,
{
}

/// Accepting any input keeps the supervisor well formed, and the policy
/// revision advances by one (saturating) exactly when the input's decision
/// advances, and is otherwise unchanged.
pub proof fn lemma_accept_preserves_wf(m: SupervisorModel, input: Input, now: PolicyInstant, u: u64)
    requires
        supervisor_wf(m),
    ensures
        ({
            let d = translate_model(m.view, input, now, m.config, u);
            &&& supervisor_wf(accept_state(m, input, now, d))
            &&& accept_state(m, input, now, d).view.policy_revision == if d.revision
                == RevisionDirective::Advances {
                m.view.policy_revision.saturating_add(1)
            } else {
                m.view.policy_revision
            }
        }),
{
    let d = translate_model(m.view, input, now, m.config, u);
    lemma_decisions_begin_no_effect(m.view, input, now, m.config, u);
    lemma_apply_preserves_wf(m, input, now, d);
}

proof fn lemma_machine_steps_keep_revision(
    m: SupervisorModel,
    s: Seq<MachineInput>,
    advanced: bool,
    rev: Revision,
    now: PolicyInstant,
)
    ensures
        machine_steps(m, s, advanced, rev, now).view.policy_revision == m.view.policy_revision,
    decreases s.len(),
{
    if s.len() > 0 {
        lemma_machine_steps_keep_revision(m, s.drop_last(), advanced, rev, now);
    }
}

proof fn lemma_trigger_steps_keep_revision(m: SupervisorModel, s: Seq<GateTrigger>, rev: Revision)
    ensures
        trigger_steps(m, s, rev).view.policy_revision == m.view.policy_revision,
    decreases s.len(),
{
    if s.len() > 0 {
        lemma_trigger_steps_keep_revision(m, s.drop_last(), rev);
    }
}

proof fn lemma_park_steps_keep_revision(m: SupervisorModel, s: Seq<ParkDirective>)
    ensures
        park_steps(m, s).view.policy_revision == m.view.policy_revision,
    decreases s.len(),
{
    if s.len() > 0 {
        lemma_park_steps_keep_revision(m, s.drop_last());
    }
}

proof fn lemma_timer_steps_keep_revision(m: SupervisorModel, s: Seq<TimerDirective>)
    ensures
        timer_steps(m, s).view.policy_revision == m.view.policy_revision,
    decreases s.len(),
{
    if s.len() > 0 {
        lemma_timer_steps_keep_revision(m, s.drop_last());
    }
}

/// Accepting any input, in any state, advances the policy revision by one
/// (saturating) exactly when the input's decision advances and leaves it
/// unchanged otherwise: the revision never decreases and never skips.
pub proof fn lemma_accept_moves_revision_by_at_most_one(
    m: SupervisorModel,
    input: Input,
    now: PolicyInstant,
    d: DecisionModel,
)
    ensures
        accept_state(m, input, now, d).view.policy_revision == if d.revision
            == RevisionDirective::Advances {
            m.view.policy_revision.saturating_add(1)
        } else {
            m.view.policy_revision
        },
        m.view.policy_revision <= accept_state(m, input, now, d).view.policy_revision
            <= m.view.policy_revision + 1,
{
    let advanced = d.revision == RevisionDirective::Advances;
    let m0 = accept_start(m, d);
    let rev = m0.view.policy_revision;
    lemma_machine_steps_keep_revision(m0, d.machine_inputs, advanced, rev, now);
    let m1 = machine_steps(m0, d.machine_inputs, advanced, rev, now);
    lemma_trigger_steps_keep_revision(m1, d.gate_triggers, rev);
    let m2 = trigger_steps(m1, d.gate_triggers, rev);
    lemma_park_steps_keep_revision(m2, d.parks);
    let m3 = park_steps(m2, d.parks);
    let m4 = extended_step(m3, input, advanced);
    assert(m4.view.policy_revision == m3.view.policy_revision);
    lemma_timer_steps_keep_revision(m4, d.timers);
    let m5 = timer_steps(m4, d.timers);
    let m6 = cancel_step(m5, d.cancels);
    assert(m6.view.policy_revision == m5.view.policy_revision);
    assert(accept_state(m, input, now, d) == SupervisorModel { pending_ops: Seq::empty(), ..m6 });
}

/// Starting an effect keeps the supervisor well formed and leaves the policy
/// revision unchanged; the started effect captures the current revision.
pub proof fn lemma_start_preserves_wf(m: SupervisorModel, now: PolicyInstant)
    requires
        supervisor_wf(m),
    ensures
        supervisor_wf(start_state(m, now)),
        start_state(m, now).view.policy_revision == m.view.policy_revision,
        started_spec(m, now) matches Some(st) ==> st.captured_revision == m.view.policy_revision
            && start_state(m, now).view.execution != ExecutionState::Idle,
{
}

/// A completion that does not match the running effect is discarded: nothing
/// but the emptied timer work changes, and the shell is handed nothing.
pub proof fn lemma_stale_completion_is_inert(
    m: SupervisorModel,
    action_id: u64,
    kind: EffectKind,
    policy_revision: Revision,
    outcome: crate::recovery_policy::diagnosis::EffectOutcome,
    now: PolicyInstant,
    u: u64,
)
    requires
        !completion_matches(m.view, action_id, kind, policy_revision),
    ensures
        ({
            let input = Input::EffectCompleted { action_id, kind, policy_revision, outcome };
            let d = translate_model(m.view, input, now, m.config, u);
            &&& accept_state(m, input, now, d) == SupervisorModel { pending_ops: Seq::empty(), ..m }
            &&& !accept_outcome(m, input, now, d).advanced
            &&& accept_outcome(m, input, now, d).timer_ops.len() == 0
        }),
{
    let input = Input::EffectCompleted { action_id, kind, policy_revision, outcome };
    let d = translate_model(m.view, input, now, m.config, u);
    assert(d == DecisionModel::none());
    let m0 = accept_start(m, d);
    assert(machine_steps(m0, d.machine_inputs, false, m0.view.policy_revision, now) == m0);
    assert(trigger_steps(m0, d.gate_triggers, m0.view.policy_revision) == m0);
    assert(park_steps(m0, d.parks) == m0);
    assert(timer_steps(m0, d.timers) == m0);
    assert(m0 == SupervisorModel { pending_ops: Seq::empty(), ..m });
}

/// A snapshot that is not newer by `(epoch, sequence)` is discarded: nothing
/// but the emptied timer work changes. A newer snapshot with the same
/// semantics is a structural duplicate: it advances nothing and only records
/// its identity, so the epoch ordering keeps moving.
pub proof fn lemma_snapshot_duplicates_are_inert(
    m: SupervisorModel,
    source_epoch: u64,
    sequence: u64,
    semantic_path: SemanticPath,
    route_fingerprint: u64,
    now: PolicyInstant,
    u: u64,
)
    ensures
        ({
            let input = Input::NetworkSnapshot { source_epoch, sequence, semantic_path, route_fingerprint };
            let d = translate_model(m.view, input, now, m.config, u);
            let after = accept_state(m, input, now, d);
            &&& !snapshot_is_accepted(m.view.last_snapshot, source_epoch, sequence) ==> after
                == SupervisorModel { pending_ops: Seq::empty(), ..m }
            &&& (snapshot_is_accepted(m.view.last_snapshot, source_epoch, sequence)
                && !crate::recovery_policy::translate::snapshot_is_material(
                m.view.last_snapshot,
                semantic_path,
                route_fingerprint,
            )) ==> after == SupervisorModel {
                pending_ops: Seq::empty(),
                view: PolicyModel {
                    last_snapshot: Some(
                        AcceptedSnapshot { source_epoch, sequence, semantic_path, route_fingerprint },
                    ),
                    ..m.view
                },
                ..m
            } && !accept_outcome(m, input, now, d).advanced
        }),
{
    let input = Input::NetworkSnapshot { source_epoch, sequence, semantic_path, route_fingerprint };
    let d = translate_model(m.view, input, now, m.config, u);
    if !snapshot_is_accepted(m.view.last_snapshot, source_epoch, sequence)
        || !crate::recovery_policy::translate::snapshot_is_material(
        m.view.last_snapshot,
        semantic_path,
        route_fingerprint,
    ) {
        assert(d == DecisionModel::none());
        let m0 = accept_start(m, d);
        assert(machine_steps(m0, d.machine_inputs, false, m0.view.policy_revision, now) == m0);
        assert(trigger_steps(m0, d.gate_triggers, m0.view.policy_revision) == m0);
        assert(park_steps(m0, d.parks) == m0);
        let m4 = extended_step(m0, input, false);
        assert(timer_steps(m4, d.timers) == m4);
    }
}

proof fn lemma_machine_steps_keep_terminating(m: SupervisorModel, s: Seq<MachineInput>, advanced: bool, rev: Revision, now: PolicyInstant)
    requires
        m.view.recovery_mode == RecoveryModeState::Terminating,
    ensures
        machine_steps(m, s, advanced, rev, now).view.recovery_mode == RecoveryModeState::Terminating,
    decreases s.len(),
{
    if s.len() > 0 {
        lemma_machine_steps_keep_terminating(m, s.drop_last(), advanced, rev, now);
    }
}

proof fn lemma_trigger_steps_keep_mode(m: SupervisorModel, s: Seq<GateTrigger>, rev: Revision)
    ensures
        trigger_steps(m, s, rev).view.recovery_mode == m.view.recovery_mode,
    decreases s.len(),
{
    if s.len() > 0 {
        lemma_trigger_steps_keep_mode(m, s.drop_last(), rev);
    }
}

proof fn lemma_park_steps_keep_mode(m: SupervisorModel, s: Seq<ParkDirective>)
    ensures
        park_steps(m, s).view.recovery_mode == m.view.recovery_mode,
    decreases s.len(),
{
    if s.len() > 0 {
        lemma_park_steps_keep_mode(m, s.drop_last());
    }
}

proof fn lemma_timer_steps_keep_mode(m: SupervisorModel, s: Seq<TimerDirective>)
    ensures
        timer_steps(m, s).view.recovery_mode == m.view.recovery_mode,
    decreases s.len(),
{
    if s.len() > 0 {
        lemma_timer_steps_keep_mode(m, s.drop_last());
    }
}

proof fn lemma_apply_keeps_terminating(m: SupervisorModel, input: Input, now: PolicyInstant, d: DecisionModel)
    requires
        m.view.recovery_mode == RecoveryModeState::Terminating,
    ensures
        accept_state(m, input, now, d).view.recovery_mode == RecoveryModeState::Terminating,
{
    let advanced = d.revision == RevisionDirective::Advances;
    let m0 = accept_start(m, d);
    let rev = m0.view.policy_revision;
    lemma_machine_steps_keep_terminating(m0, d.machine_inputs, advanced, rev, now);
    let m1 = machine_steps(m0, d.machine_inputs, advanced, rev, now);
    lemma_trigger_steps_keep_mode(m1, d.gate_triggers, rev);
    let m2 = trigger_steps(m1, d.gate_triggers, rev);
    lemma_park_steps_keep_mode(m2, d.parks);
    let m3 = park_steps(m2, d.parks);
    let m4 = extended_step(m3, input, advanced);
    assert(m4.view.recovery_mode == RecoveryModeState::Terminating);
    lemma_timer_steps_keep_mode(m4, d.timers);
}

/// `Terminating` is terminal for the supervisor's lifetime: once there, no
/// accepted input and no started effect leaves it, and no recovery effect
/// (probe, restore or reconnect) is ever started; only teardown runs.
pub proof fn lemma_terminating_is_final(m: SupervisorModel, input: Input, now: PolicyInstant, u: u64)
    requires
        m.view.recovery_mode == RecoveryModeState::Terminating,
    ensures
        accept_state(m, input, now, translate_model(m.view, input, now, m.config, u)).view.recovery_mode
            == RecoveryModeState::Terminating,
        start_state(m, now).view.recovery_mode == RecoveryModeState::Terminating,
        started_spec(m, now) matches Some(st) ==> (st.action == Action::Cleanup || st.action
            == Action::ConfirmedOfflineDisconnect),
{
    lemma_apply_keeps_terminating(m, input, now, translate_model(m.view, input, now, m.config, u));
}

/// Outside the `Active` mode no recovery effect is started: a logged-out or
/// terminating supervisor runs teardown only.
pub proof fn lemma_mode_gates_recovery_effects(m: SupervisorModel, now: PolicyInstant)
    requires
        m.view.recovery_mode != RecoveryModeState::Active,
    ensures
        started_spec(m, now) matches Some(st) ==> (st.action == Action::Cleanup || st.action
            == Action::ConfirmedOfflineDisconnect),
{
}

/// A resume undoes a pause: pausing an idle, ready recovery record parks it
/// on an explicit pause, and the matching resume frees it again with an empty
/// mask, the same intent and the same strength.
#[verifier::rlimit(40)]
pub proof fn lemma_resume_undoes_pause(m: SupervisorModel, now1: PolicyInstant, now2: PolicyInstant, u1: u64, u2: u64)
    requires
        supervisor_wf(m),
        m.view.recovery_record matches Some(r) && r.gate == RetryGateState::Ready
            && r.release_mask.is_empty_spec(),
        !crate::recovery_policy::translate::is_recovery_execution(m.view.execution),
    ensures
        ({
            let pause = Input::RecoveryPauseRequested {
                scope: crate::recovery_policy::translate::RecoveryScope::AllRecovery,
            };
            let resume = Input::RecoveryResumeRequested {
                scope: crate::recovery_policy::translate::RecoveryScope::AllRecovery,
            };
            let m1 = accept_state(m, pause, now1, translate_model(m.view, pause, now1, m.config, u1));
            let m2 = accept_state(m1, resume, now2, translate_model(m1.view, resume, now2, m1.config, u2));
            &&& m1.view.recovery_record matches Some(r1) && r1.gate == RetryGateState::Parked
            &&& m2.view.recovery_record matches Some(r2) && r2.gate == RetryGateState::Ready
                && r2.release_mask.is_empty_spec() && r2.strength == m.view.recovery_record->0.strength
            &&& m2.view.recovery_intent == m.view.recovery_intent
        }),
{
    let pause = Input::RecoveryPauseRequested {
        scope: crate::recovery_policy::translate::RecoveryScope::AllRecovery,
    };
    let resume = Input::RecoveryResumeRequested {
        scope: crate::recovery_policy::translate::RecoveryScope::AllRecovery,
    };
    let d1 = translate_model(m.view, pause, now1, m.config, u1);
    assert(d1 == crate::recovery_policy::translate::pause_model(m.view));
    let m0 = accept_start(m, d1);
    let rev = m0.view.policy_revision;
    let mi = MachineInput::RetryGate { domain: RetryDomain::Recovery, input: RetryGateInput::ExplicitPause };
    assert(d1.machine_inputs.len() == 1);
    assert(d1.machine_inputs.drop_last() =~= Seq::<MachineInput>::empty());
    assert(d1.machine_inputs.last() == mi);
    assert(machine_steps(m0, d1.machine_inputs.drop_last(), true, rev, now1) == m0);
    let ma = machine_steps(m0, d1.machine_inputs, true, rev, now1);
    assert(ma == machine_step(m0, mi, true, rev, now1));
    assert(d1.gate_triggers.len() == 0);
    assert(trigger_steps(ma, d1.gate_triggers, rev) == ma);
    assert(d1.parks.len() == 1);
    assert(d1.parks.drop_last() =~= Seq::<ParkDirective>::empty());
    assert(park_steps(ma, d1.parks.drop_last()) == ma);
    let mb = park_steps(ma, d1.parks);
    assert(mb == park_step(ma, d1.parks.last()));
    let mc = extended_step(mb, pause, true);
    assert(mc == mb);
    assert(d1.timers.len() == 1);
    assert(d1.timers.drop_last() =~= Seq::<TimerDirective>::empty());
    assert(timer_steps(mc, d1.timers.drop_last()) == mc);
    let md = timer_steps(mc, d1.timers);
    assert(md == timer_step(mc, d1.timers.last()));
    let m1 = accept_state(m, pause, now1, d1);
    assert(m1.view.recovery_record == md.view.recovery_record);
    assert(m1.view.recovery_record matches Some(r1) && r1.gate == RetryGateState::Parked
        && r1.release_mask.pause && !r1.release_mask.auth && !r1.release_mask.config
        && !r1.release_mask.invariant);

    let d2 = translate_model(m1.view, resume, now2, m1.config, u2);
    assert(m1.view.recovery_record->0.release_mask.would_clear_spec(TriggerClass::ExplicitResume)) by {
        assert(m1.view.recovery_record->0.release_mask.has(ParkCause::ExplicitPause));
        assert(crate::recovery_policy::classification::clears(ParkCause::ExplicitPause, TriggerClass::ExplicitResume));
    }
    assert(d2 == crate::recovery_policy::translate::resume_model(m1.view));
    let n0 = accept_start(m1, d2);
    let rev2 = n0.view.policy_revision;
    assert(d2.machine_inputs.len() == 0);
    assert(machine_steps(n0, d2.machine_inputs, true, rev2, now2) == n0);
    assert(d2.gate_triggers.len() == 1);
    assert(d2.gate_triggers.drop_last() =~= Seq::<GateTrigger>::empty());
    assert(trigger_steps(n0, d2.gate_triggers.drop_last(), rev2) == n0);
    let na = trigger_steps(n0, d2.gate_triggers, rev2);
    assert(na == trigger_step(n0, d2.gate_triggers.last(), rev2));
    assert(d2.parks.len() == 0);
    assert(park_steps(na, d2.parks) == na);
    assert(d2.timers.len() == 0);
    let m2 = accept_state(m1, resume, now2, d2);
    assert(m2.view.recovery_record == na.view.recovery_record);
}

impl ConnectionSupervisor<DefaultEntropy> {
    /// Construct a supervisor with the default entropy stream seeded by
    /// `seed`; each supervisor instance takes a distinct seed so clients and
    /// sessions de-correlate their jitter.
    pub fn new(profile: LifecycleProfile, seed: u64) -> (s: Self)
        ensures
            s.model() == initial_model(profile, crate::recovery_policy::translate::default_policy_config()),
            s.entropy_source().position() == seed ^ crate::recovery_policy::classification::SPLITMIX_GAMMA,
    {
        ConnectionSupervisor::new_with_entropy(profile, DefaultEntropy::seeded(seed))
    }
}

// ---------------------------------------------------------------------------
// The stable fact model and the public event mapping
// ---------------------------------------------------------------------------

/// The stable fact model accepted by the compatibility selector.
#[derive(Debug, Clone, Copy, PartialEq, Eq, Structural, Hash)]
pub enum ConnectionFact {
    NetworkSnapshotChanged(NetworkSnapshot),
    AppEnteredBackground,
    AppEnteredForeground { background_duration_ms: u64 },
    CleanupRequested(WireCleanupReason),
    ForceReconnectRequested(ReconnectReason),
}

/// The fact a public network event states.
pub open spec fn fact_of(event: NetworkEvent) -> ConnectionFact {
    match event {
        NetworkEvent::NetworkPathChanged { snapshot } => ConnectionFact::NetworkSnapshotChanged(
            snapshot,
        ),
        NetworkEvent::AppLifecycleChanged { state } => match state {
            AppLifecycleState::Background => ConnectionFact::AppEnteredBackground,
            AppLifecycleState::Foreground { background_duration_ms } =>
                ConnectionFact::AppEnteredForeground { background_duration_ms },
        },
        NetworkEvent::CleanupConnections { reason } => ConnectionFact::CleanupRequested(reason),
        NetworkEvent::ForceReconnect { reason } => ConnectionFact::ForceReconnectRequested(reason),
    }
}

impl ConnectionFact {
    /// The fact a public network event states.
    pub fn from_network_event(event: &NetworkEvent) -> (f: ConnectionFact)
        ensures
            f == fact_of(*event),
    {
        match event {
            NetworkEvent::NetworkPathChanged { snapshot } => ConnectionFact::NetworkSnapshotChanged(
                *snapshot,
            ),
            NetworkEvent::AppLifecycleChanged { state } => match state {
                AppLifecycleState::Background => ConnectionFact::AppEnteredBackground,
                AppLifecycleState::Foreground { background_duration_ms } =>
                    ConnectionFact::AppEnteredForeground {
                    background_duration_ms: *background_duration_ms,
                },
            },
            NetworkEvent::CleanupConnections { reason } => ConnectionFact::CleanupRequested(*reason),
            NetworkEvent::ForceReconnect { reason } => ConnectionFact::ForceReconnectRequested(
                *reason,
            ),
        }
    }
}

/// A route fingerprint: one bit per transport flag (wifi, cellular, ethernet,
/// vpn, other) followed by the expensive and constrained bits.
pub open spec fn fingerprint_spec(snapshot: NetworkSnapshot) -> u64 {
    let t = snapshot.transport;
    ((if t.wifi { 1u64 } else { 0u64 }) + (if t.cellular { 2u64 } else { 0u64 }) + (if t.ethernet {
        4u64
    } else {
        0u64
    }) + (if t.vpn { 8u64 } else { 0u64 }) + (if t.other { 16u64 } else { 0u64 }) + (
    if snapshot.is_expensive {
        32u64
    } else {
        0u64
    }) + (if snapshot.is_constrained { 64u64 } else { 0u64 })) as u64
}

/// The route fingerprint of a snapshot.
pub fn route_fingerprint(snapshot: &NetworkSnapshot) -> (fp: u64)
    ensures
        fp == fingerprint_spec(*snapshot),
        fp < 128,
{
    let t = snapshot.transport;
    let mut fp: u64 = 0;
    if t.wifi {
        fp = fp + 1;
    }
    if t.cellular {
        fp = fp + 2;
    }
    if t.ethernet {
        fp = fp + 4;
    }
    if t.vpn {
        fp = fp + 8;
    }
    if t.other {
        fp = fp + 16;
    }
    if snapshot.is_expensive {
        fp = fp + 32;
    }
    if snapshot.is_constrained {
        fp = fp + 64;
    }
    fp
}

/// The policy reason of a wire cleanup reason.
pub open spec fn cleanup_reason_spec(r: WireCleanupReason) -> CleanupReason {
    match r {
        WireCleanupReason::AppTerminating => CleanupReason::AppTerminating,
        WireCleanupReason::UserLogout => CleanupReason::UserLogout,
        WireCleanupReason::StaleConnectionSuspected => CleanupReason::StaleConnectionSuspected,
        WireCleanupReason::ManualReset => CleanupReason::ManualReset,
    }
}

/// The policy reason of a wire reconnect reason.
pub open spec fn reconnect_reason_spec(r: ReconnectReason) -> RecoveryRequestReason {
    match r {
        ReconnectReason::NetworkPathChanged => RecoveryRequestReason::NetworkPathChanged,
        ReconnectReason::LongBackground => RecoveryRequestReason::LongBackground,
        ReconnectReason::ProbeFailed => RecoveryRequestReason::ProbeFailed,
        ReconnectReason::ManualReconnect => RecoveryRequestReason::ManualReconnect,
        ReconnectReason::StaleConnectionSuspected => RecoveryRequestReason::StaleConnectionSuspected,
    }
}

/// Nanoseconds per millisecond of a platform duration, saturating.
pub open spec fn millis_to_instant(ms: u64) -> PolicyInstant {
    if ms * 1_000_000 > u64::MAX {
        u64::MAX
    } else {
        (ms * 1_000_000) as u64
    }
}

/// The supervisor input a public event becomes: a path change is a snapshot
/// stamped with the handle's monitor epoch; a foreground return carries the
/// platform's background duration; a cleanup keeps its reason; a forced
/// reconnect asks for at least a reconnect.
pub open spec fn input_of_event(event: NetworkEvent, source_epoch: u64) -> Input {
    match event {
        NetworkEvent::NetworkPathChanged { snapshot } => Input::NetworkSnapshot {
            source_epoch,
            sequence: snapshot.sequence,
            semantic_path: match snapshot.availability {
                NetworkAvailability::Unknown => SemanticPath::Unknown,
                NetworkAvailability::Available => SemanticPath::Online,
                NetworkAvailability::Unavailable => SemanticPath::Offline,
            },
            route_fingerprint: fingerprint_spec(snapshot),
        },
        NetworkEvent::AppLifecycleChanged { state } => match state {
            AppLifecycleState::Background => Input::AppEnteredBackground,
            AppLifecycleState::Foreground { background_duration_ms } =>
                Input::AppEnteredForeground {
                observed_background_duration: Some(millis_to_instant(background_duration_ms)),
            },
        },
        NetworkEvent::CleanupConnections { reason } => Input::CleanupRequested {
            reason: cleanup_reason_spec(reason),
        },
        NetworkEvent::ForceReconnect { reason } => Input::RecoveryRequested {
            minimum: RecoveryStrength::Reconnect,
            reason: reconnect_reason_spec(reason),
        },
    }
}

/// Convert a public network event into a supervisor input.
pub fn event_to_input(event: &NetworkEvent, source_epoch: u64) -> (i: Input)
    ensures
        i == input_of_event(*event, source_epoch),
{
    match event {
        NetworkEvent::NetworkPathChanged { snapshot } => Input::NetworkSnapshot {
            source_epoch,
            sequence: snapshot.sequence,
            semantic_path: match snapshot.availability {
                NetworkAvailability::Unknown => SemanticPath::Unknown,
                NetworkAvailability::Available => SemanticPath::Online,
                NetworkAvailability::Unavailable => SemanticPath::Offline,
            },
            route_fingerprint: route_fingerprint(snapshot),
        },
        NetworkEvent::AppLifecycleChanged { state } => match state {
            AppLifecycleState::Background => Input::AppEnteredBackground,
            AppLifecycleState::Foreground { background_duration_ms } => {
                let observed = match background_duration_ms.checked_mul(1_000_000) {
                    Some(n) => n,
                    None => u64::MAX,
                };
                Input::AppEnteredForeground { observed_background_duration: Some(observed) }
            },
        },
        NetworkEvent::CleanupConnections { reason } => Input::CleanupRequested {
            reason: match reason {
                WireCleanupReason::AppTerminating => CleanupReason::AppTerminating,
                WireCleanupReason::UserLogout => CleanupReason::UserLogout,
                WireCleanupReason::StaleConnectionSuspected =>
                    CleanupReason::StaleConnectionSuspected,
                WireCleanupReason::ManualReset => CleanupReason::ManualReset,
            },
        },
        NetworkEvent::ForceReconnect { reason } => Input::RecoveryRequested {
            minimum: RecoveryStrength::Reconnect,
            reason: match reason {
                ReconnectReason::NetworkPathChanged => RecoveryRequestReason::NetworkPathChanged,
                ReconnectReason::LongBackground => RecoveryRequestReason::LongBackground,
                ReconnectReason::ProbeFailed => RecoveryRequestReason::ProbeFailed,
                ReconnectReason::ManualReconnect => RecoveryRequestReason::ManualReconnect,
                ReconnectReason::StaleConnectionSuspected =>
                    RecoveryRequestReason::StaleConnectionSuspected,
            },
        },
    }
}

// ---------------------------------------------------------------------------
// Compatibility batch selector
//
// A synchronous selector with no timer owner, kept for batch callers: it
// folds a batch of facts into plain layered state and picks one action.
// ---------------------------------------------------------------------------

/// The selector's app phase.
#[derive(Debug, Clone, Copy, PartialEq, Eq, Structural)]
pub enum LegacyPhase {
    Unknown,
    Foreground,
    Background,
}

/// The selector's path state.
#[derive(Debug, Clone, Copy, PartialEq, Eq, Structural)]
pub enum LegacyPath {
    Unknown,
    Online,
    OfflineCandidate,
    Offline,
}

/// The selector's intent, ordered `Idle < Probe < Restore < Reconnect <
/// Cleanup`.
#[derive(Debug, Clone, Copy, PartialEq, Eq, Structural)]
pub enum LegacyIntent {
    Idle,
    Probe,
    Restore,
    Reconnect,
    Cleanup,
}

/// The selector's offline work.
#[derive(Debug, Clone, Copy, PartialEq, Eq, Structural)]
pub enum LegacyWork {
    Idle,
    DisconnectPending,
}

/// The layered state of the compatibility selector.
#[derive(Debug, Clone, Copy, PartialEq, Eq, Structural)]
pub struct LegacySelector {
    pub phase: LegacyPhase,
    pub path: LegacyPath,
    pub intent: LegacyIntent,
    pub work: LegacyWork,
    pub latest_sequence: Option<u64>,
    pub latest_route: Option<LegacyRoute>,
}

/// A route identity: availability and transport fingerprint.
#[derive(Debug, Clone, Copy, PartialEq, Eq, Structural)]
pub struct LegacyRoute {
    pub availability: NetworkAvailability,
    pub fingerprint: u64,
}

/// The rank of a selector intent.
pub open spec fn legacy_rank(i: LegacyIntent) -> nat {
    match i {
        LegacyIntent::Idle => 0,
        LegacyIntent::Probe => 1,
        LegacyIntent::Restore => 2,
        LegacyIntent::Reconnect => 3,
        LegacyIntent::Cleanup => 4,
    }
}

/// Raise the intent to at least `i`.
pub open spec fn legacy_raise(sel: LegacySelector, i: LegacyIntent) -> LegacySelector {
    if legacy_rank(i) > legacy_rank(sel.intent) {
        LegacySelector { intent: i, ..sel }
    } else {
        sel
    }
}

/// The empty selector.
pub open spec fn legacy_initial() -> LegacySelector {
    LegacySelector {
        phase: LegacyPhase::Unknown,
        path: LegacyPath::Unknown,
        intent: LegacyIntent::Idle,
        work: LegacyWork::Idle,
        latest_sequence: None,
        latest_route: None,
    }
}

/// Fold one fact into the selector. Cleanup overrides every intent; a forced
/// reconnect or a long foreground return raises to reconnect and a short one
/// to probe. A snapshot not newer than the latest sequence is ignored;
/// otherwise it sets the path, and a material route change raises to probe
/// (unknown) or restore (available); an unavailable path becomes a
/// candidate.
pub open spec fn legacy_submit(sel: LegacySelector, fact: ConnectionFact) -> LegacySelector {
    match fact {
        ConnectionFact::CleanupRequested(_) => LegacySelector { intent: LegacyIntent::Cleanup, ..sel },
        ConnectionFact::ForceReconnectRequested(_) => legacy_raise(sel, LegacyIntent::Reconnect),
        ConnectionFact::AppEnteredBackground => LegacySelector { phase: LegacyPhase::Background, ..sel },
        ConnectionFact::AppEnteredForeground { background_duration_ms } => {
            let s1 = LegacySelector { phase: LegacyPhase::Foreground, ..sel };
            if background_duration_ms >= LONG_BACKGROUND_RECONNECT_THRESHOLD_MS {
                legacy_raise(s1, LegacyIntent::Reconnect)
            } else {
                legacy_raise(s1, LegacyIntent::Probe)
            }
        },
        ConnectionFact::NetworkSnapshotChanged(snapshot) => {
            let stale = match sel.latest_sequence {
                Some(latest) => snapshot.sequence <= latest,
                None => false,
            };
            if stale {
                sel
            } else {
                let route = LegacyRoute { availability: snapshot.availability, fingerprint: fingerprint_spec(snapshot) };
                let material = sel.latest_route != Some(route);
                let s1 = LegacySelector {
                    latest_sequence: Some(snapshot.sequence),
                    latest_route: Some(route),
                    ..sel
                };
                match snapshot.availability {
                    NetworkAvailability::Unknown => {
                        let s2 = LegacySelector {
                            path: LegacyPath::Unknown,
                            work: LegacyWork::Idle,
                            ..s1
                        };
                        if material {
                            legacy_raise(s2, LegacyIntent::Probe)
                        } else {
                            s2
                        }
                    },
                    NetworkAvailability::Available => {
                        let s2 = LegacySelector {
                            path: LegacyPath::Online,
                            work: LegacyWork::Idle,
                            ..s1
                        };
                        if material {
                            legacy_raise(s2, LegacyIntent::Restore)
                        } else {
                            s2
                        }
                    },
                    NetworkAvailability::Unavailable => LegacySelector {
                        path: LegacyPath::OfflineCandidate,
                        ..s1
                    },
                }
            }
        },
    }
}

/// Fold a batch of events, in order.
pub open spec fn legacy_fold(events: Seq<NetworkEvent>) -> LegacySelector
    decreases events.len(),
{
    if events.len() == 0 {
        legacy_initial()
    } else {
        legacy_submit(legacy_fold(events.drop_last()), fact_of(events.last()))
    }
}

/// Expire a pending offline grace: a candidate path commits to offline and
/// asks for a disconnect.
pub open spec fn legacy_expire(sel: LegacySelector) -> LegacySelector {
    if sel.path == LegacyPath::OfflineCandidate {
        LegacySelector { path: LegacyPath::Offline, work: LegacyWork::DisconnectPending, ..sel }
    } else {
        sel
    }
}

/// The selected action, strictest first: cleanup; a pending disconnect;
/// nothing while offline or a candidate, or in the background; otherwise the
/// intent's action.
pub open spec fn legacy_reconcile(sel: LegacySelector) -> NetworkRecoveryAction {
    if sel.intent == LegacyIntent::Cleanup {
        NetworkRecoveryAction::CleanupOnly
    } else if sel.work == LegacyWork::DisconnectPending {
        NetworkRecoveryAction::Offline
    } else if sel.path == LegacyPath::OfflineCandidate || sel.path == LegacyPath::Offline {
        NetworkRecoveryAction::Noop
    } else if sel.phase == LegacyPhase::Background {
        NetworkRecoveryAction::Noop
    } else {
        match sel.intent {
            LegacyIntent::Idle => NetworkRecoveryAction::Noop,
            LegacyIntent::Probe => NetworkRecoveryAction::Probe,
            LegacyIntent::Restore => NetworkRecoveryAction::Restore,
            LegacyIntent::Reconnect => NetworkRecoveryAction::ForceReconnect,
            LegacyIntent::Cleanup => NetworkRecoveryAction::CleanupOnly,
        }
    }
}

/// The action the compatibility selector picks for a batch.
pub open spec fn legacy_select_spec(events: Seq<NetworkEvent>) -> NetworkRecoveryAction {
    legacy_reconcile(legacy_expire(legacy_fold(events)))
}

fn legacy_rank_of(i: LegacyIntent) -> (r: u8)
    ensures
        r == legacy_rank(i),
{
    match i {
        LegacyIntent::Idle => 0,
        LegacyIntent::Probe => 1,
        LegacyIntent::Restore => 2,
        LegacyIntent::Reconnect => 3,
        LegacyIntent::Cleanup => 4,
    }
}

impl LegacySelector {
    /// The empty selector.
    pub fn new() -> (s: LegacySelector)
        ensures
            s == legacy_initial(),
    {
        LegacySelector {
            phase: LegacyPhase::Unknown,
            path: LegacyPath::Unknown,
            intent: LegacyIntent::Idle,
            work: LegacyWork::Idle,
            latest_sequence: None,
            latest_route: None,
        }
    }

    fn raise(&mut self, i: LegacyIntent)
        ensures
            *final(self) == legacy_raise(*old(self), i),
    {
        if legacy_rank_of(i) > legacy_rank_of(self.intent) {
            self.intent = i;
        }
    }

    /// Fold one fact into the selector.
    pub fn submit(&mut self, fact: &ConnectionFact)
        ensures
            *final(self) == legacy_submit(*old(self), *fact),
    {
        match fact {
            ConnectionFact::CleanupRequested(_) => {
                self.intent = LegacyIntent::Cleanup;
            },
            ConnectionFact::ForceReconnectRequested(_) => self.raise(LegacyIntent::Reconnect),
            ConnectionFact::AppEnteredBackground => {
                self.phase = LegacyPhase::Background;
            },
            ConnectionFact::AppEnteredForeground { background_duration_ms } => {
                self.phase = LegacyPhase::Foreground;
                if *background_duration_ms >= LONG_BACKGROUND_RECONNECT_THRESHOLD_MS {
                    self.raise(LegacyIntent::Reconnect);
                } else {
                    self.raise(LegacyIntent::Probe);
                }
            },
            ConnectionFact::NetworkSnapshotChanged(snapshot) => {
                let stale = match self.latest_sequence {
                    Some(latest) => snapshot.sequence <= latest,
                    None => false,
                };
                if !stale {
                    let route = LegacyRoute {
                        availability: snapshot.availability,
                        fingerprint: route_fingerprint(snapshot),
                    };
                    let material = match self.latest_route {
                        Some(r) => !(r == route),
                        None => true,
                    };
                    self.latest_sequence = Some(snapshot.sequence);
                    self.latest_route = Some(route);
                    match snapshot.availability {
                        NetworkAvailability::Unknown => {
                            self.path = LegacyPath::Unknown;
                            self.work = LegacyWork::Idle;
                            if material {
                                self.raise(LegacyIntent::Probe);
                            }
                        },
                        NetworkAvailability::Available => {
                            self.path = LegacyPath::Online;
                            self.work = LegacyWork::Idle;
                            if material {
                                self.raise(LegacyIntent::Restore);
                            }
                        },
                        NetworkAvailability::Unavailable => {
                            self.path = LegacyPath::OfflineCandidate;
                        },
                    }
                }
            },
        }
    }

    /// An offline grace is pending.
    pub fn offline_grace_pending(&self) -> (b: bool)
        ensures
            b == (self.path == LegacyPath::OfflineCandidate),
    {
        self.path == LegacyPath::OfflineCandidate
    }

    /// Expire a pending offline grace.
    pub fn expire_offline_grace(&mut self)
        ensures
            *final(self) == legacy_expire(*old(self)),
    {
        if self.path == LegacyPath::OfflineCandidate {
            self.path = LegacyPath::Offline;
            self.work = LegacyWork::DisconnectPending;
        }
    }

    /// The selected action.
    pub fn reconcile(&self) -> (a: NetworkRecoveryAction)
        ensures
            a == legacy_reconcile(*self),
    {
        if self.intent == LegacyIntent::Cleanup {
            return NetworkRecoveryAction::CleanupOnly;
        }
        if self.work == LegacyWork::DisconnectPending {
            return NetworkRecoveryAction::Offline;
        }
        if self.path == LegacyPath::OfflineCandidate || self.path == LegacyPath::Offline {
            return NetworkRecoveryAction::Noop;
        }
        if self.phase == LegacyPhase::Background {
            return NetworkRecoveryAction::Noop;
        }
        match self.intent {
            LegacyIntent::Idle => NetworkRecoveryAction::Noop,
            LegacyIntent::Probe => NetworkRecoveryAction::Probe,
            LegacyIntent::Restore => NetworkRecoveryAction::Restore,
            LegacyIntent::Reconnect => NetworkRecoveryAction::ForceReconnect,
            LegacyIntent::Cleanup => NetworkRecoveryAction::CleanupOnly,
        }
    }
}

/// Fold a batch of events into the compatibility selector, expire any
/// pending offline grace, and pick one action.
pub fn legacy_select_action(events: &[NetworkEvent]) -> (a: NetworkRecoveryAction)
    ensures
        a == legacy_select_spec(events@),
{
    let mut sel = LegacySelector::new();
    let mut i: usize = 0;
    while i < events.len()
        invariant
            i <= events@.len(),
            sel == legacy_fold(events@.take(i as int)),
        decreases events@.len() - i,
    {
        assert(events@.take(i + 1).drop_last() =~= events@.take(i as int));
        let fact = ConnectionFact::from_network_event(&events[i]);
        sel.submit(&fact);
        i = i + 1;
    }
    assert(events@.take(i as int) =~= events@);
    if sel.offline_grace_pending() {
        sel.expire_offline_grace();
    }
    sel.reconcile()
}

/// Cleanup wins any batch: once a cleanup fact is folded, later facts never
/// lower the intent, and the batch selects cleanup-only.
pub proof fn lemma_cleanup_wins_batch(events: Seq<NetworkEvent>, k: int)
    requires
        0 <= k < events.len(),
        events[k] matches NetworkEvent::CleanupConnections { .. },
    ensures
        legacy_select_spec(events) == NetworkRecoveryAction::CleanupOnly,
    decreases events.len(),
{
    lemma_cleanup_sticks(events, k);
}

proof fn lemma_cleanup_sticks(events: Seq<NetworkEvent>, k: int)
    requires
        0 <= k < events.len(),
        events[k] matches NetworkEvent::CleanupConnections { .. },
    ensures
        legacy_fold(events).intent == LegacyIntent::Cleanup,
    decreases events.len(),
{
    if k < events.len() - 1 {
        assert(events.drop_last()[k] == events[k]);
        lemma_cleanup_sticks(events.drop_last(), k);
    }
}

/// Every public event becomes the supervisor input of the same meaning: a
/// path change carries its epoch and sequence and maps availability onto the
/// semantic path; a foreground return reports its background time in
/// nanoseconds (saturating); a cleanup keeps its reason, so that only a
/// logout logs out and only a termination terminates; a forced reconnect
/// requests at least a reconnect and keeps its reason.
pub proof fn lemma_events_keep_their_meaning(event: NetworkEvent, source_epoch: u64)
    ensures
        ({
            let i = input_of_event(event, source_epoch);
            &&& event matches NetworkEvent::NetworkPathChanged { snapshot } ==> (i matches Input::NetworkSnapshot {
                source_epoch: e,
                sequence: q,
                semantic_path: p,
                ..
            } && e == source_epoch && q == snapshot.sequence && (p == SemanticPath::Online
                <==> snapshot.availability == NetworkAvailability::Available) && (p
                == SemanticPath::Offline <==> snapshot.availability == NetworkAvailability::Unavailable))
            &&& event == (NetworkEvent::AppLifecycleChanged { state: AppLifecycleState::Background })
                ==> i == Input::AppEnteredBackground
            &&& event matches NetworkEvent::AppLifecycleChanged {
                state: AppLifecycleState::Foreground { background_duration_ms: ms },
            } ==> (i matches Input::AppEnteredForeground { observed_background_duration: Some(o) }
                && (ms * 1_000_000 <= u64::MAX ==> o == ms * 1_000_000) && (ms * 1_000_000
                > u64::MAX ==> o == u64::MAX))
            &&& event matches NetworkEvent::CleanupConnections { reason: w } ==> (i matches Input::CleanupRequested {
                reason: r,
            } && (w == WireCleanupReason::UserLogout <==> r == CleanupReason::UserLogout) && (w
                == WireCleanupReason::AppTerminating <==> r == CleanupReason::AppTerminating) && (w
                == WireCleanupReason::ManualReset <==> r == CleanupReason::ManualReset) && (w
                == WireCleanupReason::StaleConnectionSuspected <==> r
                == CleanupReason::StaleConnectionSuspected))
            &&& event matches NetworkEvent::ForceReconnect { reason: w } ==> (i matches Input::RecoveryRequested {
                minimum: m,
                reason: r,
            } && m == RecoveryStrength::Reconnect && (w == ReconnectReason::ManualReconnect <==> r
                == RecoveryRequestReason::ManualReconnect) && (w == ReconnectReason::NetworkPathChanged
                <==> r == RecoveryRequestReason::NetworkPathChanged) && (w
                == ReconnectReason::LongBackground <==> r == RecoveryRequestReason::LongBackground) && (w
                == ReconnectReason::ProbeFailed <==> r == RecoveryRequestReason::ProbeFailed) && (w
                == ReconnectReason::StaleConnectionSuspected <==> r
                == RecoveryRequestReason::StaleConnectionSuspected))
        }),
{
}

/// Folding a fact never lowers the selector's intent, and a forced reconnect
/// or a cleanup raises it to at least a reconnect.
pub proof fn lemma_legacy_submit_never_lowers(sel: LegacySelector, fact: ConnectionFact)
    ensures
        legacy_rank(legacy_submit(sel, fact).intent) >= legacy_rank(sel.intent),
        fact is ForceReconnectRequested ==> legacy_rank(legacy_submit(sel, fact).intent) >= legacy_rank(
            LegacyIntent::Reconnect,
        ),
        !(fact is CleanupRequested) && sel.intent != LegacyIntent::Cleanup ==> legacy_submit(
            sel,
            fact,
        ).intent != LegacyIntent::Cleanup,
        fact is CleanupRequested ==> legacy_submit(sel, fact).intent == LegacyIntent::Cleanup,
        fact matches ConnectionFact::AppEnteredForeground { background_duration_ms: ms } ==> ({
            let after = legacy_submit(sel, fact);
            &&& after.phase == LegacyPhase::Foreground
            &&& legacy_rank(after.intent) >= legacy_rank(LegacyIntent::Probe)
            &&& ms >= LONG_BACKGROUND_RECONNECT_THRESHOLD_MS ==> legacy_rank(after.intent) >= legacy_rank(
                LegacyIntent::Reconnect,
            )
            &&& ms < LONG_BACKGROUND_RECONNECT_THRESHOLD_MS && legacy_rank(sel.intent) < legacy_rank(
                LegacyIntent::Probe,
            ) ==> after.intent == LegacyIntent::Probe
        }),
        fact is AppEnteredBackground ==> legacy_submit(sel, fact).phase == LegacyPhase::Background
            && legacy_submit(sel, fact).intent == sel.intent,
{
}

proof fn lemma_force_reconnect_sticks(events: Seq<NetworkEvent>, k: int)
    requires
        0 <= k < events.len(),
        events[k] matches NetworkEvent::ForceReconnect { .. },
    ensures
        legacy_rank(legacy_fold(events).intent) >= legacy_rank(LegacyIntent::Reconnect),
    decreases events.len(),
{
    let prefix = events.drop_last();
    if k < events.len() - 1 {
        assert(prefix[k] == events[k]);
        lemma_force_reconnect_sticks(prefix, k);
    }
    lemma_legacy_submit_never_lowers(legacy_fold(prefix), fact_of(events.last()));
}

proof fn lemma_no_cleanup_no_cleanup_intent(events: Seq<NetworkEvent>)
    requires
        forall|i: int| 0 <= i < events.len() ==> !(#[trigger] events[i] is CleanupConnections),
    ensures
        legacy_fold(events).intent != LegacyIntent::Cleanup,
    decreases events.len(),
{
    if events.len() > 0 {
        let prefix = events.drop_last();
        assert forall|i: int| 0 <= i < prefix.len() implies !(#[trigger] prefix[i] is CleanupConnections) by {
            assert(prefix[i] == events[i]);
        }
        lemma_no_cleanup_no_cleanup_intent(prefix);
        assert(!(events[events.len() - 1] is CleanupConnections));
        lemma_legacy_submit_never_lowers(legacy_fold(prefix), fact_of(events.last()));
    }
}

/// A forced reconnect in a batch without cleanup is never downgraded: the
/// batch selects a forced reconnect, or nothing or an offline disconnect
/// when the path or phase holds recovery back, but never a probe or a
/// restore. A batch of forced reconnects alone selects a forced reconnect.
pub proof fn lemma_forced_reconnect_is_never_downgraded(events: Seq<NetworkEvent>, k: int)
    requires
        0 <= k < events.len(),
        events[k] matches NetworkEvent::ForceReconnect { .. },
        forall|i: int| 0 <= i < events.len() ==> !(#[trigger] events[i] is CleanupConnections),
    ensures
        legacy_select_spec(events) == NetworkRecoveryAction::ForceReconnect || legacy_select_spec(events)
            == NetworkRecoveryAction::Noop || legacy_select_spec(events)
            == NetworkRecoveryAction::Offline,
        (forall|i: int| 0 <= i < events.len() ==> #[trigger] events[i] is ForceReconnect)
            ==> legacy_select_spec(events) == NetworkRecoveryAction::ForceReconnect,
{
    lemma_force_reconnect_sticks(events, k);
    lemma_no_cleanup_no_cleanup_intent(events);
    if forall|i: int| 0 <= i < events.len() ==> #[trigger] events[i] is ForceReconnect {
        lemma_only_forced_reconnects_keep_layers(events);
    }
}

proof fn lemma_only_forced_reconnects_keep_layers(events: Seq<NetworkEvent>)
    requires
        forall|i: int| 0 <= i < events.len() ==> #[trigger] events[i] is ForceReconnect,
    ensures
        legacy_fold(events).phase == LegacyPhase::Unknown,
        legacy_fold(events).path == LegacyPath::Unknown,
        legacy_fold(events).work == LegacyWork::Idle,
    decreases events.len(),
{
    if events.len() > 0 {
        let prefix = events.drop_last();
        assert forall|i: int| 0 <= i < prefix.len() implies #[trigger] prefix[i] is ForceReconnect by {
            assert(prefix[i] == events[i]);
        }
        lemma_only_forced_reconnects_keep_layers(prefix);
        assert(events[events.len() - 1] is ForceReconnect);
    }
}

/// A started teardown effect gets exactly the time left until its armed
/// obligation deadline (nothing once the deadline has passed), and the full
/// configured budget when no deadline is armed; a recovery effect gets no
/// teardown budget.
pub proof fn lemma_teardown_budget_is_time_left(m: SupervisorModel, now: PolicyInstant)
    ensures
        started_spec(m, now) matches Some(st) ==> ({
            let armed = if st.kind == EffectKind::Cleanup {
                m.view.cleanup_teardown
            } else {
                m.view.offline_teardown
            };
            &&& st.teardown_budget is Some <==> is_teardown_kind(st.kind)
            &&& is_teardown_kind(st.kind) ==> match armed {
                Some(t) => st.teardown_budget matches Some(b) && (now <= t.deadline ==> now + b
                    == t.deadline) && (now > t.deadline ==> b == 0),
                None => st.teardown_budget == Some(m.config.cleanup_teardown_deadline),
            }
        }),
{
}

// ---------------------------------------------------------------------------
// One reconcile round
// ---------------------------------------------------------------------------

/// The shell's work for one supervisor input: what acceptance produced, the
/// effect to spawn, whether the shell's running-effect handle is released,
/// and the progress to publish.
#[derive(Debug, Clone, PartialEq, Eq)]
pub struct ReconcileStep {
    pub accepted: AcceptOutcome,
    pub started: Option<StartedEffect>,
    /// Nothing runs any more: the shell drops its running-effect handle.
    pub effect_released: bool,
    pub status: SupervisorStatus,
}

/// The status after one reconcile round: a completion records its observable
/// class, a started effect its identity, and the revision is the
/// supervisor's.
pub open spec fn reconcile_status(
    before: SupervisorStatus,
    input: Input,
    started: Option<StartedEffect>,
    revision: Revision,
) -> SupervisorStatus {
    SupervisorStatus {
        policy_revision: revision,
        last_action_id: match started {
            Some(st) => Some(st.action_id),
            None => before.last_action_id,
        },
        last_outcome: match input {
            Input::EffectCompleted { outcome, .. } => Some(observed_spec(outcome)),
            _ => before.last_outcome,
        },
    }
}

/// One reconcile round with jitter sample `u` turns `before` into `after`:
/// the input is accepted, and unless the supervisor ended, the next
/// admissible effect is started.
pub open spec fn reconciles(
    before: SupervisorModel,
    input: Input,
    now: PolicyInstant,
    u: u64,
    after: SupervisorModel,
    accepted: AcceptOutcomeModel,
    started: Option<StartedEffect>,
) -> bool {
    exists|mid: SupervisorModel|
        #[trigger] accepts(before, input, now, u, mid, accepted) && if accepted.terminate {
            after == mid && started is None
        } else {
            started == started_spec(mid, now) && after == start_state(mid, now)
        }
}

impl<E: EntropySource> ConnectionSupervisor<E> {
    /// One reconcile round for a supervisor input: accept it; unless the
    /// supervisor ended, start the next admissible effect; and report the
    /// progress that callers observe.
    pub fn reconcile(&mut self, input: Input, now: PolicyInstant, status: SupervisorStatus) -> (r: ReconcileStep)
        ensures
            reconciles(
                old(self).model(),
                input,
                now,
                translation_sample(
                    old(self).model().view,
                    input,
                    now,
                    old(self).model().config,
                    old(self).entropy_source(),
                ),
                final(self).model(),
                r.accepted@,
                r.started,
            ),
            final(self).entropy_source() == entropy_after_translation(
                old(self).model().view,
                input,
                now,
                old(self).model().config,
                old(self).entropy_source(),
            ),
            r.status == reconcile_status(status, input, r.started, final(self).model().view.policy_revision),
            r.effect_released == (!r.accepted.terminate && r.started is None
                && final(self).model().view.execution == ExecutionState::Idle),
    {
        let observed = match &input {
            Input::EffectCompleted { outcome, .. } => Some(observed_outcome(outcome)),
            _ => None,
        };
        let ghost before = self.model();
        let ghost u = translation_sample(before.view, input, now, before.config, self.entropy_source());
        let accepted = self.accept(input, now);
        let ghost mid = self.model();
        assert(accepts(before, input, now, u, mid, accepted@));
        let mut started = None;
        let mut released = false;
        if !accepted.terminate {
            started = self.maybe_start_effect(now);
            released = started.is_none() && self.view.execution == ExecutionState::Idle;
        }
        let ghost after = self.model();
        let ghost acc = accepted@;
        assert(reconciles(before, input, now, u, after, acc, started));
        let last_action_id = match started {
            Some(st) => Some(st.action_id),
            None => status.last_action_id,
        };
        let last_outcome = match observed {
            Some(o) => Some(o),
            None => status.last_outcome,
        };
        let st = SupervisorStatus {
            policy_revision: self.view.policy_revision,
            last_action_id,
            last_outcome,
        };
        let r = ReconcileStep { accepted, started, effect_released: released, status: st };
        assert(r.accepted@ == acc);
        r
    }
}

} // verus!
