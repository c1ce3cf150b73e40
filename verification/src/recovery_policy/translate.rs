//! The pure policy translation reducer.
//!
//! [`translate`] is the single place that turns one accepted input into a
//! [`Decision`]: an ordered list of machine inputs plus the revision, trigger,
//! cancellation, and timer consequences the supervisor shell then applies. It
//! performs no I/O, reads no ambient clock (it is handed `now`), and draws no
//! ambient randomness (it is handed an [`EntropySource`]). Every decision is
//! stated exactly by the model functions of this module.
//!
//! The composite action decision ([`composite_action`]) and the derived send
//! projection ([`derive_send_policy`]) read the same snapshot.
use std::collections::BTreeSet;
use vstd::prelude::*;

use super::classification::{
    arm_backoff, backoff_deadline, classify, classify_spec, BackoffParams, ClassifyContext,
    EntropySource, ParkCause, ReleaseMask, TriggerClass, Verdict,
};
use super::diagnosis::{
    is_teardown_kind, retry_after_of, tag_of, AbortCause, EffectDiagnosis, EffectKind,
    EffectOutcome,
};
use super::{Generation, PolicyInstant, Revision};

verus! {

broadcast use vstd::std_specs::btree::group_btree_axioms;

// ---------------------------------------------------------------------------
// Discrete machine states (the reducer's snapshot alphabet)
// ---------------------------------------------------------------------------

/// `RecoveryMode` discrete state.
#[derive(Debug, Clone, Copy, PartialEq, Eq, Structural, Hash)]
pub enum RecoveryModeState {
    Active,
    LoggedOut,
    Terminating,
}

/// `AppPhase` discrete state.
#[derive(Debug, Clone, Copy, PartialEq, Eq, Structural, Hash)]
pub enum AppPhaseState {
    Unknown,
    Foreground,
    Background,
}

/// `NetworkPath` discrete state.
#[derive(Debug, Clone, Copy, PartialEq, Eq, Structural, Hash)]
pub enum NetworkPathState {
    Unknown,
    Online,
    OfflineCandidate,
    Offline,
}

/// `RecoveryIntent` discrete state.
#[derive(Debug, Clone, Copy, PartialEq, Eq, Structural, Hash)]
pub enum RecoveryIntentState {
    Idle,
    ProbePending,
    RestorePending,
    ReconnectPending,
}

/// `CleanupWork` discrete state.
#[derive(Debug, Clone, Copy, PartialEq, Eq, Structural, Hash)]
pub enum CleanupWorkState {
    Idle,
    CleanupPending,
}

/// `OfflineWork` discrete state.
#[derive(Debug, Clone, Copy, PartialEq, Eq, Structural, Hash)]
pub enum OfflineWorkState {
    Idle,
    DisconnectPending,
}

/// `Execution` single-flight discrete state.
#[derive(Debug, Clone, Copy, PartialEq, Eq, Structural, Hash)]
pub enum ExecutionState {
    Idle,
    Disconnecting,
    Probing,
    Restoring,
    Reconnecting,
    Cleaning,
}

/// The execution slot runs a recovery effect.
pub open spec fn is_recovery_execution(e: ExecutionState) -> bool {
    e == ExecutionState::Probing || e == ExecutionState::Restoring || e
        == ExecutionState::Reconnecting
}

impl ExecutionState {
    /// Whether the slot runs a recovery effect (probe, restore, or reconnect).
    pub fn is_recovery(self) -> (b: bool)
        ensures
            b == is_recovery_execution(self),
    {
        match self {
            ExecutionState::Probing | ExecutionState::Restoring | ExecutionState::Reconnecting => {
                true
            },
            _ => false,
        }
    }
}

/// `RetryGate` discrete state.
#[derive(Debug, Clone, Copy, PartialEq, Eq, Structural, Hash)]
pub enum RetryGateState {
    Ready,
    BackingOff,
    Parked,
}

// ---------------------------------------------------------------------------
// Machine inputs the decision emits
// ---------------------------------------------------------------------------

#[derive(Debug, Clone, Copy, PartialEq, Eq, Structural, Hash)]
pub enum RecoveryModeInput {
    SessionActivated,
    UserLoggedOut,
    AppTerminating,
}

#[derive(Debug, Clone, Copy, PartialEq, Eq, Structural, Hash)]
pub enum AppPhaseInput {
    EnterForeground,
    EnterBackground,
}

#[derive(Debug, Clone, Copy, PartialEq, Eq, Structural, Hash)]
pub enum NetworkPathInput {
    ObserveOnline,
    ObserveOffline,
    ObserveUnknown,
    CommitOffline,
}

#[derive(Debug, Clone, Copy, PartialEq, Eq, Structural, Hash)]
pub enum RecoveryIntentInput {
    RequestProbe,
    RequestRestore,
    RequestReconnect,
    CompleteProbe,
    CompleteRestore,
    CompleteReconnect,
    SupersedeRecovery,
}

#[derive(Debug, Clone, Copy, PartialEq, Eq, Structural, Hash)]
pub enum CleanupWorkInput {
    RequestCleanup,
    CompleteCleanup,
}

#[derive(Debug, Clone, Copy, PartialEq, Eq, Structural, Hash)]
pub enum OfflineWorkInput {
    RequestDisconnect,
    CompleteDisconnect,
    SupersedeDisconnect,
}

#[derive(Debug, Clone, Copy, PartialEq, Eq, Structural, Hash)]
pub enum RetryGateInput {
    RetryableFailure,
    TerminalFailure,
    ExplicitPause,
    RetryDeadlineExpired,
    NewMaterialTrigger,
}

#[derive(Debug, Clone, Copy, PartialEq, Eq, Structural, Hash)]
pub enum ExecutionInput {
    BeginProbe,
    BeginRestore,
    BeginReconnect,
    BeginOffline,
    BeginCleanup,
    Succeeded,
    Failed,
    Cancelled,
}

/// One machine input paired with its target machine.
#[derive(Debug, Clone, Copy, PartialEq, Eq, Structural, Hash)]
pub enum MachineInput {
    RecoveryMode(RecoveryModeInput),
    AppPhase(AppPhaseInput),
    NetworkPath(NetworkPathInput),
    RecoveryIntent(RecoveryIntentInput),
    CleanupWork(CleanupWorkInput),
    OfflineWork(OfflineWorkInput),
    RetryGate { domain: RetryDomain, input: RetryGateInput },
    Execution(ExecutionInput),
}

// ---------------------------------------------------------------------------
// Shared policy vocabulary
// ---------------------------------------------------------------------------

/// A retry-gated pending-work domain.
#[derive(Debug, Clone, Copy, PartialEq, Eq, Structural, Hash, PartialOrd, Ord)]
pub enum RetryDomain {
    Recovery,
    Cleanup,
    Offline,
}

/// A bounded-teardown obligation domain.
#[derive(Debug, Clone, Copy, PartialEq, Eq, Structural, Hash, PartialOrd, Ord)]
pub enum TeardownDomain {
    Cleanup,
    OfflineDisconnect,
}

/// The ordered strength of a recovery intent: `Probe < Restore < Reconnect`.
#[derive(Debug, Clone, Copy, PartialEq, Eq, Structural, Hash, PartialOrd, Ord)]
pub enum RecoveryStrength {
    Probe,
    Restore,
    Reconnect,
}

/// The position of a strength in the order `Probe < Restore < Reconnect`.
pub open spec fn strength_rank(s: RecoveryStrength) -> nat {
    match s {
        RecoveryStrength::Probe => 0,
        RecoveryStrength::Restore => 1,
        RecoveryStrength::Reconnect => 2,
    }
}

/// The intent input that requests work of a strength.
pub open spec fn request_input_of(s: RecoveryStrength) -> RecoveryIntentInput {
    match s {
        RecoveryStrength::Probe => RecoveryIntentInput::RequestProbe,
        RecoveryStrength::Restore => RecoveryIntentInput::RequestRestore,
        RecoveryStrength::Reconnect => RecoveryIntentInput::RequestReconnect,
    }
}

/// The intent input that acknowledges work of a strength.
pub open spec fn complete_input_of(s: RecoveryStrength) -> RecoveryIntentInput {
    match s {
        RecoveryStrength::Probe => RecoveryIntentInput::CompleteProbe,
        RecoveryStrength::Restore => RecoveryIntentInput::CompleteRestore,
        RecoveryStrength::Reconnect => RecoveryIntentInput::CompleteReconnect,
    }
}

impl RecoveryStrength {
    /// The position of this strength in `Probe < Restore < Reconnect`.
    pub fn rank(self) -> (r: u8)
        ensures
            r == strength_rank(self),
    {
        match self {
            RecoveryStrength::Probe => 0,
            RecoveryStrength::Restore => 1,
            RecoveryStrength::Reconnect => 2,
        }
    }

    /// The intent input that requests work of this strength.
    pub fn request_input(self) -> (i: RecoveryIntentInput)
        ensures
            i == request_input_of(self),
    {
        match self {
            RecoveryStrength::Probe => RecoveryIntentInput::RequestProbe,
            RecoveryStrength::Restore => RecoveryIntentInput::RequestRestore,
            RecoveryStrength::Reconnect => RecoveryIntentInput::RequestReconnect,
        }
    }

    /// The intent input that acknowledges work of this strength.
    pub fn complete_input(self) -> (i: RecoveryIntentInput)
        ensures
            i == complete_input_of(self),
    {
        match self {
            RecoveryStrength::Probe => RecoveryIntentInput::CompleteProbe,
            RecoveryStrength::Restore => RecoveryIntentInput::CompleteRestore,
            RecoveryStrength::Reconnect => RecoveryIntentInput::CompleteReconnect,
        }
    }
}

/// The closed reason enumeration for a cleanup command.
#[derive(Debug, Clone, Copy, PartialEq, Eq, Structural, Hash)]
pub enum CleanupReason {
    UserLogout,
    AppTerminating,
    ManualReset,
    StaleConnectionSuspected,
}

/// A diagnostic reason attached to an explicit recovery command; it does not
/// affect translation, which keys only on `minimum`.
#[derive(Debug, Clone, Copy, PartialEq, Eq, Structural, Hash)]
pub enum RecoveryRequestReason {
    ManualReconnect,
    NetworkPathChanged,
    LongBackground,
    ProbeFailed,
    StaleConnectionSuspected,
}

/// The scope of a recovery pause/resume command.
#[derive(Debug, Clone, Copy, PartialEq, Eq, Structural, Hash)]
pub enum RecoveryScope {
    /// All automatic recovery (the single recovery-intent domain).
    AllRecovery,
}

/// The scope of a configuration change.
#[derive(Debug, Clone, Copy, PartialEq, Eq, Structural, Hash)]
pub enum ConfigScope {
    All,
}

/// The normalized availability of a network snapshot.
#[derive(Debug, Clone, Copy, PartialEq, Eq, Structural, Hash)]
pub enum SemanticPath {
    Unknown,
    Online,
    Offline,
}

/// The origin of a normalized signaling fact.
#[derive(Debug, Clone, Copy, PartialEq, Eq, Structural, Hash)]
pub enum SignalingOrigin {
    /// Produced by the running lifecycle effect (its `action_id`).
    CurrentEffect { action_id: u64 },
    /// External news from a resource owner.
    External,
}

/// Why a signaling generation was lost.
#[derive(Debug, Clone, Copy, PartialEq, Eq, Structural, Hash)]
pub enum SignalingLostCause {
    Disconnected,
    Superseded,
    RemoteReset,
}

// ---------------------------------------------------------------------------
// Extended state carried by the view
// ---------------------------------------------------------------------------

/// One pending-work record's extended context.
#[derive(Debug, Clone, Copy, PartialEq, Eq, Structural)]
pub struct PendingRecord {
    /// The revision that most recently required this work.
    pub work_revision: Revision,
    pub gate: RetryGateState,
    /// Consecutive failures of the current work (0 while fresh).
    pub attempt: u32,
    /// The identity of the one armed backoff deadline, when backing off.
    pub retry_id: u64,
    /// Present exactly while parked; never empty then.
    pub release_mask: ReleaseMask,
    /// For the recovery domain, which intent strength is pending.
    pub strength: Option<RecoveryStrength>,
}

/// A fresh `Ready` record.
pub open spec fn fresh_record(work_revision: Revision, strength: Option<RecoveryStrength>) -> PendingRecord {
    PendingRecord {
        work_revision,
        gate: RetryGateState::Ready,
        attempt: 0,
        retry_id: 0,
        release_mask: ReleaseMask::empty_spec(),
        strength,
    }
}

impl PendingRecord {
    /// A fresh `Ready` recovery record for the given strength.
    pub fn recovery(work_revision: Revision, strength: RecoveryStrength) -> (r: PendingRecord)
        ensures
            r == fresh_record(work_revision, Some(strength)),
    {
        PendingRecord {
            work_revision,
            gate: RetryGateState::Ready,
            attempt: 0,
            retry_id: 0,
            release_mask: ReleaseMask { auth: false, config: false, invariant: false, pause: false },
            strength: Some(strength),
        }
    }

    /// A fresh `Ready` teardown record (cleanup or offline disconnect).
    pub fn teardown(work_revision: Revision) -> (r: PendingRecord)
        ensures
            r == fresh_record(work_revision, None),
    {
        PendingRecord {
            work_revision,
            gate: RetryGateState::Ready,
            attempt: 0,
            retry_id: 0,
            release_mask: ReleaseMask { auth: false, config: false, invariant: false, pause: false },
            strength: None,
        }
    }
}

/// The currently running effect's context.
#[derive(Debug, Clone, Copy, PartialEq, Eq, Structural)]
pub struct EffectContext {
    pub action_id: u64,
    pub kind: EffectKind,
    pub captured_revision: Revision,
    pub cancel_reason: Option<CancelReason>,
}

/// The last accepted network snapshot's identity and semantics.
#[derive(Debug, Clone, Copy, PartialEq, Eq, Structural)]
pub struct AcceptedSnapshot {
    pub source_epoch: u64,
    pub sequence: u64,
    pub semantic_path: SemanticPath,
    pub route_fingerprint: u64,
}

/// The offline-candidate identity and its committed grace deadline.
#[derive(Debug, Clone, Copy, PartialEq, Eq, Structural)]
pub struct OfflineCandidate {
    pub candidate_id: u64,
    pub deadline: PolicyInstant,
}

/// An overall teardown deadline: armed once when the obligation is created.
#[derive(Debug, Clone, Copy, PartialEq, Eq, Structural)]
pub struct TeardownDeadline {
    pub deadline_id: u64,
    pub deadline: PolicyInstant,
}

/// The shutdown overall deadline.
#[derive(Debug, Clone, Copy, PartialEq, Eq, Structural)]
pub struct ShutdownDeadline {
    pub deadline_id: u64,
    pub deadline: PolicyInstant,
}

/// The constructor-time choice of whether app phase gates recovery.
#[derive(Debug, Clone, Copy, PartialEq, Eq, Structural, Hash)]
pub enum LifecycleProfile {
    Ungated,
    Gated,
}

/// The supervisor's complete policy snapshot handed to [`translate`].
#[derive(Debug, Clone, PartialEq, Eq)]
pub struct PolicyView {
    pub recovery_mode: RecoveryModeState,
    pub app_phase: AppPhaseState,
    pub network_path: NetworkPathState,
    pub recovery_intent: RecoveryIntentState,
    pub cleanup_work: CleanupWorkState,
    pub offline_work: OfflineWorkState,
    pub execution: ExecutionState,
    pub recovery_record: Option<PendingRecord>,
    pub cleanup_record: Option<PendingRecord>,
    pub offline_record: Option<PendingRecord>,
    pub effect: Option<EffectContext>,
    pub policy_revision: Revision,
    pub last_snapshot: Option<AcceptedSnapshot>,
    pub offline_candidate: Option<OfflineCandidate>,
    pub cleanup_teardown: Option<TeardownDeadline>,
    pub offline_teardown: Option<TeardownDeadline>,
    pub background_entered_at: Option<PolicyInstant>,
    pub committed_session_generation: Option<Generation>,
    pub live_signaling_generation: Option<Generation>,
    /// Generations circled by a pending or running teardown scope; a generation
    /// here does not count as live for restore derivation.
    pub teardown_scope_generations: BTreeSet<Generation>,
    pub shutdown_deadline: Option<ShutdownDeadline>,
    pub profile: LifecycleProfile,
}

/// The mathematical content of a [`PolicyView`]: the same fields, with the
/// teardown-scope generations as a set.
#[verifier::ext_equal]
pub struct PolicyModel {
    pub recovery_mode: RecoveryModeState,
    pub app_phase: AppPhaseState,
    pub network_path: NetworkPathState,
    pub recovery_intent: RecoveryIntentState,
    pub cleanup_work: CleanupWorkState,
    pub offline_work: OfflineWorkState,
    pub execution: ExecutionState,
    pub recovery_record: Option<PendingRecord>,
    pub cleanup_record: Option<PendingRecord>,
    pub offline_record: Option<PendingRecord>,
    pub effect: Option<EffectContext>,
    pub policy_revision: Revision,
    pub last_snapshot: Option<AcceptedSnapshot>,
    pub offline_candidate: Option<OfflineCandidate>,
    pub cleanup_teardown: Option<TeardownDeadline>,
    pub offline_teardown: Option<TeardownDeadline>,
    pub background_entered_at: Option<PolicyInstant>,
    pub committed_session_generation: Option<Generation>,
    pub live_signaling_generation: Option<Generation>,
    pub teardown_scope_generations: Set<Generation>,
    pub shutdown_deadline: Option<ShutdownDeadline>,
    pub profile: LifecycleProfile,
}

impl View for PolicyView {
    type V = PolicyModel;

    open spec fn view(&self) -> PolicyModel {
        PolicyModel {
            recovery_mode: self.recovery_mode,
            app_phase: self.app_phase,
            network_path: self.network_path,
            recovery_intent: self.recovery_intent,
            cleanup_work: self.cleanup_work,
            offline_work: self.offline_work,
            execution: self.execution,
            recovery_record: self.recovery_record,
            cleanup_record: self.cleanup_record,
            offline_record: self.offline_record,
            effect: self.effect,
            policy_revision: self.policy_revision,
            last_snapshot: self.last_snapshot,
            offline_candidate: self.offline_candidate,
            cleanup_teardown: self.cleanup_teardown,
            offline_teardown: self.offline_teardown,
            background_entered_at: self.background_entered_at,
            committed_session_generation: self.committed_session_generation,
            live_signaling_generation: self.live_signaling_generation,
            teardown_scope_generations: self.teardown_scope_generations@,
            shutdown_deadline: self.shutdown_deadline,
            profile: self.profile,
        }
    }
}

/// The strength of the pending recovery intent, if any.
pub open spec fn intent_strength(i: RecoveryIntentState) -> Option<RecoveryStrength> {
    match i {
        RecoveryIntentState::Idle => None,
        RecoveryIntentState::ProbePending => Some(RecoveryStrength::Probe),
        RecoveryIntentState::RestorePending => Some(RecoveryStrength::Restore),
        RecoveryIntentState::ReconnectPending => Some(RecoveryStrength::Reconnect),
    }
}

/// The record of a retry domain.
pub open spec fn record_of(view: PolicyModel, domain: RetryDomain) -> Option<PendingRecord> {
    match domain {
        RetryDomain::Recovery => view.recovery_record,
        RetryDomain::Cleanup => view.cleanup_record,
        RetryDomain::Offline => view.offline_record,
    }
}

/// A live signaling generation exists outside every teardown scope.
pub open spec fn live_outside_teardown(view: PolicyModel) -> bool {
    match view.live_signaling_generation {
        Some(g) => !view.teardown_scope_generations.contains(g),
        None => false,
    }
}

/// The app phase admits recovery under the lifecycle profile.
pub open spec fn phase_eligible(view: PolicyModel) -> bool {
    match view.profile {
        LifecycleProfile::Ungated => true,
        LifecycleProfile::Gated => view.app_phase == AppPhaseState::Foreground,
    }
}

impl PolicyView {
    /// A benign initial snapshot: active, ungated, path unknown, nothing pending.
    pub fn initial() -> (v: PolicyView)
        ensures
            v.recovery_mode == RecoveryModeState::Active,
            v.app_phase == AppPhaseState::Unknown,
            v.network_path == NetworkPathState::Unknown,
            v.recovery_intent == RecoveryIntentState::Idle,
            v.cleanup_work == CleanupWorkState::Idle,
            v.offline_work == OfflineWorkState::Idle,
            v.execution == ExecutionState::Idle,
            v.recovery_record is None,
            v.cleanup_record is None,
            v.offline_record is None,
            v.effect is None,
            v.policy_revision == 0,
            v.last_snapshot is None,
            v.offline_candidate is None,
            v.cleanup_teardown is None,
            v.offline_teardown is None,
            v.background_entered_at is None,
            v.committed_session_generation is None,
            v.live_signaling_generation is None,
            v.teardown_scope_generations@ == Set::<Generation>::empty(),
            v.shutdown_deadline is None,
            v.profile == LifecycleProfile::Ungated,
    {
        PolicyView {
            recovery_mode: RecoveryModeState::Active,
            app_phase: AppPhaseState::Unknown,
            network_path: NetworkPathState::Unknown,
            recovery_intent: RecoveryIntentState::Idle,
            cleanup_work: CleanupWorkState::Idle,
            offline_work: OfflineWorkState::Idle,
            execution: ExecutionState::Idle,
            recovery_record: None,
            cleanup_record: None,
            offline_record: None,
            effect: None,
            policy_revision: 0,
            last_snapshot: None,
            offline_candidate: None,
            cleanup_teardown: None,
            offline_teardown: None,
            background_entered_at: None,
            committed_session_generation: None,
            live_signaling_generation: None,
            teardown_scope_generations: BTreeSet::new(),
            shutdown_deadline: None,
            profile: LifecycleProfile::Ungated,
        }
    }

    /// The strength of the pending recovery intent, if any.
    pub fn current_recovery_strength(&self) -> (s: Option<RecoveryStrength>)
        ensures
            s == intent_strength(self.recovery_intent),
    {
        match self.recovery_intent {
            RecoveryIntentState::Idle => None,
            RecoveryIntentState::ProbePending => Some(RecoveryStrength::Probe),
            RecoveryIntentState::RestorePending => Some(RecoveryStrength::Restore),
            RecoveryIntentState::ReconnectPending => Some(RecoveryStrength::Reconnect),
        }
    }

    /// The record of a retry domain.
    pub fn record(&self, domain: RetryDomain) -> (r: Option<PendingRecord>)
        ensures
            r == record_of(self@, domain),
    {
        match domain {
            RetryDomain::Recovery => self.recovery_record,
            RetryDomain::Cleanup => self.cleanup_record,
            RetryDomain::Offline => self.offline_record,
        }
    }

    /// Whether a live signaling generation exists outside every pending or
    /// running teardown scope.
    pub fn live_signaling_outside_teardown(&self) -> (b: bool)
        ensures
            b == live_outside_teardown(self@),
    {
        match self.live_signaling_generation {
            Some(g) => !self.teardown_scope_generations.contains(&g),
            None => false,
        }
    }

    /// Whether the app phase admits recovery under the lifecycle profile.
    pub fn phase_eligible(&self) -> (b: bool)
        ensures
            b == phase_eligible(self@),
    {
        match self.profile {
            LifecycleProfile::Ungated => true,
            LifecycleProfile::Gated => self.app_phase == AppPhaseState::Foreground,
        }
    }
}

// ---------------------------------------------------------------------------
// Input event model
// ---------------------------------------------------------------------------

/// The full supervisor input model.
#[derive(Debug, Clone, PartialEq, Eq)]
pub enum Input {
    /// The app entered the foreground; the platform may report how long it
    /// stayed in the background, which takes precedence over the supervisor's
    /// own background timestamp.
    AppEnteredForeground { observed_background_duration: Option<PolicyInstant> },
    AppEnteredBackground,
    SessionActivated { session_generation: Generation },
    NetworkSnapshot {
        source_epoch: u64,
        sequence: u64,
        semantic_path: SemanticPath,
        route_fingerprint: u64,
    },
    RecoveryRequested { minimum: RecoveryStrength, reason: RecoveryRequestReason },
    RecoveryPauseRequested { scope: RecoveryScope },
    RecoveryResumeRequested { scope: RecoveryScope },
    CleanupRequested { reason: CleanupReason },
    ConfigurationChanged { scope: ConfigScope },
    OfflineGraceExpired { candidate_id: u64 },
    RetryDeadlineExpired { domain: RetryDomain, work_revision: Revision, retry_id: u64 },
    BootstrapPhaseDeadlineExpired,
    ShutdownDeadlineExpired { deadline_id: u64 },
    TeardownDeadlineExpired { domain: TeardownDomain, deadline_id: u64 },
    SignalingGenerationCommitted { generation: Generation, origin: SignalingOrigin },
    SignalingGenerationLost { generation: Generation, cause: SignalingLostCause },
    EffectCompleted {
        action_id: u64,
        kind: EffectKind,
        policy_revision: Revision,
        outcome: EffectOutcome,
    },
    ShutdownRequested,
}

// ---------------------------------------------------------------------------
// Decision output
// ---------------------------------------------------------------------------

/// Whether the input allocates the next `policy_revision`.
#[derive(Debug, Clone, Copy, PartialEq, Eq, Structural)]
pub enum RevisionDirective {
    /// The input materially changed a fact, gate, or pending-work domain.
    Advances,
    /// A structural duplicate or discarded input: no new revision.
    Unchanged,
}

/// A retry-gate trigger dispatch.
#[derive(Debug, Clone, Copy, PartialEq, Eq, Structural)]
pub enum GateTrigger {
    /// Apply `NewMaterialTrigger` to the domain's gate when it is `BackingOff`.
    Wake { domain: RetryDomain },
    /// Clear release-mask entries matching `trigger` on a `Parked` record; the
    /// record is freed only when the mask empties.
    ClearMask { domain: RetryDomain, trigger: TriggerClass },
}

/// Why the supervisor requested cancellation of the running effect.
#[derive(Debug, Clone, Copy, PartialEq, Eq, Structural)]
pub enum CancelReason {
    Pause,
    PreemptedByCleanup,
    PreemptedByStronger,
    PathRecovered,
    Shutdown,
}

/// A signaling-layer directive the shell executes after applying a decision.
#[derive(Debug, Clone, Copy, PartialEq, Eq, Structural)]
pub enum SignalingDirective {
    /// Revoke commit rights of every in-flight signaling connection attempt
    /// before a superseded recovery effect is cancelled.
    InvalidateConnectionAttempts,
    /// Invalidate in-flight automatic reconnect attempts and keep new attempts
    /// paused until a recovery path explicitly schedules them again.
    SuppressAutoReconnect,
    /// Re-enable future automatic reconnects without starting one immediately.
    ResumeAutoReconnect,
}

/// A category from the audited timer inventory.
#[derive(Debug, Clone, Copy, PartialEq, Eq, Structural)]
pub enum TimerCategory {
    BusinessHysteresis,
    FailureDeadline,
    FailureBackoff,
}

/// A stable timer inventory id.
#[derive(Debug, Clone, Copy, PartialEq, Eq, Structural, Hash)]
pub enum TimerId {
    OfflineCandidate,
    ShutdownOverall,
    TeardownOverall(TeardownDomain),
    BootstrapPhase,
    FailureBackoff(RetryDomain),
}

/// An arm/cancel instruction for the audited timer facade.
#[derive(Debug, Clone, Copy, PartialEq, Eq, Structural)]
pub enum TimerDirective {
    Arm { id: TimerId, category: TimerCategory, deadline: PolicyInstant },
    Cancel { id: TimerId },
}

/// Record the release mask that a parking gate takes on.
#[derive(Debug, Clone, Copy, PartialEq, Eq, Structural)]
pub struct ParkDirective {
    pub domain: RetryDomain,
    pub release_mask: ReleaseMask,
}

/// Why a `RecoveryRequested` command was rejected.
#[derive(Debug, Clone, Copy, PartialEq, Eq, Structural)]
pub enum RejectReason {
    LoggedOutOrTerminating,
    ParkedNoClearingTrigger,
}

/// A structured status-stream record produced by translation.
#[derive(Debug, Clone, Copy, PartialEq, Eq, Structural)]
pub enum StatusRecord {
    RecoveryRejected { mode: RecoveryModeState, reason: RejectReason },
    /// The gated bootstrap deadline elapsed with no authoritative phase.
    BootstrapDeadlineElapsed,
    /// The shutdown overall deadline aborted remaining work; the supervisor ends.
    ShutdownAbandon,
}

/// The result of translating one input.
#[derive(Debug, Clone, PartialEq, Eq)]
pub struct Decision {
    /// Ordered machine inputs to apply.
    pub machine_inputs: Vec<MachineInput>,
    /// Whether the input advances `policy_revision`.
    pub revision: RevisionDirective,
    /// Retry-gate trigger dispatch.
    pub gate_triggers: Vec<GateTrigger>,
    /// Release masks to record as records park.
    pub parks: Vec<ParkDirective>,
    /// Effect cancellation / preemption requests.
    pub cancels: Vec<CancelReason>,
    /// Audited timer arm/cancel instructions.
    pub timers: Vec<TimerDirective>,
    /// Structured status-stream records.
    pub status: Vec<StatusRecord>,
    /// Signaling-layer directives the shell executes.
    pub signals: Vec<SignalingDirective>,
    /// The supervisor has ended unconditionally; the shell stops its loop.
    pub terminate: bool,
}

/// The mathematical content of a [`Decision`].
#[verifier::ext_equal]
pub struct DecisionModel {
    pub machine_inputs: Seq<MachineInput>,
    pub revision: RevisionDirective,
    pub gate_triggers: Seq<GateTrigger>,
    pub parks: Seq<ParkDirective>,
    pub cancels: Seq<CancelReason>,
    pub timers: Seq<TimerDirective>,
    pub status: Seq<StatusRecord>,
    pub signals: Seq<SignalingDirective>,
    pub terminate: bool,
}

impl DecisionModel {
    /// The empty, non-advancing decision.
    pub open spec fn none() -> DecisionModel {
        DecisionModel {
            machine_inputs: Seq::empty(),
            revision: RevisionDirective::Unchanged,
            gate_triggers: Seq::empty(),
            parks: Seq::empty(),
            cancels: Seq::empty(),
            timers: Seq::empty(),
            status: Seq::empty(),
            signals: Seq::empty(),
            terminate: false,
        }
    }

    /// The empty decision that allocates a new revision.
    pub open spec fn advancing() -> DecisionModel {
        DecisionModel { revision: RevisionDirective::Advances, ..DecisionModel::none() }
    }

    pub open spec fn m(self, i: MachineInput) -> DecisionModel {
        DecisionModel { machine_inputs: self.machine_inputs.push(i), ..self }
    }

    pub open spec fn trigger(self, g: GateTrigger) -> DecisionModel {
        DecisionModel { gate_triggers: self.gate_triggers.push(g), ..self }
    }

    pub open spec fn park(self, p: ParkDirective) -> DecisionModel {
        DecisionModel { parks: self.parks.push(p), ..self }
    }

    pub open spec fn cancel(self, c: CancelReason) -> DecisionModel {
        DecisionModel { cancels: self.cancels.push(c), ..self }
    }

    pub open spec fn timer(self, t: TimerDirective) -> DecisionModel {
        DecisionModel { timers: self.timers.push(t), ..self }
    }

    pub open spec fn stat(self, s: StatusRecord) -> DecisionModel {
        DecisionModel { status: self.status.push(s), ..self }
    }

    pub open spec fn signal(self, s: SignalingDirective) -> DecisionModel {
        DecisionModel { signals: self.signals.push(s), ..self }
    }

    pub open spec fn ending(self) -> DecisionModel {
        DecisionModel { terminate: true, ..self }
    }
}

impl View for Decision {
    type V = DecisionModel;

    open spec fn view(&self) -> DecisionModel {
        DecisionModel {
            machine_inputs: self.machine_inputs@,
            revision: self.revision,
            gate_triggers: self.gate_triggers@,
            parks: self.parks@,
            cancels: self.cancels@,
            timers: self.timers@,
            status: self.status@,
            signals: self.signals@,
            terminate: self.terminate,
        }
    }
}

impl Decision {
    /// The empty, non-advancing decision.
    pub fn none() -> (d: Decision)
        ensures
            d@ == DecisionModel::none(),
    {
        Decision {
            machine_inputs: Vec::new(),
            revision: RevisionDirective::Unchanged,
            gate_triggers: Vec::new(),
            parks: Vec::new(),
            cancels: Vec::new(),
            timers: Vec::new(),
            status: Vec::new(),
            signals: Vec::new(),
            terminate: false,
        }
    }

    /// The empty decision that allocates a new revision.
    pub fn advancing() -> (d: Decision)
        ensures
            d@ == DecisionModel::advancing(),
    {
        let mut d = Decision::none();
        d.revision = RevisionDirective::Advances;
        d
    }

    /// Append one machine input.
    pub fn machine(&mut self, input: MachineInput)
        ensures
            final(self)@ == old(self)@.m(input),
    {
        self.machine_inputs.push(input);
    }
}

// ---------------------------------------------------------------------------
// Configuration
// ---------------------------------------------------------------------------

/// Per-kind backoff curves.
#[derive(Debug, Clone, Copy, PartialEq, Eq, Structural)]
pub struct BackoffTable {
    pub probe: BackoffParams,
    pub restore: BackoffParams,
    pub reconnect: BackoffParams,
    pub teardown: BackoffParams,
}

/// The curve of an effect kind; both teardown kinds share one.
pub open spec fn curve_for(table: BackoffTable, kind: EffectKind) -> BackoffParams {
    match kind {
        EffectKind::Probe => table.probe,
        EffectKind::Restore => table.restore,
        EffectKind::Reconnect => table.reconnect,
        EffectKind::ConfirmedOfflineDisconnect | EffectKind::Cleanup => table.teardown,
    }
}

impl BackoffTable {
    /// The curve of an effect kind.
    pub fn for_kind(&self, kind: EffectKind) -> (p: &BackoffParams)
        ensures
            *p == curve_for(*self, kind),
    {
        match kind {
            EffectKind::Probe => &self.probe,
            EffectKind::Restore => &self.restore,
            EffectKind::Reconnect => &self.reconnect,
            EffectKind::ConfirmedOfflineDisconnect | EffectKind::Cleanup => &self.teardown,
        }
    }
}

/// Nanoseconds per millisecond.
pub const NANOS_PER_MILLI: u64 = 1_000_000;

/// Nanoseconds per second.
pub const NANOS_PER_SEC: u64 = 1_000_000_000;

/// Product policy constants used by translation (durations in nanoseconds).
#[derive(Debug, Clone, Copy, PartialEq, Eq, Structural)]
pub struct PolicyConfig {
    pub offline_grace: PolicyInstant,
    pub background_reconnect_after: PolicyInstant,
    pub shutdown_deadline: PolicyInstant,
    pub cleanup_teardown_deadline: PolicyInstant,
    pub offline_teardown_deadline: PolicyInstant,
    pub bootstrap_phase_deadline: PolicyInstant,
    pub escalate_after_probe: u32,
    pub escalate_after_restore: u32,
    pub backoff: BackoffTable,
}

/// The documented default recovery curve: 500 ms doubling to a 30 s ceiling,
/// exponent cap 6, jitter span 20 %.
pub open spec fn default_recovery_curve() -> BackoffParams {
    BackoffParams {
        base_delay: 500_000_000,
        max_delay: 30_000_000_000,
        exponent_cap: 6,
        jitter_ppm: 200_000,
    }
}

/// The documented default teardown curve: 100 ms doubling to a 2 s ceiling,
/// exponent cap 4, jitter span 20 %.
pub open spec fn default_teardown_curve() -> BackoffParams {
    BackoffParams {
        base_delay: 100_000_000,
        max_delay: 2_000_000_000,
        exponent_cap: 4,
        jitter_ppm: 200_000,
    }
}

/// The documented defaults.
pub open spec fn default_policy_config() -> PolicyConfig {
    PolicyConfig {
        offline_grace: 400_000_000,
        background_reconnect_after: 60_000_000_000,
        shutdown_deadline: 10_000_000_000,
        cleanup_teardown_deadline: 10_000_000_000,
        offline_teardown_deadline: 10_000_000_000,
        bootstrap_phase_deadline: 5_000_000_000,
        escalate_after_probe: 2,
        escalate_after_restore: 2,
        backoff: BackoffTable {
            probe: default_recovery_curve(),
            restore: default_recovery_curve(),
            reconnect: default_recovery_curve(),
            teardown: default_teardown_curve(),
        },
    }
}

impl PolicyConfig {
    /// The documented defaults.
    pub fn defaults() -> (c: PolicyConfig)
        ensures
            c == default_policy_config(),
    {
        let curve = BackoffParams {
            base_delay: 500 * NANOS_PER_MILLI,
            max_delay: 30 * NANOS_PER_SEC,
            exponent_cap: 6,
            jitter_ppm: 200_000,
        };
        let teardown = BackoffParams {
            base_delay: 100 * NANOS_PER_MILLI,
            max_delay: 2 * NANOS_PER_SEC,
            exponent_cap: 4,
            jitter_ppm: 200_000,
        };
        PolicyConfig {
            offline_grace: 400 * NANOS_PER_MILLI,
            background_reconnect_after: 60 * NANOS_PER_SEC,
            shutdown_deadline: 10 * NANOS_PER_SEC,
            cleanup_teardown_deadline: 10 * NANOS_PER_SEC,
            offline_teardown_deadline: 10 * NANOS_PER_SEC,
            bootstrap_phase_deadline: 5 * NANOS_PER_SEC,
            escalate_after_probe: 2,
            escalate_after_restore: 2,
            backoff: BackoffTable {
                probe: curve,
                restore: curve,
                reconnect: curve,
                teardown,
            },
        }
    }
}


// ---------------------------------------------------------------------------
// Translation models: one row group per input, rows top to bottom
// ---------------------------------------------------------------------------

/// The recovery strength of the effect occupying the execution slot.
pub open spec fn executing_strength(e: ExecutionState) -> Option<RecoveryStrength> {
    match e {
        ExecutionState::Probing => Some(RecoveryStrength::Probe),
        ExecutionState::Restoring => Some(RecoveryStrength::Restore),
        ExecutionState::Reconnecting => Some(RecoveryStrength::Reconnect),
        _ => None,
    }
}

/// The pending intent already covers work of strength `s`.
pub open spec fn pending_covers(view: PolicyModel, s: RecoveryStrength) -> bool {
    match intent_strength(view.recovery_intent) {
        Some(c) => strength_rank(c) >= strength_rank(s),
        None => false,
    }
}

/// The running recovery effect is weaker than `s`.
pub open spec fn running_weaker(view: PolicyModel, s: RecoveryStrength) -> bool {
    match executing_strength(view.execution) {
        Some(r) => strength_rank(r) < strength_rank(s),
        None => false,
    }
}

/// Require recovery work of at least strength `s`: coalesced when the pending
/// intent already covers it; otherwise requested, and a weaker running
/// recovery effect is preempted after its signaling attempts are fenced.
pub open spec fn request_at_least(view: PolicyModel, d: DecisionModel, s: RecoveryStrength) -> DecisionModel {
    if pending_covers(view, s) {
        d
    } else {
        let d1 = d.m(MachineInput::RecoveryIntent(request_input_of(s)));
        if running_weaker(view, s) {
            d1.cancel(CancelReason::PreemptedByStronger).signal(
                SignalingDirective::InvalidateConnectionAttempts,
            )
        } else {
            d1
        }
    }
}

/// How long the app stayed in the background: the platform's observation when
/// present, else the time since the supervisor stamped background entry.
pub open spec fn background_elapsed(view: PolicyModel, observed: Option<PolicyInstant>, now: PolicyInstant) -> PolicyInstant {
    match observed {
        Some(d) => d,
        None => match view.background_entered_at {
            Some(t) => now.saturating_sub(t),
            None => 0,
        },
    }
}

pub open spec fn wake_recovery() -> GateTrigger {
    GateTrigger::Wake { domain: RetryDomain::Recovery }
}

/// `AppEnteredForeground`.
pub open spec fn foreground_model(view: PolicyModel, observed: Option<PolicyInstant>, now: PolicyInstant, config: PolicyConfig) -> DecisionModel {
    if view.recovery_mode != RecoveryModeState::Active {
        DecisionModel::advancing().m(MachineInput::AppPhase(AppPhaseInput::EnterForeground))
    } else {
        match view.app_phase {
            AppPhaseState::Foreground => DecisionModel::none(),
            AppPhaseState::Background => {
                let long = background_elapsed(view, observed, now)
                    >= config.background_reconnect_after;
                let d0 = DecisionModel::advancing().m(
                    MachineInput::AppPhase(AppPhaseInput::EnterForeground),
                );
                let d1 = if long {
                    request_at_least(view, d0, RecoveryStrength::Reconnect).signal(
                        SignalingDirective::SuppressAutoReconnect,
                    )
                } else {
                    request_at_least(view, d0, RecoveryStrength::Probe).signal(
                        SignalingDirective::ResumeAutoReconnect,
                    )
                };
                d1.trigger(wake_recovery())
            },
            AppPhaseState::Unknown => DecisionModel::advancing().m(
                MachineInput::AppPhase(AppPhaseInput::EnterForeground),
            ).trigger(wake_recovery()),
        }
    }
}

/// `AppEnteredBackground`.
pub open spec fn background_model(view: PolicyModel) -> DecisionModel {
    if view.app_phase == AppPhaseState::Background {
        DecisionModel::none()
    } else {
        DecisionModel::advancing().m(MachineInput::AppPhase(AppPhaseInput::EnterBackground)).signal(
            SignalingDirective::SuppressAutoReconnect,
        )
    }
}

/// A session generation is newer than the committed one.
pub open spec fn session_is_newer(view: PolicyModel, generation: Generation) -> bool {
    match view.committed_session_generation {
        Some(c) => generation > c,
        None => true,
    }
}

/// `SessionActivated`.
pub open spec fn session_activated_model(view: PolicyModel, generation: Generation) -> DecisionModel {
    if !session_is_newer(view, generation) {
        DecisionModel::none()
    } else {
        let d0 = DecisionModel::advancing().m(
            MachineInput::RecoveryMode(RecoveryModeInput::SessionActivated),
        );
        let d1 = if view.recovery_intent != RecoveryIntentState::Idle {
            d0.m(MachineInput::RecoveryIntent(RecoveryIntentInput::SupersedeRecovery))
        } else {
            d0
        };
        let d2 = if !live_outside_teardown(view) {
            d1.m(MachineInput::RecoveryIntent(RecoveryIntentInput::RequestRestore))
        } else {
            d1
        };
        d2.trigger(
            GateTrigger::ClearMask {
                domain: RetryDomain::Recovery,
                trigger: TriggerClass::SessionActivated,
            },
        )
    }
}

/// A snapshot is accepted by lexicographic `(epoch, sequence)` order.
pub open spec fn snapshot_is_accepted(last: Option<AcceptedSnapshot>, epoch: u64, sequence: u64) -> bool {
    match last {
        None => true,
        Some(l) => epoch > l.source_epoch || (epoch == l.source_epoch && sequence > l.sequence),
    }
}

/// An accepted snapshot is material: its semantic path differs, or its route
/// differs while `Online`.
pub open spec fn snapshot_is_material(last: Option<AcceptedSnapshot>, path: SemanticPath, route: u64) -> bool {
    match last {
        None => true,
        Some(l) => l.semantic_path != path || (path == SemanticPath::Online && l.route_fingerprint
            != route),
    }
}

/// Leaving a candidate or offline path supersedes a pending disconnect and
/// recovers a running one.
pub open spec fn abandon_disconnect(view: PolicyModel, d: DecisionModel) -> DecisionModel {
    let d1 = if view.offline_work == OfflineWorkState::DisconnectPending {
        d.m(MachineInput::OfflineWork(OfflineWorkInput::SupersedeDisconnect))
    } else {
        d
    };
    if view.execution == ExecutionState::Disconnecting {
        d1.cancel(CancelReason::PathRecovered)
    } else {
        d1
    }
}

/// `NetworkSnapshot`.
pub open spec fn snapshot_model(
    view: PolicyModel,
    epoch: u64,
    sequence: u64,
    path: SemanticPath,
    route: u64,
    now: PolicyInstant,
    config: PolicyConfig,
) -> DecisionModel {
    if !snapshot_is_accepted(view.last_snapshot, epoch, sequence) {
        DecisionModel::none()
    } else if !snapshot_is_material(view.last_snapshot, path, route) {
        DecisionModel::none()
    } else {
        match path {
            SemanticPath::Online => {
                let may_derive = view.recovery_mode == RecoveryModeState::Active
                    && view.recovery_intent == RecoveryIntentState::Idle;
                if view.network_path == NetworkPathState::Online {
                    let d = DecisionModel::advancing();
                    let d1 = if may_derive && !live_outside_teardown(view) {
                        d.m(MachineInput::RecoveryIntent(RecoveryIntentInput::RequestRestore))
                    } else {
                        d
                    };
                    d1.trigger(wake_recovery())
                } else {
                    let d = abandon_disconnect(
                        view,
                        DecisionModel::advancing().m(
                            MachineInput::NetworkPath(NetworkPathInput::ObserveOnline),
                        ).timer(TimerDirective::Cancel { id: TimerId::OfflineCandidate }),
                    );
                    let d1 = if may_derive {
                        d.m(
                            MachineInput::RecoveryIntent(
                                if live_outside_teardown(view) {
                                    RecoveryIntentInput::RequestProbe
                                } else {
                                    RecoveryIntentInput::RequestRestore
                                },
                            ),
                        )
                    } else {
                        d
                    };
                    d1.trigger(wake_recovery())
                }
            },
            SemanticPath::Offline => DecisionModel::advancing().m(
                MachineInput::NetworkPath(NetworkPathInput::ObserveOffline),
            ).timer(
                TimerDirective::Arm {
                    id: TimerId::OfflineCandidate,
                    category: TimerCategory::BusinessHysteresis,
                    deadline: now.saturating_add(config.offline_grace),
                },
            ),
            SemanticPath::Unknown => abandon_disconnect(
                view,
                DecisionModel::advancing().m(
                    MachineInput::NetworkPath(NetworkPathInput::ObserveUnknown),
                ).timer(TimerDirective::Cancel { id: TimerId::OfflineCandidate }),
            ),
        }
    }
}

/// The retry state of the recovery record, `Ready` when there is none.
pub open spec fn recovery_gate(view: PolicyModel) -> RetryGateState {
    match view.recovery_record {
        Some(r) => r.gate,
        None => RetryGateState::Ready,
    }
}

/// The recovery record's mask would release on `trigger`.
pub open spec fn recovery_would_clear(view: PolicyModel, trigger: TriggerClass) -> bool {
    match view.recovery_record {
        Some(r) => r.release_mask.would_clear_spec(trigger),
        None => false,
    }
}

/// `RecoveryRequested`.
pub open spec fn recovery_requested_model(view: PolicyModel, minimum: RecoveryStrength) -> DecisionModel {
    if view.recovery_mode != RecoveryModeState::Active {
        DecisionModel::none().stat(
            StatusRecord::RecoveryRejected {
                mode: view.recovery_mode,
                reason: RejectReason::LoggedOutOrTerminating,
            },
        )
    } else if !pending_covers(view, minimum) {
        request_at_least(view, DecisionModel::advancing(), minimum)
    } else {
        match recovery_gate(view) {
            RetryGateState::Ready => DecisionModel::none(),
            RetryGateState::BackingOff => DecisionModel::advancing().trigger(wake_recovery()),
            RetryGateState::Parked => if recovery_would_clear(view, TriggerClass::ExplicitCommand) {
                DecisionModel::advancing().trigger(
                    GateTrigger::ClearMask {
                        domain: RetryDomain::Recovery,
                        trigger: TriggerClass::ExplicitCommand,
                    },
                )
            } else {
                DecisionModel::none().stat(
                    StatusRecord::RecoveryRejected {
                        mode: view.recovery_mode,
                        reason: RejectReason::ParkedNoClearingTrigger,
                    },
                )
            },
        }
    }
}

/// `RecoveryPauseRequested`.
pub open spec fn pause_model(view: PolicyModel) -> DecisionModel {
    if is_recovery_execution(view.execution) {
        DecisionModel::advancing().cancel(CancelReason::Pause)
    } else if view.recovery_record is Some {
        DecisionModel::advancing().m(
            MachineInput::RetryGate {
                domain: RetryDomain::Recovery,
                input: RetryGateInput::ExplicitPause,
            },
        ).park(
            ParkDirective {
                domain: RetryDomain::Recovery,
                release_mask: ReleaseMask::single_spec(ParkCause::ExplicitPause),
            },
        ).timer(TimerDirective::Cancel { id: TimerId::FailureBackoff(RetryDomain::Recovery) })
    } else {
        DecisionModel::none()
    }
}

/// `RecoveryResumeRequested`.
pub open spec fn resume_model(view: PolicyModel) -> DecisionModel {
    if recovery_would_clear(view, TriggerClass::ExplicitResume) {
        DecisionModel::advancing().trigger(
            GateTrigger::ClearMask {
                domain: RetryDomain::Recovery,
                trigger: TriggerClass::ExplicitResume,
            },
        )
    } else {
        DecisionModel::none()
    }
}

/// `ConfigurationChanged`.
pub open spec fn configuration_changed_model() -> DecisionModel {
    DecisionModel::advancing().trigger(
        GateTrigger::ClearMask {
            domain: RetryDomain::Recovery,
            trigger: TriggerClass::ConfigurationChanged,
        },
    ).trigger(wake_recovery())
}

/// `CleanupRequested` (and `ShutdownRequested` as `AppTerminating`).
pub open spec fn cleanup_model(view: PolicyModel, reason: CleanupReason, now: PolicyInstant, config: PolicyConfig) -> DecisionModel {
    let d0 = DecisionModel::advancing();
    let d1 = match reason {
        CleanupReason::UserLogout => d0.m(
            MachineInput::RecoveryMode(RecoveryModeInput::UserLoggedOut),
        ),
        CleanupReason::AppTerminating => d0.m(
            MachineInput::RecoveryMode(RecoveryModeInput::AppTerminating),
        ).timer(
            TimerDirective::Arm {
                id: TimerId::ShutdownOverall,
                category: TimerCategory::FailureDeadline,
                deadline: now.saturating_add(config.shutdown_deadline),
            },
        ),
        _ => d0,
    };
    let d2 = if view.network_path == NetworkPathState::OfflineCandidate {
        d1.timer(TimerDirective::Cancel { id: TimerId::OfflineCandidate }).m(
            MachineInput::NetworkPath(NetworkPathInput::CommitOffline),
        )
    } else {
        d1
    };
    let d3 = d2.m(MachineInput::CleanupWork(CleanupWorkInput::RequestCleanup)).timer(
        TimerDirective::Arm {
            id: TimerId::TeardownOverall(TeardownDomain::Cleanup),
            category: TimerCategory::FailureDeadline,
            deadline: now.saturating_add(config.cleanup_teardown_deadline),
        },
    );
    let d4 = if view.recovery_intent != RecoveryIntentState::Idle {
        d3.m(MachineInput::RecoveryIntent(RecoveryIntentInput::SupersedeRecovery))
    } else {
        d3
    };
    let d5 = if view.offline_work == OfflineWorkState::DisconnectPending {
        d4.m(MachineInput::OfflineWork(OfflineWorkInput::SupersedeDisconnect))
    } else {
        d4
    };
    match view.effect {
        Some(e) => if e.kind != EffectKind::Cleanup {
            d5.cancel(CancelReason::PreemptedByCleanup)
        } else {
            d5
        },
        None => d5,
    }
}

/// `OfflineGraceExpired`.
pub open spec fn offline_grace_model(view: PolicyModel, candidate_id: u64, now: PolicyInstant, config: PolicyConfig) -> DecisionModel {
    let current = match view.offline_candidate {
        Some(c) => c.candidate_id == candidate_id,
        None => false,
    };
    if !current {
        DecisionModel::none()
    } else {
        DecisionModel::advancing().m(MachineInput::NetworkPath(NetworkPathInput::CommitOffline)).m(
            MachineInput::OfflineWork(OfflineWorkInput::RequestDisconnect),
        ).timer(
            TimerDirective::Arm {
                id: TimerId::TeardownOverall(TeardownDomain::OfflineDisconnect),
                category: TimerCategory::FailureDeadline,
                deadline: now.saturating_add(config.offline_teardown_deadline),
            },
        )
    }
}

/// `RetryDeadlineExpired`.
pub open spec fn retry_deadline_model(view: PolicyModel, domain: RetryDomain, work_revision: Revision, retry_id: u64) -> DecisionModel {
    let matches = match record_of(view, domain) {
        Some(r) => r.gate == RetryGateState::BackingOff && r.work_revision == work_revision
            && r.retry_id == retry_id,
        None => false,
    };
    if matches {
        DecisionModel::advancing().m(
            MachineInput::RetryGate { domain, input: RetryGateInput::RetryDeadlineExpired },
        )
    } else {
        DecisionModel::none()
    }
}

/// `BootstrapPhaseDeadlineExpired`.
pub open spec fn bootstrap_model(view: PolicyModel) -> DecisionModel {
    if view.profile == LifecycleProfile::Gated && view.app_phase == AppPhaseState::Unknown {
        DecisionModel::none().stat(StatusRecord::BootstrapDeadlineElapsed)
    } else {
        DecisionModel::none()
    }
}

/// `ShutdownDeadlineExpired`.
pub open spec fn shutdown_deadline_model(view: PolicyModel, deadline_id: u64) -> DecisionModel {
    let matches = view.recovery_mode == RecoveryModeState::Terminating && match view.shutdown_deadline {
        Some(s) => s.deadline_id == deadline_id,
        None => false,
    };
    if !matches {
        DecisionModel::none()
    } else {
        let d0 = DecisionModel::none();
        let d1 = if view.execution != ExecutionState::Idle {
            d0.cancel(CancelReason::Shutdown)
        } else {
            d0
        };
        let d2 = if view.cleanup_work == CleanupWorkState::CleanupPending {
            d1.m(MachineInput::CleanupWork(CleanupWorkInput::CompleteCleanup))
        } else {
            d1
        };
        let d3 = if view.offline_work == OfflineWorkState::DisconnectPending {
            d2.m(MachineInput::OfflineWork(OfflineWorkInput::CompleteDisconnect))
        } else {
            d2
        };
        d3.stat(StatusRecord::ShutdownAbandon).ending()
    }
}

/// The machine input that completes a teardown domain's obligation.
pub open spec fn teardown_complete_input(domain: TeardownDomain) -> MachineInput {
    match domain {
        TeardownDomain::Cleanup => MachineInput::CleanupWork(CleanupWorkInput::CompleteCleanup),
        TeardownDomain::OfflineDisconnect => MachineInput::OfflineWork(
            OfflineWorkInput::CompleteDisconnect,
        ),
    }
}

/// The retry domain that holds a teardown domain's record.
pub open spec fn teardown_retry_domain(domain: TeardownDomain) -> RetryDomain {
    match domain {
        TeardownDomain::Cleanup => RetryDomain::Cleanup,
        TeardownDomain::OfflineDisconnect => RetryDomain::Offline,
    }
}

/// The teardown domain's effect occupies the execution slot.
pub open spec fn teardown_running(view: PolicyModel, domain: TeardownDomain) -> bool {
    match domain {
        TeardownDomain::Cleanup => view.execution == ExecutionState::Cleaning,
        TeardownDomain::OfflineDisconnect => view.execution == ExecutionState::Disconnecting,
    }
}

/// The armed overall deadline of a teardown domain.
pub open spec fn teardown_deadline_of(view: PolicyModel, domain: TeardownDomain) -> Option<TeardownDeadline> {
    match domain {
        TeardownDomain::Cleanup => view.cleanup_teardown,
        TeardownDomain::OfflineDisconnect => view.offline_teardown,
    }
}

/// `TeardownDeadlineExpired`.
pub open spec fn teardown_deadline_model(view: PolicyModel, domain: TeardownDomain, deadline_id: u64) -> DecisionModel {
    let matches = !teardown_running(view, domain) && match teardown_deadline_of(view, domain) {
        Some(t) => t.deadline_id == deadline_id,
        None => false,
    } && match record_of(view, teardown_retry_domain(domain)) {
        Some(r) => r.gate == RetryGateState::BackingOff,
        None => false,
    };
    if matches {
        DecisionModel::advancing().m(teardown_complete_input(domain)).timer(
            TimerDirective::Cancel { id: TimerId::TeardownOverall(domain) },
        )
    } else {
        DecisionModel::none()
    }
}

/// `SignalingGenerationCommitted`.
pub open spec fn signaling_committed_model(view: PolicyModel, generation: Generation, origin: SignalingOrigin) -> DecisionModel {
    let is_current = match origin {
        SignalingOrigin::CurrentEffect { action_id } => match view.effect {
            Some(e) => e.action_id == action_id,
            None => false,
        },
        SignalingOrigin::External => false,
    };
    if is_current {
        DecisionModel::advancing()
    } else if match view.live_signaling_generation {
        Some(cur) => generation > cur,
        None => true,
    } {
        DecisionModel::advancing().trigger(wake_recovery())
    } else {
        DecisionModel::none()
    }
}

/// The loss is the covered output of a running reconnect effect (which tears
/// down the old socket itself); a remote reset stays material.
pub open spec fn loss_covered_by_reconnect(view: PolicyModel, cause: SignalingLostCause) -> bool {
    cause != SignalingLostCause::RemoteReset && match view.effect {
        Some(e) => e.kind == EffectKind::Reconnect,
        None => false,
    }
}

/// `SignalingGenerationLost`.
pub open spec fn signaling_lost_model(view: PolicyModel, generation: Generation, cause: SignalingLostCause) -> DecisionModel {
    if view.live_signaling_generation != Some(generation) {
        DecisionModel::none()
    } else if loss_covered_by_reconnect(view, cause) {
        DecisionModel::advancing()
    } else if view.recovery_mode == RecoveryModeState::Active && view.cleanup_work
        == CleanupWorkState::Idle && view.execution != ExecutionState::Cleaning {
        DecisionModel::advancing().m(
            MachineInput::RecoveryIntent(RecoveryIntentInput::RequestRestore),
        ).trigger(wake_recovery())
    } else {
        DecisionModel::advancing()
    }
}

/// The retry domain of an effect kind.
pub open spec fn retry_domain_of(kind: EffectKind) -> RetryDomain {
    match kind {
        EffectKind::Probe | EffectKind::Restore | EffectKind::Reconnect => RetryDomain::Recovery,
        EffectKind::Cleanup => RetryDomain::Cleanup,
        EffectKind::ConfirmedOfflineDisconnect => RetryDomain::Offline,
    }
}

/// The recovery strength of an effect kind; teardown kinds map defensively to
/// the strongest.
pub open spec fn strength_of_kind(kind: EffectKind) -> RecoveryStrength {
    match kind {
        EffectKind::Probe => RecoveryStrength::Probe,
        EffectKind::Restore => RecoveryStrength::Restore,
        _ => RecoveryStrength::Reconnect,
    }
}

/// The obligation an effect served is still current: its record is present
/// and not newer than the effect's captured revision.
pub open spec fn still_current(view: PolicyModel, domain: RetryDomain, policy_revision: Revision) -> bool {
    match record_of(view, domain) {
        Some(r) => r.work_revision <= policy_revision,
        None => false,
    }
}

/// A record exists at or before `policy_revision`.
pub open spec fn record_covered(r: Option<PendingRecord>, policy_revision: Revision) -> bool {
    match r {
        Some(rec) => rec.work_revision <= policy_revision,
        None => false,
    }
}

/// Success acknowledgement: only the current pending obligation covered by
/// the effect kind and not newer than its captured revision.
pub open spec fn acknowledge_model(view: PolicyModel, kind: EffectKind, policy_revision: Revision, d: DecisionModel) -> DecisionModel {
    match kind {
        EffectKind::Probe | EffectKind::Restore | EffectKind::Reconnect => match intent_strength(
            view.recovery_intent,
        ) {
            Some(c) => if strength_rank(strength_of_kind(kind)) >= strength_rank(c)
                && record_covered(view.recovery_record, policy_revision) {
                d.m(MachineInput::RecoveryIntent(complete_input_of(c)))
            } else {
                d
            },
            None => d,
        },
        EffectKind::ConfirmedOfflineDisconnect => if record_covered(
            view.offline_record,
            policy_revision,
        ) {
            d.m(MachineInput::OfflineWork(OfflineWorkInput::CompleteDisconnect))
        } else {
            d
        },
        EffectKind::Cleanup => {
            let d1 = if record_covered(view.cleanup_record, policy_revision) {
                d.m(MachineInput::CleanupWork(CleanupWorkInput::CompleteCleanup))
            } else {
                d
            };
            if record_covered(view.offline_record, policy_revision) {
                d1.m(MachineInput::OfflineWork(OfflineWorkInput::SupersedeDisconnect))
            } else {
                d1
            }
        },
    }
}

/// The completion of a teardown kind's obligation; nothing for other kinds.
pub open spec fn abandon_model(kind: EffectKind, d: DecisionModel) -> DecisionModel {
    match kind {
        EffectKind::Cleanup => d.m(MachineInput::CleanupWork(CleanupWorkInput::CompleteCleanup)),
        EffectKind::ConfirmedOfflineDisconnect => d.m(
            MachineInput::OfflineWork(OfflineWorkInput::CompleteDisconnect),
        ),
        _ => d,
    }
}

/// The completion is processed at or after the domain's teardown deadline.
pub open spec fn past_teardown(view: PolicyModel, domain: RetryDomain, now: PolicyInstant) -> bool {
    match domain {
        RetryDomain::Cleanup => match view.cleanup_teardown {
            Some(t) => now >= t.deadline,
            None => false,
        },
        RetryDomain::Offline => match view.offline_teardown {
            Some(t) => now >= t.deadline,
            None => false,
        },
        RetryDomain::Recovery => false,
    }
}

/// The attempt number of a failure: one past the record's consecutive failures.
pub open spec fn failure_attempt(view: PolicyModel, domain: RetryDomain) -> u32 {
    let a = match record_of(view, domain) {
        Some(r) => r.attempt,
        None => 0,
    };
    a.saturating_add(1)
}

/// The classification context of a failure.
pub open spec fn failure_context(view: PolicyModel, domain: RetryDomain, now: PolicyInstant, config: PolicyConfig) -> ClassifyContext {
    ClassifyContext {
        attempt: failure_attempt(view, domain),
        path_online: view.network_path == NetworkPathState::Online,
        mode_terminating: view.recovery_mode == RecoveryModeState::Terminating,
        past_teardown_deadline: past_teardown(view, domain, now),
        escalate_after_probe: config.escalate_after_probe,
        escalate_after_restore: config.escalate_after_restore,
    }
}

/// The verdict a failure receives.
pub open spec fn failure_verdict(view: PolicyModel, kind: EffectKind, diagnosis: EffectDiagnosis, now: PolicyInstant, config: PolicyConfig) -> Verdict {
    classify_spec(
        kind,
        tag_of(diagnosis),
        failure_context(view, retry_domain_of(kind), now, config),
    )
}

/// A failure's consequences for a verdict, with `unit` the jitter sample drawn
/// when a backoff is armed.
pub open spec fn failure_model(
    view: PolicyModel,
    kind: EffectKind,
    diagnosis: EffectDiagnosis,
    now: PolicyInstant,
    config: PolicyConfig,
    unit: u64,
    d: DecisionModel,
) -> DecisionModel {
    let domain = retry_domain_of(kind);
    match failure_verdict(view, kind, diagnosis, now, config) {
        Verdict::Retry => {
            let retry_after = match retry_after_of(diagnosis) {
                Some(r) => r,
                None => 0,
            };
            d.m(MachineInput::RetryGate { domain, input: RetryGateInput::RetryableFailure }).timer(
                TimerDirective::Arm {
                    id: TimerId::FailureBackoff(domain),
                    category: TimerCategory::FailureBackoff,
                    deadline: backoff_deadline(
                        now,
                        failure_attempt(view, domain),
                        curve_for(config.backoff, kind),
                        retry_after,
                        unit,
                    ),
                },
            )
        },
        Verdict::Escalate { to } => d.m(
            MachineInput::RecoveryIntent(request_input_of(strength_of_kind(to))),
        ),
        Verdict::Park { release_mask } => d.m(
            MachineInput::RetryGate { domain, input: RetryGateInput::TerminalFailure },
        ).park(ParkDirective { domain, release_mask }),
        Verdict::Abandon => abandon_model(kind, d),
    }
}

/// An abort's consequences by cause.
pub open spec fn abort_model(view: PolicyModel, kind: EffectKind, cause: AbortCause, d: DecisionModel) -> DecisionModel {
    let domain = retry_domain_of(kind);
    match cause {
        AbortCause::SupervisorCancellation => d,
        AbortCause::PanicOrContractViolation | AbortCause::Unclassified => if is_teardown_kind(kind)
            && view.recovery_mode == RecoveryModeState::Terminating {
            abandon_model(kind, d)
        } else {
            d.m(MachineInput::RetryGate { domain, input: RetryGateInput::TerminalFailure }).park(
                ParkDirective {
                    domain,
                    release_mask: ReleaseMask::single_spec(ParkCause::InvariantViolation),
                },
            )
        },
        AbortCause::RuntimeShutdown => if is_teardown_kind(kind) {
            abandon_model(kind, d)
        } else {
            d
        },
    }
}

/// A recorded pause cancellation applies its deferred explicit pause.
pub open spec fn deferred_pause_model(view: PolicyModel, domain: RetryDomain, d: DecisionModel) -> DecisionModel {
    let paused = match view.effect {
        Some(e) => e.cancel_reason == Some(CancelReason::Pause),
        None => false,
    };
    if paused {
        d.m(MachineInput::RetryGate { domain, input: RetryGateInput::ExplicitPause }).park(
            ParkDirective {
                domain,
                release_mask: ReleaseMask::single_spec(ParkCause::ExplicitPause),
            },
        )
    } else {
        d
    }
}

/// The completion matches the running effect's identity.
pub open spec fn completion_matches(view: PolicyModel, action_id: u64, kind: EffectKind, policy_revision: Revision) -> bool {
    match view.effect {
        Some(e) => e.action_id == action_id && e.kind == kind && e.captured_revision
            == policy_revision,
        None => false,
    }
}

/// `EffectCompleted`; it never allocates a revision.
pub open spec fn effect_completed_model(
    view: PolicyModel,
    action_id: u64,
    kind: EffectKind,
    policy_revision: Revision,
    outcome: EffectOutcome,
    now: PolicyInstant,
    config: PolicyConfig,
    unit: u64,
) -> DecisionModel {
    if !completion_matches(view, action_id, kind, policy_revision) {
        DecisionModel::none()
    } else {
        let domain = retry_domain_of(kind);
        let d = DecisionModel::none();
        match outcome {
            EffectOutcome::Failed { diagnosis } => {
                let d1 = d.m(MachineInput::Execution(ExecutionInput::Failed));
                if still_current(view, domain, policy_revision) {
                    deferred_pause_model(
                        view,
                        domain,
                        failure_model(view, kind, diagnosis, now, config, unit, d1),
                    )
                } else {
                    d1
                }
            },
            EffectOutcome::Cancelled => deferred_pause_model(
                view,
                domain,
                d.m(MachineInput::Execution(ExecutionInput::Cancelled)),
            ),
            EffectOutcome::Aborted { cause } => {
                let d1 = d.m(MachineInput::Execution(ExecutionInput::Cancelled));
                if still_current(view, domain, policy_revision) {
                    deferred_pause_model(view, domain, abort_model(view, kind, cause, d1))
                } else {
                    d1
                }
            },
            _ => acknowledge_model(
                view,
                kind,
                policy_revision,
                d.m(MachineInput::Execution(ExecutionInput::Succeeded)),
            ),
        }
    }
}

/// Translation draws entropy exactly when a still-current failure of the
/// running effect is ruled `Retry` and arms a backoff deadline.
pub open spec fn draws_entropy(view: PolicyModel, input: Input, now: PolicyInstant, config: PolicyConfig) -> bool {
    match input {
        Input::EffectCompleted { action_id, kind, policy_revision, outcome } => match outcome {
            EffectOutcome::Failed { diagnosis } => completion_matches(
                view,
                action_id,
                kind,
                policy_revision,
            ) && still_current(view, retry_domain_of(kind), policy_revision) && failure_verdict(
                view,
                kind,
                diagnosis,
                now,
                config,
            ) == Verdict::Retry,
            _ => false,
        },
        _ => false,
    }
}

/// The jitter sample a translation uses: the next sample of `entropy` when it
/// draws, and zero (unused) otherwise.
pub open spec fn translation_sample<E: EntropySource>(
    view: PolicyModel,
    input: Input,
    now: PolicyInstant,
    config: PolicyConfig,
    entropy: E,
) -> u64 {
    if draws_entropy(view, input, now, config) {
        entropy.next_spec().0
    } else {
        0
    }
}

/// The entropy source after a translation: advanced by exactly one draw when
/// it draws, and untouched otherwise.
pub open spec fn entropy_after_translation<E: EntropySource>(
    view: PolicyModel,
    input: Input,
    now: PolicyInstant,
    config: PolicyConfig,
    entropy: E,
) -> E {
    if draws_entropy(view, input, now, config) {
        entropy.next_spec().1
    } else {
        entropy
    }
}

/// The decision for one input, with `unit` the jitter sample drawn when a
/// backoff is armed.
pub open spec fn translate_model(view: PolicyModel, input: Input, now: PolicyInstant, config: PolicyConfig, unit: u64) -> DecisionModel {
    match input {
        Input::AppEnteredForeground { observed_background_duration } => foreground_model(
            view,
            observed_background_duration,
            now,
            config,
        ),
        Input::AppEnteredBackground => background_model(view),
        Input::SessionActivated { session_generation } => session_activated_model(
            view,
            session_generation,
        ),
        Input::NetworkSnapshot { source_epoch, sequence, semantic_path, route_fingerprint } =>
            snapshot_model(
            view,
            source_epoch,
            sequence,
            semantic_path,
            route_fingerprint,
            now,
            config,
        ),
        Input::RecoveryRequested { minimum, .. } => recovery_requested_model(view, minimum),
        Input::RecoveryPauseRequested { .. } => pause_model(view),
        Input::RecoveryResumeRequested { .. } => resume_model(view),
        Input::CleanupRequested { reason } => cleanup_model(view, reason, now, config),
        Input::ConfigurationChanged { .. } => configuration_changed_model(),
        Input::OfflineGraceExpired { candidate_id } => offline_grace_model(
            view,
            candidate_id,
            now,
            config,
        ),
        Input::RetryDeadlineExpired { domain, work_revision, retry_id } => retry_deadline_model(
            view,
            domain,
            work_revision,
            retry_id,
        ),
        Input::BootstrapPhaseDeadlineExpired => bootstrap_model(view),
        Input::ShutdownDeadlineExpired { deadline_id } => shutdown_deadline_model(
            view,
            deadline_id,
        ),
        Input::TeardownDeadlineExpired { domain, deadline_id } => teardown_deadline_model(
            view,
            domain,
            deadline_id,
        ),
        Input::SignalingGenerationCommitted { generation, origin } => signaling_committed_model(
            view,
            generation,
            origin,
        ),
        Input::SignalingGenerationLost { generation, cause } => signaling_lost_model(
            view,
            generation,
            cause,
        ),
        Input::EffectCompleted { action_id, kind, policy_revision, outcome } =>
            effect_completed_model(
            view,
            action_id,
            kind,
            policy_revision,
            outcome,
            now,
            config,
            unit,
        ),
        Input::ShutdownRequested => cleanup_model(view, CleanupReason::AppTerminating, now, config),
    }
}

// ---------------------------------------------------------------------------
// The reducer
// ---------------------------------------------------------------------------

fn executing_recovery_strength(e: ExecutionState) -> (s: Option<RecoveryStrength>)
    ensures
        s == executing_strength(e),
{
    match e {
        ExecutionState::Probing => Some(RecoveryStrength::Probe),
        ExecutionState::Restoring => Some(RecoveryStrength::Restore),
        ExecutionState::Reconnecting => Some(RecoveryStrength::Reconnect),
        _ => None,
    }
}

fn require_strength(view: &PolicyView, d: &mut Decision, s: RecoveryStrength)
    ensures
        final(d)@ == request_at_least(view@, old(d)@, s),
{
    let covered = match view.current_recovery_strength() {
        Some(c) => c.rank() >= s.rank(),
        None => false,
    };
    if !covered {
        d.machine(MachineInput::RecoveryIntent(s.request_input()));
        let weaker = match executing_recovery_strength(view.execution) {
            Some(r) => r.rank() < s.rank(),
            None => false,
        };
        if weaker {
            d.cancels.push(CancelReason::PreemptedByStronger);
            d.signals.push(SignalingDirective::InvalidateConnectionAttempts);
        }
    }
}

fn translate_foreground(
    view: &PolicyView,
    observed: Option<PolicyInstant>,
    now: PolicyInstant,
    config: &PolicyConfig,
) -> (d: Decision)
    ensures
        d@ == foreground_model(view@, observed, now, *config),
{
    if view.recovery_mode != RecoveryModeState::Active {
        let mut d = Decision::advancing();
        d.machine(MachineInput::AppPhase(AppPhaseInput::EnterForeground));
        return d;
    }
    match view.app_phase {
        AppPhaseState::Foreground => Decision::none(),
        AppPhaseState::Background => {
            let mut d = Decision::advancing();
            d.machine(MachineInput::AppPhase(AppPhaseInput::EnterForeground));
            let elapsed = match observed {
                Some(o) => o,
                None => match view.background_entered_at {
                    Some(t) => now.saturating_sub(t),
                    None => 0,
                },
            };
            if elapsed >= config.background_reconnect_after {
                require_strength(view, &mut d, RecoveryStrength::Reconnect);
                d.signals.push(SignalingDirective::SuppressAutoReconnect);
            } else {
                require_strength(view, &mut d, RecoveryStrength::Probe);
                d.signals.push(SignalingDirective::ResumeAutoReconnect);
            }
            d.gate_triggers.push(GateTrigger::Wake { domain: RetryDomain::Recovery });
            d
        },
        AppPhaseState::Unknown => {
            let mut d = Decision::advancing();
            d.machine(MachineInput::AppPhase(AppPhaseInput::EnterForeground));
            d.gate_triggers.push(GateTrigger::Wake { domain: RetryDomain::Recovery });
            d
        },
    }
}

fn translate_background(view: &PolicyView) -> (d: Decision)
    ensures
        d@ == background_model(view@),
{
    if view.app_phase == AppPhaseState::Background {
        return Decision::none();
    }
    let mut d = Decision::advancing();
    d.machine(MachineInput::AppPhase(AppPhaseInput::EnterBackground));
    d.signals.push(SignalingDirective::SuppressAutoReconnect);
    d
}

fn translate_session_activated(view: &PolicyView, generation: Generation) -> (d: Decision)
    ensures
        d@ == session_activated_model(view@, generation),
{
    let newer = match view.committed_session_generation {
        Some(c) => generation > c,
        None => true,
    };
    if !newer {
        return Decision::none();
    }
    let mut d = Decision::advancing();
    d.machine(MachineInput::RecoveryMode(RecoveryModeInput::SessionActivated));
    if view.recovery_intent != RecoveryIntentState::Idle {
        d.machine(MachineInput::RecoveryIntent(RecoveryIntentInput::SupersedeRecovery));
    }
    if !view.live_signaling_outside_teardown() {
        d.machine(MachineInput::RecoveryIntent(RecoveryIntentInput::RequestRestore));
    }
    d.gate_triggers.push(
        GateTrigger::ClearMask {
            domain: RetryDomain::Recovery,
            trigger: TriggerClass::SessionActivated,
        },
    );
    d
}

fn abandon_disconnect_into(view: &PolicyView, d: &mut Decision)
    ensures
        final(d)@ == abandon_disconnect(view@, old(d)@),
{
    if view.offline_work == OfflineWorkState::DisconnectPending {
        d.machine(MachineInput::OfflineWork(OfflineWorkInput::SupersedeDisconnect));
    }
    if view.execution == ExecutionState::Disconnecting {
        d.cancels.push(CancelReason::PathRecovered);
    }
}

fn translate_snapshot(
    view: &PolicyView,
    epoch: u64,
    sequence: u64,
    path: SemanticPath,
    route: u64,
    now: PolicyInstant,
    config: &PolicyConfig,
) -> (d: Decision)
    ensures
        d@ == snapshot_model(view@, epoch, sequence, path, route, now, *config),
{
    let (accepted, material) = match view.last_snapshot {
        None => (true, true),
        Some(l) => (
            epoch > l.source_epoch || (epoch == l.source_epoch && sequence > l.sequence),
            l.semantic_path != path || (path == SemanticPath::Online && l.route_fingerprint
                != route),
        ),
    };
    if !accepted || !material {
        return Decision::none();
    }
    match path {
        SemanticPath::Online => {
            let may_derive = view.recovery_mode == RecoveryModeState::Active
                && view.recovery_intent == RecoveryIntentState::Idle;
            let live = view.live_signaling_outside_teardown();
            let mut d = Decision::advancing();
            if view.network_path == NetworkPathState::Online {
                if may_derive && !live {
                    d.machine(MachineInput::RecoveryIntent(RecoveryIntentInput::RequestRestore));
                }
            } else {
                d.machine(MachineInput::NetworkPath(NetworkPathInput::ObserveOnline));
                d.timers.push(TimerDirective::Cancel { id: TimerId::OfflineCandidate });
                abandon_disconnect_into(view, &mut d);
                if may_derive {
                    let derived = if live {
                        RecoveryIntentInput::RequestProbe
                    } else {
                        RecoveryIntentInput::RequestRestore
                    };
                    d.machine(MachineInput::RecoveryIntent(derived));
                }
            }
            d.gate_triggers.push(GateTrigger::Wake { domain: RetryDomain::Recovery });
            d
        },
        SemanticPath::Offline => {
            let mut d = Decision::advancing();
            d.machine(MachineInput::NetworkPath(NetworkPathInput::ObserveOffline));
            d.timers.push(
                TimerDirective::Arm {
                    id: TimerId::OfflineCandidate,
                    category: TimerCategory::BusinessHysteresis,
                    deadline: now.saturating_add(config.offline_grace),
                },
            );
            d
        },
        SemanticPath::Unknown => {
            let mut d = Decision::advancing();
            d.machine(MachineInput::NetworkPath(NetworkPathInput::ObserveUnknown));
            d.timers.push(TimerDirective::Cancel { id: TimerId::OfflineCandidate });
            abandon_disconnect_into(view, &mut d);
            d
        },
    }
}

fn translate_recovery_requested(view: &PolicyView, minimum: RecoveryStrength) -> (d: Decision)
    ensures
        d@ == recovery_requested_model(view@, minimum),
{
    if view.recovery_mode != RecoveryModeState::Active {
        let mut d = Decision::none();
        d.status.push(
            StatusRecord::RecoveryRejected {
                mode: view.recovery_mode,
                reason: RejectReason::LoggedOutOrTerminating,
            },
        );
        return d;
    }
    let covered = match view.current_recovery_strength() {
        Some(c) => c.rank() >= minimum.rank(),
        None => false,
    };
    if !covered {
        let mut d = Decision::advancing();
        require_strength(view, &mut d, minimum);
        return d;
    }
    match view.recovery_record {
        None => Decision::none(),
        Some(r) => match r.gate {
            RetryGateState::Ready => Decision::none(),
            RetryGateState::BackingOff => {
                let mut d = Decision::advancing();
                d.gate_triggers.push(GateTrigger::Wake { domain: RetryDomain::Recovery });
                d
            },
            RetryGateState::Parked => {
                if r.release_mask.would_clear(TriggerClass::ExplicitCommand) {
                    let mut d = Decision::advancing();
                    d.gate_triggers.push(
                        GateTrigger::ClearMask {
                            domain: RetryDomain::Recovery,
                            trigger: TriggerClass::ExplicitCommand,
                        },
                    );
                    d
                } else {
                    let mut d = Decision::none();
                    d.status.push(
                        StatusRecord::RecoveryRejected {
                            mode: view.recovery_mode,
                            reason: RejectReason::ParkedNoClearingTrigger,
                        },
                    );
                    d
                }
            },
        },
    }
}

fn translate_pause(view: &PolicyView) -> (d: Decision)
    ensures
        d@ == pause_model(view@),
{
    if view.execution.is_recovery() {
        let mut d = Decision::advancing();
        d.cancels.push(CancelReason::Pause);
        d
    } else if view.recovery_record.is_some() {
        let mut d = Decision::advancing();
        d.machine(
            MachineInput::RetryGate {
                domain: RetryDomain::Recovery,
                input: RetryGateInput::ExplicitPause,
            },
        );
        d.parks.push(
            ParkDirective {
                domain: RetryDomain::Recovery,
                release_mask: ReleaseMask::single(ParkCause::ExplicitPause),
            },
        );
        d.timers.push(TimerDirective::Cancel { id: TimerId::FailureBackoff(RetryDomain::Recovery) });
        d
    } else {
        Decision::none()
    }
}

fn translate_resume(view: &PolicyView) -> (d: Decision)
    ensures
        d@ == resume_model(view@),
{
    let clears = match view.recovery_record {
        Some(r) => r.release_mask.would_clear(TriggerClass::ExplicitResume),
        None => false,
    };
    if clears {
        let mut d = Decision::advancing();
        d.gate_triggers.push(
            GateTrigger::ClearMask {
                domain: RetryDomain::Recovery,
                trigger: TriggerClass::ExplicitResume,
            },
        );
        d
    } else {
        Decision::none()
    }
}

fn translate_configuration_changed() -> (d: Decision)
    ensures
        d@ == configuration_changed_model(),
{
    let mut d = Decision::advancing();
    d.gate_triggers.push(
        GateTrigger::ClearMask {
            domain: RetryDomain::Recovery,
            trigger: TriggerClass::ConfigurationChanged,
        },
    );
    d.gate_triggers.push(GateTrigger::Wake { domain: RetryDomain::Recovery });
    d
}

fn translate_cleanup(
    view: &PolicyView,
    reason: CleanupReason,
    now: PolicyInstant,
    config: &PolicyConfig,
) -> (d: Decision)
    ensures
        d@ == cleanup_model(view@, reason, now, *config),
{
    let mut d = Decision::advancing();
    match reason {
        CleanupReason::UserLogout => {
            d.machine(MachineInput::RecoveryMode(RecoveryModeInput::UserLoggedOut));
        },
        CleanupReason::AppTerminating => {
            d.machine(MachineInput::RecoveryMode(RecoveryModeInput::AppTerminating));
            d.timers.push(
                TimerDirective::Arm {
                    id: TimerId::ShutdownOverall,
                    category: TimerCategory::FailureDeadline,
                    deadline: now.saturating_add(config.shutdown_deadline),
                },
            );
        },
        _ => {},
    }
    if view.network_path == NetworkPathState::OfflineCandidate {
        d.timers.push(TimerDirective::Cancel { id: TimerId::OfflineCandidate });
        d.machine(MachineInput::NetworkPath(NetworkPathInput::CommitOffline));
    }
    d.machine(MachineInput::CleanupWork(CleanupWorkInput::RequestCleanup));
    d.timers.push(
        TimerDirective::Arm {
            id: TimerId::TeardownOverall(TeardownDomain::Cleanup),
            category: TimerCategory::FailureDeadline,
            deadline: now.saturating_add(config.cleanup_teardown_deadline),
        },
    );
    if view.recovery_intent != RecoveryIntentState::Idle {
        d.machine(MachineInput::RecoveryIntent(RecoveryIntentInput::SupersedeRecovery));
    }
    if view.offline_work == OfflineWorkState::DisconnectPending {
        d.machine(MachineInput::OfflineWork(OfflineWorkInput::SupersedeDisconnect));
    }
    match view.effect {
        Some(e) => {
            if e.kind != EffectKind::Cleanup {
                d.cancels.push(CancelReason::PreemptedByCleanup);
            }
        },
        None => {},
    }
    d
}

fn translate_offline_grace_expired(
    view: &PolicyView,
    candidate_id: u64,
    now: PolicyInstant,
    config: &PolicyConfig,
) -> (d: Decision)
    ensures
        d@ == offline_grace_model(view@, candidate_id, now, *config),
{
    let current = match view.offline_candidate {
        Some(c) => c.candidate_id == candidate_id,
        None => false,
    };
    if !current {
        return Decision::none();
    }
    let mut d = Decision::advancing();
    d.machine(MachineInput::NetworkPath(NetworkPathInput::CommitOffline));
    d.machine(MachineInput::OfflineWork(OfflineWorkInput::RequestDisconnect));
    d.timers.push(
        TimerDirective::Arm {
            id: TimerId::TeardownOverall(TeardownDomain::OfflineDisconnect),
            category: TimerCategory::FailureDeadline,
            deadline: now.saturating_add(config.offline_teardown_deadline),
        },
    );
    d
}

fn translate_retry_deadline_expired(
    view: &PolicyView,
    domain: RetryDomain,
    work_revision: Revision,
    retry_id: u64,
) -> (d: Decision)
    ensures
        d@ == retry_deadline_model(view@, domain, work_revision, retry_id),
{
    let matches = match view.record(domain) {
        Some(r) => r.gate == RetryGateState::BackingOff && r.work_revision == work_revision
            && r.retry_id == retry_id,
        None => false,
    };
    if matches {
        let mut d = Decision::advancing();
        d.machine(MachineInput::RetryGate { domain, input: RetryGateInput::RetryDeadlineExpired });
        d
    } else {
        Decision::none()
    }
}

fn translate_bootstrap_deadline(view: &PolicyView) -> (d: Decision)
    ensures
        d@ == bootstrap_model(view@),
{
    let mut d = Decision::none();
    if view.profile == LifecycleProfile::Gated && view.app_phase == AppPhaseState::Unknown {
        d.status.push(StatusRecord::BootstrapDeadlineElapsed);
    }
    d
}

fn translate_shutdown_deadline(view: &PolicyView, deadline_id: u64) -> (d: Decision)
    ensures
        d@ == shutdown_deadline_model(view@, deadline_id),
{
    let matches = view.recovery_mode == RecoveryModeState::Terminating && match view.shutdown_deadline {
        Some(s) => s.deadline_id == deadline_id,
        None => false,
    };
    if !matches {
        return Decision::none();
    }
    let mut d = Decision::none();
    if view.execution != ExecutionState::Idle {
        d.cancels.push(CancelReason::Shutdown);
    }
    if view.cleanup_work == CleanupWorkState::CleanupPending {
        d.machine(MachineInput::CleanupWork(CleanupWorkInput::CompleteCleanup));
    }
    if view.offline_work == OfflineWorkState::DisconnectPending {
        d.machine(MachineInput::OfflineWork(OfflineWorkInput::CompleteDisconnect));
    }
    d.status.push(StatusRecord::ShutdownAbandon);
    d.terminate = true;
    d
}

fn translate_teardown_deadline(view: &PolicyView, domain: TeardownDomain, deadline_id: u64) -> (d: Decision)
    ensures
        d@ == teardown_deadline_model(view@, domain, deadline_id),
{
    let (running, deadline, record, complete) = match domain {
        TeardownDomain::Cleanup => (
            view.execution == ExecutionState::Cleaning,
            view.cleanup_teardown,
            view.cleanup_record,
            MachineInput::CleanupWork(CleanupWorkInput::CompleteCleanup),
        ),
        TeardownDomain::OfflineDisconnect => (
            view.execution == ExecutionState::Disconnecting,
            view.offline_teardown,
            view.offline_record,
            MachineInput::OfflineWork(OfflineWorkInput::CompleteDisconnect),
        ),
    };
    let armed = match deadline {
        Some(t) => t.deadline_id == deadline_id,
        None => false,
    };
    let backing_off = match record {
        Some(r) => r.gate == RetryGateState::BackingOff,
        None => false,
    };
    if !running && armed && backing_off {
        let mut d = Decision::advancing();
        d.machine(complete);
        d.timers.push(TimerDirective::Cancel { id: TimerId::TeardownOverall(domain) });
        d
    } else {
        Decision::none()
    }
}

fn translate_signaling_committed(view: &PolicyView, generation: Generation, origin: SignalingOrigin) -> (d: Decision)
    ensures
        d@ == signaling_committed_model(view@, generation, origin),
{
    let is_current = match origin {
        SignalingOrigin::CurrentEffect { action_id } => match view.effect {
            Some(e) => e.action_id == action_id,
            None => false,
        },
        SignalingOrigin::External => false,
    };
    if is_current {
        return Decision::advancing();
    }
    let newer = match view.live_signaling_generation {
        Some(cur) => generation > cur,
        None => true,
    };
    if newer {
        let mut d = Decision::advancing();
        d.gate_triggers.push(GateTrigger::Wake { domain: RetryDomain::Recovery });
        d
    } else {
        Decision::none()
    }
}

fn translate_signaling_lost(view: &PolicyView, generation: Generation, cause: SignalingLostCause) -> (d: Decision)
    ensures
        d@ == signaling_lost_model(view@, generation, cause),
{
    let live = match view.live_signaling_generation {
        Some(g) => g == generation,
        None => false,
    };
    if !live {
        return Decision::none();
    }
    let covered = cause != SignalingLostCause::RemoteReset && match view.effect {
        Some(e) => e.kind == EffectKind::Reconnect,
        None => false,
    };
    if covered {
        return Decision::advancing();
    }
    if view.recovery_mode == RecoveryModeState::Active && view.cleanup_work == CleanupWorkState::Idle
        && view.execution != ExecutionState::Cleaning {
        let mut d = Decision::advancing();
        d.machine(MachineInput::RecoveryIntent(RecoveryIntentInput::RequestRestore));
        d.gate_triggers.push(GateTrigger::Wake { domain: RetryDomain::Recovery });
        d
    } else {
        Decision::advancing()
    }
}

fn retry_domain_for(kind: EffectKind) -> (r: RetryDomain)
    ensures
        r == retry_domain_of(kind),
{
    match kind {
        EffectKind::Probe | EffectKind::Restore | EffectKind::Reconnect => RetryDomain::Recovery,
        EffectKind::Cleanup => RetryDomain::Cleanup,
        EffectKind::ConfirmedOfflineDisconnect => RetryDomain::Offline,
    }
}

fn recovery_strength_of(kind: EffectKind) -> (s: RecoveryStrength)
    ensures
        s == strength_of_kind(kind),
{
    match kind {
        EffectKind::Probe => RecoveryStrength::Probe,
        EffectKind::Restore => RecoveryStrength::Restore,
        _ => RecoveryStrength::Reconnect,
    }
}

fn record_covers(r: Option<PendingRecord>, policy_revision: Revision) -> (b: bool)
    ensures
        b == record_covered(r, policy_revision),
{
    match r {
        Some(rec) => rec.work_revision <= policy_revision,
        None => false,
    }
}

fn acknowledge_success(view: &PolicyView, kind: EffectKind, policy_revision: Revision, d: &mut Decision)
    ensures
        final(d)@ == acknowledge_model(view@, kind, policy_revision, old(d)@),
{
    match kind {
        EffectKind::Probe | EffectKind::Restore | EffectKind::Reconnect => {
            match view.current_recovery_strength() {
                Some(c) => {
                    if recovery_strength_of(kind).rank() >= c.rank() && record_covers(
                        view.recovery_record,
                        policy_revision,
                    ) {
                        d.machine(MachineInput::RecoveryIntent(c.complete_input()));
                    }
                },
                None => {},
            }
        },
        EffectKind::ConfirmedOfflineDisconnect => {
            if record_covers(view.offline_record, policy_revision) {
                d.machine(MachineInput::OfflineWork(OfflineWorkInput::CompleteDisconnect));
            }
        },
        EffectKind::Cleanup => {
            if record_covers(view.cleanup_record, policy_revision) {
                d.machine(MachineInput::CleanupWork(CleanupWorkInput::CompleteCleanup));
            }
            if record_covers(view.offline_record, policy_revision) {
                d.machine(MachineInput::OfflineWork(OfflineWorkInput::SupersedeDisconnect));
            }
        },
    }
}

fn abandon_obligation(kind: EffectKind, d: &mut Decision)
    ensures
        final(d)@ == abandon_model(kind, old(d)@),
{
    match kind {
        EffectKind::Cleanup => {
            d.machine(MachineInput::CleanupWork(CleanupWorkInput::CompleteCleanup));
        },
        EffectKind::ConfirmedOfflineDisconnect => {
            d.machine(MachineInput::OfflineWork(OfflineWorkInput::CompleteDisconnect));
        },
        _ => {},
    }
}

fn past_teardown_deadline(view: &PolicyView, domain: RetryDomain, now: PolicyInstant) -> (b: bool)
    ensures
        b == past_teardown(view@, domain, now),
{
    match domain {
        RetryDomain::Cleanup => match view.cleanup_teardown {
            Some(t) => now >= t.deadline,
            None => false,
        },
        RetryDomain::Offline => match view.offline_teardown {
            Some(t) => now >= t.deadline,
            None => false,
        },
        RetryDomain::Recovery => false,
    }
}

fn apply_failure<E: EntropySource>(
    view: &PolicyView,
    kind: EffectKind,
    diagnosis: &EffectDiagnosis,
    now: PolicyInstant,
    config: &PolicyConfig,
    entropy: &mut E,
    d: &mut Decision,
)
    ensures
        failure_verdict(view@, kind, *diagnosis, now, *config) == Verdict::Retry ==> final(d)@
            == failure_model(view@, kind, *diagnosis, now, *config, old(entropy).next_spec().0, old(d)@)
            && *final(entropy) == old(entropy).next_spec().1,
        failure_verdict(view@, kind, *diagnosis, now, *config) != Verdict::Retry ==> final(d)@
            == failure_model(view@, kind, *diagnosis, now, *config, 0, old(d)@) && *final(entropy)
            == *old(entropy),
{
    let domain = retry_domain_for(kind);
    let attempt = match view.record(domain) {
        Some(r) => r.attempt,
        None => 0,
    }.saturating_add(1);
    let ctx = ClassifyContext {
        attempt,
        path_online: view.network_path == NetworkPathState::Online,
        mode_terminating: view.recovery_mode == RecoveryModeState::Terminating,
        past_teardown_deadline: past_teardown_deadline(view, domain, now),
        escalate_after_probe: config.escalate_after_probe,
        escalate_after_restore: config.escalate_after_restore,
    };
    assert(ctx == failure_context(view@, domain, now, *config));
    match classify(kind, diagnosis, ctx) {
        Verdict::Retry => {
            d.machine(MachineInput::RetryGate { domain, input: RetryGateInput::RetryableFailure });
            let retry_after = match diagnosis.retry_after() {
                Some(r) => r,
                None => 0,
            };
            let deadline = arm_backoff(
                now,
                attempt,
                config.backoff.for_kind(kind),
                retry_after,
                entropy,
            );
            let ghost u = old(entropy).next_spec().0;
            d.timers.push(
                TimerDirective::Arm {
                    id: TimerId::FailureBackoff(domain),
                    category: TimerCategory::FailureBackoff,
                    deadline,
                },
            );
            assert(d@ == failure_model(view@, kind, *diagnosis, now, *config, u, old(d)@));
        },
        Verdict::Escalate { to } => {
            d.machine(MachineInput::RecoveryIntent(recovery_strength_of(to).request_input()));
            assert(d@ == failure_model(view@, kind, *diagnosis, now, *config, 0, old(d)@));
        },
        Verdict::Park { release_mask } => {
            d.machine(MachineInput::RetryGate { domain, input: RetryGateInput::TerminalFailure });
            d.parks.push(ParkDirective { domain, release_mask });
            assert(d@ == failure_model(view@, kind, *diagnosis, now, *config, 0, old(d)@));
        },
        Verdict::Abandon => {
            abandon_obligation(kind, d);
            assert(d@ == failure_model(view@, kind, *diagnosis, now, *config, 0, old(d)@));
        },
    }
}

fn apply_abort(view: &PolicyView, kind: EffectKind, cause: AbortCause, d: &mut Decision)
    ensures
        final(d)@ == abort_model(view@, kind, cause, old(d)@),
{
    let domain = retry_domain_for(kind);
    match cause {
        AbortCause::SupervisorCancellation => {},
        AbortCause::PanicOrContractViolation | AbortCause::Unclassified => {
            if kind.is_teardown() && view.recovery_mode == RecoveryModeState::Terminating {
                abandon_obligation(kind, d);
            } else {
                d.machine(MachineInput::RetryGate { domain, input: RetryGateInput::TerminalFailure });
                d.parks.push(
                    ParkDirective {
                        domain,
                        release_mask: ReleaseMask::single(ParkCause::InvariantViolation),
                    },
                );
            }
        },
        AbortCause::RuntimeShutdown => {
            if kind.is_teardown() {
                abandon_obligation(kind, d);
            }
        },
    }
}

fn apply_deferred_pause(view: &PolicyView, domain: RetryDomain, d: &mut Decision)
    ensures
        final(d)@ == deferred_pause_model(view@, domain, old(d)@),
{
    let paused = match view.effect {
        Some(e) => match e.cancel_reason {
            Some(CancelReason::Pause) => true,
            _ => false,
        },
        None => false,
    };
    if paused {
        d.machine(MachineInput::RetryGate { domain, input: RetryGateInput::ExplicitPause });
        d.parks.push(
            ParkDirective { domain, release_mask: ReleaseMask::single(ParkCause::ExplicitPause) },
        );
    }
}

#[verifier::rlimit(40)]
fn translate_effect_completed<E: EntropySource>(
    view: &PolicyView,
    action_id: u64,
    kind: EffectKind,
    policy_revision: Revision,
    outcome: &EffectOutcome,
    now: PolicyInstant,
    config: &PolicyConfig,
    entropy: &mut E,
) -> (d: Decision)
    ensures
        draws_entropy(
            view@,
            Input::EffectCompleted { action_id, kind, policy_revision, outcome: *outcome },
            now,
            *config,
        ) ==> d@ == effect_completed_model(
            view@,
            action_id,
            kind,
            policy_revision,
            *outcome,
            now,
            *config,
            old(entropy).next_spec().0,
        ) && *final(entropy) == old(entropy).next_spec().1,
        !draws_entropy(
            view@,
            Input::EffectCompleted { action_id, kind, policy_revision, outcome: *outcome },
            now,
            *config,
        ) ==> d@ == effect_completed_model(
            view@,
            action_id,
            kind,
            policy_revision,
            *outcome,
            now,
            *config,
            0,
        ) && *final(entropy) == *old(entropy),
{
    let matched = match view.effect {
        Some(e) => e.action_id == action_id && e.kind == kind && e.captured_revision
            == policy_revision,
        None => false,
    };
    if !matched {
        let d = Decision::none();
        assert(d@ == effect_completed_model(view@, action_id, kind, policy_revision, *outcome, now, *config, 0));
        return d;
    }
    let domain = retry_domain_for(kind);
    let current = record_covers(view.record(domain), policy_revision);
    let mut d = Decision::none();
    match outcome {
        EffectOutcome::Failed { diagnosis } => {
            d.machine(MachineInput::Execution(ExecutionInput::Failed));
            if current {
                let ghost d1 = d@;
                apply_failure(view, kind, diagnosis, now, config, entropy, &mut d);
                let ghost d2 = d@;
                apply_deferred_pause(view, domain, &mut d);
                proof {
                    let u = if failure_verdict(view@, kind, *diagnosis, now, *config) == Verdict::Retry {
                        old(entropy).next_spec().0
                    } else {
                        0
                    };
                    assert(d2 == failure_model(view@, kind, *diagnosis, now, *config, u, d1));
                    assert(d@ == effect_completed_model(view@, action_id, kind, policy_revision, *outcome, now, *config, u));
                }
            } else {
                assert(d@ == effect_completed_model(view@, action_id, kind, policy_revision, *outcome, now, *config, 0));
            }
        },
        EffectOutcome::Cancelled => {
            d.machine(MachineInput::Execution(ExecutionInput::Cancelled));
            apply_deferred_pause(view, domain, &mut d);
            assert(d@ == effect_completed_model(view@, action_id, kind, policy_revision, *outcome, now, *config, 0));
        },
        EffectOutcome::Aborted { cause } => {
            d.machine(MachineInput::Execution(ExecutionInput::Cancelled));
            if current {
                apply_abort(view, kind, *cause, &mut d);
                apply_deferred_pause(view, domain, &mut d);
            }
            assert(d@ == effect_completed_model(view@, action_id, kind, policy_revision, *outcome, now, *config, 0));
        },
        _ => {
            d.machine(MachineInput::Execution(ExecutionInput::Succeeded));
            acknowledge_success(view, kind, policy_revision, &mut d);
            assert(d@ == effect_completed_model(view@, action_id, kind, policy_revision, *outcome, now, *config, 0));
        },
    }
    d
}

/// Translate one accepted input into its [`Decision`].
///
/// The decision is exactly the model of the input's row group, evaluated top
/// to bottom. Entropy is drawn only when a still-current failure of the
/// running effect is ruled `Retry` and arms a backoff deadline; every other
/// input leaves the entropy stream untouched and its decision does not depend
/// on any sample, so duplicates never resample.
pub fn translate<E: EntropySource>(
    view: &PolicyView,
    input: &Input,
    now: PolicyInstant,
    config: &PolicyConfig,
    entropy: &mut E,
) -> (d: Decision)
    ensures
        d@ == translate_model(
            view@,
            *input,
            now,
            *config,
            translation_sample(view@, *input, now, *config, *old(entropy)),
        ),
        *final(entropy) == entropy_after_translation(view@, *input, now, *config, *old(entropy)),
{
    let d = match input {
        Input::AppEnteredForeground { observed_background_duration } => translate_foreground(
            view,
            *observed_background_duration,
            now,
            config,
        ),
        Input::AppEnteredBackground => translate_background(view),
        Input::SessionActivated { session_generation } => translate_session_activated(
            view,
            *session_generation,
        ),
        Input::NetworkSnapshot { source_epoch, sequence, semantic_path, route_fingerprint } =>
            translate_snapshot(
            view,
            *source_epoch,
            *sequence,
            *semantic_path,
            *route_fingerprint,
            now,
            config,
        ),
        Input::RecoveryRequested { minimum, .. } => translate_recovery_requested(view, *minimum),
        Input::RecoveryPauseRequested { .. } => translate_pause(view),
        Input::RecoveryResumeRequested { .. } => translate_resume(view),
        Input::CleanupRequested { reason } => translate_cleanup(view, *reason, now, config),
        Input::ConfigurationChanged { .. } => translate_configuration_changed(),
        Input::OfflineGraceExpired { candidate_id } => translate_offline_grace_expired(
            view,
            *candidate_id,
            now,
            config,
        ),
        Input::RetryDeadlineExpired { domain, work_revision, retry_id } =>
            translate_retry_deadline_expired(view, *domain, *work_revision, *retry_id),
        Input::BootstrapPhaseDeadlineExpired => translate_bootstrap_deadline(view),
        Input::ShutdownDeadlineExpired { deadline_id } => translate_shutdown_deadline(
            view,
            *deadline_id,
        ),
        Input::TeardownDeadlineExpired { domain, deadline_id } => translate_teardown_deadline(
            view,
            *domain,
            *deadline_id,
        ),
        Input::SignalingGenerationCommitted { generation, origin } =>
            translate_signaling_committed(view, *generation, *origin),
        Input::SignalingGenerationLost { generation, cause } => translate_signaling_lost(
            view,
            *generation,
            *cause,
        ),
        Input::EffectCompleted { action_id, kind, policy_revision, outcome } => {
            let d = translate_effect_completed(
                view,
                *action_id,
                *kind,
                *policy_revision,
                outcome,
                now,
                config,
                entropy,
            );
            assert(d@ == translate_model(
                view@,
                *input,
                now,
                *config,
                translation_sample(view@, *input, now, *config, *old(entropy)),
            ));
            return d;
        },
        Input::ShutdownRequested => translate_cleanup(
            view,
            CleanupReason::AppTerminating,
            now,
            config,
        ),
    };
    assert(d@ == translate_model(view@, *input, now, *config, 0));
    d
}

// ---------------------------------------------------------------------------
// Composite action decision and derived send projection
// ---------------------------------------------------------------------------

/// One executable action selected from the combined policy snapshot.
#[derive(Debug, Clone, Copy, PartialEq, Eq, Structural, Hash)]
pub enum Action {
    Cleanup,
    ConfirmedOfflineDisconnect,
    Reconnect,
    Restore,
    Probe,
}

/// A pending record whose gate is `Ready`.
pub open spec fn record_ready(record: Option<PendingRecord>) -> bool {
    match record {
        Some(r) => r.gate == RetryGateState::Ready,
        None => false,
    }
}

/// The action a pending recovery intent runs.
pub open spec fn intent_action(i: RecoveryIntentState) -> Option<Action> {
    match i {
        RecoveryIntentState::ReconnectPending => Some(Action::Reconnect),
        RecoveryIntentState::RestorePending => Some(Action::Restore),
        RecoveryIntentState::ProbePending => Some(Action::Probe),
        RecoveryIntentState::Idle => None,
    }
}

/// The composite decision table, top to bottom: pending cleanup shadows every
/// lower domain (even while its gate is not ready); a confirmed offline
/// disconnect runs once the path committed to `Offline`; recovery runs only
/// while the mode is `Active`, the phase is eligible, the path is neither
/// candidate nor offline, and its gate is ready.
pub open spec fn composite_action_spec(view: PolicyModel) -> Option<Action> {
    if view.cleanup_work == CleanupWorkState::CleanupPending {
        if record_ready(view.cleanup_record) {
            Some(Action::Cleanup)
        } else {
            None
        }
    } else if view.network_path == NetworkPathState::Offline && view.offline_work
        == OfflineWorkState::DisconnectPending {
        if record_ready(view.offline_record) {
            Some(Action::ConfirmedOfflineDisconnect)
        } else {
            None
        }
    } else if view.recovery_mode != RecoveryModeState::Active || !phase_eligible(view)
        || view.network_path == NetworkPathState::OfflineCandidate || view.network_path
        == NetworkPathState::Offline || !record_ready(view.recovery_record) {
        None
    } else {
        intent_action(view.recovery_intent)
    }
}

/// Whether a pending record's gate is `Ready`.
pub fn gate_ready(record: &Option<PendingRecord>) -> (b: bool)
    ensures
        b == record_ready(*record),
{
    match record {
        Some(r) => r.gate == RetryGateState::Ready,
        None => false,
    }
}

/// Derive at most one executable action from the snapshot; `None` when no
/// action is currently admissible.
pub fn composite_action(view: &PolicyView) -> (a: Option<Action>)
    ensures
        a == composite_action_spec(view@),
{
    if view.cleanup_work == CleanupWorkState::CleanupPending {
        return if gate_ready(&view.cleanup_record) {
            Some(Action::Cleanup)
        } else {
            None
        };
    }
    if view.network_path == NetworkPathState::Offline && view.offline_work
        == OfflineWorkState::DisconnectPending {
        return if gate_ready(&view.offline_record) {
            Some(Action::ConfirmedOfflineDisconnect)
        } else {
            None
        };
    }
    if view.recovery_mode != RecoveryModeState::Active {
        return None;
    }
    if !view.phase_eligible() {
        return None;
    }
    if view.network_path == NetworkPathState::OfflineCandidate || view.network_path
        == NetworkPathState::Offline {
        return None;
    }
    if !gate_ready(&view.recovery_record) {
        return None;
    }
    match view.recovery_intent {
        RecoveryIntentState::ReconnectPending => Some(Action::Reconnect),
        RecoveryIntentState::RestorePending => Some(Action::Restore),
        RecoveryIntentState::ProbePending => Some(Action::Probe),
        RecoveryIntentState::Idle => None,
    }
}

/// The read-only outbound-path admission projection.
#[derive(Debug, Clone, Copy, PartialEq, Eq, Structural, Hash)]
pub enum SendProjection {
    Blocked,
    ExistingOnly,
    Normal,
}

/// Teardown work is pending or running.
pub open spec fn teardown_active(view: PolicyModel) -> bool {
    view.cleanup_work == CleanupWorkState::CleanupPending || view.offline_work
        == OfflineWorkState::DisconnectPending || view.execution == ExecutionState::Cleaning
        || view.execution == ExecutionState::Disconnecting
}

/// The send projection, strictest row first: blocked outside `Active`, during
/// teardown, or while `Offline`; existing connections only while the path is an
/// offline candidate; otherwise normal.
pub open spec fn send_policy_spec(view: PolicyModel) -> SendProjection {
    if view.recovery_mode != RecoveryModeState::Active || teardown_active(view) || view.network_path
        == NetworkPathState::Offline {
        SendProjection::Blocked
    } else if view.network_path == NetworkPathState::OfflineCandidate {
        SendProjection::ExistingOnly
    } else {
        SendProjection::Normal
    }
}

/// Project outbound send admission from the snapshot.
pub fn derive_send_policy(view: &PolicyView) -> (p: SendProjection)
    ensures
        p == send_policy_spec(view@),
{
    let teardown = view.cleanup_work == CleanupWorkState::CleanupPending || view.offline_work
        == OfflineWorkState::DisconnectPending || view.execution == ExecutionState::Cleaning
        || view.execution == ExecutionState::Disconnecting;
    if view.recovery_mode != RecoveryModeState::Active || teardown || view.network_path
        == NetworkPathState::Offline {
        return SendProjection::Blocked;
    }
    if view.network_path == NetworkPathState::OfflineCandidate {
        return SendProjection::ExistingOnly;
    }
    SendProjection::Normal
}

// ---------------------------------------------------------------------------
// Laws of the reducer
// ---------------------------------------------------------------------------

/// `ShutdownRequested` translates exactly as a cleanup command whose reason is
/// `AppTerminating`.
pub proof fn lemma_shutdown_is_terminating_cleanup(
    view: PolicyModel,
    now: PolicyInstant,
    config: PolicyConfig,
    unit: u64,
)
    ensures
        translate_model(view, Input::ShutdownRequested, now, config, unit) == translate_model(
            view,
            Input::CleanupRequested { reason: CleanupReason::AppTerminating },
            now,
            config,
            unit,
        ),
{
}

/// An effect completion never allocates a policy revision, whatever its
/// outcome and whether or not it matches the running effect.
pub proof fn lemma_completion_never_advances(
    view: PolicyModel,
    action_id: u64,
    kind: EffectKind,
    policy_revision: Revision,
    outcome: EffectOutcome,
    now: PolicyInstant,
    config: PolicyConfig,
    unit: u64,
)
    ensures
        translate_model(
            view,
            Input::EffectCompleted { action_id, kind, policy_revision, outcome },
            now,
            config,
            unit,
        ).revision == RevisionDirective::Unchanged,
{
    let domain = retry_domain_of(kind);
    let d1 = DecisionModel::none().m(MachineInput::Execution(ExecutionInput::Failed));
    match outcome {
        EffectOutcome::Failed { diagnosis } => {
            assert(failure_model(view, kind, diagnosis, now, config, unit, d1).revision
                == RevisionDirective::Unchanged);
        },
        _ => {},
    }
}

/// Stale inputs are discarded with the empty, non-advancing decision: a
/// completion that does not match the running effect, a snapshot not newer by
/// `(epoch, sequence)` or not material, a retry deadline for another backoff,
/// an offline grace for another candidate, and a loss of a generation that is
/// not the live one.
pub proof fn lemma_stale_inputs_are_discarded(
    view: PolicyModel,
    input: Input,
    now: PolicyInstant,
    config: PolicyConfig,
    unit: u64,
)
    ensures
        (input matches Input::EffectCompleted { action_id, kind, policy_revision, .. }
            && !completion_matches(view, action_id, kind, policy_revision)) ==> translate_model(
            view,
            input,
            now,
            config,
            unit,
        ) == DecisionModel::none(),
        (input matches Input::NetworkSnapshot { source_epoch, sequence, semantic_path, route_fingerprint }
            && (!snapshot_is_accepted(view.last_snapshot, source_epoch, sequence)
            || !snapshot_is_material(view.last_snapshot, semantic_path, route_fingerprint)))
            ==> translate_model(view, input, now, config, unit) == DecisionModel::none(),
        (input matches Input::RetryDeadlineExpired { domain, work_revision, retry_id } && !(
        match record_of(view, domain) {
            Some(r) => r.gate == RetryGateState::BackingOff && r.work_revision == work_revision
                && r.retry_id == retry_id,
            None => false,
        })) ==> translate_model(view, input, now, config, unit) == DecisionModel::none(),
        (input matches Input::OfflineGraceExpired { candidate_id } && !(
        match view.offline_candidate {
            Some(c) => c.candidate_id == candidate_id,
            None => false,
        })) ==> translate_model(view, input, now, config, unit) == DecisionModel::none(),
        (input matches Input::SignalingGenerationLost { generation, .. }
            && view.live_signaling_generation != Some(generation)) ==> translate_model(
            view,
            input,
            now,
            config,
            unit,
        ) == DecisionModel::none(),
{
}

/// A phase input that repeats the current phase is a structural duplicate:
/// no machine input and no revision.
pub proof fn lemma_repeated_phase_is_silent(
    view: PolicyModel,
    observed: Option<PolicyInstant>,
    now: PolicyInstant,
    config: PolicyConfig,
    unit: u64,
)
    ensures
        view.recovery_mode == RecoveryModeState::Active && view.app_phase
            == AppPhaseState::Foreground ==> translate_model(
            view,
            Input::AppEnteredForeground { observed_background_duration: observed },
            now,
            config,
            unit,
        ) == DecisionModel::none(),
        view.app_phase == AppPhaseState::Background ==> translate_model(
            view,
            Input::AppEnteredBackground,
            now,
            config,
            unit,
        ) == DecisionModel::none(),
{
}

/// Whether a decision arms a failure backoff deadline.
pub open spec fn arms_failure_backoff(d: DecisionModel) -> bool {
    exists|i: int|
        #![trigger d.timers[i]]
        0 <= i < d.timers.len() && d.timers[i] matches TimerDirective::Arm {
            id: TimerId::FailureBackoff(_),
            ..
        }
}

/// A translation draws entropy exactly when its decision arms a failure
/// backoff deadline: a still-current failure ruled `Retry` arms one, and no
/// other input, duplicates and stale inputs included, arms one.
#[verifier::rlimit(100)]
#[verifier::spinoff_prover]
pub proof fn lemma_draws_exactly_when_backoff_armed(
    view: PolicyModel,
    input: Input,
    now: PolicyInstant,
    config: PolicyConfig,
    unit: u64,
)
    ensures
        draws_entropy(view, input, now, config) == arms_failure_backoff(
            translate_model(view, input, now, config, unit),
        ),
{
    let d = translate_model(view, input, now, config, unit);
    match input {
        Input::EffectCompleted { action_id, kind, policy_revision, outcome } => {
            if completion_matches(view, action_id, kind, policy_revision) {
                let domain = retry_domain_of(kind);
                match outcome {
                    EffectOutcome::Failed { diagnosis } => {
                        if still_current(view, domain, policy_revision) {
                            if failure_verdict(view, kind, diagnosis, now, config) == Verdict::Retry {
                                assert(d.timers.len() == 1);
                                assert(d.timers[0] matches TimerDirective::Arm {
                                    id: TimerId::FailureBackoff(_),
                                    ..
                                });
                            } else {
                                assert(!arms_failure_backoff(d));
                            }
                        } else {
                            assert(!arms_failure_backoff(d));
                        }
                    },
                    _ => {
                        assert(!arms_failure_backoff(d));
                    },
                }
            } else {
                assert(!arms_failure_backoff(d));
            }
        },
        _ => {
            assert(!arms_failure_backoff(d));
        },
    }
}

/// Translation is a function of its arguments and of the next sample of its
/// entropy source: two sources whose next samples agree give the same
/// decision for the same view, input, time and configuration.
pub proof fn lemma_translation_is_replayable<E: EntropySource>(
    view: PolicyModel,
    input: Input,
    now: PolicyInstant,
    config: PolicyConfig,
    e1: E,
    e2: E,
)
    requires
        e1.next_spec().0 == e2.next_spec().0,
    ensures
        translate_model(view, input, now, config, translation_sample(view, input, now, config, e1))
            == translate_model(view, input, now, config, translation_sample(view, input, now, config, e2)),
{
}

/// An accepted, material snapshot always allocates a policy revision.
pub proof fn lemma_material_snapshot_advances(
    view: PolicyModel,
    source_epoch: u64,
    sequence: u64,
    semantic_path: SemanticPath,
    route_fingerprint: u64,
    now: PolicyInstant,
    config: PolicyConfig,
    unit: u64,
)
    requires
        snapshot_is_accepted(view.last_snapshot, source_epoch, sequence),
        snapshot_is_material(view.last_snapshot, semantic_path, route_fingerprint),
    ensures
        translate_model(
            view,
            Input::NetworkSnapshot { source_epoch, sequence, semantic_path, route_fingerprint },
            now,
            config,
            unit,
        ).revision == RevisionDirective::Advances,
{
}

/// A snapshot advances the policy exactly when it is newer than the last
/// accepted one (by epoch, then sequence) and material (another semantic
/// path, or another route while online); every other snapshot is
/// discarded.
pub proof fn lemma_snapshot_advances_or_is_discarded(
    view: PolicyModel,
    source_epoch: u64,
    sequence: u64,
    semantic_path: SemanticPath,
    route_fingerprint: u64,
    now: PolicyInstant,
    config: PolicyConfig,
    unit: u64,
)
    ensures
        ({
            let d = translate_model(
                view,
                Input::NetworkSnapshot { source_epoch, sequence, semantic_path, route_fingerprint },
                now,
                config,
                unit,
            );
            if snapshot_is_accepted(view.last_snapshot, source_epoch, sequence) && snapshot_is_material(
                view.last_snapshot,
                semantic_path,
                route_fingerprint,
            ) {
                d.revision == RevisionDirective::Advances
            } else {
                d == DecisionModel::none()
            }
        }),
{
    if snapshot_is_accepted(view.last_snapshot, source_epoch, sequence) && snapshot_is_material(
        view.last_snapshot,
        semantic_path,
        route_fingerprint,
    ) {
        lemma_material_snapshot_advances(
            view,
            source_epoch,
            sequence,
            semantic_path,
            route_fingerprint,
            now,
            config,
            unit,
        );
    }
}

/// A recovery request while logged out or terminating is rejected: nothing
/// advances, no machine moves, nothing is cancelled, and the one status
/// record names the mode and the reason.
pub proof fn lemma_recovery_request_rejected_when_not_active(
    view: PolicyModel,
    minimum: RecoveryStrength,
    reason: RecoveryRequestReason,
    now: PolicyInstant,
    config: PolicyConfig,
    unit: u64,
)
    requires
        view.recovery_mode == RecoveryModeState::LoggedOut || view.recovery_mode
            == RecoveryModeState::Terminating,
    ensures
        ({
            let d = translate_model(view, Input::RecoveryRequested { minimum, reason }, now, config, unit);
            &&& d.revision == RevisionDirective::Unchanged
            &&& d.machine_inputs.len() == 0
            &&& d.cancels.len() == 0
            &&& d.status == seq![
                StatusRecord::RecoveryRejected {
                    mode: view.recovery_mode,
                    reason: RejectReason::LoggedOutOrTerminating,
                },
            ]
        }),
{
    lemma_recovery_request_outside_active_is_rejected(view, minimum, reason, now, config, unit);
    let d = translate_model(view, Input::RecoveryRequested { minimum, reason }, now, config, unit);
    assert(d.status =~= seq![
        StatusRecord::RecoveryRejected {
            mode: view.recovery_mode,
            reason: RejectReason::LoggedOutOrTerminating,
        },
    ]);
}

/// The execution input a completion outcome feeds the execution machine.
pub open spec fn execution_input_of(outcome: EffectOutcome) -> ExecutionInput {
    match outcome {
        EffectOutcome::Failed { .. } => ExecutionInput::Failed,
        EffectOutcome::Cancelled | EffectOutcome::Aborted { .. } => ExecutionInput::Cancelled,
        _ => ExecutionInput::Succeeded,
    }
}

/// A completion of the running effect first feeds its outcome to the
/// execution machine and never allocates a revision.
pub proof fn lemma_matched_completion_ends_execution(
    view: PolicyModel,
    action_id: u64,
    kind: EffectKind,
    policy_revision: Revision,
    outcome: EffectOutcome,
    now: PolicyInstant,
    config: PolicyConfig,
    unit: u64,
)
    requires
        completion_matches(view, action_id, kind, policy_revision),
    ensures
        ({
            let d = translate_model(
                view,
                Input::EffectCompleted { action_id, kind, policy_revision, outcome },
                now,
                config,
                unit,
            );
            &&& d.revision == RevisionDirective::Unchanged
            &&& d.machine_inputs.len() > 0
            &&& d.machine_inputs[0] == MachineInput::Execution(execution_input_of(outcome))
        }),
{
    lemma_completion_never_advances(view, action_id, kind, policy_revision, outcome, now, config, unit);
}

/// A completion is discarded unless it matches the running effect; a
/// matching one allocates no revision and first feeds its outcome to the
/// execution machine.
pub proof fn lemma_completion_is_discarded_or_ends_execution(
    view: PolicyModel,
    action_id: u64,
    kind: EffectKind,
    policy_revision: Revision,
    outcome: EffectOutcome,
    now: PolicyInstant,
    config: PolicyConfig,
    unit: u64,
)
    ensures
        ({
            let d = translate_model(
                view,
                Input::EffectCompleted { action_id, kind, policy_revision, outcome },
                now,
                config,
                unit,
            );
            if !completion_matches(view, action_id, kind, policy_revision) {
                d == DecisionModel::none()
            } else {
                &&& d.revision == RevisionDirective::Unchanged
                &&& d.machine_inputs.len() > 0
                &&& d.machine_inputs[0] == MachineInput::Execution(execution_input_of(outcome))
            }
        }),
{
    if completion_matches(view, action_id, kind, policy_revision) {
        lemma_matched_completion_ends_execution(view, action_id, kind, policy_revision, outcome, now, config, unit);
    }
}

/// Whether a successful outcome (including teardown that ended with
/// residuals or was abandoned at its deadline) reports the effect done.
pub open spec fn is_success_outcome(outcome: EffectOutcome) -> bool {
    outcome is Succeeded || outcome is CompletedWithResiduals || outcome is Abandoned
}

/// A successful completion of the running effect discharges exactly the
/// obligations it covers, and only those not newer than the revision the
/// effect captured: a cleanup completes a pending cleanup and supersedes an
/// older pending disconnect; a confirmed offline disconnect completes a
/// pending disconnect; a recovery effect completes the pending intent when it
/// is at least as strong, and otherwise leaves the intent pending. The first
/// input always reports the execution succeeded.
#[verifier::rlimit(40)]
pub proof fn lemma_success_discharges_covered_obligations(
    view: PolicyModel,
    action_id: u64,
    kind: EffectKind,
    policy_revision: Revision,
    outcome: EffectOutcome,
    now: PolicyInstant,
    config: PolicyConfig,
    unit: u64,
)
    requires
        view.effect matches Some(e) && e.action_id == action_id && e.kind == kind
            && e.captured_revision == policy_revision,
        is_success_outcome(outcome),
    ensures
        ({
            let d = translate_model(
                view,
                Input::EffectCompleted { action_id, kind, policy_revision, outcome },
                now,
                config,
                unit,
            );
            let cleanup_due = view.cleanup_record matches Some(r) && r.work_revision <= policy_revision;
            let offline_due = view.offline_record matches Some(r) && r.work_revision <= policy_revision;
            let recovery_due = view.recovery_record matches Some(r) && r.work_revision
                <= policy_revision;
            &&& d.revision == RevisionDirective::Unchanged
            &&& d.machine_inputs.len() >= 1
            &&& d.machine_inputs[0] == MachineInput::Execution(ExecutionInput::Succeeded)
            &&& kind == EffectKind::Cleanup ==> (cleanup_due <==> d.machine_inputs.contains(
                MachineInput::CleanupWork(CleanupWorkInput::CompleteCleanup),
            ))
            &&& kind == EffectKind::Cleanup ==> (offline_due <==> d.machine_inputs.contains(
                MachineInput::OfflineWork(OfflineWorkInput::SupersedeDisconnect),
            ))
            &&& kind == EffectKind::ConfirmedOfflineDisconnect ==> (offline_due
                <==> d.machine_inputs.contains(
                MachineInput::OfflineWork(OfflineWorkInput::CompleteDisconnect),
            ))
            &&& (kind == EffectKind::Probe || kind == EffectKind::Restore || kind
                == EffectKind::Reconnect) && view.recovery_intent == RecoveryIntentState::ProbePending
                && recovery_due ==> d.machine_inputs.contains(
                MachineInput::RecoveryIntent(RecoveryIntentInput::CompleteProbe),
            )
            &&& (kind == EffectKind::Restore || kind == EffectKind::Reconnect)
                && view.recovery_intent == RecoveryIntentState::RestorePending && recovery_due
                ==> d.machine_inputs.contains(
                MachineInput::RecoveryIntent(RecoveryIntentInput::CompleteRestore),
            )
            &&& kind == EffectKind::Reconnect && view.recovery_intent
                == RecoveryIntentState::ReconnectPending && recovery_due ==> d.machine_inputs.contains(
                MachineInput::RecoveryIntent(RecoveryIntentInput::CompleteReconnect),
            )
            &&& (kind == EffectKind::Probe || kind == EffectKind::Restore || kind
                == EffectKind::Reconnect) && (!recovery_due || (kind == EffectKind::Probe
                && view.recovery_intent != RecoveryIntentState::ProbePending) || (kind
                == EffectKind::Restore && view.recovery_intent == RecoveryIntentState::ReconnectPending))
                ==> d.machine_inputs.len() == 1
        }),
{
    let d = translate_model(
        view,
        Input::EffectCompleted { action_id, kind, policy_revision, outcome },
        now,
        config,
        unit,
    );
    let x = MachineInput::Execution(ExecutionInput::Succeeded);
    let cc = MachineInput::CleanupWork(CleanupWorkInput::CompleteCleanup);
    let sd = MachineInput::OfflineWork(OfflineWorkInput::SupersedeDisconnect);
    let cd = MachineInput::OfflineWork(OfflineWorkInput::CompleteDisconnect);
    assert(d.machine_inputs[0] == x);
    if d.machine_inputs.len() >= 2 {
        assert(d.machine_inputs.contains(d.machine_inputs[1]));
    }
    if d.machine_inputs.len() >= 3 {
        assert(d.machine_inputs.contains(d.machine_inputs[2]));
    }
}

/// The shutdown deadline ends the supervisor only while terminating and only
/// for the armed deadline: it then cancels a running effect, completes the
/// pending teardown obligations and reports the abandonment; any other
/// shutdown deadline is discarded.
pub proof fn lemma_shutdown_deadline_ends_or_is_discarded(
    view: PolicyModel,
    deadline_id: u64,
    now: PolicyInstant,
    config: PolicyConfig,
    unit: u64,
)
    ensures
        ({
            let d = translate_model(view, Input::ShutdownDeadlineExpired { deadline_id }, now, config, unit);
            if view.recovery_mode == RecoveryModeState::Terminating && (view.shutdown_deadline matches Some(
                sd,
            ) && sd.deadline_id == deadline_id) {
                &&& d.terminate
                &&& d.status.contains(StatusRecord::ShutdownAbandon)
                &&& view.execution != ExecutionState::Idle ==> d.cancels.contains(CancelReason::Shutdown)
                &&& view.cleanup_work == CleanupWorkState::CleanupPending ==> d.machine_inputs.contains(
                    MachineInput::CleanupWork(CleanupWorkInput::CompleteCleanup),
                )
                &&& view.offline_work == OfflineWorkState::DisconnectPending ==> d.machine_inputs.contains(
                    MachineInput::OfflineWork(OfflineWorkInput::CompleteDisconnect),
                )
            } else {
                d == DecisionModel::none() && !d.terminate
            }
        }),
{
    let d = translate_model(view, Input::ShutdownDeadlineExpired { deadline_id }, now, config, unit);
    if view.recovery_mode == RecoveryModeState::Terminating && (view.shutdown_deadline matches Some(sd)
        && sd.deadline_id == deadline_id) {
        assert(d.status[d.status.len() - 1] == StatusRecord::ShutdownAbandon);
        if view.execution != ExecutionState::Idle {
            assert(d.cancels[0] == CancelReason::Shutdown);
        }
        if view.cleanup_work == CleanupWorkState::CleanupPending {
            assert(d.machine_inputs[0] == MachineInput::CleanupWork(CleanupWorkInput::CompleteCleanup));
        }
        if view.offline_work == OfflineWorkState::DisconnectPending {
            assert(d.machine_inputs[d.machine_inputs.len() - 1] == MachineInput::OfflineWork(
                OfflineWorkInput::CompleteDisconnect,
            ));
        }
    }
}

/// A decision that draws no entropy does not depend on the sample: every
/// sample gives the same decision.
pub proof fn lemma_decision_independent_of_sample(
    view: PolicyModel,
    input: Input,
    now: PolicyInstant,
    config: PolicyConfig,
    u1: u64,
    u2: u64,
)
    requires
        !draws_entropy(view, input, now, config),
    ensures
        translate_model(view, input, now, config, u1) == translate_model(
            view,
            input,
            now,
            config,
            u2,
        ),
{
    match input {
        Input::EffectCompleted { action_id, kind, policy_revision, outcome } => {
            match outcome {
                EffectOutcome::Failed { diagnosis } => {
                    let d1 = DecisionModel::none().m(
                        MachineInput::Execution(ExecutionInput::Failed),
                    );
                    if completion_matches(view, action_id, kind, policy_revision) && still_current(
                        view,
                        retry_domain_of(kind),
                        policy_revision,
                    ) {
                        assert(failure_model(view, kind, diagnosis, now, config, u1, d1)
                            == failure_model(view, kind, diagnosis, now, config, u2, d1));
                    }
                },
                _ => {},
            }
        },
        _ => {},
    }
}

/// A command asking for recovery outside the `Active` mode is rejected: a
/// status record names the mode, and no revision, machine input, or trigger
/// follows.
pub proof fn lemma_recovery_request_outside_active_is_rejected(
    view: PolicyModel,
    minimum: RecoveryStrength,
    reason: RecoveryRequestReason,
    now: PolicyInstant,
    config: PolicyConfig,
    unit: u64,
)
    requires
        view.recovery_mode != RecoveryModeState::Active,
    ensures
        translate_model(
            view,
            Input::RecoveryRequested { minimum, reason },
            now,
            config,
            unit,
        ) == DecisionModel::none().stat(
            StatusRecord::RecoveryRejected {
                mode: view.recovery_mode,
                reason: RejectReason::LoggedOutOrTerminating,
            },
        ),
{
}

/// Pending cleanup shadows every lower domain: while it is pending the only
/// admissible action is the cleanup itself.
pub proof fn lemma_cleanup_shadows_lower_domains(view: PolicyModel)
    requires
        view.cleanup_work == CleanupWorkState::CleanupPending,
    ensures
        composite_action_spec(view) == Some(Action::Cleanup) || composite_action_spec(view)
            is None,
{
}

/// A recovery action is chosen only in the `Active` mode, with an eligible
/// phase, a path that is neither candidate nor offline, a ready recovery gate,
/// and no pending cleanup; it is the action of the pending intent.
pub proof fn lemma_recovery_action_preconditions(view: PolicyModel)
    ensures
        (composite_action_spec(view) == Some(Action::Probe) || composite_action_spec(view)
            == Some(Action::Restore) || composite_action_spec(view) == Some(Action::Reconnect))
            ==> {
            &&& view.recovery_mode == RecoveryModeState::Active
            &&& phase_eligible(view)
            &&& view.network_path != NetworkPathState::Offline
            &&& view.network_path != NetworkPathState::OfflineCandidate
            &&& record_ready(view.recovery_record)
            &&& view.cleanup_work == CleanupWorkState::Idle
            &&& composite_action_spec(view) == intent_action(view.recovery_intent)
        },
{
}

/// Whenever the composite decision runs teardown work, outbound sends are
/// blocked.
pub proof fn lemma_teardown_action_blocks_sends(view: PolicyModel)
    ensures
        (composite_action_spec(view) == Some(Action::Cleanup) || composite_action_spec(view)
            == Some(Action::ConfirmedOfflineDisconnect)) ==> send_policy_spec(view)
            == SendProjection::Blocked,
{
}

/// A machine input that begins an effect in the execution slot.
pub open spec fn is_begin_input(mi: MachineInput) -> bool {
    match mi {
        MachineInput::Execution(i) => match i {
            ExecutionInput::BeginProbe | ExecutionInput::BeginRestore
            | ExecutionInput::BeginReconnect | ExecutionInput::BeginOffline
            | ExecutionInput::BeginCleanup => true,
            _ => false,
        },
        _ => false,
    }
}

/// No input of the sequence begins an effect.
pub open spec fn begins_nothing(s: Seq<MachineInput>) -> bool {
    forall|k: int| 0 <= k < s.len() ==> !is_begin_input(#[trigger] s[k])
}

/// Appending an input that begins nothing keeps a sequence that begins nothing.
proof fn lemma_push_begins_nothing(s: Seq<MachineInput>, x: MachineInput)
    requires
        begins_nothing(s),
        !is_begin_input(x),
    ensures
        begins_nothing(s.push(x)),
{
    assert forall|k: int| 0 <= k < s.push(x).len() implies !is_begin_input(
        #[trigger] s.push(x)[k],
    ) by {
        if k < s.len() {
            assert(s.push(x)[k] == s[k]);
        }
    }
}

/// Every input of a decision model begins nothing.
pub open spec fn decision_begins_nothing(d: DecisionModel) -> bool {
    begins_nothing(d.machine_inputs)
}

/// Requesting recovery strength begins nothing.
proof fn lemma_request_begins_nothing(view: PolicyModel, d: DecisionModel, s: RecoveryStrength)
    requires
        decision_begins_nothing(d),
    ensures
        decision_begins_nothing(request_at_least(view, d, s)),
{
    lemma_push_begins_nothing(d.machine_inputs, MachineInput::RecoveryIntent(request_input_of(s)));
}

/// Abandoning a disconnect begins nothing.
proof fn lemma_abandon_begins_nothing(view: PolicyModel, d: DecisionModel)
    requires
        decision_begins_nothing(d),
    ensures
        decision_begins_nothing(abandon_disconnect(view, d)),
{
    lemma_push_begins_nothing(
        d.machine_inputs,
        MachineInput::OfflineWork(OfflineWorkInput::SupersedeDisconnect),
    );
}

/// Translation never begins an effect: only the supervisor's own action
/// selection does, so every execution input of a decision is a completion.
#[verifier::rlimit(40)]
pub proof fn lemma_decisions_begin_no_effect(
    view: PolicyModel,
    input: Input,
    now: PolicyInstant,
    config: PolicyConfig,
    unit: u64,
)
    ensures
        begins_nothing(translate_model(view, input, now, config, unit).machine_inputs),
{
    broadcast use lemma_push_begins_nothing_auto;

    let e = DecisionModel::none();
    let a = DecisionModel::advancing();
    assert(begins_nothing(e.machine_inputs));
    assert(begins_nothing(a.machine_inputs));
    match input {
        Input::AppEnteredForeground { .. } => {
            let d0 = a.m(MachineInput::AppPhase(AppPhaseInput::EnterForeground));
            lemma_request_begins_nothing(view, d0, RecoveryStrength::Reconnect);
            lemma_request_begins_nothing(view, d0, RecoveryStrength::Probe);
        },
        Input::NetworkSnapshot { semantic_path, .. } => {
            let d0 = a.m(MachineInput::NetworkPath(NetworkPathInput::ObserveOnline)).timer(
                TimerDirective::Cancel { id: TimerId::OfflineCandidate },
            );
            let d1 = a.m(MachineInput::NetworkPath(NetworkPathInput::ObserveUnknown)).timer(
                TimerDirective::Cancel { id: TimerId::OfflineCandidate },
            );
            lemma_abandon_begins_nothing(view, d0);
            lemma_abandon_begins_nothing(view, d1);
        },
        Input::RecoveryRequested { minimum, .. } => {
            lemma_request_begins_nothing(view, a, minimum);
        },
        Input::EffectCompleted { action_id, kind, policy_revision, outcome } => {
            let d1 = e.m(MachineInput::Execution(ExecutionInput::Failed));
            let d2 = e.m(MachineInput::Execution(ExecutionInput::Cancelled));
            let d3 = e.m(MachineInput::Execution(ExecutionInput::Succeeded));
            match outcome {
                EffectOutcome::Failed { diagnosis } => {
                    let f = failure_model(view, kind, diagnosis, now, config, unit, d1);
                    assert(begins_nothing(f.machine_inputs));
                },
                EffectOutcome::Aborted { cause } => {
                    assert(begins_nothing(abort_model(view, kind, cause, d2).machine_inputs));
                },
                _ => {
                    assert(begins_nothing(acknowledge_model(view, kind, policy_revision, d3).machine_inputs));
                },
            }
        },
        _ => {},
    }
}

/// Appending an input that begins nothing keeps a sequence that begins nothing.
pub broadcast proof fn lemma_push_begins_nothing_auto(s: Seq<MachineInput>, x: MachineInput)
    requires
        begins_nothing(s),
        !is_begin_input(x),
    ensures
        #[trigger] begins_nothing(s.push(x)),
{
    lemma_push_begins_nothing(s, x);
}

} // verus!
