//! The eight discrete lifecycle machines.
//!
//! Each machine is a partial transition function over the state and input
//! alphabets of [`super::translate`]: `None` marks a pair the machine leaves
//! undefined, so an out-of-band input is an invalid transition rather than a
//! silent self-loop. The machines carry only discrete transitions; extended
//! context (attempt counts, retry ids, deadlines, release masks) lives with the
//! reducer.
use vstd::prelude::*;

use super::translate::{
    AppPhaseInput, AppPhaseState, CleanupWorkInput, CleanupWorkState, ExecutionInput,
    ExecutionState, NetworkPathInput, NetworkPathState, OfflineWorkInput, OfflineWorkState,
    RecoveryIntentInput, RecoveryIntentState, RecoveryModeInput, RecoveryModeState,
    RetryGateInput, RetryGateState,
};

verus! {

// ---------------------------------------------------------------------------
// RecoveryMode: may automatic recovery start at all?
// ---------------------------------------------------------------------------

/// `RecoveryMode` transitions. `Terminating` is terminal for one supervisor
/// lifetime; only a committed new session returns `LoggedOut` to `Active`.
pub open spec fn recovery_mode_next_spec(s: RecoveryModeState, i: RecoveryModeInput) -> Option<RecoveryModeState> {
    match s {
        RecoveryModeState::Terminating => Some(RecoveryModeState::Terminating),
        _ => match i {
            RecoveryModeInput::SessionActivated => Some(RecoveryModeState::Active),
            RecoveryModeInput::UserLoggedOut => Some(RecoveryModeState::LoggedOut),
            RecoveryModeInput::AppTerminating => Some(RecoveryModeState::Terminating),
        },
    }
}

/// The next `RecoveryMode` state.
pub fn recovery_mode_next(s: RecoveryModeState, i: RecoveryModeInput) -> (n: Option<RecoveryModeState>)
    ensures
        n == recovery_mode_next_spec(s, i),
{
    match s {
        RecoveryModeState::Terminating => Some(RecoveryModeState::Terminating),
        _ => match i {
            RecoveryModeInput::SessionActivated => Some(RecoveryModeState::Active),
            RecoveryModeInput::UserLoggedOut => Some(RecoveryModeState::LoggedOut),
            RecoveryModeInput::AppTerminating => Some(RecoveryModeState::Terminating),
        },
    }
}

// ---------------------------------------------------------------------------
// CleanupWork: the intent-bearing cleanup obligation
// ---------------------------------------------------------------------------

/// `CleanupWork` transitions; completing from `Idle` is undefined.
pub open spec fn cleanup_work_next_spec(s: CleanupWorkState, i: CleanupWorkInput) -> Option<CleanupWorkState> {
    match (s, i) {
        (_, CleanupWorkInput::RequestCleanup) => Some(CleanupWorkState::CleanupPending),
        (CleanupWorkState::CleanupPending, CleanupWorkInput::CompleteCleanup) => Some(
            CleanupWorkState::Idle,
        ),
        (CleanupWorkState::Idle, CleanupWorkInput::CompleteCleanup) => None,
    }
}

/// The next `CleanupWork` state.
pub fn cleanup_work_next(s: CleanupWorkState, i: CleanupWorkInput) -> (n: Option<CleanupWorkState>)
    ensures
        n == cleanup_work_next_spec(s, i),
{
    match (s, i) {
        (_, CleanupWorkInput::RequestCleanup) => Some(CleanupWorkState::CleanupPending),
        (CleanupWorkState::CleanupPending, CleanupWorkInput::CompleteCleanup) => Some(
            CleanupWorkState::Idle,
        ),
        (CleanupWorkState::Idle, CleanupWorkInput::CompleteCleanup) => None,
    }
}

// ---------------------------------------------------------------------------
// RetryGate: "work is required" versus "work may start now"
// ---------------------------------------------------------------------------

/// `RetryGate` transitions. Failure inputs are defined only from `Ready`;
/// a deadline expiry only from `BackingOff`.
pub open spec fn retry_gate_next_spec(s: RetryGateState, i: RetryGateInput) -> Option<RetryGateState> {
    match (s, i) {
        (RetryGateState::Ready, RetryGateInput::RetryableFailure) => Some(
            RetryGateState::BackingOff,
        ),
        (RetryGateState::Ready, RetryGateInput::TerminalFailure) => Some(RetryGateState::Parked),
        (_, RetryGateInput::ExplicitPause) => Some(RetryGateState::Parked),
        (_, RetryGateInput::NewMaterialTrigger) => Some(RetryGateState::Ready),
        (RetryGateState::BackingOff, RetryGateInput::RetryDeadlineExpired) => Some(
            RetryGateState::Ready,
        ),
        _ => None,
    }
}

/// The next `RetryGate` state.
pub fn retry_gate_next(s: RetryGateState, i: RetryGateInput) -> (n: Option<RetryGateState>)
    ensures
        n == retry_gate_next_spec(s, i),
{
    match (s, i) {
        (RetryGateState::Ready, RetryGateInput::RetryableFailure) => Some(
            RetryGateState::BackingOff,
        ),
        (RetryGateState::Ready, RetryGateInput::TerminalFailure) => Some(RetryGateState::Parked),
        (_, RetryGateInput::ExplicitPause) => Some(RetryGateState::Parked),
        (_, RetryGateInput::NewMaterialTrigger) => Some(RetryGateState::Ready),
        (RetryGateState::BackingOff, RetryGateInput::RetryDeadlineExpired) => Some(
            RetryGateState::Ready,
        ),
        _ => None,
    }
}

// ---------------------------------------------------------------------------
// AppPhase
// ---------------------------------------------------------------------------

/// `AppPhase` transitions: total, the target phase is the input's.
pub open spec fn app_phase_next_spec(s: AppPhaseState, i: AppPhaseInput) -> Option<AppPhaseState> {
    match i {
        AppPhaseInput::EnterForeground => Some(AppPhaseState::Foreground),
        AppPhaseInput::EnterBackground => Some(AppPhaseState::Background),
    }
}

/// The next `AppPhase` state.
pub fn app_phase_next(s: AppPhaseState, i: AppPhaseInput) -> (n: Option<AppPhaseState>)
    ensures
        n == app_phase_next_spec(s, i),
{
    match i {
        AppPhaseInput::EnterForeground => Some(AppPhaseState::Foreground),
        AppPhaseInput::EnterBackground => Some(AppPhaseState::Background),
    }
}

// ---------------------------------------------------------------------------
// NetworkPath
// ---------------------------------------------------------------------------

/// `NetworkPath` transitions. An offline observation makes an online or
/// unknown path a candidate; only `CommitOffline` turns a candidate into
/// `Offline`, and it leaves every other state unchanged.
pub open spec fn network_path_next_spec(s: NetworkPathState, i: NetworkPathInput) -> Option<NetworkPathState> {
    match i {
        NetworkPathInput::ObserveUnknown => Some(NetworkPathState::Unknown),
        NetworkPathInput::ObserveOnline => Some(NetworkPathState::Online),
        NetworkPathInput::ObserveOffline => if s == NetworkPathState::Offline {
            Some(NetworkPathState::Offline)
        } else {
            Some(NetworkPathState::OfflineCandidate)
        },
        NetworkPathInput::CommitOffline => if s == NetworkPathState::OfflineCandidate {
            Some(NetworkPathState::Offline)
        } else {
            Some(s)
        },
    }
}

/// The next `NetworkPath` state.
pub fn network_path_next(s: NetworkPathState, i: NetworkPathInput) -> (n: Option<NetworkPathState>)
    ensures
        n == network_path_next_spec(s, i),
{
    match i {
        NetworkPathInput::ObserveUnknown => Some(NetworkPathState::Unknown),
        NetworkPathInput::ObserveOnline => Some(NetworkPathState::Online),
        NetworkPathInput::ObserveOffline => {
            if s == NetworkPathState::Offline {
                Some(NetworkPathState::Offline)
            } else {
                Some(NetworkPathState::OfflineCandidate)
            }
        },
        NetworkPathInput::CommitOffline => {
            if s == NetworkPathState::OfflineCandidate {
                Some(NetworkPathState::Offline)
            } else {
                Some(s)
            }
        },
    }
}

// ---------------------------------------------------------------------------
// RecoveryIntent
// ---------------------------------------------------------------------------

/// The rank of a pending intent: `Idle < Probe < Restore < Reconnect`.
pub open spec fn intent_rank(s: RecoveryIntentState) -> nat {
    match s {
        RecoveryIntentState::Idle => 0,
        RecoveryIntentState::ProbePending => 1,
        RecoveryIntentState::RestorePending => 2,
        RecoveryIntentState::ReconnectPending => 3,
    }
}

/// The pending state a request asks for.
pub open spec fn requested_intent(i: RecoveryIntentInput) -> Option<RecoveryIntentState> {
    match i {
        RecoveryIntentInput::RequestProbe => Some(RecoveryIntentState::ProbePending),
        RecoveryIntentInput::RequestRestore => Some(RecoveryIntentState::RestorePending),
        RecoveryIntentInput::RequestReconnect => Some(RecoveryIntentState::ReconnectPending),
        _ => None,
    }
}

/// `RecoveryIntent` transitions. A request keeps the stronger of the pending
/// and the requested intent; a completion is defined only for the matching
/// pending intent; supersession returns any pending intent to `Idle`.
pub open spec fn recovery_intent_next_spec(s: RecoveryIntentState, i: RecoveryIntentInput) -> Option<RecoveryIntentState> {
    match requested_intent(i) {
        Some(r) => if intent_rank(r) > intent_rank(s) {
            Some(r)
        } else {
            Some(s)
        },
        None => match (s, i) {
            (RecoveryIntentState::ProbePending, RecoveryIntentInput::CompleteProbe) => Some(
                RecoveryIntentState::Idle,
            ),
            (RecoveryIntentState::RestorePending, RecoveryIntentInput::CompleteRestore) => Some(
                RecoveryIntentState::Idle,
            ),
            (RecoveryIntentState::ReconnectPending, RecoveryIntentInput::CompleteReconnect) => Some(
                RecoveryIntentState::Idle,
            ),
            (RecoveryIntentState::Idle, _) => None,
            (_, RecoveryIntentInput::SupersedeRecovery) => Some(RecoveryIntentState::Idle),
            _ => None,
        },
    }
}

fn intent_rank_of(s: RecoveryIntentState) -> (r: u8)
    ensures
        r == intent_rank(s),
{
    match s {
        RecoveryIntentState::Idle => 0,
        RecoveryIntentState::ProbePending => 1,
        RecoveryIntentState::RestorePending => 2,
        RecoveryIntentState::ReconnectPending => 3,
    }
}

/// The next `RecoveryIntent` state.
pub fn recovery_intent_next(s: RecoveryIntentState, i: RecoveryIntentInput) -> (n: Option<RecoveryIntentState>)
    ensures
        n == recovery_intent_next_spec(s, i),
{
    let requested = match i {
        RecoveryIntentInput::RequestProbe => Some(RecoveryIntentState::ProbePending),
        RecoveryIntentInput::RequestRestore => Some(RecoveryIntentState::RestorePending),
        RecoveryIntentInput::RequestReconnect => Some(RecoveryIntentState::ReconnectPending),
        _ => None,
    };
    match requested {
        Some(r) => {
            if intent_rank_of(r) > intent_rank_of(s) {
                Some(r)
            } else {
                Some(s)
            }
        },
        None => match (s, i) {
            (RecoveryIntentState::ProbePending, RecoveryIntentInput::CompleteProbe) => Some(
                RecoveryIntentState::Idle,
            ),
            (RecoveryIntentState::RestorePending, RecoveryIntentInput::CompleteRestore) => Some(
                RecoveryIntentState::Idle,
            ),
            (RecoveryIntentState::ReconnectPending, RecoveryIntentInput::CompleteReconnect) => Some(
                RecoveryIntentState::Idle,
            ),
            (RecoveryIntentState::Idle, _) => None,
            (_, RecoveryIntentInput::SupersedeRecovery) => Some(RecoveryIntentState::Idle),
            _ => None,
        },
    }
}

// ---------------------------------------------------------------------------
// OfflineWork
// ---------------------------------------------------------------------------

/// `OfflineWork` transitions; completion or supersession from `Idle` is
/// undefined.
pub open spec fn offline_work_next_spec(s: OfflineWorkState, i: OfflineWorkInput) -> Option<OfflineWorkState> {
    match (s, i) {
        (_, OfflineWorkInput::RequestDisconnect) => Some(OfflineWorkState::DisconnectPending),
        (OfflineWorkState::DisconnectPending, _) => Some(OfflineWorkState::Idle),
        (OfflineWorkState::Idle, _) => None,
    }
}

/// The next `OfflineWork` state.
pub fn offline_work_next(s: OfflineWorkState, i: OfflineWorkInput) -> (n: Option<OfflineWorkState>)
    ensures
        n == offline_work_next_spec(s, i),
{
    match (s, i) {
        (_, OfflineWorkInput::RequestDisconnect) => Some(OfflineWorkState::DisconnectPending),
        (OfflineWorkState::DisconnectPending, _) => Some(OfflineWorkState::Idle),
        (OfflineWorkState::Idle, _) => None,
    }
}

// ---------------------------------------------------------------------------
// Execution: the single-flight effect slot
// ---------------------------------------------------------------------------

/// The busy state a begin input enters.
pub open spec fn begun_execution(i: ExecutionInput) -> Option<ExecutionState> {
    match i {
        ExecutionInput::BeginOffline => Some(ExecutionState::Disconnecting),
        ExecutionInput::BeginProbe => Some(ExecutionState::Probing),
        ExecutionInput::BeginRestore => Some(ExecutionState::Restoring),
        ExecutionInput::BeginReconnect => Some(ExecutionState::Reconnecting),
        ExecutionInput::BeginCleanup => Some(ExecutionState::Cleaning),
        _ => None,
    }
}

/// `Execution` transitions: a begin input is defined only from `Idle`, and a
/// completion (succeeded, failed, cancelled) only from a busy state, which it
/// returns to `Idle`.
pub open spec fn execution_next_spec(s: ExecutionState, i: ExecutionInput) -> Option<ExecutionState> {
    match begun_execution(i) {
        Some(b) => if s == ExecutionState::Idle {
            Some(b)
        } else {
            None
        },
        None => if s == ExecutionState::Idle {
            None
        } else {
            Some(ExecutionState::Idle)
        },
    }
}

/// The next `Execution` state.
pub fn execution_next(s: ExecutionState, i: ExecutionInput) -> (n: Option<ExecutionState>)
    ensures
        n == execution_next_spec(s, i),
{
    let begun = match i {
        ExecutionInput::BeginOffline => Some(ExecutionState::Disconnecting),
        ExecutionInput::BeginProbe => Some(ExecutionState::Probing),
        ExecutionInput::BeginRestore => Some(ExecutionState::Restoring),
        ExecutionInput::BeginReconnect => Some(ExecutionState::Reconnecting),
        ExecutionInput::BeginCleanup => Some(ExecutionState::Cleaning),
        _ => None,
    };
    let idle = s == ExecutionState::Idle;
    match begun {
        Some(b) => {
            if idle {
                Some(b)
            } else {
                None
            }
        },
        None => {
            if idle {
                None
            } else {
                Some(ExecutionState::Idle)
            }
        },
    }
}

// ---------------------------------------------------------------------------
// Laws of the machines
// ---------------------------------------------------------------------------

/// `Terminating` is terminal: every input keeps it, so no later fact can
/// reactivate recovery in the same supervisor lifetime; and only a session
/// activation leads back to `Active`.
pub proof fn lemma_terminating_is_terminal(s: RecoveryModeState, i: RecoveryModeInput)
    ensures
        recovery_mode_next_spec(RecoveryModeState::Terminating, i) == Some(
            RecoveryModeState::Terminating,
        ),
        recovery_mode_next_spec(s, i) == Some(RecoveryModeState::Active) ==> i
            == RecoveryModeInput::SessionActivated,
{
}

/// Failure inputs reach only `Ready` gates: from `BackingOff` or `Parked` they
/// are undefined. A material trigger always frees a record.
pub proof fn lemma_failures_only_from_ready(s: RetryGateState)
    ensures
        s != RetryGateState::Ready ==> retry_gate_next_spec(s, RetryGateInput::RetryableFailure)
            is None && retry_gate_next_spec(s, RetryGateInput::TerminalFailure) is None,
        retry_gate_next_spec(s, RetryGateInput::NewMaterialTrigger) == Some(RetryGateState::Ready),
{
}

/// A recovery request never weakens the pending intent: afterwards the intent
/// is at least as strong as before and as requested.
pub proof fn lemma_request_never_weakens(s: RecoveryIntentState, i: RecoveryIntentInput)
    requires
        requested_intent(i) is Some,
    ensures
        recovery_intent_next_spec(s, i) matches Some(n) && intent_rank(n) >= intent_rank(s)
            && intent_rank(n) >= intent_rank(requested_intent(i)->0),
{
}

/// The execution slot is single-flight: a begin input is accepted only from
/// `Idle`, and every accepted completion returns the slot to `Idle`.
pub proof fn lemma_execution_single_flight(s: ExecutionState, i: ExecutionInput)
    ensures
        begun_execution(i) is Some && s != ExecutionState::Idle ==> execution_next_spec(s, i) is None,
        begun_execution(i) is None && execution_next_spec(s, i) is Some ==> execution_next_spec(
            s,
            i,
        ) == Some(ExecutionState::Idle),
{
}

} // verus!
