//! The execution phase of one serialized recovery action.
//!
//! The tracker owns only the phase of the single in-flight operation;
//! reachability, desired recovery and the last error belong to other layers.
use vstd::prelude::*;

use crate::network_event::NetworkRecoveryAction;
use crate::recovery_policy::machines::{execution_next, execution_next_spec};
use crate::recovery_policy::translate::{ExecutionInput, ExecutionState};

verus! {

/// The execution input that begins a wire recovery action; `None` for
/// `Noop`, which begins nothing.
pub open spec fn begin_input_of(action: NetworkRecoveryAction) -> Option<ExecutionInput> {
    match action {
        NetworkRecoveryAction::Noop => None,
        NetworkRecoveryAction::Offline => Some(ExecutionInput::BeginOffline),
        NetworkRecoveryAction::Probe => Some(ExecutionInput::BeginProbe),
        NetworkRecoveryAction::Restore => Some(ExecutionInput::BeginRestore),
        NetworkRecoveryAction::CleanupOnly => Some(ExecutionInput::BeginCleanup),
        NetworkRecoveryAction::ForceReconnect => Some(ExecutionInput::BeginReconnect),
    }
}

/// Tracks the execution phase of serialized recovery actions.
#[derive(Debug, Clone)]
pub struct RecoveryExecutionTracker {
    state: ExecutionState,
}

impl Default for RecoveryExecutionTracker {
    /// A tracker with nothing executing.
    fn default() -> (t: RecoveryExecutionTracker)
        ensures
            t.phase() == ExecutionState::Idle,
    {
        RecoveryExecutionTracker { state: ExecutionState::Idle }
    }
}

impl RecoveryExecutionTracker {
    /// The current phase.
    pub closed spec fn phase(&self) -> ExecutionState {
        self.state
    }

    /// A tracker with nothing executing.
    pub fn new() -> (t: RecoveryExecutionTracker)
        ensures
            t.phase() == ExecutionState::Idle,
    {
        RecoveryExecutionTracker { state: ExecutionState::Idle }
    }

    /// The current phase.
    pub fn current_state(&self) -> (s: ExecutionState)
        ensures
            s == self.phase(),
    {
        self.state
    }

    /// Begin an action: `Noop` reports the unchanged phase twice; any other
    /// action is accepted only from `Idle`, and the result is the phase
    /// before and after. An overlapping action is rejected with a message
    /// and leaves the phase unchanged.
    pub fn begin(&mut self, action: NetworkRecoveryAction) -> (r: Result<(ExecutionState, ExecutionState), String>)
        ensures
            match begin_input_of(action) {
                None => r == Ok::<(ExecutionState, ExecutionState), String>((old(self).phase(), old(self).phase()))
                    && final(self).phase() == old(self).phase(),
                Some(i) => match execution_next_spec(old(self).phase(), i) {
                    Some(n) => r == Ok::<(ExecutionState, ExecutionState), String>((old(self).phase(), n))
                        && final(self).phase() == n,
                    None => (r matches Err(e) && e@
                        == "invalid recovery action start: an action is already executing"@)
                        && final(self).phase() == old(self).phase(),
                },
            },
    {
        let input = match action {
            NetworkRecoveryAction::Noop => {
                return Ok((self.state, self.state));
            },
            NetworkRecoveryAction::Offline => ExecutionInput::BeginOffline,
            NetworkRecoveryAction::Probe => ExecutionInput::BeginProbe,
            NetworkRecoveryAction::Restore => ExecutionInput::BeginRestore,
            NetworkRecoveryAction::CleanupOnly => ExecutionInput::BeginCleanup,
            NetworkRecoveryAction::ForceReconnect => ExecutionInput::BeginReconnect,
        };
        let previous = self.state;
        match execution_next(previous, input) {
            Some(n) => {
                self.state = n;
                Ok((previous, n))
            },
            None => Err(String::from_str("invalid recovery action start: an action is already executing")),
        }
    }

    /// Complete the executing action, successfully or not; the result is the
    /// phase before and after. Completing while idle is rejected with a
    /// message and leaves the phase unchanged.
    pub fn complete(&mut self, succeeded: bool) -> (r: Result<(ExecutionState, ExecutionState), String>)
        ensures
            ({
                let i = if succeeded { ExecutionInput::Succeeded } else { ExecutionInput::Failed };
                match execution_next_spec(old(self).phase(), i) {
                    Some(n) => r == Ok::<(ExecutionState, ExecutionState), String>((old(self).phase(), n))
                        && final(self).phase() == n,
                    None => (r matches Err(e) && e@
                        == "invalid recovery action completion: nothing is executing"@)
                        && final(self).phase() == old(self).phase(),
                }
            }),
    {
        let input = if succeeded {
            ExecutionInput::Succeeded
        } else {
            ExecutionInput::Failed
        };
        let previous = self.state;
        match execution_next(previous, input) {
            Some(n) => {
                self.state = n;
                Ok((previous, n))
            },
            None => Err(String::from_str("invalid recovery action completion: nothing is executing")),
        }
    }
}

} // verus!
