//! Canonical, deterministic documentation of the lifecycle machines.
//!
//! Each machine is tabulated with its state and input names listed in
//! lexicographic order, so walking the table row-major yields the transition
//! rows sorted by `(current_state, input)` and the diagram edges grouped by
//! `(current_state, next_state)` with their input labels sorted. No hashing is
//! involved, so the output is byte-stable.
use vstd::prelude::*;

use crate::recovery_policy::machines::{
    app_phase_next, app_phase_next_spec, cleanup_work_next, cleanup_work_next_spec,
    execution_next, execution_next_spec, network_path_next, network_path_next_spec,
    offline_work_next, offline_work_next_spec, recovery_intent_next, recovery_intent_next_spec,
    recovery_mode_next, recovery_mode_next_spec, retry_gate_next, retry_gate_next_spec,
};
use crate::recovery_policy::translate::{
    AppPhaseInput, AppPhaseState, CleanupWorkInput, CleanupWorkState, ExecutionInput,
    ExecutionState, NetworkPathInput, NetworkPathState, OfflineWorkInput, OfflineWorkState,
    RecoveryIntentInput, RecoveryIntentState, RecoveryModeInput, RecoveryModeState,
    RetryGateInput, RetryGateState,
};

verus! {

/// A machine's transition table over indexed states and inputs: `next[s *
/// inputs + i]` is the index of the state that input `i` leads to from state
/// `s`, or `None` where the machine leaves the pair undefined.
pub struct MachineTable {
    pub states: Vec<&'static str>,
    pub inputs: Vec<&'static str>,
    pub initial: usize,
    pub next: Vec<Option<usize>>,
}

/// Names are non-empty, the initial state and every target are states, and
/// the table has one cell per state and input.
pub open spec fn table_wf(t: &MachineTable) -> bool {
    &&& t.states@.len() > 0
    &&& t.inputs@.len() > 0
    &&& t.initial < t.states@.len()
    &&& t.next@.len() == t.states@.len() * t.inputs@.len()
    &&& forall|k: int|
        0 <= k < t.next@.len() ==> match #[trigger] t.next@[k] {
            Some(n) => n < t.states@.len(),
            None => true,
        }
    &&& forall|s: int| 0 <= s < t.states@.len() ==> (#[trigger] t.states@[s])@.len() > 0
    &&& forall|i: int| 0 <= i < t.inputs@.len() ==> (#[trigger] t.inputs@[i])@.len() > 0
}

/// The target of input `i` from state `s`.
pub open spec fn cell(t: &MachineTable, s: int, i: int) -> Option<usize> {
    t.next@[s * t.inputs@.len() + i]
}

/// The table heading.
pub open spec fn table_header() -> Seq<char> {
    "| Current State | Input | Next State |\n|---|---|---|\n"@
}

/// The row of cell `k` (row-major): `| state | input | next |` when defined.
pub open spec fn row_text(t: &MachineTable, k: int) -> Seq<char> {
    let m = t.inputs@.len() as int;
    let s = k / m;
    let i = k % m;
    match t.next@[k] {
        Some(n) => "| "@ + t.states@[s]@ + " | "@ + t.inputs@[i]@ + " | "@ + t.states@[n as int]@
            + " |\n"@,
        None => Seq::empty(),
    }
}

/// The rows of the first `k` cells.
pub open spec fn rows_text(t: &MachineTable, k: int) -> Seq<char>
    decreases k,
{
    if k <= 0 {
        Seq::empty()
    } else {
        rows_text(t, k - 1) + row_text(t, k - 1)
    }
}

/// The canonical transition table: the heading, then one row per defined
/// transition in `(state, input)` order.
pub open spec fn table_text(t: &MachineTable) -> Seq<char> {
    table_header() + rows_text(t, t.next@.len() as int)
}

/// The input labels, joined by ` / `, of the first `k` inputs that lead from
/// state `from` to state `to`.
pub open spec fn labels_text(t: &MachineTable, from: int, to: int, k: int) -> Seq<char>
    decreases k,
{
    if k <= 0 {
        Seq::empty()
    } else {
        let prev = labels_text(t, from, to, k - 1);
        if cell(t, from, k - 1) == Some(to as usize) {
            if prev.len() == 0 {
                t.inputs@[k - 1]@
            } else {
                prev + " / "@ + t.inputs@[k - 1]@
            }
        } else {
            prev
        }
    }
}

/// The diagram edge from state `from` to state `to`, when some input leads
/// there: its input labels, sorted and joined.
pub open spec fn edge_text(t: &MachineTable, from: int, to: int) -> Seq<char> {
    let labels = labels_text(t, from, to, t.inputs@.len() as int);
    if labels.len() > 0 {
        "    "@ + t.states@[from]@ + " --> "@ + t.states@[to]@ + " : "@ + labels + "\n"@
    } else {
        Seq::empty()
    }
}

/// The edges from state `from` to the first `k` states.
pub open spec fn edges_from(t: &MachineTable, from: int, k: int) -> Seq<char>
    decreases k,
{
    if k <= 0 {
        Seq::empty()
    } else {
        edges_from(t, from, k - 1) + edge_text(t, from, k - 1)
    }
}

/// The edges from the first `k` states.
pub open spec fn edges_text(t: &MachineTable, k: int) -> Seq<char>
    decreases k,
{
    if k <= 0 {
        Seq::empty()
    } else {
        edges_text(t, k - 1) + edges_from(t, k - 1, t.states@.len() as int)
    }
}

/// The canonical state diagram: the header, the initial-state arrow, and one
/// edge per `(current_state, next_state)` pair, labelled with its inputs.
pub open spec fn mermaid_text(t: &MachineTable) -> Seq<char> {
    "stateDiagram-v2\n"@ + "    [*] --> "@ + t.states@[t.initial as int]@ + "\n"@ + edges_text(
        t,
        t.states@.len() as int,
    )
}

/// Generate the canonical transition table.
pub fn canonical_transition_table(t: &MachineTable) -> (out: String)
    requires
        table_wf(t),
    ensures
        out@ == table_text(t),
{
    let m = t.inputs.len();
    let total = t.next.len();
    let mut out = String::from_str("| Current State | Input | Next State |\n|---|---|---|\n");
    let mut k: usize = 0;
    while k < total
        invariant
            table_wf(t),
            m == t.inputs@.len(),
            total == t.next@.len(),
            k <= total,
            out@ == table_header() + rows_text(t, k as int),
        decreases total - k,
    {
        assert(m > 0);
        let s = k / m;
        let i = k % m;
        proof {
            assert(s < t.states@.len()) by (nonlinear_arith)
                requires
                    s == k / m,
                    k < t.states@.len() * m,
                    m > 0,
            ;
            assert(0 <= i < m) by (nonlinear_arith)
                requires
                    i == k % m,
                    m > 0,
            ;
        }
        match t.next[k] {
            Some(n) => {
                out.append("| ");
                out.append(t.states[s]);
                out.append(" | ");
                out.append(t.inputs[i]);
                out.append(" | ");
                out.append(t.states[n]);
                out.append(" |\n");
            },
            None => {},
        }
        assert(out@ =~= table_header() + rows_text(t, k + 1));
        k = k + 1;
    }
    out
}

fn join_labels(t: &MachineTable, from: usize, to: usize) -> (labels: String)
    requires
        table_wf(t),
        from < t.states@.len(),
        to < t.states@.len(),
    ensures
        labels@ == labels_text(t, from as int, to as int, t.inputs@.len() as int),
{
    let m = t.inputs.len();
    let mut labels = String::new();
    let mut i: usize = 0;
    while i < m
        invariant
            table_wf(t),
            from < t.states@.len(),
            to < t.states@.len(),
            m == t.inputs@.len(),
            i <= m,
            labels@ == labels_text(t, from as int, to as int, i as int),
        decreases m - i,
    {
        let total = t.next.len();
        proof {
            assert(from * m + i < t.states@.len() * m) by (nonlinear_arith)
                requires
                    from < t.states@.len(),
                    i < m,
            ;
            assert(from * m <= from * m + i);
        }
        let idx = from * m + i;
        let hit = match t.next[idx] {
            Some(n) => n == to,
            None => false,
        };
        if hit {
            if !labels.as_str().is_empty() {
                labels.append(" / ");
            }
            labels.append(t.inputs[i]);
        }
        assert(labels@ =~= labels_text(t, from as int, to as int, i + 1));
        i = i + 1;
    }
    labels
}

/// Generate the canonical state diagram.
pub fn canonical_mermaid(t: &MachineTable) -> (out: String)
    requires
        table_wf(t),
    ensures
        out@ == mermaid_text(t),
{
    let n = t.states.len();
    let mut out = String::from_str("stateDiagram-v2\n");
    out.append("    [*] --> ");
    out.append(t.states[t.initial]);
    out.append("\n");
    let ghost head = out@;
    let mut from: usize = 0;
    while from < n
        invariant
            table_wf(t),
            n == t.states@.len(),
            from <= n,
            head == "stateDiagram-v2\n"@ + "    [*] --> "@ + t.states@[t.initial as int]@ + "\n"@,
            out@ == head + edges_text(t, from as int),
        decreases n - from,
    {
        let ghost before = out@;
        let mut to: usize = 0;
        while to < n
            invariant
                table_wf(t),
                n == t.states@.len(),
                from < n,
                to <= n,
                out@ == before + edges_from(t, from as int, to as int),
            decreases n - to,
        {
            let labels = join_labels(t, from, to);
            if !labels.as_str().is_empty() {
                out.append("    ");
                out.append(t.states[from]);
                out.append(" --> ");
                out.append(t.states[to]);
                out.append(" : ");
                out.append(labels.as_str());
                out.append("\n");
            }
            assert(out@ =~= before + edges_from(t, from as int, to + 1));
            to = to + 1;
        }
        assert(out@ =~= head + edges_text(t, from + 1));
        from = from + 1;
    }
    out
}


// ---------------------------------------------------------------------------
// recovery-mode
// ---------------------------------------------------------------------------

/// The `RecoveryModeState` at a sorted position.
pub open spec fn recovery_mode_state(k: int) -> RecoveryModeState {
    if k == 0 {
        RecoveryModeState::Active
    } else if k == 1 {
        RecoveryModeState::LoggedOut
    } else {
        RecoveryModeState::Terminating
    }
}

/// The `RecoveryModeInput` at a sorted position.
pub open spec fn recovery_mode_input(k: int) -> RecoveryModeInput {
    if k == 0 {
        RecoveryModeInput::AppTerminating
    } else if k == 1 {
        RecoveryModeInput::SessionActivated
    } else {
        RecoveryModeInput::UserLoggedOut
    }
}

/// The sorted position of a `RecoveryModeState`.
pub open spec fn recovery_mode_index(s: RecoveryModeState) -> usize {
    match s {
        RecoveryModeState::Active => 0,
        RecoveryModeState::LoggedOut => 1,
        RecoveryModeState::Terminating => 2,
    }
}

/// `t` tabulates the machine: sorted names, its initial state, and every cell
/// the machine's transition function.
pub open spec fn recovery_mode_tabulated(t: &MachineTable) -> bool {
    &&& table_wf(t)
    &&& t.states@.map_values(|n: &'static str| n@) == seq!["Active"@, "LoggedOut"@, "Terminating"@]
    &&& t.inputs@.map_values(|n: &'static str| n@) == seq!["AppTerminating"@, "SessionActivated"@, "UserLoggedOut"@]
    &&& t.initial == recovery_mode_index(RecoveryModeState::Active)
    &&& forall|s: int, i: int|
        0 <= s < 3 && 0 <= i < 3 ==> #[trigger] cell(t, s, i) == match recovery_mode_next_spec(
            recovery_mode_state(s),
            recovery_mode_input(i),
        ) {
            Some(n) => Some(recovery_mode_index(n)),
            None => None,
        }
}

fn recovery_mode_state_at(k: usize) -> (s: RecoveryModeState)
    ensures
        s == recovery_mode_state(k as int),
{
    match k {
        0 => RecoveryModeState::Active,
        1 => RecoveryModeState::LoggedOut,
        _ => RecoveryModeState::Terminating,
    }
}

fn recovery_mode_input_at(k: usize) -> (i: RecoveryModeInput)
    ensures
        i == recovery_mode_input(k as int),
{
    match k {
        0 => RecoveryModeInput::AppTerminating,
        1 => RecoveryModeInput::SessionActivated,
        _ => RecoveryModeInput::UserLoggedOut,
    }
}

fn recovery_mode_index_of(s: RecoveryModeState) -> (k: usize)
    ensures
        k == recovery_mode_index(s),
{
    match s {
        RecoveryModeState::Active => 0,
        RecoveryModeState::LoggedOut => 1,
        RecoveryModeState::Terminating => 2,
    }
}

/// The `recovery-mode` machine's table.
pub fn recovery_mode_table() -> (t: MachineTable)
    ensures
        recovery_mode_tabulated(&t),
{
    let mut states: Vec<&'static str> = Vec::new();
    states.push("Active");
    states.push("LoggedOut");
    states.push("Terminating");
    let mut inputs: Vec<&'static str> = Vec::new();
    inputs.push("AppTerminating");
    inputs.push("SessionActivated");
    inputs.push("UserLoggedOut");
    let mut next: Vec<Option<usize>> = Vec::new();
    let mut k: usize = 0;
    while k < 9
        invariant
            k <= 9,
            next@.len() == k,
            forall|j: int|
                0 <= j < k ==> #[trigger] next@[j] == match recovery_mode_next_spec(
                    recovery_mode_state(j / 3),
                    recovery_mode_input(j % 3),
                ) {
                    Some(n) => Some(recovery_mode_index(n)),
                    None => None,
                },
        decreases 9 - k,
    {
        let target = match recovery_mode_next(recovery_mode_state_at(k / 3), recovery_mode_input_at(k % 3)) {
            Some(n) => Some(recovery_mode_index_of(n)),
            None => None,
        };
        next.push(target);
        k = k + 1;
    }
    proof {
        reveal_strlit("Active");
        reveal_strlit("LoggedOut");
        reveal_strlit("Terminating");
        reveal_strlit("AppTerminating");
        reveal_strlit("SessionActivated");
        reveal_strlit("UserLoggedOut");
        assert(states@.map_values(|n: &'static str| n@) =~= seq!["Active"@, "LoggedOut"@, "Terminating"@]);
        assert(inputs@.map_values(|n: &'static str| n@) =~= seq!["AppTerminating"@, "SessionActivated"@, "UserLoggedOut"@]);
    }
    let t = MachineTable { states, inputs, initial: recovery_mode_index_of(RecoveryModeState::Active), next };
    assert forall|s: int, i: int| 0 <= s < 3 && 0 <= i < 3 implies #[trigger] cell(&t, s, i) == match recovery_mode_next_spec(
        recovery_mode_state(s),
        recovery_mode_input(i),
    ) {
        Some(n) => Some(recovery_mode_index(n)),
        None => None,
    } by {
        assert((s * 3 + i) / 3 == s);
        assert((s * 3 + i) % 3 == i);
    }
    t
}

// ---------------------------------------------------------------------------
// cleanup-work
// ---------------------------------------------------------------------------

/// The `CleanupWorkState` at a sorted position.
pub open spec fn cleanup_work_state(k: int) -> CleanupWorkState {
    if k == 0 {
        CleanupWorkState::CleanupPending
    } else {
        CleanupWorkState::Idle
    }
}

/// The `CleanupWorkInput` at a sorted position.
pub open spec fn cleanup_work_input(k: int) -> CleanupWorkInput {
    if k == 0 {
        CleanupWorkInput::CompleteCleanup
    } else {
        CleanupWorkInput::RequestCleanup
    }
}

/// The sorted position of a `CleanupWorkState`.
pub open spec fn cleanup_work_index(s: CleanupWorkState) -> usize {
    match s {
        CleanupWorkState::CleanupPending => 0,
        CleanupWorkState::Idle => 1,
    }
}

/// `t` tabulates the machine: sorted names, its initial state, and every cell
/// the machine's transition function.
pub open spec fn cleanup_work_tabulated(t: &MachineTable) -> bool {
    &&& table_wf(t)
    &&& t.states@.map_values(|n: &'static str| n@) == seq!["CleanupPending"@, "Idle"@]
    &&& t.inputs@.map_values(|n: &'static str| n@) == seq!["CompleteCleanup"@, "RequestCleanup"@]
    &&& t.initial == cleanup_work_index(CleanupWorkState::Idle)
    &&& forall|s: int, i: int|
        0 <= s < 2 && 0 <= i < 2 ==> #[trigger] cell(t, s, i) == match cleanup_work_next_spec(
            cleanup_work_state(s),
            cleanup_work_input(i),
        ) {
            Some(n) => Some(cleanup_work_index(n)),
            None => None,
        }
}

fn cleanup_work_state_at(k: usize) -> (s: CleanupWorkState)
    ensures
        s == cleanup_work_state(k as int),
{
    match k {
        0 => CleanupWorkState::CleanupPending,
        _ => CleanupWorkState::Idle,
    }
}

fn cleanup_work_input_at(k: usize) -> (i: CleanupWorkInput)
    ensures
        i == cleanup_work_input(k as int),
{
    match k {
        0 => CleanupWorkInput::CompleteCleanup,
        _ => CleanupWorkInput::RequestCleanup,
    }
}

fn cleanup_work_index_of(s: CleanupWorkState) -> (k: usize)
    ensures
        k == cleanup_work_index(s),
{
    match s {
        CleanupWorkState::CleanupPending => 0,
        CleanupWorkState::Idle => 1,
    }
}

/// The `cleanup-work` machine's table.
pub fn cleanup_work_table() -> (t: MachineTable)
    ensures
        cleanup_work_tabulated(&t),
{
    let mut states: Vec<&'static str> = Vec::new();
    states.push("CleanupPending");
    states.push("Idle");
    let mut inputs: Vec<&'static str> = Vec::new();
    inputs.push("CompleteCleanup");
    inputs.push("RequestCleanup");
    let mut next: Vec<Option<usize>> = Vec::new();
    let mut k: usize = 0;
    while k < 4
        invariant
            k <= 4,
            next@.len() == k,
            forall|j: int|
                0 <= j < k ==> #[trigger] next@[j] == match cleanup_work_next_spec(
                    cleanup_work_state(j / 2),
                    cleanup_work_input(j % 2),
                ) {
                    Some(n) => Some(cleanup_work_index(n)),
                    None => None,
                },
        decreases 4 - k,
    {
        let target = match cleanup_work_next(cleanup_work_state_at(k / 2), cleanup_work_input_at(k % 2)) {
            Some(n) => Some(cleanup_work_index_of(n)),
            None => None,
        };
        next.push(target);
        k = k + 1;
    }
    proof {
        reveal_strlit("CleanupPending");
        reveal_strlit("Idle");
        reveal_strlit("CompleteCleanup");
        reveal_strlit("RequestCleanup");
        assert(states@.map_values(|n: &'static str| n@) =~= seq!["CleanupPending"@, "Idle"@]);
        assert(inputs@.map_values(|n: &'static str| n@) =~= seq!["CompleteCleanup"@, "RequestCleanup"@]);
    }
    let t = MachineTable { states, inputs, initial: cleanup_work_index_of(CleanupWorkState::Idle), next };
    assert forall|s: int, i: int| 0 <= s < 2 && 0 <= i < 2 implies #[trigger] cell(&t, s, i) == match cleanup_work_next_spec(
        cleanup_work_state(s),
        cleanup_work_input(i),
    ) {
        Some(n) => Some(cleanup_work_index(n)),
        None => None,
    } by {
        assert((s * 2 + i) / 2 == s);
        assert((s * 2 + i) % 2 == i);
    }
    t
}

// ---------------------------------------------------------------------------
// retry-gate
// ---------------------------------------------------------------------------

/// The `RetryGateState` at a sorted position.
pub open spec fn retry_gate_state(k: int) -> RetryGateState {
    if k == 0 {
        RetryGateState::BackingOff
    } else if k == 1 {
        RetryGateState::Parked
    } else {
        RetryGateState::Ready
    }
}

/// The `RetryGateInput` at a sorted position.
pub open spec fn retry_gate_input(k: int) -> RetryGateInput {
    if k == 0 {
        RetryGateInput::ExplicitPause
    } else if k == 1 {
        RetryGateInput::NewMaterialTrigger
    } else if k == 2 {
        RetryGateInput::RetryDeadlineExpired
    } else if k == 3 {
        RetryGateInput::RetryableFailure
    } else {
        RetryGateInput::TerminalFailure
    }
}

/// The sorted position of a `RetryGateState`.
pub open spec fn retry_gate_index(s: RetryGateState) -> usize {
    match s {
        RetryGateState::BackingOff => 0,
        RetryGateState::Parked => 1,
        RetryGateState::Ready => 2,
    }
}

/// `t` tabulates the machine: sorted names, its initial state, and every cell
/// the machine's transition function.
pub open spec fn retry_gate_tabulated(t: &MachineTable) -> bool {
    &&& table_wf(t)
    &&& t.states@.map_values(|n: &'static str| n@) == seq!["BackingOff"@, "Parked"@, "Ready"@]
    &&& t.inputs@.map_values(|n: &'static str| n@) == seq!["ExplicitPause"@, "NewMaterialTrigger"@, "RetryDeadlineExpired"@, "RetryableFailure"@, "TerminalFailure"@]
    &&& t.initial == retry_gate_index(RetryGateState::Ready)
    &&& forall|s: int, i: int|
        0 <= s < 3 && 0 <= i < 5 ==> #[trigger] cell(t, s, i) == match retry_gate_next_spec(
            retry_gate_state(s),
            retry_gate_input(i),
        ) {
            Some(n) => Some(retry_gate_index(n)),
            None => None,
        }
}

fn retry_gate_state_at(k: usize) -> (s: RetryGateState)
    ensures
        s == retry_gate_state(k as int),
{
    match k {
        0 => RetryGateState::BackingOff,
        1 => RetryGateState::Parked,
        _ => RetryGateState::Ready,
    }
}

fn retry_gate_input_at(k: usize) -> (i: RetryGateInput)
    ensures
        i == retry_gate_input(k as int),
{
    match k {
        0 => RetryGateInput::ExplicitPause,
        1 => RetryGateInput::NewMaterialTrigger,
        2 => RetryGateInput::RetryDeadlineExpired,
        3 => RetryGateInput::RetryableFailure,
        _ => RetryGateInput::TerminalFailure,
    }
}

fn retry_gate_index_of(s: RetryGateState) -> (k: usize)
    ensures
        k == retry_gate_index(s),
{
    match s {
        RetryGateState::BackingOff => 0,
        RetryGateState::Parked => 1,
        RetryGateState::Ready => 2,
    }
}

/// The `retry-gate` machine's table.
pub fn retry_gate_table() -> (t: MachineTable)
    ensures
        retry_gate_tabulated(&t),
{
    let mut states: Vec<&'static str> = Vec::new();
    states.push("BackingOff");
    states.push("Parked");
    states.push("Ready");
    let mut inputs: Vec<&'static str> = Vec::new();
    inputs.push("ExplicitPause");
    inputs.push("NewMaterialTrigger");
    inputs.push("RetryDeadlineExpired");
    inputs.push("RetryableFailure");
    inputs.push("TerminalFailure");
    let mut next: Vec<Option<usize>> = Vec::new();
    let mut k: usize = 0;
    while k < 15
        invariant
            k <= 15,
            next@.len() == k,
            forall|j: int|
                0 <= j < k ==> #[trigger] next@[j] == match retry_gate_next_spec(
                    retry_gate_state(j / 5),
                    retry_gate_input(j % 5),
                ) {
                    Some(n) => Some(retry_gate_index(n)),
                    None => None,
                },
        decreases 15 - k,
    {
        let target = match retry_gate_next(retry_gate_state_at(k / 5), retry_gate_input_at(k % 5)) {
            Some(n) => Some(retry_gate_index_of(n)),
            None => None,
        };
        next.push(target);
        k = k + 1;
    }
    proof {
        reveal_strlit("BackingOff");
        reveal_strlit("Parked");
        reveal_strlit("Ready");
        reveal_strlit("ExplicitPause");
        reveal_strlit("NewMaterialTrigger");
        reveal_strlit("RetryDeadlineExpired");
        reveal_strlit("RetryableFailure");
        reveal_strlit("TerminalFailure");
        assert(states@.map_values(|n: &'static str| n@) =~= seq!["BackingOff"@, "Parked"@, "Ready"@]);
        assert(inputs@.map_values(|n: &'static str| n@) =~= seq!["ExplicitPause"@, "NewMaterialTrigger"@, "RetryDeadlineExpired"@, "RetryableFailure"@, "TerminalFailure"@]);
    }
    let t = MachineTable { states, inputs, initial: retry_gate_index_of(RetryGateState::Ready), next };
    assert forall|s: int, i: int| 0 <= s < 3 && 0 <= i < 5 implies #[trigger] cell(&t, s, i) == match retry_gate_next_spec(
        retry_gate_state(s),
        retry_gate_input(i),
    ) {
        Some(n) => Some(retry_gate_index(n)),
        None => None,
    } by {
        assert((s * 5 + i) / 5 == s);
        assert((s * 5 + i) % 5 == i);
    }
    t
}

// ---------------------------------------------------------------------------
// app-phase
// ---------------------------------------------------------------------------

/// The `AppPhaseState` at a sorted position.
pub open spec fn app_phase_state(k: int) -> AppPhaseState {
    if k == 0 {
        AppPhaseState::Background
    } else if k == 1 {
        AppPhaseState::Foreground
    } else {
        AppPhaseState::Unknown
    }
}

/// The `AppPhaseInput` at a sorted position.
pub open spec fn app_phase_input(k: int) -> AppPhaseInput {
    if k == 0 {
        AppPhaseInput::EnterBackground
    } else {
        AppPhaseInput::EnterForeground
    }
}

/// The sorted position of a `AppPhaseState`.
pub open spec fn app_phase_index(s: AppPhaseState) -> usize {
    match s {
        AppPhaseState::Background => 0,
        AppPhaseState::Foreground => 1,
        AppPhaseState::Unknown => 2,
    }
}

/// `t` tabulates the machine: sorted names, its initial state, and every cell
/// the machine's transition function.
pub open spec fn app_phase_tabulated(t: &MachineTable) -> bool {
    &&& table_wf(t)
    &&& t.states@.map_values(|n: &'static str| n@) == seq!["Background"@, "Foreground"@, "Unknown"@]
    &&& t.inputs@.map_values(|n: &'static str| n@) == seq!["EnterBackground"@, "EnterForeground"@]
    &&& t.initial == app_phase_index(AppPhaseState::Unknown)
    &&& forall|s: int, i: int|
        0 <= s < 3 && 0 <= i < 2 ==> #[trigger] cell(t, s, i) == match app_phase_next_spec(
            app_phase_state(s),
            app_phase_input(i),
        ) {
            Some(n) => Some(app_phase_index(n)),
            None => None,
        }
}

fn app_phase_state_at(k: usize) -> (s: AppPhaseState)
    ensures
        s == app_phase_state(k as int),
{
    match k {
        0 => AppPhaseState::Background,
        1 => AppPhaseState::Foreground,
        _ => AppPhaseState::Unknown,
    }
}

fn app_phase_input_at(k: usize) -> (i: AppPhaseInput)
    ensures
        i == app_phase_input(k as int),
{
    match k {
        0 => AppPhaseInput::EnterBackground,
        _ => AppPhaseInput::EnterForeground,
    }
}

fn app_phase_index_of(s: AppPhaseState) -> (k: usize)
    ensures
        k == app_phase_index(s),
{
    match s {
        AppPhaseState::Background => 0,
        AppPhaseState::Foreground => 1,
        AppPhaseState::Unknown => 2,
    }
}

/// The `app-phase` machine's table.
pub fn app_phase_table() -> (t: MachineTable)
    ensures
        app_phase_tabulated(&t),
{
    let mut states: Vec<&'static str> = Vec::new();
    states.push("Background");
    states.push("Foreground");
    states.push("Unknown");
    let mut inputs: Vec<&'static str> = Vec::new();
    inputs.push("EnterBackground");
    inputs.push("EnterForeground");
    let mut next: Vec<Option<usize>> = Vec::new();
    let mut k: usize = 0;
    while k < 6
        invariant
            k <= 6,
            next@.len() == k,
            forall|j: int|
                0 <= j < k ==> #[trigger] next@[j] == match app_phase_next_spec(
                    app_phase_state(j / 2),
                    app_phase_input(j % 2),
                ) {
                    Some(n) => Some(app_phase_index(n)),
                    None => None,
                },
        decreases 6 - k,
    {
        let target = match app_phase_next(app_phase_state_at(k / 2), app_phase_input_at(k % 2)) {
            Some(n) => Some(app_phase_index_of(n)),
            None => None,
        };
        next.push(target);
        k = k + 1;
    }
    proof {
        reveal_strlit("Background");
        reveal_strlit("Foreground");
        reveal_strlit("Unknown");
        reveal_strlit("EnterBackground");
        reveal_strlit("EnterForeground");
        assert(states@.map_values(|n: &'static str| n@) =~= seq!["Background"@, "Foreground"@, "Unknown"@]);
        assert(inputs@.map_values(|n: &'static str| n@) =~= seq!["EnterBackground"@, "EnterForeground"@]);
    }
    let t = MachineTable { states, inputs, initial: app_phase_index_of(AppPhaseState::Unknown), next };
    assert forall|s: int, i: int| 0 <= s < 3 && 0 <= i < 2 implies #[trigger] cell(&t, s, i) == match app_phase_next_spec(
        app_phase_state(s),
        app_phase_input(i),
    ) {
        Some(n) => Some(app_phase_index(n)),
        None => None,
    } by {
        assert((s * 2 + i) / 2 == s);
        assert((s * 2 + i) % 2 == i);
    }
    t
}

// ---------------------------------------------------------------------------
// network-path
// ---------------------------------------------------------------------------

/// The `NetworkPathState` at a sorted position.
pub open spec fn network_path_state(k: int) -> NetworkPathState {
    if k == 0 {
        NetworkPathState::Offline
    } else if k == 1 {
        NetworkPathState::OfflineCandidate
    } else if k == 2 {
        NetworkPathState::Online
    } else {
        NetworkPathState::Unknown
    }
}

/// The `NetworkPathInput` at a sorted position.
pub open spec fn network_path_input(k: int) -> NetworkPathInput {
    if k == 0 {
        NetworkPathInput::CommitOffline
    } else if k == 1 {
        NetworkPathInput::ObserveOffline
    } else if k == 2 {
        NetworkPathInput::ObserveOnline
    } else {
        NetworkPathInput::ObserveUnknown
    }
}

/// The sorted position of a `NetworkPathState`.
pub open spec fn network_path_index(s: NetworkPathState) -> usize {
    match s {
        NetworkPathState::Offline => 0,
        NetworkPathState::OfflineCandidate => 1,
        NetworkPathState::Online => 2,
        NetworkPathState::Unknown => 3,
    }
}

/// `t` tabulates the machine: sorted names, its initial state, and every cell
/// the machine's transition function.
pub open spec fn network_path_tabulated(t: &MachineTable) -> bool {
    &&& table_wf(t)
    &&& t.states@.map_values(|n: &'static str| n@) == seq!["Offline"@, "OfflineCandidate"@, "Online"@, "Unknown"@]
    &&& t.inputs@.map_values(|n: &'static str| n@) == seq!["CommitOffline"@, "ObserveOffline"@, "ObserveOnline"@, "ObserveUnknown"@]
    &&& t.initial == network_path_index(NetworkPathState::Unknown)
    &&& forall|s: int, i: int|
        0 <= s < 4 && 0 <= i < 4 ==> #[trigger] cell(t, s, i) == match network_path_next_spec(
            network_path_state(s),
            network_path_input(i),
        ) {
            Some(n) => Some(network_path_index(n)),
            None => None,
        }
}

fn network_path_state_at(k: usize) -> (s: NetworkPathState)
    ensures
        s == network_path_state(k as int),
{
    match k {
        0 => NetworkPathState::Offline,
        1 => NetworkPathState::OfflineCandidate,
        2 => NetworkPathState::Online,
        _ => NetworkPathState::Unknown,
    }
}

fn network_path_input_at(k: usize) -> (i: NetworkPathInput)
    ensures
        i == network_path_input(k as int),
{
    match k {
        0 => NetworkPathInput::CommitOffline,
        1 => NetworkPathInput::ObserveOffline,
        2 => NetworkPathInput::ObserveOnline,
        _ => NetworkPathInput::ObserveUnknown,
    }
}

fn network_path_index_of(s: NetworkPathState) -> (k: usize)
    ensures
        k == network_path_index(s),
{
    match s {
        NetworkPathState::Offline => 0,
        NetworkPathState::OfflineCandidate => 1,
        NetworkPathState::Online => 2,
        NetworkPathState::Unknown => 3,
    }
}

/// The `network-path` machine's table.
pub fn network_path_table() -> (t: MachineTable)
    ensures
        network_path_tabulated(&t),
{
    let mut states: Vec<&'static str> = Vec::new();
    states.push("Offline");
    states.push("OfflineCandidate");
    states.push("Online");
    states.push("Unknown");
    let mut inputs: Vec<&'static str> = Vec::new();
    inputs.push("CommitOffline");
    inputs.push("ObserveOffline");
    inputs.push("ObserveOnline");
    inputs.push("ObserveUnknown");
    let mut next: Vec<Option<usize>> = Vec::new();
    let mut k: usize = 0;
    while k < 16
        invariant
            k <= 16,
            next@.len() == k,
            forall|j: int|
                0 <= j < k ==> #[trigger] next@[j] == match network_path_next_spec(
                    network_path_state(j / 4),
                    network_path_input(j % 4),
                ) {
                    Some(n) => Some(network_path_index(n)),
                    None => None,
                },
        decreases 16 - k,
    {
        let target = match network_path_next(network_path_state_at(k / 4), network_path_input_at(k % 4)) {
            Some(n) => Some(network_path_index_of(n)),
            None => None,
        };
        next.push(target);
        k = k + 1;
    }
    proof {
        reveal_strlit("Offline");
        reveal_strlit("OfflineCandidate");
        reveal_strlit("Online");
        reveal_strlit("Unknown");
        reveal_strlit("CommitOffline");
        reveal_strlit("ObserveOffline");
        reveal_strlit("ObserveOnline");
        reveal_strlit("ObserveUnknown");
        assert(states@.map_values(|n: &'static str| n@) =~= seq!["Offline"@, "OfflineCandidate"@, "Online"@, "Unknown"@]);
        assert(inputs@.map_values(|n: &'static str| n@) =~= seq!["CommitOffline"@, "ObserveOffline"@, "ObserveOnline"@, "ObserveUnknown"@]);
    }
    let t = MachineTable { states, inputs, initial: network_path_index_of(NetworkPathState::Unknown), next };
    assert forall|s: int, i: int| 0 <= s < 4 && 0 <= i < 4 implies #[trigger] cell(&t, s, i) == match network_path_next_spec(
        network_path_state(s),
        network_path_input(i),
    ) {
        Some(n) => Some(network_path_index(n)),
        None => None,
    } by {
        assert((s * 4 + i) / 4 == s);
        assert((s * 4 + i) % 4 == i);
    }
    t
}

// ---------------------------------------------------------------------------
// recovery-intent
// ---------------------------------------------------------------------------

/// The `RecoveryIntentState` at a sorted position.
pub open spec fn recovery_intent_state(k: int) -> RecoveryIntentState {
    if k == 0 {
        RecoveryIntentState::Idle
    } else if k == 1 {
        RecoveryIntentState::ProbePending
    } else if k == 2 {
        RecoveryIntentState::ReconnectPending
    } else {
        RecoveryIntentState::RestorePending
    }
}

/// The `RecoveryIntentInput` at a sorted position.
pub open spec fn recovery_intent_input(k: int) -> RecoveryIntentInput {
    if k == 0 {
        RecoveryIntentInput::CompleteProbe
    } else if k == 1 {
        RecoveryIntentInput::CompleteReconnect
    } else if k == 2 {
        RecoveryIntentInput::CompleteRestore
    } else if k == 3 {
        RecoveryIntentInput::RequestProbe
    } else if k == 4 {
        RecoveryIntentInput::RequestReconnect
    } else if k == 5 {
        RecoveryIntentInput::RequestRestore
    } else {
        RecoveryIntentInput::SupersedeRecovery
    }
}

/// The sorted position of a `RecoveryIntentState`.
pub open spec fn recovery_intent_index(s: RecoveryIntentState) -> usize {
    match s {
        RecoveryIntentState::Idle => 0,
        RecoveryIntentState::ProbePending => 1,
        RecoveryIntentState::ReconnectPending => 2,
        RecoveryIntentState::RestorePending => 3,
    }
}

/// `t` tabulates the machine: sorted names, its initial state, and every cell
/// the machine's transition function.
pub open spec fn recovery_intent_tabulated(t: &MachineTable) -> bool {
    &&& table_wf(t)
    &&& t.states@.map_values(|n: &'static str| n@) == seq!["Idle"@, "ProbePending"@, "ReconnectPending"@, "RestorePending"@]
    &&& t.inputs@.map_values(|n: &'static str| n@) == seq!["CompleteProbe"@, "CompleteReconnect"@, "CompleteRestore"@, "RequestProbe"@, "RequestReconnect"@, "RequestRestore"@, "SupersedeRecovery"@]
    &&& t.initial == recovery_intent_index(RecoveryIntentState::Idle)
    &&& forall|s: int, i: int|
        0 <= s < 4 && 0 <= i < 7 ==> #[trigger] cell(t, s, i) == match recovery_intent_next_spec(
            recovery_intent_state(s),
            recovery_intent_input(i),
        ) {
            Some(n) => Some(recovery_intent_index(n)),
            None => None,
        }
}

fn recovery_intent_state_at(k: usize) -> (s: RecoveryIntentState)
    ensures
        s == recovery_intent_state(k as int),
{
    match k {
        0 => RecoveryIntentState::Idle,
        1 => RecoveryIntentState::ProbePending,
        2 => RecoveryIntentState::ReconnectPending,
        _ => RecoveryIntentState::RestorePending,
    }
}

fn recovery_intent_input_at(k: usize) -> (i: RecoveryIntentInput)
    ensures
        i == recovery_intent_input(k as int),
{
    match k {
        0 => RecoveryIntentInput::CompleteProbe,
        1 => RecoveryIntentInput::CompleteReconnect,
        2 => RecoveryIntentInput::CompleteRestore,
        3 => RecoveryIntentInput::RequestProbe,
        4 => RecoveryIntentInput::RequestReconnect,
        5 => RecoveryIntentInput::RequestRestore,
        _ => RecoveryIntentInput::SupersedeRecovery,
    }
}

fn recovery_intent_index_of(s: RecoveryIntentState) -> (k: usize)
    ensures
        k == recovery_intent_index(s),
{
    match s {
        RecoveryIntentState::Idle => 0,
        RecoveryIntentState::ProbePending => 1,
        RecoveryIntentState::ReconnectPending => 2,
        RecoveryIntentState::RestorePending => 3,
    }
}

/// The `recovery-intent` machine's table.
pub fn recovery_intent_table() -> (t: MachineTable)
    ensures
        recovery_intent_tabulated(&t),
{
    let mut states: Vec<&'static str> = Vec::new();
    states.push("Idle");
    states.push("ProbePending");
    states.push("ReconnectPending");
    states.push("RestorePending");
    let mut inputs: Vec<&'static str> = Vec::new();
    inputs.push("CompleteProbe");
    inputs.push("CompleteReconnect");
    inputs.push("CompleteRestore");
    inputs.push("RequestProbe");
    inputs.push("RequestReconnect");
    inputs.push("RequestRestore");
    inputs.push("SupersedeRecovery");
    let mut next: Vec<Option<usize>> = Vec::new();
    let mut k: usize = 0;
    while k < 28
        invariant
            k <= 28,
            next@.len() == k,
            forall|j: int|
                0 <= j < k ==> #[trigger] next@[j] == match recovery_intent_next_spec(
                    recovery_intent_state(j / 7),
                    recovery_intent_input(j % 7),
                ) {
                    Some(n) => Some(recovery_intent_index(n)),
                    None => None,
                },
        decreases 28 - k,
    {
        let target = match recovery_intent_next(recovery_intent_state_at(k / 7), recovery_intent_input_at(k % 7)) {
            Some(n) => Some(recovery_intent_index_of(n)),
            None => None,
        };
        next.push(target);
        k = k + 1;
    }
    proof {
        reveal_strlit("Idle");
        reveal_strlit("ProbePending");
        reveal_strlit("ReconnectPending");
        reveal_strlit("RestorePending");
        reveal_strlit("CompleteProbe");
        reveal_strlit("CompleteReconnect");
        reveal_strlit("CompleteRestore");
        reveal_strlit("RequestProbe");
        reveal_strlit("RequestReconnect");
        reveal_strlit("RequestRestore");
        reveal_strlit("SupersedeRecovery");
        assert(states@.map_values(|n: &'static str| n@) =~= seq!["Idle"@, "ProbePending"@, "ReconnectPending"@, "RestorePending"@]);
        assert(inputs@.map_values(|n: &'static str| n@) =~= seq!["CompleteProbe"@, "CompleteReconnect"@, "CompleteRestore"@, "RequestProbe"@, "RequestReconnect"@, "RequestRestore"@, "SupersedeRecovery"@]);
    }
    let t = MachineTable { states, inputs, initial: recovery_intent_index_of(RecoveryIntentState::Idle), next };
    assert forall|s: int, i: int| 0 <= s < 4 && 0 <= i < 7 implies #[trigger] cell(&t, s, i) == match recovery_intent_next_spec(
        recovery_intent_state(s),
        recovery_intent_input(i),
    ) {
        Some(n) => Some(recovery_intent_index(n)),
        None => None,
    } by {
        assert((s * 7 + i) / 7 == s);
        assert((s * 7 + i) % 7 == i);
    }
    t
}

// ---------------------------------------------------------------------------
// offline-work
// ---------------------------------------------------------------------------

/// The `OfflineWorkState` at a sorted position.
pub open spec fn offline_work_state(k: int) -> OfflineWorkState {
    if k == 0 {
        OfflineWorkState::DisconnectPending
    } else {
        OfflineWorkState::Idle
    }
}

/// The `OfflineWorkInput` at a sorted position.
pub open spec fn offline_work_input(k: int) -> OfflineWorkInput {
    if k == 0 {
        OfflineWorkInput::CompleteDisconnect
    } else if k == 1 {
        OfflineWorkInput::RequestDisconnect
    } else {
        OfflineWorkInput::SupersedeDisconnect
    }
}

/// The sorted position of a `OfflineWorkState`.
pub open spec fn offline_work_index(s: OfflineWorkState) -> usize {
    match s {
        OfflineWorkState::DisconnectPending => 0,
        OfflineWorkState::Idle => 1,
    }
}

/// `t` tabulates the machine: sorted names, its initial state, and every cell
/// the machine's transition function.
pub open spec fn offline_work_tabulated(t: &MachineTable) -> bool {
    &&& table_wf(t)
    &&& t.states@.map_values(|n: &'static str| n@) == seq!["DisconnectPending"@, "Idle"@]
    &&& t.inputs@.map_values(|n: &'static str| n@) == seq!["CompleteDisconnect"@, "RequestDisconnect"@, "SupersedeDisconnect"@]
    &&& t.initial == offline_work_index(OfflineWorkState::Idle)
    &&& forall|s: int, i: int|
        0 <= s < 2 && 0 <= i < 3 ==> #[trigger] cell(t, s, i) == match offline_work_next_spec(
            offline_work_state(s),
            offline_work_input(i),
        ) {
            Some(n) => Some(offline_work_index(n)),
            None => None,
        }
}

fn offline_work_state_at(k: usize) -> (s: OfflineWorkState)
    ensures
        s == offline_work_state(k as int),
{
    match k {
        0 => OfflineWorkState::DisconnectPending,
        _ => OfflineWorkState::Idle,
    }
}

fn offline_work_input_at(k: usize) -> (i: OfflineWorkInput)
    ensures
        i == offline_work_input(k as int),
{
    match k {
        0 => OfflineWorkInput::CompleteDisconnect,
        1 => OfflineWorkInput::RequestDisconnect,
        _ => OfflineWorkInput::SupersedeDisconnect,
    }
}

fn offline_work_index_of(s: OfflineWorkState) -> (k: usize)
    ensures
        k == offline_work_index(s),
{
    match s {
        OfflineWorkState::DisconnectPending => 0,
        OfflineWorkState::Idle => 1,
    }
}

/// The `offline-work` machine's table.
pub fn offline_work_table() -> (t: MachineTable)
    ensures
        offline_work_tabulated(&t),
{
    let mut states: Vec<&'static str> = Vec::new();
    states.push("DisconnectPending");
    states.push("Idle");
    let mut inputs: Vec<&'static str> = Vec::new();
    inputs.push("CompleteDisconnect");
    inputs.push("RequestDisconnect");
    inputs.push("SupersedeDisconnect");
    let mut next: Vec<Option<usize>> = Vec::new();
    let mut k: usize = 0;
    while k < 6
        invariant
            k <= 6,
            next@.len() == k,
            forall|j: int|
                0 <= j < k ==> #[trigger] next@[j] == match offline_work_next_spec(
                    offline_work_state(j / 3),
                    offline_work_input(j % 3),
                ) {
                    Some(n) => Some(offline_work_index(n)),
                    None => None,
                },
        decreases 6 - k,
    {
        let target = match offline_work_next(offline_work_state_at(k / 3), offline_work_input_at(k % 3)) {
            Some(n) => Some(offline_work_index_of(n)),
            None => None,
        };
        next.push(target);
        k = k + 1;
    }
    proof {
        reveal_strlit("DisconnectPending");
        reveal_strlit("Idle");
        reveal_strlit("CompleteDisconnect");
        reveal_strlit("RequestDisconnect");
        reveal_strlit("SupersedeDisconnect");
        assert(states@.map_values(|n: &'static str| n@) =~= seq!["DisconnectPending"@, "Idle"@]);
        assert(inputs@.map_values(|n: &'static str| n@) =~= seq!["CompleteDisconnect"@, "RequestDisconnect"@, "SupersedeDisconnect"@]);
    }
    let t = MachineTable { states, inputs, initial: offline_work_index_of(OfflineWorkState::Idle), next };
    assert forall|s: int, i: int| 0 <= s < 2 && 0 <= i < 3 implies #[trigger] cell(&t, s, i) == match offline_work_next_spec(
        offline_work_state(s),
        offline_work_input(i),
    ) {
        Some(n) => Some(offline_work_index(n)),
        None => None,
    } by {
        assert((s * 3 + i) / 3 == s);
        assert((s * 3 + i) % 3 == i);
    }
    t
}

// ---------------------------------------------------------------------------
// recovery-execution
// ---------------------------------------------------------------------------

/// The `ExecutionState` at a sorted position.
pub open spec fn execution_state(k: int) -> ExecutionState {
    if k == 0 {
        ExecutionState::Cleaning
    } else if k == 1 {
        ExecutionState::Disconnecting
    } else if k == 2 {
        ExecutionState::Idle
    } else if k == 3 {
        ExecutionState::Probing
    } else if k == 4 {
        ExecutionState::Reconnecting
    } else {
        ExecutionState::Restoring
    }
}

/// The `ExecutionInput` at a sorted position.
pub open spec fn execution_input(k: int) -> ExecutionInput {
    if k == 0 {
        ExecutionInput::BeginCleanup
    } else if k == 1 {
        ExecutionInput::BeginOffline
    } else if k == 2 {
        ExecutionInput::BeginProbe
    } else if k == 3 {
        ExecutionInput::BeginReconnect
    } else if k == 4 {
        ExecutionInput::BeginRestore
    } else if k == 5 {
        ExecutionInput::Cancelled
    } else if k == 6 {
        ExecutionInput::Failed
    } else {
        ExecutionInput::Succeeded
    }
}

/// The sorted position of a `ExecutionState`.
pub open spec fn execution_index(s: ExecutionState) -> usize {
    match s {
        ExecutionState::Cleaning => 0,
        ExecutionState::Disconnecting => 1,
        ExecutionState::Idle => 2,
        ExecutionState::Probing => 3,
        ExecutionState::Reconnecting => 4,
        ExecutionState::Restoring => 5,
    }
}

/// `t` tabulates the machine: sorted names, its initial state, and every cell
/// the machine's transition function.
pub open spec fn execution_tabulated(t: &MachineTable) -> bool {
    &&& table_wf(t)
    &&& t.states@.map_values(|n: &'static str| n@) == seq!["Cleaning"@, "Disconnecting"@, "Idle"@, "Probing"@, "Reconnecting"@, "Restoring"@]
    &&& t.inputs@.map_values(|n: &'static str| n@) == seq!["BeginCleanup"@, "BeginOffline"@, "BeginProbe"@, "BeginReconnect"@, "BeginRestore"@, "Cancelled"@, "Failed"@, "Succeeded"@]
    &&& t.initial == execution_index(ExecutionState::Idle)
    &&& forall|s: int, i: int|
        0 <= s < 6 && 0 <= i < 8 ==> #[trigger] cell(t, s, i) == match execution_next_spec(
            execution_state(s),
            execution_input(i),
        ) {
            Some(n) => Some(execution_index(n)),
            None => None,
        }
}

fn execution_state_at(k: usize) -> (s: ExecutionState)
    ensures
        s == execution_state(k as int),
{
    match k {
        0 => ExecutionState::Cleaning,
        1 => ExecutionState::Disconnecting,
        2 => ExecutionState::Idle,
        3 => ExecutionState::Probing,
        4 => ExecutionState::Reconnecting,
        _ => ExecutionState::Restoring,
    }
}

fn execution_input_at(k: usize) -> (i: ExecutionInput)
    ensures
        i == execution_input(k as int),
{
    match k {
        0 => ExecutionInput::BeginCleanup,
        1 => ExecutionInput::BeginOffline,
        2 => ExecutionInput::BeginProbe,
        3 => ExecutionInput::BeginReconnect,
        4 => ExecutionInput::BeginRestore,
        5 => ExecutionInput::Cancelled,
        6 => ExecutionInput::Failed,
        _ => ExecutionInput::Succeeded,
    }
}

fn execution_index_of(s: ExecutionState) -> (k: usize)
    ensures
        k == execution_index(s),
{
    match s {
        ExecutionState::Cleaning => 0,
        ExecutionState::Disconnecting => 1,
        ExecutionState::Idle => 2,
        ExecutionState::Probing => 3,
        ExecutionState::Reconnecting => 4,
        ExecutionState::Restoring => 5,
    }
}

/// The `recovery-execution` machine's table.
pub fn execution_table() -> (t: MachineTable)
    ensures
        execution_tabulated(&t),
{
    let mut states: Vec<&'static str> = Vec::new();
    states.push("Cleaning");
    states.push("Disconnecting");
    states.push("Idle");
    states.push("Probing");
    states.push("Reconnecting");
    states.push("Restoring");
    let mut inputs: Vec<&'static str> = Vec::new();
    inputs.push("BeginCleanup");
    inputs.push("BeginOffline");
    inputs.push("BeginProbe");
    inputs.push("BeginReconnect");
    inputs.push("BeginRestore");
    inputs.push("Cancelled");
    inputs.push("Failed");
    inputs.push("Succeeded");
    let mut next: Vec<Option<usize>> = Vec::new();
    let mut k: usize = 0;
    while k < 48
        invariant
            k <= 48,
            next@.len() == k,
            forall|j: int|
                0 <= j < k ==> #[trigger] next@[j] == match execution_next_spec(
                    execution_state(j / 8),
                    execution_input(j % 8),
                ) {
                    Some(n) => Some(execution_index(n)),
                    None => None,
                },
        decreases 48 - k,
    {
        let target = match execution_next(execution_state_at(k / 8), execution_input_at(k % 8)) {
            Some(n) => Some(execution_index_of(n)),
            None => None,
        };
        next.push(target);
        k = k + 1;
    }
    proof {
        reveal_strlit("Cleaning");
        reveal_strlit("Disconnecting");
        reveal_strlit("Idle");
        reveal_strlit("Probing");
        reveal_strlit("Reconnecting");
        reveal_strlit("Restoring");
        reveal_strlit("BeginCleanup");
        reveal_strlit("BeginOffline");
        reveal_strlit("BeginProbe");
        reveal_strlit("BeginReconnect");
        reveal_strlit("BeginRestore");
        reveal_strlit("Cancelled");
        reveal_strlit("Failed");
        reveal_strlit("Succeeded");
        assert(states@.map_values(|n: &'static str| n@) =~= seq!["Cleaning"@, "Disconnecting"@, "Idle"@, "Probing"@, "Reconnecting"@, "Restoring"@]);
        assert(inputs@.map_values(|n: &'static str| n@) =~= seq!["BeginCleanup"@, "BeginOffline"@, "BeginProbe"@, "BeginReconnect"@, "BeginRestore"@, "Cancelled"@, "Failed"@, "Succeeded"@]);
    }
    let t = MachineTable { states, inputs, initial: execution_index_of(ExecutionState::Idle), next };
    assert forall|s: int, i: int| 0 <= s < 6 && 0 <= i < 8 implies #[trigger] cell(&t, s, i) == match execution_next_spec(
        execution_state(s),
        execution_input(i),
    ) {
        Some(n) => Some(execution_index(n)),
        None => None,
    } by {
        assert((s * 8 + i) / 8 == s);
        assert((s * 8 + i) % 8 == i);
    }
    t
}

// ---------------------------------------------------------------------------
// All machines
// ---------------------------------------------------------------------------

/// The canonical documentation of one machine.
#[derive(Debug, Clone, PartialEq, Eq)]
pub struct CanonicalDoc {
    pub name: &'static str,
    pub table: String,
    pub mermaid: String,
}

/// `d` documents the machine tabulated by `t`.
pub open spec fn documents(d: CanonicalDoc, t: &MachineTable) -> bool {
    d.table@ == table_text(t) && d.mermaid@ == mermaid_text(t)
}

fn doc(name: &'static str, t: MachineTable) -> (d: CanonicalDoc)
    requires
        table_wf(&t),
    ensures
        d.name == name,
        documents(d, &t),
{
    CanonicalDoc { name, table: canonical_transition_table(&t), mermaid: canonical_mermaid(&t) }
}

/// The canonical documentation of all eight machines, in a stable order and
/// under stable names: `recovery-mode`, `cleanup-work`, `retry-gate`,
/// `app-phase`, `network-path`, `recovery-intent`, `offline-work` and
/// `recovery-execution`.
pub fn all_machine_docs() -> (docs: Vec<CanonicalDoc>)
    ensures
        docs@.len() == 8,
        exists|t: MachineTable| recovery_mode_tabulated(&t) && documents(docs@[0], &t),
        exists|t: MachineTable| cleanup_work_tabulated(&t) && documents(docs@[1], &t),
        exists|t: MachineTable| retry_gate_tabulated(&t) && documents(docs@[2], &t),
        exists|t: MachineTable| app_phase_tabulated(&t) && documents(docs@[3], &t),
        exists|t: MachineTable| network_path_tabulated(&t) && documents(docs@[4], &t),
        exists|t: MachineTable| recovery_intent_tabulated(&t) && documents(docs@[5], &t),
        exists|t: MachineTable| offline_work_tabulated(&t) && documents(docs@[6], &t),
        exists|t: MachineTable| execution_tabulated(&t) && documents(docs@[7], &t),
        docs@[0].name@ == "recovery-mode"@,
        docs@[1].name@ == "cleanup-work"@,
        docs@[2].name@ == "retry-gate"@,
        docs@[3].name@ == "app-phase"@,
        docs@[4].name@ == "network-path"@,
        docs@[5].name@ == "recovery-intent"@,
        docs@[6].name@ == "offline-work"@,
        docs@[7].name@ == "recovery-execution"@,
{
    let mut docs: Vec<CanonicalDoc> = Vec::new();
    let t0 = recovery_mode_table();
    let ghost g0 = t0;
    docs.push(doc("recovery-mode", t0));
    let t1 = cleanup_work_table();
    let ghost g1 = t1;
    docs.push(doc("cleanup-work", t1));
    let t2 = retry_gate_table();
    let ghost g2 = t2;
    docs.push(doc("retry-gate", t2));
    let t3 = app_phase_table();
    let ghost g3 = t3;
    docs.push(doc("app-phase", t3));
    let t4 = network_path_table();
    let ghost g4 = t4;
    docs.push(doc("network-path", t4));
    let t5 = recovery_intent_table();
    let ghost g5 = t5;
    docs.push(doc("recovery-intent", t5));
    let t6 = offline_work_table();
    let ghost g6 = t6;
    docs.push(doc("offline-work", t6));
    let t7 = execution_table();
    let ghost g7 = t7;
    docs.push(doc("recovery-execution", t7));
    assert(recovery_mode_tabulated(&g0) && documents(docs@[0], &g0));
    assert(cleanup_work_tabulated(&g1) && documents(docs@[1], &g1));
    assert(retry_gate_tabulated(&g2) && documents(docs@[2], &g2));
    assert(app_phase_tabulated(&g3) && documents(docs@[3], &g3));
    assert(network_path_tabulated(&g4) && documents(docs@[4], &g4));
    assert(recovery_intent_tabulated(&g5) && documents(docs@[5], &g5));
    assert(offline_work_tabulated(&g6) && documents(docs@[6], &g6));
    assert(execution_tabulated(&g7) && documents(docs@[7], &g7));
    docs
}

} // verus!
