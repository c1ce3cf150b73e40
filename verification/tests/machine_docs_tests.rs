use hyper_lifecycle::machine_docs::{
    all_machine_docs, canonical_mermaid, canonical_transition_table, network_path_table,
    recovery_mode_table, retry_gate_table,
};

#[test]
fn all_eight_machines_have_canonical_docs() {
    let docs = all_machine_docs();
    assert_eq!(docs.len(), 8);
    for d in &docs {
        assert!(d.mermaid.starts_with("stateDiagram-v2\n"), "{}", d.name);
        assert!(
            d.table
                .starts_with("| Current State | Input | Next State |"),
            "{}",
            d.name
        );
        // No document-level heading precedes the table.
        assert!(!d.table.contains("# State Transition Table"), "{}", d.name);
    }
}

#[test]
fn generation_is_byte_stable_across_calls() {
    // Two calls in the same process must produce identical bytes.
    for _ in 0..8 {
        assert_eq!(
            canonical_transition_table(&recovery_mode_table()),
            canonical_transition_table(&recovery_mode_table())
        );
        assert_eq!(
            canonical_mermaid(&network_path_table()),
            canonical_mermaid(&network_path_table())
        );
    }
    assert_eq!(all_machine_docs(), all_machine_docs());
}

#[test]
fn transition_table_rows_are_sorted() {
    let table = canonical_transition_table(&retry_gate_table());
    let rows: Vec<&str> = table
        .lines()
        .filter(|l| l.starts_with("| ") && !l.contains("---") && !l.contains("Current State"))
        .collect();
    let mut sorted = rows.clone();
    sorted.sort();
    assert_eq!(rows, sorted, "rows must be lexicographically sorted");
    // The recovery-mode machine's first sorted row is deterministic.
    let mode = canonical_transition_table(&recovery_mode_table());
    let first = mode
        .lines()
        .find(|l| l.starts_with("| Active"))
        .expect("Active row present");
    assert_eq!(first, "| Active | AppTerminating | Terminating |");
}

#[test]
fn mermaid_group_input_labels_are_sorted() {
    // Terminating self-loops on all three inputs, sorted alphabetically.
    let mermaid = canonical_mermaid(&recovery_mode_table());
    assert!(
        mermaid.contains("    Terminating --> Terminating : AppTerminating / SessionActivated / UserLoggedOut\n"),
        "self-loop labels must be sorted:\n{mermaid}"
    );
    assert!(mermaid.contains("    [*] --> Active\n"));
}

#[test]
fn machine_docs_are_named_in_order() {
    let names: Vec<&str> = all_machine_docs().iter().map(|d| d.name).collect();
    assert_eq!(
        names,
        vec![
            "recovery-mode",
            "cleanup-work",
            "retry-gate",
            "app-phase",
            "network-path",
            "recovery-intent",
            "offline-work",
            "recovery-execution",
        ]
    );
}
