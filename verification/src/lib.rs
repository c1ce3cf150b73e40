//! Event-driven connection lifecycle and recovery policy.
use vstd::prelude::*;

pub mod actor_errors;
pub mod connection_supervisor;
pub mod credential_manager;
pub mod expiry;
pub mod machine_docs;
pub mod node_gate;
pub mod membership;
pub mod network_event;
pub mod recovery_execution;
pub mod recovery_policy;

verus! {
} // verus!
