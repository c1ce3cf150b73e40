//! Recovery policy translation layer.
//!
//! The pure, side-effect-free policy core: the typed effect diagnosis
//! vocabulary, the failure classification table with its release-mask algebra
//! and backoff arithmetic, the discrete lifecycle machines, and the single
//! `translate(view, input, now, config, entropy) -> Decision` reducer together
//! with the composite action decision and the derived send projection.
//! Nothing here performs I/O, reads an ambient clock, or draws ambient
//! randomness.
use vstd::prelude::*;

pub mod classification;
pub mod diagnosis;
pub mod machines;
pub mod translate;

verus! {

/// A monotonic counter in the account-session / resource families, compared by
/// newer-than.
pub type Generation = u64;

/// A monotonic instant in the supervisor's clock domain, in nanoseconds since
/// supervisor start. Durations in the policy layer use the same unit.
pub type PolicyInstant = u64;

/// The causality version of desired policy, compared by `<=` in
/// acknowledgement and supersession.
pub type Revision = u64;

} // verus!
