//! Typed effect diagnosis vocabulary.
//!
//! An effect reports *what it observed*, never a verdict. The translation layer
//! is the only place that turns a `(kind, diagnosis, context)` triple into a
//! retry / escalate / park / abandon ruling. Everything here is data.
use vstd::prelude::*;

use super::{Generation, PolicyInstant};

verus! {

/// The three diagnosis families.
///
/// Family membership sets the *default* shape of a verdict; context can still
/// escalate an availability-family diagnosis where stronger work is the
/// plausible remedy.
#[derive(Debug, Clone, Copy, PartialEq, Eq, Structural, Hash)]
pub enum DiagnosisFamily {
    /// Inconclusive: the same operation may succeed later with no policy change.
    Availability,
    /// A verified statement about the current generation or its channels.
    Conclusive,
    /// Cannot improve by repeating the same operation.
    Precondition,
}

/// A data-free discriminant for [`EffectDiagnosis`].
#[derive(Debug, Clone, Copy, PartialEq, Eq, Structural, Hash)]
pub enum DiagnosisTag {
    PathUnreachable,
    Timeout,
    Overloaded,
    ResourceExhausted,
    TransportImpaired,
    GenerationDead,
    AuthRejected,
    ConfigRejected,
    InvariantViolation,
}

/// The family a diagnosis tag belongs to.
pub open spec fn family_of(tag: DiagnosisTag) -> DiagnosisFamily {
    match tag {
        DiagnosisTag::PathUnreachable | DiagnosisTag::Timeout | DiagnosisTag::Overloaded
        | DiagnosisTag::ResourceExhausted => DiagnosisFamily::Availability,
        DiagnosisTag::TransportImpaired | DiagnosisTag::GenerationDead => {
            DiagnosisFamily::Conclusive
        },
        DiagnosisTag::AuthRejected | DiagnosisTag::ConfigRejected
        | DiagnosisTag::InvariantViolation => DiagnosisFamily::Precondition,
    }
}

impl DiagnosisTag {
    /// The family this diagnosis tag belongs to.
    pub fn family(self) -> (f: DiagnosisFamily)
        ensures
            f == family_of(self),
    {
        match self {
            DiagnosisTag::PathUnreachable | DiagnosisTag::Timeout | DiagnosisTag::Overloaded
            | DiagnosisTag::ResourceExhausted => DiagnosisFamily::Availability,
            DiagnosisTag::TransportImpaired | DiagnosisTag::GenerationDead => {
                DiagnosisFamily::Conclusive
            },
            DiagnosisTag::AuthRejected | DiagnosisTag::ConfigRejected
            | DiagnosisTag::InvariantViolation => DiagnosisFamily::Precondition,
        }
    }
}

/// A typed, identity-validated observation reported by an effect.
///
/// Durations are carried as nanoseconds in the supervisor clock domain.
#[derive(Debug, Clone, PartialEq, Eq, Hash)]
pub enum EffectDiagnosis {
    /// No endpoint answered; nothing is known about the remote session.
    PathUnreachable { stage: String },
    /// A bounded sub-operation exceeded its failure deadline.
    Timeout { stage: String },
    /// The remote explicitly deferred the request; `retry_after` is a floor.
    Overloaded { retry_after: PolicyInstant },
    /// Local sockets, memory, or quota were unavailable.
    ResourceExhausted { resource: String },
    /// The session generation is alive; the listed channels are not.
    TransportImpaired { scopes: Vec<String> },
    /// The remote authoritatively no longer knows this generation.
    GenerationDead { generation: Generation },
    /// Credentials expired, invalid, or revoked.
    AuthRejected { kind: String },
    /// Protocol, version, or capability mismatch.
    ConfigRejected { detail: String },
    /// An internal contract was broken.
    InvariantViolation { detail: String },
}

/// The data-free discriminant of a diagnosis.
pub open spec fn tag_of(d: EffectDiagnosis) -> DiagnosisTag {
    match d {
        EffectDiagnosis::PathUnreachable { .. } => DiagnosisTag::PathUnreachable,
        EffectDiagnosis::Timeout { .. } => DiagnosisTag::Timeout,
        EffectDiagnosis::Overloaded { .. } => DiagnosisTag::Overloaded,
        EffectDiagnosis::ResourceExhausted { .. } => DiagnosisTag::ResourceExhausted,
        EffectDiagnosis::TransportImpaired { .. } => DiagnosisTag::TransportImpaired,
        EffectDiagnosis::GenerationDead { .. } => DiagnosisTag::GenerationDead,
        EffectDiagnosis::AuthRejected { .. } => DiagnosisTag::AuthRejected,
        EffectDiagnosis::ConfigRejected { .. } => DiagnosisTag::ConfigRejected,
        EffectDiagnosis::InvariantViolation { .. } => DiagnosisTag::InvariantViolation,
    }
}

/// The `retry_after` floor a diagnosis carries: present exactly for `Overloaded`.
pub open spec fn retry_after_of(d: EffectDiagnosis) -> Option<PolicyInstant> {
    match d {
        EffectDiagnosis::Overloaded { retry_after } => Some(retry_after),
        _ => None,
    }
}

impl EffectDiagnosis {
    /// The data-free discriminant of this diagnosis.
    pub fn tag(&self) -> (t: DiagnosisTag)
        ensures
            t == tag_of(*self),
    {
        match self {
            EffectDiagnosis::PathUnreachable { .. } => DiagnosisTag::PathUnreachable,
            EffectDiagnosis::Timeout { .. } => DiagnosisTag::Timeout,
            EffectDiagnosis::Overloaded { .. } => DiagnosisTag::Overloaded,
            EffectDiagnosis::ResourceExhausted { .. } => DiagnosisTag::ResourceExhausted,
            EffectDiagnosis::TransportImpaired { .. } => DiagnosisTag::TransportImpaired,
            EffectDiagnosis::GenerationDead { .. } => DiagnosisTag::GenerationDead,
            EffectDiagnosis::AuthRejected { .. } => DiagnosisTag::AuthRejected,
            EffectDiagnosis::ConfigRejected { .. } => DiagnosisTag::ConfigRejected,
            EffectDiagnosis::InvariantViolation { .. } => DiagnosisTag::InvariantViolation,
        }
    }

    /// The family this diagnosis belongs to.
    pub fn family(&self) -> (f: DiagnosisFamily)
        ensures
            f == family_of(tag_of(*self)),
    {
        self.tag().family()
    }

    /// Whether this diagnosis is in the availability family (inconclusive).
    pub fn is_availability_family(&self) -> (b: bool)
        ensures
            b == (family_of(tag_of(*self)) == DiagnosisFamily::Availability),
    {
        self.family() == DiagnosisFamily::Availability
    }

    /// Whether this diagnosis is in the conclusive family.
    pub fn is_conclusive_family(&self) -> (b: bool)
        ensures
            b == (family_of(tag_of(*self)) == DiagnosisFamily::Conclusive),
    {
        self.family() == DiagnosisFamily::Conclusive
    }

    /// Whether this diagnosis is in the precondition family.
    pub fn is_precondition_family(&self) -> (b: bool)
        ensures
            b == (family_of(tag_of(*self)) == DiagnosisFamily::Precondition),
    {
        self.family() == DiagnosisFamily::Precondition
    }

    /// The `retry_after` floor carried by an `Overloaded` diagnosis, if any.
    pub fn retry_after(&self) -> (r: Option<PolicyInstant>)
        ensures
            r == retry_after_of(*self),
    {
        match self {
            EffectDiagnosis::Overloaded { retry_after } => Some(*retry_after),
            _ => None,
        }
    }
}

/// The kind of side effect that produced a completion.
#[derive(Debug, Clone, Copy, PartialEq, Eq, Structural, Hash)]
pub enum EffectKind {
    Probe,
    Restore,
    Reconnect,
    ConfirmedOfflineDisconnect,
    Cleanup,
}

/// Teardown kinds share the bounded-completion contract and the `Abandon` verdict.
pub open spec fn is_teardown_kind(kind: EffectKind) -> bool {
    kind == EffectKind::ConfirmedOfflineDisconnect || kind == EffectKind::Cleanup
}

/// Intent-bearing recovery kinds.
pub open spec fn is_recovery_kind(kind: EffectKind) -> bool {
    kind == EffectKind::Probe || kind == EffectKind::Restore || kind == EffectKind::Reconnect
}

/// Recovery kinds produce all nine diagnoses; teardown kinds only the
/// availability family or `InvariantViolation`.
pub open spec fn producible(kind: EffectKind, tag: DiagnosisTag) -> bool {
    is_recovery_kind(kind) || family_of(tag) == DiagnosisFamily::Availability || tag
        == DiagnosisTag::InvariantViolation
}

impl EffectKind {
    /// Whether this kind is a teardown effect.
    pub fn is_teardown(&self) -> (b: bool)
        ensures
            b == is_teardown_kind(*self),
    {
        match self {
            EffectKind::ConfirmedOfflineDisconnect | EffectKind::Cleanup => true,
            _ => false,
        }
    }

    /// Whether this kind is an intent-bearing recovery effect.
    pub fn is_recovery(&self) -> (b: bool)
        ensures
            b == is_recovery_kind(*self),
    {
        match self {
            EffectKind::Probe | EffectKind::Restore | EffectKind::Reconnect => true,
            _ => false,
        }
    }

    /// Whether this kind can produce the given diagnosis.
    pub fn can_produce(&self, tag: DiagnosisTag) -> (b: bool)
        ensures
            b == producible(*self, tag),
    {
        if self.is_recovery() {
            return true;
        }
        match tag {
            DiagnosisTag::PathUnreachable | DiagnosisTag::Timeout | DiagnosisTag::Overloaded
            | DiagnosisTag::ResourceExhausted | DiagnosisTag::InvariantViolation => true,
            _ => false,
        }
    }
}

/// Why an effect task aborted.
#[derive(Debug, Clone, Copy, PartialEq, Eq, Structural, Hash)]
pub enum AbortCause {
    /// A recorded supervisor cancellation request.
    SupervisorCancellation,
    /// A panic or effect-contract violation, ruled as `InvariantViolation`.
    PanicOrContractViolation,
    /// A runtime shutdown; takes the `Terminating` bounded-teardown path.
    RuntimeShutdown,
    /// An unclassified abort, handled as this kind's `InvariantViolation` cell.
    Unclassified,
}

/// The outcome an effect reports through `EffectCompleted`.
#[derive(Debug, Clone, PartialEq, Eq, Hash)]
pub enum EffectOutcome {
    /// The effect met its full contract.
    Succeeded,
    /// Teardown reached its logical goal but left residual diagnostics.
    CompletedWithResiduals { residuals: Vec<EffectDiagnosis> },
    /// Teardown was abandoned at its overall deadline before the goal.
    Abandoned { residuals: Vec<EffectDiagnosis> },
    /// The effect failed with a typed diagnosis (never a verdict).
    Failed { diagnosis: EffectDiagnosis },
    /// The effect was cancelled by a recorded supervisor request.
    Cancelled,
    /// The effect task aborted; ruled by cause.
    Aborted { cause: AbortCause },
}

/// Success-class outcomes extinguish the obligation.
pub open spec fn is_success_class_outcome(o: EffectOutcome) -> bool {
    match o {
        EffectOutcome::Succeeded | EffectOutcome::CompletedWithResiduals { .. }
        | EffectOutcome::Abandoned { .. } => true,
        _ => false,
    }
}

/// The residual diagnostics a teardown success-class outcome records.
pub open spec fn residuals_of(o: EffectOutcome) -> Seq<EffectDiagnosis> {
    match o {
        EffectOutcome::CompletedWithResiduals { residuals } => residuals@,
        EffectOutcome::Abandoned { residuals } => residuals@,
        _ => Seq::empty(),
    }
}

impl EffectOutcome {
    /// Whether this outcome is success-class.
    pub fn is_success_class(&self) -> (b: bool)
        ensures
            b == is_success_class_outcome(*self),
    {
        match self {
            EffectOutcome::Succeeded | EffectOutcome::CompletedWithResiduals { .. }
            | EffectOutcome::Abandoned { .. } => true,
            _ => false,
        }
    }

    /// The residual diagnostics recorded by a teardown success-class outcome.
    pub fn residuals(&self) -> (r: &[EffectDiagnosis])
        ensures
            r@ == residuals_of(*self),
    {
        match self {
            EffectOutcome::CompletedWithResiduals { residuals } => residuals.as_slice(),
            EffectOutcome::Abandoned { residuals } => residuals.as_slice(),
            _ => &[],
        }
    }
}

/// The nine diagnosis tags fall into exactly the three families, four, two and
/// three of them respectively; a tag's family is unique.
pub proof fn lemma_families_partition_tags(tag: DiagnosisTag)
    ensures
        family_of(tag) == DiagnosisFamily::Availability <==> (tag == DiagnosisTag::PathUnreachable
            || tag == DiagnosisTag::Timeout || tag == DiagnosisTag::Overloaded || tag
            == DiagnosisTag::ResourceExhausted),
        family_of(tag) == DiagnosisFamily::Conclusive <==> (tag == DiagnosisTag::TransportImpaired
            || tag == DiagnosisTag::GenerationDead),
        family_of(tag) == DiagnosisFamily::Precondition <==> (tag == DiagnosisTag::AuthRejected
            || tag == DiagnosisTag::ConfigRejected || tag == DiagnosisTag::InvariantViolation),
{
}

/// Every effect kind is exactly one of recovery or teardown; recovery kinds
/// produce every diagnosis, teardown kinds never produce a conclusive one nor
/// an auth or config rejection.
pub proof fn lemma_kind_producibility(kind: EffectKind, tag: DiagnosisTag)
    ensures
        is_recovery_kind(kind) != is_teardown_kind(kind),
        is_recovery_kind(kind) ==> producible(kind, tag),
        is_teardown_kind(kind) ==> (producible(kind, tag) <==> (family_of(tag)
            == DiagnosisFamily::Availability || tag == DiagnosisTag::InvariantViolation)),
        is_teardown_kind(kind) && family_of(tag) == DiagnosisFamily::Conclusive ==> !producible(
            kind,
            tag,
        ),
{
}

} // verus!
