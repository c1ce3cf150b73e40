//! Failure classification and backoff arithmetic.
//!
//! Classification maps a `(effect kind, diagnosis, context)` triple to exactly
//! one [`Verdict`]. It is the only place that decides retry, escalation, park,
//! or abandon; effects never classify their own failures. The backoff
//! arithmetic computes one absolute deadline from injected deterministic
//! entropy so that tests are reproducible.
use vstd::prelude::*;

use super::diagnosis::{
    family_of, is_teardown_kind, producible, tag_of, DiagnosisFamily, DiagnosisTag, EffectDiagnosis,
    EffectKind,
};
use super::PolicyInstant;

verus! {

/// A recorded park-cause entry.
#[derive(Debug, Clone, Copy, PartialEq, Eq, Structural, Hash, PartialOrd, Ord)]
pub enum ParkCause {
    AuthRejected,
    ConfigRejected,
    InvariantViolation,
    ExplicitPause,
}

/// A class of external trigger that may clear park-cause entries.
#[derive(Debug, Clone, Copy, PartialEq, Eq, Structural, Hash, PartialOrd, Ord)]
pub enum TriggerClass {
    /// A newly committed session generation.
    SessionActivated,
    /// A configuration change in scope.
    ConfigurationChanged,
    /// An explicit recovery command.
    ExplicitCommand,
    /// A matching explicit resume.
    ExplicitResume,
}

/// The trigger classes that clear a park cause, in table order.
pub open spec fn clearing_seq(cause: ParkCause) -> Seq<TriggerClass> {
    match cause {
        ParkCause::AuthRejected => seq![
            TriggerClass::SessionActivated,
            TriggerClass::ExplicitCommand,
        ],
        ParkCause::ConfigRejected => seq![
            TriggerClass::ConfigurationChanged,
            TriggerClass::ExplicitCommand,
        ],
        ParkCause::InvariantViolation => seq![TriggerClass::ExplicitCommand],
        ParkCause::ExplicitPause => seq![TriggerClass::ExplicitResume],
    }
}

/// Whether `trigger` clears `cause`.
///
/// A new route or a committed signaling generation is absent from every entry;
/// an explicit resume clears only an explicit pause.
pub open spec fn clears(cause: ParkCause, trigger: TriggerClass) -> bool {
    match cause {
        ParkCause::AuthRejected => trigger == TriggerClass::SessionActivated || trigger
            == TriggerClass::ExplicitCommand,
        ParkCause::ConfigRejected => trigger == TriggerClass::ConfigurationChanged || trigger
            == TriggerClass::ExplicitCommand,
        ParkCause::InvariantViolation => trigger == TriggerClass::ExplicitCommand,
        ParkCause::ExplicitPause => trigger == TriggerClass::ExplicitResume,
    }
}

/// The park cause implied by a precondition-family diagnosis tag; anything
/// routed here defensively is an invariant violation.
pub open spec fn cause_for_tag(tag: DiagnosisTag) -> ParkCause {
    match tag {
        DiagnosisTag::AuthRejected => ParkCause::AuthRejected,
        DiagnosisTag::ConfigRejected => ParkCause::ConfigRejected,
        _ => ParkCause::InvariantViolation,
    }
}

impl ParkCause {
    /// The trigger classes that clear this park cause.
    pub fn clearing_triggers(self) -> (r: &'static [TriggerClass])
        ensures
            r@ == clearing_seq(self),
            forall|t: TriggerClass| r@.contains(t) <==> clears(self, t),
    {
        let r: &'static [TriggerClass] = match self {
            ParkCause::AuthRejected => &[
                TriggerClass::SessionActivated,
                TriggerClass::ExplicitCommand,
            ],
            ParkCause::ConfigRejected => &[
                TriggerClass::ConfigurationChanged,
                TriggerClass::ExplicitCommand,
            ],
            ParkCause::InvariantViolation => &[TriggerClass::ExplicitCommand],
            ParkCause::ExplicitPause => &[TriggerClass::ExplicitResume],
        };
        assert(r@ =~= clearing_seq(self));
        assert forall|t: TriggerClass| r@.contains(t) <==> clears(self, t) by {
            if clears(self, t) {
                match self {
                    ParkCause::AuthRejected => {
                        if t == TriggerClass::SessionActivated {
                            assert(r@[0] == t);
                        } else {
                            assert(r@[1] == t);
                        }
                    },
                    ParkCause::ConfigRejected => {
                        if t == TriggerClass::ConfigurationChanged {
                            assert(r@[0] == t);
                        } else {
                            assert(r@[1] == t);
                        }
                    },
                    _ => {
                        assert(r@[0] == t);
                    },
                }
            }
        }
        r
    }

    /// Whether the given trigger clears this park cause.
    pub fn cleared_by(self, trigger: TriggerClass) -> (b: bool)
        ensures
            b == clears(self, trigger),
    {
        match self {
            ParkCause::AuthRejected => trigger == TriggerClass::SessionActivated || trigger
                == TriggerClass::ExplicitCommand,
            ParkCause::ConfigRejected => trigger == TriggerClass::ConfigurationChanged || trigger
                == TriggerClass::ExplicitCommand,
            ParkCause::InvariantViolation => trigger == TriggerClass::ExplicitCommand,
            ParkCause::ExplicitPause => trigger == TriggerClass::ExplicitResume,
        }
    }

    /// The park cause implied by a precondition-family diagnosis tag.
    pub fn from_precondition_tag(tag: DiagnosisTag) -> (c: ParkCause)
        ensures
            c == cause_for_tag(tag),
    {
        match tag {
            DiagnosisTag::AuthRejected => ParkCause::AuthRejected,
            DiagnosisTag::ConfigRejected => ParkCause::ConfigRejected,
            _ => ParkCause::InvariantViolation,
        }
    }
}

/// The set of park-cause entries recorded while a record is parked.
///
/// The four causes form a fixed universe, so the set is held as one flag per
/// cause. Satisfaction is *sticky*: a trigger clears every entry it matches,
/// and the record is freed only when no entries remain.
#[derive(Debug, Clone, Copy, PartialEq, Eq, Structural, Default)]
pub struct ReleaseMask {
    /// Parked on an authentication rejection.
    pub auth: bool,
    /// Parked on a configuration rejection.
    pub config: bool,
    /// Parked on an invariant violation.
    pub invariant: bool,
    /// Parked on an explicit pause.
    pub pause: bool,
}

impl ReleaseMask {
    /// Whether the mask holds `cause`.
    pub open spec fn has(self, cause: ParkCause) -> bool {
        match cause {
            ParkCause::AuthRejected => self.auth,
            ParkCause::ConfigRejected => self.config,
            ParkCause::InvariantViolation => self.invariant,
            ParkCause::ExplicitPause => self.pause,
        }
    }

    /// The mask with exactly the causes for which `f` holds.
    pub open spec fn from_pred(f: spec_fn(ParkCause) -> bool) -> ReleaseMask {
        ReleaseMask {
            auth: f(ParkCause::AuthRejected),
            config: f(ParkCause::ConfigRejected),
            invariant: f(ParkCause::InvariantViolation),
            pause: f(ParkCause::ExplicitPause),
        }
    }

    /// The empty mask.
    pub open spec fn empty_spec() -> ReleaseMask {
        ReleaseMask { auth: false, config: false, invariant: false, pause: false }
    }

    /// The mask holding exactly one cause.
    pub open spec fn single_spec(cause: ParkCause) -> ReleaseMask {
        ReleaseMask::from_pred(|c: ParkCause| c == cause)
    }

    /// No cause is held.
    pub open spec fn is_empty_spec(self) -> bool {
        !self.auth && !self.config && !self.invariant && !self.pause
    }

    /// Some held cause is cleared by `trigger`.
    pub open spec fn would_clear_spec(self, trigger: TriggerClass) -> bool {
        exists|c: ParkCause| self.has(c) && clears(c, trigger)
    }

    /// The mask left after removing every cause that `trigger` clears.
    pub open spec fn cleared_spec(self, trigger: TriggerClass) -> ReleaseMask {
        ReleaseMask::from_pred(|c: ParkCause| self.has(c) && !clears(c, trigger))
    }

    /// The union of two masks.
    pub open spec fn union_spec(self, other: ReleaseMask) -> ReleaseMask {
        ReleaseMask::from_pred(|c: ParkCause| self.has(c) || other.has(c))
    }

    /// The held causes in the canonical order of [`ParkCause`].
    pub open spec fn causes_seq(self) -> Seq<ParkCause> {
        (if self.auth { seq![ParkCause::AuthRejected] } else { seq![] }) + (if self.config {
            seq![ParkCause::ConfigRejected]
        } else {
            seq![]
        }) + (if self.invariant { seq![ParkCause::InvariantViolation] } else { seq![] }) + (
        if self.pause {
            seq![ParkCause::ExplicitPause]
        } else {
            seq![]
        })
    }
}

impl View for ReleaseMask {
    type V = Set<ParkCause>;

    open spec fn view(&self) -> Set<ParkCause> {
        Set::new(|c: ParkCause| self.has(c))
    }
}

impl ReleaseMask {
    /// A mask holding exactly one park cause.
    pub fn single(cause: ParkCause) -> (m: ReleaseMask)
        ensures
            m == ReleaseMask::single_spec(cause),
            m@ == set![cause],
    {
        let m = ReleaseMask {
            auth: cause == ParkCause::AuthRejected,
            config: cause == ParkCause::ConfigRejected,
            invariant: cause == ParkCause::InvariantViolation,
            pause: cause == ParkCause::ExplicitPause,
        };
        assert(m@ =~= set![cause]);
        m
    }

    /// Whether the mask is empty (the record may be released).
    pub fn is_empty(&self) -> (b: bool)
        ensures
            b == self.is_empty_spec(),
            b <==> self@ == Set::<ParkCause>::empty(),
    {
        let b = !self.auth && !self.config && !self.invariant && !self.pause;
        if !b {
            if self.auth {
                assert(self@.contains(ParkCause::AuthRejected));
            } else if self.config {
                assert(self@.contains(ParkCause::ConfigRejected));
            } else if self.invariant {
                assert(self@.contains(ParkCause::InvariantViolation));
            } else {
                assert(self@.contains(ParkCause::ExplicitPause));
            }
        } else {
            assert(self@ =~= Set::<ParkCause>::empty());
        }
        b
    }

    /// Whether the mask holds the given cause.
    pub fn contains(&self, cause: ParkCause) -> (b: bool)
        ensures
            b == self.has(cause),
            b == self@.contains(cause),
    {
        match cause {
            ParkCause::AuthRejected => self.auth,
            ParkCause::ConfigRejected => self.config,
            ParkCause::InvariantViolation => self.invariant,
            ParkCause::ExplicitPause => self.pause,
        }
    }

    /// Record one more park cause.
    pub fn insert(&mut self, cause: ParkCause)
        ensures
            final(self)@ == old(self)@.insert(cause),
    {
        match cause {
            ParkCause::AuthRejected => self.auth = true,
            ParkCause::ConfigRejected => self.config = true,
            ParkCause::InvariantViolation => self.invariant = true,
            ParkCause::ExplicitPause => self.pause = true,
        }
        assert(self@ =~= old(self)@.insert(cause));
    }

    /// Union another mask into this one.
    pub fn union_with(&mut self, other: &ReleaseMask)
        ensures
            *final(self) == old(self).union_spec(*other),
            final(self)@ == old(self)@.union(other@),
    {
        self.auth = self.auth || other.auth;
        self.config = self.config || other.config;
        self.invariant = self.invariant || other.invariant;
        self.pause = self.pause || other.pause;
        assert(self@ =~= old(self)@.union(other@));
    }

    /// Remove every entry the trigger clears; return whether any were removed.
    ///
    /// Entries the trigger does not match are retained, so the caller releases
    /// the record only when [`ReleaseMask::is_empty`] then holds.
    pub fn clear_matching(&mut self, trigger: TriggerClass) -> (removed: bool)
        ensures
            *final(self) == old(self).cleared_spec(trigger),
            final(self)@ == old(self)@.filter(|c: ParkCause| !clears(c, trigger)),
            removed == old(self).would_clear_spec(trigger),
    {
        let removed = self.would_clear(trigger);
        if self.auth && ParkCause::AuthRejected.cleared_by(trigger) {
            self.auth = false;
        }
        if self.config && ParkCause::ConfigRejected.cleared_by(trigger) {
            self.config = false;
        }
        if self.invariant && ParkCause::InvariantViolation.cleared_by(trigger) {
            self.invariant = false;
        }
        if self.pause && ParkCause::ExplicitPause.cleared_by(trigger) {
            self.pause = false;
        }
        assert(*self == old(self).cleared_spec(trigger));
        assert(self@ =~= old(self)@.filter(|c: ParkCause| !clears(c, trigger)));
        removed
    }

    /// Whether the trigger would clear at least one currently held entry,
    /// without mutating the mask.
    pub fn would_clear(&self, trigger: TriggerClass) -> (b: bool)
        ensures
            b == self.would_clear_spec(trigger),
    {
        let b = (self.auth && ParkCause::AuthRejected.cleared_by(trigger)) || (self.config
            && ParkCause::ConfigRejected.cleared_by(trigger)) || (self.invariant
            && ParkCause::InvariantViolation.cleared_by(trigger)) || (self.pause
            && ParkCause::ExplicitPause.cleared_by(trigger));
        if b {
            if self.auth && ParkCause::AuthRejected.cleared_by(trigger) {
                assert(self.has(ParkCause::AuthRejected));
            } else if self.config && ParkCause::ConfigRejected.cleared_by(trigger) {
                assert(self.has(ParkCause::ConfigRejected));
            } else if self.invariant && ParkCause::InvariantViolation.cleared_by(trigger) {
                assert(self.has(ParkCause::InvariantViolation));
            } else {
                assert(self.has(ParkCause::ExplicitPause));
            }
        }
        b
    }

    /// The recorded park causes in the canonical order of [`ParkCause`].
    pub fn causes(&self) -> (r: Vec<ParkCause>)
        ensures
            r@ == self.causes_seq(),
    {
        let mut r: Vec<ParkCause> = Vec::new();
        if self.auth {
            r.push(ParkCause::AuthRejected);
        }
        let ghost s1 = r@;
        if self.config {
            r.push(ParkCause::ConfigRejected);
        }
        let ghost s2 = r@;
        if self.invariant {
            r.push(ParkCause::InvariantViolation);
        }
        if self.pause {
            r.push(ParkCause::ExplicitPause);
        }
        assert(r@ =~= self.causes_seq());
        r
    }
}

/// Clearing is sticky: entries that the trigger does not clear survive, the
/// mask never gains entries, and it releases (becomes empty) exactly when no
/// surviving entry remains. In particular, a resume alone cannot free a record
/// whose precondition entry survives, and an explicit command never clears an
/// explicit pause.
pub proof fn lemma_clear_is_sticky(mask: ReleaseMask, trigger: TriggerClass)
    ensures
        forall|c: ParkCause| #[trigger]
            mask.cleared_spec(trigger).has(c) <==> (mask.has(c) && !clears(c, trigger)),
        mask.cleared_spec(trigger).is_empty_spec() <==> (forall|c: ParkCause|
            mask.has(c) ==> clears(c, trigger)),
        trigger == TriggerClass::ExplicitResume && (mask.has(ParkCause::AuthRejected) || mask.has(
            ParkCause::ConfigRejected,
        ) || mask.has(ParkCause::InvariantViolation)) ==> !mask.cleared_spec(
            trigger,
        ).is_empty_spec(),
        mask.has(ParkCause::ExplicitPause) && trigger != TriggerClass::ExplicitResume
            ==> mask.cleared_spec(trigger).has(ParkCause::ExplicitPause),
{
    let m = mask.cleared_spec(trigger);
    if m.is_empty_spec() {
        assert forall|c: ParkCause| mask.has(c) implies clears(c, trigger) by {
            assert(!m.has(c));
        }
    }
}

/// The translation layer's ruling on one `(effect kind, diagnosis, context)`.
#[derive(Debug, Clone, Copy, PartialEq, Eq, Structural)]
pub enum Verdict {
    /// Back off toward one capped, jittered deadline.
    Retry,
    /// Promote the pending intent to a stronger kind.
    Escalate { to: EffectKind },
    /// Park and record the release mask.
    Park { release_mask: ReleaseMask },
    /// Teardown kinds only: extinguish the obligation now.
    Abandon,
}

/// The context a classification cell consults beyond `(kind, diagnosis)`.
#[derive(Debug, Clone, Copy, PartialEq, Eq, Structural)]
pub struct ClassifyContext {
    /// Consecutive failures of the current record, starting at 1.
    pub attempt: u32,
    /// Whether the committed path is `Online`.
    pub path_online: bool,
    /// Whether recovery mode is `Terminating`.
    pub mode_terminating: bool,
    /// Whether the completion is processed at or after the teardown deadline.
    pub past_teardown_deadline: bool,
    /// The escalation threshold for probe timeouts.
    pub escalate_after_probe: u32,
    /// The escalation threshold for restore timeouts and transport impairment.
    pub escalate_after_restore: u32,
}

/// Documented default escalation threshold for probe timeouts.
pub const DEFAULT_ESCALATE_AFTER_PROBE: u32 = 2;

/// Documented default escalation threshold for restore timeouts and transport
/// impairment.
pub const DEFAULT_ESCALATE_AFTER_RESTORE: u32 = 2;

impl ClassifyContext {
    /// A context with the documented default thresholds and benign facts.
    pub fn with_defaults(attempt: u32) -> (c: ClassifyContext)
        ensures
            c == (ClassifyContext {
                attempt,
                path_online: true,
                mode_terminating: false,
                past_teardown_deadline: false,
                escalate_after_probe: DEFAULT_ESCALATE_AFTER_PROBE,
                escalate_after_restore: DEFAULT_ESCALATE_AFTER_RESTORE,
            }),
    {
        ClassifyContext {
            attempt,
            path_online: true,
            mode_terminating: false,
            past_teardown_deadline: false,
            escalate_after_probe: DEFAULT_ESCALATE_AFTER_PROBE,
            escalate_after_restore: DEFAULT_ESCALATE_AFTER_RESTORE,
        }
    }
}

/// A park verdict with the single mask entry implied by a tag.
pub open spec fn park_verdict(tag: DiagnosisTag) -> Verdict {
    Verdict::Park { release_mask: ReleaseMask::single_spec(cause_for_tag(tag)) }
}

/// The tag a kind's cell is looked up under: a diagnosis the kind cannot
/// produce is an effect-contract violation ruled as `InvariantViolation`.
pub open spec fn effective_tag(kind: EffectKind, tag: DiagnosisTag) -> DiagnosisTag {
    if producible(kind, tag) {
        tag
    } else {
        DiagnosisTag::InvariantViolation
    }
}

/// The probe rows, top to bottom.
pub open spec fn probe_row(tag: DiagnosisTag, ctx: ClassifyContext) -> Verdict {
    if tag == DiagnosisTag::TransportImpaired {
        Verdict::Escalate { to: EffectKind::Restore }
    } else if tag == DiagnosisTag::GenerationDead {
        Verdict::Escalate { to: EffectKind::Reconnect }
    } else if tag == DiagnosisTag::Timeout && ctx.path_online && ctx.attempt
        >= ctx.escalate_after_probe {
        Verdict::Escalate { to: EffectKind::Reconnect }
    } else if family_of(tag) == DiagnosisFamily::Precondition {
        park_verdict(tag)
    } else {
        Verdict::Retry
    }
}

/// The restore rows, top to bottom.
pub open spec fn restore_row(tag: DiagnosisTag, ctx: ClassifyContext) -> Verdict {
    if tag == DiagnosisTag::GenerationDead {
        Verdict::Escalate { to: EffectKind::Reconnect }
    } else if tag == DiagnosisTag::TransportImpaired && ctx.attempt >= ctx.escalate_after_restore {
        Verdict::Escalate { to: EffectKind::Reconnect }
    } else if tag == DiagnosisTag::Timeout && ctx.path_online && ctx.attempt
        >= ctx.escalate_after_restore {
        Verdict::Escalate { to: EffectKind::Reconnect }
    } else if family_of(tag) == DiagnosisFamily::Precondition {
        park_verdict(tag)
    } else {
        Verdict::Retry
    }
}

/// The reconnect rows: precondition parks, everything else sustains backoff.
pub open spec fn reconnect_row(tag: DiagnosisTag) -> Verdict {
    if family_of(tag) == DiagnosisFamily::Precondition {
        park_verdict(tag)
    } else {
        Verdict::Retry
    }
}

/// The teardown rows (confirmed offline disconnect and cleanup), top to bottom.
pub open spec fn teardown_row(tag: DiagnosisTag, ctx: ClassifyContext) -> Verdict {
    if tag == DiagnosisTag::InvariantViolation && ctx.mode_terminating {
        Verdict::Abandon
    } else if tag == DiagnosisTag::InvariantViolation {
        Verdict::Park {
            release_mask: ReleaseMask::single_spec(ParkCause::InvariantViolation),
        }
    } else if family_of(tag) == DiagnosisFamily::Availability && ctx.past_teardown_deadline {
        Verdict::Abandon
    } else if family_of(tag) == DiagnosisFamily::Availability {
        Verdict::Retry
    } else {
        Verdict::Park {
            release_mask: ReleaseMask::single_spec(ParkCause::InvariantViolation),
        }
    }
}

/// The classification table: one verdict per `(kind, diagnosis tag, context)`.
pub open spec fn classify_spec(kind: EffectKind, tag: DiagnosisTag, ctx: ClassifyContext) -> Verdict {
    let t = effective_tag(kind, tag);
    match kind {
        EffectKind::Probe => probe_row(t, ctx),
        EffectKind::Restore => restore_row(t, ctx),
        EffectKind::Reconnect => reconnect_row(t),
        EffectKind::ConfirmedOfflineDisconnect | EffectKind::Cleanup => teardown_row(t, ctx),
    }
}

/// Map `(effect kind, diagnosis, context)` to exactly one verdict.
///
/// Within each effect-kind group the rows are evaluated top to bottom and the
/// first match applies.
pub fn classify(kind: EffectKind, diagnosis: &EffectDiagnosis, ctx: ClassifyContext) -> (v: Verdict)
    ensures
        v == classify_spec(kind, tag_of(*diagnosis), ctx),
{
    let raw = diagnosis.tag();
    let tag = if kind.can_produce(raw) {
        raw
    } else {
        DiagnosisTag::InvariantViolation
    };
    let family = tag.family();
    match kind {
        EffectKind::Probe => classify_probe(tag, family, ctx),
        EffectKind::Restore => classify_restore(tag, family, ctx),
        EffectKind::Reconnect => classify_reconnect(family, tag),
        EffectKind::ConfirmedOfflineDisconnect | EffectKind::Cleanup => classify_teardown(
            tag,
            family,
            ctx,
        ),
    }
}

fn park_for(tag: DiagnosisTag) -> (v: Verdict)
    ensures
        v == park_verdict(tag),
{
    Verdict::Park { release_mask: ReleaseMask::single(ParkCause::from_precondition_tag(tag)) }
}

fn classify_probe(tag: DiagnosisTag, family: DiagnosisFamily, ctx: ClassifyContext) -> (v: Verdict)
    requires
        family == family_of(tag),
    ensures
        v == probe_row(tag, ctx),
{
    if tag == DiagnosisTag::TransportImpaired {
        return Verdict::Escalate { to: EffectKind::Restore };
    }
    if tag == DiagnosisTag::GenerationDead {
        return Verdict::Escalate { to: EffectKind::Reconnect };
    }
    if tag == DiagnosisTag::Timeout && ctx.path_online && ctx.attempt >= ctx.escalate_after_probe {
        return Verdict::Escalate { to: EffectKind::Reconnect };
    }
    if family == DiagnosisFamily::Precondition {
        return park_for(tag);
    }
    Verdict::Retry
}

fn classify_restore(tag: DiagnosisTag, family: DiagnosisFamily, ctx: ClassifyContext) -> (v:
    Verdict)
    requires
        family == family_of(tag),
    ensures
        v == restore_row(tag, ctx),
{
    if tag == DiagnosisTag::GenerationDead {
        return Verdict::Escalate { to: EffectKind::Reconnect };
    }
    if tag == DiagnosisTag::TransportImpaired && ctx.attempt >= ctx.escalate_after_restore {
        return Verdict::Escalate { to: EffectKind::Reconnect };
    }
    if tag == DiagnosisTag::Timeout && ctx.path_online && ctx.attempt
        >= ctx.escalate_after_restore {
        return Verdict::Escalate { to: EffectKind::Reconnect };
    }
    if family == DiagnosisFamily::Precondition {
        return park_for(tag);
    }
    Verdict::Retry
}

fn classify_reconnect(family: DiagnosisFamily, tag: DiagnosisTag) -> (v: Verdict)
    requires
        family == family_of(tag),
    ensures
        v == reconnect_row(tag),
{
    if family == DiagnosisFamily::Precondition {
        return park_for(tag);
    }
    Verdict::Retry
}

fn classify_teardown(tag: DiagnosisTag, family: DiagnosisFamily, ctx: ClassifyContext) -> (v:
    Verdict)
    requires
        family == family_of(tag),
    ensures
        v == teardown_row(tag, ctx),
{
    if tag == DiagnosisTag::InvariantViolation && ctx.mode_terminating {
        return Verdict::Abandon;
    }
    if tag == DiagnosisTag::InvariantViolation {
        return Verdict::Park { release_mask: ReleaseMask::single(ParkCause::InvariantViolation) };
    }
    if family == DiagnosisFamily::Availability && ctx.past_teardown_deadline {
        return Verdict::Abandon;
    }
    if family == DiagnosisFamily::Availability {
        return Verdict::Retry;
    }
    Verdict::Park { release_mask: ReleaseMask::single(ParkCause::InvariantViolation) }
}

/// Escalation laws. A timeout escalates only while the committed path is
/// online and only once the kind's threshold is reached, and then always to a
/// reconnect; offline, a recovery timeout is retried. Losing the path never
/// creates an escalation, and a verdict that escalates at some attempt
/// escalates the same way at every later attempt.
pub proof fn lemma_escalation_laws(kind: EffectKind, tag: DiagnosisTag, ctx: ClassifyContext, later: u32)
    ensures
        classify_spec(kind, DiagnosisTag::Timeout, ctx) is Escalate ==> ctx.path_online && ((kind
            == EffectKind::Probe && ctx.attempt >= ctx.escalate_after_probe) || (kind
            == EffectKind::Restore && ctx.attempt >= ctx.escalate_after_restore)),
        !ctx.path_online && !is_teardown_kind(kind) ==> classify_spec(kind, DiagnosisTag::Timeout, ctx)
            == Verdict::Retry,
        ctx.path_online && ((kind == EffectKind::Probe && ctx.attempt >= ctx.escalate_after_probe) || (
        kind == EffectKind::Restore && ctx.attempt >= ctx.escalate_after_restore)) ==> classify_spec(
            kind,
            DiagnosisTag::Timeout,
            ctx,
        ) == (Verdict::Escalate { to: EffectKind::Reconnect }),
        classify_spec(kind, tag, ClassifyContext { path_online: false, ..ctx }) is Escalate
            ==> classify_spec(kind, tag, ctx) == classify_spec(
            kind,
            tag,
            ClassifyContext { path_online: false, ..ctx },
        ),
        later >= ctx.attempt && classify_spec(kind, tag, ctx) is Escalate ==> classify_spec(
            kind,
            tag,
            ClassifyContext { attempt: later, ..ctx },
        ) == classify_spec(kind, tag, ctx),
        kind == EffectKind::Restore ==> (classify_spec(kind, DiagnosisTag::TransportImpaired, ctx)
            is Escalate <==> ctx.attempt >= ctx.escalate_after_restore),
{
}

/// Laws of the classification table: only teardown kinds abandon, only
/// probe and restore escalate (and always to a stronger recovery kind), a
/// reconnect never escalates or abandons, every park records exactly the one
/// cause implied by its diagnosis, and a diagnosis the kind cannot produce is
/// ruled exactly like an `InvariantViolation`.
pub proof fn lemma_classification_laws(kind: EffectKind, tag: DiagnosisTag, ctx: ClassifyContext)
    ensures
        classify_spec(kind, tag, ctx) == Verdict::Abandon ==> is_teardown_kind(kind),
        classify_spec(kind, tag, ctx) matches Verdict::Escalate { to } ==> ((kind
            == EffectKind::Probe && (to == EffectKind::Restore || to == EffectKind::Reconnect)) || (
        kind == EffectKind::Restore && to == EffectKind::Reconnect)),
        kind == EffectKind::Reconnect ==> (classify_spec(kind, tag, ctx) == Verdict::Retry
            || classify_spec(kind, tag, ctx) is Park),
        classify_spec(kind, tag, ctx) matches Verdict::Park { release_mask } ==> (exists|
            c: ParkCause,
        | release_mask == ReleaseMask::single_spec(c) && c != ParkCause::ExplicitPause),
        !producible(kind, tag) ==> classify_spec(kind, tag, ctx) == classify_spec(
            kind,
            DiagnosisTag::InvariantViolation,
            ctx,
        ),
        family_of(tag) == DiagnosisFamily::Precondition && producible(kind, tag) && !(
        is_teardown_kind(kind)) ==> classify_spec(kind, tag, ctx) == park_verdict(tag),
{
    let t = effective_tag(kind, tag);
    if classify_spec(kind, tag, ctx) is Park {
        if is_teardown_kind(kind) {
            assert(ReleaseMask::single_spec(ParkCause::InvariantViolation)
                == ReleaseMask::single_spec(ParkCause::InvariantViolation));
        } else {
            assert(cause_for_tag(t) != ParkCause::ExplicitPause);
        }
    }
}

// ---------------------------------------------------------------------------
// Backoff arithmetic
// ---------------------------------------------------------------------------

/// The fixed-point denominator of a jitter sample: a sample `u` stands for the
/// unit value `u / 2^53`, which is exactly the 53-bit mantissa grid of a
/// uniformly drawn double in `[0, 1)`.
pub const UNIT_ONE: u64 = 0x20_0000_0000_0000;

/// The fixed-point denominator of a jitter fraction, in parts per million.
pub const PPM_ONE: u32 = 1_000_000;

/// A deterministic source of jitter entropy.
///
/// The stream is part of supervisor state and is seeded per supervisor
/// instance. A duplicate or stale input consumes no entropy and must not
/// resample.
pub trait EntropySource: Sized {
    /// The sample the next draw returns, and the source after that draw.
    spec fn next_spec(&self) -> (u64, Self);

    /// Draw one jitter sample, a numerator over [`UNIT_ONE`] uniformly in
    /// `[0, UNIT_ONE)`. Consumed exactly once per newly armed deadline; values
    /// above `UNIT_ONE` are clamped by the caller.
    fn next_unit(&mut self) -> (u: u64)
        ensures
            (u, *final(self)) == old(self).next_spec(),
    ;
}

/// Per-kind backoff curve parameters (durations in nanoseconds).
#[derive(Debug, Clone, Copy, PartialEq, Eq, Structural)]
pub struct BackoffParams {
    /// The delay for the first failure (`attempt == 1`).
    pub base_delay: PolicyInstant,
    /// The delay ceiling; sustained kinds retry here indefinitely.
    pub max_delay: PolicyInstant,
    /// The exponent ceiling; `2^exponent` saturates at `2^exponent_cap`.
    pub exponent_cap: u32,
    /// The jitter span in parts per million: the sampled factor lies in
    /// `[1 - jitter_ppm / 10^6, 1]`.
    pub jitter_ppm: u32,
}

/// `2^e` as a natural number.
pub open spec fn pow2(e: nat) -> nat
    decreases e,
{
    if e == 0 {
        1
    } else {
        2 * pow2((e - 1) as nat)
    }
}

/// `min(x, y)` on integers.
pub open spec fn min_int(x: int, y: int) -> int {
    if x <= y {
        x
    } else {
        y
    }
}

/// `max(x, y)` on integers.
pub open spec fn max_int(x: int, y: int) -> int {
    if x >= y {
        x
    } else {
        y
    }
}

/// The backoff exponent: `min(attempt - 1, exponent_cap)`, saturating at zero.
pub open spec fn backoff_exponent(attempt: u32, cap: u32) -> nat {
    min_int(if attempt == 0 {
        0
    } else {
        attempt - 1
    }, cap as int) as nat
}

/// The multiplier `2^exponent`, saturating at `u32::MAX` past 31.
pub open spec fn backoff_factor(exponent: nat) -> nat {
    if exponent < 32 {
        pow2(exponent)
    } else {
        u32::MAX as nat
    }
}

/// The unjittered delay: `min(base * factor (saturating), max_delay)`.
pub open spec fn backoff_delay(attempt: u32, params: BackoffParams) -> nat {
    let scaled = min_int(
        params.base_delay * backoff_factor(backoff_exponent(attempt, params.exponent_cap)),
        u64::MAX as int,
    );
    min_int(scaled, params.max_delay as int) as nat
}

/// The jittered delay for a sample `unit` (numerator over `UNIT_ONE`):
/// `delay - (delay * ppm / 10^6) * unit / 2^53`, with the jitter fraction and
/// the sample each clamped to one.
pub open spec fn jittered_delay(delay: nat, jitter_ppm: u32, unit: u64) -> nat {
    let ppm = min_int(jitter_ppm as int, PPM_ONE as int);
    let u = min_int(unit as int, UNIT_ONE as int);
    let span = (delay * ppm) / (PPM_ONE as int);
    (delay - (span * u) / (UNIT_ONE as int)) as nat
}

/// One absolute retry deadline:
/// `now + max(jittered delay, retry_after)`, saturating at `u64::MAX`.
pub open spec fn backoff_deadline(
    now: PolicyInstant,
    attempt: u32,
    params: BackoffParams,
    retry_after: PolicyInstant,
    unit: u64,
) -> PolicyInstant {
    let jittered = jittered_delay(backoff_delay(attempt, params), params.jitter_ppm, unit);
    min_int(now + max_int(jittered as int, retry_after as int), u64::MAX as int) as u64
}

proof fn lemma_pow2_monotonic(a: nat, b: nat)
    requires
        a <= b,
    ensures
        1 <= pow2(a) <= pow2(b),
    decreases b,
{
    if b > a {
        lemma_pow2_monotonic(a, (b - 1) as nat);
    } else if a > 0 {
        lemma_pow2_monotonic((a - 1) as nat, (a - 1) as nat);
    }
}

proof fn lemma_pow2_bounds(e: nat)
    requires
        e < 32,
    ensures
        1 <= pow2(e) <= 0x8000_0000,
{
    assert(pow2(31) == 0x8000_0000) by {
        reveal_with_fuel(pow2, 32);
    }
    lemma_pow2_monotonic(e, 31);
}

/// Compute `2^e` for `e < 32`.
fn pow2_u32(e: u32) -> (r: u32)
    requires
        e < 32,
    ensures
        r == pow2(e as nat),
{
    let mut r: u32 = 1;
    let mut i: u32 = 0;
    while i < e
        invariant
            i <= e,
            e < 32,
            r == pow2(i as nat),
        decreases e - i,
    {
        proof {
            lemma_pow2_bounds((i + 1) as nat);
        }
        r = r * 2;
        i = i + 1;
    }
    r
}

/// Compute one absolute retry deadline for a given jitter sample.
///
/// ```text
/// exponent = min(attempt - 1, exponent_cap)          saturating
/// delay    = min(base_delay * 2^exponent, max_delay)
/// jitter   = 1 - jitter_fraction * u,  u in [0, 1]
/// deadline = now + max(delay * jitter, retry_after)
/// ```
///
/// The `retry_after` floor is applied *after* jitter, so jitter can never move
/// the deadline below it; the sum saturates instead of overflowing.
pub fn backoff_deadline_for_unit(
    now: PolicyInstant,
    attempt: u32,
    params: &BackoffParams,
    retry_after: PolicyInstant,
    unit: u64,
) -> (deadline: PolicyInstant)
    ensures
        deadline == backoff_deadline(now, attempt, *params, retry_after, unit),
{
    let e1: u32 = if attempt == 0 {
        0
    } else {
        attempt - 1
    };
    let exponent: u32 = if e1 <= params.exponent_cap {
        e1
    } else {
        params.exponent_cap
    };
    let factor: u32 = if exponent < 32 {
        pow2_u32(exponent)
    } else {
        u32::MAX
    };
    proof {
        if exponent < 32 {
            lemma_pow2_bounds(exponent as nat);
        }
    }
    assert((params.base_delay as u128) * (factor as u128) <= 0xFFFF_FFFF_FFFF_FFFFu128
        * 0xFFFF_FFFFu128) by (nonlinear_arith)
        requires
            params.base_delay <= 0xFFFF_FFFF_FFFF_FFFFu64,
            factor <= 0xFFFF_FFFFu32,
    ;
    let product: u128 = (params.base_delay as u128) * (factor as u128);
    let scaled: u64 = if product > u64::MAX as u128 {
        u64::MAX
    } else {
        product as u64
    };
    let delay: u64 = if scaled <= params.max_delay {
        scaled
    } else {
        params.max_delay
    };
    assert(delay == backoff_delay(attempt, *params));

    let ppm: u32 = if params.jitter_ppm <= PPM_ONE {
        params.jitter_ppm
    } else {
        PPM_ONE
    };
    let u: u64 = if unit <= UNIT_ONE {
        unit
    } else {
        UNIT_ONE
    };
    assert((delay as u128) * (ppm as u128) <= 0xFFFF_FFFF_FFFF_FFFFu128 * 1_000_000u128)
        by (nonlinear_arith)
        requires
            ppm <= 1_000_000,
    ;
    let span: u128 = ((delay as u128) * (ppm as u128)) / (PPM_ONE as u128);
    assert(span <= delay) by (nonlinear_arith)
        requires
            span == ((delay as u128) * (ppm as u128)) / 1_000_000,
            ppm <= 1_000_000,
    ;
    assert(span * (u as u128) <= 0xFFFF_FFFF_FFFF_FFFFu128 * 0x20_0000_0000_0000u128)
        by (nonlinear_arith)
        requires
            span <= 0xFFFF_FFFF_FFFF_FFFFu128,
            u <= 0x20_0000_0000_0000u64,
    ;
    let reduction: u128 = (span * (u as u128)) / (UNIT_ONE as u128);
    assert(reduction <= span) by (nonlinear_arith)
        requires
            reduction == (span * (u as u128)) / 0x20_0000_0000_0000,
            u <= 0x20_0000_0000_0000u64,
    ;
    let jittered: u64 = delay - (reduction as u64);
    assert(jittered == jittered_delay(delay as nat, params.jitter_ppm, unit));
    let floored: u64 = if jittered >= retry_after {
        jittered
    } else {
        retry_after
    };
    let sum: u128 = (now as u128) + (floored as u128);
    if sum > u64::MAX as u128 {
        u64::MAX
    } else {
        sum as u64
    }
}

/// Compute one absolute retry deadline, drawing exactly one entropy sample.
pub fn arm_backoff<E: EntropySource>(
    now: PolicyInstant,
    attempt: u32,
    params: &BackoffParams,
    retry_after: PolicyInstant,
    entropy: &mut E,
) -> (deadline: PolicyInstant)
    ensures
        deadline == backoff_deadline(now, attempt, *params, retry_after, old(entropy).next_spec().0),
        *final(entropy) == old(entropy).next_spec().1,
{
    let unit = entropy.next_unit();
    backoff_deadline_for_unit(now, attempt, params, retry_after, unit)
}

/// The retry floor is always honored and the deadline never precedes `now`;
/// below saturation the deadline is at most `now + max(max_delay, retry_after)`
/// and at least `now + delay * (1 - jitter)`.
pub proof fn lemma_backoff_bounds(
    now: PolicyInstant,
    attempt: u32,
    params: BackoffParams,
    retry_after: PolicyInstant,
    unit: u64,
)
    ensures
        backoff_deadline(now, attempt, params, retry_after, unit) >= now,
        backoff_deadline(now, attempt, params, retry_after, unit) >= min_int(
            now + retry_after,
            u64::MAX as int,
        ),
        backoff_deadline(now, attempt, params, retry_after, unit) <= now + max_int(
            params.max_delay as int,
            retry_after as int,
        ),
        jittered_delay(backoff_delay(attempt, params), params.jitter_ppm, unit) <= backoff_delay(
            attempt,
            params,
        ),
        backoff_delay(attempt, params) <= params.max_delay,
        unit == 0 ==> jittered_delay(backoff_delay(attempt, params), params.jitter_ppm, unit)
            == backoff_delay(attempt, params),
{
    let delay = backoff_delay(attempt, params);
    let ppm = min_int(params.jitter_ppm as int, PPM_ONE as int);
    let u = min_int(unit as int, UNIT_ONE as int);
    let span = (delay * ppm) / (PPM_ONE as int);
    assert(span <= delay) by (nonlinear_arith)
        requires
            span == (delay * ppm) / 1_000_000int,
            0 <= ppm <= 1_000_000,
            delay >= 0,
    ;
    assert(0 <= (span * u) / (UNIT_ONE as int) <= span) by (nonlinear_arith)
        requires
            0 <= u <= 0x20_0000_0000_0000int,
            0 <= span,
    ;
    if unit == 0 {
        assert(span * u == 0) by (nonlinear_arith)
            requires
                u == 0,
        ;
    }
}

// ---------------------------------------------------------------------------
// Production entropy
// ---------------------------------------------------------------------------

/// The SplitMix64 increment.
pub const SPLITMIX_GAMMA: u64 = 0x9E37_79B9_7F4A_7C15;

/// The production jitter source: a self-contained SplitMix64 stream.
///
/// It draws no ambient randomness of its own; the supervisor seeds it once per
/// instance so that clients and sessions de-correlate.
#[derive(Debug, Clone)]
pub struct DefaultEntropy {
    state: u64,
}

impl DefaultEntropy {
    /// The current stream position.
    pub closed spec fn position(self) -> u64 {
        self.state
    }

    /// Seed the stream; a zero seed is nudged so the first draw is still well
    /// distributed.
    pub fn seeded(seed: u64) -> (e: DefaultEntropy)
        ensures
            e.position() == seed ^ SPLITMIX_GAMMA,
    {
        DefaultEntropy { state: seed ^ SPLITMIX_GAMMA }
    }
}

/// The SplitMix64 finalizer of a stream position, reduced to a 53-bit
/// numerator over [`UNIT_ONE`].
pub open spec fn splitmix_unit(position: u64) -> u64 {
    let z1 = (position ^ (position >> 30u64)).wrapping_mul(0xBF58_476D_1CE4_E5B9);
    let z2 = (z1 ^ (z1 >> 27u64)).wrapping_mul(0x94D0_49BB_1331_11EB);
    (z2 ^ (z2 >> 31u64)) >> 11u64
}

/// What the next draw of the default stream gives: the finalized next
/// position, with the stream advanced one step.
pub proof fn lemma_default_entropy_next(e: DefaultEntropy)
    ensures
        e.next_spec().0 == splitmix_unit(e.position().wrapping_add(SPLITMIX_GAMMA)),
        e.next_spec().1.position() == e.position().wrapping_add(SPLITMIX_GAMMA),
{
}

impl EntropySource for DefaultEntropy {
    /// The finalized next position, and the stream advanced by one step.
    closed spec fn next_spec(&self) -> (u64, DefaultEntropy) {
        let p = self.state.wrapping_add(SPLITMIX_GAMMA);
        (splitmix_unit(p), DefaultEntropy { state: p })
    }

    fn next_unit(&mut self) -> (u: u64)
        ensures
            u < UNIT_ONE,
            final(self).position() == old(self).position().wrapping_add(SPLITMIX_GAMMA),
            u == splitmix_unit(final(self).position()),
    {
        self.state = self.state.wrapping_add(SPLITMIX_GAMMA);
        let mut z = self.state;
        z = (z ^ (z >> 30u64)).wrapping_mul(0xBF58_476D_1CE4_E5B9);
        z = (z ^ (z >> 27u64)).wrapping_mul(0x94D0_49BB_1331_11EB);
        z = z ^ (z >> 31u64);
        let u = z >> 11u64;
        assert(u < 0x20_0000_0000_0000u64) by (bit_vector)
            requires
                u == z >> 11u64,
        ;
        u
    }
}

/// A replayable entropy source: it hands out its samples in order, cycling,
/// and counts the draws.
#[derive(Debug)]
pub struct FixedEntropy {
    samples: Vec<u64>,
    index: usize,
}

impl FixedEntropy {
    #[verifier::type_invariant]
    closed spec fn has_samples(self) -> bool {
        self.samples@.len() > 0
    }

    /// The samples, in the order they are drawn.
    pub closed spec fn samples_spec(self) -> Seq<u64> {
        self.samples@
    }

    /// How many samples have been drawn.
    pub closed spec fn drawn_spec(self) -> usize {
        self.index
    }

    /// A source replaying `samples` (numerators over [`UNIT_ONE`]); it needs
    /// at least one.
    pub fn new(samples: Vec<u64>) -> (e: FixedEntropy)
        requires
            samples@.len() > 0,
        ensures
            e.samples_spec() == samples@,
            e.drawn_spec() == 0,
    {
        FixedEntropy { samples, index: 0 }
    }

    /// A source that always draws `value`.
    pub fn constant(value: u64) -> (e: FixedEntropy)
        ensures
            e.samples_spec() == seq![value],
            e.drawn_spec() == 0,
    {
        let mut samples: Vec<u64> = Vec::new();
        samples.push(value);
        assert(samples@ =~= seq![value]);
        FixedEntropy { samples, index: 0 }
    }

    /// How many samples have been drawn, for asserting that duplicates or
    /// stale inputs consumed no entropy.
    pub fn drawn(&self) -> (n: usize)
        ensures
            n == self.drawn_spec(),
    {
        self.index
    }
}

/// What the next draw of a replaying source gives: the sample at its draw
/// count (cycling through the samples), and the same samples with one more
/// draw counted.
pub proof fn lemma_fixed_entropy_next(e: FixedEntropy)
    ensures
        e.next_spec().0 == e.samples_spec()[e.drawn_spec() as int % e.samples_spec().len() as int],
        e.next_spec().1.samples_spec() == e.samples_spec(),
        e.next_spec().1.drawn_spec() == e.drawn_spec().wrapping_add(1),
{
}

/// A source replaying the single sample `v` draws `v` every time.
pub proof fn lemma_constant_entropy_draws_its_value(e: FixedEntropy, v: u64)
    requires
        e.samples_spec() == seq![v],
    ensures
        e.next_spec().0 == v,
        e.next_spec().1.samples_spec() == seq![v],
{
    lemma_fixed_entropy_next(e);
    assert(e.drawn_spec() as int % 1 == 0);
}

impl EntropySource for FixedEntropy {
    /// The sample at the draw count (cycling), and the count advanced.
    closed spec fn next_spec(&self) -> (u64, FixedEntropy) {
        (
            self.samples@[self.index as int % self.samples@.len() as int],
            FixedEntropy { samples: self.samples, index: self.index.wrapping_add(1) },
        )
    }

    fn next_unit(&mut self) -> (u: u64)
        ensures
            u == old(self).samples_spec()[old(self).drawn_spec() as int % old(self).samples_spec().len() as int],
            final(self).samples_spec() == old(self).samples_spec(),
            final(self).drawn_spec() == old(self).drawn_spec().wrapping_add(1),
    {
        proof {
            use_type_invariant(&*self);
        }
        let value = self.samples[self.index % self.samples.len()];
        self.index = self.index.wrapping_add(1);
        value
    }
}

} // verus!
