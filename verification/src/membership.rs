//! Membership decisions: how one on-demand credential request is resolved.
//!
//! The membership controller owns the node credential and serializes
//! on-demand re-acquire requests raised by signaling and heartbeat
//! reporters. Each step of that flow is a decision here; the controller
//! shell performs the awaited work (phase queries, re-acquisition,
//! publication) between them.
use vstd::prelude::*;

verus! {

/// How the remote judged the presented credential.
#[derive(Debug, Clone, Copy, PartialEq, Eq, Structural, Hash)]
pub enum AuthVerdict {
    /// The credential was rejected; a re-acquire may fix it.
    Rejected,
    /// The realm denied membership outright.
    RealmDenied,
}

/// The result of one on-demand membership request.
#[derive(Debug, Clone, Copy, PartialEq, Eq, Structural, Hash)]
pub enum MembershipResolution {
    /// This request published a fresh credential.
    Published,
    /// A prior request already advanced beyond the reported revision.
    Superseded,
    /// The issuer was temporarily unavailable; a later rejection is a new
    /// trigger.
    Deferred,
    /// The realm denied membership; no automatic re-probe follows.
    Denied,
    /// The controller shut down before resolving the request.
    Shutdown,
}

/// The first step for a report.
#[derive(Debug, Clone, Copy, PartialEq, Eq, Structural, Hash)]
pub enum ReportStep {
    /// Resolve at once.
    Resolve(MembershipResolution),
    /// Mark the realm unavailable, then resolve as denied.
    MarkDenied,
    /// Ask the credential manager for its session phase.
    QueryPhase,
}

/// The first step for a report: a report about a revision older than the
/// current publication was already handled; a realm denial is recorded and
/// denied; a rejection first checks the session phase.
pub open spec fn report_step_spec(verdict: AuthVerdict, stale_revision: u64, current_revision: u64) -> ReportStep {
    if stale_revision < current_revision {
        ReportStep::Resolve(MembershipResolution::Superseded)
    } else {
        match verdict {
            AuthVerdict::RealmDenied => ReportStep::MarkDenied,
            AuthVerdict::Rejected => ReportStep::QueryPhase,
        }
    }
}

/// The first step for a report.
pub fn triage_report(verdict: AuthVerdict, stale_revision: u64, current_revision: u64) -> (s: ReportStep)
    ensures
        s == report_step_spec(verdict, stale_revision, current_revision),
{
    if stale_revision < current_revision {
        return ReportStep::Resolve(MembershipResolution::Superseded);
    }
    match verdict {
        AuthVerdict::RealmDenied => ReportStep::MarkDenied,
        AuthVerdict::Rejected => ReportStep::QueryPhase,
    }
}

/// The step after the phase query of a rejection.
#[derive(Debug, Clone, Copy, PartialEq, Eq, Structural, Hash)]
pub enum RejectionStep {
    /// The realm is already unavailable: resolve as denied without a retry.
    Deny,
    /// Run one on-demand re-acquire.
    Reacquire,
}

/// The step after the phase query of a rejection.
pub fn rejection_step(realm_unavailable: bool) -> (s: RejectionStep)
    ensures
        s == (if realm_unavailable { RejectionStep::Deny } else { RejectionStep::Reacquire }),
{
    if realm_unavailable {
        RejectionStep::Deny
    } else {
        RejectionStep::Reacquire
    }
}

/// How one re-acquire ended.
#[derive(Debug, Clone, Copy, PartialEq, Eq, Structural, Hash)]
pub enum ReacquireResult {
    Renewed,
    Denied,
    Deferred,
}

/// The step after a re-acquire.
#[derive(Debug, Clone, Copy, PartialEq, Eq, Structural, Hash)]
pub enum ReacquireStep {
    /// Publish the renewed credential under this revision, wake the socket,
    /// and resolve as published.
    Publish { revision: u64 },
    /// Mark the realm unavailable, then resolve as denied.
    MarkDenied,
    /// Resolve as deferred.
    Defer,
}

/// The step after a re-acquire: a renewal is published under the next
/// publication revision (one past the current); a denial is recorded; a
/// deferral waits for another trigger.
pub open spec fn reacquire_step_spec(result: ReacquireResult, current_revision: u64) -> ReacquireStep {
    match result {
        ReacquireResult::Renewed => ReacquireStep::Publish { revision: (current_revision + 1) as u64 },
        ReacquireResult::Denied => ReacquireStep::MarkDenied,
        ReacquireResult::Deferred => ReacquireStep::Defer,
    }
}

/// The step after a re-acquire. The publication revision is exhausted at
/// `u64::MAX`, where no further credential can be published.
pub fn reacquire_step(result: ReacquireResult, current_revision: u64) -> (s: ReacquireStep)
    requires
        result == ReacquireResult::Renewed ==> current_revision < u64::MAX,
    ensures
        s == reacquire_step_spec(result, current_revision),
{
    match result {
        ReacquireResult::Renewed => ReacquireStep::Publish { revision: current_revision + 1 },
        ReacquireResult::Denied => ReacquireStep::MarkDenied,
        ReacquireResult::Deferred => ReacquireStep::Defer,
    }
}

/// Publication revisions only grow: a published credential's revision is
/// above every revision a report could still be current for, so a report
/// about an older publication is superseded.
pub proof fn lemma_publication_supersedes_older_reports(current_revision: u64, stale_revision: u64, verdict: AuthVerdict)
    requires
        current_revision < u64::MAX,
        stale_revision <= current_revision,
    ensures
        reacquire_step_spec(ReacquireResult::Renewed, current_revision) matches ReacquireStep::Publish { revision }
            && revision > current_revision && report_step_spec(verdict, stale_revision, revision)
            == ReportStep::Resolve(MembershipResolution::Superseded),
{
}

} // verus!
