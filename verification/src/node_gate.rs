//! The node's gates: how a registration reply is read at start-up and how an
//! incoming message is admitted before it is dispatched.
//!
//! The registration call, the ACL evaluation, the duplicate-request cache and
//! the workload dispatch are awaited outside the library; each decision
//! between them is a verified function here, from plain values to the result
//! or error the node answers with. Actor identities arrive as their display
//! text.
use vstd::prelude::*;

use crate::actor_errors::ActrErrorKind;
use crate::credential_manager::{decimal_text, push_decimal, IssuerError};

verus! {

/// An actor error: its kind and its message.
#[derive(Debug, Clone, PartialEq, Eq)]
pub struct ActorError {
    pub kind: ActrErrorKind,
    pub message: String,
}

/// Whether `e` is an error of `kind` with exactly the message `m`.
pub open spec fn error_with(e: ActorError, kind: ActrErrorKind, m: Seq<char>) -> bool {
    e.kind == kind && e.message@ == m
}

// ---- Registration at start-up ---------------------------------------------

/// The result carried by a registration reply.
#[derive(Debug, Clone, PartialEq, Eq)]
pub enum RegistrationReply<R> {
    Success(R),
    Error(IssuerError),
    /// The reply carried no result at all.
    Missing,
}

/// Read a registration call's result (`Err` holds the call's error text):
/// a success yields the issued registration; every failure makes the node
/// unavailable, with a reason that names it.
pub fn registration_outcome<R>(call: Result<RegistrationReply<R>, String>) -> (r: Result<R, ActorError>)
    ensures
        match call {
            Err(t) => r matches Err(e) && error_with(
                e,
                ActrErrorKind::Unavailable,
                "AIS registration failed: "@ + t@,
            ),
            Ok(RegistrationReply::Success(ok)) => r == Ok::<R, ActorError>(ok),
            Ok(RegistrationReply::Error(x)) => r matches Err(e) && error_with(
                e,
                ActrErrorKind::Unavailable,
                "AIS registration rejected: "@ + x.message@ + " (code: "@ + decimal_text(x.code as nat)
                    + ")"@,
            ),
            Ok(RegistrationReply::Missing) => r matches Err(e) && error_with(
                e,
                ActrErrorKind::Unavailable,
                "Invalid AIS registration response: missing result"@,
            ),
        },
{
    match call {
        Err(t) => {
            let mut m = String::from_str("AIS registration failed: ");
            m.append(t.as_str());
            Err(ActorError { kind: ActrErrorKind::Unavailable, message: m })
        },
        Ok(RegistrationReply::Success(ok)) => Ok(ok),
        Ok(RegistrationReply::Error(x)) => {
            let mut m = String::from_str("AIS registration rejected: ");
            m.append(x.message.as_str());
            m.append(" (code: ");
            push_decimal(&mut m, x.code);
            m.append(")");
            Err(ActorError { kind: ActrErrorKind::Unavailable, message: m })
        },
        Ok(RegistrationReply::Missing) => Err(
            ActorError {
                kind: ActrErrorKind::Unavailable,
                message: String::from_str("Invalid AIS registration response: missing result"),
            },
        ),
    }
}

// ---- Admitting an incoming message ----------------------------------------

/// A started node has an identity; before start no message is handled.
pub fn require_actor(actor_id: Option<String>) -> (r: Result<String, ActorError>)
    ensures
        match actor_id {
            Some(a) => r == Ok::<String, ActorError>(a),
            None => r matches Err(e) && error_with(
                e,
                ActrErrorKind::Internal,
                "Actor ID not set - node must be started before handling messages"@,
            ),
        },
{
    match actor_id {
        Some(a) => Ok(a),
        None => Err(
            ActorError {
                kind: ActrErrorKind::Internal,
                message: String::from_str(
                    "Actor ID not set - node must be started before handling messages",
                ),
            },
        ),
    }
}

/// The caller as a denial names it: its display text, or `<unknown>`.
pub open spec fn caller_text(caller: Option<String>) -> Seq<char> {
    match caller {
        Some(c) => c@,
        None => "<unknown>"@,
    }
}

/// Apply the ACL verdict for a message from `caller` to `actor`: an ACL
/// that could not be evaluated is an internal error; a denial is a
/// permission error naming both; an allowed call passes.
pub fn acl_gate(actor: &String, caller: Option<String>, acl: Result<bool, String>) -> (r: Result<
    (),
    ActorError,
>)
    ensures
        match acl {
            Err(m) => r matches Err(e) && error_with(e, ActrErrorKind::Internal, "ACL check failed: "@ + m@),
            Ok(false) => r matches Err(e) && error_with(
                e,
                ActrErrorKind::PermissionDenied,
                "ACL denied: "@ + caller_text(caller) + " is not allowed to call "@ + actor@,
            ),
            Ok(true) => r == Ok::<(), ActorError>(()),
        },
{
    match acl {
        Err(m) => {
            let mut t = String::from_str("ACL check failed: ");
            t.append(m.as_str());
            Err(ActorError { kind: ActrErrorKind::Internal, message: t })
        },
        Ok(false) => {
            let mut t = String::from_str("ACL denied: ");
            match caller {
                Some(c) => t.append(c.as_str()),
                None => t.append("<unknown>"),
            }
            t.append(" is not allowed to call ");
            t.append(actor.as_str());
            Err(ActorError { kind: ActrErrorKind::PermissionDenied, message: t })
        },
        Ok(true) => Ok(()),
    }
}

/// What the duplicate-request cache reported for a request id.
#[derive(Debug, Clone, PartialEq, Eq)]
pub enum DedupOutcome<R> {
    /// First sight of the request; it is now marked in flight.
    Fresh,
    /// The same request is being handled right now.
    InFlight,
    /// The request was handled before; this is its cached result.
    Duplicate(R),
}

/// What happens to a message after the duplicate check.
#[derive(Debug, Clone, PartialEq, Eq)]
pub enum DedupStep<R> {
    /// Go on and dispatch it.
    Proceed,
    /// Answer at once with this.
    Answer(R),
}

/// The step after the duplicate check: a fresh request proceeds; a
/// concurrent copy of an in-flight request is refused as an invalid
/// argument; a completed duplicate is answered with its cached result.
pub fn dedup_gate<T>(outcome: DedupOutcome<Result<T, ActorError>>) -> (s: DedupStep<
    Result<T, ActorError>,
>)
    ensures
        match outcome {
            DedupOutcome::Fresh => s == DedupStep::<Result<T, ActorError>>::Proceed,
            DedupOutcome::InFlight => s matches DedupStep::Answer(Err(e)) && error_with(
                e,
                ActrErrorKind::InvalidArgument,
                "duplicate request already in-flight"@,
            ),
            DedupOutcome::Duplicate(cached) => s == DedupStep::Answer(cached),
        },
{
    match outcome {
        DedupOutcome::Fresh => DedupStep::Proceed,
        DedupOutcome::InFlight => DedupStep::Answer(
            Err(
                ActorError {
                    kind: ActrErrorKind::InvalidArgument,
                    message: String::from_str("duplicate request already in-flight"),
                },
            ),
        ),
        DedupOutcome::Duplicate(cached) => DedupStep::Answer(cached),
    }
}

/// A started node holds a credential; without one no message is dispatched.
pub fn require_credential(present: bool) -> (r: Result<(), ActorError>)
    ensures
        present ==> r == Ok::<(), ActorError>(()),
        !present ==> (r matches Err(e) && error_with(
            e,
            ActrErrorKind::Internal,
            "Credential not set - node must be started before handling messages"@,
        )),
{
    if present {
        Ok(())
    } else {
        Err(
            ActorError {
                kind: ActrErrorKind::Internal,
                message: String::from_str(
                    "Credential not set - node must be started before handling messages",
                ),
            },
        )
    }
}

/// How a dispatch failure is reported: an internal error naming the
/// workload's failure text.
pub fn dispatch_failure(detail: &str) -> (e: ActorError)
    ensures
        error_with(e, ActrErrorKind::Internal, "workload dispatch failed: "@ + detail@),
{
    let mut t = String::from_str("workload dispatch failed: ");
    t.append(detail);
    ActorError { kind: ActrErrorKind::Internal, message: t }
}

} // verus!
