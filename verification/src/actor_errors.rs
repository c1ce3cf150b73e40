//! How actor errors are reported to callers.
//!
//! An error raised while handling a message is answered with an HTTP-style
//! status code in the error response, and an error raised while a guest
//! workload's host call is routed is answered with an ABI error class that
//! lets the guest tell a malformed request from any other failure.
use vstd::prelude::*;

verus! {

/// The kinds of actor error, without their payloads.
#[derive(Debug, Clone, Copy, PartialEq, Eq, Structural, Hash)]
pub enum ActrErrorKind {
    Unavailable,
    TimedOut,
    NotFound,
    PermissionDenied,
    InvalidArgument,
    UnknownRoute,
    DependencyNotFound,
    DecodeFailure,
    NotImplemented,
    Internal,
}

/// The status code an error response carries for each kind.
pub open spec fn status_code(kind: ActrErrorKind) -> u32 {
    match kind {
        ActrErrorKind::Unavailable => 503,
        ActrErrorKind::TimedOut => 504,
        ActrErrorKind::NotFound => 404,
        ActrErrorKind::PermissionDenied => 403,
        ActrErrorKind::InvalidArgument => 400,
        ActrErrorKind::UnknownRoute => 404,
        ActrErrorKind::DependencyNotFound => 400,
        ActrErrorKind::DecodeFailure => 400,
        ActrErrorKind::NotImplemented => 501,
        ActrErrorKind::Internal => 500,
    }
}

/// The status code an error response carries: service unavailable, gateway
/// timeout, not found (also for an unknown route), forbidden, bad request
/// (an invalid argument, a missing dependency or an undecodable payload),
/// not implemented, or internal error.
pub fn protocol_error_to_code(kind: ActrErrorKind) -> (c: u32)
    ensures
        c == status_code(kind),
{
    match kind {
        ActrErrorKind::Unavailable => 503,
        ActrErrorKind::TimedOut => 504,
        ActrErrorKind::NotFound => 404,
        ActrErrorKind::PermissionDenied => 403,
        ActrErrorKind::InvalidArgument => 400,
        ActrErrorKind::UnknownRoute => 404,
        ActrErrorKind::DependencyNotFound => 400,
        ActrErrorKind::DecodeFailure => 400,
        ActrErrorKind::NotImplemented => 501,
        ActrErrorKind::Internal => 500,
    }
}

/// The error class a guest host call reports.
#[derive(Debug, Clone, Copy, PartialEq, Eq, Structural, Hash)]
pub enum AbiErrorClass {
    /// The request itself was malformed.
    Protocol,
    /// Any other failure.
    Generic,
}

/// The ABI class of a host call failure: an undecodable payload or an
/// invalid argument is a protocol error; every other kind is generic.
pub fn abi_error_class(kind: ActrErrorKind) -> (c: AbiErrorClass)
    ensures
        c == (if kind == ActrErrorKind::DecodeFailure || kind == ActrErrorKind::InvalidArgument {
            AbiErrorClass::Protocol
        } else {
            AbiErrorClass::Generic
        }),
{
    match kind {
        ActrErrorKind::DecodeFailure | ActrErrorKind::InvalidArgument => AbiErrorClass::Protocol,
        _ => AbiErrorClass::Generic,
    }
}

/// The result a guest host call is answered with.
#[derive(Debug, Clone, PartialEq, Eq)]
pub enum HostCallResult {
    /// The call's response payload.
    Bytes(Vec<u8>),
    /// A one-way call was delivered.
    Done,
    /// The call failed with this class.
    Error(AbiErrorClass),
}

/// How a routed host call ended.
#[derive(Debug, Clone, PartialEq, Eq)]
pub enum HostCallEnd {
    /// The destination could not be decoded; nothing was routed.
    UndecodableDestination,
    /// The call answered with a payload.
    Answered(Vec<u8>),
    /// A one-way call was delivered.
    Delivered,
    /// Routing failed with this kind of error.
    Failed(ActrErrorKind),
}

/// The result a guest host call is answered with: a destination that does
/// not decode is a protocol error, a routing failure is classed by
/// [`abi_error_class`], and a success passes the payload through.
pub fn host_call_result(end: HostCallEnd) -> (r: HostCallResult)
    ensures
        r == match end {
            HostCallEnd::UndecodableDestination => HostCallResult::Error(AbiErrorClass::Protocol),
            HostCallEnd::Answered(b) => HostCallResult::Bytes(b),
            HostCallEnd::Delivered => HostCallResult::Done,
            HostCallEnd::Failed(k) => HostCallResult::Error(
                if k == ActrErrorKind::DecodeFailure || k == ActrErrorKind::InvalidArgument {
                    AbiErrorClass::Protocol
                } else {
                    AbiErrorClass::Generic
                },
            ),
        },
{
    match end {
        HostCallEnd::UndecodableDestination => HostCallResult::Error(AbiErrorClass::Protocol),
        HostCallEnd::Answered(b) => HostCallResult::Bytes(b),
        HostCallEnd::Delivered => HostCallResult::Done,
        HostCallEnd::Failed(k) => HostCallResult::Error(abi_error_class(k)),
    }
}

/// A failure the guest sees as a protocol error answers a caller with bad
/// request, and every kind answers with a client or server error status.
pub proof fn lemma_protocol_errors_are_bad_requests(kind: ActrErrorKind)
    ensures
        (kind == ActrErrorKind::DecodeFailure || kind == ActrErrorKind::InvalidArgument)
            ==> status_code(kind) == 400,
        400 <= status_code(kind) < 600,
{
}

} // verus!
