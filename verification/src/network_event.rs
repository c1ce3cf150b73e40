//! The network event vocabulary and its pure mappings.
//!
//! Platform network and app-lifecycle events, the recovery actions selected
//! from them, the typed errors a recovery effect reports, and the bounded
//! teardown report, together with the verified functions that map each onto
//! the recovery-policy vocabulary. Channels, timers and the asynchronous
//! reconcile loop that carry these values live outside the library.
use vstd::prelude::*;

use crate::recovery_policy::diagnosis::{EffectDiagnosis, EffectOutcome};
use crate::recovery_policy::translate::{
    Input, SignalingLostCause, SignalingOrigin, TimerCategory, TimerId,
};

verus! {

/// Foreground returns after at least this long in the background (in
/// milliseconds) rebuild connections rather than probe them.
pub const LONG_BACKGROUND_RECONNECT_THRESHOLD_MS: u64 = 30_000;

/// Whether the platform currently has a usable network path.
#[derive(Debug, Clone, Copy, PartialEq, Eq, Structural, Hash)]
pub enum NetworkAvailability {
    Unknown,
    Available,
    Unavailable,
}

/// Active network transport flags. Several can be true at once.
#[derive(Debug, Clone, Copy, PartialEq, Eq, Structural, Hash, Default)]
pub struct NetworkTransportFlags {
    pub wifi: bool,
    pub cellular: bool,
    pub ethernet: bool,
    pub vpn: bool,
    pub other: bool,
}

/// A mobile network path snapshot.
#[derive(Debug, Clone, Copy, PartialEq, Eq, Structural, Hash)]
pub struct NetworkSnapshot {
    pub sequence: u64,
    pub availability: NetworkAvailability,
    pub transport: NetworkTransportFlags,
    pub is_expensive: bool,
    pub is_constrained: bool,
}

impl NetworkSnapshot {
    /// The path is unavailable.
    pub fn is_offline(&self) -> (b: bool)
        ensures
            b == (self.availability == NetworkAvailability::Unavailable),
    {
        match self.availability {
            NetworkAvailability::Unavailable => true,
            _ => false,
        }
    }

    /// The path is available, so connections should be restored.
    pub fn should_restore(&self) -> (b: bool)
        ensures
            b == (self.availability == NetworkAvailability::Available),
    {
        match self.availability {
            NetworkAvailability::Available => true,
            _ => false,
        }
    }
}

/// App lifecycle state relevant to connection recovery.
#[derive(Debug, Clone, Copy, PartialEq, Eq, Structural, Hash)]
pub enum AppLifecycleState {
    Background,
    Foreground { background_duration_ms: u64 },
}

/// Reason for a cleanup-only operation.
#[derive(Debug, Clone, Copy, PartialEq, Eq, Structural, Hash)]
pub enum CleanupReason {
    AppTerminating,
    UserLogout,
    StaleConnectionSuspected,
    ManualReset,
}

/// Reason for a forced cleanup and restore.
#[derive(Debug, Clone, Copy, PartialEq, Eq, Structural, Hash)]
pub enum ReconnectReason {
    NetworkPathChanged,
    LongBackground,
    ProbeFailed,
    ManualReconnect,
    StaleConnectionSuspected,
}

/// A platform network or app event.
#[derive(Debug, Clone, Copy, PartialEq, Eq, Structural, Hash)]
pub enum NetworkEvent {
    /// The full mobile network path changed.
    NetworkPathChanged { snapshot: NetworkSnapshot },
    /// The app lifecycle changed.
    AppLifecycleChanged { state: AppLifecycleState },
    /// Tear every connection down without reconnecting (logout, termination,
    /// manual reset). Entering the background is not a cleanup.
    CleanupConnections { reason: CleanupReason },
    /// Tear connections down and restore them.
    ForceReconnect { reason: ReconnectReason },
}

/// The action selected from one network-event decision cycle.
#[derive(Debug, Clone, Copy, PartialEq, Eq, Structural, Hash)]
pub enum NetworkRecoveryAction {
    Noop,
    Offline,
    Probe,
    Restore,
    CleanupOnly,
    ForceReconnect,
}

/// The event changes connections, so outbound sends wait behind the
/// lifecycle barrier while it is processed: a path that became offline or
/// available, a foreground return after a long background, and every explicit
/// cleanup or reconnect.
pub open spec fn needs_lifecycle_barrier(event: NetworkEvent) -> bool {
    match event {
        NetworkEvent::NetworkPathChanged { snapshot } => snapshot.availability
            != NetworkAvailability::Unknown,
        NetworkEvent::AppLifecycleChanged { state } => match state {
            AppLifecycleState::Background => false,
            AppLifecycleState::Foreground { background_duration_ms } => background_duration_ms
                >= LONG_BACKGROUND_RECONNECT_THRESHOLD_MS,
        },
        NetworkEvent::CleanupConnections { .. } | NetworkEvent::ForceReconnect { .. } => true,
    }
}

/// Whether the event must be processed behind the lifecycle barrier.
pub fn network_event_needs_lifecycle_barrier(event: &NetworkEvent) -> (b: bool)
    ensures
        b == needs_lifecycle_barrier(*event),
{
    match event {
        NetworkEvent::NetworkPathChanged { snapshot } => snapshot.is_offline()
            || snapshot.should_restore(),
        NetworkEvent::AppLifecycleChanged { state } => match state {
            AppLifecycleState::Background => false,
            AppLifecycleState::Foreground { background_duration_ms } => *background_duration_ms
                >= LONG_BACKGROUND_RECONNECT_THRESHOLD_MS,
        },
        NetworkEvent::CleanupConnections { .. } | NetworkEvent::ForceReconnect { .. } => true,
    }
}

/// A transport-layer error, as the signaling and WebRTC layers report it.
#[derive(Debug, Clone, PartialEq, Eq)]
pub enum NetworkError {
    TimeoutError(String),
    ResourceExhaustedError(String),
    AuthenticationError(String),
    CredentialExpired(String),
    PermissionError(String),
    ProtocolError(String),
    ConfigurationError(String),
    ServiceDiscoveryError(String),
    NotImplemented(String),
    NoRoute(String),
    InvalidOperation(String),
    InvalidArgument(String),
    UrlParseError(String),
    SerializationError(String),
    DeserializationError(String),
    BroadcastError(String),
    JsonError(String),
    Other(String),
    ConnectionError(String),
    SignalingError(String),
    WebRtcError(String),
    NetworkUnreachableError(String),
    NatTraversalError(String),
    DataChannelError(String),
    DataChannelClosed(String),
    DataChannelNotOpen(String),
    IceError(String),
    DtlsError(String),
    StunTurnError(String),
    WebSocketError(String),
    WebSocketClosed(String),
    ConnectionNotFound(String),
    ConnectionClosed(String),
    PeerConnectionClosed(String),
    ChannelClosed(String),
    SendError(String),
    ChannelNotFound(String),
    IoError(String),
}

/// The class of recovery failure a transport error stands for.
#[derive(Debug, Clone, Copy, PartialEq, Eq, Structural, Hash)]
pub enum RecoveryErrorClass {
    PathUnreachable,
    Timeout,
    ResourceExhausted,
    AuthRejected,
    ConfigRejected,
    InvariantViolation,
}

/// The human-readable prefix of a transport error's message.
pub open spec fn error_prefix(e: NetworkError) -> Seq<char> {
    match e {
        NetworkError::TimeoutError(_) => "Timeout error: "@,
        NetworkError::ResourceExhaustedError(_) => "Resource exhausted: "@,
        NetworkError::AuthenticationError(_) => "Authentication error: "@,
        NetworkError::CredentialExpired(_) => "Credential expired: "@,
        NetworkError::PermissionError(_) => "Permission error: "@,
        NetworkError::ProtocolError(_) => "Protocol error: "@,
        NetworkError::ConfigurationError(_) => "Configuration error: "@,
        NetworkError::ServiceDiscoveryError(_) => "Service discovery error: "@,
        NetworkError::NotImplemented(_) => "Not implemented: "@,
        NetworkError::NoRoute(_) => "No route: "@,
        NetworkError::InvalidOperation(_) => "Invalid operation: "@,
        NetworkError::InvalidArgument(_) => "Invalid argument: "@,
        NetworkError::UrlParseError(_) => "URL parse error: "@,
        NetworkError::SerializationError(_) => "Serialization error: "@,
        NetworkError::DeserializationError(_) => "Deserialization error: "@,
        NetworkError::BroadcastError(_) => "Broadcast error: "@,
        NetworkError::JsonError(_) => "JSON error: "@,
        NetworkError::Other(_) => "Other error: "@,
        NetworkError::ConnectionError(_) => "Connection error: "@,
        NetworkError::SignalingError(_) => "Signaling error: "@,
        NetworkError::WebRtcError(_) => "WebRTC error: "@,
        NetworkError::NetworkUnreachableError(_) => "Network unreachable: "@,
        NetworkError::NatTraversalError(_) => "NAT traversal error: "@,
        NetworkError::DataChannelError(_) => "Data channel error: "@,
        NetworkError::DataChannelClosed(_) => "Data channel closed: "@,
        NetworkError::DataChannelNotOpen(_) => "Data channel not open: "@,
        NetworkError::IceError(_) => "ICE error: "@,
        NetworkError::DtlsError(_) => "DTLS error: "@,
        NetworkError::StunTurnError(_) => "STUN/TURN error: "@,
        NetworkError::WebSocketError(_) => "WebSocket error: "@,
        NetworkError::WebSocketClosed(_) => "WebSocket closed: "@,
        NetworkError::ConnectionNotFound(_) => "Connection not found: "@,
        NetworkError::ConnectionClosed(_) => "Connection closed: "@,
        NetworkError::PeerConnectionClosed(_) => "Peer connection closed: "@,
        NetworkError::ChannelClosed(_) => "Channel closed: "@,
        NetworkError::SendError(_) => "Send error: "@,
        NetworkError::ChannelNotFound(_) => "Channel not found: "@,
        NetworkError::IoError(_) => "IO error: "@,
    }
}

/// The detail a transport error carries.
pub open spec fn error_payload(e: NetworkError) -> Seq<char> {
    match e {
        NetworkError::TimeoutError(p) => p@,
        NetworkError::ResourceExhaustedError(p) => p@,
        NetworkError::AuthenticationError(p) => p@,
        NetworkError::CredentialExpired(p) => p@,
        NetworkError::PermissionError(p) => p@,
        NetworkError::ProtocolError(p) => p@,
        NetworkError::ConfigurationError(p) => p@,
        NetworkError::ServiceDiscoveryError(p) => p@,
        NetworkError::NotImplemented(p) => p@,
        NetworkError::NoRoute(p) => p@,
        NetworkError::InvalidOperation(p) => p@,
        NetworkError::InvalidArgument(p) => p@,
        NetworkError::UrlParseError(p) => p@,
        NetworkError::SerializationError(p) => p@,
        NetworkError::DeserializationError(p) => p@,
        NetworkError::BroadcastError(p) => p@,
        NetworkError::JsonError(p) => p@,
        NetworkError::Other(p) => p@,
        NetworkError::ConnectionError(p) => p@,
        NetworkError::SignalingError(p) => p@,
        NetworkError::WebRtcError(p) => p@,
        NetworkError::NetworkUnreachableError(p) => p@,
        NetworkError::NatTraversalError(p) => p@,
        NetworkError::DataChannelError(p) => p@,
        NetworkError::DataChannelClosed(p) => p@,
        NetworkError::DataChannelNotOpen(p) => p@,
        NetworkError::IceError(p) => p@,
        NetworkError::DtlsError(p) => p@,
        NetworkError::StunTurnError(p) => p@,
        NetworkError::WebSocketError(p) => p@,
        NetworkError::WebSocketClosed(p) => p@,
        NetworkError::ConnectionNotFound(p) => p@,
        NetworkError::ConnectionClosed(p) => p@,
        NetworkError::PeerConnectionClosed(p) => p@,
        NetworkError::ChannelClosed(p) => p@,
        NetworkError::SendError(p) => p@,
        NetworkError::ChannelNotFound(p) => p@,
        NetworkError::IoError(p) => p@,
    }
}

/// The message of a transport error: its prefix, then its detail.
pub open spec fn error_text(e: NetworkError) -> Seq<char> {
    error_prefix(e) + error_payload(e)
}

/// The recovery class of a transport error: timeouts and exhausted resources
/// keep their class; authentication, credential and permission errors are
/// auth rejections; protocol, configuration, discovery, routing and argument
/// errors are configuration rejections; encoding and unclassified errors are
/// invariant violations; every connection-level error is an unreachable path.
pub open spec fn error_class(e: NetworkError) -> RecoveryErrorClass {
    match e {
        NetworkError::TimeoutError(_) => RecoveryErrorClass::Timeout,
        NetworkError::ResourceExhaustedError(_) => RecoveryErrorClass::ResourceExhausted,
        NetworkError::AuthenticationError(_) => RecoveryErrorClass::AuthRejected,
        NetworkError::CredentialExpired(_) => RecoveryErrorClass::AuthRejected,
        NetworkError::PermissionError(_) => RecoveryErrorClass::AuthRejected,
        NetworkError::ProtocolError(_) => RecoveryErrorClass::ConfigRejected,
        NetworkError::ConfigurationError(_) => RecoveryErrorClass::ConfigRejected,
        NetworkError::ServiceDiscoveryError(_) => RecoveryErrorClass::ConfigRejected,
        NetworkError::NotImplemented(_) => RecoveryErrorClass::ConfigRejected,
        NetworkError::NoRoute(_) => RecoveryErrorClass::ConfigRejected,
        NetworkError::InvalidOperation(_) => RecoveryErrorClass::ConfigRejected,
        NetworkError::InvalidArgument(_) => RecoveryErrorClass::ConfigRejected,
        NetworkError::UrlParseError(_) => RecoveryErrorClass::ConfigRejected,
        NetworkError::SerializationError(_) => RecoveryErrorClass::InvariantViolation,
        NetworkError::DeserializationError(_) => RecoveryErrorClass::InvariantViolation,
        NetworkError::BroadcastError(_) => RecoveryErrorClass::InvariantViolation,
        NetworkError::JsonError(_) => RecoveryErrorClass::InvariantViolation,
        NetworkError::Other(_) => RecoveryErrorClass::InvariantViolation,
        NetworkError::ConnectionError(_) => RecoveryErrorClass::PathUnreachable,
        NetworkError::SignalingError(_) => RecoveryErrorClass::PathUnreachable,
        NetworkError::WebRtcError(_) => RecoveryErrorClass::PathUnreachable,
        NetworkError::NetworkUnreachableError(_) => RecoveryErrorClass::PathUnreachable,
        NetworkError::NatTraversalError(_) => RecoveryErrorClass::PathUnreachable,
        NetworkError::DataChannelError(_) => RecoveryErrorClass::PathUnreachable,
        NetworkError::DataChannelClosed(_) => RecoveryErrorClass::PathUnreachable,
        NetworkError::DataChannelNotOpen(_) => RecoveryErrorClass::PathUnreachable,
        NetworkError::IceError(_) => RecoveryErrorClass::PathUnreachable,
        NetworkError::DtlsError(_) => RecoveryErrorClass::PathUnreachable,
        NetworkError::StunTurnError(_) => RecoveryErrorClass::PathUnreachable,
        NetworkError::WebSocketError(_) => RecoveryErrorClass::PathUnreachable,
        NetworkError::WebSocketClosed(_) => RecoveryErrorClass::PathUnreachable,
        NetworkError::ConnectionNotFound(_) => RecoveryErrorClass::PathUnreachable,
        NetworkError::ConnectionClosed(_) => RecoveryErrorClass::PathUnreachable,
        NetworkError::PeerConnectionClosed(_) => RecoveryErrorClass::PathUnreachable,
        NetworkError::ChannelClosed(_) => RecoveryErrorClass::PathUnreachable,
        NetworkError::SendError(_) => RecoveryErrorClass::PathUnreachable,
        NetworkError::ChannelNotFound(_) => RecoveryErrorClass::PathUnreachable,
        NetworkError::IoError(_) => RecoveryErrorClass::PathUnreachable,
    }
}

impl NetworkError {
    /// The human-readable prefix of this error's message.
    pub fn prefix(&self) -> (p: &'static str)
        ensures
            p@ == error_prefix(*self),
    {
        match self {
            NetworkError::TimeoutError(_) => "Timeout error: ",
            NetworkError::ResourceExhaustedError(_) => "Resource exhausted: ",
            NetworkError::AuthenticationError(_) => "Authentication error: ",
            NetworkError::CredentialExpired(_) => "Credential expired: ",
            NetworkError::PermissionError(_) => "Permission error: ",
            NetworkError::ProtocolError(_) => "Protocol error: ",
            NetworkError::ConfigurationError(_) => "Configuration error: ",
            NetworkError::ServiceDiscoveryError(_) => "Service discovery error: ",
            NetworkError::NotImplemented(_) => "Not implemented: ",
            NetworkError::NoRoute(_) => "No route: ",
            NetworkError::InvalidOperation(_) => "Invalid operation: ",
            NetworkError::InvalidArgument(_) => "Invalid argument: ",
            NetworkError::UrlParseError(_) => "URL parse error: ",
            NetworkError::SerializationError(_) => "Serialization error: ",
            NetworkError::DeserializationError(_) => "Deserialization error: ",
            NetworkError::BroadcastError(_) => "Broadcast error: ",
            NetworkError::JsonError(_) => "JSON error: ",
            NetworkError::Other(_) => "Other error: ",
            NetworkError::ConnectionError(_) => "Connection error: ",
            NetworkError::SignalingError(_) => "Signaling error: ",
            NetworkError::WebRtcError(_) => "WebRTC error: ",
            NetworkError::NetworkUnreachableError(_) => "Network unreachable: ",
            NetworkError::NatTraversalError(_) => "NAT traversal error: ",
            NetworkError::DataChannelError(_) => "Data channel error: ",
            NetworkError::DataChannelClosed(_) => "Data channel closed: ",
            NetworkError::DataChannelNotOpen(_) => "Data channel not open: ",
            NetworkError::IceError(_) => "ICE error: ",
            NetworkError::DtlsError(_) => "DTLS error: ",
            NetworkError::StunTurnError(_) => "STUN/TURN error: ",
            NetworkError::WebSocketError(_) => "WebSocket error: ",
            NetworkError::WebSocketClosed(_) => "WebSocket closed: ",
            NetworkError::ConnectionNotFound(_) => "Connection not found: ",
            NetworkError::ConnectionClosed(_) => "Connection closed: ",
            NetworkError::PeerConnectionClosed(_) => "Peer connection closed: ",
            NetworkError::ChannelClosed(_) => "Channel closed: ",
            NetworkError::SendError(_) => "Send error: ",
            NetworkError::ChannelNotFound(_) => "Channel not found: ",
            NetworkError::IoError(_) => "IO error: ",
        }
    }

    /// The detail this error carries.
    pub fn payload(&self) -> (p: &str)
        ensures
            p@ == error_payload(*self),
    {
        match self {
            NetworkError::TimeoutError(p) => p.as_str(),
            NetworkError::ResourceExhaustedError(p) => p.as_str(),
            NetworkError::AuthenticationError(p) => p.as_str(),
            NetworkError::CredentialExpired(p) => p.as_str(),
            NetworkError::PermissionError(p) => p.as_str(),
            NetworkError::ProtocolError(p) => p.as_str(),
            NetworkError::ConfigurationError(p) => p.as_str(),
            NetworkError::ServiceDiscoveryError(p) => p.as_str(),
            NetworkError::NotImplemented(p) => p.as_str(),
            NetworkError::NoRoute(p) => p.as_str(),
            NetworkError::InvalidOperation(p) => p.as_str(),
            NetworkError::InvalidArgument(p) => p.as_str(),
            NetworkError::UrlParseError(p) => p.as_str(),
            NetworkError::SerializationError(p) => p.as_str(),
            NetworkError::DeserializationError(p) => p.as_str(),
            NetworkError::BroadcastError(p) => p.as_str(),
            NetworkError::JsonError(p) => p.as_str(),
            NetworkError::Other(p) => p.as_str(),
            NetworkError::ConnectionError(p) => p.as_str(),
            NetworkError::SignalingError(p) => p.as_str(),
            NetworkError::WebRtcError(p) => p.as_str(),
            NetworkError::NetworkUnreachableError(p) => p.as_str(),
            NetworkError::NatTraversalError(p) => p.as_str(),
            NetworkError::DataChannelError(p) => p.as_str(),
            NetworkError::DataChannelClosed(p) => p.as_str(),
            NetworkError::DataChannelNotOpen(p) => p.as_str(),
            NetworkError::IceError(p) => p.as_str(),
            NetworkError::DtlsError(p) => p.as_str(),
            NetworkError::StunTurnError(p) => p.as_str(),
            NetworkError::WebSocketError(p) => p.as_str(),
            NetworkError::WebSocketClosed(p) => p.as_str(),
            NetworkError::ConnectionNotFound(p) => p.as_str(),
            NetworkError::ConnectionClosed(p) => p.as_str(),
            NetworkError::PeerConnectionClosed(p) => p.as_str(),
            NetworkError::ChannelClosed(p) => p.as_str(),
            NetworkError::SendError(p) => p.as_str(),
            NetworkError::ChannelNotFound(p) => p.as_str(),
            NetworkError::IoError(p) => p.as_str(),
        }
    }

    /// The message of this error.
    pub fn message(&self) -> (m: String)
        ensures
            m@ == error_text(*self),
    {
        let mut m = String::from_str(self.prefix());
        m.append(self.payload());
        m
    }

    /// The recovery class of this error.
    pub fn class(&self) -> (c: RecoveryErrorClass)
        ensures
            c == error_class(*self),
    {
        match self {
            NetworkError::TimeoutError(_) => RecoveryErrorClass::Timeout,
            NetworkError::ResourceExhaustedError(_) => RecoveryErrorClass::ResourceExhausted,
            NetworkError::AuthenticationError(_) => RecoveryErrorClass::AuthRejected,
            NetworkError::CredentialExpired(_) => RecoveryErrorClass::AuthRejected,
            NetworkError::PermissionError(_) => RecoveryErrorClass::AuthRejected,
            NetworkError::ProtocolError(_) => RecoveryErrorClass::ConfigRejected,
            NetworkError::ConfigurationError(_) => RecoveryErrorClass::ConfigRejected,
            NetworkError::ServiceDiscoveryError(_) => RecoveryErrorClass::ConfigRejected,
            NetworkError::NotImplemented(_) => RecoveryErrorClass::ConfigRejected,
            NetworkError::NoRoute(_) => RecoveryErrorClass::ConfigRejected,
            NetworkError::InvalidOperation(_) => RecoveryErrorClass::ConfigRejected,
            NetworkError::InvalidArgument(_) => RecoveryErrorClass::ConfigRejected,
            NetworkError::UrlParseError(_) => RecoveryErrorClass::ConfigRejected,
            NetworkError::SerializationError(_) => RecoveryErrorClass::InvariantViolation,
            NetworkError::DeserializationError(_) => RecoveryErrorClass::InvariantViolation,
            NetworkError::BroadcastError(_) => RecoveryErrorClass::InvariantViolation,
            NetworkError::JsonError(_) => RecoveryErrorClass::InvariantViolation,
            NetworkError::Other(_) => RecoveryErrorClass::InvariantViolation,
            NetworkError::ConnectionError(_) => RecoveryErrorClass::PathUnreachable,
            NetworkError::SignalingError(_) => RecoveryErrorClass::PathUnreachable,
            NetworkError::WebRtcError(_) => RecoveryErrorClass::PathUnreachable,
            NetworkError::NetworkUnreachableError(_) => RecoveryErrorClass::PathUnreachable,
            NetworkError::NatTraversalError(_) => RecoveryErrorClass::PathUnreachable,
            NetworkError::DataChannelError(_) => RecoveryErrorClass::PathUnreachable,
            NetworkError::DataChannelClosed(_) => RecoveryErrorClass::PathUnreachable,
            NetworkError::DataChannelNotOpen(_) => RecoveryErrorClass::PathUnreachable,
            NetworkError::IceError(_) => RecoveryErrorClass::PathUnreachable,
            NetworkError::DtlsError(_) => RecoveryErrorClass::PathUnreachable,
            NetworkError::StunTurnError(_) => RecoveryErrorClass::PathUnreachable,
            NetworkError::WebSocketError(_) => RecoveryErrorClass::PathUnreachable,
            NetworkError::WebSocketClosed(_) => RecoveryErrorClass::PathUnreachable,
            NetworkError::ConnectionNotFound(_) => RecoveryErrorClass::PathUnreachable,
            NetworkError::ConnectionClosed(_) => RecoveryErrorClass::PathUnreachable,
            NetworkError::PeerConnectionClosed(_) => RecoveryErrorClass::PathUnreachable,
            NetworkError::ChannelClosed(_) => RecoveryErrorClass::PathUnreachable,
            NetworkError::SendError(_) => RecoveryErrorClass::PathUnreachable,
            NetworkError::ChannelNotFound(_) => RecoveryErrorClass::PathUnreachable,
            NetworkError::IoError(_) => RecoveryErrorClass::PathUnreachable,
        }
    }
}

/// A typed failure reported by a network recovery effect.
///
/// Deliberately smaller than [`NetworkError`]: an effect reports only what the
/// recovery policy can classify without inspecting an opaque message. Generic
/// transport failures stay availability-family `PathUnreachable` unless the
/// effect verified a stronger fact.
#[derive(Debug, Clone, PartialEq, Eq)]
pub enum NetworkRecoveryError {
    PathUnreachable { stage: String },
    Timeout { stage: String },
    ResourceExhausted { resource: String },
    AuthRejected { kind: String },
    ConfigRejected { detail: String },
    InvariantViolation { detail: String },
}

/// The class of a recovery error.
pub open spec fn recovery_error_class(e: NetworkRecoveryError) -> RecoveryErrorClass {
    match e {
        NetworkRecoveryError::PathUnreachable { .. } => RecoveryErrorClass::PathUnreachable,
        NetworkRecoveryError::Timeout { .. } => RecoveryErrorClass::Timeout,
        NetworkRecoveryError::ResourceExhausted { .. } => RecoveryErrorClass::ResourceExhausted,
        NetworkRecoveryError::AuthRejected { .. } => RecoveryErrorClass::AuthRejected,
        NetworkRecoveryError::ConfigRejected { .. } => RecoveryErrorClass::ConfigRejected,
        NetworkRecoveryError::InvariantViolation { .. } => RecoveryErrorClass::InvariantViolation,
    }
}

/// The detail a recovery error carries.
pub open spec fn recovery_error_detail(e: NetworkRecoveryError) -> Seq<char> {
    match e {
        NetworkRecoveryError::PathUnreachable { stage } => stage@,
        NetworkRecoveryError::Timeout { stage } => stage@,
        NetworkRecoveryError::ResourceExhausted { resource } => resource@,
        NetworkRecoveryError::AuthRejected { kind } => kind@,
        NetworkRecoveryError::ConfigRejected { detail } => detail@,
        NetworkRecoveryError::InvariantViolation { detail } => detail@,
    }
}

/// The message prefix of a recovery error class.
pub open spec fn class_prefix(c: RecoveryErrorClass) -> Seq<char> {
    match c {
        RecoveryErrorClass::PathUnreachable => "path unreachable: "@,
        RecoveryErrorClass::Timeout => "operation timed out: "@,
        RecoveryErrorClass::ResourceExhausted => "resource exhausted: "@,
        RecoveryErrorClass::AuthRejected => "authentication rejected: "@,
        RecoveryErrorClass::ConfigRejected => "configuration rejected: "@,
        RecoveryErrorClass::InvariantViolation => "recovery invariant violated: "@,
    }
}

/// The effect diagnosis of a recovery error class with the given detail.
pub open spec fn diagnosis_of_class(c: RecoveryErrorClass, detail: String) -> EffectDiagnosis {
    match c {
        RecoveryErrorClass::PathUnreachable => EffectDiagnosis::PathUnreachable { stage: detail },
        RecoveryErrorClass::Timeout => EffectDiagnosis::Timeout { stage: detail },
        RecoveryErrorClass::ResourceExhausted => EffectDiagnosis::ResourceExhausted {
            resource: detail,
        },
        RecoveryErrorClass::AuthRejected => EffectDiagnosis::AuthRejected { kind: detail },
        RecoveryErrorClass::ConfigRejected => EffectDiagnosis::ConfigRejected { detail },
        RecoveryErrorClass::InvariantViolation => EffectDiagnosis::InvariantViolation { detail },
    }
}

impl NetworkRecoveryError {
    fn of_class(c: RecoveryErrorClass, detail: String) -> (e: NetworkRecoveryError)
        ensures
            recovery_error_class(e) == c,
            recovery_error_detail(e) == detail@,
    {
        match c {
            RecoveryErrorClass::PathUnreachable => NetworkRecoveryError::PathUnreachable {
                stage: detail,
            },
            RecoveryErrorClass::Timeout => NetworkRecoveryError::Timeout { stage: detail },
            RecoveryErrorClass::ResourceExhausted => NetworkRecoveryError::ResourceExhausted {
                resource: detail,
            },
            RecoveryErrorClass::AuthRejected => NetworkRecoveryError::AuthRejected { kind: detail },
            RecoveryErrorClass::ConfigRejected => NetworkRecoveryError::ConfigRejected { detail },
            RecoveryErrorClass::InvariantViolation => NetworkRecoveryError::InvariantViolation {
                detail,
            },
        }
    }

    /// An unclassified failure at `stage`: an unreachable path whose detail is
    /// the stage, a colon and the opaque detail.
    pub fn from_opaque(stage: &str, detail: &str) -> (e: NetworkRecoveryError)
        ensures
            recovery_error_class(e) == RecoveryErrorClass::PathUnreachable,
            recovery_error_detail(e) == stage@ + ": "@ + detail@,
    {
        let mut text = String::from_str(stage);
        text.append(": ");
        text.append(detail);
        NetworkRecoveryError::PathUnreachable { stage: text }
    }

    /// Classify a transport error at `stage`: the class follows
    /// [`error_class`], and the detail is the stage, a colon and the error's
    /// message.
    pub fn from_network_error(stage: &str, error: NetworkError) -> (e: NetworkRecoveryError)
        ensures
            recovery_error_class(e) == error_class(error),
            recovery_error_detail(e) == stage@ + ": "@ + error_text(error),
    {
        let mut text = String::from_str(stage);
        text.append(": ");
        let message = error.message();
        text.append(message.as_str());
        NetworkRecoveryError::of_class(error.class(), text)
    }

    /// The effect diagnosis this error reports: the same class and detail.
    pub fn into_diagnosis(self) -> (d: EffectDiagnosis)
        ensures
            d == match self {
                NetworkRecoveryError::PathUnreachable { stage } => EffectDiagnosis::PathUnreachable {
                    stage,
                },
                NetworkRecoveryError::Timeout { stage } => EffectDiagnosis::Timeout { stage },
                NetworkRecoveryError::ResourceExhausted { resource } =>
                    EffectDiagnosis::ResourceExhausted { resource },
                NetworkRecoveryError::AuthRejected { kind } => EffectDiagnosis::AuthRejected {
                    kind,
                },
                NetworkRecoveryError::ConfigRejected { detail } => EffectDiagnosis::ConfigRejected {
                    detail,
                },
                NetworkRecoveryError::InvariantViolation { detail } =>
                    EffectDiagnosis::InvariantViolation { detail },
            },
    {
        match self {
            NetworkRecoveryError::PathUnreachable { stage } => EffectDiagnosis::PathUnreachable {
                stage,
            },
            NetworkRecoveryError::Timeout { stage } => EffectDiagnosis::Timeout { stage },
            NetworkRecoveryError::ResourceExhausted { resource } =>
                EffectDiagnosis::ResourceExhausted { resource },
            NetworkRecoveryError::AuthRejected { kind } => EffectDiagnosis::AuthRejected { kind },
            NetworkRecoveryError::ConfigRejected { detail } => EffectDiagnosis::ConfigRejected {
                detail,
            },
            NetworkRecoveryError::InvariantViolation { detail } =>
                EffectDiagnosis::InvariantViolation { detail },
        }
    }

    /// The class of this error.
    pub fn class(&self) -> (c: RecoveryErrorClass)
        ensures
            c == recovery_error_class(*self),
    {
        match self {
            NetworkRecoveryError::PathUnreachable { .. } => RecoveryErrorClass::PathUnreachable,
            NetworkRecoveryError::Timeout { .. } => RecoveryErrorClass::Timeout,
            NetworkRecoveryError::ResourceExhausted { .. } => RecoveryErrorClass::ResourceExhausted,
            NetworkRecoveryError::AuthRejected { .. } => RecoveryErrorClass::AuthRejected,
            NetworkRecoveryError::ConfigRejected { .. } => RecoveryErrorClass::ConfigRejected,
            NetworkRecoveryError::InvariantViolation { .. } => RecoveryErrorClass::InvariantViolation,
        }
    }

    /// The human-readable message: the class prefix, then the detail.
    pub fn message(&self) -> (m: String)
        ensures
            m@ == class_prefix(recovery_error_class(*self)) + recovery_error_detail(*self),
    {
        let (prefix, detail) = match self {
            NetworkRecoveryError::PathUnreachable { stage } => ("path unreachable: ", stage),
            NetworkRecoveryError::Timeout { stage } => ("operation timed out: ", stage),
            NetworkRecoveryError::ResourceExhausted { resource } => (
                "resource exhausted: ",
                resource,
            ),
            NetworkRecoveryError::AuthRejected { kind } => ("authentication rejected: ", kind),
            NetworkRecoveryError::ConfigRejected { detail } => ("configuration rejected: ", detail),
            NetworkRecoveryError::InvariantViolation { detail } => (
                "recovery invariant violated: ",
                detail,
            ),
        };
        let mut m = String::from_str(prefix);
        m.append(detail.as_str());
        m
    }
}

// ---------------------------------------------------------------------------
// Bounded teardown reports
// ---------------------------------------------------------------------------

/// The structured result of a bounded teardown effect (cleanup or confirmed
/// offline disconnect). A teardown reports whether its logical goal was
/// reached, whether its overall deadline aborted remaining steps, and one
/// residual per best-effort step that left an error behind.
#[derive(Debug, Clone, PartialEq, Eq)]
pub struct TeardownReport {
    pub reached_goal: bool,
    pub deadline_reached: bool,
    pub residuals: Vec<String>,
}

impl TeardownReport {
    /// The teardown met its full contract with no residuals.
    pub fn succeeded() -> (r: TeardownReport)
        ensures
            r.reached_goal,
            !r.deadline_reached,
            r.residuals@.len() == 0,
    {
        TeardownReport { reached_goal: true, deadline_reached: false, residuals: Vec::new() }
    }

    /// The teardown reached its goal but left the given residuals.
    pub fn completed_with_residuals(residuals: Vec<String>) -> (r: TeardownReport)
        ensures
            r.reached_goal,
            !r.deadline_reached,
            r.residuals == residuals,
    {
        TeardownReport { reached_goal: true, deadline_reached: false, residuals }
    }

    /// The overall deadline aborted remaining steps before the goal.
    pub fn abandoned(residuals: Vec<String>) -> (r: TeardownReport)
        ensures
            !r.reached_goal,
            r.deadline_reached,
            r.residuals == residuals,
    {
        TeardownReport { reached_goal: false, deadline_reached: true, residuals }
    }
}

/// `d` records each residual, in order, as an unreachable-path diagnosis of
/// that stage.
pub open spec fn records_residuals(d: Seq<EffectDiagnosis>, residuals: Seq<String>) -> bool {
    &&& d.len() == residuals.len()
    &&& forall|i: int|
        0 <= i < d.len() ==> (#[trigger] d[i] matches EffectDiagnosis::PathUnreachable { stage }
            && stage@ == residuals[i]@)
}

/// The completion a teardown report maps onto. Reaching the goal is
/// success-class: `Succeeded` without residuals, `CompletedWithResiduals`
/// with them. A deadline that aborted the teardown before its goal is
/// `Abandoned` (still success-class). Otherwise the teardown `Failed` with an
/// unreachable-path diagnosis naming its first residual, or a fixed stage
/// when it has none.
pub open spec fn teardown_outcome_spec(report: TeardownReport, o: EffectOutcome) -> bool {
    let rs = report.residuals@;
    if report.reached_goal {
        if rs.len() == 0 {
            o == EffectOutcome::Succeeded
        } else {
            o matches EffectOutcome::CompletedWithResiduals { residuals } && records_residuals(
                residuals@,
                rs,
            )
        }
    } else if report.deadline_reached {
        o matches EffectOutcome::Abandoned { residuals } && records_residuals(residuals@, rs)
    } else {
        o matches EffectOutcome::Failed { diagnosis } && (diagnosis matches EffectDiagnosis::PathUnreachable { stage }
            && stage@ == if rs.len() == 0 {
            "teardown did not reach its goal"@
        } else {
            rs[0]@
        })
    }
}

fn residual_diagnoses(residuals: &Vec<String>) -> (d: Vec<EffectDiagnosis>)
    ensures
        records_residuals(d@, residuals@),
{
    let mut d: Vec<EffectDiagnosis> = Vec::new();
    let mut i: usize = 0;
    while i < residuals.len()
        invariant
            i <= residuals@.len(),
            d@.len() == i,
            forall|j: int|
                0 <= j < i ==> (#[trigger] d@[j] matches EffectDiagnosis::PathUnreachable { stage }
                    && stage@ == residuals@[j]@),
        decreases residuals@.len() - i,
    {
        let stage = residuals[i].clone();
        d.push(EffectDiagnosis::PathUnreachable { stage });
        i = i + 1;
    }
    d
}

/// Map a bounded teardown report onto the effect-completion vocabulary.
pub fn teardown_outcome(report: TeardownReport) -> (o: EffectOutcome)
    ensures
        teardown_outcome_spec(report, o),
{
    let residuals = residual_diagnoses(&report.residuals);
    if report.reached_goal {
        if residuals.len() == 0 {
            EffectOutcome::Succeeded
        } else {
            EffectOutcome::CompletedWithResiduals { residuals }
        }
    } else if report.deadline_reached {
        EffectOutcome::Abandoned { residuals }
    } else {
        let stage = if report.residuals.len() == 0 {
            String::from_str("teardown did not reach its goal")
        } else {
            report.residuals[0].clone()
        };
        EffectOutcome::Failed { diagnosis: EffectDiagnosis::PathUnreachable { stage } }
    }
}

// ---------------------------------------------------------------------------
// Event results, status and resource-owner facts
// ---------------------------------------------------------------------------

/// The result of processing one network event.
#[derive(Debug, Clone, PartialEq, Eq)]
pub struct NetworkEventResult {
    pub event: NetworkEvent,
    pub success: bool,
    pub error: Option<String>,
    /// Processing duration in milliseconds.
    pub duration_ms: u64,
}

impl NetworkEventResult {
    /// A successful result.
    pub fn success(event: NetworkEvent, duration_ms: u64) -> (r: NetworkEventResult)
        ensures
            r.event == event,
            r.success,
            r.error is None,
            r.duration_ms == duration_ms,
    {
        NetworkEventResult { event, success: true, error: None, duration_ms }
    }

    /// A failed result carrying its error message.
    pub fn failure(event: NetworkEvent, error: String, duration_ms: u64) -> (r: NetworkEventResult)
        ensures
            r.event == event,
            !r.success,
            r.error == Some(error),
            r.duration_ms == duration_ms,
    {
        NetworkEventResult { event, success: false, error: Some(error), duration_ms }
    }
}

/// The results of a batch that ran one action: every event, in order, gets
/// that action's outcome and the batch's duration.
pub fn batch_results(events: Vec<NetworkEvent>, outcome: &Result<(), String>, duration_ms: u64) -> (r: Vec<NetworkEventResult>)
    ensures
        r@.len() == events@.len(),
        forall|i: int|
            0 <= i < r@.len() ==> {
                &&& (#[trigger] r@[i]).event == events@[i]
                &&& r@[i].duration_ms == duration_ms
                &&& r@[i].success == outcome is Ok
                &&& match outcome {
                    Ok(_) => r@[i].error is None,
                    Err(e) => r@[i].error matches Some(m) && m@ == e@,
                }
            },
{
    let mut r: Vec<NetworkEventResult> = Vec::new();
    let mut i: usize = 0;
    while i < events.len()
        invariant
            i <= events@.len(),
            r@.len() == i,
            forall|j: int|
                0 <= j < i ==> {
                    &&& (#[trigger] r@[j]).event == events@[j]
                    &&& r@[j].duration_ms == duration_ms
                    &&& r@[j].success == outcome is Ok
                    &&& match outcome {
                        Ok(_) => r@[j].error is None,
                        Err(e) => r@[j].error matches Some(m) && m@ == e@,
                    }
                },
        decreases events@.len() - i,
    {
        let event = events[i];
        let result = match outcome {
            Ok(()) => NetworkEventResult::success(event, duration_ms),
            Err(e) => NetworkEventResult::failure(event, e.clone(), duration_ms),
        };
        r.push(result);
        i = i + 1;
    }
    r
}

/// A legacy time-based debounce window for callers that invoke processor
/// methods directly; duplicate suppression belongs to the supervisor, so the
/// default window is zero.
#[derive(Debug, Clone, Copy, PartialEq, Eq, Structural)]
pub struct DebounceConfig {
    /// The window in nanoseconds.
    pub window: u64,
}

impl DebounceConfig {
    /// Whether an event of one kind arriving at `now` is processed, given
    /// when the last processed event of that kind arrived (all in
    /// nanoseconds, on a monotonic clock): always with a zero window or no
    /// earlier event, and otherwise only once the window has elapsed since
    /// it. A processed event becomes the new last one.
    pub fn admits(&self, last: Option<u64>, now: u64) -> (r: (bool, Option<u64>))
        ensures
            r.0 == (self.window == 0 || match last {
                Some(t) => now.saturating_sub(t) >= self.window,
                None => true,
            }),
            r.1 == if r.0 && self.window != 0 {
                Some(now)
            } else {
                last
            },
    {
        if self.window == 0 {
            return (true, last);
        }
        match last {
            Some(t) => {
                if now.saturating_sub(t) < self.window {
                    return (false, last);
                }
            },
            None => {},
        }
        (true, Some(now))
    }
}

impl Default for DebounceConfig {
    /// The default: no time-based debounce.
    fn default() -> (c: DebounceConfig)
        ensures
            c.window == 0,
    {
        DebounceConfig { window: 0 }
    }
}

/// The kinds of network event that are debounced separately.
#[derive(Debug, Clone, Copy, PartialEq, Eq, Structural, Hash)]
pub enum DebounceEvent {
    Available,
    Lost,
    TypeChanged,
}

/// When the last processed event of each kind arrived (nanoseconds on a
/// monotonic clock).
#[derive(Debug, Clone, Copy, PartialEq, Eq, Structural)]
pub struct DebounceState {
    pub last_available: Option<u64>,
    pub last_lost: Option<u64>,
    pub last_type_changed: Option<u64>,
}

/// When the last processed event of `event`'s kind arrived.
pub open spec fn last_of(s: DebounceState, event: DebounceEvent) -> Option<u64> {
    match event {
        DebounceEvent::Available => s.last_available,
        DebounceEvent::Lost => s.last_lost,
        DebounceEvent::TypeChanged => s.last_type_changed,
    }
}

/// `s` with the last arrival of `event`'s kind replaced.
pub open spec fn with_last(s: DebounceState, event: DebounceEvent, last: Option<u64>) -> DebounceState {
    match event {
        DebounceEvent::Available => DebounceState { last_available: last, ..s },
        DebounceEvent::Lost => DebounceState { last_lost: last, ..s },
        DebounceEvent::TypeChanged => DebounceState { last_type_changed: last, ..s },
    }
}

/// Whether an event arriving at `now` passes the debounce window, given the
/// last processed arrival of its kind.
pub open spec fn debounce_passes(config: DebounceConfig, last: Option<u64>, now: u64) -> bool {
    config.window == 0 || match last {
        Some(t) => now.saturating_sub(t) >= config.window,
        None => true,
    }
}

impl DebounceState {
    /// No event of any kind processed yet.
    pub fn new() -> (s: DebounceState)
        ensures
            s.last_available is None && s.last_lost is None && s.last_type_changed is None,
    {
        DebounceState { last_available: None, last_lost: None, last_type_changed: None }
    }

    /// Whether an event of kind `event` arriving at `now` is processed: with
    /// a zero window always, and nothing is recorded; otherwise only once the
    /// window has elapsed since the last processed event of the same kind,
    /// and a processed event becomes the last one of its kind. The other
    /// kinds are untouched.
    pub fn should_process(&mut self, config: &DebounceConfig, event: DebounceEvent, now: u64) -> (b: bool)
        ensures
            b == debounce_passes(*config, last_of(*old(self), event), now),
            *final(self) == if b && config.window != 0 {
                with_last(*old(self), event, Some(now))
            } else {
                *old(self)
            },
    {
        let last = match event {
            DebounceEvent::Available => self.last_available,
            DebounceEvent::Lost => self.last_lost,
            DebounceEvent::TypeChanged => self.last_type_changed,
        };
        let (pass, next) = config.admits(last, now);
        match event {
            DebounceEvent::Available => self.last_available = next,
            DebounceEvent::Lost => self.last_lost = next,
            DebounceEvent::TypeChanged => self.last_type_changed = next,
        }
        pass
    }
}

/// The observable class of the most recent effect completion.
#[derive(Debug, Clone, Copy, PartialEq, Eq, Structural, Hash)]
pub enum ObservedOutcome {
    Succeeded,
    CompletedWithResiduals,
    Abandoned,
    Failed,
    Cancelled,
    Aborted,
}

/// The observable class of an outcome.
pub open spec fn observed_spec(o: EffectOutcome) -> ObservedOutcome {
    match o {
        EffectOutcome::Succeeded => ObservedOutcome::Succeeded,
        EffectOutcome::CompletedWithResiduals { .. } => ObservedOutcome::CompletedWithResiduals,
        EffectOutcome::Abandoned { .. } => ObservedOutcome::Abandoned,
        EffectOutcome::Failed { .. } => ObservedOutcome::Failed,
        EffectOutcome::Cancelled => ObservedOutcome::Cancelled,
        EffectOutcome::Aborted { .. } => ObservedOutcome::Aborted,
    }
}

/// The observable class of an outcome.
pub fn observed_outcome(outcome: &EffectOutcome) -> (o: ObservedOutcome)
    ensures
        o == observed_spec(*outcome),
{
    match outcome {
        EffectOutcome::Succeeded => ObservedOutcome::Succeeded,
        EffectOutcome::CompletedWithResiduals { .. } => ObservedOutcome::CompletedWithResiduals,
        EffectOutcome::Abandoned { .. } => ObservedOutcome::Abandoned,
        EffectOutcome::Failed { .. } => ObservedOutcome::Failed,
        EffectOutcome::Cancelled => ObservedOutcome::Cancelled,
        EffectOutcome::Aborted { .. } => ObservedOutcome::Aborted,
    }
}

/// A minimal observation of supervisor progress: the causal policy revision,
/// the most recently started action, and the most recent effect outcome.
#[derive(Debug, Clone, Copy, PartialEq, Eq, Structural, Default)]
pub struct SupervisorStatus {
    pub policy_revision: u64,
    pub last_action_id: Option<u64>,
    pub last_outcome: Option<ObservedOutcome>,
}

/// The origin of a signaling-committed fact at the resource-owner boundary.
#[derive(Debug, Clone, Copy, PartialEq, Eq, Structural, Hash)]
pub enum SignalingFactOrigin {
    /// Produced by the running lifecycle effect.
    CurrentEffect { action_id: u64 },
    /// External news from the signaling resource owner.
    External,
}

/// Why a live signaling generation was lost. Diagnostic only.
#[derive(Debug, Clone, Copy, PartialEq, Eq, Structural, Hash)]
pub enum SignalingFactLostCause {
    Disconnected,
    Superseded,
    RemoteReset,
}

/// The supervisor input of a signaling-committed fact.
pub open spec fn committed_input(generation: u64, origin: SignalingFactOrigin) -> Input {
    Input::SignalingGenerationCommitted {
        generation,
        origin: match origin {
            SignalingFactOrigin::CurrentEffect { action_id } => SignalingOrigin::CurrentEffect {
                action_id,
            },
            SignalingFactOrigin::External => SignalingOrigin::External,
        },
    }
}

/// The supervisor input of a signaling-committed fact.
pub fn signaling_committed_input(generation: u64, origin: SignalingFactOrigin) -> (i: Input)
    ensures
        i == committed_input(generation, origin),
{
    Input::SignalingGenerationCommitted {
        generation,
        origin: match origin {
            SignalingFactOrigin::CurrentEffect { action_id } => SignalingOrigin::CurrentEffect {
                action_id,
            },
            SignalingFactOrigin::External => SignalingOrigin::External,
        },
    }
}

/// The supervisor input of a signaling-lost fact.
pub open spec fn lost_input(generation: u64, cause: SignalingFactLostCause) -> Input {
    Input::SignalingGenerationLost {
        generation,
        cause: match cause {
            SignalingFactLostCause::Disconnected => SignalingLostCause::Disconnected,
            SignalingFactLostCause::Superseded => SignalingLostCause::Superseded,
            SignalingFactLostCause::RemoteReset => SignalingLostCause::RemoteReset,
        },
    }
}

/// The supervisor input of a signaling-lost fact.
pub fn signaling_lost_input(generation: u64, cause: SignalingFactLostCause) -> (i: Input)
    ensures
        i == lost_input(generation, cause),
{
    Input::SignalingGenerationLost {
        generation,
        cause: match cause {
            SignalingFactLostCause::Disconnected => SignalingLostCause::Disconnected,
            SignalingFactLostCause::Superseded => SignalingLostCause::Superseded,
            SignalingFactLostCause::RemoteReset => SignalingLostCause::RemoteReset,
        },
    }
}

/// The supervisor input of a committed session generation.
pub fn session_activated_input(session_generation: u64) -> (i: Input)
    ensures
        i == (Input::SessionActivated { session_generation }),
{
    Input::SessionActivated { session_generation }
}

// ---------------------------------------------------------------------------
// Timer inventory and the compatibility selector
// ---------------------------------------------------------------------------

/// The audited definition of a recovery timer.
#[derive(Debug, Clone, Copy, PartialEq, Eq, Structural)]
pub struct TimerDefinition {
    pub id: TimerId,
    pub category: TimerCategory,
}

/// The normative category of a recovery timer: the offline candidate is
/// business hysteresis; the shutdown, teardown and bootstrap deadlines are
/// failure deadlines; backoffs are failure backoffs.
pub open spec fn timer_category_of(id: TimerId) -> TimerCategory {
    match id {
        TimerId::OfflineCandidate => TimerCategory::BusinessHysteresis,
        TimerId::ShutdownOverall | TimerId::TeardownOverall(_) | TimerId::BootstrapPhase =>
            TimerCategory::FailureDeadline,
        TimerId::FailureBackoff(_) => TimerCategory::FailureBackoff,
    }
}

/// The audited definition of a recovery timer.
pub fn recovery_timer_definition(id: TimerId) -> (t: TimerDefinition)
    ensures
        t.id == id,
        t.category == timer_category_of(id),
{
    let category = match id {
        TimerId::OfflineCandidate => TimerCategory::BusinessHysteresis,
        TimerId::ShutdownOverall | TimerId::TeardownOverall(_) | TimerId::BootstrapPhase =>
            TimerCategory::FailureDeadline,
        TimerId::FailureBackoff(_) => TimerCategory::FailureBackoff,
    };
    TimerDefinition { id, category }
}

/// Select one recovery action for a batch of events with the compatibility
/// selector, which has no timer owner: a pending offline grace expires at
/// once.
pub fn select_network_recovery_action(events: &[NetworkEvent]) -> (a: NetworkRecoveryAction)
    ensures
        a == crate::connection_supervisor::legacy_select_spec(events@),
{
    crate::connection_supervisor::legacy_select_action(events)
}

} // verus!
