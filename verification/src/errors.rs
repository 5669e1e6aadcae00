//! Classification of transport errors.
//!
//! Every error coming back from a transport operation is reduced by the host
//! to a [`TransportErrorKind`]; [`classify`] then decides whether the error
//! means the device is gone, means "no data right now", or is anything else.

use vstd::prelude::*;

verus! {

/// The kinds of error a transport operation can report, reduced to the
/// distinctions the session logic acts on.
#[derive(Clone, Copy, Debug, PartialEq, Eq, Structural)]
pub enum TransportErrorKind {
    /// The device is no longer present.
    NoDevice,
    BrokenPipe,
    ConnectionAborted,
    NotConnected,
    UnexpectedEof,
    /// Device removal can revoke access on some platforms, so this is
    /// treated as a disconnection.
    PermissionDenied,
    TimedOut,
    WouldBlock,
    /// Anything else: surfaced to the caller, but never tears a session down.
    Other,
}

/// What an error means for the session holding the transport.
#[derive(Clone, Copy, Debug, PartialEq, Eq, Structural)]
pub enum ErrorClass {
    /// The device is gone; the session must be torn down.
    Disconnection,
    /// Timeout or would-block: "no data right now", never an error state.
    Transient,
    /// A failed operation on a device that is still there.
    Other,
}

/// The classification rule: device-absent, broken-pipe, connection-aborted,
/// not-connected, unexpected-end-of-stream and permission-denied mean
/// disconnection; timeout and would-block are transient; all else is other.
pub open spec fn classify_spec(kind: TransportErrorKind) -> ErrorClass {
    match kind {
        TransportErrorKind::NoDevice => ErrorClass::Disconnection,
        TransportErrorKind::BrokenPipe => ErrorClass::Disconnection,
        TransportErrorKind::ConnectionAborted => ErrorClass::Disconnection,
        TransportErrorKind::NotConnected => ErrorClass::Disconnection,
        TransportErrorKind::UnexpectedEof => ErrorClass::Disconnection,
        TransportErrorKind::PermissionDenied => ErrorClass::Disconnection,
        TransportErrorKind::TimedOut => ErrorClass::Transient,
        TransportErrorKind::WouldBlock => ErrorClass::Transient,
        TransportErrorKind::Other => ErrorClass::Other,
    }
}

/// Classify a transport error.
#[verifier::when_used_as_spec(classify_spec)]
pub fn classify(kind: TransportErrorKind) -> (c: ErrorClass)
    ensures
        c == classify_spec(kind),
{
    match kind {
        TransportErrorKind::NoDevice => ErrorClass::Disconnection,
        TransportErrorKind::BrokenPipe => ErrorClass::Disconnection,
        TransportErrorKind::ConnectionAborted => ErrorClass::Disconnection,
        TransportErrorKind::NotConnected => ErrorClass::Disconnection,
        TransportErrorKind::UnexpectedEof => ErrorClass::Disconnection,
        TransportErrorKind::PermissionDenied => ErrorClass::Disconnection,
        TransportErrorKind::TimedOut => ErrorClass::Transient,
        TransportErrorKind::WouldBlock => ErrorClass::Transient,
        TransportErrorKind::Other => ErrorClass::Other,
    }
}

/// True exactly when the error tears a session down.
pub open spec fn is_disconnection(kind: TransportErrorKind) -> bool {
    classify_spec(kind) is Disconnection
}

} // verus!
