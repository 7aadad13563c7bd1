use vstd::prelude::*;

use crate::frame::FrameKind;

verus! {

/// The closed set of conditions the transport can report in place of a
/// delivery. Every condition the framed stream can surface maps to exactly
/// one variant, so the classification below is total by construction.
#[derive(Clone, Copy, Debug, PartialEq, Eq, Structural)]
pub enum TransportError {
    InvalidFragment,
    InvalidUtf8,
    InvalidContinuationFrame,
    InvalidStatusCode,
    InvalidUpgradeHeader,
    InvalidConnectionHeader,
    InvalidCloseFrame,
    InvalidCloseCode,
    ReservedBitsNotZero,
    ControlFrameFragmented,
    PingFrameTooLarge,
    FrameTooLarge,
    InvalidSecWebsocketVersion,
    InvalidValue,
    MissingSecWebSocketKey,
    HttpError,
    ConnectionClosed,
    UnexpectedEof,
    IoError,
}

/// How a transport condition is to be treated: abort the connection, or end
/// the run as if the peer had closed it.
#[derive(Clone, Copy, Debug, PartialEq, Eq, Structural)]
pub enum ErrorClass {
    Fatal,
    BenignClose,
}

/// A condition that aborts the connection with no boolean outcome.
#[derive(Clone, Copy, Debug, PartialEq, Eq, Structural)]
pub enum HandlerError {
    /// A frame of this kind arrived while the initial payload was still
    /// being assembled.
    UnexpectedSetupFrame(FrameKind),
    /// A steady-state binary payload had this width instead of `UPDATE_SIZE`.
    WrongLength(usize),
    /// The first byte of a steady-state binary payload was not a known
    /// command code.
    UnrecognizedCode(u8),
    /// A frame of this kind arrived in steady state, where only binary and
    /// close frames are allowed.
    UnexpectedFrame(FrameKind),
    /// The transport reported a condition classified as fatal.
    Transport(TransportError),
}

/// The class of each transport condition: end-of-stream conditions are
/// benign closes, everything else is a protocol violation.
pub open spec fn class_of(e: TransportError) -> ErrorClass {
    match e {
        TransportError::ConnectionClosed => ErrorClass::BenignClose,
        TransportError::UnexpectedEof => ErrorClass::BenignClose,
        TransportError::IoError => ErrorClass::BenignClose,
        _ => ErrorClass::Fatal,
    }
}

/// Partitions a transport condition into fatal and benign-close; total over
/// the closed variant set.
pub fn classify(e: &TransportError) -> (c: ErrorClass)
    ensures
        c == class_of(*e),
{
    match e {
        TransportError::ConnectionClosed => ErrorClass::BenignClose,
        TransportError::UnexpectedEof => ErrorClass::BenignClose,
        TransportError::IoError => ErrorClass::BenignClose,
        _ => ErrorClass::Fatal,
    }
}

} // verus!
