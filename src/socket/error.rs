use vstd::prelude::*;
use crate::subscription::SubscriptionId;

verus! {

/// The decode error of `serde_json`, carried through unread.
#[verifier::external_type_specification]
#[verifier::external_body]
pub struct ExJsonError(serde_json::Error);

/// The transport error of `tungstenite`, carried through unread.
#[verifier::external_type_specification]
#[verifier::external_body]
pub struct ExWsError(tokio_tungstenite::tungstenite::Error);

/// Everything that can go wrong on one exchange connection.
#[derive(Debug)]
pub enum SocketError {
    /// Writing to the outbound transport failed.
    Sink,
    /// A payload could not be decoded; the raw payload is kept.
    Serde { error: serde_json::Error, payload: String },
    /// The exchange rejected a subscription.
    Subscribe(String),
    /// The remote end closed the connection, with its reason.
    Terminated(String),
    /// The exchange does not support `item` of `entity`.
    Unsupported { entity: &'static str, item: String },
    /// A frame matched no active subscription.
    Unidentifiable(SubscriptionId),
    /// The transport failed.
    WebSocket(tokio_tungstenite::tungstenite::Error),
}

/// How far the consequences of an error reach.
#[derive(Clone, Copy, PartialEq, Eq, Structural, Debug)]
pub enum Severity {
    /// Only the frame at hand is lost; the connection goes on.
    FrameLocal,
    /// The subscribe phase aborts before any streaming.
    Handshake,
    /// The connection ends.
    ConnectionFatal,
}

pub open spec fn severity_of(e: SocketError) -> Severity {
    match e {
        SocketError::Sink => Severity::ConnectionFatal,
        SocketError::WebSocket(_) => Severity::ConnectionFatal,
        SocketError::Terminated(_) => Severity::ConnectionFatal,
        SocketError::Serde { .. } => Severity::FrameLocal,
        SocketError::Unidentifiable(_) => Severity::FrameLocal,
        SocketError::Unsupported { .. } => Severity::FrameLocal,
        SocketError::Subscribe(_) => Severity::Handshake,
    }
}

impl SocketError {
    /// How far this error reaches.
    pub fn severity(&self) -> (r: Severity)
        ensures
            r == severity_of(*self),
    {
        match self {
            SocketError::Sink => Severity::ConnectionFatal,
            SocketError::WebSocket(_) => Severity::ConnectionFatal,
            SocketError::Terminated(_) => Severity::ConnectionFatal,
            SocketError::Serde { .. } => Severity::FrameLocal,
            SocketError::Unidentifiable(_) => Severity::FrameLocal,
            SocketError::Unsupported { .. } => Severity::FrameLocal,
            SocketError::Subscribe(_) => Severity::Handshake,
        }
    }
}

} // verus!
