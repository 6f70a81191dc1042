//! Error vocabulary of the transport.

use vstd::prelude::*;

verus! {

/// Errors surfaced by the transport to its callers.
#[derive(Clone, Copy, Debug, PartialEq, Eq, Structural)]
pub enum TransError {
    /// An operation was attempted while the endpoint was disconnected.
    NotConnected,
    /// No response arrived within the configured window.
    Timeout,
    /// A frame failed to decode; the frame is skipped, the link stays up.
    InvalidMessage,
    /// The peer answered a request with the wrong response variant, or a
    /// wire write failed.
    ProtocolIssue,
    /// A widget lookup was made with an identifier the device does not hold.
    WidgetNotFound,
    /// Resource exhaustion, such as too many refresh tasks.
    InternalError,
}

impl View for TransError {
    type V = TransError;

    open spec fn view(&self) -> TransError {
        *self
    }
}

impl TransError {
    /// The fixed description of each error kind.
    pub open spec fn spec_message(&self) -> Seq<char> {
        match self {
            TransError::NotConnected => "not connected"@,
            TransError::Timeout => "timed out waiting for a response"@,
            TransError::InvalidMessage => "invalid message"@,
            TransError::ProtocolIssue => "protocol issue"@,
            TransError::WidgetNotFound => "widget not found"@,
            TransError::InternalError => "internal error"@,
        }
    }

    /// A human-readable description of the error.
    pub fn message(&self) -> (r: &'static str)
        ensures
            r@ == self.spec_message(),
    {
        match self {
            TransError::NotConnected => "not connected",
            TransError::Timeout => "timed out waiting for a response",
            TransError::InvalidMessage => "invalid message",
            TransError::ProtocolIssue => "protocol issue",
            TransError::WidgetNotFound => "widget not found",
            TransError::InternalError => "internal error",
        }
    }
}

/// Result type of transport operations.
pub type TransResult<T> = Result<T, TransError>;

/// Errors raised while opening or running a TCP stream link. The I/O detail
/// itself stays with the socket driver; the library records only the kind.
#[derive(Clone, Copy, Debug, PartialEq, Eq, Structural)]
pub enum TcpTransportError {
    /// The underlying socket failed to open, read or write.
    IOError,
}

/// Result type of stream-link setup operations.
pub type TcpTransportResult<T> = Result<T, TcpTransportError>;

} // verus!
