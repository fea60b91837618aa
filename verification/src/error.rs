//! Error taxonomy of the framework.
//!
//! Terminal errors travel over the wire as plain strings in `CallData.error`;
//! everything else stays local to one side of a call.  `message` renders the
//! human-readable form that wrapping code sends to the peer.

use vstd::prelude::*;

verus! {

use vstd::string::StringExecFns;

/// Error code string recognised as an abort, kept for wire compatibility.
pub const ERR_RPC_ABORT: &'static str = "ERR_RPC_ABORT";

/// Error code string recognised as an idle timeout, kept for wire compatibility.
pub const ERR_STREAM_IDLE: &'static str = "ERR_STREAM_IDLE";

/// Everything that can go wrong in an RPC operation.
#[derive(Debug, Clone, PartialEq)]
pub enum Error {
    /// No handler matches the requested service and method.
    Unimplemented,
    /// A write was attempted after local completion, or a start was repeated.
    Completed,
    /// A packet that is impossible in the current state was received.
    UnrecognizedPacket,
    /// A packet carried no body, or a `CallData` carried no content and no flag.
    EmptyPacket,
    /// The bytes of a message could not be decoded.
    InvalidMessage(String),
    /// The method id is empty.
    EmptyMethodId,
    /// The service id is empty.
    EmptyServiceId,
    /// No RPC clients are available.
    NoAvailableClients,
    /// The writer is not initialized.
    NilWriter,
    /// The underlying transport failed.
    Io(String),
    /// The stream ended with no meaningful error.
    StreamClosed,
    /// The RPC was aborted locally.
    Aborted,
    /// The context was cancelled.
    Cancelled,
    /// The stream idle timeout was exceeded.
    StreamIdle,
    /// A terminal error string received from the peer.
    Remote(String),
    /// A frame exceeded the maximum message size; carries the size and the bound.
    MessageTooLarge(usize, usize),
    /// A frame carried a zero length prefix.
    MessageSizeZero,
    /// The first packet of a server connection was not a `CallStart`.
    ExpectedCallStart,
    /// A second `CallStart` arrived on the same call.
    DuplicateCallStart,
    /// A `CallData` arrived before any `CallStart`.
    CallDataBeforeStart,
    /// A message could not be encoded.
    Encode(String),
    /// An internal channel closed early.
    ChannelClosed,
}

impl Error {
    /// The human-readable message of this error.
    pub open spec fn spec_message(&self) -> Seq<char> {
        match self {
            Error::Unimplemented => "method not implemented"@,
            Error::Completed => "unexpected packet after rpc was completed"@,
            Error::UnrecognizedPacket => "unrecognized packet type"@,
            Error::EmptyPacket => "invalid empty packet"@,
            Error::InvalidMessage(m) => "invalid message: "@ + m@,
            Error::EmptyMethodId => "method id empty"@,
            Error::EmptyServiceId => "service id empty"@,
            Error::NoAvailableClients => "no available rpc clients"@,
            Error::NilWriter => "writer cannot be nil"@,
            Error::Io(m) => "io error: "@ + m@,
            Error::StreamClosed => "stream closed"@,
            Error::Aborted => "rpc aborted"@,
            Error::Cancelled => "context cancelled"@,
            Error::StreamIdle => "stream idle timeout exceeded"@,
            Error::Remote(m) => "remote error: "@ + m@,
            Error::MessageTooLarge(sz, mx) => "message size "@ + crate::text::spec_decimal(
                *sz as nat,
            ) + " exceeds maximum "@ + crate::text::spec_decimal(*mx as nat),
            Error::MessageSizeZero => "unexpected zero length prefix"@,
            Error::ExpectedCallStart => "expected CallStart packet"@,
            Error::DuplicateCallStart => "call start must be sent only once"@,
            Error::CallDataBeforeStart => "call start must be sent before call data"@,
            Error::Encode(m) => "encode error: "@ + m@,
            Error::ChannelClosed => "channel closed"@,
        }
    }

    /// Renders the human-readable message of this error.
    pub fn message(&self) -> (r: String)
        ensures
            r@ == self.spec_message(),
    {
        match self {
            Error::Unimplemented => "method not implemented".to_owned(),
            Error::Completed => "unexpected packet after rpc was completed".to_owned(),
            Error::UnrecognizedPacket => "unrecognized packet type".to_owned(),
            Error::EmptyPacket => "invalid empty packet".to_owned(),
            Error::InvalidMessage(m) => "invalid message: ".to_owned().concat(m.as_str()),
            Error::EmptyMethodId => "method id empty".to_owned(),
            Error::EmptyServiceId => "service id empty".to_owned(),
            Error::NoAvailableClients => "no available rpc clients".to_owned(),
            Error::NilWriter => "writer cannot be nil".to_owned(),
            Error::Io(m) => "io error: ".to_owned().concat(m.as_str()),
            Error::StreamClosed => "stream closed".to_owned(),
            Error::Aborted => "rpc aborted".to_owned(),
            Error::Cancelled => "context cancelled".to_owned(),
            Error::StreamIdle => "stream idle timeout exceeded".to_owned(),
            Error::Remote(m) => "remote error: ".to_owned().concat(m.as_str()),
            Error::MessageTooLarge(sz, mx) => "message size ".to_owned().concat(
                crate::text::u64_to_string(*sz as u64).as_str(),
            ).concat(" exceeds maximum ").concat(crate::text::u64_to_string(*mx as u64).as_str()),
            Error::MessageSizeZero => "unexpected zero length prefix".to_owned(),
            Error::ExpectedCallStart => "expected CallStart packet".to_owned(),
            Error::DuplicateCallStart => "call start must be sent only once".to_owned(),
            Error::CallDataBeforeStart => "call start must be sent before call data".to_owned(),
            Error::Encode(m) => "encode error: ".to_owned().concat(m.as_str()),
            Error::ChannelClosed => "channel closed".to_owned(),
        }
    }

    /// True exactly when this error means the RPC was aborted.
    pub fn is_abort(&self) -> (r: bool)
        ensures
            r == (self is Aborted || self is Cancelled),
    {
        matches!(self, Error::Aborted | Error::Cancelled)
    }

    /// True exactly when this error means the stream was closed.
    pub fn is_closed(&self) -> (r: bool)
        ensures
            r == (self is StreamClosed || self is Cancelled),
    {
        matches!(self, Error::StreamClosed | Error::Cancelled)
    }

    /// True exactly when this error means a timeout.
    pub fn is_timeout(&self) -> (r: bool)
        ensures
            r == (self is StreamIdle),
    {
        matches!(self, Error::StreamIdle)
    }

    /// True exactly when this error means the method is not implemented.
    pub fn is_unimplemented(&self) -> (r: bool)
        ensures
            r == (self is Unimplemented),
    {
        matches!(self, Error::Unimplemented)
    }

    /// Wraps a terminal error string received from the peer.
    pub fn remote(msg: &str) -> (r: Error)
        ensures
            r matches Error::Remote(m) && m@ == msg@,
    {
        Error::Remote(msg.to_owned())
    }
}

/// True exactly when an error message string means an abort.
pub fn is_abort_error_message(msg: &str) -> (r: bool)
    ensures
        r == (msg@ == "ERR_RPC_ABORT"@ || msg@ == "rpc aborted"@ || msg@ == "context cancelled"@),
{
    crate::text::str_eq(msg, ERR_RPC_ABORT) || crate::text::str_eq(msg, "rpc aborted")
        || crate::text::str_eq(msg, "context cancelled")
}

/// True exactly when an error message string means an idle timeout.
pub fn is_stream_idle_error_message(msg: &str) -> (r: bool)
    ensures
        r == (msg@ == "ERR_STREAM_IDLE"@ || msg@ == "stream idle timeout exceeded"@),
{
    crate::text::str_eq(msg, ERR_STREAM_IDLE)
        || crate::text::str_eq(msg, "stream idle timeout exceeded")
}

/// Shorthand for results that fail with this crate's [`Error`].
pub type Result<T> = core::result::Result<T, Error>;

} // verus!
