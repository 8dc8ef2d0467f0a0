//! Messages of a WebSocket connection and the errors that end one.

use vstd::prelude::*;

verus! {

/// The status code and reason that a close frame may carry.
#[derive(Clone, Debug, PartialEq, Eq)]
pub struct CloseFrame {
    pub code: u16,
    pub reason: String,
}

/// One discrete message, as it is produced by or handed to a connection.
#[derive(Clone, Debug, PartialEq, Eq)]
pub enum Message {
    Text(String),
    Binary(Vec<u8>),
    Ping(Vec<u8>),
    Pong(Vec<u8>),
    Close(Option<CloseFrame>),
}

/// What kind of fault the transport under a connection reported.
#[derive(Clone, Copy, Debug, PartialEq, Eq, Structural)]
pub enum IoFaultKind {
    ConnectionReset,
    ConnectionAborted,
    BrokenPipe,
    UnexpectedEof,
    TimedOut,
    Interrupted,
    /// Any fault that fits none of the kinds above.
    Other,
}

/// A connection fault in the form in which the host is told of it.
#[derive(Clone, Debug, PartialEq, Eq)]
pub struct IoFault {
    pub kind: IoFaultKind,
    pub description: String,
}

/// Why a connection stopped yielding or accepting messages.
#[derive(Clone, Debug, PartialEq, Eq)]
pub enum FrameError {
    /// The peer ended the connection cleanly.
    ConnectionClosed,
    /// The transport under the connection failed.
    Io(IoFault),
    /// Any other terminal error (a bad frame, an oversize message, text that is
    /// not UTF-8), with its description.
    Protocol(String),
}

} // verus!
