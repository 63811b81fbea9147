use vstd::prelude::*;

verus! {

/// Status code carried by a close frame.
#[derive(Debug, Clone, Copy, PartialEq, Eq, Structural)]
pub enum CloseCode {
    Normal,
    Error,
}

/// A close frame: the code and the human-readable reason.
#[derive(Debug, Clone, PartialEq, Eq)]
pub struct CloseFrame {
    pub code: CloseCode,
    pub reason: String,
}

/// One message as the transport delivers it.
#[derive(Debug, Clone, PartialEq, Eq)]
pub enum Inbound {
    Text(String),
    Binary,
    Ping,
    Pong,
    Close(Option<CloseFrame>),
}

/// The kinds of transport failure that the sessions tell apart.
#[derive(Debug, Clone, Copy, PartialEq, Eq, Structural)]
pub enum FaultKind {
    /// The connection was closed by the close handshake.
    ConnectionClosed,
    /// The connection had already been closed before the call.
    AlreadyClosed,
    /// A non-blocking receive found no data.
    WouldBlock,
    /// A receive with a read timeout found no data in time.
    TimedOut,
    /// Any other failure.
    Other,
}

/// A transport failure: its kind and its description.
#[derive(Debug, Clone, PartialEq, Eq)]
pub struct Fault {
    pub kind: FaultKind,
    pub text: String,
}

/// Whether a fault means that the connection is gone.
pub open spec fn is_closed_kind(k: FaultKind) -> bool {
    k == FaultKind::ConnectionClosed || k == FaultKind::AlreadyClosed
}

/// The error a session reports for a transport failure.
pub open spec fn fault_error(f: Fault) -> crate::error::SimpleSockleError {
    if is_closed_kind(f.kind) {
        crate::error::SimpleSockleError::SocketDisconnected
    } else {
        crate::error::SimpleSockleError::SocketError(f.text)
    }
}

/// Maps a transport failure to the error a session reports: a closed
/// connection becomes `SocketDisconnected`, anything else `SocketError`.
pub fn map_error(f: Fault) -> (r: crate::error::SimpleSockleError)
    ensures
        r == fault_error(f),
{
    match f.kind {
        FaultKind::ConnectionClosed | FaultKind::AlreadyClosed => {
            crate::error::SimpleSockleError::SocketDisconnected
        },
        _ => crate::error::SimpleSockleError::SocketError(f.text),
    }
}

} // verus!
