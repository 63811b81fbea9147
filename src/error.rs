use vstd::prelude::*;

verus! {

/// Everything a session or the server reports to its caller.
#[derive(Debug, Clone, PartialEq, Eq)]
pub enum SimpleSockleError {
    /// The address handed to `connect` could not be parsed.
    InvalidUrl(String),
    /// The operation needs an open session and there is none.
    SocketDisconnected,
    /// `connect` was called on a session that is already open.
    SocketConnected,
    /// The transport failed; the text describes the failure.
    SocketError(String),
    /// An I/O setting could not be applied to the transport.
    IoError(String),
    /// The peer did not finish the close handshake in time.
    SocketCloseTimeout,
    /// `listen` was called on a server that is already listening.
    AlreadyListening,
    /// The accept loop could not be signalled (it never ran or has ended).
    ListenerUnreachable,
}

} // verus!
