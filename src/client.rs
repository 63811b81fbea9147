//! The client session: its state, the checks each operation makes on it and
//! the decision taken on every message or failure the transport reports.
use vstd::prelude::*;
use crate::error::SimpleSockleError;
use crate::transport::{fault_error, map_error, CloseCode, CloseFrame, Fault, FaultKind, Inbound};

verus! {

#[verifier::external_type_specification]
#[verifier::external_body]
pub struct ExUrl(url::Url);

/// Either `None` when `s` is an address that `url::Url::parse` accepts, or
/// the text of the parse error it reports.
pub uninterp spec fn url_parse_error(s: Seq<char>) -> Option<Seq<char>>;

/// Relies on `url::Url::parse`: it accepts or rejects an address depending
/// on the text alone, and describes a rejection by its `Display` text.
#[verifier::external_body]
fn parse_url(s: &str) -> (r: Result<url::Url, String>)
    ensures
        r is Ok <==> url_parse_error(s@) is None,
        r is Err ==> url_parse_error(s@) == Some(r->Err_0@),
{
    url::Url::parse(s).map_err(|e| e.to_string())
}

/// How a receive is bounded.
#[derive(Debug, Clone, Copy, PartialEq, Eq, Structural)]
pub enum ReadMode {
    /// Waits until a message or a failure arrives.
    Blocking,
    /// One non-blocking attempt: no data is "no message".
    Poll,
    /// A receive under a read timeout: running out of time is "no message".
    Timed,
}

/// What a read does after one receive from the transport.
#[derive(Debug, Clone, PartialEq, Eq)]
pub enum ReadStep {
    /// Hand this text to the caller.
    Deliver(String),
    /// Not a text message: receive again.
    Skip,
    /// No data in the allowed time: the caller gets "no message".
    NoMessage,
    /// The peer closed: run the close sequence with this frame, then report
    /// `SocketDisconnected`.
    PeerClosed(Option<CloseFrame>),
    /// Report this error.
    Fail(SimpleSockleError),
}

/// Whether a fault only means that no data came in the allowed time.
pub open spec fn is_no_data(mode: ReadMode, k: FaultKind) -> bool {
    match mode {
        ReadMode::Blocking => false,
        ReadMode::Poll => k == FaultKind::WouldBlock,
        ReadMode::Timed => k == FaultKind::WouldBlock || k == FaultKind::TimedOut,
    }
}

/// The step a read takes on what one receive returned.
pub open spec fn read_step_spec(mode: ReadMode, r: Result<Inbound, Fault>) -> ReadStep {
    match r {
        Ok(Inbound::Text(t)) => ReadStep::Deliver(t),
        Ok(Inbound::Close(c)) => ReadStep::PeerClosed(c),
        Ok(_) => ReadStep::Skip,
        Err(f) => if is_no_data(mode, f.kind) {
            ReadStep::NoMessage
        } else {
            ReadStep::Fail(fault_error(f))
        },
    }
}

/// Decides what a read does with the result of one receive: text is
/// delivered, binary, ping and pong are skipped, a close frame ends the
/// session, and a failure is an error unless it only says that no data came
/// in the time the mode allows.
pub fn read_step(mode: ReadMode, r: Result<Inbound, Fault>) -> (s: ReadStep)
    ensures
        s == read_step_spec(mode, r),
{
    match r {
        Ok(Inbound::Text(t)) => ReadStep::Deliver(t),
        Ok(Inbound::Close(c)) => ReadStep::PeerClosed(c),
        Ok(_) => ReadStep::Skip,
        Err(f) => {
            let no_data = match mode {
                ReadMode::Blocking => false,
                ReadMode::Poll => f.kind == FaultKind::WouldBlock,
                ReadMode::Timed => f.kind == FaultKind::WouldBlock || f.kind == FaultKind::TimedOut,
            };
            if no_data {
                ReadStep::NoMessage
            } else {
                ReadStep::Fail(map_error(f))
            }
        },
    }
}

/// What a read reports after a step: `None` to receive again, otherwise the
/// result handed to the caller (`Ok(None)` is "no message").
pub open spec fn step_result(s: ReadStep) -> Option<Result<Option<String>, SimpleSockleError>> {
    match s {
        ReadStep::Deliver(t) => Some(Ok(Some(t))),
        ReadStep::Skip => None,
        ReadStep::NoMessage => Some(Ok(None)),
        ReadStep::PeerClosed(_) => Some(Err(SimpleSockleError::SocketDisconnected)),
        ReadStep::Fail(e) => Some(Err(e)),
    }
}

/// Turns a read step into what the read reports: a peer's close is
/// reported as `SocketDisconnected` once the close sequence has run.
pub fn read_result(s: ReadStep) -> (r: Option<Result<Option<String>, SimpleSockleError>>)
    ensures
        r == step_result(s),
{
    match s {
        ReadStep::Deliver(t) => Some(Ok(Some(t))),
        ReadStep::Skip => None,
        ReadStep::NoMessage => Some(Ok(None)),
        ReadStep::PeerClosed(_) => Some(Err(SimpleSockleError::SocketDisconnected)),
        ReadStep::Fail(e) => Some(Err(e)),
    }
}

/// Whether a read step ends the session: the peer closed, or the
/// transport reports that the connection is gone.
pub open spec fn ends_session(s: ReadStep) -> bool {
    s is PeerClosed || s == ReadStep::Fail(SimpleSockleError::SocketDisconnected)
}

/// The reason a client gives when it closes its session.
pub open spec fn client_close_reason() -> Seq<char> {
    "Client requested close"@
}

/// A client session over a transport handle of type `T`: disconnected or
/// connected, holding the handle exclusively while connected.
pub struct SimpleSockleClient<T> {
    socket: Option<T>,
}

impl<T> SimpleSockleClient<T> {
    /// Whether the session is connected.
    pub closed spec fn connected(&self) -> bool {
        self.socket is Some
    }

    /// The transport handle held while connected.
    pub closed spec fn handle(&self) -> Option<T> {
        self.socket
    }

    /// A new session, disconnected.
    pub fn new() -> (c: Self)
        ensures
            !c.connected(),
    {
        SimpleSockleClient { socket: None }
    }

    /// Whether the session is connected.
    pub fn is_connected(&self) -> (r: bool)
        ensures
            r == self.connected(),
            r == (self.handle() is Some),
    {
        self.socket.is_some()
    }

    /// The check every read, write and ping makes first: `Ok` when the
    /// session is connected, `SocketDisconnected` otherwise.
    pub fn error_if_closed(&self) -> (r: Result<(), SimpleSockleError>)
        ensures
            self.connected() ==> r is Ok,
            !self.connected() ==> r == Err::<(), SimpleSockleError>(
                SimpleSockleError::SocketDisconnected,
            ),
    {
        if self.socket.is_none() {
            Err(SimpleSockleError::SocketDisconnected)
        } else {
            Ok(())
        }
    }

    /// What `connect` makes of the result of parsing the address: a
    /// connected session refuses with `SocketConnected` before anything
    /// else; a parse error becomes `InvalidUrl` with its text.
    pub fn connect_target(&self, parsed: Result<url::Url, String>) -> (r: Result<
        url::Url,
        SimpleSockleError,
    >)
        ensures
            self.connected() ==> r == Err::<url::Url, SimpleSockleError>(
                SimpleSockleError::SocketConnected,
            ),
            !self.connected() ==> match parsed {
                Ok(u) => r == Ok::<url::Url, SimpleSockleError>(u),
                Err(e) => r == Err::<url::Url, SimpleSockleError>(
                    SimpleSockleError::InvalidUrl(e),
                ),
            },
    {
        if self.socket.is_some() {
            return Err(SimpleSockleError::SocketConnected);
        }
        match parsed {
            Ok(u) => Ok(u),
            Err(e) => Err(SimpleSockleError::InvalidUrl(e)),
        }
    }

    /// The first half of `connect`: checks the session state and parses the
    /// address. On `Ok` the caller opens the transport to the returned
    /// address and hands it to [`Self::attach`].
    pub fn begin_connect(&self, url: &str) -> (r: Result<url::Url, SimpleSockleError>)
        ensures
            self.connected() ==> r == Err::<url::Url, SimpleSockleError>(
                SimpleSockleError::SocketConnected,
            ),
            !self.connected() ==> (r is Ok <==> url_parse_error(url@) is None),
            !self.connected() && url_parse_error(url@) is Some ==> (r matches Err(
                SimpleSockleError::InvalidUrl(e),
            ) && Some(e@) == url_parse_error(url@)),
    {
        if self.socket.is_some() {
            return Err(SimpleSockleError::SocketConnected);
        }
        let parsed = parse_url(url);
        self.connect_target(parsed)
    }

    /// Stores the transport of a completed connect. A session that is
    /// already connected refuses with `SocketConnected` and keeps its own
    /// transport.
    pub fn attach(&mut self, socket: T) -> (r: Result<(), SimpleSockleError>)
        ensures
            old(self).connected() ==> r == Err::<(), SimpleSockleError>(
                SimpleSockleError::SocketConnected,
            ) && *final(self) == *old(self),
            !old(self).connected() ==> r is Ok && final(self).connected() && final(self).handle()
                == Some(socket),
    {
        if self.socket.is_some() {
            return Err(SimpleSockleError::SocketConnected);
        }
        self.socket = Some(socket);
        Ok(())
    }

    /// Puts the transport back after a read that took it out with
    /// [`Self::detach`], or hands it back for the close sequence when the
    /// read ended the session: on the peer's close frame, or on a failure
    /// that says the connection is gone. Every other step, a delivered text,
    /// "no message", a skipped frame or another failure, leaves the session
    /// connected to the same transport.
    pub fn finish_read(&mut self, socket: T, step: &ReadStep) -> (closing: Option<T>)
        requires
            !old(self).connected(),
        ensures
            ends_session(*step) ==> !final(self).connected() && closing == Some(socket),
            !ends_session(*step) ==> final(self).connected() && final(self).handle() == Some(
                socket,
            ) && closing is None,
    {
        let ends = match step {
            ReadStep::PeerClosed(_) => true,
            ReadStep::Fail(SimpleSockleError::SocketDisconnected) => true,
            _ => false,
        };
        if ends {
            Some(socket)
        } else {
            self.socket = Some(socket);
            None
        }
    }

    /// Starts `close`: takes the transport out of a connected session,
    /// which is disconnected afterwards, together with the close frame to
    /// offer the peer (code `Normal`, reason "Client requested close").
    /// `None` when the session was disconnected already: closing it again
    /// is a no-op.
    pub fn begin_close(&mut self) -> (r: Option<(T, CloseFrame)>)
        ensures
            !final(self).connected(),
            !old(self).connected() ==> r is None,
            old(self).connected() ==> (r matches Some((s, f)) && Some(s) == old(self).handle()
                && f.code == CloseCode::Normal && f.reason@ == client_close_reason()),
    {
        match self.socket.take() {
            None => None,
            Some(s) => Some(
                (s, CloseFrame { code: CloseCode::Normal, reason: "Client requested close".to_owned() }),
            ),
        }
    }

    /// Closing a session that is already closed takes nothing out of it:
    /// a disconnected session holds no transport, so a second `close` in a
    /// row finds nothing to close and succeeds without touching anything.
    pub proof fn lemma_close_twice(&self)
        requires
            !self.connected(),
        ensures
            self.handle() is None,
    {
    }

    /// Takes the transport out of the session, which is disconnected
    /// afterwards. `None` when it was disconnected already.
    pub fn detach(&mut self) -> (r: Option<T>)
        ensures
            r == old(self).handle(),
            !final(self).connected(),
    {
        self.socket.take()
    }
}

impl<T> Default for SimpleSockleClient<T> {
    fn default() -> (c: Self)
        ensures
            !c.connected(),
    {
        SimpleSockleClient::new()
    }
}

} // verus!
