//! The decisions of a server-side connection worker.
//!
//! A worker alternates between one receive bounded by its poll interval and
//! one look at its control channel. After each it asks this module what to
//! do next; the socket I/O and the application callback run outside.
use vstd::prelude::*;
use crate::server::SockleServerMessage;
use crate::transport::{CloseCode, CloseFrame, Fault, FaultKind, Inbound};

verus! {

/// The receive timeout a worker sets on its transport, in milliseconds: the
/// granularity at which it notices control messages.
pub const POLL_INTERVAL_MS: u64 = 15;

/// What one look at a worker's control channel found.
#[derive(Debug, Clone, PartialEq, Eq)]
pub enum ControlPoll {
    Received(SockleServerMessage),
    Empty,
    /// The server side of the channel is gone.
    Disconnected,
}

/// What a worker does next.
#[derive(Debug, Clone, PartialEq, Eq)]
pub enum WorkerAction {
    /// Go on with the next step of the loop.
    Continue,
    /// Hand this text to the application callback, with a fresh reply queue.
    Dispatch(String),
    /// Write these replies to the transport, in this order, stopping at the
    /// first failure.
    Flush(Vec<String>),
    /// Write this broadcast text to the transport.
    Write(String),
    /// Run the close sequence with this frame, then end the worker.
    Close(Option<CloseFrame>),
    /// End the worker without a close frame: the transport is broken.
    Exit,
}

/// Whether `a` closes with the given code and a reason of these characters.
pub open spec fn closes_with(a: WorkerAction, code: CloseCode, reason: Seq<char>) -> bool {
    a matches WorkerAction::Close(Some(f)) && f.code == code && f.reason@ == reason
}

/// The reason a worker gives when it refuses a binary message.
pub open spec fn binary_reason() -> Seq<char> {
    "Binary data not supported"@
}

/// The reason a worker gives when the server asks it to shut down.
pub open spec fn shutdown_reason() -> Seq<char> {
    "Server Shutdown"@
}

/// The reason a worker gives when its control channel is gone.
pub open spec fn lost_server_reason() -> Seq<char> {
    "Server Error"@
}

/// What a worker does with the result of one receive.
pub open spec fn receive_action_ok(r: Result<Inbound, Fault>, a: WorkerAction) -> bool {
    match r {
        Ok(Inbound::Text(t)) => a == WorkerAction::Dispatch(t),
        Ok(Inbound::Binary) => closes_with(a, CloseCode::Error, binary_reason()),
        Ok(Inbound::Ping) | Ok(Inbound::Pong) => a == WorkerAction::Continue,
        Ok(Inbound::Close(c)) => a == WorkerAction::Close(c),
        Err(f) => if f.kind == FaultKind::WouldBlock || f.kind == FaultKind::TimedOut {
            a == WorkerAction::Continue
        } else {
            closes_with(a, CloseCode::Error, f.text@)
        },
    }
}

/// What a worker does with one look at its control channel.
pub open spec fn control_action_ok(c: ControlPoll, a: WorkerAction) -> bool {
    match c {
        ControlPoll::Received(SockleServerMessage::Send(m)) => a == WorkerAction::Write(m),
        ControlPoll::Received(SockleServerMessage::Shutdown) => closes_with(
            a,
            CloseCode::Normal,
            shutdown_reason(),
        ),
        ControlPoll::Empty => a == WorkerAction::Continue,
        ControlPoll::Disconnected => closes_with(a, CloseCode::Normal, lost_server_reason()),
    }
}

fn close_frame(code: CloseCode, reason: &str) -> (a: WorkerAction)
    ensures
        closes_with(a, code, reason@),
{
    WorkerAction::Close(Some(CloseFrame { code, reason: reason.to_owned() }))
}

/// Decides what a worker does after one receive: text goes to the callback;
/// ping and pong, and running out of the poll interval, change nothing; a
/// close frame from the peer is answered with the close sequence; a binary
/// message or any other failure closes with an error frame.
pub fn after_receive(r: Result<Inbound, Fault>) -> (a: WorkerAction)
    ensures
        receive_action_ok(r, a),
{
    match r {
        Ok(Inbound::Text(t)) => WorkerAction::Dispatch(t),
        Ok(Inbound::Binary) => close_frame(CloseCode::Error, "Binary data not supported"),
        Ok(Inbound::Ping) | Ok(Inbound::Pong) => WorkerAction::Continue,
        Ok(Inbound::Close(c)) => WorkerAction::Close(c),
        Err(f) => match f.kind {
            FaultKind::WouldBlock | FaultKind::TimedOut => WorkerAction::Continue,
            _ => WorkerAction::Close(Some(CloseFrame { code: CloseCode::Error, reason: f.text })),
        },
    }
}

/// Decides what a worker does after one look at its control channel: a
/// broadcast is written, a shutdown or a vanished server closes, and an
/// empty channel changes nothing.
pub fn after_control(c: ControlPoll) -> (a: WorkerAction)
    ensures
        control_action_ok(c, a),
{
    match c {
        ControlPoll::Received(SockleServerMessage::Send(m)) => WorkerAction::Write(m),
        ControlPoll::Received(SockleServerMessage::Shutdown) => close_frame(
            CloseCode::Normal,
            "Server Shutdown",
        ),
        ControlPoll::Empty => WorkerAction::Continue,
        ControlPoll::Disconnected => close_frame(CloseCode::Normal, "Server Error"),
    }
}

/// What a worker does once the callback has returned.
pub open spec fn callback_action_ok(r: Result<(), String>, replies: Seq<String>, a: WorkerAction) -> bool {
    match r {
        Ok(()) => a matches WorkerAction::Flush(q) && q@ == replies,
        Err(e) => closes_with(a, CloseCode::Error, e@),
    }
}

/// Decides what a worker does once the callback has returned: its failure
/// closes with an error frame carrying its text and drops the replies;
/// otherwise the queued replies are flushed in the order they were queued.
pub fn after_callback(r: Result<(), String>, replies: Vec<String>) -> (a: WorkerAction)
    ensures
        callback_action_ok(r, replies@, a),
        r is Ok ==> a == WorkerAction::Flush(replies),
{
    match r {
        Ok(()) => WorkerAction::Flush(replies),
        Err(e) => WorkerAction::Close(Some(CloseFrame { code: CloseCode::Error, reason: e })),
    }
}

/// Decides what a worker does after writing one reply: go on, or close
/// with an error frame when the write failed.
pub fn after_reply_write(r: Result<(), Fault>) -> (a: WorkerAction)
    ensures
        r is Ok ==> a == WorkerAction::Continue,
        r is Err ==> closes_with(a, CloseCode::Error, r->Err_0.text@),
{
    match r {
        Ok(()) => WorkerAction::Continue,
        Err(f) => WorkerAction::Close(Some(CloseFrame { code: CloseCode::Error, reason: f.text })),
    }
}

/// Decides what a worker does after writing a broadcast: go on, or end
/// without a close frame when the write failed.
pub fn after_broadcast_write(r: Result<(), Fault>) -> (a: WorkerAction)
    ensures
        r is Ok ==> a == WorkerAction::Continue,
        r is Err ==> a == WorkerAction::Exit,
{
    match r {
        Ok(()) => WorkerAction::Continue,
        Err(_) => WorkerAction::Exit,
    }
}

} // verus!
