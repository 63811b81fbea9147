//! What a message goes through between the server's control plane, a
//! connection worker and a client's read, and what a client sees when the
//! server shuts down. The transport in between is taken to deliver the
//! messages of one connection in order.
use vstd::prelude::*;
use crate::client::{ends_session, read_step_spec, step_result, ReadMode, ReadStep};
use crate::error::SimpleSockleError;
use crate::server::SockleServerMessage;
use crate::transport::{Fault, FaultKind, Inbound};
use crate::worker::{callback_action_ok, control_action_ok, receive_action_ok, ControlPoll, WorkerAction};

verus! {

/// A poll finds no data or a timed read runs out of time: the read reports
/// "no message", never an error, does not receive again, and keeps the
/// session open.
pub proof fn lemma_no_data_is_no_message(mode: ReadMode, f: Fault)
    requires
        mode == ReadMode::Poll ==> f.kind == FaultKind::WouldBlock,
        mode == ReadMode::Timed ==> (f.kind == FaultKind::WouldBlock || f.kind
            == FaultKind::TimedOut),
        mode != ReadMode::Blocking,
    ensures
        !ends_session(read_step_spec(mode, Err(f))),
        step_result(read_step_spec(mode, Err(f))) == Some(
            Ok::<Option<String>, SimpleSockleError>(None),
        ),
{
}

/// A text that the server sends to a connection is written by its worker as
/// that same text, and a client read that receives it returns exactly it
/// and keeps the session open.
pub proof fn lemma_sent_text_is_read(m: String, a: WorkerAction, mode: ReadMode)
    requires
        control_action_ok(ControlPoll::Received(SockleServerMessage::Send(m)), a),
    ensures
        a == WorkerAction::Write(m),
        !ends_session(read_step_spec(mode, Ok(Inbound::Text(m)))),
        step_result(read_step_spec(mode, Ok(Inbound::Text(m)))) == Some(
            Ok::<Option<String>, SimpleSockleError>(Some(m)),
        ),
{
}

/// With a callback that queues every inbound text unchanged, a text written
/// by the client is handed to the callback, flushed back as the one reply,
/// and returned by the client's next read, which keeps the session open.
pub proof fn lemma_echo_is_read(
    m: String,
    received: WorkerAction,
    flushed: WorkerAction,
    mode: ReadMode,
)
    requires
        receive_action_ok(Ok(Inbound::Text(m)), received),
        callback_action_ok(Ok(()), seq![m], flushed),
    ensures
        received == WorkerAction::Dispatch(m),
        flushed matches WorkerAction::Flush(q) && q@ == seq![m],
        !ends_session(read_step_spec(mode, Ok(Inbound::Text(m)))),
        step_result(read_step_spec(mode, Ok(Inbound::Text(m)))) == Some(
            Ok::<Option<String>, SimpleSockleError>(Some(m)),
        ),
{
}

/// On shutdown every worker closes its connection with a close frame, and a
/// client read that receives that frame ends the session and reports
/// `SocketDisconnected`, whatever kind of read it was; the session does not
/// take its transport back.
pub proof fn lemma_shutdown_disconnects(a: WorkerAction, mode: ReadMode)
    requires
        control_action_ok(ControlPoll::Received(SockleServerMessage::Shutdown), a),
    ensures
        a matches WorkerAction::Close(c) && read_step_spec(mode, Ok(Inbound::Close(c)))
            == ReadStep::PeerClosed(c) && step_result(ReadStep::PeerClosed(c)) == Some(
            Err::<Option<String>, SimpleSockleError>(SimpleSockleError::SocketDisconnected),
        ) && ends_session(ReadStep::PeerClosed(c)),
{
}

} // verus!
