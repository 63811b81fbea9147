use std::sync::mpsc::channel;
use sockle::server::{listener_step, AcceptOutcome, SignalPoll};
use sockle::worker::{
    after_broadcast_write, after_callback, after_control, after_receive, after_reply_write,
    ControlPoll, WorkerAction,
};
use sockle::{CloseCode, CloseFrame, Fault, FaultKind, Inbound};
use sockle::{SimpleSockleError, SimpleSockleServer, SockleServerMessage};

fn closing(code: CloseCode, reason: &str) -> WorkerAction {
    WorkerAction::Close(Some(CloseFrame { code, reason: reason.to_string() }))
}

#[test]
fn new_server_does_not_listen() {
    let s = SimpleSockleServer::new();
    assert!(!s.is_listening());
    assert_eq!(s.connection_count(), 0);
    assert!(!s.signal_listener());
    assert_eq!(s.shutdown().1, Err(SimpleSockleError::ListenerUnreachable));
}

#[test]
fn listen_only_once() {
    let mut s = SimpleSockleServer::new();
    let (t1, _r1) = channel();
    let (t2, _r2) = channel();
    assert_eq!(s.start_listening(t1), Ok(()));
    assert!(s.is_listening());
    assert_eq!(s.start_listening(t2), Err(SimpleSockleError::AlreadyListening));
}

#[test]
fn broadcast_reaches_every_connection() {
    let s = SimpleSockleServer::new();
    let reg = s.registry();
    let (a, ra) = channel();
    let (b, rb) = channel();
    reg.register(a);
    reg.register(b);
    assert_eq!(s.connection_count(), 2);
    s.send("Test".to_string());
    assert_eq!(ra.try_recv(), Ok(SockleServerMessage::Send("Test".to_string())));
    assert_eq!(rb.try_recv(), Ok(SockleServerMessage::Send("Test".to_string())));
}

#[test]
fn broadcast_skips_gone_workers() {
    let s = SimpleSockleServer::new();
    let (a, ra) = channel();
    let (b, rb) = channel();
    s.registry().register(a);
    s.registry().register(b);
    drop(ra);
    s.send("Test".to_string());
    assert_eq!(rb.try_recv(), Ok(SockleServerMessage::Send("Test".to_string())));
}

#[test]
fn connection_count_grows_with_registrations() {
    let s = SimpleSockleServer::new();
    let mut keep = Vec::new();
    for n in 1..=3usize {
        let (t, r) = channel();
        s.registry().register(t);
        keep.push(r);
        assert!(s.connection_count() >= n);
    }
}

#[test]
fn shutdown_reaches_workers_and_listener() {
    let mut s = SimpleSockleServer::new();
    let (ctrl, ctrl_r) = channel();
    s.start_listening(ctrl).unwrap();
    let (a, ra) = channel();
    s.registry().register(a);
    assert_eq!(s.shutdown().1, Ok(()));
    assert_eq!(ra.try_recv(), Ok(SockleServerMessage::Shutdown));
    assert_eq!(ctrl_r.try_recv(), Ok(()));
    assert_eq!(after_control(ControlPoll::Received(SockleServerMessage::Shutdown)),
               closing(CloseCode::Normal, "Server Shutdown"));
}

#[test]
fn shutdown_fails_when_listener_is_gone() {
    let mut s = SimpleSockleServer::new();
    let (ctrl, ctrl_r) = channel::<()>();
    s.start_listening(ctrl).unwrap();
    drop(ctrl_r);
    assert_eq!(s.shutdown().1, Err(SimpleSockleError::ListenerUnreachable));
}

#[test]
fn worker_receive_decisions() {
    assert_eq!(after_receive(Ok(Inbound::Text("Test".to_string()))),
               WorkerAction::Dispatch("Test".to_string()));
    assert_eq!(after_receive(Ok(Inbound::Ping)), WorkerAction::Continue);
    assert_eq!(after_receive(Ok(Inbound::Pong)), WorkerAction::Continue);
    assert_eq!(after_receive(Ok(Inbound::Binary)), closing(CloseCode::Error, "Binary data not supported"));
    assert_eq!(after_receive(Ok(Inbound::Close(None))), WorkerAction::Close(None));
    let idle = Fault { kind: FaultKind::TimedOut, text: "t".to_string() };
    assert_eq!(after_receive(Err(idle)), WorkerAction::Continue);
    let broken = Fault { kind: FaultKind::Other, text: "reset".to_string() };
    assert_eq!(after_receive(Err(broken)), closing(CloseCode::Error, "reset"));
}

#[test]
fn worker_control_decisions() {
    assert_eq!(after_control(ControlPoll::Received(SockleServerMessage::Send("Test".to_string()))),
               WorkerAction::Write("Test".to_string()));
    assert_eq!(after_control(ControlPoll::Empty), WorkerAction::Continue);
    assert_eq!(after_control(ControlPoll::Disconnected), closing(CloseCode::Normal, "Server Error"));
}

#[test]
fn echo_callback_flushes_the_text_back() {
    let a = after_callback(Ok(()), vec!["Test".to_string()]);
    assert_eq!(a, WorkerAction::Flush(vec!["Test".to_string()]));
    let e = after_callback(Err("bad".to_string()), vec!["Test".to_string()]);
    assert_eq!(e, closing(CloseCode::Error, "bad"));
}

#[test]
fn worker_write_failures() {
    let f = Fault { kind: FaultKind::Other, text: "pipe".to_string() };
    assert_eq!(after_reply_write(Ok(())), WorkerAction::Continue);
    assert_eq!(after_reply_write(Err(f.clone())), closing(CloseCode::Error, "pipe"));
    assert_eq!(after_broadcast_write(Ok(())), WorkerAction::Continue);
    assert_eq!(after_broadcast_write(Err(f)), WorkerAction::Exit);
}

#[test]
fn accept_loop_decisions() {
    let s = listener_step(AcceptOutcome::Accepted, SignalPoll::Empty);
    assert!(s.spawn_worker && !s.sleep && !s.stop);
    let s = listener_step(AcceptOutcome::WouldBlock, SignalPoll::Empty);
    assert!(!s.spawn_worker && s.sleep && !s.stop);
    let s = listener_step(AcceptOutcome::Failed, SignalPoll::Signalled);
    assert!(!s.spawn_worker && !s.sleep && s.stop);
    assert!(listener_step(AcceptOutcome::Failed, SignalPoll::Disconnected).stop);
}
