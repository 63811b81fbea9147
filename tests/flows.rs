use std::sync::mpsc::channel;
use sockle::client::{read_result, read_step};
use sockle::worker::{after_callback, after_control, after_receive, ControlPoll, WorkerAction};
use sockle::{Inbound, ReadMode, SimpleSockleClient, SimpleSockleError, SimpleSockleServer};

/// What a client read reports for a frame a worker wrote or closed with.
fn client_sees(a: WorkerAction) -> Option<Result<Option<String>, SimpleSockleError>> {
    let inbound = match a {
        WorkerAction::Write(t) => Inbound::Text(t),
        WorkerAction::Close(f) => Inbound::Close(f),
        other => panic!("unexpected {:?}", other),
    };
    read_result(read_step(ReadMode::Blocking, Ok(inbound)))
}

#[test]
fn defaults_are_idle() {
    let s = SimpleSockleServer::default();
    assert!(!s.is_listening());
    let c: SimpleSockleClient<u8> = SimpleSockleClient::default();
    assert!(!c.is_connected());
}

#[test]
fn sent_text_reaches_both_clients() {
    let s = SimpleSockleServer::new();
    let (a, ra) = channel();
    let (b, rb) = channel();
    s.registry().register(a);
    s.registry().register(b);
    s.send("Test".to_string());
    for r in [ra, rb] {
        let action = after_control(ControlPoll::Received(r.try_recv().unwrap()));
        assert_eq!(client_sees(action), Some(Ok(Some("Test".to_string()))));
    }
}

#[test]
fn echoed_text_comes_back() {
    let a = after_receive(Ok(Inbound::Text("Test".to_string())));
    let text = match a {
        WorkerAction::Dispatch(t) => t,
        other => panic!("unexpected {:?}", other),
    };
    let replies = match after_callback(Ok(()), vec![text]) {
        WorkerAction::Flush(q) => q,
        other => panic!("unexpected {:?}", other),
    };
    assert_eq!(replies.len(), 1);
    let seen = client_sees(WorkerAction::Write(replies[0].clone()));
    assert_eq!(seen, Some(Ok(Some("Test".to_string()))));
}

#[test]
fn shutdown_disconnects_every_client() {
    let mut s = SimpleSockleServer::new();
    let (ctrl, _ctrl_r) = channel();
    s.start_listening(ctrl).unwrap();
    let (a, ra) = channel();
    let (b, rb) = channel();
    s.registry().register(a);
    s.registry().register(b);
    s.shutdown().1.unwrap();
    for r in [ra, rb] {
        let action = after_control(ControlPoll::Received(r.try_recv().unwrap()));
        assert_eq!(client_sees(action), Some(Err(SimpleSockleError::SocketDisconnected)));
    }
}
