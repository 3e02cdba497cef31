use tcp_sessions::channel::{new_queue, SendOutcome};
use tcp_sessions::codec::LineCodec;
use tcp_sessions::dispatcher::ReadOutcome;
use tcp_sessions::session::{
    after_forward, open_session, worker_step, SessionCommand, WorkerAction, WorkerEvent,
};

#[test]
fn open_session_builds_the_handle() {
    let (_data_tx, data_rx) = new_queue::<Vec<u8>>(8);
    let (session, _payload_rx, _cmd_rx) =
        open_session::<LineCodec>(3, "three".to_string(), data_rx);
    assert_eq!(session.id, 3);
    assert_eq!(session.name, "three");
}

#[test]
fn close_reaches_a_live_worker() {
    let (_data_tx, data_rx) = new_queue::<Vec<u8>>(8);
    let (session, _payload_rx, mut cmd_rx) =
        open_session::<LineCodec>(1, "one".to_string(), data_rx);
    assert_eq!(session.close(), SendOutcome::Delivered);
    assert!(matches!(cmd_rx.inner.try_recv().unwrap(), SessionCommand::Close));
}

#[test]
fn close_after_termination_is_graceful() {
    let (_data_tx, data_rx) = new_queue::<Vec<u8>>(8);
    let (session, _payload_rx, cmd_rx) =
        open_session::<LineCodec>(1, "one".to_string(), data_rx);
    // the worker is gone: its end of the control queue is dropped
    drop(cmd_rx);
    assert_eq!(session.close(), SendOutcome::Disconnected);
    // sending again must stay graceful too
    assert_eq!(session.close(), SendOutcome::Disconnected);
}

#[test]
fn zero_byte_read_ends_the_session() {
    match worker_step(5, WorkerEvent::Socket(ReadOutcome::Read(0))) {
        WorkerAction::EndSession(id) => assert_eq!(id, 5),
        _ => panic!("a zero-byte read must end the session"),
    }
}

#[test]
fn worker_decisions_cover_every_source() {
    match worker_step(9, WorkerEvent::Outbound(Some(b"ping".to_vec()))) {
        WorkerAction::Forward(p) => assert_eq!(p, b"ping".to_vec()),
        _ => panic!("a ready payload must be written out"),
    }
    assert!(matches!(
        worker_step(9, WorkerEvent::Outbound(None)),
        WorkerAction::Idle
    ));
    match worker_step(9, WorkerEvent::Control(Some(SessionCommand::Close))) {
        WorkerAction::Shutdown(id) => assert_eq!(id, 9),
        _ => panic!("a close command must shut the session down"),
    }
    assert!(matches!(
        worker_step(9, WorkerEvent::Control(None)),
        WorkerAction::Idle
    ));
    match worker_step(9, WorkerEvent::Socket(ReadOutcome::Read(42))) {
        WorkerAction::Decode(n) => assert_eq!(n, 42),
        _ => panic!("read bytes must go to the decoder"),
    }
    match worker_step(9, WorkerEvent::Socket(ReadOutcome::Failed)) {
        WorkerAction::DecodeAbort(id) => assert_eq!(id, 9),
        _ => panic!("a failed read must end the session after the decoder saw it"),
    }
}

#[test]
fn failed_write_ends_the_session() {
    assert!(matches!(after_forward(4, true), WorkerAction::Idle));
    match after_forward(4, false) {
        WorkerAction::EndSession(id) => assert_eq!(id, 4),
        _ => panic!("a failed write must end the session"),
    }
}
