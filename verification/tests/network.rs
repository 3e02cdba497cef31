use tcp_sessions::channel::{new_queue, SendOutcome};
use tcp_sessions::codec::LineCodec;
use tcp_sessions::network::{connect_decision, ConnectStep, Network, NetworkCommand};
use tcp_sessions::session::{open_session, SessionEvent};

fn connect_command(id: usize, target_addr: &str) -> NetworkCommand {
    NetworkCommand::Connect {
        id,
        name: format!("session {}", id),
        target_addr: target_addr.to_string(),
        proxy: None,
        encoding: "ascii".to_string(),
    }
}

#[test]
fn a_fresh_manager_is_quiet() {
    let (_cmd_tx, mut net) = Network::<LineCodec>::new();
    assert!(net.process_commands().is_none());
    assert!(net.poll_event().is_none());
}

#[test]
fn commands_are_drained_one_per_call() {
    let (cmd_tx, mut net) = Network::<LineCodec>::new();
    assert_eq!(cmd_tx.submit(connect_command(1, "127.0.0.1:80")), SendOutcome::Delivered);
    assert_eq!(cmd_tx.submit(connect_command(2, "127.0.0.1:81")), SendOutcome::Delivered);
    match net.process_commands() {
        Some(NetworkCommand::Connect { id, .. }) => assert_eq!(id, 1),
        None => panic!("the first command must be drained"),
    }
    match net.process_commands() {
        Some(NetworkCommand::Connect { id, .. }) => assert_eq!(id, 2),
        None => panic!("the second command must be drained"),
    }
    assert!(net.process_commands().is_none());
}

#[test]
fn a_saturated_command_queue_rejects_the_submit() {
    let (cmd_tx, _net) = Network::<LineCodec>::new();
    for i in 0..32 {
        assert_eq!(cmd_tx.submit(connect_command(i, "127.0.0.1:80")), SendOutcome::Delivered);
    }
    // the queue is at its fixed capacity: the submit fails, nothing is retried
    assert_eq!(
        cmd_tx.submit(connect_command(99, "127.0.0.1:80")),
        SendOutcome::Full
    );
}

#[test]
fn failed_connect_yields_one_failure_event() {
    let (cmd_tx, mut net) = Network::<LineCodec>::new();
    assert_eq!(cmd_tx.submit(connect_command(7, "127.0.0.1:1")), SendOutcome::Delivered);

    // the caller drains the request and starts the connection itself
    let target = match net.process_commands() {
        Some(NetworkCommand::Connect { id, target_addr, .. }) => {
            assert_eq!(id, 7);
            target_addr
        }
        None => panic!("the connect request must be drained"),
    };
    let rt = tokio::runtime::Builder::new_current_thread()
        .enable_io()
        .build()
        .unwrap();
    let attempt = rt.block_on(tokio::net::TcpStream::connect(target.as_str()));
    assert!(attempt.is_err(), "nothing listens on that port");
    match connect_decision(7, attempt.is_ok()) {
        ConnectStep::ReportFailure(id) => {
            assert_eq!(
                net.event_sender().submit(SessionEvent::ConnectionFailed(id)),
                SendOutcome::Delivered
            );
        }
        ConnectStep::StartSession(_) => panic!("a failed connect must never start a session"),
    }

    match net.poll_event() {
        Some(SessionEvent::ConnectionFailed(id)) => assert_eq!(id, 7),
        _ => panic!("exactly one ConnectionFailed(7) is owed"),
    }
    assert!(net.poll_event().is_none(), "no SessionStart and no second event");
}

#[test]
fn a_started_session_reaches_the_caller() {
    let (_cmd_tx, mut net) = Network::<LineCodec>::new();
    let (_data_tx, data_rx) = new_queue::<Vec<u8>>(8);
    let (session, _payload_rx, _cmd_rx) = open_session::<LineCodec>(11, "s".to_string(), data_rx);
    assert_eq!(
        net.event_sender().submit(SessionEvent::SessionStart(session)),
        SendOutcome::Delivered
    );
    match net.poll_event() {
        Some(SessionEvent::SessionStart(s)) => assert_eq!(s.id, 11),
        _ => panic!("the started session must come back as an event"),
    }
}

#[test]
fn session_end_reaches_the_caller() {
    let (_cmd_tx, mut net) = Network::<LineCodec>::new();
    assert_eq!(
        net.event_sender().submit(SessionEvent::SessionEnd(11)),
        SendOutcome::Delivered
    );
    match net.poll_event() {
        Some(SessionEvent::SessionEnd(id)) => assert_eq!(id, 11),
        _ => panic!("the end event must come back"),
    }
}

#[test]
fn connect_outcomes_map_to_exactly_one_step() {
    assert_eq!(connect_decision(7, false), ConnectStep::ReportFailure(7));
    assert_eq!(connect_decision(7, true), ConnectStep::StartSession(7));
}
