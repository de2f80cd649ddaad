use ws_tunnel::client::{
    control_step, handle_control_message, heartbeat_duration, ControlCommand, ControlEvent,
    ControlNext, DataWorker, WorkerEvent, WorkerNext, WorkerPhase, WorkerStep,
};
use ws_tunnel::config::{ClientConfig, ClientSettings};
use ws_tunnel::message::{Incoming, Message, Outgoing};
use ws_tunnel::server::{Phase, Session, SessionEvent, SessionNext};

fn config(heartbeat_interval_secs: u64) -> ClientConfig {
    ClientConfig::from_settings(ClientSettings {
        server_url: "wss://tunnel.example.com/tunnel".to_string(),
        connect_host: None,
        token: "secret".to_string(),
        remote_port: 7000,
        local_addr: "127.0.0.1:22".to_string(),
        worker_pool_size: None,
        max_total_workers: None,
        reconnect_delay_secs: None,
        connect_timeout_secs: None,
        heartbeat_interval_secs: Some(heartbeat_interval_secs),
    })
}

fn text(text: &str) -> Incoming {
    Incoming::Message(Message::Text(text.to_string()))
}

fn sent_text(sends: &[Outgoing]) -> (&str, bool) {
    match sends {
        [Outgoing { message: Message::Text(text), required }] => (text, *required),
        other => panic!("{other:?}"),
    }
}

fn failure(step: WorkerStep) -> String {
    match step.next {
        WorkerNext::Fail(error) => error,
        other => panic!("{other:?}"),
    }
}

fn awaiting() -> DataWorker {
    let mut worker = DataWorker::new(&config(20));
    worker.step(WorkerEvent::Opened);
    worker
}

fn dialing() -> DataWorker {
    let mut worker = awaiting();
    worker.step(WorkerEvent::Frame(text("START")));
    assert_eq!(worker.phase(), WorkerPhase::Dialing);
    worker
}

#[test]
fn a_zero_interval_turns_heartbeats_off() {
    assert_eq!(heartbeat_duration(0), None);
    assert_eq!(heartbeat_duration(20), Some(20));
    let step = control_step(&config(0), ControlEvent::Silence(100));
    assert!(step.sends.is_empty());
    let step = control_step(&config(20), ControlEvent::Silence(19));
    assert!(step.sends.is_empty());
    assert!(matches!(step.next, ControlNext::Wait));
    let step = control_step(&config(20), ControlEvent::Silence(20));
    match &step.sends[..] {
        [Outgoing { message: Message::Ping(data), required: true }] => assert!(data.is_empty()),
        other => panic!("{other:?}"),
    }
    assert!(matches!(step.next, ControlNext::Wait));
    assert_eq!(step.heartbeat, Some(20));
    assert_eq!(control_step(&config(0), ControlEvent::Opened).heartbeat, None);
}

#[test]
fn a_control_connection_presents_itself_and_fills_the_pool() {
    let step = control_step(&config(20), ControlEvent::Opened);
    assert_eq!(sent_text(&step.sends), ("CONTROL secret 7000", true));
    assert!(matches!(step.next, ControlNext::SpawnWorkers(8)));
    let mut small = config(20);
    small.worker_pool_size = 3;
    let step = control_step(&small, ControlEvent::Opened);
    assert!(matches!(step.next, ControlNext::SpawnWorkers(3)));
}

#[test]
fn connect_starts_a_worker() {
    let step = control_step(&config(20), ControlEvent::Frame(text("CONNECT")));
    assert!(step.sends.is_empty());
    assert!(matches!(step.next, ControlNext::SpawnWorker));
    let step = control_step(&config(20), ControlEvent::Frame(Incoming::Ended));
    match step.next {
        ControlNext::Fail(error) => assert_eq!(error, "server closed control connection"),
        other => panic!("{other:?}"),
    }
}

#[test]
fn control_messages_are_read() {
    let non_text = "unexpected non-text control command from server";
    let closed = "server closed control connection";
    assert_eq!(handle_control_message(text("CONNECT")), Ok(ControlCommand::Connect));
    for quiet in [Message::Ping(vec![1]), Message::Pong(vec![1])] {
        let read = handle_control_message(Incoming::Message(quiet));
        assert_eq!(read, Ok(ControlCommand::Ignore));
    }
    for (incoming, error) in [
        (text("ERR invalid token"), "server rejected control connection: invalid token"),
        (text("connect"), "unexpected control command from server: connect"),
        (Incoming::Message(Message::Close(None)), closed),
        (Incoming::Message(Message::Binary(vec![])), non_text),
        (Incoming::RawFrame, non_text),
        (Incoming::Failed("reset".to_string()), "reset"),
        (Incoming::Ended, closed),
    ] {
        assert_eq!(handle_control_message(incoming), Err(error.to_string()));
    }
}

#[test]
fn a_worker_opens_its_target_and_confirms() {
    let mut worker = DataWorker::new(&config(20));
    assert!(matches!(worker.waiting(), WorkerNext::Open));
    let step = worker.step(WorkerEvent::Opened);
    assert_eq!(sent_text(&step.sends), ("HELLO secret 7000", true));
    assert!(matches!(step.next, WorkerNext::Receive));
    let step = worker.step(WorkerEvent::Frame(text("START")));
    assert!(step.sends.is_empty());
    match step.next {
        WorkerNext::DialLocal { address, secs } => {
            assert_eq!((address.as_str(), secs), ("127.0.0.1:22", 10));
        }
        other => panic!("{other:?}"),
    }
    let step = worker.step(WorkerEvent::LocalConnected);
    assert_eq!(sent_text(&step.sends), ("OK", true));
    assert!(matches!(step.next, WorkerNext::Bridge(Some(20))));
}

#[test]
fn a_worker_relays_without_heartbeats_where_they_are_off() {
    let mut worker = DataWorker::new(&config(0));
    worker.step(WorkerEvent::Opened);
    worker.step(WorkerEvent::Frame(text("START")));
    let step = worker.step(WorkerEvent::LocalConnected);
    assert!(matches!(step.next, WorkerNext::Bridge(None)));
}

#[test]
fn only_start_makes_a_worker_dial() {
    let non_text = "unexpected non-text command from server";
    for (incoming, error) in [
        (text("ERR invalid token"), "server rejected worker: invalid token"),
        (text("GO"), "unexpected text command from server: GO"),
        (Incoming::Message(Message::Close(None)), "server closed worker before START"),
        (Incoming::Message(Message::Ping(vec![])), non_text),
        (Incoming::RawFrame, non_text),
        (Incoming::Failed("reset".to_string()), "reset"),
        (Incoming::Ended, "server closed worker"),
    ] {
        let mut worker = awaiting();
        let step = worker.step(WorkerEvent::Frame(incoming));
        assert!(step.sends.is_empty());
        assert_eq!(failure(step), error);
        assert_eq!(worker.phase(), WorkerPhase::Closed);
    }
}

#[test]
fn a_target_that_does_not_open_is_reported() {
    let step = dialing().step(WorkerEvent::LocalFailed("refused".to_string()));
    assert_eq!(sent_text(&step.sends), ("ERR refused", false));
    assert_eq!(failure(step), "refused");

    let step = dialing().step(WorkerEvent::LocalTimedOut);
    assert_eq!(sent_text(&step.sends), ("ERR local connect timeout", false));
    assert_eq!(
        failure(step),
        "timed out opening local target 127.0.0.1:22; check whether the local service is reachable"
    );

    let step = dialing().step(WorkerEvent::LocalSetupFailed("bad".to_string()));
    assert!(step.sends.is_empty());
    assert_eq!(failure(step), "bad");
}

#[test]
fn events_out_of_turn_change_nothing() {
    let mut worker = awaiting();
    let step = worker.step(WorkerEvent::LocalConnected);
    assert!(step.sends.is_empty());
    assert!(matches!(step.next, WorkerNext::Receive));
    assert_eq!(worker.phase(), WorkerPhase::AwaitingStart);
}

fn only(mut sends: Vec<Outgoing>) -> Incoming {
    assert_eq!(sends.len(), 1);
    Incoming::Message(sends.remove(0).message)
}

#[test]
fn client_and_server_complete_a_handshake() {
    let mut worker = DataWorker::new(&config(20));
    let mut session = Session::new("secret", 10);
    let hello = worker.step(WorkerEvent::Opened);
    session.step(SessionEvent::Frame(only(hello.sends)));
    session.step(SessionEvent::Mapped);
    session.step(SessionEvent::Joined);
    let start = session.step(SessionEvent::Assigned);
    worker.step(WorkerEvent::Frame(only(start.sends)));
    let ok = worker.step(WorkerEvent::LocalConnected);
    let joined = session.step(SessionEvent::Frame(only(ok.sends)));
    assert!(matches!(joined.next, SessionNext::Bridge(None)));
    assert_eq!(session.phase(), Phase::Bridging(7000));
    assert_eq!(worker.phase(), WorkerPhase::Bridging);
}

#[test]
fn a_refusal_and_a_local_failure_reach_the_other_side() {
    let mut worker = DataWorker::new(&config(20));
    let mut session = Session::new("another", 10);
    let hello = worker.step(WorkerEvent::Opened);
    let refusal = session.step(SessionEvent::Frame(only(hello.sends)));
    let told = worker.step(WorkerEvent::Frame(only(refusal.sends)));
    assert_eq!(failure(told), "server rejected worker: invalid token");

    let mut session = Session::new("secret", 10);
    session.step(SessionEvent::Frame(text("HELLO secret 7000")));
    session.step(SessionEvent::Mapped);
    session.step(SessionEvent::Joined);
    session.step(SessionEvent::Assigned);
    let failed = dialing().step(WorkerEvent::LocalFailed("refused".to_string()));
    match session.step(SessionEvent::Frame(only(failed.sends))).next {
        SessionNext::Fail(error) => {
            assert_eq!(error, "client failed to open local target: refused");
        }
        other => panic!("{other:?}"),
    }
}
