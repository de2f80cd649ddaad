use ws_tunnel::message::{Incoming, Message};
use ws_tunnel::server::{
    describe_worker_error, validate_path, Phase, Role, Session, SessionEvent, SessionNext,
    SessionStep, Signal,
};

fn text(text: &str) -> SessionEvent {
    SessionEvent::Frame(Incoming::Message(Message::Text(text.to_string())))
}

fn frame(message: Message) -> SessionEvent {
    SessionEvent::Frame(Incoming::Message(message))
}

fn failure(step: SessionStep) -> String {
    match step.next {
        SessionNext::Fail(error) => error,
        other => panic!("{other:?}"),
    }
}

fn sent_text(step: &SessionStep) -> (&str, bool) {
    match &step.sends[..] {
        [out] => match &out.message {
            Message::Text(text) => (text, out.required),
            other => panic!("{other:?}"),
        },
        other => panic!("{other:?}"),
    }
}

fn session() -> Session {
    Session::new("secret", 10)
}

fn idle() -> Session {
    let mut session = session();
    session.step(text("HELLO secret 7000"));
    session.step(SessionEvent::Mapped);
    session.step(SessionEvent::Joined);
    assert_eq!(session.phase(), Phase::Idle(7000));
    session
}

fn starting() -> Session {
    let mut session = idle();
    session.step(SessionEvent::Assigned);
    assert_eq!(session.phase(), Phase::Starting(7000));
    session
}

fn serving() -> Session {
    let mut session = session();
    session.step(text("CONTROL secret 7000"));
    session.step(SessionEvent::Mapped);
    assert_eq!(session.phase(), Phase::Control(7000));
    session
}

#[test]
fn a_worker_goes_through_the_whole_handshake() {
    let mut session = session();
    assert!(matches!(session.waiting(), SessionNext::ReceiveWithin(10)));

    let step = session.step(text("HELLO secret 7000"));
    assert!(step.sends.is_empty());
    assert!(matches!(step.next, SessionNext::OpenMapping(7000)));
    assert_eq!(session.phase(), Phase::Mapping(Role::Worker, 7000));

    assert!(matches!(session.step(SessionEvent::Mapped).next, SessionNext::Join));
    assert!(matches!(session.step(SessionEvent::Joined).next, SessionNext::AwaitAssignment));

    let step = session.step(SessionEvent::Assigned);
    assert_eq!(sent_text(&step), ("START", true));
    assert!(matches!(step.next, SessionNext::ReceiveWithin(10)));

    let step = session.step(text("OK"));
    assert!(step.sends.is_empty());
    assert!(matches!(step.next, SessionNext::Bridge(None)));
    assert_eq!(session.phase(), Phase::Bridging(7000));
}

#[test]
fn a_control_connection_asks_for_workers() {
    let mut session = session();
    let step = session.step(text("CONTROL secret 7000"));
    assert!(matches!(step.next, SessionNext::OpenMapping(7000)));
    assert_eq!(session.phase(), Phase::Mapping(Role::Control, 7000));
    assert!(matches!(session.step(SessionEvent::Mapped).next, SessionNext::ServeControl));
    for signal in [Signal::Connect, Signal::Lagged] {
        let step = session.step(SessionEvent::Notified(signal));
        assert_eq!(sent_text(&step), ("CONNECT", true));
        assert!(matches!(step.next, SessionNext::ServeControl));
    }
    let step = session.step(SessionEvent::Notified(Signal::Closed));
    assert_eq!(failure(step), "control notification channel closed");
}

#[test]
fn a_wrong_token_is_refused_with_an_error_frame() {
    for (frame, error) in [
        ("HELLO other 7000", "worker token mismatch"),
        ("CONTROL other 7000", "control token mismatch"),
        ("HELLO secre 7000", "worker token mismatch"),
    ] {
        let mut session = session();
        let step = session.step(text(frame));
        assert_eq!(sent_text(&step), ("ERR invalid token", false));
        assert_eq!(failure(step), error);
        assert_eq!(session.phase(), Phase::Closed);
    }
}

#[test]
fn only_a_hello_or_control_frame_comes_first() {
    let non_text = "first worker frame must be text HELLO";
    for (event, error) in [
        (text("HELLO secret"), "invalid HELLO frame"),
        (text("OK"), "invalid HELLO frame"),
        (frame(Message::Binary(vec![1])), non_text),
        (frame(Message::Ping(vec![])), non_text),
        (frame(Message::Close(None)), non_text),
        (SessionEvent::Frame(Incoming::RawFrame), non_text),
        (SessionEvent::Frame(Incoming::Failed("reset".to_string())), "reset"),
        (SessionEvent::Frame(Incoming::Ended), "worker closed before authentication frame"),
        (SessionEvent::TimedOut("deadline".to_string()), "deadline"),
    ] {
        let mut session = session();
        let step = session.step(event);
        assert!(step.sends.is_empty());
        assert_eq!(failure(step), error);
    }
}

#[test]
fn a_mapping_or_queue_that_fails_ends_the_session() {
    let mut worker = session();
    worker.step(text("HELLO secret 7000"));
    assert_eq!(failure(worker.step(SessionEvent::MappingFailed("in use".to_string()))), "in use");

    let mut worker = session();
    worker.step(text("HELLO secret 7000"));
    worker.step(SessionEvent::Mapped);
    assert_eq!(failure(worker.step(SessionEvent::JoinFailed("gone".to_string()))), "gone");
}

#[test]
fn an_idle_worker_may_only_ping_and_pong() {
    let mut worker = idle();
    let step = worker.step(frame(Message::Ping(vec![4, 2])));
    match &step.sends[..] {
        [out] => {
            assert!(out.required);
            assert!(matches!(&out.message, Message::Pong(data) if data == &vec![4, 2]));
        }
        other => panic!("{other:?}"),
    }
    assert!(matches!(step.next, SessionNext::AwaitAssignment));
    let step = worker.step(frame(Message::Pong(vec![])));
    assert!(step.sends.is_empty());
    assert!(matches!(step.next, SessionNext::AwaitAssignment));

    for (event, error) in [
        (frame(Message::Close(None)), "worker closed before assignment"),
        (text("OK"), "unexpected text command before assignment: OK"),
        (frame(Message::Binary(vec![])), "unexpected binary frame before assignment"),
        (SessionEvent::Frame(Incoming::RawFrame), "unexpected binary frame before assignment"),
        (SessionEvent::Frame(Incoming::Failed("reset".to_string())), "reset"),
        (SessionEvent::Frame(Incoming::Ended), "worker disconnected before assignment"),
        (SessionEvent::AssignmentLost("channel closed".to_string()), "channel closed"),
    ] {
        assert_eq!(failure(idle().step(event)), error);
    }
}

#[test]
fn only_ok_confirms_a_start() {
    let non_text = "unexpected non-text worker response";
    for (event, error) in [
        (text("ERR refused"), "client failed to open local target: refused"),
        (text("ok"), "unexpected worker response: ok"),
        (frame(Message::Ping(vec![])), non_text),
        (frame(Message::Close(None)), non_text),
        (SessionEvent::Frame(Incoming::RawFrame), non_text),
        (SessionEvent::Frame(Incoming::Failed("reset".to_string())), "reset"),
        (SessionEvent::Frame(Incoming::Ended), "worker closed before START confirmation"),
        (SessionEvent::TimedOut("deadline".to_string()), "deadline"),
    ] {
        let mut worker = starting();
        assert_eq!(failure(worker.step(event)), error);
        assert_eq!(worker.phase(), Phase::Closed);
    }
}

#[test]
fn a_control_connection_may_only_ping_and_pong() {
    let mut control = serving();
    let step = control.step(frame(Message::Ping(vec![1])));
    assert_eq!(step.sends.len(), 1);
    assert!(matches!(&step.sends[0].message, Message::Pong(data) if data == &vec![1]));
    assert!(control.step(frame(Message::Pong(vec![]))).sends.is_empty());
    assert_eq!(control.phase(), Phase::Control(7000));

    for (event, error) in [
        (frame(Message::Close(None)), "control connection closed"),
        (text("OK"), "unexpected control text frame: OK"),
        (frame(Message::Binary(vec![])), "unexpected control data frame"),
        (SessionEvent::Frame(Incoming::RawFrame), "unexpected control data frame"),
        (SessionEvent::Frame(Incoming::Failed("reset".to_string())), "reset"),
        (SessionEvent::Frame(Incoming::Ended), "control connection disconnected"),
    ] {
        assert_eq!(failure(serving().step(event)), error);
    }
}

#[test]
fn a_closed_session_stays_closed() {
    let mut session = session();
    session.step(text("nonsense"));
    let step = session.step(text("HELLO secret 7000"));
    assert!(step.sends.is_empty());
    assert!(matches!(step.next, SessionNext::Over));
    assert_eq!(session.phase(), Phase::Closed);
}

#[test]
fn a_token_that_is_no_word_lets_nobody_in() {
    for token in ["", "two words"] {
        let mut session = Session::new(token, 1);
        let step = session.step(text(&format!("HELLO {token} 7000")));
        assert_eq!(failure(step), "invalid HELLO frame");
    }
}

#[test]
fn only_the_expected_path_is_let_through() {
    assert!(validate_path("/tunnel", "/tunnel").is_ok());
    for path in ["/", "/tunnel/", "/Tunnel", ""] {
        match validate_path(path, "/tunnel") {
            Err(rejection) => {
                assert_eq!(rejection.status, 404);
                assert_eq!(rejection.body, "not found");
            }
            Ok(()) => panic!("{path} was let through"),
        }
    }
}

#[test]
fn worker_errors_are_described() {
    let auth = "worker authentication failed because the provided token did not match the server token";
    let early = "worker disconnected before sending a valid authentication frame";
    for (error, report) in [
        (
            "WebSocket protocol error: Connection reset without closing handshake",
            "websocket peer reset the connection without a closing handshake; this usually means the reverse proxy or network dropped an idle or unstable connection",
        ),
        (
            "IO error: Connection reset by peer (os error 104)",
            "tcp peer reset the connection; this usually means the client, reverse proxy, or network closed the socket abruptly",
        ),
        ("worker token mismatch", auth),
        ("control token mismatch", auth),
        ("got invalid token", auth),
        ("worker closed before assignment", early),
        ("first worker frame must be text HELLO", early),
        ("anything else", "anything else"),
        ("", ""),
    ] {
        assert_eq!(describe_worker_error(error), report);
    }
}
