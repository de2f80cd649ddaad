//! The server's side of a connection: authentication, the wait of a worker
//! for a remote client, and the control connection.
//!
//! A session is driven by events. Each of them is answered by messages to
//! send, in order, and by what to do next; a message that must be sent and
//! cannot be ends the session with that error.

use vstd::prelude::*;

use crate::message::{
    just, law_views_show_all_messages, must_send, nothing, outgoing_views, try_send, Incoming,
    IncomingView, Message, MessageView, Outgoing, OutgoingView,
};
use crate::protocol::{
    connect, control_fields, control_text, err, err_report, err_text, hello_fields, hello_text,
    law_control_reads_back, law_err_reads_back, law_frames_are_distinct, law_hello_reads_back,
    law_named_token_is_a_word, parse_control, parse_err, parse_hello, start, CMD_CONNECT, CMD_OK,
    CMD_START,
};
use crate::text::{contains, occurs, occurs_at, same_text, unspaced};

verus! {

/// What a connection presents itself as.
#[derive(Clone, Copy, Debug, PartialEq, Eq)]
pub enum Role {
    Worker,
    Control,
}

/// How far a session has come.
#[derive(Clone, Copy, Debug, PartialEq, Eq)]
pub enum Phase {
    /// The first frame has to come.
    AwaitingHello,
    /// Authenticated; the mapping of its port has to be there.
    Mapping(Role, u16),
    /// A worker, about to join the idle workers of its port.
    Joining(u16),
    /// An idle worker, waiting for a remote client.
    Idle(u16),
    /// A worker with a remote client, told to open its local target.
    Starting(u16),
    /// A worker whose two ends are joined.
    Bridging(u16),
    /// A control connection, passing on requests for workers.
    Control(u16),
    /// Over.
    Closed,
}

/// A notification of the control channel.
#[derive(Clone, Copy, Debug, PartialEq, Eq)]
pub enum Signal {
    /// A worker is wanted.
    Connect,
    /// Several notifications were missed.
    Lagged,
    /// There will be none any more.
    Closed,
}

/// What can happen to a session.
#[derive(Debug)]
pub enum SessionEvent {
    /// The WebSocket brought something.
    Frame(Incoming),
    /// The handshake timeout passed.
    TimedOut(String),
    /// The mapping of the session's port is there.
    Mapped,
    /// The mapping of the session's port could not be opened.
    MappingFailed(String),
    /// The worker joined the idle workers.
    Joined,
    /// The idle workers could not be joined.
    JoinFailed(String),
    /// A remote client was assigned to the worker.
    Assigned,
    /// The worker was given up before a remote client was assigned.
    AssignmentLost(String),
    /// The control channel notified.
    Notified(Signal),
}

/// What a session does next.
#[derive(Debug)]
pub enum SessionNext {
    /// Wait this many seconds for a frame.
    ReceiveWithin(u64),
    /// Make sure that this port is mapped.
    OpenMapping(u16),
    /// Join the idle workers of the port.
    Join,
    /// Wait for a remote client or a frame.
    AwaitAssignment,
    /// Wait for a notification or a frame.
    ServeControl,
    /// Relay between the WebSocket and the remote client, with a heartbeat
    /// every so many seconds, or without.
    Bridge(Option<u64>),
    /// Nothing: the session was over already.
    Over,
    /// End with an error.
    Fail(String),
}

/// The answer to one event.
#[derive(Debug)]
pub struct SessionStep {
    pub sends: Vec<Outgoing>,
    pub next: SessionNext,
}

/// The server's side of one connection.
#[derive(Debug)]
pub struct Session {
    token: String,
    handshake_timeout_secs: u64,
    phase: Phase,
}

/// An event, as mathematical values.
pub enum SessionEventView {
    Frame(IncomingView),
    TimedOut(Seq<char>),
    Mapped,
    MappingFailed(Seq<char>),
    Joined,
    JoinFailed(Seq<char>),
    Assigned,
    AssignmentLost(Seq<char>),
    Notified(Signal),
}

/// What a session does next, as mathematical values.
pub enum SessionNextView {
    ReceiveWithin(u64),
    OpenMapping(u16),
    Join,
    AwaitAssignment,
    ServeControl,
    Bridge(Option<u64>),
    Over,
    Fail(Seq<char>),
}

/// A session, as mathematical values.
pub struct SessionView {
    pub token: Seq<char>,
    pub handshake_timeout_secs: u64,
    pub phase: Phase,
}

/// The answer to one event, as mathematical values: the phase that follows,
/// the messages to send and what to do next.
pub struct SessionAnswer {
    pub phase: Phase,
    pub sends: Seq<OutgoingView>,
    pub next: SessionNextView,
}

impl View for SessionEvent {
    type V = SessionEventView;

    open spec fn view(&self) -> SessionEventView {
        match self {
            SessionEvent::Frame(incoming) => SessionEventView::Frame(incoming@),
            SessionEvent::TimedOut(error) => SessionEventView::TimedOut(error@),
            SessionEvent::Mapped => SessionEventView::Mapped,
            SessionEvent::MappingFailed(error) => SessionEventView::MappingFailed(error@),
            SessionEvent::Joined => SessionEventView::Joined,
            SessionEvent::JoinFailed(error) => SessionEventView::JoinFailed(error@),
            SessionEvent::Assigned => SessionEventView::Assigned,
            SessionEvent::AssignmentLost(error) => SessionEventView::AssignmentLost(error@),
            SessionEvent::Notified(signal) => SessionEventView::Notified(*signal),
        }
    }
}

impl View for SessionNext {
    type V = SessionNextView;

    open spec fn view(&self) -> SessionNextView {
        match self {
            SessionNext::ReceiveWithin(secs) => SessionNextView::ReceiveWithin(*secs),
            SessionNext::OpenMapping(port) => SessionNextView::OpenMapping(*port),
            SessionNext::Join => SessionNextView::Join,
            SessionNext::AwaitAssignment => SessionNextView::AwaitAssignment,
            SessionNext::ServeControl => SessionNextView::ServeControl,
            SessionNext::Bridge(interval) => SessionNextView::Bridge(*interval),
            SessionNext::Over => SessionNextView::Over,
            SessionNext::Fail(error) => SessionNextView::Fail(error@),
        }
    }
}

impl View for Session {
    type V = SessionView;

    closed spec fn view(&self) -> SessionView {
        SessionView {
            token: self.token@,
            handshake_timeout_secs: self.handshake_timeout_secs,
            phase: self.phase,
        }
    }
}

/// Reaches `phase`, sends nothing, and waits as that phase does.
pub open spec fn reaches(timeout: u64, phase: Phase) -> SessionAnswer {
    replies(timeout, phase, Seq::empty())
}

/// Reaches `phase`, sends `sends`, and waits as that phase does.
pub open spec fn replies(timeout: u64, phase: Phase, sends: Seq<OutgoingView>) -> SessionAnswer {
    SessionAnswer { phase, sends, next: waits_for(timeout, phase) }
}

/// Ends with an error, sending nothing.
pub open spec fn fails(error: Seq<char>) -> SessionAnswer {
    SessionAnswer {
        phase: Phase::Closed,
        sends: Seq::empty(),
        next: SessionNextView::Fail(error),
    }
}

/// Ends with an error, after telling the peer that its token is wrong.
pub open spec fn refuses_token(error: Seq<char>) -> SessionAnswer {
    SessionAnswer {
        phase: Phase::Closed,
        sends: seq![try_send(MessageView::Text(err_text("invalid token"@)))],
        next: SessionNextView::Fail(error),
    }
}

/// What a session in `phase` does next. The server relays without heartbeats:
/// they are the client's.
pub open spec fn waits_for(timeout: u64, phase: Phase) -> SessionNextView {
    match phase {
        Phase::AwaitingHello => SessionNextView::ReceiveWithin(timeout),
        Phase::Mapping(_, port) => SessionNextView::OpenMapping(port),
        Phase::Joining(_) => SessionNextView::Join,
        Phase::Idle(_) => SessionNextView::AwaitAssignment,
        Phase::Starting(_) => SessionNextView::ReceiveWithin(timeout),
        Phase::Bridging(_) => SessionNextView::Bridge(None),
        Phase::Control(_) => SessionNextView::ServeControl,
        Phase::Closed => SessionNextView::Over,
    }
}

/// How the first frame is answered: a CONTROL or HELLO frame with the right
/// token gets its port mapped.
pub open spec fn on_first_frame(
    token: Seq<char>,
    timeout: u64,
    incoming: IncomingView,
) -> SessionAnswer {
    match incoming {
        IncomingView::Message(MessageView::Text(text)) => match control_fields(text) {
            Some((given, port)) => if given == token {
                reaches(timeout, Phase::Mapping(Role::Control, port))
            } else {
                refuses_token("control token mismatch"@)
            },
            None => match hello_fields(text) {
                Some((given, port)) => if given == token {
                    reaches(timeout, Phase::Mapping(Role::Worker, port))
                } else {
                    refuses_token("worker token mismatch"@)
                },
                None => fails("invalid HELLO frame"@),
            },
        },
        IncomingView::Message(_) => fails("first worker frame must be text HELLO"@),
        IncomingView::RawFrame => fails("first worker frame must be text HELLO"@),
        IncomingView::Failed(error) => fails(error),
        IncomingView::Ended => fails("worker closed before authentication frame"@),
    }
}

/// How a frame of an idle worker is answered: it may only ping and pong.
pub open spec fn on_idle_frame(timeout: u64, port: u16, incoming: IncomingView) -> SessionAnswer {
    match incoming {
        IncomingView::Message(MessageView::Ping(data)) => replies(
            timeout,
            Phase::Idle(port),
            seq![must_send(MessageView::Pong(data))],
        ),
        IncomingView::Message(MessageView::Pong(_)) => reaches(timeout, Phase::Idle(port)),
        IncomingView::Message(MessageView::Close(_)) => fails("worker closed before assignment"@),
        IncomingView::Message(MessageView::Text(text)) => fails(
            "unexpected text command before assignment: "@ + text,
        ),
        IncomingView::Message(MessageView::Binary(_)) => fails(
            "unexpected binary frame before assignment"@,
        ),
        IncomingView::RawFrame => fails("unexpected binary frame before assignment"@),
        IncomingView::Failed(error) => fails(error),
        IncomingView::Ended => fails("worker disconnected before assignment"@),
    }
}

/// How the reply to START is answered: only OK joins the two ends.
pub open spec fn on_ready_frame(timeout: u64, port: u16, incoming: IncomingView) -> SessionAnswer {
    match incoming {
        IncomingView::Message(MessageView::Text(text)) => if text == CMD_OK@ {
            reaches(timeout, Phase::Bridging(port))
        } else {
            match err_report(text) {
                Some(report) => fails("client failed to open local target: "@ + report),
                None => fails("unexpected worker response: "@ + text),
            }
        },
        IncomingView::Message(_) => fails("unexpected non-text worker response"@),
        IncomingView::RawFrame => fails("unexpected non-text worker response"@),
        IncomingView::Failed(error) => fails(error),
        IncomingView::Ended => fails("worker closed before START confirmation"@),
    }
}

/// How a frame of a control connection is answered: it may only ping and
/// pong.
pub open spec fn on_control_frame(timeout: u64, port: u16, incoming: IncomingView) -> SessionAnswer {
    match incoming {
        IncomingView::Message(MessageView::Ping(data)) => replies(
            timeout,
            Phase::Control(port),
            seq![must_send(MessageView::Pong(data))],
        ),
        IncomingView::Message(MessageView::Pong(_)) => reaches(timeout, Phase::Control(port)),
        IncomingView::Message(MessageView::Close(_)) => fails("control connection closed"@),
        IncomingView::Message(MessageView::Text(text)) => fails(
            "unexpected control text frame: "@ + text,
        ),
        IncomingView::Message(MessageView::Binary(_)) => fails("unexpected control data frame"@),
        IncomingView::RawFrame => fails("unexpected control data frame"@),
        IncomingView::Failed(error) => fails(error),
        IncomingView::Ended => fails("control connection disconnected"@),
    }
}

/// How a session answers an event. One that its phase does not wait for
/// changes nothing.
pub open spec fn session_answer(session: SessionView, event: SessionEventView) -> SessionAnswer {
    let timeout = session.handshake_timeout_secs;
    match (session.phase, event) {
        (Phase::AwaitingHello, SessionEventView::Frame(incoming)) => on_first_frame(
            session.token,
            timeout,
            incoming,
        ),
        (Phase::AwaitingHello, SessionEventView::TimedOut(error)) => fails(error),
        (Phase::Mapping(Role::Worker, port), SessionEventView::Mapped) => reaches(
            timeout,
            Phase::Joining(port),
        ),
        (Phase::Mapping(Role::Control, port), SessionEventView::Mapped) => reaches(
            timeout,
            Phase::Control(port),
        ),
        (Phase::Mapping(_, _), SessionEventView::MappingFailed(error)) => fails(error),
        (Phase::Joining(port), SessionEventView::Joined) => reaches(timeout, Phase::Idle(port)),
        (Phase::Joining(_), SessionEventView::JoinFailed(error)) => fails(error),
        (Phase::Idle(port), SessionEventView::Assigned) => replies(
            timeout,
            Phase::Starting(port),
            seq![must_send(MessageView::Text(CMD_START@))],
        ),
        (Phase::Idle(_), SessionEventView::AssignmentLost(error)) => fails(error),
        (Phase::Idle(port), SessionEventView::Frame(incoming)) => on_idle_frame(
            timeout,
            port,
            incoming,
        ),
        (Phase::Starting(port), SessionEventView::Frame(incoming)) => on_ready_frame(
            timeout,
            port,
            incoming,
        ),
        (Phase::Starting(_), SessionEventView::TimedOut(error)) => fails(error),
        (Phase::Control(port), SessionEventView::Notified(Signal::Closed)) => fails(
            "control notification channel closed"@,
        ),
        (Phase::Control(port), SessionEventView::Notified(_)) => replies(
            timeout,
            Phase::Control(port),
            seq![must_send(MessageView::Text(CMD_CONNECT@))],
        ),
        (Phase::Control(port), SessionEventView::Frame(incoming)) => on_control_frame(
            timeout,
            port,
            incoming,
        ),
        (phase, _) => reaches(timeout, phase),
    }
}

/// The step and the phase that `answer` describes.
pub open spec fn answers(phase: Phase, step: SessionStep, answer: SessionAnswer) -> bool {
    &&& phase == answer.phase
    &&& outgoing_views(step.sends@) == answer.sends
    &&& step.next@ == answer.next
}

impl Session {
    /// The session of a connection whose WebSocket handshake is done.
    pub fn new(token: &str, handshake_timeout_secs: u64) -> (session: Session)
        ensures
            session@ == (SessionView {
                token: token@,
                handshake_timeout_secs,
                phase: Phase::AwaitingHello,
            }),
    {
        Session { token: token.to_owned(), handshake_timeout_secs, phase: Phase::AwaitingHello }
    }

    /// How far the session has come.
    pub fn phase(&self) -> (phase: Phase)
        ensures
            phase == self@.phase,
    {
        self.phase
    }

    /// What the session does next.
    pub fn waiting(&self) -> (next: SessionNext)
        ensures
            next@ == waits_for(self@.handshake_timeout_secs, self@.phase),
            self@.phase is AwaitingHello || self@.phase is Starting ==> next
                == SessionNext::ReceiveWithin(self@.handshake_timeout_secs),
    {
        match self.phase {
            Phase::AwaitingHello => SessionNext::ReceiveWithin(self.handshake_timeout_secs),
            Phase::Mapping(_, port) => SessionNext::OpenMapping(port),
            Phase::Joining(_) => SessionNext::Join,
            Phase::Idle(_) => SessionNext::AwaitAssignment,
            Phase::Starting(_) => SessionNext::ReceiveWithin(self.handshake_timeout_secs),
            Phase::Bridging(_) => SessionNext::Bridge(None),
            Phase::Control(_) => SessionNext::ServeControl,
            Phase::Closed => SessionNext::Over,
        }
    }

    /// Answers one event.
    pub fn step(&mut self, event: SessionEvent) -> (step: SessionStep)
        ensures
            final(self)@.token == old(self)@.token,
            final(self)@.handshake_timeout_secs == old(self)@.handshake_timeout_secs,
            answers(final(self)@.phase, step, session_answer(old(self)@, event@)),
    {
        match (self.phase, event) {
            (Phase::AwaitingHello, SessionEvent::Frame(incoming)) => self.first_frame(incoming),
            (Phase::AwaitingHello, SessionEvent::TimedOut(error)) => self.fail(error),
            (Phase::Mapping(Role::Worker, port), SessionEvent::Mapped) => {
                self.reach(Phase::Joining(port), nothing())
            },
            (Phase::Mapping(Role::Control, port), SessionEvent::Mapped) => {
                self.reach(Phase::Control(port), nothing())
            },
            (Phase::Mapping(_, _), SessionEvent::MappingFailed(error)) => self.fail(error),
            (Phase::Joining(port), SessionEvent::Joined) => {
                self.reach(Phase::Idle(port), nothing())
            },
            (Phase::Joining(_), SessionEvent::JoinFailed(error)) => self.fail(error),
            (Phase::Idle(port), SessionEvent::Assigned) => {
                self.reach(Phase::Starting(port), just(start(), true))
            },
            (Phase::Idle(_), SessionEvent::AssignmentLost(error)) => self.fail(error),
            (Phase::Idle(port), SessionEvent::Frame(incoming)) => self.idle_frame(port, incoming),
            (Phase::Starting(port), SessionEvent::Frame(incoming)) => {
                self.ready_frame(port, incoming)
            },
            (Phase::Starting(_), SessionEvent::TimedOut(error)) => self.fail(error),
            (Phase::Control(_), SessionEvent::Notified(Signal::Closed)) => {
                self.fail("control notification channel closed".to_owned())
            },
            (Phase::Control(port), SessionEvent::Notified(_)) => {
                self.reach(Phase::Control(port), just(connect(), true))
            },
            (Phase::Control(port), SessionEvent::Frame(incoming)) => {
                self.control_frame(port, incoming)
            },
            (phase, _) => self.reach(phase, nothing()),
        }
    }

    fn reach(&mut self, phase: Phase, sends: Vec<Outgoing>) -> (step: SessionStep)
        ensures
            final(self)@.token == old(self)@.token,
            final(self)@.handshake_timeout_secs == old(self)@.handshake_timeout_secs,
            answers(
                final(self)@.phase,
                step,
                replies(old(self)@.handshake_timeout_secs, phase, outgoing_views(sends@)),
            ),
    {
        self.phase = phase;
        SessionStep { sends, next: self.waiting() }
    }

    fn fail(&mut self, error: String) -> (step: SessionStep)
        ensures
            final(self)@.token == old(self)@.token,
            final(self)@.handshake_timeout_secs == old(self)@.handshake_timeout_secs,
            answers(final(self)@.phase, step, fails(error@)),
    {
        self.phase = Phase::Closed;
        SessionStep { sends: nothing(), next: SessionNext::Fail(error) }
    }

    fn refuse_token(&mut self, error: String) -> (step: SessionStep)
        ensures
            final(self)@.token == old(self)@.token,
            final(self)@.handshake_timeout_secs == old(self)@.handshake_timeout_secs,
            answers(final(self)@.phase, step, refuses_token(error@)),
    {
        self.phase = Phase::Closed;
        SessionStep { sends: just(err("invalid token"), false), next: SessionNext::Fail(error) }
    }

    fn first_frame(&mut self, incoming: Incoming) -> (step: SessionStep)
        ensures
            final(self)@.token == old(self)@.token,
            final(self)@.handshake_timeout_secs == old(self)@.handshake_timeout_secs,
            answers(
                final(self)@.phase,
                step,
                on_first_frame(old(self)@.token, old(self)@.handshake_timeout_secs, incoming@),
            ),
    {
        match incoming {
            Incoming::Message(Message::Text(text)) => match parse_control(text.as_str()) {
                Some((given, port)) => {
                    if same_text(given, self.token.as_str()) {
                        self.reach(Phase::Mapping(Role::Control, port), nothing())
                    } else {
                        self.refuse_token("control token mismatch".to_owned())
                    }
                },
                None => match parse_hello(text.as_str()) {
                    Some((given, port)) => {
                        if same_text(given, self.token.as_str()) {
                            self.reach(Phase::Mapping(Role::Worker, port), nothing())
                        } else {
                            self.refuse_token("worker token mismatch".to_owned())
                        }
                    },
                    None => self.fail("invalid HELLO frame".to_owned()),
                },
            },
            Incoming::Message(_) => self.fail("first worker frame must be text HELLO".to_owned()),
            Incoming::RawFrame => self.fail("first worker frame must be text HELLO".to_owned()),
            Incoming::Failed(error) => self.fail(error),
            Incoming::Ended => self.fail("worker closed before authentication frame".to_owned()),
        }
    }

    fn idle_frame(&mut self, port: u16, incoming: Incoming) -> (step: SessionStep)
        ensures
            final(self)@.token == old(self)@.token,
            final(self)@.handshake_timeout_secs == old(self)@.handshake_timeout_secs,
            answers(
                final(self)@.phase,
                step,
                on_idle_frame(old(self)@.handshake_timeout_secs, port, incoming@),
            ),
    {
        match incoming {
            Incoming::Message(Message::Ping(data)) => {
                self.reach(Phase::Idle(port), just(Message::Pong(data), true))
            },
            Incoming::Message(Message::Pong(_)) => self.reach(Phase::Idle(port), nothing()),
            Incoming::Message(Message::Close(_)) => {
                self.fail("worker closed before assignment".to_owned())
            },
            Incoming::Message(Message::Text(text)) => {
                let mut error = "unexpected text command before assignment: ".to_owned();
                error.append(text.as_str());
                self.fail(error)
            },
            Incoming::Message(Message::Binary(_)) => {
                self.fail("unexpected binary frame before assignment".to_owned())
            },
            Incoming::RawFrame => self.fail("unexpected binary frame before assignment".to_owned()),
            Incoming::Failed(error) => self.fail(error),
            Incoming::Ended => self.fail("worker disconnected before assignment".to_owned()),
        }
    }

    fn ready_frame(&mut self, port: u16, incoming: Incoming) -> (step: SessionStep)
        ensures
            final(self)@.token == old(self)@.token,
            final(self)@.handshake_timeout_secs == old(self)@.handshake_timeout_secs,
            answers(
                final(self)@.phase,
                step,
                on_ready_frame(old(self)@.handshake_timeout_secs, port, incoming@),
            ),
    {
        match incoming {
            Incoming::Message(Message::Text(text)) => {
                if same_text(text.as_str(), CMD_OK) {
                    self.reach(Phase::Bridging(port), nothing())
                } else {
                    match parse_err(text.as_str()) {
                        Some(report) => {
                            let mut error = "client failed to open local target: ".to_owned();
                            error.append(report);
                            self.fail(error)
                        },
                        None => {
                            let mut error = "unexpected worker response: ".to_owned();
                            error.append(text.as_str());
                            self.fail(error)
                        },
                    }
                }
            },
            Incoming::Message(_) => self.fail("unexpected non-text worker response".to_owned()),
            Incoming::RawFrame => self.fail("unexpected non-text worker response".to_owned()),
            Incoming::Failed(error) => self.fail(error),
            Incoming::Ended => self.fail("worker closed before START confirmation".to_owned()),
        }
    }

    fn control_frame(&mut self, port: u16, incoming: Incoming) -> (step: SessionStep)
        ensures
            final(self)@.token == old(self)@.token,
            final(self)@.handshake_timeout_secs == old(self)@.handshake_timeout_secs,
            answers(
                final(self)@.phase,
                step,
                on_control_frame(old(self)@.handshake_timeout_secs, port, incoming@),
            ),
    {
        match incoming {
            Incoming::Message(Message::Ping(data)) => {
                self.reach(Phase::Control(port), just(Message::Pong(data), true))
            },
            Incoming::Message(Message::Pong(_)) => self.reach(Phase::Control(port), nothing()),
            Incoming::Message(Message::Close(_)) => {
                self.fail("control connection closed".to_owned())
            },
            Incoming::Message(Message::Text(text)) => {
                let mut error = "unexpected control text frame: ".to_owned();
                error.append(text.as_str());
                self.fail(error)
            },
            Incoming::Message(Message::Binary(_)) => {
                self.fail("unexpected control data frame".to_owned())
            },
            Incoming::RawFrame => self.fail("unexpected control data frame".to_owned()),
            Incoming::Failed(error) => self.fail(error),
            Incoming::Ended => self.fail("control connection disconnected".to_owned()),
        }
    }
}

/// Why an upgrade request is turned down: an HTTP status and a body.
#[derive(Debug)]
pub struct Rejection {
    pub status: u16,
    pub body: String,
}

/// Whether an upgrade request for `path` is let through: only the path that
/// the server expects is, and any other one is not found.
pub fn validate_path(path: &str, expected_path: &str) -> (verdict: Result<(), Rejection>)
    ensures
        match verdict {
            Ok(()) => path@ == expected_path@,
            Err(rejection) => path@ != expected_path@ && rejection.status == 404
                && rejection.body@ == "not found"@,
        },
{
    if same_text(path, expected_path) {
        Ok(())
    } else {
        Err(Rejection { status: 404, body: "not found".to_owned() })
    }
}

/// What the operator reads of a session that ended with `error`.
pub open spec fn worker_error_report(error: Seq<char>) -> Seq<char> {
    if occurs(error, "Connection reset without closing handshake"@) {
        "websocket peer reset the connection without a closing handshake; this usually means the reverse proxy or network dropped an idle or unstable connection"@
    } else if occurs(error, "Connection reset by peer"@) {
        "tcp peer reset the connection; this usually means the client, reverse proxy, or network closed the socket abruptly"@
    } else if occurs(error, "invalid token"@) || occurs(error, "token mismatch"@) {
        "worker authentication failed because the provided token did not match the server token"@
    } else if occurs(error, "worker closed before"@) || occurs(
        error,
        "first worker frame must be text HELLO"@,
    ) {
        "worker disconnected before sending a valid authentication frame"@
    } else {
        error
    }
}

/// Describes the error that a session ended with.
pub fn describe_worker_error(error: &str) -> (report: String)
    ensures
        report@ == worker_error_report(error@),
{
    if contains(error, "Connection reset without closing handshake") {
        return "websocket peer reset the connection without a closing handshake; this usually means the reverse proxy or network dropped an idle or unstable connection".to_owned();
    }
    if contains(error, "Connection reset by peer") {
        return "tcp peer reset the connection; this usually means the client, reverse proxy, or network closed the socket abruptly".to_owned();
    }
    if contains(error, "invalid token") || contains(error, "token mismatch") {
        return "worker authentication failed because the provided token did not match the server token".to_owned();
    }
    if contains(error, "worker closed before") || contains(
        error,
        "first worker frame must be text HELLO",
    ) {
        return "worker disconnected before sending a valid authentication frame".to_owned();
    }
    error.to_owned()
}

/// A session whose first frame has to come.
pub open spec fn fresh(token: Seq<char>, timeout: u64) -> SessionView {
    SessionView { token, handshake_timeout_secs: timeout, phase: Phase::AwaitingHello }
}

/// How a session stands after `events`.
pub open spec fn session_run(session: SessionView, events: Seq<SessionEventView>) -> SessionView
    decreases events.len(),
{
    if events.len() == 0 {
        session
    } else {
        let before = session_run(session, events.drop_last());
        SessionView { phase: session_answer(before, events.last()).phase, ..before }
    }
}

/// The role and the port that a session was authenticated for.
pub open spec fn authenticated_for(phase: Phase) -> Option<(Role, u16)> {
    match phase {
        Phase::Mapping(role, port) => Some((role, port)),
        Phase::Joining(port) => Some((Role::Worker, port)),
        Phase::Idle(port) => Some((Role::Worker, port)),
        Phase::Starting(port) => Some((Role::Worker, port)),
        Phase::Bridging(port) => Some((Role::Worker, port)),
        Phase::Control(port) => Some((Role::Control, port)),
        _ => None,
    }
}

/// The event is a text message.
pub open spec fn is_text(event: SessionEventView, text: Seq<char>) -> bool {
    event == SessionEventView::Frame(IncomingView::Message(MessageView::Text(text)))
}

/// The event is a frame that presents `token` for `port` in `role`.
pub open spec fn presents(
    role: Role,
    token: Seq<char>,
    port: u16,
    event: SessionEventView,
) -> bool {
    match event {
        SessionEventView::Frame(IncomingView::Message(MessageView::Text(text))) => match role {
            Role::Worker => hello_fields(text) == Some((token, port)),
            Role::Control => control_fields(text) == Some((token, port)),
        },
        _ => false,
    }
}

/// A worker presented `token` for `port` at `i`, got a remote client at `j`
/// after that, and confirmed at `k`, later still.
pub open spec fn handshake_done(
    token: Seq<char>,
    port: u16,
    events: Seq<SessionEventView>,
    i: int,
    j: int,
    k: int,
) -> bool {
    &&& 0 <= i < j < k < events.len()
    &&& presents(Role::Worker, token, port, events[i])
    &&& events[j] is Assigned
    &&& is_text(events[k], CMD_OK@)
}

/// No port is opened, waited on or served for a connection that did not
/// present the server's token for that very port.
pub proof fn law_only_the_token_opens_a_port(
    token: Seq<char>,
    timeout: u64,
    events: Seq<SessionEventView>,
    role: Role,
    port: u16,
)
    requires
        authenticated_for(session_run(fresh(token, timeout), events).phase) == Some((role, port)),
    ensures
        exists|i: int|
            0 <= i < events.len() && #[trigger] presents(role, token, port, events[i]),
    decreases events.len(),
{
    lemma_run_keeps_token(fresh(token, timeout), events.drop_last());
    let before = session_run(fresh(token, timeout), events.drop_last());
    let n = events.len() - 1;
    if before.phase is AwaitingHello {
        assert(presents(role, token, port, events[n]));
    } else {
        assert(authenticated_for(before.phase) == Some((role, port)));
        law_only_the_token_opens_a_port(token, timeout, events.drop_last(), role, port);
        let i = choose|i: int|
            0 <= i < n && #[trigger] presents(role, token, port, events.drop_last()[i]);
        assert(presents(role, token, port, events[i]));
    }
}

/// The two ends of a worker are joined only after it presented the server's
/// token, then got a remote client, and then confirmed with OK.
pub proof fn law_bridge_needs_the_whole_handshake(
    token: Seq<char>,
    timeout: u64,
    events: Seq<SessionEventView>,
    port: u16,
)
    requires
        session_run(fresh(token, timeout), events).phase == Phase::Bridging(port),
    ensures
        exists|i: int, j: int, k: int| #[trigger] handshake_done(token, port, events, i, j, k),
    decreases events.len(),
{
    let n = events.len() - 1;
    let earlier = events.drop_last();
    let before = session_run(fresh(token, timeout), earlier);
    if before.phase is Bridging {
        law_bridge_needs_the_whole_handshake(token, timeout, earlier, port);
        let (i, j, k) = choose|i: int, j: int, k: int|
            #[trigger] handshake_done(token, port, earlier, i, j, k);
        assert(handshake_done(token, port, events, i, j, k));
    } else {
        assert(before.phase == Phase::Starting(port));
        lemma_starting_needs_assignment(token, timeout, earlier, port);
        let (i, j) = choose|i: int, j: int|
            0 <= i < j < earlier.len() && #[trigger] presents(Role::Worker, token, port, earlier[i])
                && #[trigger] earlier[j] is Assigned;
        assert(events[i] == earlier[i] && events[j] == earlier[j]);
        assert(handshake_done(token, port, events, i, j, n));
    }
}

proof fn lemma_starting_needs_assignment(
    token: Seq<char>,
    timeout: u64,
    events: Seq<SessionEventView>,
    port: u16,
)
    requires
        session_run(fresh(token, timeout), events).phase == Phase::Starting(port),
    ensures
        exists|i: int, j: int|
            0 <= i < j < events.len() && #[trigger] presents(Role::Worker, token, port, events[i])
                && #[trigger] events[j] is Assigned,
    decreases events.len(),
{
    let n = events.len() - 1;
    let earlier = events.drop_last();
    let before = session_run(fresh(token, timeout), earlier);
    if before.phase is Starting {
        lemma_starting_needs_assignment(token, timeout, earlier, port);
        let (i, j) = choose|i: int, j: int|
            0 <= i < j < earlier.len() && #[trigger] presents(Role::Worker, token, port, earlier[i])
                && #[trigger] earlier[j] is Assigned;
        assert(events[i] == earlier[i] && events[j] == earlier[j]);
    } else {
        assert(before.phase == Phase::Idle(port));
        law_only_the_token_opens_a_port(token, timeout, earlier, Role::Worker, port);
        let i = choose|i: int|
            0 <= i < n && #[trigger] presents(Role::Worker, token, port, earlier[i]);
        assert(events[i] == earlier[i]);
        assert(events[n] is Assigned);
    }
}

proof fn lemma_run_keeps_token(session: SessionView, events: Seq<SessionEventView>)
    ensures
        session_run(session, events).token == session.token,
        session_run(session, events).handshake_timeout_secs == session.handshake_timeout_secs,
    decreases events.len(),
{
    if events.len() > 0 {
        lemma_run_keeps_token(session, events.drop_last());
    }
}

/// A connection that presents another token is refused: it is told so by an
/// ERR frame that reads "invalid token", its session is over, and the operator
/// reads that the authentication failed.
pub proof fn law_wrong_token_is_refused(
    session: SessionView,
    text: Seq<char>,
    given: Seq<char>,
    port: u16,
)
    requires
        session.phase is AwaitingHello,
        hello_fields(text) == Some((given, port)) || control_fields(text) == Some((given, port)),
        given != session.token,
    ensures
        ({
            let answer = session_answer(
                session,
                SessionEventView::Frame(IncomingView::Message(MessageView::Text(text))),
            );
            let reply = err_text("invalid token"@);
            &&& answer.sends == seq![try_send(MessageView::Text(reply))]
            &&& err_report(reply) == Some("invalid token"@)
            &&& answer.phase is Closed
            &&& answer.next matches SessionNextView::Fail(error) && worker_error_report(error)
                == "worker authentication failed because the provided token did not match the server token"@
        }),
{
    law_frames_are_distinct(text);
    law_err_reads_back("invalid token"@);
    reveal_strlit("worker token mismatch");
    reveal_strlit("control token mismatch");
    reveal_strlit("token mismatch");
    reveal_strlit("Connection reset without closing handshake");
    reveal_strlit("Connection reset by peer");
    assert("worker token mismatch"@.subrange(7, 21) =~= "token mismatch"@);
    assert("control token mismatch"@.subrange(8, 22) =~= "token mismatch"@);
    assert(occurs_at("worker token mismatch"@, "token mismatch"@, 7));
    assert(occurs_at("control token mismatch"@, "token mismatch"@, 8));
}

/// A connection that presents the server's token is let in, for every port
/// and every token that is a single word: its port is mapped next, and
/// nothing is sent before that.
pub proof fn law_right_token_is_accepted(session: SessionView, port: u16)
    requires
        session.phase is AwaitingHello,
        session.token.len() > 0,
        unspaced(session.token),
    ensures
        session_answer(
            session,
            SessionEventView::Frame(
                IncomingView::Message(MessageView::Text(hello_text(session.token, port))),
            ),
        ) == (SessionAnswer {
            phase: Phase::Mapping(Role::Worker, port),
            sends: Seq::empty(),
            next: SessionNextView::OpenMapping(port),
        }),
        session_answer(
            session,
            SessionEventView::Frame(
                IncomingView::Message(MessageView::Text(control_text(session.token, port))),
            ),
        ) == (SessionAnswer {
            phase: Phase::Mapping(Role::Control, port),
            sends: Seq::empty(),
            next: SessionNextView::OpenMapping(port),
        }),
{
    law_hello_reads_back(session.token, port);
    law_control_reads_back(session.token, port);
    law_frames_are_distinct(hello_text(session.token, port));
}

/// A server whose token is empty or holds whitespace lets nobody in.
pub proof fn law_unusable_token_admits_nobody(
    token: Seq<char>,
    timeout: u64,
    events: Seq<SessionEventView>,
)
    requires
        token.len() == 0 || !unspaced(token),
    ensures
        authenticated_for(session_run(fresh(token, timeout), events).phase) is None,
{
    if let Some((role, port)) = authenticated_for(
        session_run(fresh(token, timeout), events).phase,
    ) {
        law_only_the_token_opens_a_port(token, timeout, events, role, port);
        let i = choose|i: int|
            0 <= i < events.len() && #[trigger] presents(role, token, port, events[i]);
        if let SessionEventView::Frame(IncomingView::Message(MessageView::Text(text))) = events[i] {
            law_named_token_is_a_word(text);
        }
    }
}

/// A session that is over stays over and sends nothing more.
pub proof fn law_closed_stays_closed(session: SessionView, event: SessionEventView)
    requires
        session.phase is Closed,
    ensures
        session_answer(session, event) == (SessionAnswer {
            phase: Phase::Closed,
            sends: Seq::empty(),
            next: SessionNextView::Over,
        }),
{
}

/// A session that begins has the given token and timeout, and awaits its first
/// frame.
pub proof fn law_session_begins_with_its_settings(
    token: &str,
    handshake_timeout_secs: u64,
    session: Session,
    phase: Phase,
)
    requires
        call_ensures(Session::new, (token, handshake_timeout_secs), session),
        call_ensures(Session::phase, (&session,), phase),
    ensures
        session@.token == token@,
        session@.handshake_timeout_secs == handshake_timeout_secs,
        session@.phase is AwaitingHello,
        phase is AwaitingHello,
{
}

/// The configured handshake timeout bounds both waits of a handshake, the one
/// for the first frame and the one for the reply to START; every other phase
/// waits for its own event, and no other wait is bounded.
pub proof fn law_handshake_timeout_bounds_both_waits(session: &Session, next: SessionNext)
    requires
        call_ensures(Session::waiting, (session,), next),
    ensures
        session@.phase is AwaitingHello ==> next == SessionNext::ReceiveWithin(
            session@.handshake_timeout_secs,
        ),
        session@.phase is Starting ==> next == SessionNext::ReceiveWithin(
            session@.handshake_timeout_secs,
        ),
        next is ReceiveWithin ==> session@.phase is AwaitingHello || session@.phase is Starting,
        session@.phase matches Phase::Mapping(_, port) ==> next == SessionNext::OpenMapping(port),
        session@.phase is Joining ==> next is Join,
        session@.phase is Idle ==> next is AwaitAssignment,
        session@.phase is Bridging ==> next == SessionNext::Bridge(None),
        session@.phase is Control ==> next is ServeControl,
        session@.phase is Closed ==> next is Over,
{
}

/// Whatever happens, a session keeps its settings. Either it is over with an
/// error, or what it does next is what the phase that it reached waits for,
/// the handshake timeout where that is a frame of the handshake.
pub proof fn law_step_waits_as_its_phase_does(
    session: &mut Session,
    event: SessionEvent,
    step: SessionStep,
)
    requires
        call_ensures(Session::step, (session, event), step),
    ensures
        final(session)@.token == old(session)@.token,
        final(session)@.handshake_timeout_secs == old(session)@.handshake_timeout_secs,
        step.next is Fail ==> final(session)@.phase is Closed,
        step.next !is Fail ==> match final(session)@.phase {
            Phase::AwaitingHello => step.next == SessionNext::ReceiveWithin(
                old(session)@.handshake_timeout_secs,
            ),
            Phase::Mapping(_, port) => step.next == SessionNext::OpenMapping(port),
            Phase::Joining(_) => step.next is Join,
            Phase::Idle(_) => step.next is AwaitAssignment,
            Phase::Starting(_) => step.next == SessionNext::ReceiveWithin(
                old(session)@.handshake_timeout_secs,
            ),
            Phase::Bridging(_) => step.next == SessionNext::Bridge(None),
            Phase::Control(_) => step.next is ServeControl,
            Phase::Closed => step.next is Over,
        },
{
}

/// A session ended with `error` and sent nothing.
pub open spec fn ended_with(after: SessionView, step: SessionStep, error: Seq<char>) -> bool {
    &&& after.phase is Closed
    &&& step.sends@.len() == 0
    &&& step.next matches SessionNext::Fail(told) && told@ == error
}

/// A session went on to `phase` and sent nothing.
pub open spec fn went_on_to(after: SessionView, step: SessionStep, phase: Phase) -> bool {
    &&& after.phase == phase
    &&& step.sends@.len() == 0
    &&& step.next !is Fail
}

/// A session went on to `phase` and sent one message, whose sending must
/// succeed.
pub open spec fn went_on_with(
    after: SessionView,
    step: SessionStep,
    phase: Phase,
    message: MessageView,
) -> bool {
    &&& after.phase == phase
    &&& step.sends@.len() == 1
    &&& step.sends@[0].message@ == message
    &&& step.sends@[0].required
    &&& step.next !is Fail
}

/// The first frame decides. One that presents the server's token gets its port
/// mapped, in its role; another token is answered by an error report, and the
/// session is over; and a text that presents nothing ends it unanswered.
pub proof fn law_first_text_decides(
    session: &mut Session,
    event: SessionEvent,
    step: SessionStep,
    text: Seq<char>,
)
    requires
        call_ensures(Session::step, (session, event), step),
        old(session)@.phase is AwaitingHello,
        event@ == SessionEventView::Frame(IncomingView::Message(MessageView::Text(text))),
    ensures
        control_fields(text) matches Some((token, port)) ==> {
            if token == old(session)@.token {
                went_on_to(final(session)@, step, Phase::Mapping(Role::Control, port))
            } else {
                &&& final(session)@.phase is Closed
                &&& step.sends@.len() == 1
                &&& step.sends@[0].message@ == MessageView::Text("ERR "@ + "invalid token"@)
                &&& !step.sends@[0].required
                &&& step.next matches SessionNext::Fail(told) && told@ == "control token mismatch"@
            }
        },
        hello_fields(text) matches Some((token, port)) ==> {
            if token == old(session)@.token {
                went_on_to(final(session)@, step, Phase::Mapping(Role::Worker, port))
            } else {
                &&& final(session)@.phase is Closed
                &&& step.sends@.len() == 1
                &&& step.sends@[0].message@ == MessageView::Text("ERR "@ + "invalid token"@)
                &&& !step.sends@[0].required
                &&& step.next matches SessionNext::Fail(told) && told@ == "worker token mismatch"@
            }
        },
        control_fields(text) is None && hello_fields(text) is None ==> ended_with(
            final(session)@,
            step,
            "invalid HELLO frame"@,
        ),
{
    law_frames_are_distinct(text);
    law_views_show_all_messages(step.sends@);
}

/// A first frame that is no text, or a connection that brings none, ends the
/// session with its own error; so does a handshake that takes too long.
pub proof fn law_no_first_text_ends_the_session(
    session: &mut Session,
    event: SessionEvent,
    step: SessionStep,
)
    requires
        call_ensures(Session::step, (session, event), step),
        old(session)@.phase is AwaitingHello,
    ensures
        event@ matches SessionEventView::Frame(IncomingView::Message(message)) && message !is Text
            ==> ended_with(final(session)@, step, "first worker frame must be text HELLO"@),
        event@ == SessionEventView::Frame(IncomingView::RawFrame) ==> ended_with(
            final(session)@,
            step,
            "first worker frame must be text HELLO"@,
        ),
        event@ matches SessionEventView::Frame(IncomingView::Failed(error)) ==> ended_with(
            final(session)@,
            step,
            error,
        ),
        event@ == SessionEventView::Frame(IncomingView::Ended) ==> ended_with(
            final(session)@,
            step,
            "worker closed before authentication frame"@,
        ),
        event@ matches SessionEventView::TimedOut(error) ==> ended_with(
            final(session)@,
            step,
            error,
        ),
{
    law_views_show_all_messages(step.sends@);
}

/// An authenticated connection goes on as its role does: a worker joins the
/// idle workers of its port and waits there, and a control connection is
/// served, for its port. What fails on the way ends the session with that
/// error.
pub proof fn law_authenticated_session_goes_on(
    session: &mut Session,
    event: SessionEvent,
    step: SessionStep,
    port: u16,
    role: Role,
)
    requires
        call_ensures(Session::step, (session, event), step),
    ensures
        old(session)@.phase == Phase::Mapping(Role::Worker, port) && event is Mapped ==> went_on_to(
            final(session)@,
            step,
            Phase::Joining(port),
        ),
        old(session)@.phase == Phase::Mapping(Role::Control, port) && event is Mapped
            ==> went_on_to(final(session)@, step, Phase::Control(port)),
        old(session)@.phase == Phase::Joining(port) && event is Joined ==> went_on_to(
            final(session)@,
            step,
            Phase::Idle(port),
        ),
        old(session)@.phase == Phase::Mapping(role, port) && (event@ matches
            SessionEventView::MappingFailed(error)) ==> ended_with(
            final(session)@,
            step,
            event@->MappingFailed_0,
        ),
        old(session)@.phase == Phase::Joining(port) && (event@ matches
            SessionEventView::JoinFailed(error)) ==> ended_with(
            final(session)@,
            step,
            event@->JoinFailed_0,
        ),
        old(session)@.phase == Phase::Idle(port) && (event@ matches
            SessionEventView::AssignmentLost(error)) ==> ended_with(
            final(session)@,
            step,
            event@->AssignmentLost_0,
        ),
        old(session)@.phase == Phase::Starting(port) && (event@ matches SessionEventView::TimedOut(
            error,
        )) ==> ended_with(final(session)@, step, event@->TimedOut_0),
{
    law_views_show_all_messages(step.sends@);
}

/// An idle worker that gets a remote client is told to START; before that it
/// is kept alive, its pings answered by pongs with their payload, and anything
/// else ends it.
pub proof fn law_idle_worker_is_kept_until_assigned(
    session: &mut Session,
    event: SessionEvent,
    step: SessionStep,
    port: u16,
)
    requires
        call_ensures(Session::step, (session, event), step),
        old(session)@.phase == Phase::Idle(port),
    ensures
        event is Assigned ==> went_on_with(
            final(session)@,
            step,
            Phase::Starting(port),
            MessageView::Text("START"@),
        ),
        event@ matches SessionEventView::Frame(incoming) ==> match incoming {
            IncomingView::Message(MessageView::Ping(data)) => went_on_with(
                final(session)@,
                step,
                Phase::Idle(port),
                MessageView::Pong(data),
            ),
            IncomingView::Message(MessageView::Pong(_)) => went_on_to(
                final(session)@,
                step,
                Phase::Idle(port),
            ),
            IncomingView::Message(MessageView::Close(_)) => ended_with(
                final(session)@,
                step,
                "worker closed before assignment"@,
            ),
            IncomingView::Message(MessageView::Text(text)) => ended_with(
                final(session)@,
                step,
                "unexpected text command before assignment: "@ + text,
            ),
            IncomingView::Failed(error) => ended_with(final(session)@, step, error),
            IncomingView::Ended => ended_with(
                final(session)@,
                step,
                "worker disconnected before assignment"@,
            ),
            _ => ended_with(final(session)@, step, "unexpected binary frame before assignment"@),
        },
{
    law_views_show_all_messages(step.sends@);
}

/// The reply to START joins the two ends exactly where it is OK; a report of
/// the client, any other reply, or none, ends the session with its own error.
pub proof fn law_only_ok_joins_the_ends(
    session: &mut Session,
    event: SessionEvent,
    step: SessionStep,
    port: u16,
    incoming: IncomingView,
)
    requires
        call_ensures(Session::step, (session, event), step),
        old(session)@.phase == Phase::Starting(port),
        event@ == SessionEventView::Frame(incoming),
    ensures
        final(session)@.phase is Bridging <==> incoming == IncomingView::Message(
            MessageView::Text("OK"@),
        ),
        final(session)@.phase is Bridging ==> went_on_to(
            final(session)@,
            step,
            Phase::Bridging(port),
        ),
        incoming matches IncomingView::Message(MessageView::Text(text)) ==> {
            &&& forall|report: Seq<char>|
                #![trigger "ERR "@ + report]
                text == "ERR "@ + report ==> ended_with(
                    final(session)@,
                    step,
                    "client failed to open local target: "@ + report,
                )
            &&& text != "OK"@ && !"ERR "@.is_prefix_of(text) ==> ended_with(
                final(session)@,
                step,
                "unexpected worker response: "@ + text,
            )
        },
        incoming matches IncomingView::Message(message) && message !is Text ==> ended_with(
            final(session)@,
            step,
            "unexpected non-text worker response"@,
        ),
        incoming is RawFrame ==> ended_with(
            final(session)@,
            step,
            "unexpected non-text worker response"@,
        ),
        incoming matches IncomingView::Failed(error) ==> ended_with(final(session)@, step, error),
        incoming is Ended ==> ended_with(
            final(session)@,
            step,
            "worker closed before START confirmation"@,
        ),
{
    law_views_show_all_messages(step.sends@);
    if let IncomingView::Message(MessageView::Text(text)) = incoming {
        law_frames_are_distinct(text);
        assert forall|report: Seq<char>|
            #![trigger "ERR "@ + report]
            text == "ERR "@ + report implies ended_with(
            final(session)@,
            step,
            "client failed to open local target: "@ + report,
        ) by {
            law_err_reads_back(report);
        }
    }
}

/// A control connection passes on every request for a worker, one that was
/// missed too, as CONNECT; it is kept alive, its pings answered by pongs with
/// their payload; and anything else ends it.
pub proof fn law_control_connection_passes_requests_on(
    session: &mut Session,
    event: SessionEvent,
    step: SessionStep,
    port: u16,
)
    requires
        call_ensures(Session::step, (session, event), step),
        old(session)@.phase == Phase::Control(port),
    ensures
        event@ matches SessionEventView::Notified(signal) ==> match signal {
            Signal::Closed => ended_with(
                final(session)@,
                step,
                "control notification channel closed"@,
            ),
            _ => went_on_with(
                final(session)@,
                step,
                Phase::Control(port),
                MessageView::Text("CONNECT"@),
            ),
        },
        event@ matches SessionEventView::Frame(incoming) ==> match incoming {
            IncomingView::Message(MessageView::Ping(data)) => went_on_with(
                final(session)@,
                step,
                Phase::Control(port),
                MessageView::Pong(data),
            ),
            IncomingView::Message(MessageView::Pong(_)) => went_on_to(
                final(session)@,
                step,
                Phase::Control(port),
            ),
            IncomingView::Message(MessageView::Close(_)) => ended_with(
                final(session)@,
                step,
                "control connection closed"@,
            ),
            IncomingView::Message(MessageView::Text(text)) => ended_with(
                final(session)@,
                step,
                "unexpected control text frame: "@ + text,
            ),
            IncomingView::Failed(error) => ended_with(final(session)@, step, error),
            IncomingView::Ended => ended_with(
                final(session)@,
                step,
                "control connection disconnected"@,
            ),
            _ => ended_with(final(session)@, step, "unexpected control data frame"@),
        },
{
    law_views_show_all_messages(step.sends@);
}

/// An event that a phase does not wait for changes nothing and sends nothing.
pub proof fn law_event_out_of_turn_changes_nothing(
    session: &mut Session,
    event: SessionEvent,
    step: SessionStep,
)
    requires
        call_ensures(Session::step, (session, event), step),
        match old(session)@.phase {
            Phase::AwaitingHello => event !is Frame && event !is TimedOut,
            Phase::Mapping(_, _) => event !is Mapped && event !is MappingFailed,
            Phase::Joining(_) => event !is Joined && event !is JoinFailed,
            Phase::Idle(_) => event !is Assigned && event !is AssignmentLost && event !is Frame,
            Phase::Starting(_) => event !is Frame && event !is TimedOut,
            Phase::Control(_) => event !is Notified && event !is Frame,
            Phase::Bridging(_) => true,
            Phase::Closed => true,
        },
    ensures
        went_on_to(final(session)@, step, old(session)@.phase),
{
    law_views_show_all_messages(step.sends@);
}

/// An upgrade request is let through exactly where it names the expected path;
/// any other one is answered by 404 and `not found`.
pub proof fn law_only_the_expected_path_is_found(
    path: &str,
    expected_path: &str,
    verdict: Result<(), Rejection>,
)
    requires
        call_ensures(validate_path, (path, expected_path), verdict),
    ensures
        path@ == expected_path@ <==> verdict is Ok,
        path@ != expected_path@ ==> (verdict matches Err(rejection) && rejection.status == 404
            && rejection.body@ == "not found"@),
{
}

/// An error is explained by the first of these that it speaks of: a reset
/// without a closing handshake, a reset by the peer, a wrong token, a missing
/// authentication frame; any other one is reported as it is.
pub proof fn law_error_is_explained_by_what_it_speaks_of(error: &str, report: String)
    requires
        call_ensures(describe_worker_error, (error,), report),
    ensures
        ({
            let unclean = occurs(error@, "Connection reset without closing handshake"@);
            let reset = occurs(error@, "Connection reset by peer"@);
            let token = occurs(error@, "invalid token"@) || occurs(error@, "token mismatch"@);
            let early = occurs(error@, "worker closed before"@) || occurs(
                error@,
                "first worker frame must be text HELLO"@,
            );
            &&& unclean ==> report@
                == "websocket peer reset the connection without a closing handshake; this usually means the reverse proxy or network dropped an idle or unstable connection"@
            &&& reset && !unclean ==> report@
                == "tcp peer reset the connection; this usually means the client, reverse proxy, or network closed the socket abruptly"@
            &&& token && !unclean && !reset ==> report@
                == "worker authentication failed because the provided token did not match the server token"@
            &&& early && !unclean && !reset && !token ==> report@
                == "worker disconnected before sending a valid authentication frame"@
            &&& !unclean && !reset && !token && !early ==> report@ == error@
        }),
{
}

/// The view of an event of a session shows all of it.
pub proof fn law_view_shows_the_whole_session_event(event: SessionEvent)
    ensures
        match event {
            SessionEvent::Frame(incoming) => event@ == SessionEventView::Frame(incoming@),
            SessionEvent::TimedOut(error) => event@ == SessionEventView::TimedOut(error@),
            SessionEvent::Mapped => event@ is Mapped,
            SessionEvent::MappingFailed(error) => event@ == SessionEventView::MappingFailed(error@),
            SessionEvent::Joined => event@ is Joined,
            SessionEvent::JoinFailed(error) => event@ == SessionEventView::JoinFailed(error@),
            SessionEvent::Assigned => event@ is Assigned,
            SessionEvent::AssignmentLost(error) => event@ == SessionEventView::AssignmentLost(
                error@,
            ),
            SessionEvent::Notified(signal) => event@ == SessionEventView::Notified(signal),
        },
{
}

} // verus!
