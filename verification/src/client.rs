//! The client's side of a connection: the control connection that asks for
//! workers, and the worker that opens the local target.
//!
//! Each event is answered by messages to send, in order, and by what to do
//! next; a message that must be sent and cannot be ends the connection with
//! that error.

use vstd::prelude::*;

use crate::config::ClientConfig;
use crate::message::{
    just, law_views_show_all_messages, must_send, nothing, outgoing_views, try_send, Incoming,
    IncomingView, Message, MessageView, Outgoing, OutgoingView,
};
use crate::protocol::{
    control, control_text, err, err_report, err_text, hello, hello_text, law_err_reads_back,
    law_frames_are_distinct, ok, parse_err, CMD_CONNECT, CMD_OK, CMD_START,
};
use crate::text::{decimal, same_text};

verus! {

/// The seconds between two heartbeats under a setting of `secs`: none where
/// that is zero, which turns heartbeats off.
pub open spec fn heartbeat_of(secs: u64) -> Option<u64> {
    if secs == 0 {
        None
    } else {
        Some(secs)
    }
}

/// The seconds between two heartbeats; none where heartbeats are off.
pub fn heartbeat_duration(secs: u64) -> (interval: Option<u64>)
    ensures
        interval == if secs > 0 {
            Some(secs)
        } else {
            None::<u64>
        },
        interval == heartbeat_of(secs),
{
    if secs == 0 {
        None
    } else {
        Some(secs)
    }
}

/// What the server asks for over the control connection.
#[derive(Clone, Copy, Debug, PartialEq, Eq)]
pub enum ControlCommand {
    /// One more worker.
    Connect,
    /// Nothing.
    Ignore,
}

/// What the server's message asks for, or why the control connection ends.
pub open spec fn control_command(incoming: IncomingView) -> Result<ControlCommand, Seq<char>> {
    match incoming {
        IncomingView::Message(MessageView::Text(text)) => if text == CMD_CONNECT@ {
            Ok(ControlCommand::Connect)
        } else {
            match err_report(text) {
                Some(report) => Err("server rejected control connection: "@ + report),
                None => Err("unexpected control command from server: "@ + text),
            }
        },
        IncomingView::Message(MessageView::Ping(_)) => Ok(ControlCommand::Ignore),
        IncomingView::Message(MessageView::Pong(_)) => Ok(ControlCommand::Ignore),
        IncomingView::Message(MessageView::Close(_)) => Err("server closed control connection"@),
        IncomingView::Message(MessageView::Binary(_)) => Err(
            "unexpected non-text control command from server"@,
        ),
        IncomingView::RawFrame => Err("unexpected non-text control command from server"@),
        IncomingView::Failed(error) => Err(error),
        IncomingView::Ended => Err("server closed control connection"@),
    }
}

/// Reads a message of the server on the control connection.
pub fn handle_control_message(incoming: Incoming) -> (command: Result<ControlCommand, String>)
    ensures
        match command {
            Ok(command) => control_command(incoming@) == Ok::<ControlCommand, Seq<char>>(command),
            Err(error) => control_command(incoming@) == Err::<ControlCommand, Seq<char>>(error@),
        },
{
    match incoming {
        Incoming::Message(Message::Text(text)) => {
            if same_text(text.as_str(), CMD_CONNECT) {
                return Ok(ControlCommand::Connect);
            }
            match parse_err(text.as_str()) {
                Some(report) => {
                    let mut error = "server rejected control connection: ".to_owned();
                    error.append(report);
                    Err(error)
                },
                None => {
                    let mut error = "unexpected control command from server: ".to_owned();
                    error.append(text.as_str());
                    Err(error)
                },
            }
        },
        Incoming::Message(Message::Ping(_)) => Ok(ControlCommand::Ignore),
        Incoming::Message(Message::Pong(_)) => Ok(ControlCommand::Ignore),
        Incoming::Message(Message::Close(_)) => Err("server closed control connection".to_owned()),
        Incoming::Message(Message::Binary(_)) => {
            Err("unexpected non-text control command from server".to_owned())
        },
        Incoming::RawFrame => Err("unexpected non-text control command from server".to_owned()),
        Incoming::Failed(error) => Err(error),
        Incoming::Ended => Err("server closed control connection".to_owned()),
    }
}

/// What can happen to a control connection.
#[derive(Debug)]
pub enum ControlEvent {
    /// The WebSocket handshake is done.
    Opened,
    /// The WebSocket brought something.
    Frame(Incoming),
    /// Nothing came for so many seconds.
    Silence(u64),
}

/// What a control connection does next.
#[derive(Debug)]
pub enum ControlNext {
    /// Wait for a message, or for the heartbeat.
    Wait,
    /// Fill the pool up to so many workers, and wait.
    SpawnWorkers(usize),
    /// Start one more worker, if the pool has a slot, and wait.
    SpawnWorker,
    /// End with an error.
    Fail(String),
}

/// The answer to one event.
#[derive(Debug)]
pub struct ControlStep {
    pub sends: Vec<Outgoing>,
    pub next: ControlNext,
    /// The seconds of silence after which a heartbeat is due, if ever.
    pub heartbeat: Option<u64>,
}

/// An event, as mathematical values.
pub enum ControlEventView {
    Opened,
    Frame(IncomingView),
    Silence(u64),
}

/// What a control connection does next, as mathematical values.
pub enum ControlNextView {
    Wait,
    SpawnWorkers(usize),
    SpawnWorker,
    Fail(Seq<char>),
}

/// The answer to one event, as mathematical values.
pub struct ControlStepView {
    pub sends: Seq<OutgoingView>,
    pub next: ControlNextView,
    pub heartbeat: Option<u64>,
}

impl View for ControlEvent {
    type V = ControlEventView;

    open spec fn view(&self) -> ControlEventView {
        match self {
            ControlEvent::Opened => ControlEventView::Opened,
            ControlEvent::Frame(incoming) => ControlEventView::Frame(incoming@),
            ControlEvent::Silence(secs) => ControlEventView::Silence(*secs),
        }
    }
}

impl View for ControlNext {
    type V = ControlNextView;

    open spec fn view(&self) -> ControlNextView {
        match self {
            ControlNext::Wait => ControlNextView::Wait,
            ControlNext::SpawnWorkers(size) => ControlNextView::SpawnWorkers(*size),
            ControlNext::SpawnWorker => ControlNextView::SpawnWorker,
            ControlNext::Fail(error) => ControlNextView::Fail(error@),
        }
    }
}

impl View for ControlStep {
    type V = ControlStepView;

    open spec fn view(&self) -> ControlStepView {
        ControlStepView {
            sends: outgoing_views(self.sends@),
            next: self.next@,
            heartbeat: self.heartbeat,
        }
    }
}

/// How a control connection answers an event: it presents itself and has the
/// pool filled, starts a worker for each CONNECT, and pings where heartbeats
/// are on and nothing came for their interval.
pub open spec fn control_answer(
    token: Seq<char>,
    remote_port: u16,
    worker_pool_size: usize,
    heartbeat_interval_secs: u64,
    event: ControlEventView,
) -> ControlStepView {
    let heartbeat = heartbeat_of(heartbeat_interval_secs);
    match event {
        ControlEventView::Opened => ControlStepView {
            sends: seq![must_send(MessageView::Text(control_text(token, remote_port)))],
            next: ControlNextView::SpawnWorkers(worker_pool_size),
            heartbeat,
        },
        ControlEventView::Frame(incoming) => ControlStepView {
            sends: Seq::empty(),
            next: match control_command(incoming) {
                Ok(ControlCommand::Connect) => ControlNextView::SpawnWorker,
                Ok(ControlCommand::Ignore) => ControlNextView::Wait,
                Err(error) => ControlNextView::Fail(error),
            },
            heartbeat,
        },
        ControlEventView::Silence(secs) => ControlStepView {
            sends: if heartbeat matches Some(interval) && secs >= interval {
                seq![must_send(MessageView::Ping(Seq::empty()))]
            } else {
                Seq::empty()
            },
            next: ControlNextView::Wait,
            heartbeat,
        },
    }
}

/// Answers one event of a control connection.
pub fn control_step(config: &ClientConfig, event: ControlEvent) -> (step: ControlStep)
    ensures
        step@ == control_answer(
            config.token@,
            config.remote_port,
            config.worker_pool_size,
            config.heartbeat_interval_secs,
            event@,
        ),
{
    let heartbeat = heartbeat_duration(config.heartbeat_interval_secs);
    match event {
        ControlEvent::Opened => ControlStep {
            sends: just(control(config.token.as_str(), config.remote_port), true),
            next: ControlNext::SpawnWorkers(config.worker_pool_size),
            heartbeat,
        },
        ControlEvent::Frame(incoming) => ControlStep {
            sends: nothing(),
            next: match handle_control_message(incoming) {
                Ok(ControlCommand::Connect) => ControlNext::SpawnWorker,
                Ok(ControlCommand::Ignore) => ControlNext::Wait,
                Err(error) => ControlNext::Fail(error),
            },
            heartbeat,
        },
        ControlEvent::Silence(secs) => ControlStep {
            sends: match heartbeat {
                Some(interval) if secs >= interval => {
                    let payload: Vec<u8> = Vec::new();
                    assert(payload@ =~= Seq::<u8>::empty());
                    just(Message::Ping(payload), true)
                },
                _ => nothing(),
            },
            next: ControlNext::Wait,
            heartbeat,
        },
    }
}

/// How far a worker has come.
#[derive(Clone, Copy, Debug, PartialEq, Eq)]
pub enum WorkerPhase {
    /// The WebSocket handshake has to be done.
    Opening,
    /// The worker waits for START.
    AwaitingStart,
    /// The local target is being opened.
    Dialing,
    /// The two ends are joined.
    Bridging,
    /// Over.
    Closed,
}

/// What can happen to a worker.
#[derive(Debug)]
pub enum WorkerEvent {
    /// The WebSocket handshake is done.
    Opened,
    /// The WebSocket brought something.
    Frame(Incoming),
    /// The local target is open and set up for small packets.
    LocalConnected,
    /// The local target could not be opened.
    LocalFailed(String),
    /// The local target was opened but could not be set up.
    LocalSetupFailed(String),
    /// The local target took too long to open.
    LocalTimedOut,
}

/// What a worker does next.
#[derive(Debug)]
pub enum WorkerNext {
    /// Connect to the server.
    Open,
    /// Wait for a message.
    Receive,
    /// Open the local target at `address`, within `secs` seconds.
    DialLocal { address: String, secs: u64 },
    /// Relay between the WebSocket and the local target, with a heartbeat
    /// every so many seconds, or without.
    Bridge(Option<u64>),
    /// Nothing: the worker was over already.
    Over,
    /// End with an error.
    Fail(String),
}

/// The answer to one event.
#[derive(Debug)]
pub struct WorkerStep {
    pub sends: Vec<Outgoing>,
    pub next: WorkerNext,
}

/// An event, as mathematical values.
pub enum WorkerEventView {
    Opened,
    Frame(IncomingView),
    LocalConnected,
    LocalFailed(Seq<char>),
    LocalSetupFailed(Seq<char>),
    LocalTimedOut,
}

/// What a worker does next, as mathematical values.
pub enum WorkerNextView {
    Open,
    Receive,
    DialLocal { address: Seq<char>, secs: u64 },
    Bridge(Option<u64>),
    Over,
    Fail(Seq<char>),
}

/// What a worker knows: the token and the port that it presents, its local
/// target and how long that may take to open, how often an open connection is
/// pinged, and how far it has come.
pub struct WorkerView {
    pub token: Seq<char>,
    pub remote_port: u16,
    pub local_addr: Seq<char>,
    pub connect_timeout_secs: u64,
    pub heartbeat_interval_secs: u64,
    pub phase: WorkerPhase,
}

/// The answer to one event, as mathematical values: the phase that follows,
/// the messages to send and what to do next.
pub struct WorkerAnswer {
    pub phase: WorkerPhase,
    pub sends: Seq<OutgoingView>,
    pub next: WorkerNextView,
}

impl View for WorkerEvent {
    type V = WorkerEventView;

    open spec fn view(&self) -> WorkerEventView {
        match self {
            WorkerEvent::Opened => WorkerEventView::Opened,
            WorkerEvent::Frame(incoming) => WorkerEventView::Frame(incoming@),
            WorkerEvent::LocalConnected => WorkerEventView::LocalConnected,
            WorkerEvent::LocalFailed(error) => WorkerEventView::LocalFailed(error@),
            WorkerEvent::LocalSetupFailed(error) => WorkerEventView::LocalSetupFailed(error@),
            WorkerEvent::LocalTimedOut => WorkerEventView::LocalTimedOut,
        }
    }
}

impl View for WorkerNext {
    type V = WorkerNextView;

    open spec fn view(&self) -> WorkerNextView {
        match self {
            WorkerNext::Open => WorkerNextView::Open,
            WorkerNext::Receive => WorkerNextView::Receive,
            WorkerNext::DialLocal { address, secs } => WorkerNextView::DialLocal {
                address: address@,
                secs: *secs,
            },
            WorkerNext::Bridge(interval) => WorkerNextView::Bridge(*interval),
            WorkerNext::Over => WorkerNextView::Over,
            WorkerNext::Fail(error) => WorkerNextView::Fail(error@),
        }
    }
}

/// What a worker in `phase` does next.
pub open spec fn worker_waits_for(worker: WorkerView, phase: WorkerPhase) -> WorkerNextView {
    match phase {
        WorkerPhase::Opening => WorkerNextView::Open,
        WorkerPhase::AwaitingStart => WorkerNextView::Receive,
        WorkerPhase::Dialing => WorkerNextView::DialLocal {
            address: worker.local_addr,
            secs: worker.connect_timeout_secs,
        },
        WorkerPhase::Bridging => WorkerNextView::Bridge(
            heartbeat_of(worker.heartbeat_interval_secs),
        ),
        WorkerPhase::Closed => WorkerNextView::Over,
    }
}

/// Reaches `phase` and sends `sends`.
pub open spec fn worker_reaches(
    worker: WorkerView,
    phase: WorkerPhase,
    sends: Seq<OutgoingView>,
) -> WorkerAnswer {
    WorkerAnswer { phase, sends, next: worker_waits_for(worker, phase) }
}

/// Ends with an error, after sending `sends`.
pub open spec fn worker_fails(error: Seq<char>, sends: Seq<OutgoingView>) -> WorkerAnswer {
    WorkerAnswer { phase: WorkerPhase::Closed, sends, next: WorkerNextView::Fail(error) }
}

/// How the message that has to be START is answered.
pub open spec fn on_start_frame(worker: WorkerView, incoming: IncomingView) -> WorkerAnswer {
    match incoming {
        IncomingView::Message(MessageView::Text(text)) => if text == CMD_START@ {
            worker_reaches(worker, WorkerPhase::Dialing, Seq::empty())
        } else {
            match err_report(text) {
                Some(report) => worker_fails("server rejected worker: "@ + report, Seq::empty()),
                None => worker_fails(
                    "unexpected text command from server: "@ + text,
                    Seq::empty(),
                ),
            }
        },
        IncomingView::Message(MessageView::Close(_)) => worker_fails(
            "server closed worker before START"@,
            Seq::empty(),
        ),
        IncomingView::Message(_) => worker_fails(
            "unexpected non-text command from server"@,
            Seq::empty(),
        ),
        IncomingView::RawFrame => worker_fails(
            "unexpected non-text command from server"@,
            Seq::empty(),
        ),
        IncomingView::Failed(error) => worker_fails(error, Seq::empty()),
        IncomingView::Ended => worker_fails("server closed worker"@, Seq::empty()),
    }
}

/// How a worker answers an event. One that its phase does not wait for
/// changes nothing.
pub open spec fn worker_answer(worker: WorkerView, event: WorkerEventView) -> WorkerAnswer {
    match (worker.phase, event) {
        (WorkerPhase::Opening, WorkerEventView::Opened) => worker_reaches(
            worker,
            WorkerPhase::AwaitingStart,
            seq![must_send(MessageView::Text(hello_text(worker.token, worker.remote_port)))],
        ),
        (WorkerPhase::AwaitingStart, WorkerEventView::Frame(incoming)) => on_start_frame(
            worker,
            incoming,
        ),
        (WorkerPhase::Dialing, WorkerEventView::LocalConnected) => worker_reaches(
            worker,
            WorkerPhase::Bridging,
            seq![must_send(MessageView::Text(CMD_OK@))],
        ),
        (WorkerPhase::Dialing, WorkerEventView::LocalFailed(error)) => worker_fails(
            error,
            seq![try_send(MessageView::Text(err_text(error)))],
        ),
        (WorkerPhase::Dialing, WorkerEventView::LocalSetupFailed(error)) => worker_fails(
            error,
            Seq::empty(),
        ),
        (WorkerPhase::Dialing, WorkerEventView::LocalTimedOut) => worker_fails(
            "timed out opening local target "@ + worker.local_addr
                + "; check whether the local service is reachable"@,
            seq![try_send(MessageView::Text(err_text("local connect timeout"@)))],
        ),
        (phase, _) => worker_reaches(worker, phase, Seq::empty()),
    }
}

/// The step and the phase that `answer` describes.
pub open spec fn worker_answers(
    phase: WorkerPhase,
    step: WorkerStep,
    answer: WorkerAnswer,
) -> bool {
    &&& phase == answer.phase
    &&& outgoing_views(step.sends@) == answer.sends
    &&& step.next@ == answer.next
}

/// The client's side of one worker connection.
#[derive(Debug)]
pub struct DataWorker {
    token: String,
    remote_port: u16,
    local_addr: String,
    connect_timeout_secs: u64,
    heartbeat_interval_secs: u64,
    phase: WorkerPhase,
}

impl View for DataWorker {
    type V = WorkerView;

    closed spec fn view(&self) -> WorkerView {
        WorkerView {
            token: self.token@,
            remote_port: self.remote_port,
            local_addr: self.local_addr@,
            connect_timeout_secs: self.connect_timeout_secs,
            heartbeat_interval_secs: self.heartbeat_interval_secs,
            phase: self.phase,
        }
    }
}

impl DataWorker {
    /// A worker that is about to connect.
    pub fn new(config: &ClientConfig) -> (worker: DataWorker)
        ensures
            worker@ == (WorkerView {
                token: config.token@,
                remote_port: config.remote_port,
                local_addr: config.local_addr@,
                connect_timeout_secs: config.connect_timeout_secs,
                heartbeat_interval_secs: config.heartbeat_interval_secs,
                phase: WorkerPhase::Opening,
            }),
    {
        DataWorker {
            token: config.token.clone(),
            remote_port: config.remote_port,
            local_addr: config.local_addr.clone(),
            connect_timeout_secs: config.connect_timeout_secs,
            heartbeat_interval_secs: config.heartbeat_interval_secs,
            phase: WorkerPhase::Opening,
        }
    }

    /// How far the worker has come.
    pub fn phase(&self) -> (phase: WorkerPhase)
        ensures
            phase == self@.phase,
    {
        self.phase
    }

    /// What the worker does next.
    pub fn waiting(&self) -> (next: WorkerNext)
        ensures
            next@ == worker_waits_for(self@, self@.phase),
    {
        match self.phase {
            WorkerPhase::Opening => WorkerNext::Open,
            WorkerPhase::AwaitingStart => WorkerNext::Receive,
            WorkerPhase::Dialing => WorkerNext::DialLocal {
                address: self.local_addr.clone(),
                secs: self.connect_timeout_secs,
            },
            WorkerPhase::Bridging => {
                WorkerNext::Bridge(heartbeat_duration(self.heartbeat_interval_secs))
            },
            WorkerPhase::Closed => WorkerNext::Over,
        }
    }

    /// Answers one event.
    pub fn step(&mut self, event: WorkerEvent) -> (step: WorkerStep)
        ensures
            final(self)@ == (WorkerView { phase: final(self)@.phase, ..old(self)@ }),
            worker_answers(final(self)@.phase, step, worker_answer(old(self)@, event@)),
    {
        match (self.phase, event) {
            (WorkerPhase::Opening, WorkerEvent::Opened) => {
                let frame = hello(self.token.as_str(), self.remote_port);
                self.reach(WorkerPhase::AwaitingStart, just(frame, true))
            },
            (WorkerPhase::AwaitingStart, WorkerEvent::Frame(incoming)) => {
                self.wait_for_start(incoming)
            },
            (WorkerPhase::Dialing, WorkerEvent::LocalConnected) => {
                self.reach(WorkerPhase::Bridging, just(ok(), true))
            },
            (WorkerPhase::Dialing, WorkerEvent::LocalFailed(error)) => {
                let frame = err(error.as_str());
                self.fail(error, just(frame, false))
            },
            (WorkerPhase::Dialing, WorkerEvent::LocalSetupFailed(error)) => {
                self.fail(error, nothing())
            },
            (WorkerPhase::Dialing, WorkerEvent::LocalTimedOut) => {
                let mut error = "timed out opening local target ".to_owned();
                error.append(self.local_addr.as_str());
                error.append("; check whether the local service is reachable");
                self.fail(error, just(err("local connect timeout"), false))
            },
            (phase, _) => self.reach(phase, nothing()),
        }
    }

    fn reach(&mut self, phase: WorkerPhase, sends: Vec<Outgoing>) -> (step: WorkerStep)
        ensures
            final(self)@ == (WorkerView { phase, ..old(self)@ }),
            worker_answers(phase, step, worker_reaches(old(self)@, phase, outgoing_views(sends@))),
    {
        self.phase = phase;
        WorkerStep { sends, next: self.waiting() }
    }

    fn fail(&mut self, error: String, sends: Vec<Outgoing>) -> (step: WorkerStep)
        ensures
            final(self)@ == (WorkerView { phase: WorkerPhase::Closed, ..old(self)@ }),
            worker_answers(
                WorkerPhase::Closed,
                step,
                worker_fails(error@, outgoing_views(sends@)),
            ),
    {
        self.phase = WorkerPhase::Closed;
        WorkerStep { sends, next: WorkerNext::Fail(error) }
    }

    fn wait_for_start(&mut self, incoming: Incoming) -> (step: WorkerStep)
        ensures
            final(self)@ == (WorkerView { phase: final(self)@.phase, ..old(self)@ }),
            worker_answers(final(self)@.phase, step, on_start_frame(old(self)@, incoming@)),
    {
        match incoming {
            Incoming::Message(Message::Text(text)) => {
                if same_text(text.as_str(), CMD_START) {
                    return self.reach(WorkerPhase::Dialing, nothing());
                }
                match parse_err(text.as_str()) {
                    Some(report) => {
                        let mut error = "server rejected worker: ".to_owned();
                        error.append(report);
                        self.fail(error, nothing())
                    },
                    None => {
                        let mut error = "unexpected text command from server: ".to_owned();
                        error.append(text.as_str());
                        self.fail(error, nothing())
                    },
                }
            },
            Incoming::Message(Message::Close(_)) => {
                self.fail("server closed worker before START".to_owned(), nothing())
            },
            Incoming::Message(_) => {
                self.fail("unexpected non-text command from server".to_owned(), nothing())
            },
            Incoming::RawFrame => {
                self.fail("unexpected non-text command from server".to_owned(), nothing())
            },
            Incoming::Failed(error) => self.fail(error, nothing()),
            Incoming::Ended => self.fail("server closed worker".to_owned(), nothing()),
        }
    }
}

/// An interval of zero turns heartbeats off: the control connection then never
/// sends a ping, whatever happens.
pub proof fn law_zero_interval_sends_no_ping(
    token: Seq<char>,
    remote_port: u16,
    worker_pool_size: usize,
    event: ControlEventView,
)
    ensures
        ({
            let answer = control_answer(token, remote_port, worker_pool_size, 0, event);
            &&& answer.heartbeat is None
            &&& forall|i: int|
                0 <= i < answer.sends.len() ==> !(#[trigger] answer.sends[i].message is Ping)
        }),
{
}

/// A control connection pings exactly where heartbeats are on and nothing came
/// for at least their interval: then with one message, without a payload, and
/// it waits on.
pub proof fn law_control_pings_after_silence(
    token: Seq<char>,
    remote_port: u16,
    worker_pool_size: usize,
    heartbeat_interval_secs: u64,
    event: ControlEventView,
)
    ensures
        ({
            let answer = control_answer(
                token,
                remote_port,
                worker_pool_size,
                heartbeat_interval_secs,
                event,
            );
            let due = heartbeat_interval_secs > 0 && (event matches ControlEventView::Silence(secs)
                && secs >= heartbeat_interval_secs);
            &&& due ==> answer.sends == seq![must_send(MessageView::Ping(Seq::empty()))]
                && answer.next is Wait
            &&& !due ==> forall|i: int|
                0 <= i < answer.sends.len() ==> !(#[trigger] answer.sends[i].message is Ping)
        }),
{
}

/// The worker of a client after `events`.
pub open spec fn worker_run(worker: WorkerView, events: Seq<WorkerEventView>) -> WorkerView
    decreases events.len(),
{
    if events.len() == 0 {
        worker
    } else {
        let before = worker_run(worker, events.drop_last());
        WorkerView { phase: worker_answer(before, events.last()).phase, ..before }
    }
}

/// The event is the server's START.
pub open spec fn is_start(event: WorkerEventView) -> bool {
    event == WorkerEventView::Frame(IncomingView::Message(MessageView::Text(CMD_START@)))
}

/// The local target is opened only after the server said START, and the two
/// ends are joined only after it was opened.
pub proof fn law_worker_dials_only_on_start(worker: WorkerView, events: Seq<WorkerEventView>)
    requires
        worker.phase is Opening,
    ensures
        worker_run(worker, events).phase is Dialing || worker_run(worker, events).phase is Bridging
            ==> exists|i: int| 0 <= i < events.len() && #[trigger] is_start(events[i]),
        worker_run(worker, events).phase is Bridging ==> exists|i: int, j: int|
            0 <= i < j < events.len() && #[trigger] is_start(events[i])
                && #[trigger] events[j] is LocalConnected,
    decreases events.len(),
{
    if events.len() > 0 {
        let earlier = events.drop_last();
        let n = events.len() - 1;
        law_worker_dials_only_on_start(worker, earlier);
        let before = worker_run(worker, earlier).phase;
        let after = worker_run(worker, events).phase;
        if before is Dialing || before is Bridging {
            let i = choose|i: int| 0 <= i < earlier.len() && #[trigger] is_start(earlier[i]);
            assert(is_start(events[i]));
            if before is Dialing && after is Bridging {
                assert(events[n] is LocalConnected);
            }
        } else if after is Dialing {
            assert(is_start(events[n]));
        }
        if before is Bridging {
            let (i, j) = choose|i: int, j: int|
                0 <= i < j < earlier.len() && #[trigger] is_start(earlier[i])
                    && #[trigger] earlier[j] is LocalConnected;
            assert(is_start(events[i]) && events[j] is LocalConnected);
        }
    }
}

/// Everything that a worker sends on `events`, in order.
pub open spec fn worker_sends(worker: WorkerView, events: Seq<WorkerEventView>) -> Seq<OutgoingView>
    decreases events.len(),
{
    if events.len() == 0 {
        Seq::empty()
    } else {
        worker_sends(worker, events.drop_last()) + worker_answer(
            worker_run(worker, events.drop_last()),
            events.last(),
        ).sends
    }
}

/// A worker dials its configured local target and no other, within the
/// configured time, and relays with the configured heartbeat, whatever came
/// before.
pub proof fn law_worker_follows_its_settings(
    worker: WorkerView,
    events: Seq<WorkerEventView>,
    event: WorkerEventView,
)
    ensures
        ({
            let next = worker_answer(worker_run(worker, events), event).next;
            &&& next matches WorkerNextView::DialLocal { address, secs } ==> address
                == worker.local_addr && secs == worker.connect_timeout_secs
            &&& next matches WorkerNextView::Bridge(interval) ==> interval == heartbeat_of(
                worker.heartbeat_interval_secs,
            )
        }),
{
    lemma_run_keeps_settings(worker, events);
}

/// The messages of a worker before its two ends are joined are its HELLO and
/// then its OK, and no others: while it waits or dials it has sent the first,
/// and once they are joined both. One that ended without that has sent its
/// HELLO and at most an error report.
pub proof fn law_worker_sends_hello_and_ok(worker: WorkerView, events: Seq<WorkerEventView>)
    requires
        worker.phase is Opening,
    ensures
        ({
            let hello = must_send(MessageView::Text(hello_text(worker.token, worker.remote_port)));
            let ok = must_send(MessageView::Text(CMD_OK@));
            match worker_run(worker, events).phase {
                WorkerPhase::Opening => worker_sends(worker, events) == Seq::<OutgoingView>::empty(),
                WorkerPhase::AwaitingStart => worker_sends(worker, events) == seq![hello],
                WorkerPhase::Dialing => worker_sends(worker, events) == seq![hello],
                WorkerPhase::Bridging => worker_sends(worker, events) == seq![hello, ok],
                WorkerPhase::Closed => worker_sends(worker, events) == seq![hello]
                    || exists|report: Seq<char>|
                    worker_sends(worker, events) == seq![
                        hello,
                        try_send(MessageView::Text(#[trigger] err_text(report))),
                    ],
            }
        }),
    decreases events.len(),
{
    if events.len() > 0 {
        let hello = must_send(MessageView::Text(hello_text(worker.token, worker.remote_port)));
        let ok = must_send(MessageView::Text(CMD_OK@));
        let earlier = events.drop_last();
        law_worker_sends_hello_and_ok(worker, earlier);
        lemma_run_keeps_settings(worker, earlier);
        let answer = worker_answer(worker_run(worker, earlier), events.last());
        assert(worker_sends(worker, events) == worker_sends(worker, earlier) + answer.sends);
        match worker_run(worker, events).phase {
            WorkerPhase::Opening => {
                assert(worker_sends(worker, events) =~= Seq::<OutgoingView>::empty());
            },
            WorkerPhase::AwaitingStart => {
                assert(worker_sends(worker, events) =~= seq![hello]);
            },
            WorkerPhase::Dialing => {
                assert(worker_sends(worker, events) =~= seq![hello]);
            },
            WorkerPhase::Bridging => {
                assert(worker_sends(worker, events) =~= seq![hello, ok]);
            },
            WorkerPhase::Closed => {
                if answer.sends.len() == 0 {
                    assert(worker_sends(worker, events) =~= worker_sends(worker, earlier));
                } else {
                    let report = match events.last() {
                        WorkerEventView::LocalFailed(error) => error,
                        _ => "local connect timeout"@,
                    };
                    assert(worker_sends(worker, events) =~= seq![
                        hello,
                        try_send(MessageView::Text(err_text(report))),
                    ]);
                }
            },
        }
    }
}

proof fn lemma_run_keeps_settings(worker: WorkerView, events: Seq<WorkerEventView>)
    ensures
        worker_run(worker, events) == (WorkerView {
            phase: worker_run(worker, events).phase,
            ..worker
        }),
    decreases events.len(),
{
    if events.len() > 0 {
        lemma_run_keeps_settings(worker, events.drop_last());
    }
}

/// The view of an event of a control connection shows all of it.
pub proof fn law_view_shows_the_whole_control_event(event: ControlEvent)
    ensures
        match event {
            ControlEvent::Opened => event@ is Opened,
            ControlEvent::Frame(incoming) => event@ == ControlEventView::Frame(incoming@),
            ControlEvent::Silence(secs) => event@ == ControlEventView::Silence(secs),
        },
{
}

/// The view of an event of a worker shows all of it.
pub proof fn law_view_shows_the_whole_worker_event(event: WorkerEvent)
    ensures
        match event {
            WorkerEvent::Opened => event@ is Opened,
            WorkerEvent::Frame(incoming) => event@ == WorkerEventView::Frame(incoming@),
            WorkerEvent::LocalConnected => event@ is LocalConnected,
            WorkerEvent::LocalFailed(error) => event@ == WorkerEventView::LocalFailed(error@),
            WorkerEvent::LocalSetupFailed(error) => event@ == WorkerEventView::LocalSetupFailed(
                error@,
            ),
            WorkerEvent::LocalTimedOut => event@ is LocalTimedOut,
        },
{
}

/// Heartbeats come at the very interval that is set, and not at all where that
/// is zero.
pub proof fn law_heartbeat_interval_is_the_setting(secs: u64, interval: Option<u64>)
    requires
        call_ensures(heartbeat_duration, (secs,), interval),
    ensures
        secs > 0 ==> interval == Some(secs),
        secs == 0 ==> interval is None,
        heartbeat_of(secs) == interval,
{
}

/// Each step of a control connection waits for the configured interval, where
/// heartbeats are on, and for messages alone where they are off.
pub proof fn law_control_waits_for_the_configured_interval(
    config: &ClientConfig,
    event: ControlEvent,
    step: ControlStep,
)
    requires
        call_ensures(control_step, (config, event), step),
    ensures
        config.heartbeat_interval_secs > 0 ==> step.heartbeat == Some(
            config.heartbeat_interval_secs,
        ),
        config.heartbeat_interval_secs == 0 ==> step.heartbeat is None,
{
}

/// A control connection that was opened presents the configured token and
/// port, in one message that must be sent, and has the pool filled up to its
/// configured size.
pub proof fn law_opened_control_connection_presents_itself(
    config: &ClientConfig,
    step: ControlStep,
)
    requires
        call_ensures(control_step, (config, ControlEvent::Opened), step),
    ensures
        step.sends@.len() == 1,
        step.sends@[0].message@ == MessageView::Text(
            "CONTROL "@ + config.token@ + " "@ + decimal(config.remote_port as nat),
        ),
        step.sends@[0].required,
        step.next == ControlNext::SpawnWorkers(config.worker_pool_size),
{
    law_views_show_all_messages(step.sends@);
}

/// What the server says on a control connection: CONNECT asks for a worker,
/// pings and pongs are passed over, and anything else is an error of its own.
pub proof fn law_server_says_connect(
    incoming: Incoming,
    command: Result<ControlCommand, String>,
    report: Seq<char>,
)
    requires
        call_ensures(handle_control_message, (incoming,), command),
    ensures
        incoming@ == IncomingView::Message(MessageView::Text("CONNECT"@)) <==> (command matches Ok(
            said,
        ) && said is Connect),
        incoming@ matches IncomingView::Message(message) && (message is Ping || message is Pong)
            ==> (command matches Ok(said) && said is Ignore),
        incoming@ == IncomingView::Message(MessageView::Text("ERR "@ + report)) ==> (command matches
            Err(error) && error@ == "server rejected control connection: "@ + report),
        incoming@ matches IncomingView::Message(MessageView::Text(text)) ==> (text != "CONNECT"@
            && !"ERR "@.is_prefix_of(text) ==> (command matches Err(error) && error@
            == "unexpected control command from server: "@ + text)),
        incoming@ matches IncomingView::Message(MessageView::Close(_)) ==> (command matches Err(
            error,
        ) && error@ == "server closed control connection"@),
        incoming@ is Ended ==> (command matches Err(error) && error@
            == "server closed control connection"@),
        incoming@ matches IncomingView::Message(MessageView::Binary(_)) ==> (command matches Err(
            error,
        ) && error@ == "unexpected non-text control command from server"@),
        incoming@ is RawFrame ==> (command matches Err(error) && error@
            == "unexpected non-text control command from server"@),
        incoming@ matches IncomingView::Failed(failure) ==> (command matches Err(error) && error@
            == failure),
{
    law_err_reads_back(report);
    law_frames_are_distinct("ERR "@ + report);
}

/// A control connection sends nothing in reply: it starts a worker where the
/// server asks for one, waits on where there is nothing to do, and ends where
/// what it heard is an error, with that error.
pub proof fn law_control_connection_does_what_it_hears(
    config: &ClientConfig,
    incoming: Incoming,
    step: ControlStep,
    command: Result<ControlCommand, String>,
)
    requires
        call_ensures(control_step, (config, ControlEvent::Frame(incoming)), step),
        call_ensures(handle_control_message, (incoming,), command),
    ensures
        step.sends@.len() == 0,
        match command {
            Ok(ControlCommand::Connect) => step.next is SpawnWorker,
            Ok(ControlCommand::Ignore) => step.next is Wait,
            Err(error) => step.next matches ControlNext::Fail(told) && told@ == error@,
        },
{
    law_views_show_all_messages(step.sends@);
}

/// After a silence a control connection waits on; it pings, without a payload,
/// exactly where the silence lasted at least the configured interval.
pub proof fn law_silence_is_broken_by_a_ping(config: &ClientConfig, secs: u64, step: ControlStep)
    requires
        call_ensures(control_step, (config, ControlEvent::Silence(secs)), step),
    ensures
        step.next is Wait,
        0 < config.heartbeat_interval_secs <= secs ==> {
            &&& step.sends@.len() == 1
            &&& step.sends@[0].message@ == MessageView::Ping(Seq::empty())
            &&& step.sends@[0].required
        },
        !(0 < config.heartbeat_interval_secs <= secs) ==> step.sends@.len() == 0,
{
    law_views_show_all_messages(step.sends@);
}

/// A worker begins with the settings of its client, about to connect.
pub proof fn law_worker_begins_with_its_settings(
    config: &ClientConfig,
    worker: DataWorker,
    phase: WorkerPhase,
)
    requires
        call_ensures(DataWorker::new, (config,), worker),
        call_ensures(DataWorker::phase, (&worker,), phase),
    ensures
        worker@.token == config.token@,
        worker@.remote_port == config.remote_port,
        worker@.local_addr == config.local_addr@,
        worker@.connect_timeout_secs == config.connect_timeout_secs,
        worker@.heartbeat_interval_secs == config.heartbeat_interval_secs,
        worker@.phase is Opening,
        phase is Opening,
{
}

/// What a worker does next, in terms of its settings.
pub open spec fn does_next(worker: WorkerView, next: WorkerNext) -> bool {
    match worker.phase {
        WorkerPhase::Opening => next is Open,
        WorkerPhase::AwaitingStart => next is Receive,
        WorkerPhase::Dialing => next matches WorkerNext::DialLocal { address, secs } && address@
            == worker.local_addr && secs == worker.connect_timeout_secs,
        WorkerPhase::Bridging => next == WorkerNext::Bridge(
            if worker.heartbeat_interval_secs > 0 {
                Some(worker.heartbeat_interval_secs)
            } else {
                None
            },
        ),
        WorkerPhase::Closed => next is Over,
    }
}

/// A worker connects, waits for a message, dials its local target within the
/// configured time, relays with the configured heartbeat, or does nothing, as
/// its phase says.
pub proof fn law_worker_does_what_its_phase_says(worker: &DataWorker, next: WorkerNext)
    requires
        call_ensures(DataWorker::waiting, (worker,), next),
    ensures
        worker@.phase is Opening ==> next is Open,
        worker@.phase is AwaitingStart ==> next is Receive,
        worker@.phase is Dialing ==> (next matches WorkerNext::DialLocal { address, secs }
            && address@ == worker@.local_addr && secs == worker@.connect_timeout_secs),
        worker@.phase is Bridging && worker@.heartbeat_interval_secs > 0 ==> next
            == WorkerNext::Bridge(Some(worker@.heartbeat_interval_secs)),
        worker@.phase is Bridging && worker@.heartbeat_interval_secs == 0 ==> next
            == WorkerNext::Bridge(None),
        worker@.phase is Closed ==> next is Over,
{
}

/// Whatever happens, a worker keeps its settings; it ends with an error, or
/// does what the phase that it reached says.
pub proof fn law_worker_step_does_what_its_phase_says(
    worker: &mut DataWorker,
    event: WorkerEvent,
    step: WorkerStep,
)
    requires
        call_ensures(DataWorker::step, (worker, event), step),
    ensures
        final(worker)@ == (WorkerView { phase: final(worker)@.phase, ..old(worker)@ }),
        step.next is Fail ==> final(worker)@.phase is Closed,
        step.next !is Fail ==> does_next(final(worker)@, step.next),
        final(worker)@.phase is Bridging && old(worker)@.heartbeat_interval_secs > 0 ==> step.next
            == WorkerNext::Bridge(Some(old(worker)@.heartbeat_interval_secs)),
{
}

/// A worker ended with `error` and sent nothing.
pub open spec fn worker_ended_with(after: WorkerView, step: WorkerStep, error: Seq<char>) -> bool {
    &&& after.phase is Closed
    &&& step.sends@.len() == 0
    &&& step.next matches WorkerNext::Fail(told) && told@ == error
}

/// A worker that connected presents the configured token and port, in one
/// message that must be sent, and waits for START.
pub proof fn law_connected_worker_presents_itself(
    worker: &mut DataWorker,
    event: WorkerEvent,
    step: WorkerStep,
)
    requires
        call_ensures(DataWorker::step, (worker, event), step),
        old(worker)@.phase is Opening,
        event is Opened,
    ensures
        final(worker)@.phase is AwaitingStart,
        step.next is Receive,
        step.sends@.len() == 1,
        step.sends@[0].message@ == MessageView::Text(
            "HELLO "@ + old(worker)@.token + " "@ + decimal(old(worker)@.remote_port as nat),
        ),
        step.sends@[0].required,
{
    law_views_show_all_messages(step.sends@);
}

/// A waiting worker dials its local target exactly where the server says
/// START; a report of the server, anything else it says, or its silence, ends
/// the worker with an error of its own.
pub proof fn law_only_start_makes_a_worker_dial(
    worker: &mut DataWorker,
    event: WorkerEvent,
    step: WorkerStep,
    incoming: IncomingView,
    report: Seq<char>,
)
    requires
        call_ensures(DataWorker::step, (worker, event), step),
        old(worker)@.phase is AwaitingStart,
        event@ == WorkerEventView::Frame(incoming),
    ensures
        step.sends@.len() == 0,
        final(worker)@.phase is Dialing <==> incoming == IncomingView::Message(
            MessageView::Text("START"@),
        ),
        final(worker)@.phase is Dialing ==> (step.next matches WorkerNext::DialLocal {
            address,
            secs,
        } && address@ == old(worker)@.local_addr && secs == old(worker)@.connect_timeout_secs),
        incoming == IncomingView::Message(MessageView::Text("ERR "@ + report))
            ==> worker_ended_with(final(worker)@, step, "server rejected worker: "@ + report),
        incoming matches IncomingView::Message(MessageView::Text(text)) ==> (text != "START"@
            && !"ERR "@.is_prefix_of(text) ==> worker_ended_with(
            final(worker)@,
            step,
            "unexpected text command from server: "@ + text,
        )),
        incoming matches IncomingView::Message(message) && message is Close ==> worker_ended_with(
            final(worker)@,
            step,
            "server closed worker before START"@,
        ),
        incoming matches IncomingView::Message(message) && (message is Binary || message is Ping
            || message is Pong) ==> worker_ended_with(
            final(worker)@,
            step,
            "unexpected non-text command from server"@,
        ),
        incoming is RawFrame ==> worker_ended_with(
            final(worker)@,
            step,
            "unexpected non-text command from server"@,
        ),
        incoming matches IncomingView::Failed(error) ==> worker_ended_with(
            final(worker)@,
            step,
            error,
        ),
        incoming is Ended ==> worker_ended_with(final(worker)@, step, "server closed worker"@),
{
    law_views_show_all_messages(step.sends@);
    law_err_reads_back(report);
    law_frames_are_distinct("ERR "@ + report);
}

/// A worker whose local target is open confirms that, in one message that must
/// be sent, and relays. One whose target does not open tells the server why,
/// if the connection still takes it, and ends with an error.
pub proof fn law_worker_tells_how_its_target_opened(
    worker: &mut DataWorker,
    event: WorkerEvent,
    step: WorkerStep,
)
    requires
        call_ensures(DataWorker::step, (worker, event), step),
        old(worker)@.phase is Dialing,
    ensures
        event is LocalConnected ==> {
            &&& final(worker)@.phase is Bridging
            &&& step.next is Bridge
            &&& step.sends@.len() == 1
            &&& step.sends@[0].message@ == MessageView::Text("OK"@)
            &&& step.sends@[0].required
        },
        event@ matches WorkerEventView::LocalFailed(error) ==> {
            &&& final(worker)@.phase is Closed
            &&& step.sends@.len() == 1
            &&& step.sends@[0].message@ == MessageView::Text("ERR "@ + error)
            &&& !step.sends@[0].required
            &&& step.next matches WorkerNext::Fail(told) && told@ == error
        },
        event is LocalTimedOut ==> {
            &&& final(worker)@.phase is Closed
            &&& step.sends@.len() == 1
            &&& step.sends@[0].message@ == MessageView::Text("ERR "@ + "local connect timeout"@)
            &&& !step.sends@[0].required
            &&& step.next matches WorkerNext::Fail(told) && told@
                == "timed out opening local target "@ + old(worker)@.local_addr
                + "; check whether the local service is reachable"@
        },
        event@ matches WorkerEventView::LocalSetupFailed(error) ==> worker_ended_with(
            final(worker)@,
            step,
            error,
        ),
{
    law_views_show_all_messages(step.sends@);
}

/// An event that a phase of a worker does not wait for changes nothing and
/// sends nothing.
pub proof fn law_worker_event_out_of_turn_changes_nothing(
    worker: &mut DataWorker,
    event: WorkerEvent,
    step: WorkerStep,
)
    requires
        call_ensures(DataWorker::step, (worker, event), step),
        match old(worker)@.phase {
            WorkerPhase::Opening => event !is Opened,
            WorkerPhase::AwaitingStart => event !is Frame,
            WorkerPhase::Dialing => event is Opened || event is Frame,
            WorkerPhase::Bridging => true,
            WorkerPhase::Closed => true,
        },
    ensures
        final(worker)@ == old(worker)@,
        step.sends@.len() == 0,
        step.next !is Fail,
{
    law_views_show_all_messages(step.sends@);
}

} // verus!
