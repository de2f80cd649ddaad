//! What client and server achieve together: the laws of the conversation
//! between the two sides, each taken as it answers the other's messages.

use vstd::prelude::*;

use crate::client::{
    control_answer, heartbeat_of, worker_answer, ControlEventView, ControlNextView, WorkerAnswer,
    WorkerEventView, WorkerNextView, WorkerPhase, WorkerView,
};
use crate::message::{IncomingView, OutgoingView};
use crate::pool::{grown, kept, missing, worker_limit, WorkerStateView};
use crate::protocol::{
    control_text, err_text, hello_text, law_control_reads_back, law_err_reads_back,
    law_frames_are_distinct, law_hello_reads_back,
};
use crate::server::{
    law_right_token_is_accepted, law_wrong_token_is_refused, session_answer, Phase,
    SessionAnswer, SessionEventView, SessionNextView, SessionView, Signal,
};
use crate::text::unspaced;

verus! {

/// What the peer receives when `sends`, a single message, arrives.
pub open spec fn arriving(sends: Seq<OutgoingView>) -> IncomingView {
    IncomingView::Message(sends[0].message)
}

/// The server's session after an answer.
pub open spec fn session_after(session: SessionView, answer: SessionAnswer) -> SessionView {
    SessionView { phase: answer.phase, ..session }
}

/// The server's session after an event.
pub open spec fn session_then(session: SessionView, event: SessionEventView) -> SessionView {
    session_after(session, session_answer(session, event))
}

/// The client's worker after an answer.
pub open spec fn worker_after(worker: WorkerView, answer: WorkerAnswer) -> WorkerView {
    WorkerView { phase: answer.phase, ..worker }
}

/// The server's session once it received what `worker` presents itself with,
/// mapped its port and queued it as idle.
pub open spec fn queued(session: SessionView, worker: WorkerView) -> SessionView {
    let hello = worker_answer(worker, WorkerEventView::Opened);
    session_then(
        session_then(
            session_then(session, SessionEventView::Frame(arriving(hello.sends))),
            SessionEventView::Mapped,
        ),
        SessionEventView::Joined,
    )
}

/// A new connection on either side.
pub open spec fn both_new(session: SessionView, worker: WorkerView) -> bool {
    session.phase is AwaitingHello && worker.phase is Opening
}

/// Both sides were given the same token, and it is a single word.
pub open spec fn share_a_token(session: SessionView, token: Seq<char>) -> bool {
    session.token == token && token.len() > 0 && unspaced(token)
}

/// A worker with the server's token ends up as an idle worker of the port
/// that the client chose.
pub proof fn law_worker_is_queued_for_its_port(session: SessionView, worker: WorkerView)
    requires
        both_new(session, worker),
        share_a_token(session, worker.token),
    ensures
        queued(session, worker) == (SessionView {
            phase: Phase::Idle(worker.remote_port),
            ..session
        }),
{
    law_right_token_is_accepted(session, worker.remote_port);
}

/// A client that opened its control connection fills its pool: so many workers
/// are started that it runs as many as it keeps, whatever ran before, and never
/// more than may run.
pub proof fn law_opened_client_fills_its_pool(
    workers: WorkerStateView,
    max_total_workers: usize,
    token: Seq<char>,
    remote_port: u16,
    worker_pool_size: usize,
    heartbeat_interval_secs: u64,
)
    requires
        workers.active_workers <= worker_limit(max_total_workers),
    ensures
        ({
            let opened = control_answer(
                token,
                remote_port,
                worker_pool_size,
                heartbeat_interval_secs,
                ControlEventView::Opened,
            );
            &&& opened.next matches ControlNextView::SpawnWorkers(size)
            &&& size == worker_pool_size
            &&& ({
                let filled = grown(workers, missing(workers, size, max_total_workers));
                &&& filled.active_workers >= kept(size, max_total_workers)
                &&& filled.active_workers >= workers.active_workers
                &&& filled.active_workers <= worker_limit(max_total_workers)
            })
        }),
{
}

/// The handshake joins both ends. When a remote client is assigned to an idle
/// worker, the server's message makes the client open its local target; once
/// that is open, the client relays, and its message makes the server relay
/// too, for the port that the client chose.
pub proof fn law_handshake_joins_both_ends(session: SessionView, worker: WorkerView)
    requires
        both_new(session, worker),
        share_a_token(session, worker.token),
    ensures
        ({
            let hello = worker_answer(worker, WorkerEventView::Opened);
            let idle = queued(session, worker);
            let start = session_answer(idle, SessionEventView::Assigned);
            let waiting = worker_after(worker, hello);
            let dial = worker_answer(waiting, WorkerEventView::Frame(arriving(start.sends)));
            let ok = worker_answer(worker_after(waiting, dial), WorkerEventView::LocalConnected);
            let joined = session_answer(
                session_after(idle, start),
                SessionEventView::Frame(arriving(ok.sends)),
            );
            &&& hello.sends.len() == 1 && start.sends.len() == 1 && ok.sends.len() == 1
            &&& dial.next == (WorkerNextView::DialLocal {
                address: worker.local_addr,
                secs: worker.connect_timeout_secs,
            })
            &&& ok.next == WorkerNextView::Bridge(heartbeat_of(worker.heartbeat_interval_secs))
            &&& joined.phase == Phase::Bridging(worker.remote_port)
            &&& joined.next == SessionNextView::Bridge(None)
        }),
{
    law_worker_is_queued_for_its_port(session, worker);
}

/// A local target that cannot be opened ends both sides, and the server's
/// error names the reason that the client met.
pub proof fn law_local_failure_reaches_the_server(
    session: SessionView,
    worker: WorkerView,
    reason: Seq<char>,
)
    requires
        session.phase is Starting,
        worker.phase is Dialing,
    ensures
        ({
            let failed = worker_answer(worker, WorkerEventView::LocalFailed(reason));
            let told = session_answer(session, SessionEventView::Frame(arriving(failed.sends)));
            &&& failed.next == WorkerNextView::Fail(reason)
            &&& failed.sends.len() == 1
            &&& told.next == SessionNextView::Fail(
                "client failed to open local target: "@ + reason,
            )
        }),
{
    law_err_reads_back(reason);
    law_frames_are_distinct(err_text(reason));
}

/// A worker and a control connection that present another token than the
/// server's learn that from the server's reply.
pub proof fn law_wrong_token_is_told_to_the_client(
    session: SessionView,
    worker: WorkerView,
    worker_pool_size: usize,
    heartbeat_interval_secs: u64,
)
    requires
        both_new(session, worker),
        worker.token.len() > 0,
        unspaced(worker.token),
        worker.token != session.token,
    ensures
        ({
            let hello = worker_answer(worker, WorkerEventView::Opened);
            let refusal = session_answer(session, SessionEventView::Frame(arriving(hello.sends)));
            let told = worker_answer(
                worker_after(worker, hello),
                WorkerEventView::Frame(arriving(refusal.sends)),
            );
            &&& refusal.next is Fail
            &&& refusal.sends.len() == 1
            &&& told.next == WorkerNextView::Fail("server rejected worker: "@ + "invalid token"@)
        }),
        ({
            let control = control_answer(
                worker.token,
                worker.remote_port,
                worker_pool_size,
                heartbeat_interval_secs,
                ControlEventView::Opened,
            );
            let refusal = session_answer(session, SessionEventView::Frame(arriving(control.sends)));
            let told = control_answer(
                worker.token,
                worker.remote_port,
                worker_pool_size,
                heartbeat_interval_secs,
                ControlEventView::Frame(arriving(refusal.sends)),
            );
            &&& refusal.next is Fail
            &&& refusal.sends.len() == 1
            &&& told.next == ControlNextView::Fail(
                "server rejected control connection: "@ + "invalid token"@,
            )
        }),
{
    let hello = hello_text(worker.token, worker.remote_port);
    let control = control_text(worker.token, worker.remote_port);
    law_hello_reads_back(worker.token, worker.remote_port);
    law_control_reads_back(worker.token, worker.remote_port);
    law_wrong_token_is_refused(session, hello, worker.token, worker.remote_port);
    law_wrong_token_is_refused(session, control, worker.token, worker.remote_port);
    law_frames_are_distinct(err_text("invalid token"@));
}

/// A control connection with the server's token is served: each notification
/// that a worker is wanted, or that several were missed, makes the client
/// start one.
pub proof fn law_wanted_worker_is_started(
    session: SessionView,
    remote_port: u16,
    worker_pool_size: usize,
    heartbeat_interval_secs: u64,
    signal: Signal,
)
    requires
        session.phase is AwaitingHello,
        share_a_token(session, session.token),
        signal !is Closed,
    ensures
        ({
            let control = control_answer(
                session.token,
                remote_port,
                worker_pool_size,
                heartbeat_interval_secs,
                ControlEventView::Opened,
            );
            let serving = session_then(
                session_then(session, SessionEventView::Frame(arriving(control.sends))),
                SessionEventView::Mapped,
            );
            let connect = session_answer(serving, SessionEventView::Notified(signal));
            let asked = control_answer(
                session.token,
                remote_port,
                worker_pool_size,
                heartbeat_interval_secs,
                ControlEventView::Frame(arriving(connect.sends)),
            );
            &&& control.sends.len() == 1
            &&& serving.phase == Phase::Control(remote_port)
            &&& connect.sends.len() == 1
            &&& session_after(serving, connect) == serving
            &&& asked.next is SpawnWorker
        }),
{
    law_right_token_is_accepted(session, remote_port);
}

/// Heartbeats keep a control connection open: when nothing came for their
/// interval, the server answers the client's ping by a pong, and neither side
/// leaves what it was doing.
pub proof fn law_heartbeat_keeps_the_control_connection(
    session: SessionView,
    token: Seq<char>,
    remote_port: u16,
    worker_pool_size: usize,
    heartbeat_interval_secs: u64,
    silence_secs: u64,
)
    requires
        session.phase is Control,
        0 < heartbeat_interval_secs <= silence_secs,
    ensures
        ({
            let ping = control_answer(
                token,
                remote_port,
                worker_pool_size,
                heartbeat_interval_secs,
                ControlEventView::Silence(silence_secs),
            );
            let pong = session_answer(session, SessionEventView::Frame(arriving(ping.sends)));
            let heard = control_answer(
                token,
                remote_port,
                worker_pool_size,
                heartbeat_interval_secs,
                ControlEventView::Frame(arriving(pong.sends)),
            );
            &&& ping.sends.len() == 1 && ping.next is Wait
            &&& pong.sends.len() == 1 && session_after(session, pong) == session
            &&& heard.sends.len() == 0 && heard.next is Wait
        }),
{
}

} // verus!
