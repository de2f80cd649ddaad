//! The hand-over of remote connections to idle workers.
//!
//! A dispatcher's state is what it does next, together with the connection
//! that is waiting; each outcome of what it did gives the next state. A
//! connection is moved from state to state, so that it is never lost on the
//! way and never handed over twice.

use vstd::prelude::*;

verus! {

/// How many seconds a dispatcher waits for a worker before it asks again.
pub const WAIT_SECS: u64 = 5;

/// The error of a dispatcher whose idle workers can reach it no more.
pub const LOST_QUEUE: &'static str = "worker dispatcher lost its idle worker queue";

/// What a dispatcher does next. `S` is a remote connection, `W` an idle
/// worker.
#[derive(Debug)]
pub enum Dispatch<S, W> {
    /// Wait for a remote connection.
    Receive,
    /// Look, without waiting, for an idle worker for the connection.
    TryIdle(S),
    /// Hand the connection to the worker.
    Assign(S, W),
    /// Ask the client for a worker, whether or not it listens, and wait for
    /// an idle worker.
    NotifyAndWait(S),
    /// End: no remote connection will come.
    Finished,
    /// End with the error that the queue of idle workers is lost.
    Failed,
}

/// What a look at the idle workers finds.
#[derive(Debug)]
pub enum TryIdle<W> {
    Worker(W),
    Empty,
    Disconnected,
}

/// What a wait for an idle worker brings.
#[derive(Debug)]
pub enum WaitIdle<W> {
    Worker(W),
    Disconnected,
    TimedOut,
}

/// What follows the wait for a remote connection.
pub open spec fn after_receive<S, W>(stream: Option<S>) -> Dispatch<S, W> {
    match stream {
        Some(stream) => Dispatch::TryIdle(stream),
        None => Dispatch::Finished,
    }
}

/// What follows a look at the idle workers.
pub open spec fn after_try<S, W>(stream: S, found: TryIdle<W>) -> Dispatch<S, W> {
    match found {
        TryIdle::Worker(worker) => Dispatch::Assign(stream, worker),
        TryIdle::Empty => Dispatch::NotifyAndWait(stream),
        TryIdle::Disconnected => Dispatch::Failed,
    }
}

/// What follows a hand-over: a worker that is gone gives the connection back.
pub open spec fn after_assign<S, W>(outcome: Result<(), S>) -> Dispatch<S, W> {
    match outcome {
        Ok(()) => Dispatch::Receive,
        Err(stream) => Dispatch::TryIdle(stream),
    }
}

/// What follows a wait for an idle worker.
pub open spec fn after_wait<S, W>(stream: S, found: WaitIdle<W>) -> Dispatch<S, W> {
    match found {
        WaitIdle::Worker(worker) => Dispatch::Assign(stream, worker),
        WaitIdle::Disconnected => Dispatch::Failed,
        WaitIdle::TimedOut => Dispatch::TryIdle(stream),
    }
}

impl<S, W> Dispatch<S, W> {
    /// Goes on after the wait for a remote connection.
    pub fn received(stream: Option<S>) -> (next: Dispatch<S, W>)
        ensures
            next == after_receive::<S, W>(stream),
    {
        match stream {
            Some(stream) => Dispatch::TryIdle(stream),
            None => Dispatch::Finished,
        }
    }

    /// Goes on after a look at the idle workers.
    pub fn tried(stream: S, found: TryIdle<W>) -> (next: Dispatch<S, W>)
        ensures
            next == after_try(stream, found),
    {
        match found {
            TryIdle::Worker(worker) => Dispatch::Assign(stream, worker),
            TryIdle::Empty => Dispatch::NotifyAndWait(stream),
            TryIdle::Disconnected => Dispatch::Failed,
        }
    }

    /// Goes on after a hand-over.
    pub fn assigned(outcome: Result<(), S>) -> (next: Dispatch<S, W>)
        ensures
            next == after_assign::<S, W>(outcome),
    {
        match outcome {
            Ok(()) => Dispatch::Receive,
            Err(stream) => Dispatch::TryIdle(stream),
        }
    }

    /// Goes on after a wait for an idle worker.
    pub fn waited(stream: S, found: WaitIdle<W>) -> (next: Dispatch<S, W>)
        ensures
            next == after_wait(stream, found),
    {
        match found {
            WaitIdle::Worker(worker) => Dispatch::Assign(stream, worker),
            WaitIdle::Disconnected => Dispatch::Failed,
            WaitIdle::TimedOut => Dispatch::TryIdle(stream),
        }
    }
}

/// The outcome of what a dispatcher did.
pub enum Outcome<S, W> {
    Received(Option<S>),
    Tried(TryIdle<W>),
    Assigned(Result<(), S>),
    Waited(WaitIdle<W>),
}

/// A dispatcher and what it has done so far: the connections that arrived and
/// those that a worker took, each in order; how many idle workers it drew, and
/// how many of them turned out to be gone.
pub struct Ledger<S, W> {
    pub state: Dispatch<S, W>,
    pub arrived: Seq<S>,
    pub delivered: Seq<S>,
    pub workers_drawn: nat,
    pub workers_gone: nat,
}

/// The state that follows an outcome. One that the state does not wait for
/// changes nothing.
pub open spec fn dispatch_next<S, W>(state: Dispatch<S, W>, outcome: Outcome<S, W>) -> Dispatch<
    S,
    W,
> {
    match (state, outcome) {
        (Dispatch::Receive, Outcome::Received(stream)) => after_receive(stream),
        (Dispatch::TryIdle(stream), Outcome::Tried(found)) => after_try(stream, found),
        (Dispatch::Assign(_, _), Outcome::Assigned(outcome)) => after_assign(outcome),
        (Dispatch::NotifyAndWait(stream), Outcome::Waited(found)) => after_wait(stream, found),
        (state, _) => state,
    }
}

/// A connection that a worker does not take is the one that it was handed.
pub open spec fn honest<S, W>(state: Dispatch<S, W>, outcome: Outcome<S, W>) -> bool {
    state matches Dispatch::Assign(stream, _) ==> (outcome matches Outcome::Assigned(Err(back))
        ==> back == stream)
}

/// The books after one more outcome.
pub open spec fn ledger_next<S, W>(ledger: Ledger<S, W>, outcome: Outcome<S, W>) -> Ledger<S, W> {
    let state = dispatch_next(ledger.state, outcome);
    match (ledger.state, outcome) {
        (Dispatch::Receive, Outcome::Received(Some(stream))) => Ledger {
            state,
            arrived: ledger.arrived.push(stream),
            ..ledger
        },
        (Dispatch::Assign(stream, _), Outcome::Assigned(Ok(()))) => Ledger {
            state,
            delivered: ledger.delivered.push(stream),
            ..ledger
        },
        (Dispatch::TryIdle(_), Outcome::Tried(TryIdle::Worker(_))) => Ledger {
            state,
            workers_drawn: ledger.workers_drawn + 1,
            ..ledger
        },
        (Dispatch::NotifyAndWait(_), Outcome::Waited(WaitIdle::Worker(_))) => Ledger {
            state,
            workers_drawn: ledger.workers_drawn + 1,
            ..ledger
        },
        (Dispatch::Assign(_, _), Outcome::Assigned(Err(_))) => Ledger {
            state,
            workers_gone: ledger.workers_gone + 1,
            ..ledger
        },
        _ => Ledger { state, ..ledger },
    }
}

/// The books after `outcomes`.
pub open spec fn ledger_run<S, W>(outcomes: Seq<Outcome<S, W>>) -> Ledger<S, W>
    decreases outcomes.len(),
{
    if outcomes.len() == 0 {
        Ledger {
            state: Dispatch::Receive,
            arrived: Seq::empty(),
            delivered: Seq::empty(),
            workers_drawn: 0,
            workers_gone: 0,
        }
    } else {
        ledger_next(ledger_run(outcomes.drop_last()), outcomes.last())
    }
}

/// Every connection that a worker does not take is the one that it was
/// handed.
pub open spec fn all_honest<S, W>(outcomes: Seq<Outcome<S, W>>) -> bool
    decreases outcomes.len(),
{
    outcomes.len() > 0 ==> all_honest(outcomes.drop_last()) && honest(
        ledger_run(outcomes.drop_last()).state,
        outcomes.last(),
    )
}

/// The connection that a state holds.
pub open spec fn waiting<S, W>(state: Dispatch<S, W>) -> Seq<S> {
    match state {
        Dispatch::TryIdle(stream) => seq![stream],
        Dispatch::Assign(stream, _) => seq![stream],
        Dispatch::NotifyAndWait(stream) => seq![stream],
        _ => Seq::empty(),
    }
}

/// Remote connections are served in the order in which they came: as long as
/// the queue of idle workers is there, those that arrived are those that were
/// delivered, and then the one that is waiting. If the queue is lost, the one
/// that was waiting is lost with it.
pub proof fn law_connections_are_served_in_order<S, W>(outcomes: Seq<Outcome<S, W>>)
    requires
        all_honest(outcomes),
    ensures
        ({
            let ledger = ledger_run(outcomes);
            &&& ledger.state !is Failed ==> ledger.arrived == ledger.delivered + waiting(
                ledger.state,
            )
            &&& ledger.state is Failed ==> ledger.arrived.len() == ledger.delivered.len() + 1
                && ledger.delivered == ledger.arrived.drop_last()
        }),
    decreases outcomes.len(),
{
    if outcomes.len() > 0 {
        law_connections_are_served_in_order(outcomes.drop_last());
        let before = ledger_run(outcomes.drop_last());
        let after = ledger_run(outcomes);
        if before.state is Receive {
            assert(before.arrived =~= before.delivered);
        }
        if after.state !is Failed {
            assert(after.arrived =~= after.delivered + waiting(after.state));
        } else if before.state !is Failed {
            assert(after.delivered =~= after.arrived.drop_last());
        }
    } else {
        assert(ledger_run(outcomes).arrived =~= ledger_run(outcomes).delivered + waiting(
            ledger_run(outcomes).state,
        ));
    }
}

/// A remote connection takes one idle worker: of the workers that were drawn,
/// each one took a connection, was gone already, or is about to be handed one.
pub proof fn law_one_worker_per_connection<S, W>(outcomes: Seq<Outcome<S, W>>)
    ensures
        ({
            let ledger = ledger_run(outcomes);
            ledger.workers_drawn == ledger.delivered.len() + ledger.workers_gone + if ledger.state
                is Assign {
                1nat
            } else {
                0nat
            }
        }),
    decreases outcomes.len(),
{
    if outcomes.len() > 0 {
        law_one_worker_per_connection(outcomes.drop_last());
    }
}

/// A waiting connection is given up for one reason only: that the queue of
/// idle workers is lost. A worker that is gone, or a wait in vain, leaves it
/// waiting.
pub proof fn law_waiting_connection_is_kept<S, W>(state: Dispatch<S, W>, outcome: Outcome<S, W>)
    requires
        waiting(state).len() > 0,
        honest(state, outcome),
        outcome matches Outcome::Tried(found) ==> found !is Disconnected,
        outcome matches Outcome::Waited(found) ==> found !is Disconnected,
        outcome matches Outcome::Assigned(taken) ==> taken is Err,
    ensures
        waiting(dispatch_next(state, outcome)) == waiting(state),
{
}

/// A remote connection that comes is offered to an idle worker first; without
/// one, the dispatcher is done.
pub proof fn law_arriving_connection_is_offered<S, W>(stream: Option<S>, next: Dispatch<S, W>)
    requires
        call_ensures(Dispatch::<S, W>::received, (stream,), next),
    ensures
        match stream {
            Some(stream) => next == Dispatch::<S, W>::TryIdle(stream),
            None => next is Finished,
        },
{
}

/// An idle worker that is found, at once or after a wait, is handed the very
/// connection that waits.
pub proof fn law_found_worker_gets_the_connection<S, W>(
    stream: S,
    worker: W,
    at_once: Dispatch<S, W>,
    after_wait: Dispatch<S, W>,
)
    requires
        call_ensures(Dispatch::<S, W>::tried, (stream, TryIdle::Worker(worker)), at_once),
        call_ensures(Dispatch::<S, W>::waited, (stream, WaitIdle::Worker(worker)), after_wait),
    ensures
        at_once == Dispatch::Assign(stream, worker),
        after_wait == Dispatch::Assign(stream, worker),
{
}

/// Where no worker is idle, the client is asked for one; a wait in vain, or a
/// worker that is gone, makes the dispatcher look again for the same
/// connection.
pub proof fn law_connection_without_a_worker_waits_on<S, W>(
    stream: S,
    none_idle: Dispatch<S, W>,
    in_vain: Dispatch<S, W>,
    gone: Dispatch<S, W>,
)
    requires
        call_ensures(Dispatch::<S, W>::tried, (stream, TryIdle::Empty), none_idle),
        call_ensures(Dispatch::<S, W>::waited, (stream, WaitIdle::TimedOut), in_vain),
        call_ensures(Dispatch::<S, W>::assigned, (Err(stream),), gone),
    ensures
        none_idle == Dispatch::<S, W>::NotifyAndWait(stream),
        in_vain == Dispatch::<S, W>::TryIdle(stream),
        gone == Dispatch::<S, W>::TryIdle(stream),
{
}

/// A connection that a worker took lets the next one come; a lost queue of
/// idle workers ends the dispatcher, whenever that is found out, with an error
/// that says so.
pub proof fn law_dispatcher_goes_on_or_fails<S, W>(
    stream: S,
    taken: Dispatch<S, W>,
    at_once: Dispatch<S, W>,
    after_wait: Dispatch<S, W>,
)
    requires
        call_ensures(Dispatch::<S, W>::assigned, (Ok(()),), taken),
        call_ensures(Dispatch::<S, W>::tried, (stream, TryIdle::Disconnected), at_once),
        call_ensures(Dispatch::<S, W>::waited, (stream, WaitIdle::Disconnected), after_wait),
    ensures
        taken is Receive,
        at_once is Failed,
        after_wait is Failed,
        LOST_QUEUE@ == "worker dispatcher lost its idle worker queue"@,
        WAIT_SECS == 5,
{
}

} // verus!
