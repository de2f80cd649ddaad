//! The relay between a WebSocket and a TCP connection.
//!
//! Each event of either side is answered by effects, to be performed in
//! order, and by whether the relay goes on. Times are nanoseconds since the
//! relay began.

use vstd::prelude::*;

use crate::message::{
    must_send, try_send, Incoming, IncomingView, Message, MessageView, Outgoing, OutgoingView,
};

verus! {

/// The most bytes that are read from TCP at once.
pub const BUFFER_SIZE: usize = 16 * 1024;

/// The nanoseconds of a second.
pub const SECOND: u64 = 1_000_000_000;

/// How late a heartbeat may come without delaying those that follow.
pub const GRACE: u64 = 5_000_000;

/// What can happen while a relay waits.
#[derive(Debug)]
pub enum BridgeEvent {
    /// Bytes were read from TCP; none at the end of the stream.
    TcpRead(Vec<u8>),
    /// Reading from TCP failed.
    TcpFailed(String),
    /// The WebSocket brought something.
    Ws(Incoming),
    /// The heartbeat timer fired, at this time.
    Heartbeat(u64),
}

/// What a relay does. A failed write or shutdown ends it with that error.
#[derive(Debug)]
pub enum BridgeEffect {
    /// Send a message to the WebSocket.
    Send(Outgoing),
    /// Write all these bytes to TCP.
    Write(Vec<u8>),
    /// Shut down the writing side of TCP.
    Shutdown,
}

/// Whether a relay goes on.
#[derive(Debug)]
pub enum BridgeNext {
    Continue,
    Finish,
    Fail(String),
}

/// The answer to one event.
#[derive(Debug)]
pub struct BridgeStep {
    pub effects: Vec<BridgeEffect>,
    pub next: BridgeNext,
}

/// An event, as mathematical values.
pub enum BridgeEventView {
    TcpRead(Seq<u8>),
    TcpFailed(Seq<char>),
    Ws(IncomingView),
    Heartbeat(u64),
}

/// An effect, as mathematical values.
pub enum BridgeEffectView {
    Send(OutgoingView),
    Write(Seq<u8>),
    Shutdown,
}

/// Whether a relay goes on, as mathematical values.
pub enum BridgeNextView {
    Continue,
    Finish,
    Fail(Seq<char>),
}

/// The answer to one event, or to several, as mathematical values.
pub struct BridgeStepView {
    pub effects: Seq<BridgeEffectView>,
    pub next: BridgeNextView,
}

impl View for BridgeEvent {
    type V = BridgeEventView;

    open spec fn view(&self) -> BridgeEventView {
        match self {
            BridgeEvent::TcpRead(data) => BridgeEventView::TcpRead(data@),
            BridgeEvent::TcpFailed(error) => BridgeEventView::TcpFailed(error@),
            BridgeEvent::Ws(incoming) => BridgeEventView::Ws(incoming@),
            BridgeEvent::Heartbeat(at) => BridgeEventView::Heartbeat(*at),
        }
    }
}

impl View for BridgeEffect {
    type V = BridgeEffectView;

    open spec fn view(&self) -> BridgeEffectView {
        match self {
            BridgeEffect::Send(outgoing) => BridgeEffectView::Send(outgoing@),
            BridgeEffect::Write(data) => BridgeEffectView::Write(data@),
            BridgeEffect::Shutdown => BridgeEffectView::Shutdown,
        }
    }
}

impl View for BridgeNext {
    type V = BridgeNextView;

    open spec fn view(&self) -> BridgeNextView {
        match self {
            BridgeNext::Continue => BridgeNextView::Continue,
            BridgeNext::Finish => BridgeNextView::Finish,
            BridgeNext::Fail(error) => BridgeNextView::Fail(error@),
        }
    }
}

impl View for BridgeStep {
    type V = BridgeStepView;

    open spec fn view(&self) -> BridgeStepView {
        BridgeStepView {
            effects: self.effects@.map_values(|e: BridgeEffect| e@),
            next: self.next@,
        }
    }
}

/// Goes on after `effects`.
pub open spec fn go_on(effects: Seq<BridgeEffectView>) -> BridgeStepView {
    BridgeStepView { effects, next: BridgeNextView::Continue }
}

/// Is over after `effects`.
pub open spec fn finish(effects: Seq<BridgeEffectView>) -> BridgeStepView {
    BridgeStepView { effects, next: BridgeNextView::Finish }
}

/// Is over with an error.
pub open spec fn fail(error: Seq<char>) -> BridgeStepView {
    BridgeStepView { effects: Seq::empty(), next: BridgeNextView::Fail(error) }
}

/// The heartbeats of a relay.
#[derive(Debug)]
pub struct Relay {
    period: Option<u64>,
    due: Option<u64>,
}

/// The heartbeats of a relay, as mathematical values.
pub struct RelayView {
    /// The time between two heartbeats, where they are on.
    pub period: Option<u64>,
    /// When the next heartbeat is due, if ever.
    pub due: Option<u64>,
}

impl View for Relay {
    type V = RelayView;

    closed spec fn view(&self) -> RelayView {
        RelayView { period: self.period, due: self.due }
    }
}

/// A time that can be counted: less than six centuries.
pub open spec fn counted(time: int) -> Option<u64> {
    if time <= u64::MAX {
        Some(time as u64)
    } else {
        None
    }
}

/// The time between two heartbeats that are `interval_secs` seconds apart;
/// none where heartbeats are off, or where it cannot be counted.
pub open spec fn period_of(interval_secs: Option<u64>) -> Option<u64> {
    match interval_secs {
        Some(secs) => counted(secs * SECOND),
        None => None,
    }
}

/// The time between two heartbeats, for a relay.
pub fn heartbeat_period(interval_secs: Option<u64>) -> (period: Option<u64>)
    ensures
        period == period_of(interval_secs),
{
    match interval_secs {
        Some(secs) => secs.checked_mul(SECOND),
        None => None,
    }
}

/// A relay that begins: its first heartbeat is due after one period.
pub open spec fn relay_start(period: Option<u64>) -> RelayView {
    RelayView { period, due: period }
}

/// A heartbeat is due at a time.
pub open spec fn heartbeat_due(relay: RelayView, at: u64) -> bool {
    relay.period is Some && relay.due is Some && relay.due->0 <= at
}

/// When the heartbeat is due that follows the one that was due at `due` and
/// came at `at`: one period later, counted from when it came where that was
/// too late.
pub open spec fn next_due(due: u64, at: u64, period: u64) -> Option<u64> {
    if at > due + GRACE {
        counted(at + period)
    } else {
        counted(due + period)
    }
}

/// The heartbeats of a relay after an event.
pub open spec fn relay_after(relay: RelayView, event: BridgeEventView) -> RelayView {
    match event {
        BridgeEventView::Heartbeat(at) => if heartbeat_due(relay, at) {
            RelayView { due: next_due(relay.due->0, at, relay.period->0), ..relay }
        } else {
            relay
        },
        _ => relay,
    }
}

/// How a relay answers an event. What TCP brings goes out as binary messages
/// and what binary messages bring goes to TCP; a ping is answered by a pong
/// with its payload; the end of one side is passed on to the other. The
/// heartbeat timer makes it ping where a heartbeat is due.
pub open spec fn bridge_answer(relay: RelayView, event: BridgeEventView) -> BridgeStepView {
    match event {
        BridgeEventView::TcpRead(data) => if data.len() == 0 {
            finish(seq![BridgeEffectView::Send(try_send(MessageView::Close(None)))])
        } else {
            go_on(seq![BridgeEffectView::Send(must_send(MessageView::Binary(data)))])
        },
        BridgeEventView::TcpFailed(error) => fail(error),
        BridgeEventView::Ws(IncomingView::Message(MessageView::Binary(data))) => go_on(
            seq![BridgeEffectView::Write(data)],
        ),
        BridgeEventView::Ws(IncomingView::Message(MessageView::Ping(data))) => go_on(
            seq![BridgeEffectView::Send(must_send(MessageView::Pong(data)))],
        ),
        BridgeEventView::Ws(IncomingView::Message(MessageView::Close(frame))) => finish(
            seq![
                BridgeEffectView::Send(try_send(MessageView::Close(frame))),
                BridgeEffectView::Shutdown,
            ],
        ),
        BridgeEventView::Ws(IncomingView::Message(MessageView::Pong(_))) => go_on(Seq::empty()),
        BridgeEventView::Ws(IncomingView::Message(MessageView::Text(_))) => go_on(Seq::empty()),
        BridgeEventView::Ws(IncomingView::RawFrame) => go_on(Seq::empty()),
        BridgeEventView::Ws(IncomingView::Failed(error)) => fail(error),
        BridgeEventView::Ws(IncomingView::Ended) => finish(seq![BridgeEffectView::Shutdown]),
        BridgeEventView::Heartbeat(at) => if heartbeat_due(relay, at) {
            go_on(seq![BridgeEffectView::Send(must_send(MessageView::Ping(Seq::empty())))])
        } else {
            go_on(Seq::empty())
        },
    }
}

impl Relay {
    /// A relay that begins, with a heartbeat every `period`.
    pub fn new(period: Option<u64>) -> (relay: Relay)
        requires
            period != Some(0u64),
        ensures
            relay@ == relay_start(period),
    {
        Relay { period, due: period }
    }

    /// When the heartbeat timer has to fire, if ever.
    pub fn due(&self) -> (due: Option<u64>)
        ensures
            due == self@.due,
    {
        self.due
    }

    /// The heartbeat timer fired at `at`: whether a heartbeat is due.
    fn beat(&mut self, at: u64) -> (is_due: bool)
        ensures
            is_due == heartbeat_due(old(self)@, at),
            final(self)@ == relay_after(old(self)@, BridgeEventView::Heartbeat(at)),
    {
        if let (Some(period), Some(due)) = (self.period, self.due) {
            if due <= at {
                self.due = if at - due > GRACE {
                    at.checked_add(period)
                } else {
                    due.checked_add(period)
                };
                return true;
            }
        }
        false
    }

    /// Answers one event of a relay.
    pub fn step(&mut self, event: BridgeEvent) -> (step: BridgeStep)
        ensures
            step@ == bridge_answer(old(self)@, event@),
            final(self)@ == relay_after(old(self)@, event@),
    {
        let ghost asked = event@;
        let mut effects: Vec<BridgeEffect> = Vec::new();
        let next = match event {
            BridgeEvent::TcpRead(data) => {
                if data.len() == 0 {
                    effects.push(BridgeEffect::Send(Outgoing {
                        message: Message::Close(None),
                        required: false,
                    }));
                    BridgeNext::Finish
                } else {
                    effects.push(BridgeEffect::Send(Outgoing {
                        message: Message::Binary(data),
                        required: true,
                    }));
                    BridgeNext::Continue
                }
            },
            BridgeEvent::TcpFailed(error) => BridgeNext::Fail(error),
            BridgeEvent::Ws(Incoming::Message(Message::Binary(data))) => {
                effects.push(BridgeEffect::Write(data));
                BridgeNext::Continue
            },
            BridgeEvent::Ws(Incoming::Message(Message::Ping(data))) => {
                effects.push(BridgeEffect::Send(Outgoing {
                    message: Message::Pong(data),
                    required: true,
                }));
                BridgeNext::Continue
            },
            BridgeEvent::Ws(Incoming::Message(Message::Close(frame))) => {
                effects.push(BridgeEffect::Send(Outgoing {
                    message: Message::Close(frame),
                    required: false,
                }));
                effects.push(BridgeEffect::Shutdown);
                BridgeNext::Finish
            },
            BridgeEvent::Ws(Incoming::Message(Message::Pong(_))) => BridgeNext::Continue,
            BridgeEvent::Ws(Incoming::Message(Message::Text(_))) => BridgeNext::Continue,
            BridgeEvent::Ws(Incoming::RawFrame) => BridgeNext::Continue,
            BridgeEvent::Ws(Incoming::Failed(error)) => BridgeNext::Fail(error),
            BridgeEvent::Ws(Incoming::Ended) => {
                effects.push(BridgeEffect::Shutdown);
                BridgeNext::Finish
            },
            BridgeEvent::Heartbeat(at) => {
                if self.beat(at) {
                    effects.push(BridgeEffect::Send(Outgoing {
                        message: Message::Ping(Vec::new()),
                        required: true,
                    }));
                }
                BridgeNext::Continue
            },
        };
        let step = BridgeStep { effects, next };
        assert(step@.effects =~= bridge_answer(old(self)@, asked).effects);
        step
    }
}

/// How many of `events` a relay handles before it is over.
pub open spec fn handled(relay: RelayView, events: Seq<BridgeEventView>) -> nat
    decreases events.len(),
{
    if events.len() == 0 {
        0
    } else if bridge_answer(relay, events.first()).next is Continue {
        1 + handled(relay_after(relay, events.first()), events.drop_first())
    } else {
        1
    }
}

/// What a relay does on `events`, and how it stands after them.
pub open spec fn bridge_run(relay: RelayView, events: Seq<BridgeEventView>) -> BridgeStepView
    decreases events.len(),
{
    if events.len() == 0 {
        go_on(Seq::empty())
    } else {
        let first = bridge_answer(relay, events.first());
        if first.next is Continue {
            let rest = bridge_run(relay_after(relay, events.first()), events.drop_first());
            BridgeStepView { effects: first.effects + rest.effects, next: rest.next }
        } else {
            first
        }
    }
}

/// The bytes that `effects` write to TCP.
pub open spec fn bytes_to_tcp(effects: Seq<BridgeEffectView>) -> Seq<u8>
    decreases effects.len(),
{
    if effects.len() == 0 {
        Seq::empty()
    } else {
        (match effects.first() {
            BridgeEffectView::Write(data) => data,
            _ => Seq::empty(),
        }) + bytes_to_tcp(effects.drop_first())
    }
}

/// The bytes that `effects` send to the WebSocket in binary messages.
pub open spec fn bytes_to_ws(effects: Seq<BridgeEffectView>) -> Seq<u8>
    decreases effects.len(),
{
    if effects.len() == 0 {
        Seq::empty()
    } else {
        (match effects.first() {
            BridgeEffectView::Send(OutgoingView { message: MessageView::Binary(data), .. }) => data,
            _ => Seq::empty(),
        }) + bytes_to_ws(effects.drop_first())
    }
}

/// The bytes that `events` bring from the WebSocket in binary messages.
pub open spec fn bytes_from_ws(events: Seq<BridgeEventView>) -> Seq<u8>
    decreases events.len(),
{
    if events.len() == 0 {
        Seq::empty()
    } else {
        (match events.first() {
            BridgeEventView::Ws(IncomingView::Message(MessageView::Binary(data))) => data,
            _ => Seq::empty(),
        }) + bytes_from_ws(events.drop_first())
    }
}

/// The bytes that `events` bring from TCP.
pub open spec fn bytes_from_tcp(events: Seq<BridgeEventView>) -> Seq<u8>
    decreases events.len(),
{
    if events.len() == 0 {
        Seq::empty()
    } else {
        (match events.first() {
            BridgeEventView::TcpRead(data) => data,
            _ => Seq::empty(),
        }) + bytes_from_tcp(events.drop_first())
    }
}

/// The messages that `effects` send to the WebSocket, in order.
pub open spec fn messages_sent(effects: Seq<BridgeEffectView>) -> Seq<MessageView>
    decreases effects.len(),
{
    if effects.len() == 0 {
        Seq::empty()
    } else {
        (match effects.first() {
            BridgeEffectView::Send(sent) => seq![sent.message],
            _ => Seq::empty(),
        }) + messages_sent(effects.drop_first())
    }
}

/// The messages that `events` bring from the WebSocket, in order.
pub open spec fn messages_received(events: Seq<BridgeEventView>) -> Seq<MessageView>
    decreases events.len(),
{
    if events.len() == 0 {
        Seq::empty()
    } else {
        (match events.first() {
            BridgeEventView::Ws(IncomingView::Message(message)) => seq![message],
            _ => Seq::empty(),
        }) + messages_received(events.drop_first())
    }
}

/// The bytes that `messages` carry: those of the binary ones.
pub open spec fn bytes_carried(messages: Seq<MessageView>) -> Seq<u8>
    decreases messages.len(),
{
    if messages.len() == 0 {
        Seq::empty()
    } else {
        (match messages.first() {
            MessageView::Binary(data) => data,
            _ => Seq::empty(),
        }) + bytes_carried(messages.drop_first())
    }
}

proof fn lemma_bytes_carried_concat(a: Seq<MessageView>, b: Seq<MessageView>)
    ensures
        bytes_carried(a + b) == bytes_carried(a) + bytes_carried(b),
    decreases a.len(),
{
    if a.len() == 0 {
        assert(a + b =~= b);
        assert(bytes_carried(a) + bytes_carried(b) =~= bytes_carried(b));
    } else {
        lemma_bytes_carried_concat(a.drop_first(), b);
        assert((a + b).drop_first() =~= a.drop_first() + b);
        assert(bytes_carried(a + b) =~= bytes_carried(a) + bytes_carried(b));
    }
}

proof fn lemma_sent_bytes_are_carried(effects: Seq<BridgeEffectView>)
    ensures
        bytes_to_ws(effects) == bytes_carried(messages_sent(effects)),
    decreases effects.len(),
{
    reveal_with_fuel(bytes_carried, 2);
    if effects.len() > 0 {
        lemma_sent_bytes_are_carried(effects.drop_first());
        let rest = messages_sent(effects.drop_first());
        if let BridgeEffectView::Send(sent) = effects.first() {
            lemma_bytes_carried_concat(seq![sent.message], rest);
            assert(seq![sent.message].drop_first() =~= Seq::<MessageView>::empty());
            assert(bytes_to_ws(effects) =~= bytes_carried(messages_sent(effects)));
        } else {
            assert(messages_sent(effects) =~= rest);
            assert(bytes_to_ws(effects) =~= bytes_to_ws(effects.drop_first()));
        }
    }
}

proof fn lemma_received_bytes_are_carried(events: Seq<BridgeEventView>)
    ensures
        bytes_from_ws(events) == bytes_carried(messages_received(events)),
    decreases events.len(),
{
    reveal_with_fuel(bytes_carried, 2);
    if events.len() > 0 {
        lemma_received_bytes_are_carried(events.drop_first());
        let rest = messages_received(events.drop_first());
        if let BridgeEventView::Ws(IncomingView::Message(message)) = events.first() {
            lemma_bytes_carried_concat(seq![message], rest);
            assert(seq![message].drop_first() =~= Seq::<MessageView>::empty());
            assert(bytes_from_ws(events) =~= bytes_carried(messages_received(events)));
        } else {
            assert(messages_received(events) =~= rest);
            assert(bytes_from_ws(events) =~= bytes_from_ws(events.drop_first()));
        }
    }
}

proof fn lemma_bytes_to_tcp_concat(a: Seq<BridgeEffectView>, b: Seq<BridgeEffectView>)
    ensures
        bytes_to_tcp(a + b) == bytes_to_tcp(a) + bytes_to_tcp(b),
    decreases a.len(),
{
    if a.len() == 0 {
        assert(a + b =~= b);
        assert(bytes_to_tcp(a) + bytes_to_tcp(b) =~= bytes_to_tcp(b));
    } else {
        lemma_bytes_to_tcp_concat(a.drop_first(), b);
        assert((a + b).drop_first() =~= a.drop_first() + b);
        assert(bytes_to_tcp(a + b) =~= bytes_to_tcp(a) + bytes_to_tcp(b));
    }
}

proof fn lemma_bytes_to_ws_concat(a: Seq<BridgeEffectView>, b: Seq<BridgeEffectView>)
    ensures
        bytes_to_ws(a + b) == bytes_to_ws(a) + bytes_to_ws(b),
    decreases a.len(),
{
    if a.len() == 0 {
        assert(a + b =~= b);
        assert(bytes_to_ws(a) + bytes_to_ws(b) =~= bytes_to_ws(b));
    } else {
        lemma_bytes_to_ws_concat(a.drop_first(), b);
        assert((a + b).drop_first() =~= a.drop_first() + b);
        assert(bytes_to_ws(a + b) =~= bytes_to_ws(a) + bytes_to_ws(b));
    }
}

/// The tunnel forwards traffic faithfully. Whatever happens, the bytes that a
/// relay writes to TCP are the bytes of the binary messages that it handled,
/// and the bytes of the binary messages that it sends are the bytes that it
/// read from TCP: all of them, in order, and no others.
pub proof fn law_relay_is_faithful(relay: RelayView, events: Seq<BridgeEventView>)
    ensures
        handled(relay, events) <= events.len(),
        bytes_to_tcp(bridge_run(relay, events).effects) == bytes_from_ws(
            events.take(handled(relay, events) as int),
        ),
        bytes_to_ws(bridge_run(relay, events).effects) == bytes_from_tcp(
            events.take(handled(relay, events) as int),
        ),
    decreases events.len(),
{
    reveal_with_fuel(bytes_to_tcp, 3);
    reveal_with_fuel(bytes_to_ws, 3);
    if events.len() > 0 {
        let first = bridge_answer(relay, events.first());
        let n = handled(relay, events) as int;
        law_relay_is_faithful(relay_after(relay, events.first()), events.drop_first());
        let seen = events.take(n);
        assert(seen.first() == events.first());
        assert(seen.drop_first() =~= events.drop_first().take(n - 1));
        assert(bytes_to_tcp(first.effects) =~= bytes_from_ws(seq![events.first()])) by {
            reveal_with_fuel(bytes_from_ws, 2);
        }
        assert(bytes_to_ws(first.effects) =~= bytes_from_tcp(seq![events.first()])) by {
            reveal_with_fuel(bytes_from_tcp, 2);
        }
        assert(bytes_from_ws(seen) =~= bytes_from_ws(seq![events.first()]) + bytes_from_ws(
            seen.drop_first(),
        )) by {
            reveal_with_fuel(bytes_from_ws, 2);
        }
        assert(bytes_from_tcp(seen) =~= bytes_from_tcp(seq![events.first()]) + bytes_from_tcp(
            seen.drop_first(),
        )) by {
            reveal_with_fuel(bytes_from_tcp, 2);
        }
        if first.next is Continue {
            let rest = bridge_run(relay_after(relay, events.first()), events.drop_first());
            lemma_bytes_to_tcp_concat(first.effects, rest.effects);
            lemma_bytes_to_ws_concat(first.effects, rest.effects);
        } else {
            assert(seen.drop_first() =~= Seq::<BridgeEventView>::empty());
            assert(bytes_from_ws(seen) =~= bytes_from_ws(seq![events.first()]));
            assert(bytes_from_tcp(seen) =~= bytes_from_tcp(seq![events.first()]));
        }
    }
}

/// A byte stream crosses the tunnel unchanged. Where one relay has received
/// some of the messages that the other one sent, in order and without a gap,
/// the bytes that it wrote to its TCP connection are a beginning of those that
/// the other one read from its own; where it has received all of them, they
/// are the same bytes.
pub proof fn law_stream_crosses_the_tunnel(
    near_relay: RelayView,
    near: Seq<BridgeEventView>,
    far_relay: RelayView,
    far: Seq<BridgeEventView>,
)
    requires
        messages_received(far.take(handled(far_relay, far) as int)).is_prefix_of(
            messages_sent(bridge_run(near_relay, near).effects),
        ),
    ensures
        ({
            let received = messages_received(far.take(handled(far_relay, far) as int));
            let sent = messages_sent(bridge_run(near_relay, near).effects);
            let read = bytes_from_tcp(near.take(handled(near_relay, near) as int));
            let written = bytes_to_tcp(bridge_run(far_relay, far).effects);
            &&& written.is_prefix_of(read)
            &&& received.len() == sent.len() ==> written == read
        }),
{
    let received = messages_received(far.take(handled(far_relay, far) as int));
    let sent = messages_sent(bridge_run(near_relay, near).effects);
    let missing = sent.skip(received.len() as int);
    law_relay_is_faithful(near_relay, near);
    law_relay_is_faithful(far_relay, far);
    lemma_sent_bytes_are_carried(bridge_run(near_relay, near).effects);
    lemma_received_bytes_are_carried(far.take(handled(far_relay, far) as int));
    assert(received + missing =~= sent);
    lemma_bytes_carried_concat(received, missing);
    if received.len() == sent.len() {
        assert(received =~= sent);
    }
}

/// No read of `events` brings more than the buffer holds.
pub open spec fn reads_fit(events: Seq<BridgeEventView>) -> bool {
    forall|i: int|
        0 <= i < events.len() ==> (#[trigger] events[i] matches BridgeEventView::TcpRead(data)
            ==> data.len() <= BUFFER_SIZE)
}

/// A binary message that an effect sends holds at least one byte, and no more
/// than the buffer does.
pub open spec fn payload_fits(effect: BridgeEffectView) -> bool {
    effect matches BridgeEffectView::Send(sent) ==> (sent.message matches MessageView::Binary(data)
        ==> 1 <= data.len() <= BUFFER_SIZE)
}

/// Where no read brings more than the buffer holds, every binary message that
/// a relay sends holds between one byte and a full buffer.
pub proof fn law_frames_fit_the_buffer(relay: RelayView, events: Seq<BridgeEventView>)
    requires
        reads_fit(events),
    ensures
        forall|i: int|
            0 <= i < bridge_run(relay, events).effects.len() ==> payload_fits(
                #[trigger] bridge_run(relay, events).effects[i],
            ),
    decreases events.len(),
{
    if events.len() > 0 {
        let first = bridge_answer(relay, events.first());
        let later = events.drop_first();
        assert(events.first() == events[0]);
        assert forall|i: int| 0 <= i < later.len() implies (
        #[trigger] later[i] matches BridgeEventView::TcpRead(data) ==> data.len() <= BUFFER_SIZE) by {
            assert(later[i] == events[i + 1]);
        }
        law_frames_fit_the_buffer(relay_after(relay, events.first()), later);
        let rest = bridge_run(relay_after(relay, events.first()), later);
        assert forall|i: int| 0 <= i < bridge_run(relay, events).effects.len() implies payload_fits(
            #[trigger] bridge_run(relay, events).effects[i],
        ) by {
            if i >= first.effects.len() {
                assert(bridge_run(relay, events).effects[i] == rest.effects[i
                    - first.effects.len()]);
            }
        }
    }
}

/// With heartbeats off a relay never sends a ping.
pub proof fn law_no_heartbeat_no_ping(relay: RelayView, events: Seq<BridgeEventView>)
    requires
        relay.period is None,
    ensures
        forall|i: int|
            0 <= i < bridge_run(relay, events).effects.len() ==> !(
            #[trigger] bridge_run(relay, events).effects[i] matches BridgeEffectView::Send(sent)
                && sent.message is Ping),
    decreases events.len(),
{
    if events.len() > 0 {
        law_no_heartbeat_no_ping(relay, events.drop_first());
        let first = bridge_answer(relay, events.first());
        let rest = bridge_run(relay, events.drop_first());
        assert forall|i: int| 0 <= i < bridge_run(relay, events).effects.len() implies !(
        #[trigger] bridge_run(relay, events).effects[i] matches BridgeEffectView::Send(sent)
            && sent.message is Ping) by {
            if i >= first.effects.len() {
                assert(bridge_run(relay, events).effects[i] == rest.effects[i
                    - first.effects.len()]);
            }
        }
    }
}

/// The heartbeats of a relay after `events`.
pub open spec fn relay_run(relay: RelayView, events: Seq<BridgeEventView>) -> RelayView
    decreases events.len(),
{
    if events.len() == 0 {
        relay
    } else if bridge_answer(relay, events.first()).next is Continue {
        relay_run(relay_after(relay, events.first()), events.drop_first())
    } else {
        relay
    }
}

/// The pings that `effects` send, in order.
pub open spec fn pings_sent(effects: Seq<BridgeEffectView>) -> Seq<MessageView>
    decreases effects.len(),
{
    if effects.len() == 0 {
        Seq::empty()
    } else {
        (match effects.first() {
            BridgeEffectView::Send(sent) => if sent.message is Ping {
                seq![sent.message]
            } else {
                Seq::empty()
            },
            _ => Seq::empty(),
        }) + pings_sent(effects.drop_first())
    }
}

/// When a relay pings on `events`, in order.
pub open spec fn ping_times(relay: RelayView, events: Seq<BridgeEventView>) -> Seq<u64>
    decreases events.len(),
{
    if events.len() == 0 {
        Seq::empty()
    } else if bridge_answer(relay, events.first()).next is Continue {
        (match events.first() {
            BridgeEventView::Heartbeat(at) => if heartbeat_due(relay, at) {
                seq![at]
            } else {
                Seq::empty()
            },
            _ => Seq::empty(),
        }) + ping_times(relay_after(relay, events.first()), events.drop_first())
    } else {
        Seq::empty()
    }
}

/// So many pings without a payload.
pub open spec fn empty_pings(n: nat) -> Seq<MessageView> {
    Seq::new(n, |i: int| MessageView::Ping(Seq::empty()))
}

proof fn lemma_pings_sent_concat(a: Seq<BridgeEffectView>, b: Seq<BridgeEffectView>)
    ensures
        pings_sent(a + b) == pings_sent(a) + pings_sent(b),
    decreases a.len(),
{
    if a.len() == 0 {
        assert(a + b =~= b);
        assert(pings_sent(a) + pings_sent(b) =~= pings_sent(b));
    } else {
        lemma_pings_sent_concat(a.drop_first(), b);
        assert((a + b).drop_first() =~= a.drop_first() + b);
        assert(pings_sent(a + b) =~= pings_sent(a) + pings_sent(b));
    }
}

/// A relay sends one ping, without a payload, at each of its ping times, and
/// no others.
pub proof fn law_pings_are_heartbeats(relay: RelayView, events: Seq<BridgeEventView>)
    ensures
        pings_sent(bridge_run(relay, events).effects) == empty_pings(
            ping_times(relay, events).len(),
        ),
    decreases events.len(),
{
    reveal_with_fuel(pings_sent, 3);
    if events.len() > 0 {
        let first = bridge_answer(relay, events.first());
        let next = relay_after(relay, events.first());
        let rest = bridge_run(next, events.drop_first());
        let n = ping_times(next, events.drop_first()).len();
        if first.next is Continue {
            law_pings_are_heartbeats(next, events.drop_first());
            lemma_pings_sent_concat(first.effects, rest.effects);
            if first.effects.len() > 0 {
                assert(first.effects.drop_first() =~= Seq::<BridgeEffectView>::empty());
            }
            if pings_sent(first.effects).len() == 0 {
                assert(pings_sent(first.effects) + empty_pings(n) =~= empty_pings(n));
            } else {
                assert(pings_sent(first.effects) + empty_pings(n) =~= empty_pings(n + 1));
            }
        } else {
            assert(pings_sent(first.effects) =~= empty_pings(0));
        }
    }
}

/// The pings of a relay keep their interval: the first is sent no earlier than
/// one period after the relay began, the second no earlier than two, and so
/// on, whatever happens in between.
pub proof fn law_pings_keep_their_interval(period: u64, events: Seq<BridgeEventView>)
    requires
        period > 0,
    ensures
        forall|k: int|
            0 <= k < ping_times(relay_start(Some(period)), events).len() ==> (k + 1) * period
                <= #[trigger] ping_times(relay_start(Some(period)), events)[k],
{
    let times = ping_times(relay_start(Some(period)), events);
    lemma_pings_from(relay_start(Some(period)), events, period, period as int);
    assert forall|k: int| 0 <= k < times.len() implies (k + 1) * period <= #[trigger] times[k] by {
        assert((k + 1) * period == period + k * period) by (nonlinear_arith);
    }
}

proof fn lemma_pings_from(
    relay: RelayView,
    events: Seq<BridgeEventView>,
    period: u64,
    earliest: int,
)
    requires
        relay.period == Some(period),
        relay.due matches Some(due) ==> earliest <= due,
    ensures
        forall|k: int|
            0 <= k < ping_times(relay, events).len() ==> earliest + k * period
                <= #[trigger] ping_times(relay, events)[k],
    decreases events.len(),
{
    if events.len() > 0 && bridge_answer(relay, events.first()).next is Continue {
        let times = ping_times(relay, events);
        let next = relay_after(relay, events.first());
        let later = ping_times(next, events.drop_first());
        if relay_pings(relay, events.first()) {
            lemma_pings_from(next, events.drop_first(), period, earliest + period);
            assert forall|k: int| 0 <= k < times.len() implies earliest + k * period
                <= #[trigger] times[k] by {
                if k == 0 {
                    assert(k * period == 0) by (nonlinear_arith)
                        requires
                            k == 0,
                    ;
                } else {
                    assert(times[k] == later[k - 1]);
                    assert(period + (k - 1) * period == k * period) by (nonlinear_arith);
                }
            }
        } else {
            lemma_pings_from(next, events.drop_first(), period, earliest);
            assert(times =~= later);
        }
    }
}

/// An event makes a relay ping.
pub open spec fn relay_pings(relay: RelayView, event: BridgeEventView) -> bool {
    event matches BridgeEventView::Heartbeat(at) && heartbeat_due(relay, at)
}

/// No time of `events` is so late that a period after it cannot be counted.
pub open spec fn times_last(events: Seq<BridgeEventView>, period: u64) -> bool {
    forall|i: int|
        0 <= i < events.len() ==> (#[trigger] events[i] matches BridgeEventView::Heartbeat(at)
            ==> at + period <= u64::MAX)
}

/// A relay goes on pinging, whatever came before: its next heartbeat is due
/// at most one period after its last ping (or after it began), and when the
/// timer fires then or later, it sends a ping and goes on.
pub proof fn law_pings_go_on(period: u64, events: Seq<BridgeEventView>, at: u64)
    requires
        period > 0,
        times_last(events, period),
    ensures
        ({
            let relay = relay_run(relay_start(Some(period)), events);
            let times = ping_times(relay_start(Some(period)), events);
            let last = if times.len() == 0 {
                0
            } else {
                times.last()
            };
            &&& relay.due is Some
            &&& relay.due->0 <= last + period
            &&& bridge_answer(relay, BridgeEventView::Heartbeat(at)) == if relay.due->0 <= at {
                go_on(seq![BridgeEffectView::Send(must_send(MessageView::Ping(Seq::empty())))])
            } else {
                go_on(Seq::empty())
            }
        }),
{
    lemma_pings_go_on(relay_start(Some(period)), events, period, 0);
}

proof fn lemma_pings_go_on(
    relay: RelayView,
    events: Seq<BridgeEventView>,
    period: u64,
    last: u64,
)
    requires
        relay.period == Some(period),
        relay.due is Some,
        relay.due->0 <= last + period,
        times_last(events, period),
    ensures
        relay_run(relay, events).period == Some(period),
        relay_run(relay, events).due is Some,
        relay_run(relay, events).due->0 <= period + if ping_times(relay, events).len() == 0 {
            last
        } else {
            ping_times(relay, events).last()
        },
    decreases events.len(),
{
    if events.len() > 0 && bridge_answer(relay, events.first()).next is Continue {
        let rest = events.drop_first();
        let next = relay_after(relay, events.first());
        assert(events.first() == events[0]);
        assert forall|i: int| 0 <= i < rest.len() implies (
        #[trigger] rest[i] matches BridgeEventView::Heartbeat(at) ==> at + period <= u64::MAX) by {
            assert(rest[i] == events[i + 1]);
        }
        let later = ping_times(next, rest);
        if relay_pings(relay, events.first()) {
            let at = events.first()->Heartbeat_0;
            lemma_pings_go_on(next, rest, period, at);
            assert(ping_times(relay, events) == seq![at] + later);
            if later.len() > 0 {
                assert((seq![at] + later).last() == later.last());
            }
        } else {
            lemma_pings_go_on(next, rest, period, last);
            assert(ping_times(relay, events) =~= later);
        }
    }
}

/// The timer fires whenever a heartbeat is due, `n` times, and nothing else
/// happens.
pub open spec fn idle_beats(period: u64, n: nat) -> Seq<BridgeEventView> {
    Seq::new(n, |i: int| BridgeEventView::Heartbeat(((i + 1) * period) as u64))
}

/// A relay where nothing else happens pings once in every period, as long as
/// its timer fires when a heartbeat is due.
pub proof fn law_idle_relay_keeps_pinging(period: u64, n: nat)
    requires
        period > 0,
        n * period <= u64::MAX,
    ensures
        ({
            let relay = relay_start(Some(period));
            let run = bridge_run(relay, idle_beats(period, n));
            &&& run.next is Continue
            &&& pings_sent(run.effects) == empty_pings(n)
            &&& ping_times(relay, idle_beats(period, n)) == Seq::new(
                n,
                |i: int| ((i + 1) * period) as u64,
            )
            &&& relay_run(relay, idle_beats(period, n)).due == counted((n + 1) * period)
        }),
{
    let relay = relay_start(Some(period));
    assert(idle_beats(period, n).skip(0) =~= idle_beats(period, n));
    assert((0 + 1) * period == period) by (nonlinear_arith);
    lemma_idle_from(relay, period, n, 0);
    let times = Seq::new(n, |i: int| ((i + 1) * period) as u64);
    assert(times.skip(0) =~= times);
    law_pings_are_heartbeats(relay, idle_beats(period, n));
}

proof fn lemma_idle_from(relay: RelayView, period: u64, n: nat, done: nat)
    requires
        period > 0,
        n * period <= u64::MAX,
        done <= n,
        relay == (RelayView { period: Some(period), due: counted((done + 1) * period) }),
    ensures
        ({
            let events = idle_beats(period, n).skip(done as int);
            &&& bridge_run(relay, events).next is Continue
            &&& ping_times(relay, events) == Seq::new(
                n,
                |i: int| ((i + 1) * period) as u64,
            ).skip(done as int)
            &&& relay_run(relay, events).due == counted((n + 1) * period)
        }),
    decreases n - done,
{
    let events = idle_beats(period, n).skip(done as int);
    let times = Seq::new(n, |i: int| ((i + 1) * period) as u64);
    if done < n {
        assert((done + 1) * period <= n * period) by (nonlinear_arith)
            requires
                done < n,
        ;
        assert((done + 1) * period + period == (done + 2) * period) by (nonlinear_arith);
        assert(events.drop_first() =~= idle_beats(period, n).skip(done + 1int));
        lemma_idle_from(relay_after(relay, events.first()), period, n, done + 1);
        assert(times.skip(done as int) =~= seq![times[done as int]] + times.skip(done + 1int));
    } else {
        assert(times.skip(done as int) =~= Seq::<u64>::empty());
        assert(events =~= Seq::<BridgeEventView>::empty());
    }
}

/// The end of one side is passed on to the other. A relay that finishes
/// without an error has, as its last effect, either shut down TCP, after the
/// WebSocket closed or ended, or offered a close message to the WebSocket,
/// after TCP ended.
pub proof fn law_end_is_passed_on(relay: RelayView, events: Seq<BridgeEventView>)
    requires
        bridge_run(relay, events).next is Finish,
    ensures
        0 < handled(relay, events) <= events.len(),
        bridge_run(relay, events).effects.len() > 0,
        ({
            let last = events[handled(relay, events) - 1];
            let done = bridge_run(relay, events).effects.last();
            if last is TcpRead {
                &&& last == BridgeEventView::TcpRead(Seq::empty())
                &&& done == BridgeEffectView::Send(try_send(MessageView::Close(None)))
            } else {
                &&& last == BridgeEventView::Ws(IncomingView::Ended) || (last matches
                    BridgeEventView::Ws(IncomingView::Message(m)) && m is Close)
                &&& done == BridgeEffectView::Shutdown
            }
        }),
    decreases events.len(),
{
    let first = bridge_answer(relay, events.first());
    if first.next is Continue {
        law_end_is_passed_on(relay_after(relay, events.first()), events.drop_first());
        let rest = bridge_run(relay_after(relay, events.first()), events.drop_first());
        assert((first.effects + rest.effects).last() == rest.effects.last());
        let n = handled(relay_after(relay, events.first()), events.drop_first());
        assert(events.drop_first()[n - 1] == events[n as int]);
    } else {
        if let BridgeEventView::TcpRead(data) = events.first() {
            assert(data =~= Seq::<u8>::empty());
        }
    }
}

/// The view of an event shows all that it brings.
pub proof fn law_view_shows_the_whole_event(event: BridgeEvent)
    ensures
        match event {
            BridgeEvent::TcpRead(data) => event@ == BridgeEventView::TcpRead(data@),
            BridgeEvent::TcpFailed(error) => event@ == BridgeEventView::TcpFailed(error@),
            BridgeEvent::Ws(incoming) => event@ == BridgeEventView::Ws(incoming@),
            BridgeEvent::Heartbeat(at) => event@ == BridgeEventView::Heartbeat(at),
        },
{
}

/// The view of an answer shows all its effects, in order, and how it ends.
pub proof fn law_view_shows_the_whole_answer(step: BridgeStep)
    ensures
        step@.effects.len() == step.effects@.len(),
        forall|i: int|
            0 <= i < step.effects@.len() ==> match #[trigger] step.effects@[i] {
                BridgeEffect::Send(sent) => step@.effects[i] == BridgeEffectView::Send(sent@),
                BridgeEffect::Write(data) => step@.effects[i] == BridgeEffectView::Write(data@),
                BridgeEffect::Shutdown => step@.effects[i] == BridgeEffectView::Shutdown,
            },
        match step.next {
            BridgeNext::Continue => step@.next is Continue,
            BridgeNext::Finish => step@.next is Finish,
            BridgeNext::Fail(error) => step@.next == BridgeNextView::Fail(error@),
        },
{
}

/// An answer goes on, and has one effect: to send `message`, which must
/// succeed.
pub open spec fn goes_on_sending(step: BridgeStep, message: MessageView) -> bool {
    &&& step.next is Continue
    &&& step.effects@.len() == 1
    &&& step.effects@[0] matches BridgeEffect::Send(sent) && sent.message@ == message
        && sent.required
}

/// An answer goes on without an effect.
pub open spec fn goes_on_quietly(step: BridgeStep) -> bool {
    step.next is Continue && step.effects@.len() == 0
}

/// An event ends a relay: a side that closes, ends or fails.
pub open spec fn is_an_end(event: BridgeEventView) -> bool {
    match event {
        BridgeEventView::TcpRead(data) => data.len() == 0,
        BridgeEventView::TcpFailed(_) => true,
        BridgeEventView::Ws(IncomingView::Message(message)) => message is Close,
        BridgeEventView::Ws(IncomingView::Failed(_)) => true,
        BridgeEventView::Ws(IncomingView::Ended) => true,
        BridgeEventView::Ws(IncomingView::RawFrame) => false,
        BridgeEventView::Heartbeat(_) => false,
    }
}

/// A close message of the WebSocket, with or without a close frame, ends the
/// relay: the same message is offered in return, and then TCP is shut down.
pub proof fn law_close_is_returned_and_shuts_tcp_down(
    relay: &mut Relay,
    event: BridgeEvent,
    step: BridgeStep,
    frame: Option<(u16, Seq<char>)>,
)
    requires
        call_ensures(Relay::step, (relay, event), step),
        event@ == BridgeEventView::Ws(IncomingView::Message(MessageView::Close(frame))),
    ensures
        step.next is Finish,
        step.effects@.len() == 2,
        step.effects@[0] matches BridgeEffect::Send(sent) && sent.message@ == MessageView::Close(
            frame,
        ) && !sent.required,
        step.effects@[1] is Shutdown,
{
    law_view_shows_the_whole_answer(step);
}

/// The end of TCP offers a close message to the WebSocket, and the end of the
/// WebSocket shuts TCP down; either one ends the relay.
pub proof fn law_end_of_one_side_ends_the_other(
    relay: &mut Relay,
    event: BridgeEvent,
    step: BridgeStep,
)
    requires
        call_ensures(Relay::step, (relay, event), step),
    ensures
        event@ matches BridgeEventView::TcpRead(data) && data.len() == 0 ==> {
            &&& step.next is Finish
            &&& step.effects@.len() == 1
            &&& step.effects@[0] matches BridgeEffect::Send(sent) && sent.message@
                == MessageView::Close(None) && !sent.required
        },
        event@ == BridgeEventView::Ws(IncomingView::Ended) ==> {
            &&& step.next is Finish
            &&& step.effects@.len() == 1
            &&& step.effects@[0] is Shutdown
        },
{
    law_view_shows_the_whole_answer(step);
}

/// A relay is over after an end of either side, with an error exactly where
/// that side failed, which is the error it met; and nothing else ends it.
pub proof fn law_only_an_end_ends_a_relay(relay: &mut Relay, event: BridgeEvent, step: BridgeStep)
    requires
        call_ensures(Relay::step, (relay, event), step),
    ensures
        step.next is Continue <==> !is_an_end(event@),
        event@ matches BridgeEventView::TcpFailed(error) ==> step.effects@.len() == 0 && (step.next
            matches BridgeNext::Fail(told) && told@ == error),
        event@ matches BridgeEventView::Ws(IncomingView::Failed(error)) ==> step.effects@.len() == 0
            && (step.next matches BridgeNext::Fail(told) && told@ == error),
        step.next is Fail ==> event@ is TcpFailed || (event@ matches BridgeEventView::Ws(incoming)
            && incoming is Failed),
{
    law_view_shows_the_whole_answer(step);
}

/// Whatever came before, a run goes on exactly as long as no end came.
pub proof fn law_run_goes_on_until_an_end(relay: RelayView, events: Seq<BridgeEventView>)
    ensures
        bridge_run(relay, events).next is Continue <==> forall|i: int|
            0 <= i < events.len() ==> !is_an_end(#[trigger] events[i]),
        bridge_run(relay, events).next is Continue ==> handled(relay, events) == events.len(),
    decreases events.len(),
{
    if events.len() > 0 {
        let rest = events.drop_first();
        law_run_goes_on_until_an_end(relay_after(relay, events.first()), rest);
        assert(events.first() == events[0]);
        if bridge_run(relay, events).next is Continue {
            assert forall|i: int| 0 <= i < events.len() implies !is_an_end(#[trigger] events[i]) by {
                if i > 0 {
                    assert(events[i] == rest[i - 1]);
                }
            }
        } else if !is_an_end(events[0]) {
            let i = choose|i: int| 0 <= i < rest.len() && is_an_end(#[trigger] rest[i]);
            assert(is_an_end(events[i + 1]));
        }
    }
}

/// What TCP brings goes out as one binary message with the same bytes, and
/// what a binary message brings is written to TCP, the same bytes.
pub proof fn law_bytes_are_passed_on(
    relay: &mut Relay,
    event: BridgeEvent,
    step: BridgeStep,
    data: Seq<u8>,
)
    requires
        call_ensures(Relay::step, (relay, event), step),
    ensures
        event@ == BridgeEventView::TcpRead(data) && data.len() > 0 ==> goes_on_sending(
            step,
            MessageView::Binary(data),
        ),
        event@ == BridgeEventView::Ws(IncomingView::Message(MessageView::Binary(data))) ==> {
            &&& step.next is Continue
            &&& step.effects@.len() == 1
            &&& step.effects@[0] matches BridgeEffect::Write(written) && written@ == data
        },
{
    law_view_shows_the_whole_answer(step);
}

/// A ping is answered by a pong with the same payload; pongs, texts and raw
/// frames have no effect.
pub proof fn law_ping_is_answered_and_the_rest_passed_over(
    relay: &mut Relay,
    event: BridgeEvent,
    step: BridgeStep,
    incoming: IncomingView,
)
    requires
        call_ensures(Relay::step, (relay, event), step),
        event@ == BridgeEventView::Ws(incoming),
    ensures
        match incoming {
            IncomingView::Message(MessageView::Ping(data)) => goes_on_sending(
                step,
                MessageView::Pong(data),
            ),
            IncomingView::Message(MessageView::Pong(_)) => goes_on_quietly(step),
            IncomingView::Message(MessageView::Text(_)) => goes_on_quietly(step),
            IncomingView::RawFrame => goes_on_quietly(step),
            _ => true,
        },
{
    law_view_shows_the_whole_answer(step);
}

/// The heartbeat timer makes a relay ping, without a payload, exactly where
/// heartbeats are on and one is due. The next one is then due a period after
/// this one was, or, where this one came more than five milliseconds late, a
/// period after it came; it is due never where that time cannot be counted.
/// Nothing else moves a heartbeat, and the period stays.
pub proof fn law_heartbeat_is_sent_when_due(
    relay: &mut Relay,
    event: BridgeEvent,
    step: BridgeStep,
    period: u64,
    due: u64,
)
    requires
        call_ensures(Relay::step, (relay, event), step),
        old(relay)@.period == Some(period),
        old(relay)@.due == Some(due),
    ensures
        final(relay)@.period == Some(period),
        event@ matches BridgeEventView::Heartbeat(at) ==> {
            if at < due {
                goes_on_quietly(step) && final(relay)@.due == Some(due)
            } else {
                &&& goes_on_sending(step, MessageView::Ping(Seq::empty()))
                &&& ({
                    let from = if at - due > 5_000_000 {
                        at
                    } else {
                        due
                    };
                    &&& from + period <= u64::MAX ==> (final(relay)@.due matches Some(next) && next
                        == from + period)
                    &&& from + period > u64::MAX ==> final(relay)@.due is None
                })
            }
        },
        event@ !is Heartbeat ==> final(relay)@.due == Some(due),
{
    law_view_shows_the_whole_answer(step);
}

/// Where heartbeats are off, or none is due any more, the heartbeat timer has
/// no effect.
pub proof fn law_no_heartbeat_without_a_due_time(
    relay: &mut Relay,
    event: BridgeEvent,
    step: BridgeStep,
)
    requires
        call_ensures(Relay::step, (relay, event), step),
        old(relay)@.period is None || old(relay)@.due is None,
    ensures
        final(relay)@ == old(relay)@,
        event@ is Heartbeat ==> goes_on_quietly(step),
{
    law_view_shows_the_whole_answer(step);
}

/// The first heartbeat of a relay is due after one period, and none ever where
/// heartbeats are off.
pub proof fn law_first_heartbeat_is_due_after_a_period(
    period: Option<u64>,
    relay: Relay,
    due: Option<u64>,
)
    requires
        period != Some(0u64),
        call_ensures(Relay::new, (period,), relay),
        call_ensures(Relay::due, (&relay,), due),
    ensures
        relay@.period == period,
        due == period,
        relay@.due == due,
{
}

/// The period of heartbeats is their interval in nanoseconds, where that can
/// be counted, and there is none where heartbeats are off.
pub proof fn law_period_is_the_interval(interval_secs: Option<u64>, period: Option<u64>)
    requires
        call_ensures(heartbeat_period, (interval_secs,), period),
    ensures
        interval_secs is None ==> period is None,
        interval_secs matches Some(secs) ==> {
            &&& secs * 1_000_000_000 <= u64::MAX ==> (period matches Some(nanos) && nanos == secs
                * 1_000_000_000)
            &&& secs * 1_000_000_000 > u64::MAX ==> period is None
        },
        period_of(interval_secs) == period,
{
}

/// TCP is read in pieces of at most sixteen kibibytes.
pub proof fn law_buffer_holds_sixteen_kibibytes()
    ensures
        BUFFER_SIZE == 16384,
{
}

} // verus!
