//! The WebSocket messages that the tunnel exchanges, as plain values.

use vstd::prelude::*;

verus! {

/// Why a peer closes: a status code and a reason.
#[derive(Debug)]
pub struct CloseFrame {
    pub code: u16,
    pub reason: String,
}

/// One WebSocket message.
#[derive(Debug)]
pub enum Message {
    Text(String),
    Binary(Vec<u8>),
    Ping(Vec<u8>),
    Pong(Vec<u8>),
    Close(Option<CloseFrame>),
}

/// What a wait for the next message of a connection can bring.
#[derive(Debug)]
pub enum Incoming {
    /// A message of the peer.
    Message(Message),
    /// A frame that belongs to no message.
    RawFrame,
    /// The connection failed, with the text of its error.
    Failed(String),
    /// The connection brings nothing more.
    Ended,
}

/// A message to send.
#[derive(Debug)]
pub struct Outgoing {
    pub message: Message,
    /// Whether a failure to send it is an error of its own. Where it is not,
    /// the failure is passed over.
    pub required: bool,
}

/// What a message says, as mathematical values.
pub enum MessageView {
    Text(Seq<char>),
    Binary(Seq<u8>),
    Ping(Seq<u8>),
    Pong(Seq<u8>),
    Close(Option<(u16, Seq<char>)>),
}

/// A message to send, as mathematical values.
pub struct OutgoingView {
    pub message: MessageView,
    pub required: bool,
}

/// What a wait brought, as mathematical values.
pub enum IncomingView {
    Message(MessageView),
    RawFrame,
    Failed(Seq<char>),
    Ended,
}

impl View for CloseFrame {
    type V = (u16, Seq<char>);

    open spec fn view(&self) -> (u16, Seq<char>) {
        (self.code, self.reason@)
    }
}

impl View for Message {
    type V = MessageView;

    open spec fn view(&self) -> MessageView {
        match self {
            Message::Text(text) => MessageView::Text(text@),
            Message::Binary(data) => MessageView::Binary(data@),
            Message::Ping(data) => MessageView::Ping(data@),
            Message::Pong(data) => MessageView::Pong(data@),
            Message::Close(Some(frame)) => MessageView::Close(Some(frame@)),
            Message::Close(None) => MessageView::Close(None),
        }
    }
}

impl View for Outgoing {
    type V = OutgoingView;

    open spec fn view(&self) -> OutgoingView {
        OutgoingView { message: self.message@, required: self.required }
    }
}

impl View for Incoming {
    type V = IncomingView;

    open spec fn view(&self) -> IncomingView {
        match self {
            Incoming::Message(message) => IncomingView::Message(message@),
            Incoming::RawFrame => IncomingView::RawFrame,
            Incoming::Failed(error) => IncomingView::Failed(error@),
            Incoming::Ended => IncomingView::Ended,
        }
    }
}

/// The messages to send, in order.
pub open spec fn outgoing_views(sends: Seq<Outgoing>) -> Seq<OutgoingView> {
    sends.map_values(|o: Outgoing| o@)
}

/// A message whose sending must succeed.
pub open spec fn must_send(message: MessageView) -> OutgoingView {
    OutgoingView { message, required: true }
}

/// A message that is sent if the connection still takes it.
pub open spec fn try_send(message: MessageView) -> OutgoingView {
    OutgoingView { message, required: false }
}

/// Nothing to send.
pub fn nothing() -> (sends: Vec<Outgoing>)
    ensures
        outgoing_views(sends@) == Seq::<OutgoingView>::empty(),
{
    let sends: Vec<Outgoing> = Vec::new();
    assert(outgoing_views(sends@) =~= Seq::<OutgoingView>::empty());
    sends
}

/// One message to send.
pub fn just(message: Message, required: bool) -> (sends: Vec<Outgoing>)
    ensures
        outgoing_views(sends@) == seq![OutgoingView { message: message@, required }],
{
    let mut sends: Vec<Outgoing> = Vec::new();
    sends.push(Outgoing { message, required });
    assert(outgoing_views(sends@) =~= seq![OutgoingView { message: message@, required }]);
    sends
}

/// The view of a message shows all that it says.
pub proof fn law_view_shows_the_whole_message(message: Message)
    ensures
        match message {
            Message::Text(text) => message@ == MessageView::Text(text@),
            Message::Binary(data) => message@ == MessageView::Binary(data@),
            Message::Ping(data) => message@ == MessageView::Ping(data@),
            Message::Pong(data) => message@ == MessageView::Pong(data@),
            Message::Close(Some(frame)) => message@ == MessageView::Close(
                Some((frame.code, frame.reason@)),
            ),
            Message::Close(None) => message@ == MessageView::Close(None),
        },
{
}

/// The view of what a wait brought shows all of it.
pub proof fn law_view_shows_the_whole_wait(incoming: Incoming)
    ensures
        match incoming {
            Incoming::Message(message) => incoming@ == IncomingView::Message(message@),
            Incoming::RawFrame => incoming@ == IncomingView::RawFrame,
            Incoming::Failed(error) => incoming@ == IncomingView::Failed(error@),
            Incoming::Ended => incoming@ == IncomingView::Ended,
        },
{
}

/// The views of messages to send show each of them, in order, and whether its
/// sending must succeed.
pub proof fn law_views_show_all_messages(sends: Seq<Outgoing>)
    ensures
        outgoing_views(sends).len() == sends.len(),
        forall|i: int|
            #![trigger sends[i]]
            #![trigger outgoing_views(sends)[i]]
            0 <= i < sends.len() ==> outgoing_views(sends)[i].message == sends[i].message@
                && outgoing_views(sends)[i].required == sends[i].required,
{
}

/// A failure to send counts exactly where the sending must succeed, and the
/// message is the given one.
pub proof fn law_message_to_send_is_the_given_one(message: MessageView)
    ensures
        must_send(message).message == message && must_send(message).required,
        try_send(message).message == message && !try_send(message).required,
{
}

/// To send nothing is to send no message, and to send just one is to send
/// that one.
pub proof fn law_just_one_message_is_sent(
    message: Message,
    required: bool,
    one: Vec<Outgoing>,
    none: Vec<Outgoing>,
)
    requires
        call_ensures(just, (message, required), one),
        call_ensures(nothing, (), none),
    ensures
        none@.len() == 0,
        one@.len() == 1,
        one@[0].message@ == message@,
        one@[0].required == required,
{
    law_views_show_all_messages(one@);
    law_views_show_all_messages(none@);
    assert(outgoing_views(one@).len() == 1);
    assert(outgoing_views(none@).len() == 0);
    assert(outgoing_views(one@)[0] == OutgoingView { message: message@, required });
}

} // verus!
