//! The text frames by which client and server agree on a tunnel.

use vstd::prelude::*;

use crate::message::{Message, MessageView};
use crate::text::{
    chars_of, decimal, in_word, lemma_decimal_reads_back, lemma_words_append,
    lemma_words_are_unspaced, lemma_words_past_space, port_number, push_decimal, read_port,
    strip_prefix, stripped, unspaced, word_ranges, words,
};

verus! {

pub const CMD_START: &'static str = "START";

pub const CMD_OK: &'static str = "OK";

pub const CMD_HELLO_PREFIX: &'static str = "HELLO ";

pub const CMD_CONTROL_PREFIX: &'static str = "CONTROL ";

pub const CMD_ERR_PREFIX: &'static str = "ERR ";

pub const CMD_CONNECT: &'static str = "CONNECT";

/// The text of a frame that opens with `prefix` and names a token and a port.
pub open spec fn credentials_text(prefix: Seq<char>, token: Seq<char>, port: u16) -> Seq<char> {
    prefix + token + " "@ + decimal(port as nat)
}

/// The token and the port that a frame opening with `prefix` names: exactly
/// two words follow, and the second one is a port number.
pub open spec fn credentials(text: Seq<char>, prefix: Seq<char>) -> Option<(Seq<char>, u16)> {
    match stripped(text, prefix) {
        Some(body) => {
            let parts = words(body);
            if parts.len() == 2 && port_number(parts[1]) is Some {
                Some((parts[0], port_number(parts[1])->0))
            } else {
                None
            }
        },
        None => None,
    }
}

/// The text of a HELLO frame.
pub open spec fn hello_text(token: Seq<char>, port: u16) -> Seq<char> {
    credentials_text(CMD_HELLO_PREFIX@, token, port)
}

/// The text of a CONTROL frame.
pub open spec fn control_text(token: Seq<char>, port: u16) -> Seq<char> {
    credentials_text(CMD_CONTROL_PREFIX@, token, port)
}

/// The text of an ERR frame.
pub open spec fn err_text(message: Seq<char>) -> Seq<char> {
    CMD_ERR_PREFIX@ + message
}

/// What a HELLO frame names.
pub open spec fn hello_fields(text: Seq<char>) -> Option<(Seq<char>, u16)> {
    credentials(text, CMD_HELLO_PREFIX@)
}

/// What a CONTROL frame names.
pub open spec fn control_fields(text: Seq<char>) -> Option<(Seq<char>, u16)> {
    credentials(text, CMD_CONTROL_PREFIX@)
}

/// What an ERR frame reports.
pub open spec fn err_report(text: Seq<char>) -> Option<Seq<char>> {
    stripped(text, CMD_ERR_PREFIX@)
}

/// The frame by which a worker connection presents itself.
pub fn hello(token: &str, remote_port: u16) -> (frame: Message)
    ensures
        frame@ == MessageView::Text(hello_text(token@, remote_port)),
{
    Message::Text(write_credentials(CMD_HELLO_PREFIX, token, remote_port))
}

/// Reads a HELLO frame.
pub fn parse_hello(text: &str) -> (fields: Option<(&str, u16)>)
    ensures
        match fields {
            Some((token, port)) => hello_fields(text@) == Some((token@, port)),
            None => hello_fields(text@) is None,
        },
{
    read_credentials(text, CMD_HELLO_PREFIX)
}

/// The frame by which a control connection presents itself.
pub fn control(token: &str, remote_port: u16) -> (frame: Message)
    ensures
        frame@ == MessageView::Text(control_text(token@, remote_port)),
{
    Message::Text(write_credentials(CMD_CONTROL_PREFIX, token, remote_port))
}

/// Reads a CONTROL frame.
pub fn parse_control(text: &str) -> (fields: Option<(&str, u16)>)
    ensures
        match fields {
            Some((token, port)) => control_fields(text@) == Some((token@, port)),
            None => control_fields(text@) is None,
        },
{
    read_credentials(text, CMD_CONTROL_PREFIX)
}

/// The frame that tells a worker to open its local target.
pub fn start() -> (frame: Message)
    ensures
        frame@ == MessageView::Text(CMD_START@),
{
    Message::Text(CMD_START.to_string())
}

/// The frame that asks the client for one more worker.
pub fn connect() -> (frame: Message)
    ensures
        frame@ == MessageView::Text(CMD_CONNECT@),
{
    Message::Text(CMD_CONNECT.to_string())
}

/// The frame that confirms an open local target.
pub fn ok() -> (frame: Message)
    ensures
        frame@ == MessageView::Text(CMD_OK@),
{
    Message::Text(CMD_OK.to_string())
}

/// The frame that reports an error.
pub fn err(message: &str) -> (frame: Message)
    ensures
        frame@ == MessageView::Text(err_text(message@)),
{
    let mut text = CMD_ERR_PREFIX.to_string();
    text.append(message);
    Message::Text(text)
}

/// Reads an ERR frame.
pub fn parse_err(text: &str) -> (report: Option<&str>)
    ensures
        match report {
            Some(message) => err_report(text@) == Some(message@),
            None => err_report(text@) is None,
        },
{
    strip_prefix(text, CMD_ERR_PREFIX)
}

fn write_credentials(prefix: &str, token: &str, port: u16) -> (text: String)
    ensures
        text@ == credentials_text(prefix@, token@, port),
{
    let mut text = prefix.to_string();
    text.append(token);
    text.append(" ");
    push_decimal(&mut text, port);
    text
}

fn read_credentials<'a>(text: &'a str, prefix: &str) -> (fields: Option<(&'a str, u16)>)
    ensures
        match fields {
            Some((token, port)) => credentials(text@, prefix@) == Some((token@, port)),
            None => credentials(text@, prefix@) is None,
        },
{
    match strip_prefix(text, prefix) {
        Some(body) => {
            let chars = chars_of(body);
            let ranges = word_ranges(&chars);
            if ranges.len() != 2 {
                return None;
            }
            match read_port(&chars, ranges[1].0, ranges[1].1) {
                Some(port) => Some((body.substring_char(ranges[0].0, ranges[0].1), port)),
                None => None,
            }
        },
        None => None,
    }
}

/// A frame that names a token without whitespace reads back as that token
/// and port, whatever opens it.
proof fn lemma_credentials_read_back(prefix: Seq<char>, token: Seq<char>, port: u16)
    requires
        token.len() > 0,
        unspaced(token),
    ensures
        credentials(credentials_text(prefix, token, port), prefix) == Some((token, port)),
{
    reveal_strlit(" ");
    let text = credentials_text(prefix, token, port);
    let digits = decimal(port as nat);
    let body = text.skip(prefix.len() as int);
    assert(body =~= token.push(' ') + digits);
    lemma_decimal_reads_back(port as nat);
    lemma_words_append(Seq::empty(), token);
    assert(Seq::<char>::empty() + token =~= token);
    lemma_words_past_space(token, ' ');
    assert(!in_word(token.push(' ')));
    lemma_words_append(token.push(' '), digits);
}

/// What a HELLO frame says is what its reader learns: token and port come
/// back unchanged, for every port and every token that is a single word.
pub proof fn law_hello_reads_back(token: Seq<char>, port: u16)
    requires
        token.len() > 0,
        unspaced(token),
    ensures
        hello_fields(hello_text(token, port)) == Some((token, port)),
{
    lemma_credentials_read_back(CMD_HELLO_PREFIX@, token, port);
}

/// What a CONTROL frame says is what its reader learns: token and port come
/// back unchanged, for every port and every token that is a single word.
pub proof fn law_control_reads_back(token: Seq<char>, port: u16)
    requires
        token.len() > 0,
        unspaced(token),
    ensures
        control_fields(control_text(token, port)) == Some((token, port)),
{
    lemma_credentials_read_back(CMD_CONTROL_PREFIX@, token, port);
}

/// An ERR frame carries any message to its reader unchanged.
pub proof fn law_err_reads_back(message: Seq<char>)
    ensures
        err_report(err_text(message)) == Some(message),
{
    assert(err_text(message).skip(CMD_ERR_PREFIX@.len() as int) =~= message);
}

/// A token that a frame names is always a single word: one that is empty or
/// holds whitespace can be named by no frame.
pub proof fn law_named_token_is_a_word(text: Seq<char>)
    ensures
        hello_fields(text) matches Some((token, _)) ==> token.len() > 0 && unspaced(token),
        control_fields(text) matches Some((token, _)) ==> token.len() > 0 && unspaced(token),
{
    if let Some(body) = stripped(text, CMD_HELLO_PREFIX@) {
        lemma_words_are_unspaced(body);
    }
    if let Some(body) = stripped(text, CMD_CONTROL_PREFIX@) {
        lemma_words_are_unspaced(body);
    }
}

/// No text is both a HELLO and a CONTROL frame, and neither of them is an ERR
/// frame or one of the plain commands.
pub proof fn law_frames_are_distinct(text: Seq<char>)
    ensures
        hello_fields(text) is Some ==> control_fields(text) is None && err_report(text) is None,
        control_fields(text) is Some ==> err_report(text) is None,
        text == CMD_START@ || text == CMD_OK@ || text == CMD_CONNECT@ ==> hello_fields(text) is None
            && control_fields(text) is None && err_report(text) is None,
        CMD_START@ != CMD_OK@,
        CMD_START@ != CMD_CONNECT@,
        CMD_OK@ != CMD_CONNECT@,
{
    reveal_strlit("START");
    reveal_strlit("OK");
    reveal_strlit("CONNECT");
    reveal_strlit("HELLO ");
    reveal_strlit("CONTROL ");
    reveal_strlit("ERR ");
    assert(CMD_HELLO_PREFIX@[0] == 'H');
    assert(CMD_CONTROL_PREFIX@[0] == 'C' && CMD_CONTROL_PREFIX@[3] == 'T');
    assert(CMD_ERR_PREFIX@[0] == 'E');
    assert(CMD_CONNECT@[3] == 'N');
    assert(CMD_START@.len() == 5 && CMD_OK@.len() == 2 && CMD_CONNECT@.len() == 7);
    if hello_fields(text) is Some {
        assert(text[0] == 'H');
    }
    if control_fields(text) is Some {
        assert(text[0] == 'C' && text[3] == 'T');
    }
    if err_report(text) is Some {
        assert(text[0] == 'E');
    }
}

/// The commands on the wire.
pub proof fn law_commands_on_the_wire()
    ensures
        CMD_START@ == "START"@,
        CMD_OK@ == "OK"@,
        CMD_CONNECT@ == "CONNECT"@,
        CMD_HELLO_PREFIX@ == "HELLO "@,
        CMD_CONTROL_PREFIX@ == "CONTROL "@,
        CMD_ERR_PREFIX@ == "ERR "@,
{
}

/// A frame that names a token and a port is its command, a space, the token, a
/// space and the port in base ten.
pub proof fn law_credentials_on_the_wire(
    token: &str,
    port: u16,
    hello_frame: Message,
    control_frame: Message,
)
    requires
        call_ensures(hello, (token, port), hello_frame),
        call_ensures(control, (token, port), control_frame),
    ensures
        hello_frame@ == MessageView::Text("HELLO "@ + token@ + " "@ + decimal(port as nat)),
        control_frame@ == MessageView::Text("CONTROL "@ + token@ + " "@ + decimal(port as nat)),
        hello_text(token@, port) == "HELLO "@ + token@ + " "@ + decimal(port as nat),
        control_text(token@, port) == "CONTROL "@ + token@ + " "@ + decimal(port as nat),
{
}

/// A plain command is its word, and an error report is `ERR`, a space and the
/// message.
pub proof fn law_commands_are_sent_as_they_are(
    message: &str,
    start_frame: Message,
    connect_frame: Message,
    ok_frame: Message,
    err_frame: Message,
)
    requires
        call_ensures(start, (), start_frame),
        call_ensures(connect, (), connect_frame),
        call_ensures(ok, (), ok_frame),
        call_ensures(err, (message,), err_frame),
    ensures
        start_frame@ == MessageView::Text("START"@),
        connect_frame@ == MessageView::Text("CONNECT"@),
        ok_frame@ == MessageView::Text("OK"@),
        err_frame@ == MessageView::Text("ERR "@ + message@),
        err_text(message@) == "ERR "@ + message@,
{
}

/// A HELLO frame is read exactly where `HELLO` and a space open it, two words
/// follow, and the second of them is a port; its token is the first one.
pub proof fn law_hello_is_read(text: Seq<char>, rest: Seq<char>, token: Seq<char>, port: u16)
    requires
        text == "HELLO "@ + rest,
    ensures
        hello_fields(text) == Some((token, port)) <==> words(rest).len() == 2 && words(rest)[0]
            == token && port_number(words(rest)[1]) == Some(port),
        hello_fields(text) is None <==> words(rest).len() != 2 || port_number(words(rest)[1])
            is None,
{
    assert(text.skip("HELLO "@.len() as int) =~= rest);
}

/// A CONTROL frame is read exactly where `CONTROL` and a space open it, two
/// words follow, and the second of them is a port; its token is the first one.
pub proof fn law_control_is_read(text: Seq<char>, rest: Seq<char>, token: Seq<char>, port: u16)
    requires
        text == "CONTROL "@ + rest,
    ensures
        control_fields(text) == Some((token, port)) <==> words(rest).len() == 2 && words(rest)[0]
            == token && port_number(words(rest)[1]) == Some(port),
        control_fields(text) is None <==> words(rest).len() != 2 || port_number(words(rest)[1])
            is None,
{
    assert(text.skip("CONTROL "@.len() as int) =~= rest);
}

/// No other text is read as a frame than one that its command opens, and an
/// error report is all that follows `ERR` and a space.
pub proof fn law_other_texts_are_no_frames(text: Seq<char>, message: Seq<char>)
    ensures
        hello_fields(text) is Some ==> "HELLO "@.is_prefix_of(text),
        control_fields(text) is Some ==> "CONTROL "@.is_prefix_of(text),
        err_report(text) == Some(message) <==> text == "ERR "@ + message,
        err_report(text) is None <==> !"ERR "@.is_prefix_of(text),
{
    law_err_reads_back(message);
    if "ERR "@.is_prefix_of(text) {
        assert(text =~= "ERR "@ + text.skip("ERR "@.len() as int));
    }
}

/// The readers of frames give what the frames name.
pub proof fn law_readers_give_what_frames_name(
    text: &str,
    of_hello: Option<(&str, u16)>,
    of_control: Option<(&str, u16)>,
    of_err: Option<&str>,
)
    requires
        call_ensures(parse_hello, (text,), of_hello),
        call_ensures(parse_control, (text,), of_control),
        call_ensures(parse_err, (text,), of_err),
    ensures
        match of_hello {
            Some((token, port)) => hello_fields(text@) == Some((token@, port)),
            None => hello_fields(text@) is None,
        },
        match of_control {
            Some((token, port)) => control_fields(text@) == Some((token@, port)),
            None => control_fields(text@) is None,
        },
        match of_err {
            Some(message) => text@ == "ERR "@ + message@,
            None => !"ERR "@.is_prefix_of(text@),
        },
{
    if let Some(message) = of_err {
        law_other_texts_are_no_frames(text@, message@);
    } else {
        law_other_texts_are_no_frames(text@, Seq::empty());
    }
}

} // verus!
