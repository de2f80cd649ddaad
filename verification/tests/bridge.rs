use ws_tunnel::bridge::{
    heartbeat_period, BridgeEffect, BridgeEvent, BridgeNext, BridgeStep, Relay, BUFFER_SIZE,
    GRACE, SECOND,
};
use ws_tunnel::message::{CloseFrame, Incoming, Message, Outgoing};

fn frame(message: Message) -> BridgeEvent {
    BridgeEvent::Ws(Incoming::Message(message))
}

/// The first step of a relay with a heartbeat every second.
fn step(event: BridgeEvent) -> BridgeStep {
    Relay::new(Some(SECOND)).step(event)
}

fn quiet(step: &BridgeStep) -> bool {
    step.effects.is_empty() && matches!(step.next, BridgeNext::Continue)
}

#[test]
fn the_buffer_holds_sixteen_kibibytes() {
    assert_eq!(BUFFER_SIZE, 16384);
}

#[test]
fn tcp_bytes_go_out_as_a_binary_message() {
    let mut step = step(BridgeEvent::TcpRead(vec![1, 2, 3]));
    assert!(matches!(step.next, BridgeNext::Continue));
    assert_eq!(step.effects.len(), 1);
    match step.effects.remove(0) {
        BridgeEffect::Send(Outgoing { message: Message::Binary(data), required: true }) => {
            assert_eq!(data, vec![1, 2, 3]);
        }
        other => panic!("{other:?}"),
    }
}

#[test]
fn the_end_of_tcp_closes_the_websocket() {
    let step = step(BridgeEvent::TcpRead(vec![]));
    assert!(matches!(step.next, BridgeNext::Finish));
    assert_eq!(step.effects.len(), 1);
    assert!(matches!(
        step.effects[0],
        BridgeEffect::Send(Outgoing { message: Message::Close(None), required: false })
    ));
}

#[test]
fn binary_messages_are_written_to_tcp() {
    let step = step(frame(Message::Binary(vec![9, 8])));
    assert!(matches!(step.next, BridgeNext::Continue));
    assert_eq!(step.effects.len(), 1);
    match &step.effects[0] {
        BridgeEffect::Write(data) => assert_eq!(data, &vec![9, 8]),
        other => panic!("{other:?}"),
    }
}

#[test]
fn a_ping_is_answered_by_a_pong_with_its_payload() {
    let step = step(frame(Message::Ping(vec![7])));
    match &step.effects[..] {
        [BridgeEffect::Send(Outgoing { message: Message::Pong(data), required: true })] => {
            assert_eq!(data, &vec![7]);
        }
        other => panic!("{other:?}"),
    }
    assert!(matches!(step.next, BridgeNext::Continue));
}

#[test]
fn a_close_is_echoed_and_shuts_tcp_down() {
    let close = Message::Close(Some(CloseFrame { code: 1000, reason: "bye".to_string() }));
    let step = step(frame(close));
    assert!(matches!(step.next, BridgeNext::Finish));
    match &step.effects[..] {
        [BridgeEffect::Send(Outgoing { message: Message::Close(Some(echo)), required: false }), BridgeEffect::Shutdown] =>
        {
            assert_eq!(echo.code, 1000);
            assert_eq!(echo.reason, "bye");
        }
        other => panic!("{other:?}"),
    }
}

#[test]
fn the_end_of_the_websocket_shuts_tcp_down() {
    let step = step(BridgeEvent::Ws(Incoming::Ended));
    assert!(matches!(step.next, BridgeNext::Finish));
    assert!(matches!(step.effects[..], [BridgeEffect::Shutdown]));
}

#[test]
fn pongs_texts_and_raw_frames_change_nothing() {
    assert!(quiet(&step(frame(Message::Pong(vec![1])))));
    assert!(quiet(&step(frame(Message::Text("x".to_string())))));
    assert!(quiet(&step(BridgeEvent::Ws(Incoming::RawFrame))));
}

#[test]
fn failures_of_either_side_end_the_relay() {
    for event in [
        BridgeEvent::TcpFailed("broken".to_string()),
        BridgeEvent::Ws(Incoming::Failed("broken".to_string())),
    ] {
        let step = step(event);
        assert!(step.effects.is_empty());
        match step.next {
            BridgeNext::Fail(error) => assert_eq!(error, "broken"),
            other => panic!("{other:?}"),
        }
    }
}

fn pings(step: &BridgeStep) -> bool {
    match &step.effects[..] {
        [BridgeEffect::Send(Outgoing { message: Message::Ping(data), required: true })] => {
            data.is_empty() && matches!(step.next, BridgeNext::Continue)
        }
        [] => false,
        other => panic!("{other:?}"),
    }
}

#[test]
fn heartbeats_ping_only_where_they_are_on() {
    assert!(pings(&step(BridgeEvent::Heartbeat(SECOND))));
    let mut off = Relay::new(None);
    assert_eq!(off.due(), None);
    assert!(quiet(&off.step(BridgeEvent::Heartbeat(SECOND))));
    assert_eq!(off.due(), None);
}

#[test]
fn heartbeats_keep_their_interval() {
    let mut relay = Relay::new(Some(20 * SECOND));
    assert_eq!(relay.due(), Some(20_000_000_000));
    assert!(quiet(&relay.step(BridgeEvent::Heartbeat(0))));
    assert!(quiet(&relay.step(BridgeEvent::Heartbeat(19_999_999_999))));
    for k in 1..=5 {
        assert_eq!(relay.due(), Some(k * 20 * SECOND));
        assert!(pings(&relay.step(BridgeEvent::Heartbeat(k * 20 * SECOND))));
        assert!(quiet(&relay.step(BridgeEvent::Heartbeat(k * 20 * SECOND))));
    }
    assert!(!quiet(&relay.step(BridgeEvent::TcpRead(vec![1]))));
    assert_eq!(relay.due(), Some(120 * SECOND));
}

#[test]
fn a_late_heartbeat_delays_those_that_follow() {
    let mut relay = Relay::new(Some(SECOND));
    assert!(pings(&relay.step(BridgeEvent::Heartbeat(SECOND + GRACE))));
    assert_eq!(relay.due(), Some(2 * SECOND));
    assert!(pings(&relay.step(BridgeEvent::Heartbeat(2 * SECOND + GRACE + 1))));
    assert_eq!(relay.due(), Some(3_005_000_001));
    assert!(pings(&relay.step(BridgeEvent::Heartbeat(u64::MAX))));
    assert_eq!(relay.due(), None);
}

#[test]
fn a_period_is_counted_in_nanoseconds() {
    assert_eq!(heartbeat_period(Some(20)), Some(20_000_000_000));
    assert_eq!(heartbeat_period(None), None);
    assert_eq!(heartbeat_period(Some(u64::MAX)), None);
}

#[test]
fn a_run_forwards_all_bytes_in_order() {
    let mut to_tcp: Vec<u8> = Vec::new();
    let mut to_ws: Vec<u8> = Vec::new();
    let events = vec![
        frame(Message::Binary(vec![1, 2])),
        BridgeEvent::TcpRead(vec![10]),
        frame(Message::Pong(vec![99])),
        frame(Message::Binary(vec![3])),
        BridgeEvent::Heartbeat(SECOND),
        BridgeEvent::TcpRead(vec![11, 12]),
        BridgeEvent::Ws(Incoming::Ended),
    ];
    for event in events {
        for effect in step(event).effects {
            match effect {
                BridgeEffect::Write(data) => to_tcp.extend(data),
                BridgeEffect::Send(Outgoing { message: Message::Binary(data), .. }) => {
                    to_ws.extend(data)
                }
                _ => {}
            }
        }
    }
    assert_eq!(to_tcp, vec![1, 2, 3]);
    assert_eq!(to_ws, vec![10, 11, 12]);
}

#[test]
fn a_stream_crosses_two_relays_unchanged() {
    let mut arrived: Vec<u8> = Vec::new();
    let reads = vec![
        BridgeEvent::TcpRead(vec![1, 2]),
        BridgeEvent::Heartbeat(SECOND),
        BridgeEvent::TcpRead(vec![3]),
        BridgeEvent::TcpRead(vec![]),
    ];
    for event in reads {
        for effect in step(event).effects {
            if let BridgeEffect::Send(out) = effect {
                for effect in step(frame(out.message)).effects {
                    if let BridgeEffect::Write(data) = effect {
                        arrived.extend(data);
                    }
                }
            }
        }
    }
    assert_eq!(arrived, vec![1, 2, 3]);
}

#[test]
fn a_full_buffer_makes_one_frame() {
    let step = step(BridgeEvent::TcpRead(vec![5; BUFFER_SIZE]));
    match &step.effects[..] {
        [BridgeEffect::Send(Outgoing { message: Message::Binary(data), required: true })] => {
            assert_eq!(data, &vec![5; 16384]);
        }
        other => panic!("{other:?}"),
    }
}
