use burz::api::types::{GatewayResumeArguments, GatewayURLInfo};
use burz::ws::client::inner::timeout::next_delay;
use burz::ws::client::inner::later;
use burz::ws::client::{ClientAction, ClientEvent};
use burz::ws::client::{
    Client, EventStreamError, EventStreamErrorKind, RunError, WaitHelloError,
};
use burz::ws::event::{Event, EventData};
use burz::ws::message::{
    Hello, Message, MessageStreamSinkError, OnlyData, ParseMessageError, Reconnect, ResumeACK,
};

fn gateway() -> GatewayURLInfo {
    GatewayURLInfo::from_str("ws://h/p?compress=0&token=t").unwrap()
}

fn hello(code: i64, session_id: Option<&str>) -> ClientEvent {
    ClientEvent::Received(Ok(Message::Hello(OnlyData {
        data: Hello { code, session_id: session_id.map(String::from) },
    })))
}

fn event(sn: u64) -> ClientEvent {
    ClientEvent::Received(Ok(Message::Event(EventData {
        sn,
        event: Event { payload: format!("{{\"n\":{}}}", sn).into_bytes() },
    })))
}

fn failed(reason: &str) -> ClientEvent {
    ClientEvent::ConnectFailed { reason: reason.to_string() }
}

fn websocket_broken() -> MessageStreamSinkError {
    MessageStreamSinkError::Websocket { reason: "reset".to_string() }
}

fn unknown_type() -> MessageStreamSinkError {
    MessageStreamSinkError::ParseMessageFailed {
        source: ParseMessageError::UnknownMessageType { t: 9 },
    }
}

/// A client whose stream was established at the time `now` in session "x".
fn streaming(now: u64) -> Client {
    let mut client = Client::new();
    assert!(matches!(client.run(gateway()), ClientAction::Connect { .. }));
    assert!(matches!(client.handle(ClientEvent::Connected, now), ClientAction::Wait));
    assert!(matches!(client.handle(hello(0, Some("x")), now), ClientAction::Established));
    client
}

fn tick(client: &mut Client) -> (u64, ClientAction) {
    let now = client.deadline().unwrap();
    (now, client.handle(ClientEvent::Tick, now))
}

fn delivered(client: &mut Client) -> Vec<String> {
    let mut seen = Vec::new();
    while let Some(item) = client.next() {
        seen.push(String::from_utf8(item.unwrap().payload).unwrap());
    }
    seen
}

fn resume_of(client: &Client) -> (u64, String) {
    let resume = client.resume_arguments().unwrap();
    (resume.sn, resume.session_id.clone())
}

fn ping_sn(action: ClientAction) -> u64 {
    match action {
        ClientAction::Send(Message::Ping(sn)) => sn.sn,
        other => panic!("not a ping: {:?}", other),
    }
}

#[test]
fn hello_and_first_event() {
    let mut client = Client::new();
    assert!(!client.is_running());
    assert_eq!(client.deadline(), None);
    match client.run(gateway()) {
        ClientAction::Connect { url } => assert_eq!(url, "ws://h/p?compress=0&token=t"),
        other => panic!("unexpected: {:?}", other),
    }
    assert!(client.is_running());
    assert!(matches!(client.handle(ClientEvent::Connected, 1_000), ClientAction::Wait));
    assert_eq!(client.deadline(), Some(7_000));
    assert!(client.resume_arguments().is_none());
    assert!(matches!(client.handle(hello(0, Some("x")), 1_500), ClientAction::Established));
    assert_eq!(resume_of(&client), (0, "x".to_string()));
    assert!(matches!(client.handle(event(1), 1_600), ClientAction::Wait));
    assert_eq!(delivered(&mut client), vec!["{\"n\":1}"]);
    assert!(client.is_running());
    assert_eq!(resume_of(&client), (1, "x".to_string()));
}

#[test]
fn misordered_events_come_out_in_order() {
    let mut client = streaming(0);
    assert!(matches!(client.handle(event(3), 1), ClientAction::Wait));
    assert!(delivered(&mut client).is_empty());
    assert!(matches!(client.handle(event(2), 2), ClientAction::Wait));
    assert!(delivered(&mut client).is_empty());
    assert_eq!(resume_of(&client).0, 0);
    assert!(matches!(client.handle(event(1), 3), ClientAction::Wait));
    assert_eq!(delivered(&mut client), vec!["{\"n\":1}", "{\"n\":2}", "{\"n\":3}"]);
    assert!(matches!(client.handle(event(2), 4), ClientAction::Wait));
    assert!(delivered(&mut client).is_empty());
    assert_eq!(resume_of(&client).0, 3);
    assert!(client.is_running());
}

#[test]
fn duplicates_are_delivered_once() {
    let mut client = streaming(0);
    for now in 1..=3 {
        assert!(matches!(client.handle(event(1), now), ClientAction::Wait));
    }
    assert_eq!(delivered(&mut client), vec!["{\"n\":1}"]);
    assert_eq!(resume_of(&client).0, 1);
}

#[test]
fn gap_is_held_until_filled() {
    let mut client = streaming(0);
    client.handle(event(1), 1);
    client.handle(event(3), 2);
    assert_eq!(delivered(&mut client), vec!["{\"n\":1}"]);
    client.handle(event(2), 3);
    assert_eq!(delivered(&mut client), vec!["{\"n\":2}", "{\"n\":3}"]);
}

#[test]
fn pong_starvation_escalates_and_reconnects() {
    let mut client = streaming(1_000);
    client.handle(event(1), 1_000);
    assert_eq!(delivered(&mut client).len(), 1);

    // Streaming: a ping at once, then every 30 s; each has 6 s for its answer.
    let (now, action) = tick(&mut client);
    assert_eq!((now, ping_sn(action)), (1_000, 1));
    let (now, action) = tick(&mut client);
    assert_eq!(now, 7_000);
    assert!(matches!(action, ClientAction::Wait));
    let (now, action) = tick(&mut client);
    assert_eq!((now, ping_sn(action)), (31_000, 1));
    // The second unanswered ping moves the client to the timeout state.
    let (now, action) = tick(&mut client);
    assert_eq!(now, 37_000);
    assert!(matches!(action, ClientAction::Wait));

    // Timeout: pings at once, after 2 s and after 4 s more; 6 s in all.
    let (now, action) = tick(&mut client);
    assert_eq!((now, ping_sn(action)), (37_000, 1));
    let (now, action) = tick(&mut client);
    assert_eq!((now, ping_sn(action)), (39_000, 1));
    let (now, action) = tick(&mut client);
    assert_eq!(now, 43_000);
    match action {
        ClientAction::Connect { url } => {
            assert_eq!(url, "ws://h/p?compress=0&token=t&resume=1&sn=1&session_id=x")
        }
        other => panic!("unexpected: {:?}", other),
    }
    assert!(client.is_running());
    assert_eq!(client.deadline(), None);

    // The session resumes: the new hello brings a new id, the number stays.
    assert!(matches!(client.handle(ClientEvent::Connected, 43_100), ClientAction::Wait));
    assert_eq!(client.deadline(), Some(49_100));
    assert!(matches!(client.handle(hello(0, Some("y")), 43_200), ClientAction::Wait));
    assert_eq!(resume_of(&client), (1, "y".to_string()));
    let (now, action) = tick(&mut client);
    assert_eq!((now, ping_sn(action)), (43_200, 1));
    client.handle(event(2), 43_300);
    assert_eq!(delivered(&mut client), vec!["{\"n\":2}"]);
}

#[test]
fn timeout_backoff_is_clamped() {
    assert_eq!(next_delay(0), 2);
    assert_eq!(next_delay(1), 2);
    assert_eq!(next_delay(2), 4);
    assert_eq!(next_delay(3), 6);
    assert_eq!(next_delay(4), 6);
    assert_eq!(next_delay(6), 6);
    assert_eq!(next_delay(u64::MAX), 6);
    assert_eq!(later(1_000, 30), 31_000);
    assert_eq!(later(0, 0), 0);
    assert_eq!(later(u64::MAX - 5_999, 6), u64::MAX);
    assert_eq!(later(u64::MAX - 6_000, 6), u64::MAX);
    assert_eq!(later(u64::MAX - 6_001, 6), u64::MAX - 1);
    assert_eq!(later(5, u64::MAX), u64::MAX);
}

#[test]
fn any_frame_answers_a_ping() {
    let mut client = streaming(0);
    assert_eq!(ping_sn(tick(&mut client).1), 0);
    assert_eq!(client.deadline(), Some(6_000));
    assert!(matches!(client.handle(ClientEvent::Received(Ok(Message::Pong)), 100), ClientAction::Wait));
    assert_eq!(client.deadline(), Some(30_000));
    // One miss, then an answer: the count starts again.
    assert_eq!(ping_sn(tick(&mut client).1), 0);
    assert!(matches!(tick(&mut client).1, ClientAction::Wait));
    let ack = Message::ResumeACK(OnlyData { data: ResumeACK { session_id: "z".to_string() } });
    assert!(matches!(client.handle(ClientEvent::Received(Ok(ack)), 50_000), ClientAction::Wait));
    assert_eq!(resume_of(&client), (0, "x".to_string()));
    assert_eq!(ping_sn(tick(&mut client).1), 0);
    assert!(matches!(tick(&mut client).1, ClientAction::Wait));
    assert_eq!(ping_sn(tick(&mut client).1), 0);
    // Second miss in a row: now the timeout state pings at once.
    assert!(matches!(tick(&mut client).1, ClientAction::Wait));
    let before = client.deadline().unwrap();
    assert_eq!(ping_sn(tick(&mut client).1), 0);
    assert_eq!(client.deadline(), Some(before + 2_000));
}

#[test]
fn non_fatal_errors_are_passed_over() {
    let mut client = streaming(0);
    tick(&mut client);
    let open = client.deadline();
    assert!(matches!(
        client.handle(ClientEvent::Received(Err(MessageStreamSinkError::NotBinaryFrame)), 10),
        ClientAction::Wait
    ));
    assert!(matches!(
        client.handle(ClientEvent::Received(Err(unknown_type())), 20),
        ClientAction::Wait
    ));
    // They do not count as an answer to the ping.
    assert_eq!(client.deadline(), open);
    assert!(client.is_running());
    assert!(client.next().is_none());
}

#[test]
fn server_reconnect_ends_the_stream() {
    let mut client = streaming(0);
    client.handle(event(1), 1);
    let reconnect = Message::Reconnect(OnlyData {
        data: Reconnect { code: 41008, err: "Missing params".to_string() },
    });
    assert!(matches!(client.handle(ClientEvent::Received(Ok(reconnect)), 2), ClientAction::Stop));
    assert!(!client.is_running());
    assert!(matches!(client.next(), Some(Ok(_))));
    match client.next() {
        Some(Err(EventStreamError {
            resume,
            source: EventStreamErrorKind::Reconnect { code, message },
        })) => {
            assert_eq!(code, 41008);
            assert_eq!(message, "Missing params");
            assert_eq!(resume.sn, 1);
            assert_eq!(resume.session_id, "x");
        }
        other => panic!("unexpected: {:?}", other),
    }
    assert!(client.next().is_none());
    // A stopped client does nothing more.
    assert!(matches!(client.handle(event(2), 3), ClientAction::Wait));
    assert!(matches!(client.handle(ClientEvent::Tick, 100_000), ClientAction::Wait));
    assert!(client.next().is_none());
    assert_eq!(client.deadline(), None);
    assert_eq!(resume_of(&client), (1, "x".to_string()));
}

#[test]
fn broken_stream_ends_the_stream_with_resume() {
    let mut client = Client::resume(GatewayResumeArguments { sn: 41, session_id: "old".to_string() });
    match client.run(gateway()) {
        ClientAction::Connect { url } => {
            assert_eq!(url, "ws://h/p?compress=0&token=t&resume=1&sn=41&session_id=old")
        }
        other => panic!("unexpected: {:?}", other),
    }
    client.handle(ClientEvent::Connected, 0);
    assert!(matches!(client.handle(hello(0, Some("new")), 1), ClientAction::Established));
    assert_eq!(resume_of(&client), (41, "new".to_string()));
    client.handle(event(41), 2);
    client.handle(event(42), 3);
    assert!(matches!(
        client.handle(ClientEvent::Received(Err(websocket_broken())), 4),
        ClientAction::Stop
    ));
    // The event 41 had been delivered in the session resumed; 42 is new.
    assert_eq!(client.next().unwrap().unwrap().payload, b"{\"n\":42}".to_vec());
    match client.next() {
        Some(Err(EventStreamError {
            resume,
            source:
                EventStreamErrorKind::MessageStream {
                    source: MessageStreamSinkError::Websocket { reason },
                },
        })) => {
            assert_eq!(reason, "reset");
            assert_eq!(resume.sn, 42);
            assert_eq!(resume.session_id, "new");
        }
        other => panic!("unexpected: {:?}", other),
    }
}

#[test]
fn failed_ping_ends_the_stream() {
    let mut client = streaming(0);
    assert_eq!(ping_sn(tick(&mut client).1), 0);
    assert!(matches!(
        client.handle(ClientEvent::SendFailed(websocket_broken()), 5),
        ClientAction::Stop
    ));
    match client.next() {
        Some(Err(EventStreamError { resume, source: EventStreamErrorKind::MessageStream { .. } })) => {
            assert_eq!(resume.sn, 0)
        }
        other => panic!("unexpected: {:?}", other),
    }
    assert!(!client.is_running());
}

#[test]
fn connect_is_tried_twice_at_most() {
    let mut client = Client::new();
    client.run(gateway());
    match client.handle(failed("refused"), 0) {
        ClientAction::Connect { url } => assert_eq!(url, "ws://h/p?compress=0&token=t"),
        other => panic!("unexpected: {:?}", other),
    }
    match client.handle(failed("refused again"), 1) {
        ClientAction::Failed(RunError::ConnectGatewayFailed { source }) => {
            assert_eq!(source.url, "ws://h/p?compress=0&token=t");
            assert_eq!(source.reason, "refused again");
        }
        other => panic!("unexpected: {:?}", other),
    }
    assert!(!client.is_running());
    assert!(matches!(client.handle(failed("late"), 2), ClientAction::Wait));
    assert!(matches!(client.handle(ClientEvent::Connected, 3), ClientAction::Wait));

    // The second attempt may succeed.
    let mut client = Client::new();
    client.run(gateway());
    assert!(matches!(client.handle(failed("refused"), 0), ClientAction::Connect { .. }));
    assert!(matches!(client.handle(ClientEvent::Connected, 1), ClientAction::Wait));
    assert!(matches!(client.handle(hello(0, Some("x")), 2), ClientAction::Established));
}

#[test]
fn run_fails_on_unwritable_gateway() {
    let mut client = Client::new();
    let mut bad = gateway();
    bad.host = String::new();
    bad.path = String::new();
    match client.run(bad) {
        ClientAction::Failed(RunError::ConnectGatewayFailed { source }) => {
            assert_eq!(source.url, "ws://");
            assert_eq!(source.reason, "invalid gateway address");
        }
        other => panic!("unexpected: {:?}", other),
    }
    assert!(!client.is_running());
    // Running twice does nothing.
    assert!(matches!(client.run(gateway()), ClientAction::Wait));
}

fn connected() -> Client {
    let mut client = Client::new();
    client.run(gateway());
    client.handle(ClientEvent::Connected, 0);
    client
}

fn hello_failure(first: ClientEvent, now: u64) -> WaitHelloError {
    let mut client = connected();
    match client.handle(first, now) {
        ClientAction::Failed(RunError::WaitHelloFailed { source }) => {
            assert!(!client.is_running());
            source
        }
        other => panic!("unexpected: {:?}", other),
    }
}

#[test]
fn each_hello_failure() {
    assert!(matches!(hello_failure(ClientEvent::Tick, 6_000), WaitHelloError::Timeout));
    assert!(matches!(
        hello_failure(ClientEvent::Received(Ok(Message::Pong)), 1),
        WaitHelloError::MessageNotHello
    ));
    assert!(matches!(hello_failure(event(1), 1), WaitHelloError::MessageNotHello));
    assert!(matches!(
        hello_failure(hello(40103, Some("x")), 1),
        WaitHelloError::HelloMessageCodeNotZero { code: 40103 }
    ));
    assert!(matches!(hello_failure(hello(0, None), 1), WaitHelloError::HelloMessageNoSessionId));
    assert!(matches!(
        hello_failure(ClientEvent::Received(Err(websocket_broken())), 1),
        WaitHelloError::MessageStream { source: MessageStreamSinkError::Websocket { .. } }
    ));
    let not_json = MessageStreamSinkError::ParseMessageFailed {
        source: ParseMessageError::MessageNotObject { json: "1".to_string() },
    };
    assert!(matches!(
        hello_failure(ClientEvent::Received(Err(not_json)), 1),
        WaitHelloError::MessageStream { .. }
    ));
}

#[test]
fn hello_wait_goes_on_before_the_deadline() {
    let mut client = connected();
    assert!(matches!(client.handle(ClientEvent::Tick, 5_999), ClientAction::Wait));
    assert!(matches!(
        client.handle(ClientEvent::Received(Err(MessageStreamSinkError::NotBinaryFrame)), 100),
        ClientAction::Wait
    ));
    assert!(matches!(
        client.handle(ClientEvent::Received(Err(unknown_type())), 100),
        ClientAction::Wait
    ));
    assert!(matches!(client.handle(ClientEvent::SendFailed(websocket_broken()), 100), ClientAction::Wait));
    assert_eq!(client.deadline(), Some(6_000));
    assert!(client.is_running());
    assert!(matches!(client.handle(hello(0, Some("x")), 5_999), ClientAction::Established));
}

fn degraded() -> Client {
    let mut client = streaming(0);
    for _ in 0..4 {
        tick(&mut client);
    }
    assert_eq!(client.deadline(), Some(36_000));
    client
}

#[test]
fn timeout_recovers_on_any_frame() {
    let mut client = degraded();
    assert_eq!(ping_sn(tick(&mut client).1), 0);
    // An event is held back and delivered when streaming starts again.
    assert!(matches!(client.handle(event(1), 36_500), ClientAction::Wait));
    assert_eq!(delivered(&mut client), vec!["{\"n\":1}"]);
    // Back in the streaming state a ping is due at once, the next after 30 s.
    let (now, action) = tick(&mut client);
    assert_eq!((now, ping_sn(action)), (36_500, 1));
    assert_eq!(client.deadline(), Some(42_500));

    let mut client = degraded();
    assert!(matches!(
        client.handle(ClientEvent::Received(Ok(Message::Pong)), 36_100),
        ClientAction::Wait
    ));
    assert_eq!(client.deadline(), Some(36_100));
    assert_eq!(ping_sn(tick(&mut client).1), 0);
    assert_eq!(client.deadline(), Some(42_100));
}

#[test]
fn timeout_stops_on_reconnect_and_on_errors() {
    let mut client = degraded();
    let reconnect = Message::Reconnect(OnlyData {
        data: Reconnect { code: 40108, err: "gone".to_string() },
    });
    assert!(matches!(client.handle(ClientEvent::Received(Ok(reconnect)), 36_001), ClientAction::Stop));
    assert!(matches!(
        client.next(),
        Some(Err(EventStreamError {
            source: EventStreamErrorKind::Reconnect { code: 40108, .. },
            ..
        }))
    ));

    let mut client = degraded();
    assert!(matches!(
        client.handle(ClientEvent::Received(Err(MessageStreamSinkError::NotBinaryFrame)), 36_001),
        ClientAction::Wait
    ));
    assert!(client.is_running());
    assert!(matches!(
        client.handle(ClientEvent::Received(Err(websocket_broken())), 36_002),
        ClientAction::Stop
    ));
    assert!(matches!(
        client.next(),
        Some(Err(EventStreamError { source: EventStreamErrorKind::MessageStream { .. }, .. }))
    ));

    let mut client = degraded();
    tick(&mut client);
    assert!(matches!(
        client.handle(ClientEvent::SendFailed(websocket_broken()), 36_003),
        ClientAction::Stop
    ));
    assert!(matches!(
        client.next(),
        Some(Err(EventStreamError { source: EventStreamErrorKind::MessageStream { .. }, .. }))
    ));
}

fn reconnecting() -> Client {
    let mut client = degraded();
    client.handle(event(1), 0);
    // the event above brought the client back to streaming: degrade again
    for _ in 0..4 {
        tick(&mut client);
    }
    loop {
        if let ClientAction::Connect { .. } = tick(&mut client).1 {
            break;
        }
    }
    client
}

#[test]
fn reconnect_failures_end_the_stream() {
    let mut client = reconnecting();
    match client.handle(failed("refused"), 0) {
        ClientAction::Connect { url } => {
            assert_eq!(url, "ws://h/p?compress=0&token=t&resume=1&sn=1&session_id=x")
        }
        other => panic!("unexpected: {:?}", other),
    }
    assert!(matches!(client.handle(failed("refused"), 1), ClientAction::Stop));
    assert!(matches!(client.next(), Some(Ok(_))));
    match client.next() {
        Some(Err(EventStreamError {
            resume,
            source: EventStreamErrorKind::ReConnectGatewayFailed { source },
        })) => {
            assert_eq!(source.reason, "refused");
            assert_eq!(source.url, "ws://h/p?compress=0&token=t&resume=1&sn=1&session_id=x");
            assert_eq!(resume.sn, 1);
            assert_eq!(resume.session_id, "x");
        }
        other => panic!("unexpected: {:?}", other),
    }

    let mut client = reconnecting();
    client.handle(ClientEvent::Connected, 100_000);
    assert!(matches!(client.handle(ClientEvent::Tick, 105_999), ClientAction::Wait));
    assert!(matches!(client.handle(ClientEvent::Tick, 106_000), ClientAction::Stop));
    assert!(matches!(client.next(), Some(Ok(_))));
    assert!(matches!(
        client.next(),
        Some(Err(EventStreamError {
            source: EventStreamErrorKind::ReWaitHelloFailed { source: WaitHelloError::Timeout },
            ..
        }))
    ));

    let mut client = reconnecting();
    client.handle(ClientEvent::Connected, 100_000);
    assert!(matches!(client.handle(hello(40106, None), 100_001), ClientAction::Stop));
    assert!(matches!(client.next(), Some(Ok(_))));
    assert!(matches!(
        client.next(),
        Some(Err(EventStreamError {
            source: EventStreamErrorKind::ReWaitHelloFailed {
                source: WaitHelloError::HelloMessageCodeNotZero { code: 40106 }
            },
            ..
        }))
    ));
}

#[test]
fn dropped_stream_stops_the_engine_at_the_next_delivery() {
    let mut client = streaming(0);
    client.handle(event(1), 1);
    client.cancel();
    // Nothing is due: the engine goes on.
    assert!(matches!(client.handle(event(3), 2), ClientAction::Wait));
    assert!(client.is_running());
    assert_eq!(ping_sn(tick(&mut client).1), 1);
    // An event is due and the stream does not take it: the engine stops.
    assert!(matches!(client.handle(event(2), 3), ClientAction::Stop));
    assert!(!client.is_running());
    assert_eq!(resume_of(&client).0, 1);
    // What was sent before the drop is still there; nothing came after.
    assert_eq!(delivered(&mut client), vec!["{\"n\":1}"]);
}

#[test]
fn ping_schedule_does_not_drift() {
    let mut client = streaming(0);
    // The first ping is due at 0 and sent a second late: the next is due at 30 s.
    assert_eq!(ping_sn(client.handle(ClientEvent::Tick, 1_000)), 0);
    client.handle(ClientEvent::Received(Ok(Message::Pong)), 1_500);
    assert_eq!(client.deadline(), Some(30_000));
    // Its answer had 6 s from the time it was sent.
    assert_eq!(ping_sn(client.handle(ClientEvent::Tick, 34_000)), 0);
    assert_eq!(client.deadline(), Some(40_000));
    client.handle(ClientEvent::Received(Ok(Message::Pong)), 35_000);
    assert_eq!(client.deadline(), Some(60_000));
}

#[test]
fn run_keeps_other_query_parameters() {
    let mut client = Client::new();
    let gateway = GatewayURLInfo::from_str("ws://h/p?token=t&foo=bar").unwrap();
    match client.run(gateway) {
        ClientAction::Connect { url } => assert_eq!(url, "ws://h/p?compress=0&token=t&foo=bar"),
        other => panic!("unexpected: {:?}", other),
    }
}

#[test]
fn ping_reports_the_last_delivered_number() {
    let mut client = streaming(0);
    assert_eq!(ping_sn(tick(&mut client).1), 0);
    client.handle(event(1), 10);
    client.handle(event(2), 20);
    client.handle(event(5), 25);
    let (now, action) = tick(&mut client);
    assert_eq!((now, ping_sn(action)), (30_000, 2));
}
