use burz::api::types::GatewayResumeArguments;
use burz::ws::client::inner::streaming::buffer::{EventBuffer, EventsCanBeSend};
use burz::ws::client::inner::streaming::sender::EventStreamSender;
use burz::ws::client::inner::streaming::stream::EventStream;
use burz::ws::client::{EventStreamError, EventStreamErrorKind};
use burz::ws::event::{Event, EventData};
use burz::ws::message::{Message, MessageStreamSinkError, Reconnect};

fn data(sn: u64) -> EventData {
    EventData { sn, event: Event { payload: sn.to_string().into_bytes() } }
}

fn tagged(sn: u64, tag: &str) -> EventData {
    EventData { sn, event: Event { payload: tag.as_bytes().to_vec() } }
}

fn numbers(events: &[EventData]) -> Vec<u64> {
    events.iter().map(|e| e.sn).collect()
}

fn drain(buffer: &mut EventBuffer) -> Vec<u64> {
    let mut seen = Vec::new();
    while let Some(event) = buffer.pop() {
        seen.push(event.sn);
    }
    seen
}

#[test]
fn buffer_orders_by_serial_number() {
    let mut buffer = EventBuffer::new();
    assert!(buffer.peek().is_none());
    assert!(buffer.pop().is_none());
    for sn in [7, 3, 9, 5, 4, 8] {
        buffer.put(0, data(sn));
    }
    assert_eq!(buffer.peek().unwrap().sn, 3);
    assert_eq!(drain(&mut buffer), vec![3, 4, 5, 7, 8, 9]);
    assert!(buffer.peek().is_none());
}

#[test]
fn buffer_drops_what_was_delivered_or_is_held() {
    let mut buffer = EventBuffer::new();
    buffer.put(5, data(5));
    buffer.put(5, data(4));
    buffer.put(5, data(0));
    assert!(buffer.peek().is_none());
    buffer.put(5, tagged(6, "first"));
    buffer.put(5, tagged(6, "second"));
    buffer.put(5, data(8));
    buffer.put(5, tagged(8, "again"));
    assert_eq!(buffer.peek().unwrap().event.payload, b"first".to_vec());
    let first = buffer.pop().unwrap();
    assert_eq!((first.sn, first.event.payload), (6, b"first".to_vec()));
    let second = buffer.pop().unwrap();
    assert_eq!((second.sn, second.event.payload), (8, b"8".to_vec()));
    assert!(buffer.pop().is_none());
    // A number that was popped may come again.
    buffer.put(5, data(6));
    assert_eq!(drain(&mut buffer), vec![6]);
}

#[test]
fn buffer_hands_out_the_run_that_continues() {
    let mut buffer = EventBuffer::new();
    for sn in [2, 3, 4, 6, 7] {
        buffer.put(0, data(sn));
    }
    assert!(buffer.events_can_be_sent(0).all().is_empty());
    assert!(buffer.events_can_be_sent(2).all().is_empty());
    assert_eq!(numbers(&buffer.events_can_be_sent(1).all()), vec![2, 3, 4]);
    assert_eq!(buffer.peek().unwrap().sn, 6);
    assert!(buffer.events_can_be_sent(4).all().is_empty());
    assert_eq!(numbers(&buffer.events_can_be_sent(5).all()), vec![6, 7]);
    assert!(buffer.peek().is_none());
    assert!(buffer.events_can_be_sent(7).all().is_empty());
}

#[test]
fn walk_hands_out_one_event_at_a_time() {
    let mut buffer = EventBuffer::new();
    for sn in [5, 6, 8] {
        buffer.put(4, data(sn));
    }
    {
        let mut walk = buffer.events_can_be_sent(3);
        assert!(walk.next().is_none());
        assert_eq!(walk.sn, 3);
    }
    assert_eq!(buffer.peek().unwrap().sn, 5);
    {
        let mut walk = buffer.events_can_be_sent(4);
        assert_eq!(walk.next().unwrap().sn, 5);
        assert_eq!(walk.sn, 5);
        assert_eq!(walk.next().unwrap().sn, 6);
        assert_eq!(walk.sn, 6);
        assert!(walk.next().is_none());
        assert!(walk.next().is_none());
        assert_eq!(walk.sn, 6);
    }
    assert_eq!(buffer.peek().unwrap().sn, 8);
    let mut walk = EventsCanBeSend { sn: u64::MAX, buffer: &mut buffer };
    assert!(walk.next().is_none());
}

#[test]
fn buffer_works_at_the_last_number() {
    let mut buffer = EventBuffer::new();
    buffer.put(u64::MAX - 2, data(u64::MAX));
    assert!(buffer.events_can_be_sent(u64::MAX).all().is_empty());
    assert!(buffer.events_can_be_sent(u64::MAX - 2).all().is_empty());
    buffer.put(u64::MAX - 2, data(u64::MAX - 1));
    assert_eq!(
        numbers(&buffer.events_can_be_sent(u64::MAX - 2).all()),
        vec![u64::MAX - 1, u64::MAX]
    );
    buffer.put(u64::MAX, data(u64::MAX));
    assert!(buffer.peek().is_none());
}

fn sender(sn: u64) -> EventStreamSender {
    EventStreamSender::new(GatewayResumeArguments { sn, session_id: "s".to_string() })
}

fn taken(sender: &mut EventStreamSender) -> Vec<String> {
    let mut seen = Vec::new();
    while let Some(item) = sender.next() {
        match item {
            Ok(event) => seen.push(String::from_utf8(event.payload).unwrap()),
            Err(error) => seen.push(format!("error at {}", error.resume.sn)),
        }
    }
    seen
}

#[test]
fn sender_delivers_in_order_and_moves_the_number() {
    let mut sender = sender(10);
    assert_eq!(sender.sn(), 10);
    assert!(sender.is_open());
    assert!(sender.flush());
    assert!(sender.send_event(data(12)));
    assert!(sender.send_event(data(10)));
    assert!(sender.send_event(data(9)));
    assert_eq!(sender.sn(), 10);
    assert!(taken(&mut sender).is_empty());
    sender.put(data(11));
    assert_eq!(sender.sn(), 10);
    assert!(sender.flush());
    assert_eq!(sender.sn(), 12);
    assert_eq!(sender.resume().session_id, "s");
    assert_eq!(taken(&mut sender), vec!["11", "12"]);
    assert!(sender.send_event(tagged(12, "late copy")));
    assert!(sender.send_event(data(13)));
    assert_eq!(taken(&mut sender), vec!["13"]);
    match sender.ping() {
        Message::Ping(sn) => assert_eq!(sn.sn, 13),
        other => panic!("not a ping: {:?}", other),
    }
}

#[test]
fn sender_error_is_the_last_item() {
    let mut sender = sender(0);
    assert!(sender.send_event(data(1)));
    sender.send_reconnect(Reconnect { code: 41008, err: "Missing params".to_string() });
    assert!(!sender.is_open());
    // Nothing follows the error.
    assert!(!sender.send_event(data(2)));
    assert!(!sender.send_err(EventStreamErrorKind::MessageStream {
        source: MessageStreamSinkError::NotBinaryFrame,
    }));
    sender.send_message_stream_broken(MessageStreamSinkError::NotBinaryFrame);
    assert_eq!(sender.sn(), 1);
    assert!(matches!(sender.next(), Some(Ok(_))));
    match sender.next() {
        Some(Err(EventStreamError {
            resume,
            source: EventStreamErrorKind::Reconnect { code, message },
        })) => {
            assert_eq!((resume.sn, resume.session_id.as_str()), (1, "s"));
            assert_eq!((code, message.as_str()), (41008, "Missing params"));
        }
        other => panic!("unexpected: {:?}", other),
    }
    assert!(sender.next().is_none());
}

#[test]
fn sender_stops_when_the_stream_was_dropped() {
    let mut sender = sender(0);
    assert!(sender.send_event(data(1)));
    sender.cancel();
    assert!(!sender.is_open());
    assert!(sender.flush());
    assert!(sender.send_event(data(3)));
    assert!(!sender.send_event(data(2)));
    assert!(!sender.flush());
    assert_eq!(sender.sn(), 1);
    assert!(!sender.send_err(EventStreamErrorKind::MessageStream {
        source: MessageStreamSinkError::NotBinaryFrame,
    }));
    assert_eq!(taken(&mut sender), vec!["1"]);
}

#[test]
fn sender_takes_a_new_session_id() {
    let mut sender = sender(4);
    sender.put(data(6));
    sender.set_session_id("t".to_string());
    assert_eq!(sender.resume().sn, 4);
    assert_eq!(sender.resume().session_id, "t");
    assert!(sender.send_event(data(5)));
    assert_eq!(taken(&mut sender), vec!["5", "6"]);
    assert!(sender.send_err(EventStreamErrorKind::MessageStream {
        source: MessageStreamSinkError::NotBinaryFrame,
    }));
    assert_eq!(taken(&mut sender), vec!["error at 6"]);
}

#[test]
fn stream_is_first_in_first_out() {
    let mut stream = EventStream::new();
    assert!(stream.is_open());
    assert!(stream.next().is_none());
    assert!(stream.send(Ok(Event { payload: b"a".to_vec() })));
    assert!(stream.send(Ok(Event { payload: b"b".to_vec() })));
    assert_eq!(stream.next().unwrap().unwrap().payload, b"a".to_vec());
    assert!(stream.send(Ok(Event { payload: b"c".to_vec() })));
    assert_eq!(stream.next().unwrap().unwrap().payload, b"b".to_vec());
    assert_eq!(stream.next().unwrap().unwrap().payload, b"c".to_vec());
    assert!(stream.next().is_none());
    stream.cancel();
    assert!(!stream.is_open());
    assert!(!stream.send(Ok(Event { payload: b"d".to_vec() })));
    assert!(stream.next().is_none());
}
