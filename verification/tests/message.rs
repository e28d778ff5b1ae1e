use burz::json::{JsonError, JsonValue};
use burz::ws::event::{Event, EventData};
use burz::ws::message::{
    Frame, Hello, Message, OnlyData, ParseMessageError, Reconnect, ResumeACK, SN,
};
use burz::zlib::InflateStatus;
use serde_json::{Number, Value};

fn object(members: Vec<(&str, Value)>) -> Value {
    let mut map = serde_json::Map::new();
    for (key, value) in members {
        map.insert(key.to_string(), value);
    }
    Value::Object(map)
}

fn number(n: i64) -> Value {
    Value::Number(Number::from(n))
}

fn text(s: &str) -> Value {
    Value::String(s.to_string())
}

#[test]
fn test_message_decode_hello() {
    let data = serde_json::to_vec(&object(vec![
        ("s", number(1)),
        (
            "d",
            object(vec![("code", number(0)), ("session_id", text("some-session-id"))]),
        ),
    ]))
    .unwrap()
    .into();

    let msg = Message::decode(data, false).unwrap();

    if let Message::Hello(hello) = msg {
        assert_eq!(hello.data.code, 0);
        assert_eq!(hello.data.session_id.unwrap(), "some-session-id");
    } else {
        panic!("decoded message is not hello")
    }
}

#[test]
fn test_message_decode_ping() {
    let data = serde_json::to_vec(&object(vec![("s", number(2)), ("sn", number(6))]))
        .unwrap()
        .into();

    let msg = Message::decode(data, false).unwrap();

    if let Message::Ping(sn) = msg {
        assert_eq!(sn.sn, 6);
    } else {
        panic!("decoded message is not ping")
    }
}

#[test]
fn test_message_parse_pong() {
    let data = serde_json::to_vec(&object(vec![("s", number(3))]))
        .unwrap()
        .into();

    let msg = Message::decode(data, false).unwrap();

    assert!(matches!(msg, Message::Pong));
}

#[test]
fn test_message_decode_resume() {
    let data = serde_json::to_vec(&object(vec![("s", number(4)), ("sn", number(100))]))
        .unwrap()
        .into();

    let msg = Message::decode(data, false).unwrap();

    if let Message::Resume(resume) = msg {
        assert_eq!(resume.sn, 100);
    } else {
        panic!("decoded message is not resume")
    }
}

#[test]
fn test_message_decode_reconnect() {
    let data = serde_json::to_vec(&object(vec![
        ("s", number(5)),
        (
            "d",
            object(vec![("code", number(41008)), ("err", text("Missing params"))]),
        ),
    ]))
    .unwrap()
    .into();

    let msg = Message::decode(data, false).unwrap();

    if let Message::Reconnect(reconnect) = msg {
        assert_eq!(reconnect.data.code, 41008);
        assert_eq!(reconnect.data.err, "Missing params");
    } else {
        panic!("decoded message is not reconnect")
    }
}

#[test]
fn test_message_decode_resume_ack() {
    let data = serde_json::to_vec(&object(vec![
        ("s", number(6)),
        ("d", object(vec![("session_id", text("some-session-id"))])),
    ]))
    .unwrap()
    .into();

    let msg = Message::decode(data, false).unwrap();

    if let Message::ResumeACK(resume_ack) = msg {
        assert_eq!(resume_ack.data.session_id, "some-session-id");
    } else {
        panic!("decoded message is not reconnect")
    }
}

#[test]
fn test_message_encode_hello() {
    let msg = Message::Hello(OnlyData {
        data: Hello {
            code: 0,
            session_id: Some("some-session-id".to_string()),
        },
    });

    println!("{:?}", msg.encode());
}

#[test]
fn encode_writes_exact_text() {
    let hello = Message::Hello(OnlyData {
        data: Hello { code: 0, session_id: Some("some-session-id".to_string()) },
    });
    assert_eq!(
        String::from_utf8(hello.encode()).unwrap(),
        "{\"d\":{\"code\":0,\"session_id\":\"some-session-id\"},\"s\":1}"
    );
    let bare = Message::Hello(OnlyData { data: Hello { code: 40100, session_id: None } });
    assert_eq!(String::from_utf8(bare.encode()).unwrap(), "{\"d\":{\"code\":40100},\"s\":1}");
    assert_eq!(
        String::from_utf8(Message::Ping(SN { sn: 6 }).encode()).unwrap(),
        "{\"s\":2,\"sn\":6}"
    );
    assert_eq!(String::from_utf8(Message::Pong.encode()).unwrap(), "{\"s\":3}");
    assert_eq!(
        String::from_utf8(Message::Resume(SN { sn: u64::MAX }).encode()).unwrap(),
        "{\"s\":4,\"sn\":18446744073709551615}"
    );
    let reconnect = Message::Reconnect(OnlyData {
        data: Reconnect { code: 41008, err: "Missing \"params\"".to_string() },
    });
    assert_eq!(
        String::from_utf8(reconnect.encode()).unwrap(),
        "{\"d\":{\"code\":41008,\"err\":\"Missing \\\"params\\\"\"},\"s\":5}"
    );
    let ack = Message::ResumeACK(OnlyData { data: ResumeACK { session_id: "x".to_string() } });
    assert_eq!(String::from_utf8(ack.encode()).unwrap(), "{\"d\":{\"session_id\":\"x\"},\"s\":6}");
    let event = Message::Event(EventData {
        sn: 7,
        event: Event { payload: b"{ \"content\" : \"hi\", \"n\": 1.5 }".to_vec() },
    });
    assert_eq!(
        String::from_utf8(event.encode()).unwrap(),
        "{\"d\":{\"content\":\"hi\",\"n\":1.5},\"s\":0,\"sn\":7}"
    );
}

fn round_trip(message: &Message) -> Message {
    Message::decode(message.encode(), false).unwrap()
}

#[test]
fn decode_inverts_encode_on_each_variant() {
    match round_trip(&Message::Event(EventData {
        sn: 42,
        event: Event { payload: b"{\"content\":\"hi\"}".to_vec() },
    })) {
        Message::Event(data) => {
            assert_eq!(data.sn, 42);
            assert_eq!(data.event.payload, b"{\"content\":\"hi\"}".to_vec());
        }
        other => panic!("not an event: {:?}", other),
    }
    match round_trip(&Message::Hello(OnlyData {
        data: Hello { code: 0, session_id: Some("abc".to_string()) },
    })) {
        Message::Hello(hello) => {
            assert_eq!(hello.data.code, 0);
            assert_eq!(hello.data.session_id, Some("abc".to_string()));
        }
        other => panic!("not a hello: {:?}", other),
    }
    match round_trip(&Message::Hello(OnlyData { data: Hello { code: -3, session_id: None } })) {
        Message::Hello(hello) => {
            assert_eq!(hello.data.code, -3);
            assert_eq!(hello.data.session_id, None);
        }
        other => panic!("not a hello: {:?}", other),
    }
    match round_trip(&Message::Ping(SN { sn: 0 })) {
        Message::Ping(sn) => assert_eq!(sn.sn, 0),
        other => panic!("not a ping: {:?}", other),
    }
    assert!(matches!(round_trip(&Message::Pong), Message::Pong));
    match round_trip(&Message::Resume(SN { sn: u64::MAX })) {
        Message::Resume(sn) => assert_eq!(sn.sn, u64::MAX),
        other => panic!("not a resume: {:?}", other),
    }
    match round_trip(&Message::Reconnect(OnlyData {
        data: Reconnect { code: i64::MIN, err: "line\nbreak \u{1F600}".to_string() },
    })) {
        Message::Reconnect(reconnect) => {
            assert_eq!(reconnect.data.code, i64::MIN);
            assert_eq!(reconnect.data.err, "line\nbreak \u{1F600}");
        }
        other => panic!("not a reconnect: {:?}", other),
    }
    match round_trip(&Message::ResumeACK(OnlyData {
        data: ResumeACK { session_id: "s/1~2".to_string() },
    })) {
        Message::ResumeACK(ack) => assert_eq!(ack.data.session_id, "s/1~2"),
        other => panic!("not a resume ack: {:?}", other),
    }
}

#[test]
fn decode_inflates_compressed_frames() {
    let plain = b"{\"s\":2,\"sn\":9}".to_vec();
    let packed = miniz_oxide::deflate::compress_to_vec_zlib(&plain, 6);
    assert_ne!(packed, plain);
    match Message::decode(packed.clone(), true).unwrap() {
        Message::Ping(sn) => assert_eq!(sn.sn, 9),
        other => panic!("not a ping: {:?}", other),
    }
    // The same bytes are no JSON text when the link does not compress.
    match Message::decode(packed.clone(), false) {
        Err(ParseMessageError::ParseJSONFailed { data, source: JsonError { reason } }) => {
            assert_eq!(data, packed);
            assert!(!reason.is_empty());
        }
        other => panic!("unexpected: {:?}", other),
    }
}

#[test]
fn decode_reports_decompress_failure() {
    let plain = b"{\"s\":3}".to_vec();
    match Message::decode(plain.clone(), true) {
        Err(ParseMessageError::DecompressFailed { data, status }) => {
            assert_eq!(data, plain);
            assert_eq!(status, InflateStatus::Failed);
        }
        other => panic!("unexpected: {:?}", other),
    }
    let mut spoiled = miniz_oxide::deflate::compress_to_vec_zlib(b"{\"s\":3}", 6);
    let last = spoiled.len() - 1;
    spoiled[last] ^= 0xff;
    match Message::decode(spoiled, true) {
        Err(ParseMessageError::DecompressFailed { status, .. }) => {
            assert_eq!(status, InflateStatus::Adler32Mismatch);
        }
        other => panic!("unexpected: {:?}", other),
    }
    let mut cut = miniz_oxide::deflate::compress_to_vec_zlib(b"{\"s\":3}", 6);
    cut.truncate(4);
    match Message::decode(cut, true) {
        Err(ParseMessageError::DecompressFailed { status, .. }) => {
            assert_eq!(status, InflateStatus::FailedCannotMakeProgress);
        }
        other => panic!("unexpected: {:?}", other),
    }
}

#[test]
fn decode_rejects_what_is_no_object() {
    match Message::decode(b"[1,2]".to_vec(), false) {
        Err(ParseMessageError::MessageNotObject { json }) => assert_eq!(json, "[1,2]"),
        other => panic!("unexpected: {:?}", other),
    }
    match Message::decode(b"not json".to_vec(), false) {
        Err(ParseMessageError::ParseJSONFailed { data, .. }) => {
            assert_eq!(data, b"not json".to_vec())
        }
        other => panic!("unexpected: {:?}", other),
    }
}

#[test]
fn decode_needs_a_numeric_type() {
    match Message::decode(b"{\"sn\":1}".to_vec(), false) {
        Err(ParseMessageError::NoMessageType { json }) => assert_eq!(json, "{\"sn\":1}"),
        other => panic!("unexpected: {:?}", other),
    }
    match Message::decode(b"{\"s\":\"1\"}".to_vec(), false) {
        Err(ParseMessageError::MessageTypeNotNumber { json }) => {
            assert_eq!(json, "{\"s\":\"1\"}")
        }
        other => panic!("unexpected: {:?}", other),
    }
    match Message::decode(b"{\"s\":1.5}".to_vec(), false) {
        Err(ParseMessageError::MessageTypeNotNumber { .. }) => {}
        other => panic!("unexpected: {:?}", other),
    }
}

#[test]
fn decode_names_unknown_types() {
    match Message::decode(b"{\"s\":7}".to_vec(), false) {
        Err(ParseMessageError::UnknownMessageType { t }) => assert_eq!(t, 7),
        other => panic!("unexpected: {:?}", other),
    }
    match Message::decode(b"{\"s\":-1,\"sn\":3}".to_vec(), false) {
        Err(ParseMessageError::UnknownMessageType { t }) => assert_eq!(t, -1),
        other => panic!("unexpected: {:?}", other),
    }
}

fn shape_failure(text: &str) -> (String, String) {
    match Message::decode(text.as_bytes().to_vec(), false) {
        Err(ParseMessageError::ParseJSONToTypedMessageFailed { kind, field }) => (kind, field),
        other => panic!("unexpected: {:?}", other),
    }
}

#[test]
fn decode_checks_the_shape_of_each_type() {
    let of = |kind: &str, field: &str| (kind.to_string(), field.to_string());
    assert_eq!(shape_failure("{\"s\":0,\"d\":{}}"), of("Event", "sn"));
    assert_eq!(shape_failure("{\"s\":0,\"sn\":-1,\"d\":{}}"), of("Event", "sn"));
    assert_eq!(shape_failure("{\"s\":0,\"sn\":1}"), of("Event", "d"));
    assert_eq!(shape_failure("{\"s\":0,\"sn\":1,\"d\":[]}"), of("Event", "d"));
    assert_eq!(shape_failure("{\"s\":1}"), of("Hello", "d"));
    assert_eq!(shape_failure("{\"s\":1,\"d\":{}}"), of("Hello", "code"));
    assert_eq!(shape_failure("{\"s\":1,\"d\":{\"code\":\"0\"}}"), of("Hello", "code"));
    assert_eq!(
        shape_failure("{\"s\":1,\"d\":{\"code\":0,\"session_id\":5}}"),
        of("Hello", "session_id")
    );
    assert_eq!(shape_failure("{\"s\":2}"), of("Ping", "sn"));
    assert_eq!(shape_failure("{\"s\":4,\"sn\":\"9\"}"), of("Resume", "sn"));
    assert_eq!(shape_failure("{\"s\":5,\"d\":null}"), of("Reconnect", "d"));
    assert_eq!(shape_failure("{\"s\":5,\"d\":{\"err\":\"x\"}}"), of("Reconnect", "code"));
    assert_eq!(shape_failure("{\"s\":5,\"d\":{\"code\":1}}"), of("Reconnect", "err"));
    assert_eq!(shape_failure("{\"s\":6,\"d\":7}"), of("ResumeACK", "d"));
    assert_eq!(shape_failure("{\"s\":6,\"d\":{}}"), of("ResumeACK", "session_id"));
}

#[test]
fn decode_takes_null_session_and_ignores_other_members() {
    match Message::decode(
        b"{\"s\":1,\"extra\":[1],\"d\":{\"code\":0,\"session_id\":null,\"more\":true}}".to_vec(),
        false,
    )
    .unwrap()
    {
        Message::Hello(hello) => {
            assert_eq!(hello.data.code, 0);
            assert_eq!(hello.data.session_id, None);
        }
        other => panic!("not a hello: {:?}", other),
    }
    assert!(matches!(
        Message::decode(b"{\"s\":3,\"sn\":\"junk\",\"d\":0}".to_vec(), false).unwrap(),
        Message::Pong
    ));
}

#[test]
fn decode_keeps_the_event_payload_as_json_text() {
    match Message::decode(b"{\"s\":0,\"sn\":1,\"d\":{}}".to_vec(), false).unwrap() {
        Message::Event(data) => {
            assert_eq!(data.sn, 1);
            assert_eq!(data.event.payload, b"{}".to_vec());
        }
        other => panic!("not an event: {:?}", other),
    }
}

fn place(int: Option<i64>, uint: Option<u64>, text: Option<&str>, object: bool) -> Option<JsonValue> {
    Some(JsonValue {
        null: false,
        object,
        int,
        uint,
        text: text.map(String::from),
        raw: b"{\"k\":1}".to_vec(),
    })
}

#[test]
fn from_frame_reads_plain_values() {
    let frame = Frame {
        s: place(Some(5), Some(5), None, false),
        sn: None,
        d: place(None, None, None, true),
        code: place(Some(41008), Some(41008), None, false),
        session_id: None,
        err: place(None, None, Some("Missing params"), false),
    };
    match Message::from_frame(frame, b"{}").unwrap() {
        Message::Reconnect(reconnect) => {
            assert_eq!(reconnect.data.code, 41008);
            assert_eq!(reconnect.data.err, "Missing params");
        }
        other => panic!("not a reconnect: {:?}", other),
    }
    let frame = Frame {
        s: place(Some(0), Some(0), None, false),
        sn: place(Some(3), Some(3), None, false),
        d: place(None, None, None, true),
        code: None,
        session_id: None,
        err: None,
    };
    match Message::from_frame(frame, b"{}").unwrap() {
        Message::Event(data) => {
            assert_eq!(data.sn, 3);
            assert_eq!(data.event.payload, b"{\"k\":1}".to_vec());
        }
        other => panic!("not an event: {:?}", other),
    }
    let frame = Frame { s: None, sn: None, d: None, code: None, session_id: None, err: None };
    match Message::from_frame(frame, b"\xff{}") {
        Err(ParseMessageError::NoMessageType { json }) => assert_eq!(json, "\u{FFFD}{}"),
        other => panic!("unexpected: {:?}", other),
    }
}

#[test]
fn type_numbers_and_names() {
    let names = ["Event", "Hello", "Ping", "Pong", "Resume", "Reconnect", "ResumeACK"];
    for (s, name) in names.iter().enumerate() {
        assert_eq!(Message::type_number_to_type_name(s as i64), Some(*name));
    }
    assert_eq!(Message::type_number_to_type_name(7), None);
    assert_eq!(Message::type_number_to_type_name(-1), None);
    assert_eq!(Message::Pong.type_number(), 3);
    assert_eq!(Message::Pong.kind_name(), "Pong");
    assert_eq!(Message::Ping(SN { sn: 1 }).type_number(), 2);
    assert_eq!(Message::Resume(SN { sn: 1 }).kind_name(), "Resume");
    let ack = Message::ResumeACK(OnlyData { data: ResumeACK { session_id: String::new() } });
    assert_eq!(ack.type_number(), 6);
    assert_eq!(ack.kind_name(), "ResumeACK");
}
