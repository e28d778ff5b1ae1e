//! Kaiheila websocket message types.

mod stream;
mod types;

pub use stream::{received_as, MessageStreamSink, MessageStreamSinkError, Received, WebsocketFrame};
pub use types::{Hello, OnlyData, Reconnect, ResumeACK, SN};

use vstd::prelude::*;

use crate::json::{
    json_read, json_text, members_view, place_view, pointers_view, text_view,
    JsonError, JsonItem, JsonItemView, JsonMember, JsonRead, JsonReadView, JsonValue,
    JsonValueView,
};
use crate::text::{lossy_text, utf8_lossy};
use crate::ws::event::{Event, EventData};
use crate::zlib::{inflate, zlib_inflate, InflateStatus};

verus! {

/// Error when parse binary data as message
#[derive(Debug)]
pub enum ParseMessageError {
    /// Decompress data failed
    DecompressFailed {
        /// data for decode
        data: Vec<u8>,
        /// decompress error status code
        status: InflateStatus,
    },
    /// data is invalid json
    ParseJSONFailed {
        /// data for decode
        data: Vec<u8>,
        /// source error
        source: JsonError,
    },
    /// data json is not an object
    MessageNotObject {
        /// json string
        json: String,
    },
    /// data json has no type(s) field
    NoMessageType {
        /// json string
        json: String,
    },
    /// data json type filed is not number type
    MessageTypeNotNumber {
        /// json string
        json: String,
    },
    /// data json has an unknown type
    UnknownMessageType {
        /// type number
        t: i64,
    },
    /// data json is not valid typed message
    ParseJSONToTypedMessageFailed {
        /// name of the message type
        kind: String,
        /// the first field that is missing or of the wrong type
        field: String,
    },
}

/// Mathematical value of a [`ParseMessageError`].
pub ghost enum ParseMessageErrorView {
    DecompressFailed { data: Seq<u8>, status: InflateStatus },
    ParseJSONFailed { data: Seq<u8>, source: Seq<char> },
    MessageNotObject { json: Seq<char> },
    NoMessageType { json: Seq<char> },
    MessageTypeNotNumber { json: Seq<char> },
    UnknownMessageType { t: i64 },
    ParseJSONToTypedMessageFailed { kind: Seq<char>, field: Seq<char> },
}

impl View for ParseMessageError {
    type V = ParseMessageErrorView;

    open spec fn view(&self) -> ParseMessageErrorView {
        match self {
            ParseMessageError::DecompressFailed { data, status } => {
                ParseMessageErrorView::DecompressFailed { data: data@, status: *status }
            },
            ParseMessageError::ParseJSONFailed { data, source } => {
                ParseMessageErrorView::ParseJSONFailed { data: data@, source: source@ }
            },
            ParseMessageError::MessageNotObject { json } => {
                ParseMessageErrorView::MessageNotObject { json: json@ }
            },
            ParseMessageError::NoMessageType { json } => {
                ParseMessageErrorView::NoMessageType { json: json@ }
            },
            ParseMessageError::MessageTypeNotNumber { json } => {
                ParseMessageErrorView::MessageTypeNotNumber { json: json@ }
            },
            ParseMessageError::UnknownMessageType { t } => {
                ParseMessageErrorView::UnknownMessageType { t: *t }
            },
            ParseMessageError::ParseJSONToTypedMessageFailed { kind, field } => {
                ParseMessageErrorView::ParseJSONToTypedMessageFailed {
                    kind: kind@,
                    field: field@,
                }
            },
        }
    }
}

impl ParseMessageError {
    /// Whether a frame with this error may be dropped while the stream goes
    /// on: only a frame of an unknown type may.
    pub open spec fn spec_is_unknown_type(&self) -> bool {
        self is UnknownMessageType
    }

    /// Whether this error says that the frame has an unknown type.
    #[verifier::when_used_as_spec(spec_is_unknown_type)]
    pub fn is_unknown_type(&self) -> (unknown: bool)
        ensures
            unknown == self.spec_is_unknown_type(),
    {
        match self {
            ParseMessageError::UnknownMessageType { .. } => true,
            _ => false,
        }
    }
}

/// Kaiheila websocket protocol message type
#[derive(Debug, Clone)]
pub enum Message {
    /// Event, server -> client
    Event(EventData),
    /// Hello, server -> client
    Hello(OnlyData<Hello>),
    /// Ping, client -> server
    Ping(SN),
    /// Pong, server -> client
    Pong,
    /// Resume, client -> server
    Resume(SN),
    /// Reconnect, server -> client
    Reconnect(OnlyData<Reconnect>),
    /// ResumeACK, server -> client
    ResumeACK(OnlyData<ResumeACK>),
}

/// Mathematical value of a [`Message`].
pub ghost enum MessageView {
    Event { sn: u64, event: Seq<u8> },
    Hello { code: i64, session_id: Option<Seq<char>> },
    Ping { sn: u64 },
    Pong,
    Resume { sn: u64 },
    Reconnect { code: i64, err: Seq<char> },
    ResumeACK { session_id: Seq<char> },
}

impl View for Message {
    type V = MessageView;

    open spec fn view(&self) -> MessageView {
        match self {
            Message::Event(data) => MessageView::Event { sn: data.sn, event: data.event@ },
            Message::Hello(hello) => MessageView::Hello {
                code: hello.data.code,
                session_id: text_view(hello.data.session_id),
            },
            Message::Ping(sn) => MessageView::Ping { sn: sn.sn },
            Message::Pong => MessageView::Pong,
            Message::Resume(sn) => MessageView::Resume { sn: sn.sn },
            Message::Reconnect(reconnect) => MessageView::Reconnect {
                code: reconnect.data.code,
                err: reconnect.data.err@,
            },
            Message::ResumeACK(ack) => MessageView::ResumeACK { session_id: ack.data.session_id@ },
        }
    }
}

/// Mathematical value of what decoding gave.
pub open spec fn decoded_view(r: Result<Message, ParseMessageError>) -> Result<
    MessageView,
    ParseMessageErrorView,
> {
    match r {
        Ok(message) => Ok(message@),
        Err(error) => Err(error@),
    }
}

/// What a frame holds at the places that a message is read from.
#[derive(Debug)]
pub struct Frame {
    /// member `s`: the message type
    pub s: Option<JsonValue>,
    /// member `sn`: a serial number
    pub sn: Option<JsonValue>,
    /// member `d`: the data object
    pub d: Option<JsonValue>,
    /// member `code` of `d`
    pub code: Option<JsonValue>,
    /// member `session_id` of `d`
    pub session_id: Option<JsonValue>,
    /// member `err` of `d`
    pub err: Option<JsonValue>,
}

/// Mathematical value of a [`Frame`].
pub ghost struct FrameView {
    pub s: Option<JsonValueView>,
    pub sn: Option<JsonValueView>,
    pub d: Option<JsonValueView>,
    pub code: Option<JsonValueView>,
    pub session_id: Option<JsonValueView>,
    pub err: Option<JsonValueView>,
}

impl View for Frame {
    type V = FrameView;

    open spec fn view(&self) -> FrameView {
        FrameView {
            s: place_view(self.s),
            sn: place_view(self.sn),
            d: place_view(self.d),
            code: place_view(self.code),
            session_id: place_view(self.session_id),
            err: place_view(self.err),
        }
    }
}

/// The JSON pointers of the places that a message is read from, in the
/// order of the fields of [`Frame`].
pub open spec fn frame_pointers() -> Seq<Seq<char>> {
    seq!["/s"@, "/sn"@, "/d"@, "/d/code"@, "/d/session_id"@, "/d/err"@]
}

/// The frame made of the values found at [`frame_pointers`].
pub open spec fn frame_of(places: Seq<Option<JsonValueView>>) -> FrameView {
    FrameView {
        s: places[0],
        sn: places[1],
        d: places[2],
        code: places[3],
        session_id: places[4],
        err: places[5],
    }
}

/// The name of the message type with number `s`, if there is one.
pub open spec fn type_name_of(s: int) -> Option<Seq<char>> {
    if s == 0 {
        Some("Event"@)
    } else if s == 1 {
        Some("Hello"@)
    } else if s == 2 {
        Some("Ping"@)
    } else if s == 3 {
        Some("Pong"@)
    } else if s == 4 {
        Some("Resume"@)
    } else if s == 5 {
        Some("Reconnect"@)
    } else if s == 6 {
        Some("ResumeACK"@)
    } else {
        None
    }
}

/// The number of a message's type.
pub open spec fn type_number_of(m: MessageView) -> int {
    match m {
        MessageView::Event { .. } => 0,
        MessageView::Hello { .. } => 1,
        MessageView::Ping { .. } => 2,
        MessageView::Pong => 3,
        MessageView::Resume { .. } => 4,
        MessageView::Reconnect { .. } => 5,
        MessageView::ResumeACK { .. } => 6,
    }
}

/// The unsigned number at a place, if there is one.
pub open spec fn uint_at(place: Option<JsonValueView>) -> Option<u64> {
    match place {
        Some(v) => v.uint,
        None => None,
    }
}

/// The signed number at a place, if there is one.
pub open spec fn int_at(place: Option<JsonValueView>) -> Option<i64> {
    match place {
        Some(v) => v.int,
        None => None,
    }
}

/// The string at a place, if there is one.
pub open spec fn text_at(place: Option<JsonValueView>) -> Option<Seq<char>> {
    match place {
        Some(v) => v.text,
        None => None,
    }
}

/// Whether a place holds an object.
pub open spec fn object_at(place: Option<JsonValueView>) -> bool {
    match place {
        Some(v) => v.object,
        None => false,
    }
}

/// Whether a place holds nothing or `null`.
pub open spec fn nothing_at(place: Option<JsonValueView>) -> bool {
    match place {
        Some(v) => v.null,
        None => true,
    }
}

/// The error of a frame whose type is known and whose `field` is missing or
/// of the wrong type.
pub open spec fn shape_error(kind: Seq<char>, field: Seq<char>) -> Result<
    MessageView,
    ParseMessageErrorView,
> {
    Err(ParseMessageErrorView::ParseJSONToTypedMessageFailed { kind, field })
}

/// The message of type `t` that a frame holds: each type has its fields, a
/// field that is missing or of the wrong type is an error, and any other
/// member of the frame is ignored.
pub open spec fn typed_message(t: i64, f: FrameView) -> Result<MessageView, ParseMessageErrorView> {
    if t == 0 {
        if uint_at(f.sn) is None {
            shape_error("Event"@, "sn"@)
        } else if !object_at(f.d) {
            shape_error("Event"@, "d"@)
        } else {
            Ok(MessageView::Event { sn: uint_at(f.sn)->0, event: f.d->0.raw })
        }
    } else if t == 1 {
        if !object_at(f.d) {
            shape_error("Hello"@, "d"@)
        } else if int_at(f.code) is None {
            shape_error("Hello"@, "code"@)
        } else if nothing_at(f.session_id) {
            Ok(MessageView::Hello { code: int_at(f.code)->0, session_id: None })
        } else if text_at(f.session_id) is None {
            shape_error("Hello"@, "session_id"@)
        } else {
            Ok(MessageView::Hello { code: int_at(f.code)->0, session_id: text_at(f.session_id) })
        }
    } else if t == 2 {
        if uint_at(f.sn) is None {
            shape_error("Ping"@, "sn"@)
        } else {
            Ok(MessageView::Ping { sn: uint_at(f.sn)->0 })
        }
    } else if t == 3 {
        Ok(MessageView::Pong)
    } else if t == 4 {
        if uint_at(f.sn) is None {
            shape_error("Resume"@, "sn"@)
        } else {
            Ok(MessageView::Resume { sn: uint_at(f.sn)->0 })
        }
    } else if t == 5 {
        if !object_at(f.d) {
            shape_error("Reconnect"@, "d"@)
        } else if int_at(f.code) is None {
            shape_error("Reconnect"@, "code"@)
        } else if text_at(f.err) is None {
            shape_error("Reconnect"@, "err"@)
        } else {
            Ok(MessageView::Reconnect { code: int_at(f.code)->0, err: text_at(f.err)->0 })
        }
    } else if t == 6 {
        if !object_at(f.d) {
            shape_error("ResumeACK"@, "d"@)
        } else if text_at(f.session_id) is None {
            shape_error("ResumeACK"@, "session_id"@)
        } else {
            Ok(MessageView::ResumeACK { session_id: text_at(f.session_id)->0 })
        }
    } else {
        Err(ParseMessageErrorView::UnknownMessageType { t })
    }
}

/// The message that a frame holds. `json` is the frame's text, for the
/// errors that quote it.
pub open spec fn message_of_frame(f: FrameView, json: Seq<char>) -> Result<
    MessageView,
    ParseMessageErrorView,
> {
    if f.s is None {
        Err(ParseMessageErrorView::NoMessageType { json })
    } else if int_at(f.s) is None {
        Err(ParseMessageErrorView::MessageTypeNotNumber { json })
    } else {
        typed_message(int_at(f.s)->0, f)
    }
}

/// The message that a JSON text holds.
pub open spec fn parse_spec(json: Seq<u8>) -> Result<MessageView, ParseMessageErrorView> {
    match json_read(json, frame_pointers()) {
        JsonReadView::Invalid(source) => Err(
            ParseMessageErrorView::ParseJSONFailed { data: json, source },
        ),
        JsonReadView::Other => Err(
            ParseMessageErrorView::MessageNotObject { json: utf8_lossy(json) },
        ),
        JsonReadView::Object(places) => message_of_frame(frame_of(places), utf8_lossy(json)),
    }
}

/// The message that a frame's bytes hold: the bytes are inflated first where
/// the link compresses, then read as JSON.
pub open spec fn decode_spec(buff: Seq<u8>, compressed: bool) -> Result<
    MessageView,
    ParseMessageErrorView,
> {
    if compressed {
        match zlib_inflate(buff) {
            Err(status) => Err(ParseMessageErrorView::DecompressFailed { data: buff, status }),
            Ok(plain) => parse_spec(plain),
        }
    } else {
        parse_spec(buff)
    }
}

/// The members of the data object that a message is written with; none
/// for a message that has no data object of its own.
pub open spec fn data_of(m: MessageView) -> Seq<(Seq<char>, JsonItemView)> {
    match m {
        MessageView::Hello { code, session_id } => match session_id {
            Some(id) => seq![
                ("code"@, JsonItemView::Int(code)),
                ("session_id"@, JsonItemView::Text(id)),
            ],
            None => seq![("code"@, JsonItemView::Int(code))],
        },
        MessageView::Reconnect { code, err } => seq![
            ("code"@, JsonItemView::Int(code)),
            ("err"@, JsonItemView::Text(err)),
        ],
        MessageView::ResumeACK { session_id } => seq![
            ("session_id"@, JsonItemView::Text(session_id)),
        ],
        _ => Seq::empty(),
    }
}

/// The members of the JSON object that a message is written as: its type
/// number under `s`, then its own fields, or under `d` its data object or
/// the event's body.
pub open spec fn members_of(m: MessageView) -> Seq<(Seq<char>, JsonItemView)> {
    match m {
        MessageView::Event { sn, event } => seq![
            ("s"@, JsonItemView::Int(0)),
            ("sn"@, JsonItemView::UInt(sn)),
            ("d"@, JsonItemView::Raw(event)),
        ],
        MessageView::Hello { .. } => seq![
            ("s"@, JsonItemView::Int(1)),
            ("d"@, JsonItemView::Raw(json_text(data_of(m)))),
        ],
        MessageView::Ping { sn } => seq![("s"@, JsonItemView::Int(2)), ("sn"@, JsonItemView::UInt(sn))],
        MessageView::Pong => seq![("s"@, JsonItemView::Int(3))],
        MessageView::Resume { sn } => seq![
            ("s"@, JsonItemView::Int(4)),
            ("sn"@, JsonItemView::UInt(sn)),
        ],
        MessageView::Reconnect { .. } => seq![
            ("s"@, JsonItemView::Int(5)),
            ("d"@, JsonItemView::Raw(json_text(data_of(m)))),
        ],
        MessageView::ResumeACK { .. } => seq![
            ("s"@, JsonItemView::Int(6)),
            ("d"@, JsonItemView::Raw(json_text(data_of(m)))),
        ],
    }
}

/// The item that is written under `key`: that of the first member with
/// this name, if there is one.
pub open spec fn written(members: Seq<(Seq<char>, JsonItemView)>, key: Seq<char>) -> Option<
    JsonItemView,
>
    decreases members.len(),
{
    if members.len() == 0 {
        None
    } else if members[0].0 == key {
        Some(members[0].1)
    } else {
        written(members.skip(1), key)
    }
}

/// Whether a place holds what was written: nothing where nothing was
/// written, else the number or the string written, or an object with the
/// text written.
pub open spec fn place_holds(place: Option<JsonValueView>, item: Option<JsonItemView>) -> bool {
    match item {
        None => place is None,
        Some(JsonItemView::Int(i)) => place matches Some(v) && !v.null && v.int == Some(i),
        Some(JsonItemView::UInt(u)) => place matches Some(v) && !v.null && v.uint == Some(u),
        Some(JsonItemView::Text(t)) => place matches Some(v) && !v.null && v.text == Some(t),
        Some(JsonItemView::Raw(b)) => place matches Some(v) && v.object && v.raw == b,
    }
}

/// Whether a frame holds, at each place that a message is read from, what
/// the message `m` is written with.
pub open spec fn frame_holds(f: FrameView, m: MessageView) -> bool {
    &&& place_holds(f.s, written(members_of(m), "s"@))
    &&& place_holds(f.sn, written(members_of(m), "sn"@))
    &&& place_holds(f.d, written(members_of(m), "d"@))
    &&& place_holds(f.code, written(data_of(m), "code"@))
    &&& place_holds(f.session_id, written(data_of(m), "session_id"@))
    &&& place_holds(f.err, written(data_of(m), "err"@))
}

/// A frame that holds what a message is written with is read as that
/// message: as far as the places and the types of the members go, reading
/// undoes writing.
pub proof fn lemma_frame_reads_back(f: FrameView, m: MessageView, json: Seq<char>)
    requires
        frame_holds(f, m),
    ensures
        message_of_frame(f, json) == Ok::<MessageView, ParseMessageErrorView>(m),
{
    reveal_strlit("s");
    reveal_strlit("sn");
    reveal_strlit("d");
    reveal_strlit("code");
    reveal_strlit("session_id");
    reveal_strlit("err");
    assert("s"@.len() != "sn"@.len());
    assert("s"@[0] != "d"@[0]);
    assert("sn"@.len() != "d"@.len());
    assert("code"@.len() != "session_id"@.len());
    assert("code"@.len() != "err"@.len());
    assert("session_id"@.len() != "err"@.len());
    reveal_with_fuel(written, 4);
    let top = members_of(m);
    let data = data_of(m);
    assert(top.len() >= 1 && top[0].0 == "s"@);
    assert(written(top, "s"@) == Some(JsonItemView::Int(type_number_of(m) as i64)));
    match m {
        MessageView::Event { sn, event } => {
            assert(top.skip(1)[0] == top[1]);
            assert(top.skip(1).skip(1)[0] == top[2]);
            assert(written(top, "sn"@) == Some(JsonItemView::UInt(sn)));
            assert(written(top, "d"@) == Some(JsonItemView::Raw(event)));
        },
        MessageView::Hello { code, session_id } => {
            assert(top.skip(1)[0] == top[1]);
            assert(written(top, "d"@) == Some(JsonItemView::Raw(json_text(data))));
            assert(written(data, "code"@) == Some(JsonItemView::Int(code)));
            match session_id {
                Some(id) => {
                    assert(data.skip(1)[0] == data[1]);
                    assert(written(data, "session_id"@) == Some(JsonItemView::Text(id)));
                },
                None => {
                    assert(data.skip(1).len() == 0);
                    assert(written(data, "session_id"@) is None);
                },
            }
        },
        MessageView::Ping { sn } => {
            assert(top.skip(1)[0] == top[1]);
            assert(written(top, "sn"@) == Some(JsonItemView::UInt(sn)));
        },
        MessageView::Pong => {},
        MessageView::Resume { sn } => {
            assert(top.skip(1)[0] == top[1]);
            assert(written(top, "sn"@) == Some(JsonItemView::UInt(sn)));
        },
        MessageView::Reconnect { code, err } => {
            assert(top.skip(1)[0] == top[1]);
            assert(written(top, "d"@) == Some(JsonItemView::Raw(json_text(data))));
            assert(written(data, "code"@) == Some(JsonItemView::Int(code)));
            assert(data.skip(1)[0] == data[1]);
            assert(written(data, "err"@) == Some(JsonItemView::Text(err)));
        },
        MessageView::ResumeACK { session_id } => {
            assert(top.skip(1)[0] == top[1]);
            assert(written(top, "d"@) == Some(JsonItemView::Raw(json_text(data))));
            assert(written(data, "session_id"@) == Some(JsonItemView::Text(session_id)));
        },
    }
}

/// The bytes that a message is written as.
pub open spec fn encode_spec(m: MessageView) -> Seq<u8> {
    json_text(members_of(m))
}

/// The error of a frame whose type is known and whose `field` is missing or
/// of the wrong type.
fn shape_mismatch(kind: &'static str, field: &'static str) -> (r: Result<
    Message,
    ParseMessageError,
>)
    ensures
        decoded_view(r) == shape_error(kind@, field@),
{
    Err(
        ParseMessageError::ParseJSONToTypedMessageFailed {
            kind: kind.to_owned(),
            field: field.to_owned(),
        },
    )
}

/// The unsigned number at a place, if there is one.
fn take_uint(place: &Option<JsonValue>) -> (n: Option<u64>)
    ensures
        n == uint_at(place_view(*place)),
{
    match place {
        Some(v) => v.uint,
        None => None,
    }
}

/// The signed number at a place, if there is one.
fn take_int(place: &Option<JsonValue>) -> (n: Option<i64>)
    ensures
        n == int_at(place_view(*place)),
{
    match place {
        Some(v) => v.int,
        None => None,
    }
}

/// The string at a place, if there is one.
fn take_text(place: Option<JsonValue>) -> (t: Option<String>)
    ensures
        text_view(t) == text_at(place_view(place)),
{
    match place {
        Some(v) => v.text,
        None => None,
    }
}

/// Whether a place holds an object.
fn is_object(place: &Option<JsonValue>) -> (object: bool)
    ensures
        object == object_at(place_view(*place)),
{
    match place {
        Some(v) => v.object,
        None => false,
    }
}

/// Whether a place holds nothing or `null`.
fn is_nothing(place: &Option<JsonValue>) -> (nothing: bool)
    ensures
        nothing == nothing_at(place_view(*place)),
{
    match place {
        Some(v) => v.null,
        None => true,
    }
}

impl Message {
    /// Decode data to a message
    pub fn decode(buff: Vec<u8>, compressed: bool) -> (r: Result<Self, ParseMessageError>)
        ensures
            decoded_view(r) == decode_spec(buff@, compressed),
    {
        if compressed {
            match inflate(buff.as_slice()) {
                Err(status) => Err(ParseMessageError::DecompressFailed { data: buff, status }),
                Ok(plain) => Self::parse(plain),
            }
        } else {
            Self::parse(buff)
        }
    }

    /// Reads a JSON text as a message.
    pub fn parse(json: Vec<u8>) -> (r: Result<Self, ParseMessageError>)
        ensures
            decoded_view(r) == parse_spec(json@),
    {
        let pointers: Vec<&'static str> = vec![
            "/s",
            "/sn",
            "/d",
            "/d/code",
            "/d/session_id",
            "/d/err",
        ];
        assert(pointers_view(pointers@) =~= frame_pointers());
        match crate::json::read(json.as_slice(), &pointers) {
            JsonRead::Invalid(source) => Err(
                ParseMessageError::ParseJSONFailed { data: json, source },
            ),
            JsonRead::Other => Err(
                ParseMessageError::MessageNotObject { json: lossy_text(json.as_slice()) },
            ),
            JsonRead::Object(mut places) => {
                let ghost all = places@;
                let err = places.pop().unwrap();
                let session_id = places.pop().unwrap();
                let code = places.pop().unwrap();
                let d = places.pop().unwrap();
                let sn = places.pop().unwrap();
                let s = places.pop().unwrap();
                let frame = Frame { s, sn, d, code, session_id, err };
                assert(frame@ == frame_of(all.map_values(|p: Option<JsonValue>| place_view(p))));
                Self::from_frame(frame, json.as_slice())
            },
        }
    }

    /// The message that a frame holds. `json` is the frame's text, for the
    /// errors that quote it.
    pub fn from_frame(frame: Frame, json: &[u8]) -> (r: Result<Self, ParseMessageError>)
        ensures
            decoded_view(r) == message_of_frame(frame@, utf8_lossy(json@)),
    {
        let t = match &frame.s {
            None => {
                return Err(ParseMessageError::NoMessageType { json: lossy_text(json) });
            },
            Some(s) => match s.int {
                None => {
                    return Err(ParseMessageError::MessageTypeNotNumber { json: lossy_text(json) });
                },
                Some(t) => t,
            },
        };
        let Frame { s: _, sn, d, code, session_id, err } = frame;
        if t == 0 {
            match take_uint(&sn) {
                None => shape_mismatch("Event", "sn"),
                Some(sn) => match d {
                    Some(d) if d.object => Ok(
                        Message::Event(EventData { sn, event: Event { payload: d.raw } }),
                    ),
                    _ => shape_mismatch("Event", "d"),
                },
            }
        } else if t == 1 {
            if !is_object(&d) {
                return shape_mismatch("Hello", "d");
            }
            match take_int(&code) {
                None => shape_mismatch("Hello", "code"),
                Some(code) => {
                    if is_nothing(&session_id) {
                        Ok(Message::Hello(OnlyData { data: Hello { code, session_id: None } }))
                    } else {
                        match take_text(session_id) {
                            None => shape_mismatch("Hello", "session_id"),
                            Some(id) => Ok(
                                Message::Hello(
                                    OnlyData { data: Hello { code, session_id: Some(id) } },
                                ),
                            ),
                        }
                    }
                },
            }
        } else if t == 2 {
            match take_uint(&sn) {
                None => shape_mismatch("Ping", "sn"),
                Some(sn) => Ok(Message::Ping(SN { sn })),
            }
        } else if t == 3 {
            Ok(Message::Pong)
        } else if t == 4 {
            match take_uint(&sn) {
                None => shape_mismatch("Resume", "sn"),
                Some(sn) => Ok(Message::Resume(SN { sn })),
            }
        } else if t == 5 {
            if !is_object(&d) {
                return shape_mismatch("Reconnect", "d");
            }
            match take_int(&code) {
                None => shape_mismatch("Reconnect", "code"),
                Some(code) => match take_text(err) {
                    None => shape_mismatch("Reconnect", "err"),
                    Some(err) => Ok(Message::Reconnect(OnlyData { data: Reconnect { code, err } })),
                },
            }
        } else if t == 6 {
            if !is_object(&d) {
                return shape_mismatch("ResumeACK", "d");
            }
            match take_text(session_id) {
                None => shape_mismatch("ResumeACK", "session_id"),
                Some(session_id) => Ok(
                    Message::ResumeACK(OnlyData { data: ResumeACK { session_id } }),
                ),
            }
        } else {
            Err(ParseMessageError::UnknownMessageType { t })
        }
    }

    /// encode data to binary message(without compress)
    pub fn encode(&self) -> (bytes: Vec<u8>)
        ensures
            bytes@ == encode_spec(self@),
    {
        let mut members: Vec<JsonMember> = Vec::new();
        members.push(JsonMember { key: "s", value: JsonItem::Int(self.type_number()) });
        match self {
            Message::Event(data) => {
                members.push(JsonMember { key: "sn", value: JsonItem::UInt(data.sn) });
                members.push(
                    JsonMember { key: "d", value: JsonItem::Raw(data.event.payload.clone()) },
                );
            },
            Message::Hello(hello) => {
                let mut inner: Vec<JsonMember> = Vec::new();
                inner.push(JsonMember { key: "code", value: JsonItem::Int(hello.data.code) });
                match &hello.data.session_id {
                    Some(id) => {
                        inner.push(
                            JsonMember { key: "session_id", value: JsonItem::Text(id.clone()) },
                        );
                    },
                    None => {},
                }
                assert(members_view(inner@) =~= data_of(self@));
                members.push(JsonMember { key: "d", value: JsonItem::Raw(crate::json::write(&inner)) });
            },
            Message::Ping(sn) => {
                members.push(JsonMember { key: "sn", value: JsonItem::UInt(sn.sn) });
            },
            Message::Pong => {},
            Message::Resume(sn) => {
                members.push(JsonMember { key: "sn", value: JsonItem::UInt(sn.sn) });
            },
            Message::Reconnect(reconnect) => {
                let mut inner: Vec<JsonMember> = Vec::new();
                inner.push(JsonMember { key: "code", value: JsonItem::Int(reconnect.data.code) });
                inner.push(
                    JsonMember { key: "err", value: JsonItem::Text(reconnect.data.err.clone()) },
                );
                assert(members_view(inner@) =~= data_of(self@));
                members.push(JsonMember { key: "d", value: JsonItem::Raw(crate::json::write(&inner)) });
            },
            Message::ResumeACK(ack) => {
                let mut inner: Vec<JsonMember> = Vec::new();
                inner.push(
                    JsonMember {
                        key: "session_id",
                        value: JsonItem::Text(ack.data.session_id.clone()),
                    },
                );
                assert(members_view(inner@) =~= data_of(self@));
                members.push(JsonMember { key: "d", value: JsonItem::Raw(crate::json::write(&inner)) });
            },
        }
        assert(members_view(members@) =~= members_of(self@));
        crate::json::write(&members)
    }

    /// The name of the message type with number `s`, if there is one.
    pub fn type_number_to_type_name(s: i64) -> (name: Option<&'static str>)
        ensures
            name is Some <==> 0 <= s <= 6,
            match name {
                Some(n) => type_name_of(s as int) == Some(n@),
                None => type_name_of(s as int) is None,
            },
    {
        match s {
            0 => Some("Event"),
            1 => Some("Hello"),
            2 => Some("Ping"),
            3 => Some("Pong"),
            4 => Some("Resume"),
            5 => Some("Reconnect"),
            6 => Some("ResumeACK"),
            _ => None,
        }
    }

    /// get type number
    pub fn type_number(&self) -> (s: i64)
        ensures
            s == type_number_of(self@),
    {
        match self {
            Self::Event(_) => 0,
            Self::Hello(_) => 1,
            Self::Ping(_) => 2,
            Self::Pong => 3,
            Self::Resume(_) => 4,
            Self::Reconnect(_) => 5,
            Self::ResumeACK(_) => 6,
        }
    }

    /// get type name
    pub fn kind_name(&self) -> (name: &'static str)
        ensures
            Some(name@) == type_name_of(type_number_of(self@)),
    {
        match Self::type_number_to_type_name(self.type_number()) {
            Some(name) => name,
            None => "",
        }
    }
}

} // verus!
