//! JSON texts, read and written by `serde_json`.
//!
//! The library never parses or prints JSON itself. It asks for the values at
//! given places of a document and gets them back as plain data, or hands over
//! the members of an object and gets its text back. Both calls are trusted:
//! their results are named, not computed, in specifications.

use vstd::prelude::*;

verus! {

/// Why a byte string is no JSON text, in the parser's own words.
#[derive(Debug)]
pub struct JsonError {
    /// the parser's message
    pub reason: String,
}

impl View for JsonError {
    type V = Seq<char>;

    open spec fn view(&self) -> Seq<char> {
        self.reason@
    }
}

/// What a JSON document holds at one place, as far as this library reads it.
#[derive(Debug)]
pub struct JsonValue {
    /// the value is `null`
    pub null: bool,
    /// the value is an object
    pub object: bool,
    /// the value, if it is a number that fits a signed 64 bit integer
    pub int: Option<i64>,
    /// the value, if it is a number that fits an unsigned 64 bit integer
    pub uint: Option<u64>,
    /// the value, if it is a string
    pub text: Option<String>,
    /// the JSON text of the value
    pub raw: Vec<u8>,
}

/// Mathematical value of a [`JsonValue`].
pub ghost struct JsonValueView {
    pub null: bool,
    pub object: bool,
    pub int: Option<i64>,
    pub uint: Option<u64>,
    pub text: Option<Seq<char>>,
    pub raw: Seq<u8>,
}

/// Mathematical value of an optional string.
pub open spec fn text_view(text: Option<String>) -> Option<Seq<char>> {
    match text {
        Some(t) => Some(t@),
        None => None,
    }
}

impl View for JsonValue {
    type V = JsonValueView;

    open spec fn view(&self) -> JsonValueView {
        JsonValueView {
            null: self.null,
            object: self.object,
            int: self.int,
            uint: self.uint,
            text: text_view(self.text),
            raw: self.raw@,
        }
    }
}

/// Mathematical value of a place that may hold nothing.
pub open spec fn place_view(place: Option<JsonValue>) -> Option<JsonValueView> {
    match place {
        Some(v) => Some(v@),
        None => None,
    }
}

/// What reading a byte string as JSON gave.
#[derive(Debug)]
pub enum JsonRead {
    /// the bytes are no JSON text
    Invalid(JsonError),
    /// the bytes are a JSON text, but no object
    Other,
    /// the bytes are a JSON object; one entry for each place asked for, in
    /// the order asked, `None` where the document holds nothing there
    Object(Vec<Option<JsonValue>>),
}

/// Mathematical value of a [`JsonRead`].
pub ghost enum JsonReadView {
    Invalid(Seq<char>),
    Other,
    Object(Seq<Option<JsonValueView>>),
}

impl View for JsonRead {
    type V = JsonReadView;

    open spec fn view(&self) -> JsonReadView {
        match self {
            JsonRead::Invalid(e) => JsonReadView::Invalid(e@),
            JsonRead::Other => JsonReadView::Other,
            JsonRead::Object(places) => JsonReadView::Object(
                places@.map_values(|p: Option<JsonValue>| place_view(p)),
            ),
        }
    }
}

/// The places of a pointer list, as texts.
pub open spec fn pointers_view(pointers: Seq<&'static str>) -> Seq<Seq<char>> {
    pointers.map_values(|p: &'static str| p@)
}

/// What `serde_json` reads from `bytes` at the places that the JSON pointers
/// `pointers` name.
pub uninterp spec fn json_read(bytes: Seq<u8>, pointers: Seq<Seq<char>>) -> JsonReadView;

/// Parses `bytes` with `serde_json::from_slice` into a `serde_json::Value`
/// and looks up each pointer with `Value::pointer`.
///
/// Trusted: the result is the named value [`json_read`] of the arguments.
/// Of each place found it reports what `Value::is_null`, `is_object`,
/// `as_i64`, `as_u64` and `as_str` say, and the text that `Value` prints.
#[verifier::external_body]
pub(crate) fn read(bytes: &[u8], pointers: &Vec<&'static str>) -> (r: JsonRead)
    ensures
        r@ == json_read(bytes@, pointers_view(pointers@)),
        r matches JsonRead::Object(places) ==> places.len() == pointers.len(),
{
    match serde_json::from_slice::<serde_json::Value>(bytes) {
        Err(e) => JsonRead::Invalid(JsonError { reason: e.to_string() }),
        Ok(doc @ serde_json::Value::Object(_)) => JsonRead::Object(pointers.iter().map(|p| {
            doc.pointer(p).map(|v| JsonValue {
                null: v.is_null(),
                object: v.is_object(),
                int: v.as_i64(),
                uint: v.as_u64(),
                text: v.as_str().map(String::from),
                raw: v.to_string().into_bytes(),
            })
        }).collect()),
        Ok(_) => JsonRead::Other,
    }
}

/// A value to write into a JSON object.
#[derive(Debug)]
pub enum JsonItem {
    /// a signed number
    Int(i64),
    /// an unsigned number
    UInt(u64),
    /// a string
    Text(String),
    /// the JSON text of any value
    Raw(Vec<u8>),
}

/// Mathematical value of a [`JsonItem`].
pub ghost enum JsonItemView {
    Int(i64),
    UInt(u64),
    Text(Seq<char>),
    Raw(Seq<u8>),
}

impl View for JsonItem {
    type V = JsonItemView;

    open spec fn view(&self) -> JsonItemView {
        match self {
            JsonItem::Int(i) => JsonItemView::Int(*i),
            JsonItem::UInt(u) => JsonItemView::UInt(*u),
            JsonItem::Text(t) => JsonItemView::Text(t@),
            JsonItem::Raw(b) => JsonItemView::Raw(b@),
        }
    }
}

/// One member of a JSON object to write.
#[derive(Debug)]
pub struct JsonMember {
    /// the member's name
    pub key: &'static str,
    /// the member's value
    pub value: JsonItem,
}

impl View for JsonMember {
    type V = (Seq<char>, JsonItemView);

    open spec fn view(&self) -> (Seq<char>, JsonItemView) {
        (self.key@, self.value@)
    }
}

/// Mathematical value of a list of members.
pub open spec fn members_view(members: Seq<JsonMember>) -> Seq<(Seq<char>, JsonItemView)> {
    members.map_values(|m: JsonMember| m@)
}

/// The text that `serde_json` prints for the object with the given members.
pub uninterp spec fn json_text(members: Seq<(Seq<char>, JsonItemView)>) -> Seq<u8>;

/// Collects the members into a `serde_json::Map` and prints it with
/// `serde_json::to_vec`. A `Raw` item is parsed with `serde_json::from_slice`
/// first; where that fails, `null` stands in its place.
///
/// Trusted: the result is the named value [`json_text`] of the argument.
#[verifier::external_body]
pub(crate) fn write(members: &Vec<JsonMember>) -> (bytes: Vec<u8>)
    ensures
        bytes@ == json_text(members_view(members@)),
{
    let map: serde_json::Map<String, serde_json::Value> = members.iter().map(|m| {
        (m.key.to_string(), match &m.value {
            JsonItem::Int(i) => serde_json::Value::from(*i),
            JsonItem::UInt(u) => serde_json::Value::from(*u),
            JsonItem::Text(t) => serde_json::Value::from(t.as_str()),
            JsonItem::Raw(b) => serde_json::from_slice(b).unwrap_or_default(),
        })
    }).collect();
    serde_json::to_vec(&map).unwrap_or_default()
}

} // verus!
