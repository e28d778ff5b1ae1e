use vstd::prelude::*;
use vstd::string::StringExecFns;
use vstd::string::StringSliceAdditionalSpecFns;

use super::error::Error;
use super::types::{GatewayIndexData, Response};
use crate::json::{json_read, place_view, pointers_view, JsonRead, JsonReadView};
use crate::ws::message::{int_at, text_at};

verus! {

/// The address that every request starts with.
pub const BASE_URL: &'static str = "https://www.kaiheila.cn/api/v3";

/// What the client calls itself in each request.
pub const APP_USER_AGENT: &'static str = "burz/0.1.0";

/// Whether a byte may stand in the value of an HTTP header: any byte but
/// the control characters, of which the tab is let through.
pub open spec fn header_byte(b: u8) -> bool {
    b >= 32 && b != 127 || b == 9
}

/// Whether a byte string may be the value of an HTTP header.
pub open spec fn header_value(bytes: Seq<u8>) -> bool {
    forall|i: int| 0 <= i < bytes.len() ==> header_byte(#[trigger] bytes[i])
}

/// Whether a text may be the value of an HTTP header: each of its bytes
/// must be one that [`header_byte`] lets through.
pub fn is_header_value(text: &str) -> (ok: bool)
    ensures
        ok == header_value(text.spec_bytes()),
{
    let bytes = text.as_bytes();
    let mut i: usize = 0;
    while i < bytes.len()
        invariant
            i <= bytes.len(),
            bytes@ == text.spec_bytes(),
            header_value(bytes@.subrange(0, i as int)),
        decreases bytes.len() - i,
    {
        let b: u8 = bytes[i];
        if !(b >= 32 && b != 127 || b == 9) {
            assert(!header_byte(bytes@[i as int]));
            return false;
        }
        assert forall|k: int| 0 <= k < i + 1 implies header_byte(
            #[trigger] bytes@.subrange(0, i + 1)[k],
        ) by {
            if k < i {
                assert(bytes@.subrange(0, i as int)[k] == bytes@[k]);
            }
        }
        i = i + 1;
    }
    assert(bytes@.subrange(0, i as int) =~= bytes@);
    true
}

/// A request to send: a `GET` of `url` with the two headers.
#[derive(Debug)]
pub struct Request {
    /// the address, query included
    pub url: String,
    /// the value of the header `Authorization`
    pub authorization: String,
    /// the value of the header `User-Agent`
    pub user_agent: String,
}

/// What came back for a request.
#[derive(Debug)]
pub struct Reply {
    /// the HTTP status code
    pub status: u16,
    /// the body, decoded where the server had compressed it
    pub body: Vec<u8>,
}

/// Kaiheila HTTP API Client
#[derive(Debug, Clone)]
pub struct Client {
    authorization: String,
}

/// The value of the header that authorizes by `token`.
pub open spec fn authorization_of(auth_type: Seq<char>, token: Seq<char>) -> Seq<char> {
    auth_type + " "@ + token
}

/// The address of the request for the gateway.
pub open spec fn gateway_index_url() -> Seq<char> {
    BASE_URL@ + "/gateway/index"@ + "?compress=1"@
}

/// What answers a request tell, as far as a specification needs it:
/// `Ok` with the gateway's url, or the kind of failure.
pub ghost enum ReplyView {
    Url(Seq<char>),
    HTTPStatusNotOK { status_code: u16 },
    ParseBodyFailed { body: Seq<u8>, reason: Seq<char> },
    CodeNotZero { code: i64, message: Seq<char> },
}

/// The JSON pointers of the places that an answer is read from.
pub open spec fn reply_pointers() -> Seq<Seq<char>> {
    seq!["/code"@, "/message"@, "/data/url"@]
}

/// What the answer `(status, body)` to the request for the gateway tells:
/// the status must be 200, the body a JSON object with a number `code`, a
/// string `message` and a string `url` in its `data`, and the code zero.
/// A body that cannot be read is refused with the parser's message or the
/// first member that is missing or of the wrong type.
pub open spec fn reply_of(status: u16, body: Seq<u8>) -> ReplyView {
    if status != 200 {
        ReplyView::HTTPStatusNotOK { status_code: status }
    } else {
        body_of(body, json_read(body, reply_pointers()))
    }
}

/// What a body tells whose reading at [`reply_pointers`] gave `read`. A
/// reading that does not have the three places counts as no object.
pub open spec fn body_of(body: Seq<u8>, read: JsonReadView) -> ReplyView {
    match read {
        JsonReadView::Invalid(reason) => ReplyView::ParseBodyFailed { body, reason },
        JsonReadView::Other => ReplyView::ParseBodyFailed { body, reason: "not an object"@ },
        JsonReadView::Object(places) => {
            if places.len() != 3 {
                ReplyView::ParseBodyFailed { body, reason: "not an object"@ }
            } else if int_at(places[0]) is None {
                ReplyView::ParseBodyFailed { body, reason: "code"@ }
            } else if text_at(places[1]) is None {
                ReplyView::ParseBodyFailed { body, reason: "message"@ }
            } else if text_at(places[2]) is None {
                ReplyView::ParseBodyFailed { body, reason: "data.url"@ }
            } else if int_at(places[0])->0 != 0 {
                ReplyView::CodeNotZero {
                    code: int_at(places[0])->0,
                    message: text_at(places[1])->0,
                }
            } else {
                ReplyView::Url(text_at(places[2])->0)
            }
        },
    }
}

/// Whether `data` is what a body tells whose reading gave `read`, before
/// the code is looked at: the three members, or the failure to read them.
pub open spec fn response_matches(
    data: Result<Response<GatewayIndexData>, Error>,
    body: Seq<u8>,
    read: JsonReadView,
) -> bool {
    match data {
        Ok(response) => {
            &&& read matches JsonReadView::Object(places)
            &&& places.len() == 3
            &&& int_at(places[0]) == Some(response.code)
            &&& text_at(places[1]) == Some(response.message@)
            &&& text_at(places[2]) == Some(response.data.url@)
        },
        Err(Error::ParseBodyFailed { body: kept, reason }) => body_of(body, read) == (
            ReplyView::ParseBodyFailed { body: kept@, reason: reason@ }
        ),
        Err(_) => false,
    }
}

/// Whether `r` tells what `view` says.
pub open spec fn reply_matches(r: Result<String, Error>, view: ReplyView) -> bool {
    match r {
        Ok(url) => view == ReplyView::Url(url@),
        Err(Error::HTTPStatusNotOK { method, url, status_code }) => {
            &&& view == (ReplyView::HTTPStatusNotOK { status_code })
            &&& method@ == "GET"@
            &&& url@ == gateway_index_url()
        },
        Err(Error::ParseBodyFailed { body, reason }) => view == (ReplyView::ParseBodyFailed {
            body: body@,
            reason: reason@,
        }),
        Err(Error::CodeNotZero { code, message }) => view == (ReplyView::CodeNotZero {
            code,
            message: message@,
        }),
        Err(_) => false,
    }
}

impl Client {
    /// The value of the header `Authorization` that the client sends.
    pub closed spec fn spec_authorization(&self) -> Seq<char> {
        self.authorization@
    }

    /// A client that authorizes by `token` in the way `auth_type`. A token
    /// that cannot stand in an HTTP header is refused.
    pub fn new(auth_type: &'static str, token: &str) -> (client: Result<Self, Error>)
        ensures
            match client {
                Ok(c) => c.spec_authorization() == authorization_of(auth_type@, token@),
                Err(Error::TokenInvalid { token: refused }) => refused@ == token@,
                Err(_) => false,
            },
            client is Ok <==> header_value(
                vstd::utf8::encode_utf8(authorization_of(auth_type@, token@)),
            ),
    {
        let mut authorization = auth_type.to_owned();
        authorization.append(" ");
        authorization.append(token);
        if is_header_value(authorization.as_str()) {
            Ok(Self { authorization })
        } else {
            Err(Error::TokenInvalid { token: token.to_owned() })
        }
    }

    /// create a new api client using bot token
    pub fn new_from_bot_token(token: &str) -> (client: Result<Self, Error>)
        ensures
            match client {
                Ok(c) => c.spec_authorization() == authorization_of("Bot"@, token@),
                Err(Error::TokenInvalid { token: refused }) => refused@ == token@,
                Err(_) => false,
            },
            client is Ok <==> header_value(
                vstd::utf8::encode_utf8(authorization_of("Bot"@, token@)),
            ),
    {
        Self::new("Bot", token)
    }

    /// create a new api client using oauth2 token
    pub fn new_from_oauth2_token(token: &str) -> (client: Result<Self, Error>)
        ensures
            match client {
                Ok(c) => c.spec_authorization() == authorization_of("Bearer"@, token@),
                Err(Error::TokenInvalid { token: refused }) => refused@ == token@,
                Err(_) => false,
            },
            client is Ok <==> header_value(
                vstd::utf8::encode_utf8(authorization_of("Bearer"@, token@)),
            ),
    {
        Self::new("Bearer", token)
    }

    /// The value of the header `Authorization` that the client sends.
    pub fn authorization(&self) -> (header: &str)
        ensures
            header@ == self.spec_authorization(),
    {
        self.authorization.as_str()
    }

    /// The request that asks for the gateway: /gateway/index, with
    /// compression on.
    pub fn request(&self) -> (request: Request)
        ensures
            request.url@ == gateway_index_url(),
            request.authorization@ == self.spec_authorization(),
            request.user_agent@ == APP_USER_AGENT@,
    {
        let mut url = BASE_URL.to_owned();
        url.append("/gateway/index");
        url.append("?compress=1");
        Request {
            url,
            authorization: self.authorization.clone(),
            user_agent: APP_USER_AGENT.to_owned(),
        }
    }

    /// Reads the members of an answer's body from what reading the body at
    /// the places `/code`, `/message` and `/data/url` gave.
    pub fn read_response(body: Vec<u8>, read: JsonRead) -> (data: Result<
        Response<GatewayIndexData>,
        Error,
    >)
        ensures
            response_matches(data, body@, read@),
    {
        match read {
            JsonRead::Invalid(source) => Err(
                Error::ParseBodyFailed { body, reason: source.reason },
            ),
            JsonRead::Other => Err(
                Error::ParseBodyFailed { body, reason: "not an object".to_owned() },
            ),
            JsonRead::Object(mut places) => {
                if places.len() != 3 {
                    return Err(
                        Error::ParseBodyFailed { body, reason: "not an object".to_owned() },
                    );
                }
                let ghost all = places@.map_values(|p: Option<crate::json::JsonValue>| place_view(p));
                let url = places.pop().unwrap();
                let message = places.pop().unwrap();
                let code = places.pop().unwrap();
                assert(place_view(url) == all[2]);
                assert(place_view(message) == all[1]);
                assert(place_view(code) == all[0]);
                let code = match code {
                    Some(v) => v.int,
                    None => None,
                };
                let message = match message {
                    Some(v) => v.text,
                    None => None,
                };
                let url = match url {
                    Some(v) => v.text,
                    None => None,
                };
                match (code, message, url) {
                    (Some(code), Some(message), Some(url)) => Ok(
                        Response { code, message, data: GatewayIndexData { url } },
                    ),
                    (None, _, _) => Err(
                        Error::ParseBodyFailed { body, reason: "code".to_owned() },
                    ),
                    (_, None, _) => Err(
                        Error::ParseBodyFailed { body, reason: "message".to_owned() },
                    ),
                    (_, _, None) => Err(
                        Error::ParseBodyFailed { body, reason: "data.url".to_owned() },
                    ),
                }
            },
        }
    }

    /// Reads the answer to the request for the gateway: the status must be
    /// 200, and the body is read as [`Client::read_response`] says.
    pub fn response(reply: Reply) -> (data: Result<Response<GatewayIndexData>, Error>)
        ensures
            match data {
                Err(Error::HTTPStatusNotOK { method, url, status_code }) => {
                    &&& reply.status != 200
                    &&& status_code == reply.status
                    &&& method@ == "GET"@
                    &&& url@ == gateway_index_url()
                },
                _ => reply.status == 200 && response_matches(
                    data,
                    reply.body@,
                    json_read(reply.body@, reply_pointers()),
                ),
            },
    {
        if reply.status != 200 {
            let mut url = BASE_URL.to_owned();
            url.append("/gateway/index");
            url.append("?compress=1");
            return Err(
                Error::HTTPStatusNotOK {
                    method: "GET".to_owned(),
                    url,
                    status_code: reply.status,
                },
            );
        }
        let pointers: Vec<&'static str> = vec!["/code", "/message", "/data/url"];
        assert(pointers_view(pointers@) =~= reply_pointers());
        let read = crate::json::read(reply.body.as_slice(), &pointers);
        Self::read_response(reply.body, read)
    }

    /// Call /gateway/index, get gateway url: reads it from the answer to
    /// [`Client::request`].
    pub fn gateway_url(&self, reply: Reply) -> (url: Result<String, Error>)
        ensures
            reply_matches(url, reply_of(reply.status, reply.body@)),
    {
        let response = match Self::response(reply) {
            Ok(response) => response,
            Err(error) => {
                return Err(error);
            },
        };
        if response.code != 0 {
            return Err(Error::CodeNotZero { code: response.code, message: response.message });
        }
        Ok(response.data.url)
    }
}

} // verus!
