//! Kaiheila HTTP API response types

use vstd::prelude::*;
use vstd::string::StringExecFns;

use crate::api::address::{
    build_url, pairs_view, parse_url, url_parse, url_text, UrlParts, UrlPartsView,
};
use crate::json::text_view;
use crate::text::{decimal, decimal_text, parse_u64, parse_u64_spec, same_text};
use crate::ws::message::{Message, SN};

verus! {

/// Response is common response structure with a code and message, and a data field.
#[derive(Debug)]
pub struct Response<T> {
    /// zero is success, see kaiheila doc for details
    pub code: i64,
    /// error message
    pub message: String,
    /// result data, differ type for each api
    pub data: T,
}

/// data type for api /gateway/index
#[derive(Debug)]
pub struct GatewayIndexData {
    /// gateway url
    pub url: String,
}

/// Parse string as gateway url error
#[derive(Debug)]
pub enum ParseGatewayURLError {
    /// the str is not a valid url
    InvalidURL {
        /// string be parsed
        s: String,
        /// why the parser refused it
        reason: String,
    },
    /// the parsed url schema is not websocket
    InvalidSchema {
        /// the url
        s: String,
        /// invalid schema
        schema: String,
    },
    /// the parsed url has no host
    NoHost {
        /// the url
        s: String,
    },
    /// the parsed url has no token
    NoToken {
        /// the url
        s: String,
    },
    /// the parsed url has no sn for resume
    NoSN {
        /// the url
        s: String,
    },
    /// the parsed url has invalid sn(not unsigned number) for resume
    InvalidSN {
        /// the url
        s: String,
    },
    /// the parsed url has no session id for resume
    NoSessionID {
        /// the url
        s: String,
    },
}

/// Mathematical value of a [`ParseGatewayURLError`].
pub ghost enum ParseGatewayURLErrorView {
    InvalidURL { s: Seq<char>, reason: Seq<char> },
    InvalidSchema { s: Seq<char>, schema: Seq<char> },
    NoHost { s: Seq<char> },
    NoToken { s: Seq<char> },
    NoSN { s: Seq<char> },
    InvalidSN { s: Seq<char> },
    NoSessionID { s: Seq<char> },
}

impl View for ParseGatewayURLError {
    type V = ParseGatewayURLErrorView;

    open spec fn view(&self) -> ParseGatewayURLErrorView {
        match self {
            ParseGatewayURLError::InvalidURL { s, reason } => ParseGatewayURLErrorView::InvalidURL {
                s: s@,
                reason: reason@,
            },
            ParseGatewayURLError::InvalidSchema { s, schema } => {
                ParseGatewayURLErrorView::InvalidSchema { s: s@, schema: schema@ }
            },
            ParseGatewayURLError::NoHost { s } => ParseGatewayURLErrorView::NoHost { s: s@ },
            ParseGatewayURLError::NoToken { s } => ParseGatewayURLErrorView::NoToken { s: s@ },
            ParseGatewayURLError::NoSN { s } => ParseGatewayURLErrorView::NoSN { s: s@ },
            ParseGatewayURLError::InvalidSN { s } => ParseGatewayURLErrorView::InvalidSN { s: s@ },
            ParseGatewayURLError::NoSessionID { s } => ParseGatewayURLErrorView::NoSessionID {
                s: s@,
            },
        }
    }
}

/// needed arguments when reconnect to a gateway
#[derive(Debug)]
pub struct GatewayResumeArguments {
    /// last message id
    pub sn: u64,
    /// last session id
    pub session_id: String,
}

/// Mathematical value of a [`GatewayResumeArguments`].
pub ghost struct ResumeView {
    pub sn: u64,
    pub session_id: Seq<char>,
}

impl View for GatewayResumeArguments {
    type V = ResumeView;

    open spec fn view(&self) -> ResumeView {
        ResumeView { sn: self.sn, session_id: self.session_id@ }
    }
}

impl Clone for GatewayResumeArguments {
    fn clone(&self) -> (copy: Self)
        ensures
            copy == *self,
    {
        GatewayResumeArguments { sn: self.sn, session_id: self.session_id.clone() }
    }
}

impl Default for GatewayResumeArguments {
    fn default() -> (zero: Self)
        ensures
            zero@ == (ResumeView { sn: 0, session_id: Seq::empty() }),
    {
        GatewayResumeArguments { sn: 0, session_id: String::new() }
    }
}

impl GatewayResumeArguments {
    /// The ping that reports these arguments' serial number.
    pub fn ping(&self) -> (message: Message)
        ensures
            message == Message::Ping(SN { sn: self.sn }),
    {
        Message::Ping(SN { sn: self.sn })
    }
}

/// Mathematical value of optional resume arguments.
pub open spec fn resume_view(resume: Option<GatewayResumeArguments>) -> Option<ResumeView> {
    match resume {
        Some(r) => Some(r@),
        None => None,
    }
}

/// parsed returned gateway url
#[derive(Debug)]
pub struct GatewayURLInfo {
    /// url schema
    pub schema: String,
    /// gateway host(domain)
    pub host: String,
    /// gateway port
    pub port: Option<u16>,
    /// request path
    pub path: String,
    /// enable server->client message compress
    pub compress: bool,
    /// gateway token
    pub token: String,
    /// resume conversion arguments
    pub resume: Option<GatewayResumeArguments>,
    /// the other query parameters, in their order; the client passes them
    /// on and does not look at them
    pub others: Vec<(String, String)>,
}

/// Mathematical value of a [`GatewayURLInfo`].
pub ghost struct GatewayURLInfoView {
    pub schema: Seq<char>,
    pub host: Seq<char>,
    pub port: Option<u16>,
    pub path: Seq<char>,
    pub compress: bool,
    pub token: Seq<char>,
    pub resume: Option<ResumeView>,
    pub others: Seq<(Seq<char>, Seq<char>)>,
}

impl View for GatewayURLInfo {
    type V = GatewayURLInfoView;

    open spec fn view(&self) -> GatewayURLInfoView {
        GatewayURLInfoView {
            schema: self.schema@,
            host: self.host@,
            port: self.port,
            path: self.path@,
            compress: self.compress,
            token: self.token@,
            resume: resume_view(self.resume),
            others: pairs_view(self.others@),
        }
    }
}

/// A copy of a list of pairs.
fn clone_pairs(pairs: &Vec<(String, String)>) -> (copy: Vec<(String, String)>)
    ensures
        copy@ == pairs@,
{
    let mut copy: Vec<(String, String)> = Vec::new();
    let mut i: usize = 0;
    while i < pairs.len()
        invariant
            i <= pairs.len(),
            copy@ == pairs@.subrange(0, i as int),
        decreases pairs.len() - i,
    {
        copy.push((pairs[i].0.clone(), pairs[i].1.clone()));
        assert(copy@ =~= pairs@.subrange(0, i + 1));
        i = i + 1;
    }
    assert(pairs@.subrange(0, i as int) =~= pairs@);
    copy
}

impl Clone for GatewayURLInfo {
    fn clone(&self) -> (copy: Self)
        ensures
            copy@ == self@,
            copy.schema == self.schema,
            copy.host == self.host,
            copy.path == self.path,
            copy.token == self.token,
            copy.resume == self.resume,
            copy.others@ == self.others@,
    {
        GatewayURLInfo {
            schema: self.schema.clone(),
            host: self.host.clone(),
            port: self.port,
            path: self.path.clone(),
            compress: self.compress,
            token: self.token.clone(),
            resume: match &self.resume {
                Some(r) => Some(r.clone()),
                None => None,
            },
            others: clone_pairs(&self.others),
        }
    }
}

impl core::str::FromStr for GatewayURLInfo {
    type Err = ParseGatewayURLError;

    /// Parses a gateway url, as [`GatewayURLInfo::from_str`] does.
    fn from_str(s: &str) -> (r: Result<Self, Self::Err>)
        ensures
            gateway_view(r) == parse_gateway_spec(s@),
    {
        GatewayURLInfo::from_str(s)
    }
}

/// Mathematical value of what parsing a gateway URL gave.
pub open spec fn gateway_view(r: Result<GatewayURLInfo, ParseGatewayURLError>) -> Result<
    GatewayURLInfoView,
    ParseGatewayURLErrorView,
> {
    match r {
        Ok(info) => Ok(info@),
        Err(error) => Err(error@),
    }
}

/// The value of the query parameter `key`: that of the last pair with this
/// name, if there is one.
pub open spec fn query_value(query: Seq<(Seq<char>, Seq<char>)>, key: Seq<char>) -> Option<
    Seq<char>,
>
    decreases query.len(),
{
    if query.len() == 0 {
        None
    } else if query.last().0 == key {
        Some(query.last().1)
    } else {
        query_value(query.drop_last(), key)
    }
}

/// Whether `key` names one of the query parameters that the client reads.
pub open spec fn known_key(key: Seq<char>) -> bool {
    key == "compress"@ || key == "token"@ || key == "resume"@ || key == "sn"@ || key
        == "session_id"@
}

/// The pairs of a query that the client does not read: those whose name is
/// none of the five it knows, in their order.
pub open spec fn others_of(query: Seq<(Seq<char>, Seq<char>)>) -> Seq<(Seq<char>, Seq<char>)>
    decreases query.len(),
{
    if query.len() == 0 {
        Seq::empty()
    } else if known_key(query.last().0) {
        others_of(query.drop_last())
    } else {
        others_of(query.drop_last()).push(query.last())
    }
}

/// Whether none of the pairs has a name that the client reads.
pub open spec fn all_unknown(pairs: Seq<(Seq<char>, Seq<char>)>) -> bool {
    forall|i: int| 0 <= i < pairs.len() ==> !known_key(#[trigger] pairs[i].0)
}

/// The resume arguments that a query asks for: none unless `resume` is `1`;
/// then `sn` and `session_id` must be there, and `sn` must be a number.
pub open spec fn resume_of(s: Seq<char>, query: Seq<(Seq<char>, Seq<char>)>) -> Result<
    Option<ResumeView>,
    ParseGatewayURLErrorView,
> {
    if query_value(query, "resume"@) != Some("1"@) {
        Ok(None)
    } else if query_value(query, "sn"@) is None {
        Err(ParseGatewayURLErrorView::NoSN { s })
    } else if query_value(query, "session_id"@) is None {
        Err(ParseGatewayURLErrorView::NoSessionID { s })
    } else if parse_u64_spec(query_value(query, "sn"@)->0) is None {
        Err(ParseGatewayURLErrorView::InvalidSN { s })
    } else {
        Ok(
            Some(
                ResumeView {
                    sn: parse_u64_spec(query_value(query, "sn"@)->0)->0,
                    session_id: query_value(query, "session_id"@)->0,
                },
            ),
        )
    }
}

/// The gateway that the parts of the URL `s` describe: the scheme must be
/// `ws` or `wss`, a host and a `token` must be there, `compress` is on
/// where the query sets it to `1`, the resume arguments follow
/// [`resume_of`], and every other parameter is kept as it is.
pub open spec fn gateway_of(s: Seq<char>, parts: UrlPartsView) -> Result<
    GatewayURLInfoView,
    ParseGatewayURLErrorView,
> {
    if parts.scheme != "wss"@ && parts.scheme != "ws"@ {
        Err(ParseGatewayURLErrorView::InvalidSchema { s, schema: parts.scheme })
    } else if parts.host is None {
        Err(ParseGatewayURLErrorView::NoHost { s })
    } else if query_value(parts.query, "token"@) is None {
        Err(ParseGatewayURLErrorView::NoToken { s })
    } else {
        match resume_of(s, parts.query) {
            Err(error) => Err(error),
            Ok(resume) => Ok(
                GatewayURLInfoView {
                    schema: parts.scheme,
                    host: parts.host->0,
                    port: parts.port,
                    path: parts.path,
                    compress: query_value(parts.query, "compress"@) == Some("1"@),
                    token: query_value(parts.query, "token"@)->0,
                    resume,
                    others: others_of(parts.query),
                },
            ),
        }
    }
}

/// The gateway that the URL `s` describes.
pub open spec fn parse_gateway_spec(s: Seq<char>) -> Result<
    GatewayURLInfoView,
    ParseGatewayURLErrorView,
> {
    match url_parse(s) {
        Err(reason) => Err(ParseGatewayURLErrorView::InvalidURL { s, reason }),
        Ok(parts) => gateway_of(s, parts),
    }
}

/// The address of a gateway without port and query.
pub open spec fn base_of(info: GatewayURLInfoView) -> Seq<char> {
    info.schema + "://"@ + info.host + info.path
}

/// The query parameters that the client reads, as a gateway is written
/// with them.
pub open spec fn known_of(info: GatewayURLInfoView) -> Seq<(Seq<char>, Seq<char>)> {
    let head = seq![
        ("compress"@, if info.compress { "1"@ } else { "0"@ }),
        ("token"@, info.token),
    ];
    match info.resume {
        Some(resume) => head + seq![
            ("resume"@, "1"@),
            ("sn"@, decimal(resume.sn as nat)),
            ("session_id"@, resume.session_id),
        ],
        None => head,
    }
}

/// The query parameters that a gateway is written with: those that the
/// client reads, then the others in their order.
pub open spec fn query_of(info: GatewayURLInfoView) -> Seq<(Seq<char>, Seq<char>)> {
    known_of(info) + info.others
}

/// The URL of a gateway, where its address can be parsed.
pub open spec fn url_spec(info: GatewayURLInfoView) -> Option<Seq<char>> {
    url_text(base_of(info), info.port, query_of(info))
}

/// The parts of a url that a gateway is written with.
pub open spec fn parts_of(info: GatewayURLInfoView) -> UrlPartsView {
    UrlPartsView {
        scheme: info.schema,
        host: Some(info.host),
        port: info.port,
        path: info.path,
        query: query_of(info),
    }
}

/// The pairs that the client does not read have names that it does not
/// know.
pub proof fn lemma_others_unknown(query: Seq<(Seq<char>, Seq<char>)>)
    ensures
        all_unknown(others_of(query)),
    decreases query.len(),
{
    if query.len() > 0 {
        lemma_others_unknown(query.drop_last());
    }
}

/// Pairs with unknown names behind a query change no parameter that the
/// client reads, and are themselves the pairs it does not read, behind
/// those of the query.
pub proof fn lemma_query_with_others(
    known: Seq<(Seq<char>, Seq<char>)>,
    others: Seq<(Seq<char>, Seq<char>)>,
    key: Seq<char>,
)
    requires
        all_unknown(others),
        known_key(key),
    ensures
        query_value(known + others, key) == query_value(known, key),
        others_of(known + others) == others_of(known) + others,
    decreases others.len(),
{
    if others.len() == 0 {
        assert(known + others =~= known);
        assert(others_of(known) + others =~= others_of(known));
    } else {
        let all = known + others;
        assert(all.last() == others.last());
        assert(all.drop_last() =~= known + others.drop_last());
        assert(!known_key(others[others.len() - 1].0));
        lemma_query_with_others(known, others.drop_last(), key);
        assert(others_of(known) + others =~= (others_of(known) + others.drop_last()).push(
            others.last(),
        ));
    }
}

/// A gateway is read back from the parts that it is written with: writing
/// loses nothing of a gateway whose scheme is `ws` or `wss` and whose other
/// parameters have names that the client does not read.
pub proof fn lemma_gateway_reads_back(s: Seq<char>, info: GatewayURLInfoView)
    requires
        info.schema == "ws"@ || info.schema == "wss"@,
        all_unknown(info.others),
    ensures
        gateway_of(s, parts_of(info)) == Ok::<GatewayURLInfoView, ParseGatewayURLErrorView>(info),
{
    reveal_strlit("compress");
    reveal_strlit("token");
    reveal_strlit("resume");
    reveal_strlit("sn");
    reveal_strlit("session_id");
    reveal_strlit("0");
    reveal_strlit("1");
    let compress = ("compress"@, if info.compress { "1"@ } else { "0"@ });
    let token = ("token"@, info.token);
    let head = seq![compress, token];
    let none = Seq::<(Seq<char>, Seq<char>)>::empty();
    assert(head.drop_last() =~= seq![compress]);
    assert(seq![compress].drop_last() =~= none);
    assert("compress"@[0] != "token"@[0]);
    assert("compress"@[0] != "resume"@[0]);
    assert("compress"@.len() != "sn"@.len());
    assert("compress"@.len() != "session_id"@.len());
    assert("token"@[0] != "resume"@[0]);
    assert("token"@[0] != "sn"@[0]);
    assert("token"@[0] != "session_id"@[0]);
    assert("resume"@[0] != "sn"@[0]);
    assert("resume"@[0] != "session_id"@[0]);
    assert("sn"@.len() != "session_id"@.len());
    assert("0"@[0] != "1"@[0]);
    reveal_with_fuel(query_value, 6);
    reveal_with_fuel(others_of, 6);
    let known = known_of(info);
    let query = query_of(info);
    lemma_query_with_others(known, info.others, "compress"@);
    lemma_query_with_others(known, info.others, "token"@);
    lemma_query_with_others(known, info.others, "resume"@);
    lemma_query_with_others(known, info.others, "sn"@);
    lemma_query_with_others(known, info.others, "session_id"@);
    match info.resume {
        None => {
            assert(known == head);
            assert(query_value(head, "token"@) == Some(info.token));
            assert(query_value(head, "compress"@) == Some(compress.1));
            assert(query_value(head, "resume"@) is None);
            assert(others_of(head) =~= none);
        },
        Some(resume) => {
            let r = ("resume"@, "1"@);
            let n = ("sn"@, decimal(resume.sn as nat));
            let i = ("session_id"@, resume.session_id);
            let four = seq![compress, token, r, n];
            let three = seq![compress, token, r];
            assert(known =~= seq![compress, token, r, n, i]);
            assert(known.drop_last() =~= four);
            assert(four.drop_last() =~= three);
            assert(three.drop_last() =~= head);
            assert(query_value(known, "session_id"@) == Some(resume.session_id));
            assert(query_value(known, "sn"@) == Some(n.1));
            assert(query_value(known, "resume"@) == Some("1"@));
            assert(query_value(known, "token"@) == Some(info.token));
            assert(query_value(known, "compress"@) == Some(compress.1));
            assert(others_of(known) =~= none);
            crate::text::lemma_decimal_reads_back(resume.sn);
        },
    }
    assert(others_of(query) =~= info.others);
}

/// Whether `key` names one of the query parameters that the client reads.
fn is_known(key: &str) -> (known: bool)
    ensures
        known == known_key(key@),
{
    same_text(key, "compress") || same_text(key, "token") || same_text(key, "resume")
        || same_text(key, "sn") || same_text(key, "session_id")
}

/// The pairs of a query that the client does not read.
pub fn other_pairs(query: &Vec<(String, String)>) -> (others: Vec<(String, String)>)
    ensures
        pairs_view(others@) == others_of(pairs_view(query@)),
{
    let ghost pairs = pairs_view(query@);
    let mut others: Vec<(String, String)> = Vec::new();
    let mut i: usize = 0;
    assert(pairs_view(others@) =~= others_of(pairs.subrange(0, 0)));
    while i < query.len()
        invariant
            i <= query.len(),
            pairs == pairs_view(query@),
            pairs_view(others@) == others_of(pairs.subrange(0, i as int)),
        decreases query.len() - i,
    {
        let ghost seen = pairs.subrange(0, i + 1);
        assert(seen.drop_last() =~= pairs.subrange(0, i as int));
        assert(seen.last() == pairs[i as int]);
        if !is_known(query[i].0.as_str()) {
            let ghost before = others@;
            others.push((query[i].0.clone(), query[i].1.clone()));
            assert(pairs_view(others@) =~= pairs_view(before).push(pairs[i as int]));
        }
        i = i + 1;
    }
    assert(pairs.subrange(0, i as int) =~= pairs);
    others
}

/// The value of the query parameter `key`.
pub fn find_query(query: &Vec<(String, String)>, key: &str) -> (value: Option<String>)
    ensures
        text_view(value) == query_value(pairs_view(query@), key@),
{
    let ghost pairs = pairs_view(query@);
    let mut i: usize = query.len();
    assert(pairs.subrange(0, i as int) =~= pairs);
    while i > 0
        invariant
            i <= query.len(),
            pairs == pairs_view(query@),
            query_value(pairs, key@) == query_value(pairs.subrange(0, i as int), key@),
        decreases i,
    {
        let ghost prefix = pairs.subrange(0, i as int);
        assert(prefix.last() == pairs[i - 1]);
        assert(prefix.drop_last() =~= pairs.subrange(0, i - 1));
        i = i - 1;
        if same_text(query[i].0.as_str(), key) {
            return Some(query[i].1.clone());
        }
    }
    assert(pairs.subrange(0, 0).len() == 0);
    None
}

impl GatewayURLInfo {
    /// construct final url
    pub fn url(&self) -> (text: Option<String>)
        ensures
            text_view(text) == url_spec(self@),
    {
        let mut base = self.schema.clone();
        base.append("://");
        base.append(self.host.as_str());
        base.append(self.path.as_str());
        let mut query: Vec<(String, String)> = Vec::new();
        query.push(("compress".to_owned(), (if self.compress { "1" } else { "0" }).to_owned()));
        query.push(("token".to_owned(), self.token.clone()));
        match &self.resume {
            Some(resume) => {
                query.push(("resume".to_owned(), "1".to_owned()));
                query.push(("sn".to_owned(), decimal_text(resume.sn)));
                query.push(("session_id".to_owned(), resume.session_id.clone()));
            },
            None => {},
        }
        assert(pairs_view(query@) =~= known_of(self@));
        let mut others = clone_pairs(&self.others);
        let ghost known = query@;
        query.append(&mut others);
        assert(pairs_view(query@) =~= pairs_view(known) + pairs_view(self.others@));
        build_url(base.as_str(), self.port, &query)
    }

    /// Reads the resume arguments of a query.
    fn resume_from(s: &str, query: &Vec<(String, String)>) -> (r: Result<
        Option<GatewayResumeArguments>,
        ParseGatewayURLError,
    >)
        ensures
            match r {
                Ok(resume) => resume_of(s@, pairs_view(query@)) == Ok::<
                    Option<ResumeView>,
                    ParseGatewayURLErrorView,
                >(resume_view(resume)),
                Err(error) => resume_of(s@, pairs_view(query@)) == Err::<
                    Option<ResumeView>,
                    ParseGatewayURLErrorView,
                >(error@),
            },
    {
        let wanted = match find_query(query, "resume") {
            Some(val) => same_text(val.as_str(), "1"),
            None => false,
        };
        if !wanted {
            return Ok(None);
        }
        let sn = match find_query(query, "sn") {
            Some(sn) => sn,
            None => {
                return Err(ParseGatewayURLError::NoSN { s: s.to_owned() });
            },
        };
        let session_id = match find_query(query, "session_id") {
            Some(id) => id,
            None => {
                return Err(ParseGatewayURLError::NoSessionID { s: s.to_owned() });
            },
        };
        match parse_u64(sn.as_str()) {
            Some(sn) => Ok(Some(GatewayResumeArguments { sn, session_id })),
            None => Err(ParseGatewayURLError::InvalidSN { s: s.to_owned() }),
        }
    }

    /// The gateway that the parts of the URL `s` describe.
    pub fn from_parts(s: &str, parts: UrlParts) -> (r: Result<Self, ParseGatewayURLError>)
        ensures
            gateway_view(r) == gateway_of(s@, parts@),
    {
        if !same_text(parts.scheme.as_str(), "wss") && !same_text(parts.scheme.as_str(), "ws") {
            return Err(
                ParseGatewayURLError::InvalidSchema { s: s.to_owned(), schema: parts.scheme },
            );
        }
        let host = match parts.host {
            Some(host) => host,
            None => {
                return Err(ParseGatewayURLError::NoHost { s: s.to_owned() });
            },
        };
        let compress = match find_query(&parts.query, "compress") {
            Some(val) => same_text(val.as_str(), "1"),
            None => false,
        };
        let token = match find_query(&parts.query, "token") {
            Some(token) => token,
            None => {
                return Err(ParseGatewayURLError::NoToken { s: s.to_owned() });
            },
        };
        match Self::resume_from(s, &parts.query) {
            Err(error) => Err(error),
            Ok(resume) => Ok(
                GatewayURLInfo {
                    schema: parts.scheme,
                    host,
                    port: parts.port,
                    path: parts.path,
                    compress,
                    token,
                    resume,
                    others: other_pairs(&parts.query),
                },
            ),
        }
    }

    /// Parses a gateway url.
    pub fn from_str(s: &str) -> (r: Result<Self, ParseGatewayURLError>)
        ensures
            gateway_view(r) == parse_gateway_spec(s@),
    {
        match parse_url(s) {
            Err(reason) => Err(ParseGatewayURLError::InvalidURL { s: s.to_owned(), reason }),
            Ok(parts) => Self::from_parts(s, parts),
        }
    }
}

} // verus!
