//! URLs, parsed and written by the `url` crate.

use vstd::prelude::*;

verus! {

/// The parts of a parsed URL that this library reads.
#[derive(Debug)]
pub struct UrlParts {
    /// the scheme, in lower case
    pub scheme: String,
    /// the host, as the URL writes it
    pub host: Option<String>,
    /// the port, unless it is the scheme's default
    pub port: Option<u16>,
    /// the path
    pub path: String,
    /// the query's pairs, decoded, in their order
    pub query: Vec<(String, String)>,
}

/// Mathematical value of a [`UrlParts`].
pub ghost struct UrlPartsView {
    pub scheme: Seq<char>,
    pub host: Option<Seq<char>>,
    pub port: Option<u16>,
    pub path: Seq<char>,
    pub query: Seq<(Seq<char>, Seq<char>)>,
}

/// Mathematical value of a list of pairs.
pub open spec fn pairs_view(pairs: Seq<(String, String)>) -> Seq<(Seq<char>, Seq<char>)> {
    pairs.map_values(|p: (String, String)| (p.0@, p.1@))
}

impl View for UrlParts {
    type V = UrlPartsView;

    open spec fn view(&self) -> UrlPartsView {
        UrlPartsView {
            scheme: self.scheme@,
            host: crate::json::text_view(self.host),
            port: self.port,
            path: self.path@,
            query: pairs_view(self.query@),
        }
    }
}

/// Mathematical value of what parsing a URL gave.
pub open spec fn parsed_view(r: Result<UrlParts, String>) -> Result<UrlPartsView, Seq<char>> {
    match r {
        Ok(parts) => Ok(parts@),
        Err(reason) => Err(reason@),
    }
}

/// The parts that the `url` crate parses `s` into, or its reason to refuse.
pub uninterp spec fn url_parse(s: Seq<char>) -> Result<UrlPartsView, Seq<char>>;

/// Calls `url::Url::parse` and reads the result's `scheme`, `host`, `port`,
/// `path` and `query_pairs`.
///
/// Trusted: the result is the named value [`url_parse`] of the argument.
#[verifier::external_body]
pub(crate) fn parse_url(s: &str) -> (r: Result<UrlParts, String>)
    ensures
        parsed_view(r) == url_parse(s@),
{
    match url::Url::parse(s) {
        Err(e) => Err(e.to_string()),
        Ok(u) => Ok(UrlParts {
            scheme: u.scheme().to_string(),
            host: u.host().map(|h| h.to_string()),
            port: u.port(),
            path: u.path().to_string(),
            query: u.query_pairs().into_owned().collect(),
        }),
    }
}

/// The URL that the `url` crate writes for the address `base` with the port
/// set to `port` and the pairs of `query` appended to its query; `None`
/// where it does not parse `base`.
pub uninterp spec fn url_text(
    base: Seq<char>,
    port: Option<u16>,
    query: Seq<(Seq<char>, Seq<char>)>,
) -> Option<Seq<char>>;

/// Calls `url::Url::parse` on `base`, then `set_port`, then
/// `query_pairs_mut().extend_pairs`, and prints the result.
///
/// Trusted: the result is the named value [`url_text`] of the arguments.
#[verifier::external_body]
pub(crate) fn build_url(base: &str, port: Option<u16>, query: &Vec<(String, String)>) -> (r: Option<
    String,
>)
    ensures
        crate::json::text_view(r) == url_text(base@, port, pairs_view(query@)),
{
    let mut u = url::Url::parse(base).ok()?;
    let _ = u.set_port(port);
    u.query_pairs_mut().extend_pairs(query.iter());
    Some(u.into())
}

} // verus!
