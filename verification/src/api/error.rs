use vstd::prelude::*;

verus! {

/// API Error
#[derive(Debug)]
pub enum Error {
    /// bot token is invalid(contains invalid character that cant be send in HTTP header)
    TokenInvalid {
        /// input token
        token: String,
    },
    /// create HTTP client failed
    ClientCreateFailed {
        /// what the HTTP client reported
        reason: String,
    },
    /// build api request failed
    BuildRequestFailed {
        /// what the HTTP client reported
        reason: String,
    },
    /// send api request failed
    RequestFailed {
        /// http method
        method: String,
        /// target url
        url: String,
        /// what the HTTP client reported
        reason: String,
    },
    /// http response of api request is not OK(200)
    HTTPStatusNotOK {
        /// http method
        method: String,
        /// request url
        url: String,
        /// received http status code
        status_code: u16,
    },
    /// parse response body of api request as target json type failed
    ParseBodyFailed {
        /// http response body
        body: Vec<u8>,
        /// the parser's message, or the member that is missing or of the
        /// wrong type
        reason: String,
    },
    /// api response code is not zero
    CodeNotZero {
        /// received response code
        code: i64,
        /// received message
        message: String,
    },
}

} // verus!
