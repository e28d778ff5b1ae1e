//! framework error types

use vstd::prelude::*;

use crate::api::types::ParseGatewayURLError;
use crate::api::Error as APIError;
use crate::ws::client::RunError;

verus! {

/// framework result type
pub type Result<T> = std::result::Result<T, Error>;

/// framework error type
#[derive(Debug)]
pub enum Error {
    /// Call kaiheila api failed
    CallAPIFailed {
        /// source error
        source: APIError,
    },
    /// Received invalid websocket gateway url address
    InvalidGatewayURL {
        /// received url
        url: String,
        /// source error
        source: ParseGatewayURLError,
    },
    /// Run websocket client failed
    RunWebsocketClientFailed {
        /// source error
        source: RunError,
    },
}

} // verus!
