//! kaiheila api

pub mod address;
pub mod client;
pub mod error;
pub mod types;

pub use client::Client;
pub use error::Error;

use vstd::prelude::*;

verus! {

/// Result type for api module
pub type Result<T> = std::result::Result<T, Error>;

} // verus!
