//! # Burz
//!
//! A Kaiheila bot framework whose gateway protocol engine is a verified,
//! I/O-free state machine.

pub mod api;
pub mod bot;
pub mod error;
pub mod filter;
pub mod json;
pub mod text;
pub mod ws;
pub mod zlib;

pub use bot::Bot;
pub use error::{Error, Result};
pub use filter::{Filter, FilterExt};
