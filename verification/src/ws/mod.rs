//! Kaiheila websocket protocol: events, messages and the client engine.

pub mod client;
pub mod event;
pub mod message;

pub use event::Event;
pub use message::Message;
