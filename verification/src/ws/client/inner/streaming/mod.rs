pub mod buffer;
pub mod ping;
pub mod sender;
pub mod state;
pub mod stream;

pub use buffer::EventBuffer;
pub use ping::PingWorker;
pub use sender::EventStreamSender;
pub use state::ClientStateStreaming;
pub use stream::{
    EventStream, EventStreamError, EventStreamErrorKind, EventStreamItem, EVENT_STREAM_CAPACITY,
};
