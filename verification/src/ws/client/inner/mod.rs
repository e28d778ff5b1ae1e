pub mod connected;
pub mod gateway;
pub mod init;
pub mod streaming;
pub mod timeout;

pub use connected::{ClientStateConnected, WaitHelloError};
pub use gateway::{ClientStateGateway, ConnectGatewayError};
pub use init::{ClientStateInit, RunError};
pub use streaming::{
    ClientStateStreaming, EventStream, EventStreamError, EventStreamErrorKind, EventStreamSender,
};
pub use timeout::ClientStateTimeout;

use vstd::prelude::*;

use crate::ws::message::{Message, MessageStreamSinkError};

verus! {

/// Seconds that the server has to answer a ping, and to say hello.
pub const PONG_TIMEOUT: u64 = 6;

/// Seconds between two pings while events flow.
pub const STREAMING_STATE_PING_INTERVAL: u64 = 30;

/// Pings in a row that may stay unanswered before the link counts as
/// degraded.
pub const STREAMING_STATE_PONG_TIMEOUT_MAX_COUNT: usize = 2;

/// Seconds between the first two pings on a degraded link.
pub const TIMEOUT_STATE_SEND_PING_INTERVAL_START: u64 = 2;

/// Seconds between two pings on a degraded link, at most.
pub const TIMEOUT_STATE_SEND_PING_INTERVAL_MAX: u64 = PONG_TIMEOUT;

/// The time `seconds` after `now`, on a clock that counts milliseconds and
/// stops at its last value.
pub open spec fn spec_later(now: u64, seconds: u64) -> u64 {
    if now + seconds * 1000 <= u64::MAX {
        (now + seconds * 1000) as u64
    } else {
        u64::MAX
    }
}

/// The time `seconds` after `now`, on a clock that counts milliseconds and
/// stops at its last value.
#[verifier::when_used_as_spec(spec_later)]
pub fn later(now: u64, seconds: u64) -> (time: u64)
    ensures
        time == spec_later(now, seconds),
{
    match seconds.checked_mul(1000) {
        Some(span) => match now.checked_add(span) {
            Some(time) => time,
            None => u64::MAX,
        },
        None => u64::MAX,
    }
}

/// The client in one state of its life.
pub struct ClientInner<S> {
    /// what the state holds
    pub state: S,
}

/// What happened outside the engine.
#[derive(Debug)]
pub enum ClientEvent {
    /// the socket asked for is open
    Connected,
    /// the socket asked for could not be opened
    ConnectFailed {
        /// what the socket reported
        reason: String,
    },
    /// the message stream gave its next item
    Received(Result<Message, MessageStreamSinkError>),
    /// a message could not be written to the socket
    SendFailed(MessageStreamSinkError),
    /// the clock has moved on
    Tick,
}

/// What the engine asks to be done outside.
#[derive(Debug)]
pub enum ClientAction {
    /// nothing, but to come back with the next event or at the deadline
    Wait,
    /// drop the open socket, if there is one, and open one to `url`
    Connect {
        /// the gateway's url
        url: String,
    },
    /// tell the caller of run that the stream is established
    Established,
    /// write the message to the socket
    Send(Message),
    /// tell the caller of run that it failed, and drop the socket
    Failed(RunError),
    /// drop the socket: the engine has stopped, and the stream's last item
    /// says why unless its consumer dropped it
    Stop,
}

/// The states of the client's life.
pub enum ClientState {
    /// before the run
    Init(ClientInner<ClientStateInit>),
    /// opening the first socket
    Gateway(ClientInner<ClientStateGateway>),
    /// waiting for the first hello
    Connected(ClientInner<ClientStateConnected>),
    /// events flow
    Streaming(ClientInner<ClientStateStreaming>),
    /// the link is degraded
    Timeout(ClientInner<ClientStateTimeout>),
    /// opening a socket again, to resume
    Reconnecting(ClientInner<ClientStateGateway>, EventStreamSender),
    /// waiting for the hello that resumes
    Rejoined(ClientInner<ClientStateConnected>, EventStreamSender),
    /// the run failed before the stream was established
    Failed,
    /// the engine has stopped; the sender holds what the consumer has not
    /// taken yet
    Stopped(EventStreamSender),
}

impl ClientState {
    /// The invariant of the state's parts.
    pub open spec fn wf(self) -> bool {
        match self {
            ClientState::Streaming(client) => client.state.wf(),
            ClientState::Timeout(client) => client.state.sender.wf(),
            ClientState::Reconnecting(_, sender) => sender.wf(),
            ClientState::Rejoined(_, sender) => sender.wf(),
            ClientState::Stopped(sender) => sender.wf(),
            _ => true,
        }
    }
}

} // verus!
