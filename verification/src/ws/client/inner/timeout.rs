use vstd::prelude::*;

use super::gateway::ClientStateGateway;
use super::streaming::buffer::put_spec;
use super::streaming::ping::PingWorker;
use super::streaming::{ClientStateStreaming, EventStreamErrorKind, EventStreamSender};
use super::{
    later, ClientAction, ClientEvent, ClientInner, ClientState,
    TIMEOUT_STATE_SEND_PING_INTERVAL_MAX, TIMEOUT_STATE_SEND_PING_INTERVAL_START,
};
use crate::api::types::{url_spec, GatewayURLInfo};
use crate::ws::message::{Message, MessageStreamSinkError, SN};

verus! {

/// The link is degraded: the client pings at short intervals and waits for
/// any frame until the time is over.
pub struct ClientStateTimeout {
    /// the gateway that the socket is open to
    pub gateway: GatewayURLInfo,
    /// the sending side of the event stream
    pub sender: EventStreamSender,
    /// the time at which the client gives the link up
    pub pong_timeout_clock: u64,
    /// seconds between the last two pings
    pub send_ping_delay: u64,
    /// when the next ping is due
    pub send_ping_tick: u64,
}

/// The seconds to wait after a ping that followed the one before after
/// `delay` seconds: twice as long, but no less than
/// [`TIMEOUT_STATE_SEND_PING_INTERVAL_START`] and no more than
/// [`TIMEOUT_STATE_SEND_PING_INTERVAL_MAX`].
pub open spec fn spec_next_delay(delay: u64) -> u64 {
    if delay * 2 < TIMEOUT_STATE_SEND_PING_INTERVAL_START {
        TIMEOUT_STATE_SEND_PING_INTERVAL_START
    } else if delay * 2 > TIMEOUT_STATE_SEND_PING_INTERVAL_MAX {
        TIMEOUT_STATE_SEND_PING_INTERVAL_MAX
    } else {
        (delay * 2) as u64
    }
}

/// The seconds to wait after a ping that followed the one before after
/// `delay` seconds.
#[verifier::when_used_as_spec(spec_next_delay)]
pub fn next_delay(delay: u64) -> (next: u64)
    ensures
        next == spec_next_delay(delay),
        TIMEOUT_STATE_SEND_PING_INTERVAL_START <= next <= TIMEOUT_STATE_SEND_PING_INTERVAL_MAX,
{
    match delay.checked_mul(2) {
        Some(doubled) => {
            if doubled < TIMEOUT_STATE_SEND_PING_INTERVAL_START {
                TIMEOUT_STATE_SEND_PING_INTERVAL_START
            } else if doubled > TIMEOUT_STATE_SEND_PING_INTERVAL_MAX {
                TIMEOUT_STATE_SEND_PING_INTERVAL_MAX
            } else {
                doubled
            }
        },
        None => TIMEOUT_STATE_SEND_PING_INTERVAL_MAX,
    }
}

/// The buffer after a message came in the timeout state: an event is held
/// back, any other message leaves the buffer as it is.
pub open spec fn held_after(sender: EventStreamSender, message: Message) -> Seq<
    crate::ws::event::EventData,
> {
    match message {
        Message::Event(event) => put_spec(sender.buffered(), sender.spec_sn(), event),
        _ => sender.buffered(),
    }
}

/// Whether `step` is what the client in the state `pre` does when a frame
/// shows that the link is alive: it goes back to streaming, with a ping due
/// at once, and delivers what its buffer `held` has that is due; it stops
/// where the stream does not take what is due.
pub open spec fn recovered(
    pre: ClientStateTimeout,
    held: Seq<crate::ws::event::EventData>,
    now: u64,
    step: (ClientState, ClientAction),
) -> bool {
    if pre.sender.may_go_on(held) {
        &&& step.1 == ClientAction::Wait
        &&& step.0 matches ClientState::Streaming(next)
        &&& pre.sender.after_delivery(held, next.state.sender)
        &&& next.state.gateway == pre.gateway
        &&& next.state.ping == (PingWorker { send_ping_tick: now })
        &&& next.state.pong_timeout_tick is None
        &&& next.state.pong_timeout_count == 0
    } else {
        &&& step.1 == ClientAction::Stop
        &&& step.0 matches ClientState::Stopped(sender)
        &&& pre.sender.after_delivery(held, sender)
    }
}

/// Whether `post` is the sender `pre` after its stream ended because the
/// address of `gateway` cannot be written as a url to connect to.
pub open spec fn reconnect_failed(
    pre: EventStreamSender,
    gateway: GatewayURLInfo,
    post: EventStreamSender,
) -> bool {
    exists|source: super::gateway::ConnectGatewayError|
        super::gateway::unwritable(gateway, source) && #[trigger] pre.after_error(
            EventStreamErrorKind::ReConnectGatewayFailed { source },
            post,
        )
}

/// Whether `step` is what the client in the state `pre` does to connect
/// again: it asks for a socket to the gateway's url with the resume
/// arguments as they stand in it, or ends the stream where that url cannot
/// be written.
pub open spec fn reconnected(pre: ClientStateTimeout, step: (ClientState, ClientAction)) -> bool {
    let gateway = GatewayURLInfo { resume: Some(pre.sender.spec_resume()), ..pre.gateway };
    match url_spec(gateway@) {
        Some(text) => {
            &&& step.0 == ClientState::Reconnecting(
                ClientInner { state: ClientStateGateway { gateway, retried: false } },
                pre.sender,
            )
            &&& step.1 matches ClientAction::Connect { url }
            &&& url@ == text
        },
        None => {
            &&& step.1 == ClientAction::Stop
            &&& step.0 matches ClientState::Stopped(sender)
            &&& reconnect_failed(pre.sender, gateway, sender)
        },
    }
}

/// Whether `step` is what the client in the timeout state `pre` does with
/// `event` at the time `now`; [`ClientStateTimeout::waiting`] says it in
/// words.
pub open spec fn waiting_step(
    pre: ClientStateTimeout,
    event: ClientEvent,
    now: u64,
    step: (ClientState, ClientAction),
) -> bool {
    match event {
        ClientEvent::Tick => if pre.given_up(now) {
            reconnected(pre, step)
        } else if pre.due(now) {
            &&& step.1 == ClientAction::Send(Message::Ping(SN { sn: pre.sender.spec_sn() }))
            &&& step.0 == ClientState::Timeout(
                ClientInner {
                    state: ClientStateTimeout {
                        send_ping_delay: next_delay(pre.send_ping_delay),
                        send_ping_tick: later(now, next_delay(pre.send_ping_delay)),
                        ..pre
                    },
                },
            )
        } else {
            step == (ClientState::Timeout(ClientInner { state: pre }), ClientAction::Wait)
        },
        ClientEvent::Received(Err(err)) if !err.is_fatal() => step == (
            ClientState::Timeout(ClientInner { state: pre }),
            ClientAction::Wait,
        ),
        ClientEvent::Received(Ok(Message::Reconnect(reconnect))) => {
            &&& step.1 == ClientAction::Stop
            &&& step.0 matches ClientState::Stopped(sender)
            &&& pre.sender.after_error(
                EventStreamErrorKind::Reconnect {
                    code: reconnect.data.code,
                    message: reconnect.data.err,
                },
                sender,
            )
        },
        ClientEvent::Received(Ok(other)) => recovered(
            pre,
            held_after(pre.sender, other),
            now,
            step,
        ),
        ClientEvent::Received(Err(err)) => {
            &&& step.1 == ClientAction::Stop
            &&& step.0 matches ClientState::Stopped(sender)
            &&& pre.sender.after_error(
                EventStreamErrorKind::MessageStream { source: err },
                sender,
            )
        },
        ClientEvent::SendFailed(err) => {
            &&& step.1 == ClientAction::Stop
            &&& step.0 matches ClientState::Stopped(sender)
            &&& pre.sender.after_error(
                EventStreamErrorKind::MessageStream { source: err },
                sender,
            )
        },
        _ => step == (ClientState::Timeout(ClientInner { state: pre }), ClientAction::Wait),
    }
}

impl ClientStateTimeout {
    /// Whether the client gives the link up.
    pub open spec fn given_up(self, now: u64) -> bool {
        now >= self.pong_timeout_clock
    }

    /// Whether a ping is due.
    pub open spec fn due(self, now: u64) -> bool {
        now >= self.send_ping_tick
    }

    /// The earliest time at which the state has something to do.
    pub fn deadline(&self) -> (time: u64)
        ensures
            time == if self.pong_timeout_clock < self.send_ping_tick {
                self.pong_timeout_clock
            } else {
                self.send_ping_tick
            },
    {
        if self.pong_timeout_clock < self.send_ping_tick {
            self.pong_timeout_clock
        } else {
            self.send_ping_tick
        }
    }

    /// Moves back to the streaming state, which starts at `now`.
    pub fn into_streaming(self, now: u64) -> (streaming: ClientStateStreaming)
        ensures
            streaming == (ClientStateStreaming {
                gateway: self.gateway,
                sender: self.sender,
                ping: PingWorker { send_ping_tick: now },
                pong_timeout_tick: None,
                pong_timeout_count: 0,
            }),
    {
        ClientStateStreaming {
            gateway: self.gateway,
            sender: self.sender,
            ping: PingWorker::new(now),
            pong_timeout_tick: None,
            pong_timeout_count: 0,
        }
    }

    /// Gives the link up and connects again, to resume the session.
    pub fn reconnect(self) -> (step: (ClientState, ClientAction))
        requires
            self.sender.wf(),
        ensures
            step.0.wf(),
            reconnected(self, step),
    {
        let mut gateway = self.gateway;
        let mut sender = self.sender;
        gateway.resume = Some(sender.resume().clone());
        assert(gateway == (GatewayURLInfo {
            resume: Some(self.sender.spec_resume()),
            ..self.gateway
        }));
        let client = ClientInner { state: ClientStateGateway { gateway, retried: false } };
        match client.start() {
            Ok(url) => {
                assert(url_spec(gateway@) == Some(url@));
                (ClientState::Reconnecting(client, sender), ClientAction::Connect { url })
            },
            Err(source) => {
                let ghost failed = source;
                sender.send_err(EventStreamErrorKind::ReConnectGatewayFailed { source });
                assert(super::gateway::unwritable(gateway, failed));
                assert(self.sender.after_error(
                    EventStreamErrorKind::ReConnectGatewayFailed { source: failed },
                    sender,
                ));
                assert(reconnect_failed(self.sender, gateway, sender));
                (ClientState::Stopped(sender), ClientAction::Stop)
            },
        }
    }

    /// Handles a message, or the error that broke the stream. A reconnect
    /// request and a broken stream end the event stream with their error.
    /// Any other message shows that the link is alive: an event is held
    /// back, and the client goes back to streaming.
    pub fn on_message(self, message: Result<Message, MessageStreamSinkError>, now: u64) -> (step: (
        ClientState,
        ClientAction,
    ))
        requires
            self.sender.wf(),
        ensures
            step.0.wf(),
            match message {
                Ok(Message::Reconnect(reconnect)) => {
                    &&& step.1 == ClientAction::Stop
                    &&& step.0 matches ClientState::Stopped(sender)
                    &&& self.sender.after_error(
                        EventStreamErrorKind::Reconnect {
                            code: reconnect.data.code,
                            message: reconnect.data.err,
                        },
                        sender,
                    )
                },
                Ok(other) => recovered(self, held_after(self.sender, other), now, step),
                Err(err) => {
                    &&& step.1 == ClientAction::Stop
                    &&& step.0 matches ClientState::Stopped(sender)
                    &&& self.sender.after_error(
                        EventStreamErrorKind::MessageStream { source: err },
                        sender,
                    )
                },
            },
    {
        let mut state = self;
        match message {
            Ok(message) => {
                match message {
                    Message::Reconnect(data) => {
                        state.sender.send_reconnect(data.data);
                        (ClientState::Stopped(state.sender), ClientAction::Stop)
                    },
                    Message::Event(data) => {
                        state.sender.put(data);
                        let client = ClientInner { state: state.into_streaming(now) };
                        client.streaming_start()
                    },
                    _ => {
                        let client = ClientInner { state: state.into_streaming(now) };
                        client.streaming_start()
                    },
                }
            },
            Err(err) => {
                state.sender.send_message_stream_broken(err);
                (ClientState::Stopped(state.sender), ClientAction::Stop)
            },
        }
    }

    /// Takes an event in the timeout state.
    ///
    /// - When the clock has moved on and the time of the state is over, the
    ///   client connects again, see [`reconnected`]. Otherwise, when a ping
    ///   is due, it is sent, and the next one is due after a delay that
    ///   doubles from ping to ping, see [`spec_next_delay`].
    /// - An error of the message stream that is not fatal is passed over.
    ///   Any other item of the stream is handled as
    ///   [`ClientStateTimeout::on_message`] says.
    /// - When a message could not be written, the event stream ends with
    ///   that error.
    /// - Any other event changes nothing.
    pub fn waiting(self, event: ClientEvent, now: u64) -> (step: (ClientState, ClientAction))
        requires
            self.sender.wf(),
        ensures
            step.0.wf(),
            waiting_step(self, event, now, step),
    {
        let mut state = self;
        match event {
            ClientEvent::Tick => {
                if now >= state.pong_timeout_clock {
                    state.reconnect()
                } else if now >= state.send_ping_tick {
                    let ping = state.sender.ping();
                    state.send_ping_delay = next_delay(state.send_ping_delay);
                    state.send_ping_tick = later(now, state.send_ping_delay);
                    (ClientState::Timeout(ClientInner { state }), ClientAction::Send(ping))
                } else {
                    (ClientState::Timeout(ClientInner { state }), ClientAction::Wait)
                }
            },
            ClientEvent::Received(data) => {
                let skip = match &data {
                    Err(err) => !err.is_fatal(),
                    Ok(_) => false,
                };
                if skip {
                    (ClientState::Timeout(ClientInner { state }), ClientAction::Wait)
                } else {
                    state.on_message(data, now)
                }
            },
            ClientEvent::SendFailed(err) => {
                state.sender.send_err(EventStreamErrorKind::MessageStream { source: err });
                (ClientState::Stopped(state.sender), ClientAction::Stop)
            },
            _ => (ClientState::Timeout(ClientInner { state }), ClientAction::Wait),
        }
    }
}

impl ClientInner<ClientStateTimeout> {
    /// Enters the state. There is nothing to do: the first ping is due at
    /// once, and the clock's next tick sends it.
    pub fn timeout_start(self) -> (step: (ClientState, ClientAction))
        requires
            self.state.sender.wf(),
        ensures
            step == (ClientState::Timeout(self), ClientAction::Wait),
    {
        (ClientState::Timeout(self), ClientAction::Wait)
    }
}

} // verus!
