use vstd::prelude::*;

use super::buffer::put_spec;
use super::ping::PingWorker;
use super::sender::EventStreamSender;
use super::stream::EventStreamErrorKind;
use crate::api::types::GatewayURLInfo;
use crate::ws::client::inner::timeout::ClientStateTimeout;
use crate::ws::client::inner::{
    later, ClientAction, ClientEvent, ClientInner, ClientState, PONG_TIMEOUT,
    STREAMING_STATE_PING_INTERVAL, STREAMING_STATE_PONG_TIMEOUT_MAX_COUNT,
};
use crate::ws::message::{Message, MessageStreamSinkError, SN};

verus! {

/// Events flow: the client reads frames, pings now and then, and counts
/// the pings that stay unanswered.
pub struct ClientStateStreaming {
    /// the gateway that the socket is open to
    pub gateway: GatewayURLInfo,
    /// the sending side of the event stream
    pub sender: EventStreamSender,
    /// the pacing of the pings
    pub ping: PingWorker,
    /// the time by which the last ping must be answered, if one is open
    pub pong_timeout_tick: Option<u64>,
    /// the pings in a row that stayed unanswered
    pub pong_timeout_count: usize,
}

/// Whether `post` and `go_on` are what handling a message makes of the
/// sender `pre`: an event is taken in and what is due is delivered; a
/// reconnect request and a broken stream end the event stream with their
/// error; any other message changes nothing.
pub open spec fn message_handled(
    pre: EventStreamSender,
    data: Result<Message, MessageStreamSinkError>,
    post: EventStreamSender,
    go_on: bool,
) -> bool {
    match data {
        Ok(Message::Event(event)) => {
            let held = put_spec(pre.buffered(), pre.spec_sn(), event);
            &&& go_on == pre.may_go_on(held)
            &&& pre.after_delivery(held, post)
        },
        Ok(Message::Reconnect(reconnect)) => {
            &&& !go_on
            &&& pre.after_error(
                EventStreamErrorKind::Reconnect {
                    code: reconnect.data.code,
                    message: reconnect.data.err,
                },
                post,
            )
        },
        Ok(_) => go_on && post == pre,
        Err(err) => {
            &&& !go_on
            &&& pre.after_error(EventStreamErrorKind::MessageStream { source: err }, post)
        },
    }
}

impl ClientStateStreaming {
    /// The state's invariant: that of the sender, and fewer unanswered
    /// pings than make the link count as degraded.
    pub open spec fn wf(self) -> bool {
        &&& self.sender.wf()
        &&& self.pong_timeout_count < STREAMING_STATE_PONG_TIMEOUT_MAX_COUNT
    }

    /// Whether the time to answer the last ping is over.
    pub open spec fn pong_timed_out(self, now: u64) -> bool {
        self.pong_timeout_tick matches Some(tick) && now >= tick
    }

    /// The earliest time at which the state has something to do.
    pub fn deadline(&self) -> (time: u64)
        ensures
            time == match self.pong_timeout_tick {
                Some(tick) if tick < self.ping.send_ping_tick => tick,
                _ => self.ping.send_ping_tick,
            },
    {
        match self.pong_timeout_tick {
            Some(tick) if tick < self.ping.send_ping_tick => tick,
            _ => self.ping.send_ping_tick,
        }
    }

    /// Moves to the timeout state, which starts at `now`.
    pub fn into_timeout(self, now: u64) -> (timeout: ClientStateTimeout)
        ensures
            timeout == (ClientStateTimeout {
                gateway: self.gateway,
                sender: self.sender,
                pong_timeout_clock: later(now, PONG_TIMEOUT),
                send_ping_delay: 0,
                send_ping_tick: now,
            }),
    {
        ClientStateTimeout {
            gateway: self.gateway,
            sender: self.sender,
            pong_timeout_clock: later(now, PONG_TIMEOUT),
            send_ping_delay: 0,
            send_ping_tick: now,
        }
    }

    /// Handles a message, or the error that broke the stream, and says
    /// whether the engine may go on.
    pub fn on_message(&mut self, data: Result<Message, MessageStreamSinkError>) -> (go_on: bool)
        requires
            old(self).sender.wf(),
        ensures
            final(self).sender.wf(),
            message_handled(old(self).sender, data, final(self).sender, go_on),
            final(self).gateway == old(self).gateway,
            final(self).ping == old(self).ping,
            final(self).pong_timeout_tick == old(self).pong_timeout_tick,
            final(self).pong_timeout_count == old(self).pong_timeout_count,
    {
        match data {
            Ok(message) => {
                match message {
                    Message::Event(data) => self.sender.send_event(data),
                    Message::Reconnect(data) => {
                        self.sender.send_reconnect(data.data);
                        false
                    },
                    Message::ResumeACK(_) => true,
                    // Ignore other message
                    _ => true,
                }
            },
            Err(err) => {
                self.sender.send_message_stream_broken(err);
                false
            },
        }
    }
}

/// Whether `step` is what the client in the streaming state `pre` does
/// with `event` at the time `now`; [`ClientInner::streaming`] says it in
/// words.
pub open spec fn streaming_step(
    pre: ClientInner<ClientStateStreaming>,
    event: ClientEvent,
    now: u64,
    step: (ClientState, ClientAction),
) -> bool {
    match event {
        ClientEvent::Tick => if pre.state.pong_timed_out(now) {
            if pre.state.pong_timeout_count + 1 >= STREAMING_STATE_PONG_TIMEOUT_MAX_COUNT {
                &&& step.1 == ClientAction::Wait
                &&& step.0 == ClientState::Timeout(
                    ClientInner {
                        state: ClientStateTimeout {
                            gateway: pre.state.gateway,
                            sender: pre.state.sender,
                            pong_timeout_clock: later(now, PONG_TIMEOUT),
                            send_ping_delay: 0,
                            send_ping_tick: now,
                        },
                    },
                )
            } else {
                &&& step.1 == ClientAction::Wait
                &&& step.0 == ClientState::Streaming(
                    ClientInner {
                        state: ClientStateStreaming {
                            pong_timeout_tick: None,
                            pong_timeout_count: (pre.state.pong_timeout_count + 1) as usize,
                            ..pre.state
                        },
                    },
                )
            }
        } else if pre.state.ping.due(now) {
            &&& step.1 == ClientAction::Send(
                Message::Ping(SN { sn: pre.state.sender.spec_sn() }),
            )
            &&& step.0 == ClientState::Streaming(
                ClientInner {
                    state: ClientStateStreaming {
                        ping: PingWorker {
                            send_ping_tick: later(
                                pre.state.ping.send_ping_tick,
                                STREAMING_STATE_PING_INTERVAL,
                            ),
                        },
                        pong_timeout_tick: Some(later(now, PONG_TIMEOUT)),
                        ..pre.state
                    },
                },
            )
        } else {
            step == (ClientState::Streaming(pre), ClientAction::Wait)
        },
        ClientEvent::Received(Err(err)) if !err.is_fatal() => step == (
            ClientState::Streaming(pre),
            ClientAction::Wait,
        ),
        ClientEvent::Received(data) => match step.0 {
            ClientState::Streaming(next) => {
                &&& step.1 == ClientAction::Wait
                &&& message_handled(pre.state.sender, data, next.state.sender, true)
                &&& next.state.gateway == pre.state.gateway
                &&& next.state.ping == pre.state.ping
                &&& next.state.pong_timeout_tick is None
                &&& next.state.pong_timeout_count == 0
            },
            ClientState::Stopped(sender) => {
                &&& step.1 == ClientAction::Stop
                &&& message_handled(pre.state.sender, data, sender, false)
            },
            _ => false,
        },
        ClientEvent::SendFailed(err) => {
            &&& step.1 == ClientAction::Stop
            &&& step.0 matches ClientState::Stopped(sender)
            &&& pre.state.sender.after_error(
                EventStreamErrorKind::MessageStream { source: err },
                sender,
            )
        },
        _ => step == (ClientState::Streaming(pre), ClientAction::Wait),
    }
}

/// While the server is silent the client pings every
/// [`STREAMING_STATE_PING_INTERVAL`] seconds, and when two pings in a row
/// have stayed unanswered for [`PONG_TIMEOUT`] seconds each it moves to the
/// timeout state: starting with a ping due at `t` and nothing unanswered,
/// ticks at `t`, six seconds later, thirty seconds after `t` and six
/// seconds later send a ping, count it as unanswered, send the next ping
/// and enter the timeout state.
pub proof fn lemma_silence_escalates(
    start: ClientInner<ClientStateStreaming>,
    t: u64,
    one: (ClientState, ClientAction),
    two: (ClientState, ClientAction),
    three: (ClientState, ClientAction),
    four: (ClientState, ClientAction),
)
    requires
        start.state.pong_timeout_count == 0,
        start.state.pong_timeout_tick is None,
        start.state.ping.send_ping_tick == t,
        t + (STREAMING_STATE_PING_INTERVAL + PONG_TIMEOUT) * 1000 <= u64::MAX,
        streaming_step(start, ClientEvent::Tick, t, one),
        one.0 matches ClientState::Streaming(a) && streaming_step(
            a,
            ClientEvent::Tick,
            later(t, PONG_TIMEOUT),
            two,
        ),
        two.0 matches ClientState::Streaming(b) && streaming_step(
            b,
            ClientEvent::Tick,
            later(t, STREAMING_STATE_PING_INTERVAL),
            three,
        ),
        three.0 matches ClientState::Streaming(c) && streaming_step(
            c,
            ClientEvent::Tick,
            later(later(t, STREAMING_STATE_PING_INTERVAL), PONG_TIMEOUT),
            four,
        ),
    ensures
        one.1 == ClientAction::Send(Message::Ping(SN { sn: start.state.sender.spec_sn() })),
        two.1 == ClientAction::Wait,
        three.1 == ClientAction::Send(Message::Ping(SN { sn: start.state.sender.spec_sn() })),
        four.1 == ClientAction::Wait,
        four.0 == ClientState::Timeout(
            ClientInner {
                state: ClientStateTimeout {
                    gateway: start.state.gateway,
                    sender: start.state.sender,
                    pong_timeout_clock: later(
                        later(later(t, STREAMING_STATE_PING_INTERVAL), PONG_TIMEOUT),
                        PONG_TIMEOUT,
                    ),
                    send_ping_delay: 0,
                    send_ping_tick: later(later(t, STREAMING_STATE_PING_INTERVAL), PONG_TIMEOUT),
                },
            },
        ),
{
}

/// When a ping cannot be written, the engine stops, and the stream ends
/// with an error that names the broken message stream and carries the
/// resume arguments as they stand: their number is that of the last event
/// delivered, or the number that the sender started from.
pub proof fn lemma_failed_ping_ends_the_stream(
    pre: ClientInner<ClientStateStreaming>,
    err: MessageStreamSinkError,
    now: u64,
    step: (ClientState, ClientAction),
)
    requires
        pre.state.wf(),
        pre.state.sender.open(),
        streaming_step(pre, ClientEvent::SendFailed(err), now, step),
    ensures
        step.1 == ClientAction::Stop,
        step.0 matches ClientState::Stopped(sender) && sender.pending().len() > 0
            && sender.pending().last() == Err::<crate::ws::event::Event, _>(
            super::stream::EventStreamError {
                resume: pre.state.sender.spec_resume(),
                source: EventStreamErrorKind::MessageStream { source: err },
            },
        ),
        pre.state.sender.spec_sn() == if pre.state.sender.delivered().len() == 0 {
            pre.state.sender.first_sn()
        } else {
            pre.state.sender.delivered().last()
        },
{
    pre.state.sender.lemma_resume_completeness();
}

/// Only a client that stays in the streaming state sends a ping: the step
/// that leaves the state sends none, so that no ping follows the end of
/// the reading.
pub proof fn lemma_no_ping_on_leaving(
    pre: ClientInner<ClientStateStreaming>,
    event: ClientEvent,
    now: u64,
    step: (ClientState, ClientAction),
)
    requires
        streaming_step(pre, event, now, step),
        !(step.0 is Streaming),
    ensures
        !(step.1 is Send),
{
}

impl ClientInner<ClientStateStreaming> {
    /// Enters the state: what the buffer holds from before is delivered as
    /// far as it is due. The engine stops if the stream does not take it.
    pub fn streaming_start(self) -> (step: (ClientState, ClientAction))
        requires
            self.state.wf(),
        ensures
            step.0.wf(),
            if self.state.sender.may_go_on(self.state.sender.buffered()) {
                &&& step.1 == ClientAction::Wait
                &&& step.0 matches ClientState::Streaming(next)
                &&& self.state.sender.after_delivery(self.state.sender.buffered(), next.state.sender)
                &&& next.state.gateway == self.state.gateway
                &&& next.state.ping == self.state.ping
                &&& next.state.pong_timeout_tick == self.state.pong_timeout_tick
                &&& next.state.pong_timeout_count == self.state.pong_timeout_count
            } else {
                &&& step.1 == ClientAction::Stop
                &&& step.0 matches ClientState::Stopped(sender)
                &&& self.state.sender.after_delivery(self.state.sender.buffered(), sender)
            },
    {
        let mut state = self.state;
        if state.sender.flush() {
            (ClientState::Streaming(ClientInner { state }), ClientAction::Wait)
        } else {
            (ClientState::Stopped(state.sender), ClientAction::Stop)
        }
    }

    /// Takes an event in the streaming state.
    ///
    /// - When the clock has moved on and the time to answer the last ping
    ///   is over, the ping counts as unanswered; with
    ///   [`STREAMING_STATE_PONG_TIMEOUT_MAX_COUNT`] of them in a row the
    ///   client moves to the timeout state. Otherwise, when a ping is due,
    ///   it is sent; its answer is due [`PONG_TIMEOUT`] seconds after
    ///   `now`, and the next ping [`STREAMING_STATE_PING_INTERVAL`] seconds
    ///   after the time at which this one was due.
    /// - An error of the message stream that is not fatal is passed over.
    ///   Any other item of the stream counts as an answer: no ping is open
    ///   or unanswered any more, and the item is handled as
    ///   [`message_handled`] says.
    /// - When a message could not be written, the event stream ends with
    ///   that error.
    /// - Any other event changes nothing.
    pub fn streaming(self, event: ClientEvent, now: u64) -> (step: (ClientState, ClientAction))
        requires
            self.state.wf(),
        ensures
            step.0.wf(),
            streaming_step(self, event, now, step),
    {
        let mut state = self.state;
        match event {
            ClientEvent::Tick => {
                let timed_out = match state.pong_timeout_tick {
                    Some(tick) => now >= tick,
                    None => false,
                };
                if timed_out {
                    state.pong_timeout_count = state.pong_timeout_count + 1;
                    state.pong_timeout_tick = None;
                    if state.pong_timeout_count >= STREAMING_STATE_PONG_TIMEOUT_MAX_COUNT {
                        let client = ClientInner { state: state.into_timeout(now) };
                        client.timeout_start()
                    } else {
                        (ClientState::Streaming(ClientInner { state }), ClientAction::Wait)
                    }
                } else {
                    match state.ping.run(now, &state.sender) {
                        Some((ping, pong_timeout_tick)) => {
                            state.pong_timeout_tick = Some(pong_timeout_tick);
                            (ClientState::Streaming(ClientInner { state }), ClientAction::Send(ping))
                        },
                        None => (ClientState::Streaming(ClientInner { state }), ClientAction::Wait),
                    }
                }
            },
            ClientEvent::Received(data) => {
                let skip = match &data {
                    Err(err) => !err.is_fatal(),
                    Ok(_) => false,
                };
                if skip {
                    return (ClientState::Streaming(ClientInner { state }), ClientAction::Wait);
                }
                state.pong_timeout_tick = None;
                state.pong_timeout_count = 0;
                if state.on_message(data) {
                    (ClientState::Streaming(ClientInner { state }), ClientAction::Wait)
                } else {
                    (ClientState::Stopped(state.sender), ClientAction::Stop)
                }
            },
            ClientEvent::SendFailed(err) => {
                state.sender.send_err(EventStreamErrorKind::MessageStream { source: err });
                (ClientState::Stopped(state.sender), ClientAction::Stop)
            },
            _ => (ClientState::Streaming(ClientInner { state }), ClientAction::Wait),
        }
    }
}

} // verus!
