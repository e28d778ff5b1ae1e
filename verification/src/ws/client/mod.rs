//! The gateway protocol engine.
//!
//! The engine does no input or output. Its caller opens the socket, reads
//! and writes frames and watches the clock; the engine takes what happened
//! as an event, moves to its next state and says what to do next.

pub mod inner;

pub use inner::{
    ClientAction, ClientEvent, ConnectGatewayError, EventStream, EventStreamError,
    EventStreamErrorKind, RunError, WaitHelloError,
};

use vstd::prelude::*;

use crate::api::types::{GatewayResumeArguments, GatewayURLInfo};
use inner::connected::{re_wait_hello_step, wait_hello_step};
use inner::gateway::{connecting_step, reconnecting_step};
use inner::init::run_step;
use inner::streaming::state::streaming_step;
use inner::streaming::stream::EventStreamItem;
use inner::streaming::EventStreamSender;
use inner::timeout::waiting_step;
use inner::{ClientInner, ClientState, ClientStateInit};

verus! {

/// Kaiheila websocket protocol client, it will follow the official state machine at:
/// <https://developer.kaiheila.cn/doc/websocket#Gateway>
pub struct Client {
    state: ClientState,
}

/// Whether `step` is what the client in the state `pre` does with `event`
/// at the time `now`. Each state has its own rule; a client that has not
/// started, has failed or has stopped does nothing.
pub open spec fn client_step(
    pre: ClientState,
    event: ClientEvent,
    now: u64,
    step: (ClientState, ClientAction),
) -> bool {
    match pre {
        ClientState::Gateway(client) => connecting_step(client, event, now, step),
        ClientState::Connected(client) => wait_hello_step(client, event, now, step),
        ClientState::Streaming(client) => streaming_step(client, event, now, step),
        ClientState::Timeout(client) => waiting_step(client.state, event, now, step),
        ClientState::Reconnecting(client, sender) => reconnecting_step(
            client,
            sender,
            event,
            now,
            step,
        ),
        ClientState::Rejoined(client, sender) => re_wait_hello_step(
            client,
            sender,
            event,
            now,
            step,
        ),
        _ => step == (pre, ClientAction::Wait),
    }
}

/// The sender of a state, once the stream is established.
pub open spec fn sender_of(state: ClientState) -> Option<EventStreamSender> {
    match state {
        ClientState::Streaming(client) => Some(client.state.sender),
        ClientState::Timeout(client) => Some(client.state.sender),
        ClientState::Reconnecting(_, sender) => Some(sender),
        ClientState::Rejoined(_, sender) => Some(sender),
        ClientState::Stopped(sender) => Some(sender),
        _ => None,
    }
}

/// The state with `sender` in place of its own.
pub open spec fn with_sender(state: ClientState, sender: EventStreamSender) -> ClientState {
    match state {
        ClientState::Streaming(client) => ClientState::Streaming(
            ClientInner { state: inner::ClientStateStreaming { sender, ..client.state } },
        ),
        ClientState::Timeout(client) => ClientState::Timeout(
            ClientInner { state: inner::ClientStateTimeout { sender, ..client.state } },
        ),
        ClientState::Reconnecting(client, _) => ClientState::Reconnecting(client, sender),
        ClientState::Rejoined(client, _) => ClientState::Rejoined(client, sender),
        ClientState::Stopped(_) => ClientState::Stopped(sender),
        _ => state,
    }
}

/// The time at which a state wants the clock's next tick, if it waits for
/// one: the deadline of the hello, or the earlier of the next ping and the
/// end of the wait for an answer.
pub open spec fn deadline_of(state: ClientState) -> Option<u64> {
    match state {
        ClientState::Connected(client) => Some(client.state.deadline),
        ClientState::Rejoined(client, _) => Some(client.state.deadline),
        ClientState::Streaming(client) => Some(
            match client.state.pong_timeout_tick {
                Some(tick) if tick < client.state.ping.send_ping_tick => tick,
                _ => client.state.ping.send_ping_tick,
            },
        ),
        ClientState::Timeout(client) => Some(
            if client.state.pong_timeout_clock < client.state.send_ping_tick {
                client.state.pong_timeout_clock
            } else {
                client.state.send_ping_tick
            },
        ),
        _ => None,
    }
}

/// A client that has stopped or failed stays so and asks for nothing more:
/// no ping leaves once the reading has ended.
pub proof fn lemma_stopped_is_final(
    pre: ClientState,
    event: ClientEvent,
    now: u64,
    step: (ClientState, ClientAction),
)
    requires
        pre is Stopped || pre is Failed,
        client_step(pre, event, now, step),
    ensures
        step.0 == pre,
        step.1 == ClientAction::Wait,
{
}

/// Whether the log `before` of what was delivered is the beginning of the
/// log `after`.
pub open spec fn log_grows(before: Seq<u64>, after: Seq<u64>) -> bool {
    before.len() <= after.len() && after.take(before.len() as int) == before
}

/// No step of the client loses or rewrites what was delivered: once the
/// stream is established the client keeps its sender in every state, the
/// number that the sender started from stays, and the log of the serial
/// numbers delivered only grows at its end. With the sender's invariant,
/// which every step keeps, the events of a whole run thus reach the
/// consumer in the order of their numbers, none twice and none skipped.
pub proof fn lemma_step_keeps_the_log(
    pre: ClientState,
    event: ClientEvent,
    now: u64,
    step: (ClientState, ClientAction),
)
    requires
        pre.wf(),
        client_step(pre, event, now, step),
        sender_of(pre) is Some,
    ensures
        sender_of(step.0) is Some,
        sender_of(step.0)->0.wf(),
        sender_of(step.0)->0.first_sn() == sender_of(pre)->0.first_sn(),
        log_grows(sender_of(pre)->0.delivered(), sender_of(step.0)->0.delivered()),
{
    let before = sender_of(pre)->0.delivered();
    let after = sender_of(step.0)->0.delivered();
    assert(after.take(before.len() as int) =~= before);
}

impl Default for Client {
    fn default() -> (client: Self)
        ensures
            client.wf(),
            client.state() == ClientState::Init(
                ClientInner { state: ClientStateInit { resume: None } },
            ),
    {
        Self::new()
    }
}

impl Client {
    /// The state that the client is in.
    pub closed spec fn state(&self) -> ClientState {
        self.state
    }

    /// The client's invariant: that of its state.
    pub open spec fn wf(&self) -> bool {
        self.state().wf()
    }

    /// Create a new client
    pub fn new() -> (client: Self)
        ensures
            client.wf(),
            client.state() == ClientState::Init(
                ClientInner { state: ClientStateInit { resume: None } },
            ),
    {
        Self { state: ClientState::Init(ClientInner { state: ClientStateInit { resume: None } }) }
    }

    /// Create a client and resume from last session
    pub fn resume(args: GatewayResumeArguments) -> (client: Self)
        ensures
            client.wf(),
            client.state() == ClientState::Init(
                ClientInner { state: ClientStateInit { resume: Some(args) } },
            ),
    {
        Self {
            state: ClientState::Init(ClientInner { state: ClientStateInit { resume: Some(args) } }),
        }
    }

    /// start running the client in given gateway: a client that has not
    /// started does what [`run_step`] says, any other does nothing.
    pub fn run(&mut self, gateway: GatewayURLInfo) -> (action: ClientAction)
        requires
            old(self).wf(),
        ensures
            final(self).wf(),
            match old(self).state() {
                ClientState::Init(client) => run_step(client, gateway, (final(self).state(), action)),
                _ => final(self).state() == old(self).state() && action == ClientAction::Wait,
            },
    {
        let mut state = ClientState::Failed;
        core::mem::swap(&mut self.state, &mut state);
        let (next, action) = match state {
            ClientState::Init(client) => client.run(gateway),
            other => (other, ClientAction::Wait),
        };
        self.state = next;
        action
    }

    /// Takes what happened at the time `now`, moves to the next state and
    /// says what to do.
    pub fn handle(&mut self, event: ClientEvent, now: u64) -> (action: ClientAction)
        requires
            old(self).wf(),
        ensures
            final(self).wf(),
            client_step(old(self).state(), event, now, (final(self).state(), action)),
    {
        let mut state = ClientState::Failed;
        core::mem::swap(&mut self.state, &mut state);
        let (next, action) = match state {
            ClientState::Gateway(client) => client.connecting(event, now),
            ClientState::Connected(client) => client.wait_hello(event, now),
            ClientState::Streaming(client) => client.streaming(event, now),
            ClientState::Timeout(client) => client.state.waiting(event, now),
            ClientState::Reconnecting(client, sender) => client.reconnecting(sender, event, now),
            ClientState::Rejoined(client, sender) => client.re_wait_hello(sender, event, now),
            other => (other, ClientAction::Wait),
        };
        self.state = next;
        action
    }

    /// The time at which the client wants the clock's next tick, if it
    /// waits for one.
    pub fn deadline(&self) -> (time: Option<u64>)
        ensures
            time == deadline_of(self.state()),
    {
        match &self.state {
            ClientState::Connected(client) => Some(client.state.deadline),
            ClientState::Rejoined(client, _) => Some(client.state.deadline),
            ClientState::Streaming(client) => Some(client.state.deadline()),
            ClientState::Timeout(client) => Some(client.state.deadline()),
            _ => None,
        }
    }

    /// Whether events flow or the client works to make them flow again.
    pub fn is_running(&self) -> (running: bool)
        ensures
            running == !(self.state() is Init || self.state() is Failed || self.state() is Stopped),
    {
        match &self.state {
            ClientState::Init(_) => false,
            ClientState::Failed => false,
            ClientState::Stopped(_) => false,
            _ => true,
        }
    }

    /// The resume arguments as they stand, once the stream is established.
    pub fn resume_arguments(&self) -> (resume: Option<&GatewayResumeArguments>)
        ensures
            match resume {
                Some(r) => sender_of(self.state()) matches Some(sender) && *r
                    == sender.spec_resume(),
                None => sender_of(self.state()) is None,
            },
    {
        match &self.state {
            ClientState::Streaming(client) => Some(client.state.sender.resume()),
            ClientState::Timeout(client) => Some(client.state.sender.resume()),
            ClientState::Reconnecting(_, sender) => Some(sender.resume()),
            ClientState::Rejoined(_, sender) => Some(sender.resume()),
            ClientState::Stopped(sender) => Some(sender.resume()),
            _ => None,
        }
    }

    /// Takes the oldest item out of the event stream, as its consumer
    /// does.
    pub fn next(&mut self) -> (item: Option<EventStreamItem>)
        requires
            old(self).wf(),
        ensures
            final(self).wf(),
            match sender_of(old(self).state()) {
                Some(sender) => exists|post: EventStreamSender| #[trigger]
                    sender.after_next(item, post) && final(self).state() == with_sender(
                        old(self).state(),
                        post,
                    ),
                None => item is None && final(self).state() == old(self).state(),
            },
    {
        let mut state = ClientState::Failed;
        core::mem::swap(&mut self.state, &mut state);
        let ghost before = state;
        let (next, item) = match state {
            ClientState::Streaming(client) => {
                let mut inner = client.state;
                let item = inner.sender.next();
                (ClientState::Streaming(ClientInner { state: inner }), item)
            },
            ClientState::Timeout(client) => {
                let mut inner = client.state;
                let item = inner.sender.next();
                (ClientState::Timeout(ClientInner { state: inner }), item)
            },
            ClientState::Reconnecting(client, sender) => {
                let mut sender = sender;
                let item = sender.next();
                (ClientState::Reconnecting(client, sender), item)
            },
            ClientState::Rejoined(client, sender) => {
                let mut sender = sender;
                let item = sender.next();
                (ClientState::Rejoined(client, sender), item)
            },
            ClientState::Stopped(sender) => {
                let mut sender = sender;
                let item = sender.next();
                (ClientState::Stopped(sender), item)
            },
            other => (other, None),
        };
        proof {
            if sender_of(before) is Some {
                let post = sender_of(next)->0;
                assert(sender_of(before)->0.after_next(item, post));
                assert(next == with_sender(before, post));
            }
        }
        self.state = next;
        item
    }

    /// Drops the event stream, as its consumer does to stop the engine:
    /// from now on the stream takes nothing in, and the engine stops when
    /// it next has something to deliver.
    pub fn cancel(&mut self)
        requires
            old(self).wf(),
        ensures
            final(self).wf(),
            match sender_of(old(self).state()) {
                Some(sender) => exists|post: EventStreamSender| #[trigger]
                    sender.after_cancel(post) && final(self).state() == with_sender(
                        old(self).state(),
                        post,
                    ),
                None => final(self).state() == old(self).state(),
            },
    {
        let mut state = ClientState::Failed;
        core::mem::swap(&mut self.state, &mut state);
        let ghost before = state;
        let next = match state {
            ClientState::Streaming(client) => {
                let mut inner = client.state;
                inner.sender.cancel();
                ClientState::Streaming(ClientInner { state: inner })
            },
            ClientState::Timeout(client) => {
                let mut inner = client.state;
                inner.sender.cancel();
                ClientState::Timeout(ClientInner { state: inner })
            },
            ClientState::Reconnecting(client, sender) => {
                let mut sender = sender;
                sender.cancel();
                ClientState::Reconnecting(client, sender)
            },
            ClientState::Rejoined(client, sender) => {
                let mut sender = sender;
                sender.cancel();
                ClientState::Rejoined(client, sender)
            },
            ClientState::Stopped(sender) => {
                let mut sender = sender;
                sender.cancel();
                ClientState::Stopped(sender)
            },
            other => other,
        };
        proof {
            if sender_of(before) is Some {
                let post = sender_of(next)->0;
                assert(sender_of(before)->0.after_cancel(post));
                assert(next == with_sender(before, post));
            }
        }
        self.state = next;
    }
}

} // verus!
