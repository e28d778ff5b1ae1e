use vstd::prelude::*;

use super::init::RunError;
use super::streaming::ping::PingWorker;
use super::streaming::{ClientStateStreaming, EventStreamErrorKind, EventStreamSender};
use super::{ClientAction, ClientEvent, ClientInner, ClientState};
use crate::api::types::{GatewayResumeArguments, GatewayURLInfo};
use crate::ws::event::EventData;
use crate::ws::message::{Message, MessageStreamSinkError};

verus! {

/// Error when wait websocket gateway hello message
#[derive(Debug)]
pub enum WaitHelloError {
    /// No message received
    Timeout,
    /// underlying message stream broken
    MessageStream {
        /// source error
        source: MessageStreamSinkError,
    },
    /// received first message is not hello type
    MessageNotHello,
    /// hello message code is not zero
    HelloMessageCodeNotZero {
        /// status code
        code: i64,
    },
    /// received hello message has no session id
    HelloMessageNoSessionId,
}

/// The socket is open: the client waits for the server's hello.
#[derive(Debug)]
pub struct ClientStateConnected {
    /// the gateway that the socket is open to
    pub gateway: GatewayURLInfo,
    /// the time by which the hello must have come
    pub deadline: u64,
}

/// What the first item of the message stream says: the id of the session
/// that a hello with code zero opens; nothing yet, where the item is an
/// error that is not fatal; else the error.
pub open spec fn hello_of(first: Result<Message, MessageStreamSinkError>) -> Result<
    Option<String>,
    WaitHelloError,
> {
    match first {
        Err(source) => if source.is_fatal() {
            Err(WaitHelloError::MessageStream { source })
        } else {
            Ok(None)
        },
        Ok(Message::Hello(hello)) => if hello.data.code != 0 {
            Err(WaitHelloError::HelloMessageCodeNotZero { code: hello.data.code })
        } else {
            match hello.data.session_id {
                Some(id) => Ok(Some(id)),
                None => Err(WaitHelloError::HelloMessageNoSessionId),
            }
        },
        Ok(_) => Err(WaitHelloError::MessageNotHello),
    }
}

/// What waiting for the hello has come to, given the event and the time:
/// `Ok(None)` while the wait goes on.
pub open spec fn wait_of(deadline: u64, event: ClientEvent, now: u64) -> Result<
    Option<String>,
    WaitHelloError,
> {
    match event {
        ClientEvent::Received(first) => hello_of(first),
        ClientEvent::Tick => if now >= deadline {
            Err(WaitHelloError::Timeout)
        } else {
            Ok(None)
        },
        _ => Ok(None),
    }
}

/// The resume arguments of the session that a hello has opened: the serial
/// number is that of the session to resume, or zero, and the id is the new
/// one.
pub open spec fn session_of(resume: Option<GatewayResumeArguments>, session_id: String) -> GatewayResumeArguments {
    GatewayResumeArguments {
        sn: match resume {
            Some(r) => r.sn,
            None => 0,
        },
        session_id,
    }
}

/// Whether `step` is what the client that waits for the first hello does
/// with `event` at the time `now`; [`ClientInner::wait_hello`] says it in
/// words.
pub open spec fn wait_hello_step(
    pre: ClientInner<ClientStateConnected>,
    event: ClientEvent,
    now: u64,
    step: (ClientState, ClientAction),
) -> bool {
    match wait_of(pre.state.deadline, event, now) {
        Ok(None) => step == (ClientState::Connected(pre), ClientAction::Wait),
        Ok(Some(session_id)) => {
            &&& step.1 == ClientAction::Established
            &&& step.0 matches ClientState::Streaming(next)
            &&& next.state.gateway == (GatewayURLInfo {
                resume: None,
                ..pre.state.gateway
            })
            &&& next.state.ping == (PingWorker { send_ping_tick: now })
            &&& next.state.pong_timeout_tick is None
            &&& next.state.pong_timeout_count == 0
            &&& next.state.sender.open()
            &&& next.state.sender.spec_resume() == session_of(
                pre.state.gateway.resume,
                session_id,
            )
            &&& next.state.sender.first_sn() == next.state.sender.spec_sn()
            &&& next.state.sender.buffered() == Seq::<EventData>::empty()
            &&& next.state.sender.pending().len() == 0
            &&& next.state.sender.delivered() == Seq::<u64>::empty()
        },
        Err(source) => step == (
            ClientState::Failed,
            ClientAction::Failed(RunError::WaitHelloFailed { source }),
        ),
    }
}

/// Whether `step` is what the client does once the hello has resumed the
/// session of the sender `greeted`: it goes back to streaming, with a ping
/// due at once, and delivers what the buffer holds that is due; it stops
/// where the stream does not take what is due.
pub open spec fn resumed(
    pre: ClientInner<ClientStateConnected>,
    greeted: EventStreamSender,
    now: u64,
    step: (ClientState, ClientAction),
) -> bool {
    if greeted.may_go_on(greeted.buffered()) {
        &&& step.1 == ClientAction::Wait
        &&& step.0 matches ClientState::Streaming(next)
        &&& greeted.after_delivery(greeted.buffered(), next.state.sender)
        &&& next.state.gateway == (GatewayURLInfo { resume: None, ..pre.state.gateway })
        &&& next.state.ping == (PingWorker { send_ping_tick: now })
        &&& next.state.pong_timeout_tick is None
        &&& next.state.pong_timeout_count == 0
    } else {
        &&& step.1 == ClientAction::Stop
        &&& step.0 matches ClientState::Stopped(stopped)
        &&& greeted.after_delivery(greeted.buffered(), stopped)
    }
}

/// Whether `step` is what the client that waits for the hello that
/// resumes the session of `sender` does with `event` at the time `now`;
/// [`ClientInner::re_wait_hello`] says it in words.
pub open spec fn re_wait_hello_step(
    pre: ClientInner<ClientStateConnected>,
    sender: EventStreamSender,
    event: ClientEvent,
    now: u64,
    step: (ClientState, ClientAction),
) -> bool {
    match wait_of(pre.state.deadline, event, now) {
        Ok(None) => step == (ClientState::Rejoined(pre, sender), ClientAction::Wait),
        Ok(Some(session_id)) => exists|greeted: EventStreamSender|
            #![trigger sender.after_hello(session_id, greeted)]
            sender.after_hello(session_id, greeted) && resumed(pre, greeted, now, step),
        Err(source) => {
            &&& step.1 == ClientAction::Stop
            &&& step.0 matches ClientState::Stopped(stopped)
            &&& sender.after_error(EventStreamErrorKind::ReWaitHelloFailed { source }, stopped)
        },
    }
}

impl ClientInner<ClientStateConnected> {
    /// Reads the first item of the message stream.
    pub fn real_wait_hello(first: Result<Message, MessageStreamSinkError>) -> (session: Result<
        Option<String>,
        WaitHelloError,
    >)
        ensures
            session == hello_of(first),
    {
        let message = match first {
            Err(source) => {
                if source.is_fatal() {
                    return Err(WaitHelloError::MessageStream { source });
                } else {
                    return Ok(None);
                }
            },
            Ok(message) => message,
        };
        let hello = match message {
            Message::Hello(hello) => hello,
            _ => {
                return Err(WaitHelloError::MessageNotHello);
            },
        };
        if hello.data.code != 0 {
            return Err(WaitHelloError::HelloMessageCodeNotZero { code: hello.data.code });
        }
        match hello.data.session_id {
            Some(id) => Ok(Some(id)),
            None => Err(WaitHelloError::HelloMessageNoSessionId),
        }
    }

    /// What waiting for the hello has come to.
    fn waited(&self, event: ClientEvent, now: u64) -> (session: Result<
        Option<String>,
        WaitHelloError,
    >)
        ensures
            session == wait_of(self.state.deadline, event, now),
    {
        match event {
            ClientEvent::Received(first) => Self::real_wait_hello(first),
            ClientEvent::Tick => {
                if now >= self.state.deadline {
                    Err(WaitHelloError::Timeout)
                } else {
                    Ok(None)
                }
            },
            _ => Ok(None),
        }
    }

    /// Takes an event while the client waits for the first hello.
    ///
    /// A hello with code zero and a session id establishes the stream: the
    /// client moves to the streaming state with a new sender, whose resume
    /// arguments are [`session_of`] the gateway's and the new id, and a
    /// ping due at once. An error that is not fatal, a tick before the
    /// deadline and any event that is not waited for change nothing. Any
    /// other first item, and the deadline, fail the run.
    pub fn wait_hello(self, event: ClientEvent, now: u64) -> (step: (ClientState, ClientAction))
        ensures
            step.0.wf(),
            wait_hello_step(self, event, now, step),
    {
        match self.waited(event, now) {
            Ok(None) => (ClientState::Connected(self), ClientAction::Wait),
            Ok(Some(session_id)) => {
                let mut gateway = self.state.gateway;
                let resume = match gateway.resume {
                    Some(resume) => GatewayResumeArguments { sn: resume.sn, session_id },
                    None => GatewayResumeArguments { sn: 0, session_id },
                };
                gateway.resume = None;
                let sender = EventStreamSender::new(resume);
                let state = ClientStateStreaming {
                    gateway,
                    sender,
                    ping: PingWorker::new(now),
                    pong_timeout_tick: None,
                    pong_timeout_count: 0,
                };
                (ClientState::Streaming(ClientInner { state }), ClientAction::Established)
            },
            Err(source) => (
                ClientState::Failed,
                ClientAction::Failed(RunError::WaitHelloFailed { source }),
            ),
        }
    }

    /// Takes an event while the client waits for the hello that resumes
    /// the session of `sender`.
    ///
    /// A hello with code zero and a session id brings the client back to
    /// the streaming state: the sender takes the new id, a ping is due at
    /// once, and what the buffer holds is delivered as far as it is due. An
    /// error that is not fatal, a tick before the deadline and any event
    /// that is not waited for change nothing. Any other first item, and the
    /// deadline, end the event stream with their error.
    pub fn re_wait_hello(self, sender: EventStreamSender, event: ClientEvent, now: u64) -> (step: (
        ClientState,
        ClientAction,
    ))
        requires
            sender.wf(),
        ensures
            step.0.wf(),
            re_wait_hello_step(self, sender, event, now, step),
    {
        let ghost before = sender;
        let mut sender = sender;
        match self.waited(event, now) {
            Ok(None) => (ClientState::Rejoined(self, sender), ClientAction::Wait),
            Ok(Some(session_id)) => {
                let ghost id = session_id;
                let mut gateway = self.state.gateway;
                gateway.resume = None;
                sender.set_session_id(session_id);
                let ghost greeted = sender;
                let state = ClientStateStreaming {
                    gateway,
                    sender,
                    ping: PingWorker::new(now),
                    pong_timeout_tick: None,
                    pong_timeout_count: 0,
                };
                let step = (ClientInner { state }).streaming_start();
                assert(before.after_hello(id, greeted));
                assert(resumed(self, greeted, now, step));
                step
            },
            Err(source) => {
                sender.send_err(EventStreamErrorKind::ReWaitHelloFailed { source });
                (ClientState::Stopped(sender), ClientAction::Stop)
            },
        }
    }
}

} // verus!
