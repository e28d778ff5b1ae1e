use vstd::prelude::*;
use vstd::string::StringExecFns;

use super::connected::ClientStateConnected;
use super::init::RunError;
use super::streaming::{EventStreamErrorKind, EventStreamSender};
use super::{later, ClientAction, ClientEvent, ClientInner, ClientState, PONG_TIMEOUT};
use crate::api::types::{base_of, url_spec, GatewayURLInfo};

verus! {

/// Error when connect to websocket gateway
#[derive(Debug)]
pub struct ConnectGatewayError {
    /// connected url
    pub url: String,
    /// what the socket reported
    pub reason: String,
}

/// Opening the socket: the client holds the gateway and knows whether one
/// attempt has failed already.
#[derive(Debug)]
pub struct ClientStateGateway {
    /// the gateway to connect to
    pub gateway: GatewayURLInfo,
    /// whether the first attempt has failed and the second is under way
    pub retried: bool,
}

/// Whether `error` is the error of a gateway whose address cannot be
/// written as a url: it quotes the address and says that it is invalid.
pub open spec fn unwritable(gateway: GatewayURLInfo, error: ConnectGatewayError) -> bool {
    &&& url_spec(gateway@) is None
    &&& error.url@ == base_of(gateway@)
    &&& error.reason@ == "invalid gateway address"@
}

/// What the client does when an attempt to open the socket has ended.
pub enum ConnectStep {
    /// the socket is open: wait for the hello
    Connected(ClientInner<ClientStateConnected>),
    /// the first attempt failed: open a socket to the same url once more
    Retry(ClientInner<ClientStateGateway>, String),
    /// the second attempt failed too
    Failed(ConnectGatewayError),
}

/// Whether the client tries once more after a failed attempt: it does
/// after the first failure, if the gateway's url can be written.
pub open spec fn retries(pre: ClientInner<ClientStateGateway>) -> bool {
    !pre.state.retried && url_spec(pre.state.gateway@) is Some
}

/// Whether `error` is the error of the client that gives up on `gateway`
/// because an attempt failed for `reason`: it names the gateway's url and
/// the reason, or is that of a gateway whose url cannot be written.
pub open spec fn failure_of(gateway: GatewayURLInfo, reason: String, error: ConnectGatewayError) -> bool {
    match url_spec(gateway@) {
        Some(text) => error.url@ == text && error.reason == reason,
        None => unwritable(gateway, error),
    }
}

/// Whether `step` is what the client does when an attempt to open the
/// socket has ended, `Ok` if it is open and else with the reason. With the
/// socket open the client waits for the hello, which must come within
/// [`PONG_TIMEOUT`] seconds from `now`. After the first failure it opens a
/// socket to the gateway's url once more; after the second it gives up
/// with the second failure's reason.
pub open spec fn connected_as(
    pre: ClientInner<ClientStateGateway>,
    attempt: Result<(), String>,
    now: u64,
    step: ConnectStep,
) -> bool {
    match attempt {
        Ok(_) => step == ConnectStep::Connected(
            ClientInner {
                state: ClientStateConnected {
                    gateway: pre.state.gateway,
                    deadline: later(now, PONG_TIMEOUT),
                },
            },
        ),
        Err(reason) => if retries(pre) {
            &&& step matches ConnectStep::Retry(client, url)
            &&& client == (ClientInner {
                state: ClientStateGateway { gateway: pre.state.gateway, retried: true },
            })
            &&& Some(url@) == url_spec(pre.state.gateway@)
        } else {
            &&& step matches ConnectStep::Failed(error)
            &&& failure_of(pre.state.gateway, reason, error)
        },
    }
}

/// The end of an attempt to open the socket that an event reports, if it
/// reports one.
pub open spec fn attempt_of(event: ClientEvent) -> Option<Result<(), String>> {
    match event {
        ClientEvent::Connected => Some(Ok(())),
        ClientEvent::ConnectFailed { reason } => Some(Err(reason)),
        _ => None,
    }
}

/// Whether `step` is what the client that opens its first socket does with
/// `event` at the time `now`: it follows [`connected_as`], giving up fails
/// the run, and an event that reports no attempt changes nothing.
pub open spec fn connecting_step(
    pre: ClientInner<ClientStateGateway>,
    event: ClientEvent,
    now: u64,
    step: (ClientState, ClientAction),
) -> bool {
    match attempt_of(event) {
        None => step == (ClientState::Gateway(pre), ClientAction::Wait),
        Some(Ok(_)) => step == (
            ClientState::Connected(
                ClientInner {
                    state: ClientStateConnected {
                        gateway: pre.state.gateway,
                        deadline: later(now, PONG_TIMEOUT),
                    },
                },
            ),
            ClientAction::Wait,
        ),
        Some(Err(reason)) => if retries(pre) {
            &&& step.0 == ClientState::Gateway(
                ClientInner {
                    state: ClientStateGateway { gateway: pre.state.gateway, retried: true },
                },
            )
            &&& step.1 matches ClientAction::Connect { url }
            &&& Some(url@) == url_spec(pre.state.gateway@)
        } else {
            &&& step.0 == ClientState::Failed
            &&& step.1 matches ClientAction::Failed(RunError::ConnectGatewayFailed { source })
            &&& failure_of(pre.state.gateway, reason, source)
        },
    }
}

/// Whether `post` is the sender `pre` after its stream ended because the
/// client gave up on connecting to `gateway` again, the last attempt having
/// failed for `reason`.
pub open spec fn gave_up(
    pre: EventStreamSender,
    gateway: GatewayURLInfo,
    reason: String,
    post: EventStreamSender,
) -> bool {
    exists|source: ConnectGatewayError|
        failure_of(gateway, reason, source) && #[trigger] pre.after_error(
            EventStreamErrorKind::ReConnectGatewayFailed { source },
            post,
        )
}

/// Whether `step` is what the client that opens a socket to resume the
/// session of `sender` does with `event` at the time `now`: it follows
/// [`connected_as`], giving up ends the event stream with the error, and an
/// event that reports no attempt changes nothing.
pub open spec fn reconnecting_step(
    pre: ClientInner<ClientStateGateway>,
    sender: EventStreamSender,
    event: ClientEvent,
    now: u64,
    step: (ClientState, ClientAction),
) -> bool {
    match attempt_of(event) {
        None => step == (ClientState::Reconnecting(pre, sender), ClientAction::Wait),
        Some(Ok(_)) => step == (
            ClientState::Rejoined(
                ClientInner {
                    state: ClientStateConnected {
                        gateway: pre.state.gateway,
                        deadline: later(now, PONG_TIMEOUT),
                    },
                },
                sender,
            ),
            ClientAction::Wait,
        ),
        Some(Err(reason)) => if retries(pre) {
            &&& step.0 == ClientState::Reconnecting(
                ClientInner {
                    state: ClientStateGateway { gateway: pre.state.gateway, retried: true },
                },
                sender,
            )
            &&& step.1 matches ClientAction::Connect { url }
            &&& Some(url@) == url_spec(pre.state.gateway@)
        } else {
            &&& step.1 == ClientAction::Stop
            &&& step.0 matches ClientState::Stopped(stopped)
            &&& gave_up(sender, pre.state.gateway, reason, stopped)
        },
    }
}

/// The client opens the socket at most twice, both times to the gateway's
/// url: when its first attempt has failed it makes a second one, and when
/// that fails too it gives up with the reason of the second failure.
pub proof fn lemma_at_most_one_retry(
    client: ClientInner<ClientStateGateway>,
    first: String,
    second: String,
    now: u64,
    then: u64,
    one: ConnectStep,
    two: ConnectStep,
)
    requires
        !client.state.retried,
        connected_as(client, Err(first), now, one),
        one matches ConnectStep::Retry(again, _) ==> connected_as(again, Err(second), then, two),
    ensures
        one is Retry || one is Failed,
        one matches ConnectStep::Retry(again, url) ==> {
            &&& again.state.gateway == client.state.gateway
            &&& Some(url@) == url_spec(client.state.gateway@)
            &&& two matches ConnectStep::Failed(error)
            &&& error.reason == second
            &&& Some(error.url@) == url_spec(client.state.gateway@)
        },
{
}

impl ClientInner<ClientStateGateway> {
    /// The url to open the socket to, or the error of a gateway whose
    /// address cannot be written as one.
    pub fn start(&self) -> (url: Result<String, ConnectGatewayError>)
        ensures
            match url {
                Ok(text) => Some(text@) == url_spec(self.state.gateway@),
                Err(error) => unwritable(self.state.gateway, error),
            },
    {
        match self.state.gateway.url() {
            Some(url) => Ok(url),
            None => {
                let mut url = self.state.gateway.schema.clone();
                url.append("://");
                url.append(self.state.gateway.host.as_str());
                url.append(self.state.gateway.path.as_str());
                Err(ConnectGatewayError { url, reason: "invalid gateway address".to_owned() })
            },
        }
    }

    /// Takes the end of an attempt to open the socket, `Ok` if it is open
    /// and else the reason of the failure; see [`connected_as`]. No more
    /// than two attempts are made.
    pub fn connect(self, attempt: Result<(), String>, now: u64) -> (step: ConnectStep)
        ensures
            connected_as(self, attempt, now, step),
    {
        match attempt {
            Ok(_) => ConnectStep::Connected(
                ClientInner {
                    state: ClientStateConnected {
                        gateway: self.state.gateway,
                        deadline: later(now, PONG_TIMEOUT),
                    },
                },
            ),
            Err(reason) => match self.start() {
                Ok(url) => {
                    if self.state.retried {
                        ConnectStep::Failed(ConnectGatewayError { url, reason })
                    } else {
                        ConnectStep::Retry(
                            ClientInner {
                                state: ClientStateGateway {
                                    gateway: self.state.gateway,
                                    retried: true,
                                },
                            },
                            url,
                        )
                    }
                },
                Err(error) => ConnectStep::Failed(error),
            },
        }
    }

    /// The end of an attempt to open the socket that an event reports.
    fn attempt(event: ClientEvent) -> (attempt: Option<Result<(), String>>)
        ensures
            attempt == attempt_of(event),
    {
        match event {
            ClientEvent::Connected => Some(Ok(())),
            ClientEvent::ConnectFailed { reason } => Some(Err(reason)),
            _ => None,
        }
    }

    /// Takes an event while the client opens its first socket.
    pub fn connecting(self, event: ClientEvent, now: u64) -> (step: (ClientState, ClientAction))
        ensures
            step.0.wf(),
            connecting_step(self, event, now, step),
    {
        match Self::attempt(event) {
            None => (ClientState::Gateway(self), ClientAction::Wait),
            Some(attempt) => match self.connect(attempt, now) {
                ConnectStep::Connected(client) => (
                    ClientState::Connected(client),
                    ClientAction::Wait,
                ),
                ConnectStep::Retry(client, url) => (
                    ClientState::Gateway(client),
                    ClientAction::Connect { url },
                ),
                ConnectStep::Failed(source) => (
                    ClientState::Failed,
                    ClientAction::Failed(RunError::ConnectGatewayFailed { source }),
                ),
            },
        }
    }

    /// Takes an event while the client opens a socket to resume the
    /// session of `sender`.
    pub fn reconnecting(self, sender: EventStreamSender, event: ClientEvent, now: u64) -> (step: (
        ClientState,
        ClientAction,
    ))
        requires
            sender.wf(),
        ensures
            step.0.wf(),
            reconnecting_step(self, sender, event, now, step),
    {
        let ghost before = sender;
        let ghost gateway = self.state.gateway;
        let mut sender = sender;
        match Self::attempt(event) {
            None => (ClientState::Reconnecting(self, sender), ClientAction::Wait),
            Some(attempt) => {
                let ghost reason = attempt->Err_0;
                match self.connect(attempt, now) {
                    ConnectStep::Connected(client) => (
                        ClientState::Rejoined(client, sender),
                        ClientAction::Wait,
                    ),
                    ConnectStep::Retry(client, url) => (
                        ClientState::Reconnecting(client, sender),
                        ClientAction::Connect { url },
                    ),
                    ConnectStep::Failed(source) => {
                        let ghost failed = source;
                        sender.send_err(EventStreamErrorKind::ReConnectGatewayFailed { source });
                        assert(failure_of(gateway, reason, failed));
                        assert(before.after_error(
                            EventStreamErrorKind::ReConnectGatewayFailed { source: failed },
                            sender,
                        ));
                        assert(gave_up(before, gateway, reason, sender));
                        (ClientState::Stopped(sender), ClientAction::Stop)
                    },
                }
            },
        }
    }
}

} // verus!
