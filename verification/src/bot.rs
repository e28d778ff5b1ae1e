//! The bot: it fetches a gateway, runs the websocket client on it, hands
//! the events on, and starts again when the stream breaks.

use vstd::prelude::*;

use crate::api::types::{parse_gateway_spec, GatewayResumeArguments, GatewayURLInfo};
use crate::api::Client as ApiClient;
use crate::api::Error as APIError;
use crate::error::Error;
use crate::ws::client::inner::{ClientInner, ClientState, ClientStateInit};
use crate::ws::client::{Client, EventStreamError, RunError};
use crate::ws::event::Event;

verus! {

/// Seconds to wait before the gateway is fetched again, at most.
pub const RE_FETCH_GATEWAY_INTERVAL_MAX: u64 = 60;

/// Burz instance
pub struct Bot {
    api_client: ApiClient,
    resume: Option<GatewayResumeArguments>,
    refetch_delay: u64,
}

/// What happened outside the bot.
pub enum BotEvent {
    /// the run begins
    Started,
    /// the API has answered the request for the gateway
    Fetched(Result<String, APIError>),
    /// the websocket client failed to establish the stream
    RunFailed(RunError),
    /// the websocket client has established the stream
    Established,
    /// the event stream gave its next item
    Item(Result<Event, EventStreamError>),
    /// the pause is over
    Slept,
}

/// What the bot asks to be done outside.
pub enum BotAction {
    /// ask the API for the gateway
    FetchGateway,
    /// run the websocket client on the gateway
    Run {
        /// a client that resumes the last session, if there was one
        client: Client,
        /// the gateway to run on
        gateway: GatewayURLInfo,
    },
    /// pause, then come back with [`BotEvent::Slept`]
    Sleep {
        /// the length of the pause
        seconds: u64,
    },
    /// wait for the next item of the event stream
    Receive,
    /// hand the event to the subscribers whose filters accept it, then wait
    /// for the next item
    Dispatch(Event),
    /// end the run with the error
    Exit(Error),
}

/// The pause after `delay` seconds did not help: twice as long, at least
/// a second and at most [`RE_FETCH_GATEWAY_INTERVAL_MAX`] seconds.
pub open spec fn spec_next_refetch_delay(delay: u64) -> u64 {
    if delay * 2 < 1 {
        1
    } else if delay * 2 > RE_FETCH_GATEWAY_INTERVAL_MAX {
        RE_FETCH_GATEWAY_INTERVAL_MAX
    } else {
        (delay * 2) as u64
    }
}

/// The pause after `delay` seconds did not help.
#[verifier::when_used_as_spec(spec_next_refetch_delay)]
pub fn next_refetch_delay(delay: u64) -> (next: u64)
    ensures
        next == spec_next_refetch_delay(delay),
        1 <= next <= RE_FETCH_GATEWAY_INTERVAL_MAX,
{
    match delay.checked_mul(2) {
        Some(doubled) => {
            if doubled < 1 {
                1
            } else if doubled > RE_FETCH_GATEWAY_INTERVAL_MAX {
                RE_FETCH_GATEWAY_INTERVAL_MAX
            } else {
                doubled
            }
        },
        None => RE_FETCH_GATEWAY_INTERVAL_MAX,
    }
}

/// Whether `gateway` is what the answer `fetched` of the API gives: an
/// error of the API stays one, and the url it gave must parse as a gateway.
pub open spec fn fetched_as(
    fetched: Result<String, APIError>,
    gateway: Result<GatewayURLInfo, Error>,
) -> bool {
    match fetched {
        Err(source) => gateway == Err::<GatewayURLInfo, Error>(Error::CallAPIFailed { source }),
        Ok(url) => match gateway {
            Ok(info) => parse_gateway_spec(url@) == Ok::<_, crate::api::types::ParseGatewayURLErrorView>(
                info@,
            ),
            Err(Error::InvalidGatewayURL { url: refused, source }) => {
                &&& refused == url
                &&& parse_gateway_spec(url@) == Err::<crate::api::types::GatewayURLInfoView, _>(
                    source@,
                )
            },
            Err(_) => false,
        },
    }
}

/// Whether `action` and `post` are what the bot `pre` does with `event`.
///
/// - When the run begins or a pause is over, the gateway is fetched.
/// - A gateway that was fetched is run on, by a client that resumes the
///   last session if one broke before; the arguments to resume are used
///   once. An error of the API or a url that is no gateway ends the run.
/// - When the client failed to establish the stream, the bot pauses, each
///   time twice as long, see [`spec_next_refetch_delay`]; once the stream
///   is established the next pause is a second again.
/// - Each event of the stream is handed on. The error that ends the stream
///   leaves its resume arguments to the next client, and the gateway is
///   fetched again.
pub open spec fn bot_step(pre: Bot, event: BotEvent, post: Bot, action: BotAction) -> bool {
    &&& post.spec_api_client() == pre.spec_api_client()
    &&& match event {
        BotEvent::Started | BotEvent::Slept => {
            &&& action is FetchGateway
            &&& post.spec_resume() == pre.spec_resume()
            &&& post.spec_refetch_delay() == pre.spec_refetch_delay()
        },
        BotEvent::Fetched(fetched) => {
            &&& post.spec_refetch_delay() == pre.spec_refetch_delay()
            &&& match action {
                BotAction::Run { client, gateway } => {
                    &&& fetched_as(fetched, Ok(gateway))
                    &&& client.state() == ClientState::Init(
                        ClientInner { state: ClientStateInit { resume: pre.spec_resume() } },
                    )
                    &&& post.spec_resume() is None
                },
                BotAction::Exit(error) => {
                    &&& fetched_as(fetched, Err(error))
                    &&& post.spec_resume() == pre.spec_resume()
                },
                _ => false,
            }
        },
        BotEvent::RunFailed(_) => {
            &&& action == (BotAction::Sleep { seconds: pre.spec_refetch_delay() })
            &&& post.spec_resume() == pre.spec_resume()
            &&& post.spec_refetch_delay() == next_refetch_delay(pre.spec_refetch_delay())
        },
        BotEvent::Established => {
            &&& action is Receive
            &&& post.spec_resume() == pre.spec_resume()
            &&& post.spec_refetch_delay() == 1
        },
        BotEvent::Item(Ok(event)) => {
            &&& action == BotAction::Dispatch(event)
            &&& post.spec_resume() == pre.spec_resume()
            &&& post.spec_refetch_delay() == pre.spec_refetch_delay()
        },
        BotEvent::Item(Err(error)) => {
            &&& action is FetchGateway
            &&& post.spec_resume() == Some(error.resume)
            &&& post.spec_refetch_delay() == pre.spec_refetch_delay()
        },
    }
}

impl Bot {
    /// The client of the HTTP API.
    pub closed spec fn spec_api_client(self) -> ApiClient {
        self.api_client
    }

    /// The arguments that the next client resumes with.
    pub closed spec fn spec_resume(self) -> Option<GatewayResumeArguments> {
        self.resume
    }

    /// Seconds that the next pause lasts.
    pub closed spec fn spec_refetch_delay(self) -> u64 {
        self.refetch_delay
    }

    /// Create new framework instance using bot token
    pub fn new(token: &str) -> (bot: Result<Self, Error>)
        ensures
            match bot {
                Ok(b) => {
                    &&& b.spec_api_client().spec_authorization()
                        == crate::api::client::authorization_of("Bot"@, token@)
                    &&& b.spec_resume() is None
                    &&& b.spec_refetch_delay() == 1
                },
                Err(Error::CallAPIFailed { source: APIError::TokenInvalid { token: refused } }) => refused@
                    == token@,
                Err(_) => false,
            },
            bot is Ok <==> crate::api::client::header_value(
                vstd::utf8::encode_utf8(crate::api::client::authorization_of("Bot"@, token@)),
            ),
    {
        match ApiClient::new_from_bot_token(token) {
            Ok(api_client) => Ok(Self { api_client, resume: None, refetch_delay: 1 }),
            Err(source) => Err(Error::CallAPIFailed { source }),
        }
    }

    /// The client of the HTTP API.
    pub fn api_client(&self) -> (client: &ApiClient)
        ensures
            *client == self.spec_api_client(),
    {
        &self.api_client
    }

    /// The gateway that the API's answer gives.
    pub fn fetch_new_gateway(fetched: Result<String, APIError>) -> (gateway: Result<
        GatewayURLInfo,
        Error,
    >)
        ensures
            fetched_as(fetched, gateway),
    {
        let gateway_str = match fetched {
            Ok(url) => url,
            Err(source) => {
                return Err(Error::CallAPIFailed { source });
            },
        };
        match GatewayURLInfo::from_str(gateway_str.as_str()) {
            Ok(info) => Ok(info),
            Err(source) => Err(Error::InvalidGatewayURL { url: gateway_str, source }),
        }
    }

    /// Takes what happened and says what to do next; see [`bot_step`].
    pub fn run(&mut self, event: BotEvent) -> (action: BotAction)
        ensures
            bot_step(*old(self), event, *final(self), action),
    {
        match event {
            BotEvent::Started => BotAction::FetchGateway,
            BotEvent::Slept => BotAction::FetchGateway,
            BotEvent::Fetched(fetched) => {
                let gateway = match Self::fetch_new_gateway(fetched) {
                    Ok(gateway) => gateway,
                    Err(error) => {
                        return BotAction::Exit(error);
                    },
                };
                let client = match self.resume.take() {
                    Some(r) => Client::resume(r),
                    None => Client::new(),
                };
                BotAction::Run { client, gateway }
            },
            BotEvent::RunFailed(_) => {
                let seconds = self.refetch_delay;
                self.refetch_delay = next_refetch_delay(seconds);
                BotAction::Sleep { seconds }
            },
            BotEvent::Established => {
                self.refetch_delay = 1;
                BotAction::Receive
            },
            BotEvent::Item(item) => match item {
                Ok(event) => BotAction::Dispatch(event),
                Err(err) => {
                    self.resume = Some(err.resume);
                    BotAction::FetchGateway
                },
            },
        }
    }
}

} // verus!
