use vstd::prelude::*;

use super::connected::WaitHelloError;
use super::gateway::{ClientStateGateway, ConnectGatewayError};
use super::{ClientAction, ClientInner, ClientState};
use crate::api::types::{GatewayResumeArguments, GatewayURLInfo};

verus! {

/// Error when run websocket client
#[derive(Debug)]
pub enum RunError {
    /// connect to websocket gateway failed
    ConnectGatewayFailed {
        /// source error
        source: ConnectGatewayError,
    },
    /// wait first server hello message failed
    WaitHelloFailed {
        /// source error
        source: WaitHelloError,
    },
}

/// Before the run: the client holds the arguments to resume with, if any.
#[derive(Debug)]
pub struct ClientStateInit {
    /// arguments of the session to resume
    pub resume: Option<GatewayResumeArguments>,
}

/// Whether `step` is what the client does when its run starts: it moves
/// to the gateway state, whose gateway has the client's resume arguments
/// in place of its own, and asks for a socket to that gateway's url; where
/// the url cannot be written, the run fails.
pub open spec fn run_step(
    pre: ClientInner<ClientStateInit>,
    gateway: GatewayURLInfo,
    step: (ClientState, ClientAction),
) -> bool {
    let target = GatewayURLInfo { resume: pre.state.resume, ..gateway };
    match crate::api::types::url_spec(target@) {
        Some(text) => {
            &&& step.0 == ClientState::Gateway(
                ClientInner { state: ClientStateGateway { gateway: target, retried: false } },
            )
            &&& step.1 matches ClientAction::Connect { url }
            &&& url@ == text
        },
        None => {
            &&& step.0 == ClientState::Failed
            &&& step.1 matches ClientAction::Failed(RunError::ConnectGatewayFailed { source })
            &&& super::gateway::unwritable(target, source)
        },
    }
}

impl ClientInner<ClientStateInit> {
    /// Starts the run: the client moves to the gateway state and asks for
    /// a socket to the gateway's url, with the resume arguments in it. A
    /// gateway whose address cannot be written as a url fails the run.
    pub fn run(self, gateway: GatewayURLInfo) -> (step: (ClientState, ClientAction))
        ensures
            step.0.wf(),
            run_step(self, gateway, step),
    {
        let client = self.into_gateway(gateway);
        match client.start() {
            Ok(url) => (ClientState::Gateway(client), ClientAction::Connect { url }),
            Err(source) => (
                ClientState::Failed,
                ClientAction::Failed(RunError::ConnectGatewayFailed { source }),
            ),
        }
    }

    /// Moves to the gateway state: the gateway takes the client's resume
    /// arguments in place of its own.
    pub fn into_gateway(self, gateway: GatewayURLInfo) -> (client: ClientInner<ClientStateGateway>)
        ensures
            client.state == (ClientStateGateway {
                gateway: GatewayURLInfo { resume: self.state.resume, ..gateway },
                retried: false,
            }),
    {
        let mut gateway = gateway;
        gateway.resume = self.state.resume;
        ClientInner { state: ClientStateGateway { gateway, retried: false } }
    }
}

} // verus!
