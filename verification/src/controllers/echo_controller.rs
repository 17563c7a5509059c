//! The controller of the echo endpoint.

use crate::services::echo_service::{echo_text, EchoResponse, EchoService};
use std::sync::Arc;
use vstd::prelude::*;

verus! {

/// What the echo endpoint is sent.
#[derive(Debug)]
pub struct EchoRequest {
    /// The text to echo.
    pub message: String,
}

/// The echo controller: it answers with the help of the echo service.
#[derive(Clone)]
pub struct EchoController {
    echo_service: Arc<EchoService>,
}

impl EchoController {
    /// The service that the controller works with.
    pub closed spec fn service(&self) -> Arc<EchoService> {
        self.echo_service
    }

    /// A controller that works with `echo_service`.
    pub fn new(echo_service: Arc<EchoService>) -> (controller: Self)
        ensures
            controller.service() == echo_service,
    {
        EchoController { echo_service }
    }

    /// Answers a request to echo `message`: the service counts the call and
    /// echoes the message.
    pub fn process_echo(&self, message: &str) -> (response: EchoResponse)
        ensures
            self.service().counted(response.count),
            response.data@ == echo_text(response.count, message@),
    {
        self.echo_service.echo(message)
    }
}

} // verus!
