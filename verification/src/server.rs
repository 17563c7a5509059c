//! The server: where it listens, and how the steps of serving follow each
//! other.
//!
//! Binding the socket and running the HTTP engine are the caller's work. What
//! is decided here is the address to bind, the error that each failure is
//! reported with, and the state that each event leads to.

use crate::error::Error;
use crate::text::{decimal, to_decimal};
use axum::Router;
use vstd::prelude::*;
use vstd::string::StringExecFns;

verus! {

/// A server to be: the routing table and the place to listen.
pub struct RustAPI {
    /// The routing table that is served.
    pub router: Router,
    /// The port to listen on.
    pub port: u16,
    /// The host to bind to.
    pub host: String,
}

impl RustAPI {
    /// A server for `router` that listens on `0.0.0.0:3000`.
    pub fn new(router: Router) -> (server: Self)
        ensures
            server.router == router,
            server.port == 3000,
            server.host@ == "0.0.0.0"@,
    {
        RustAPI { router, port: 3000, host: String::from_str("0.0.0.0") }
    }

    /// The same server on another port.
    pub fn port(self, port: u16) -> (server: Self)
        ensures
            server.port == port,
            server.host == self.host,
            server.router == self.router,
    {
        RustAPI { router: self.router, port, host: self.host }
    }

    /// The same server on another host.
    pub fn host(self, host: &str) -> (server: Self)
        ensures
            server.host@ == host@,
            server.port == self.port,
            server.router == self.router,
    {
        RustAPI { router: self.router, port: self.port, host: String::from_str(host) }
    }

    /// The address that the server binds: the host, a colon, and the port in
    /// decimal.
    pub open spec fn address_text(&self) -> Seq<char> {
        self.host@ + ":"@ + decimal(self.port as nat)
    }

    /// The address that the server binds.
    pub fn address(&self) -> (address: String)
        ensures
            address@ == self.address_text(),
    {
        let mut address = self.host.clone();
        address.append(":");
        let port = to_decimal(self.port as u64);
        address.append(port.as_str());
        address
    }
}

/// The detail of the error for an address that is no socket address.
pub open spec fn invalid_address_text(address: Seq<char>, cause: Seq<char>) -> Seq<char> {
    "Invalid address "@ + address + ": "@ + cause
}

/// The detail of the error for a socket that could not be bound.
pub open spec fn bind_failure_text(address: Seq<char>, cause: Seq<char>) -> Seq<char> {
    "Failed to bind to "@ + address + ": "@ + cause
}

/// The detail of the error for a failure of the HTTP engine.
pub open spec fn engine_failure_text(cause: Seq<char>) -> Seq<char> {
    "Server error: "@ + cause
}

/// The error for an address that is no socket address.
pub fn invalid_address(address: &str, cause: &str) -> (error: Error)
    ensures
        error matches Error::ServerError(detail) && detail@ == invalid_address_text(
            address@,
            cause@,
        ),
{
    let mut detail = String::from_str("Invalid address ");
    detail.append(address);
    detail.append(": ");
    detail.append(cause);
    Error::server_error(detail)
}

/// The error for a socket that could not be bound.
pub fn bind_failure(address: &str, cause: &str) -> (error: Error)
    ensures
        error matches Error::ServerError(detail) && detail@ == bind_failure_text(address@, cause@),
{
    let mut detail = String::from_str("Failed to bind to ");
    detail.append(address);
    detail.append(": ");
    detail.append(cause);
    Error::server_error(detail)
}

/// The error for a failure of the HTTP engine.
pub fn engine_failure(cause: &str) -> (error: Error)
    ensures
        error matches Error::ServerError(detail) && detail@ == engine_failure_text(cause@),
{
    let mut detail = String::from_str("Server error: ");
    detail.append(cause);
    Error::server_error(detail)
}

/// Where a server stands.
#[derive(Debug, Clone, PartialEq, Eq)]
pub enum ServerState {
    /// No socket is bound yet.
    Unbound,
    /// The socket is bound; the engine has not taken it yet.
    Bound,
    /// The engine accepts connections.
    Serving,
    /// Serving has ended with an error.
    Stopped(Error),
}

/// What happened to a server.
#[derive(Debug, Clone, PartialEq, Eq)]
pub enum ServerEvent {
    /// The address is no socket address.
    AddressRejected { address: String, cause: String },
    /// The socket could not be bound.
    BindFailed { address: String, cause: String },
    /// The socket is bound.
    SocketBound,
    /// The engine has taken the socket.
    EngineStarted,
    /// The engine has failed.
    EngineFailed { cause: String },
}

/// What is to be done for a server next.
#[derive(Debug, Clone, Copy, PartialEq, Eq, Structural)]
pub enum ServerAction {
    /// Bind the socket.
    Bind,
    /// Hand the socket and the routing table to the engine.
    Serve,
    /// Wait for the engine.
    Wait,
    /// Report the error and end.
    Fail,
}

impl ServerState {
    /// Whether `next` is the state that `event` leads to from this state.
    ///
    /// An address that is refused or a socket that cannot be bound ends the
    /// whole operation; nothing is tried again. A server that has stopped
    /// stays stopped, and an event that does not belong to a state leaves
    /// the state as it is.
    pub open spec fn leads_to(self, event: ServerEvent, next: ServerState) -> bool {
        match (self, event) {
            (ServerState::Unbound, ServerEvent::AddressRejected { address, cause }) => {
                next matches ServerState::Stopped(Error::ServerError(detail)) && detail@
                    == invalid_address_text(address@, cause@)
            },
            (ServerState::Unbound, ServerEvent::BindFailed { address, cause }) => {
                next matches ServerState::Stopped(Error::ServerError(detail)) && detail@
                    == bind_failure_text(address@, cause@)
            },
            (ServerState::Unbound, ServerEvent::SocketBound) => next is Bound,
            (ServerState::Bound, ServerEvent::EngineStarted) => next is Serving,
            (ServerState::Serving, ServerEvent::EngineFailed { cause }) => {
                next matches ServerState::Stopped(Error::ServerError(detail)) && detail@
                    == engine_failure_text(cause@)
            },
            _ => next == self,
        }
    }

    /// The state that `event` leads to.
    pub fn step(self, event: ServerEvent) -> (next: ServerState)
        ensures
            self.leads_to(event, next),
    {
        match self {
            ServerState::Unbound => match event {
                ServerEvent::AddressRejected { address, cause } => ServerState::Stopped(
                    invalid_address(address.as_str(), cause.as_str()),
                ),
                ServerEvent::BindFailed { address, cause } => ServerState::Stopped(
                    bind_failure(address.as_str(), cause.as_str()),
                ),
                ServerEvent::SocketBound => ServerState::Bound,
                _ => ServerState::Unbound,
            },
            ServerState::Bound => match event {
                ServerEvent::EngineStarted => ServerState::Serving,
                _ => ServerState::Bound,
            },
            ServerState::Serving => match event {
                ServerEvent::EngineFailed { cause } => ServerState::Stopped(
                    engine_failure(cause.as_str()),
                ),
                _ => ServerState::Serving,
            },
            ServerState::Stopped(error) => ServerState::Stopped(error),
        }
    }

    /// What is to be done next in this state.
    pub fn action(&self) -> (action: ServerAction)
        ensures
            action == match self {
                ServerState::Unbound => ServerAction::Bind,
                ServerState::Bound => ServerAction::Serve,
                ServerState::Serving => ServerAction::Wait,
                ServerState::Stopped(_) => ServerAction::Fail,
            },
    {
        match self {
            ServerState::Unbound => ServerAction::Bind,
            ServerState::Bound => ServerAction::Serve,
            ServerState::Serving => ServerAction::Wait,
            ServerState::Stopped(_) => ServerAction::Fail,
        }
    }
}

/// A server that has stopped stays stopped with the error it stopped with,
/// whatever happens next: nothing is tried again.
pub proof fn lemma_stopped_is_final(error: Error, event: ServerEvent, next: ServerState)
    requires
        ServerState::Stopped(error).leads_to(event, next),
    ensures
        next == ServerState::Stopped(error),
{
}

/// A server stops only with a server error.
pub proof fn lemma_stops_with_server_error(state: ServerState, event: ServerEvent, next: ServerState)
    requires
        state.leads_to(event, next),
        !(state is Stopped),
        next is Stopped,
    ensures
        next->Stopped_0 is ServerError,
{
}

} // verus!
