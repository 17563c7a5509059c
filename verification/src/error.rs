//! The errors that the runtime reports.

use vstd::prelude::*;
use vstd::string::StringExecFns;

verus! {

/// What can go wrong while an application is put together or served. Each
/// variant carries the detail that is shown after the variant's own words.
#[derive(Debug, Clone, PartialEq, Eq)]
pub enum Error {
    /// A service was asked for that is not in the registry.
    ServiceNotFound(String),
    /// A service could not be registered.
    RegistrationError(String),
    /// The address was refused, the socket could not be bound, or the HTTP
    /// engine failed.
    ServerError(String),
    /// A route could not be registered.
    RouteError(String),
    /// Anything else.
    Other(String),
}

impl Error {
    /// The words that every message of this variant starts with.
    pub open spec fn prefix(&self) -> Seq<char> {
        match self {
            Error::ServiceNotFound(_) => "Service not found: "@,
            Error::RegistrationError(_) => "Service registration failed: "@,
            Error::ServerError(_) => "HTTP server error: "@,
            Error::RouteError(_) => "Route registration failed: "@,
            Error::Other(_) => "Error: "@,
        }
    }

    /// The detail that the error carries.
    pub open spec fn detail(&self) -> Seq<char> {
        match self {
            Error::ServiceNotFound(detail) => detail@,
            Error::RegistrationError(detail) => detail@,
            Error::ServerError(detail) => detail@,
            Error::RouteError(detail) => detail@,
            Error::Other(detail) => detail@,
        }
    }

    /// The message shown for the error: the variant's words, then the detail.
    pub open spec fn text(&self) -> Seq<char> {
        self.prefix() + self.detail()
    }

    /// The error for a service that is not in the registry.
    pub fn service_not_found(service_name: String) -> (error: Self)
        ensures
            error == Error::ServiceNotFound(service_name),
    {
        Error::ServiceNotFound(service_name)
    }

    /// The error for a service that could not be registered.
    pub fn registration_error(msg: String) -> (error: Self)
        ensures
            error == Error::RegistrationError(msg),
    {
        Error::RegistrationError(msg)
    }

    /// The error for a failure of the server.
    pub fn server_error(msg: String) -> (error: Self)
        ensures
            error == Error::ServerError(msg),
    {
        Error::ServerError(msg)
    }

    /// The error for a route that could not be registered.
    pub fn route_error(msg: String) -> (error: Self)
        ensures
            error == Error::RouteError(msg),
    {
        Error::RouteError(msg)
    }

    /// The error for anything else.
    pub fn other(msg: String) -> (error: Self)
        ensures
            error == Error::Other(msg),
    {
        Error::Other(msg)
    }

    /// The message shown for the error.
    pub fn message(&self) -> (message: String)
        ensures
            message@ == self.text(),
    {
        match self {
            Error::ServiceNotFound(detail) => String::from_str("Service not found: ").concat(
                detail.as_str(),
            ),
            Error::RegistrationError(detail) => String::from_str(
                "Service registration failed: ",
            ).concat(detail.as_str()),
            Error::ServerError(detail) => String::from_str("HTTP server error: ").concat(
                detail.as_str(),
            ),
            Error::RouteError(detail) => String::from_str("Route registration failed: ").concat(
                detail.as_str(),
            ),
            Error::Other(detail) => String::from_str("Error: ").concat(detail.as_str()),
        }
    }
}

} // verus!
