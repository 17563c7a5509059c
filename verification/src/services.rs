//! The services of the example application.

pub mod echo_service;
pub mod health_service;
