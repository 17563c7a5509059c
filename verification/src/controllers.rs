//! The controllers of the example application: each holds the services that
//! its endpoints work with.

pub mod echo_controller;
pub mod health_controller;
