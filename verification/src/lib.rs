//! A small application-composition runtime: a registry of shared singleton
//! services indexed by their type, route declarations attached to handlers,
//! and the builder and server configuration that put the two together.

pub mod app;
pub mod bootstrap;
pub mod controllers;
pub mod di;
pub mod error;
pub mod route;
pub mod router;
pub mod server;
pub mod services;
pub mod text;

pub use app::App;
pub use di::{Container, Injectable};
pub use error::Error;
pub use route::{delete, expand_route_macro, get, patch, post, put, HttpMethod};
pub use server::RustAPI;
