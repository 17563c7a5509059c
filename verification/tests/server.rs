use rustapi::router::new;
use rustapi::server::{
    bind_failure, engine_failure, invalid_address, ServerAction, ServerEvent, ServerState,
};
use rustapi::text::to_decimal;
use rustapi::{App, Error, RustAPI};

#[test]
fn test_router_creation() {
    let _router = new();
}

#[test]
fn test_rustapi_defaults() {
    let router = rustapi::router::new();
    let server = RustAPI::new(router);
    assert_eq!(server.port, 3000);
    assert_eq!(server.host, "0.0.0.0");
}

#[test]
fn test_rustapi_builder() {
    let router = rustapi::router::new();
    let server = RustAPI::new(router)
        .port(8080)
        .host("127.0.0.1");
    assert_eq!(server.port, 8080);
    assert_eq!(server.host, "127.0.0.1");
}

#[test]
fn test_app_creation() {
    let app = App::new();
    assert!(app.container().is_empty());
}

#[test]
fn test_app_default() {
    let app = App::default();
    assert!(app.container().is_empty());
}

struct Marker;

impl rustapi::Injectable for Marker {}

#[test]
fn test_app_registers_through_container_mut() {
    let mut app = App::new();
    app.container_mut().register(std::sync::Arc::new(Marker));
    assert_eq!(app.container().len(), 1);
    assert!(app.container().contains::<Marker>());
    let _router: &axum::Router = app.router();
    let _built: axum::Router = app.build();
}

#[test]
fn test_address_of_defaults() {
    let server = RustAPI::new(new());
    assert_eq!(server.address(), "0.0.0.0:3000");
}

#[test]
fn test_address_after_builders() {
    let server = RustAPI::new(new()).host("127.0.0.1").port(8080);
    assert_eq!(server.address(), "127.0.0.1:8080");
    let lowest = RustAPI::new(new()).host("localhost").port(0);
    assert_eq!(lowest.address(), "localhost:0");
    let highest = RustAPI::new(new()).host("::1").port(65535);
    assert_eq!(highest.address(), "::1:65535");
}

#[test]
fn test_to_decimal() {
    assert_eq!(to_decimal(0), "0");
    assert_eq!(to_decimal(7), "7");
    assert_eq!(to_decimal(10), "10");
    assert_eq!(to_decimal(3000), "3000");
    assert_eq!(to_decimal(1_000_000_007), "1000000007");
    assert_eq!(to_decimal(u64::MAX), "18446744073709551615");
}

#[test]
fn test_server_errors() {
    assert_eq!(
        invalid_address("nowhere:3000", "invalid socket address syntax"),
        Error::ServerError("Invalid address nowhere:3000: invalid socket address syntax".to_string())
    );
    assert_eq!(
        bind_failure("0.0.0.0:80", "permission denied"),
        Error::ServerError("Failed to bind to 0.0.0.0:80: permission denied".to_string())
    );
    assert_eq!(
        engine_failure("broken pipe"),
        Error::ServerError("Server error: broken pipe".to_string())
    );
    assert_eq!(
        bind_failure("0.0.0.0:80", "permission denied").message(),
        "HTTP server error: Failed to bind to 0.0.0.0:80: permission denied"
    );
}

#[test]
fn test_server_serves_after_binding() {
    let state = ServerState::Unbound;
    assert_eq!(state.action(), ServerAction::Bind);
    let state = state.step(ServerEvent::SocketBound);
    assert_eq!(state, ServerState::Bound);
    assert_eq!(state.action(), ServerAction::Serve);
    let state = state.step(ServerEvent::EngineStarted);
    assert_eq!(state, ServerState::Serving);
    assert_eq!(state.action(), ServerAction::Wait);
    let state = state.step(ServerEvent::EngineFailed {
        cause: "broken pipe".to_string(),
    });
    assert_eq!(
        state,
        ServerState::Stopped(Error::ServerError("Server error: broken pipe".to_string()))
    );
    assert_eq!(state.action(), ServerAction::Fail);
}

#[test]
fn test_server_stops_on_a_refused_address() {
    let state = ServerState::Unbound.step(ServerEvent::AddressRejected {
        address: "nowhere:3000".to_string(),
        cause: "invalid socket address syntax".to_string(),
    });
    assert_eq!(
        state,
        ServerState::Stopped(Error::ServerError(
            "Invalid address nowhere:3000: invalid socket address syntax".to_string()
        ))
    );
}

#[test]
fn test_server_stops_on_a_failed_bind_and_stays_stopped() {
    let stopped = ServerState::Unbound.step(ServerEvent::BindFailed {
        address: "0.0.0.0:3000".to_string(),
        cause: "address in use".to_string(),
    });
    let expected = ServerState::Stopped(Error::ServerError(
        "Failed to bind to 0.0.0.0:3000: address in use".to_string(),
    ));
    assert_eq!(stopped, expected);
    assert_eq!(stopped.clone().step(ServerEvent::SocketBound), expected);
    assert_eq!(stopped.clone().step(ServerEvent::EngineStarted), expected);
    assert_eq!(
        stopped.step(ServerEvent::EngineFailed {
            cause: "late".to_string()
        }),
        expected
    );
}

#[test]
fn test_server_ignores_events_out_of_turn() {
    assert_eq!(
        ServerState::Unbound.step(ServerEvent::EngineStarted),
        ServerState::Unbound
    );
    assert_eq!(
        ServerState::Bound.step(ServerEvent::SocketBound),
        ServerState::Bound
    );
    assert_eq!(
        ServerState::Serving.step(ServerEvent::BindFailed {
            address: "a".to_string(),
            cause: "b".to_string()
        }),
        ServerState::Serving
    );
}
