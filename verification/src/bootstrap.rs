//! The bootstrap of the example application: which services are registered,
//! which controllers are made from them, and which routes are served.

use crate::controllers::echo_controller::EchoController;
use crate::controllers::health_controller::HealthController;
use crate::di::{type_key, Container};
use crate::route::{HttpMethod, RouteDescriptor};
use crate::services::echo_service::EchoService;
use crate::services::health_service::HealthService;
use std::sync::Arc;
use vstd::prelude::*;
use vstd::string::StringExecFns;

verus! {

/// The controllers of the application.
pub struct Controllers {
    pub health: Arc<HealthController>,
    pub echo: Arc<EchoController>,
}

/// A registry that holds the health service and the echo service, and
/// nothing else.
pub fn setup_container() -> (container: Container)
    ensures
        container.has::<HealthService>(),
        container.has::<EchoService>(),
        container@.dom() == set![type_key::<HealthService>(), type_key::<EchoService>()],
{
    let mut container = Container::new();
    container.register_factory(HealthService::new);
    container.register_factory(EchoService::new);
    proof {
        assert(container@.dom() =~= set![type_key::<HealthService>(), type_key::<EchoService>()]);
    }
    container
}

/// Makes the controllers from the services in `container`. There are none to
/// make where one of the two services is not registered.
pub fn build_controllers(container: &Container) -> (controllers: Option<Controllers>)
    ensures
        controllers is Some <==> container.has::<HealthService>() && container.has::<
            EchoService,
        >(),
        controllers matches Some(made) ==> container.holds(made.health.service())
            && container.holds(made.echo.service()),
{
    let health_service = match container.resolve::<HealthService>() {
        Some(service) => service,
        None => {
            return None;
        },
    };
    let echo_service = match container.resolve::<EchoService>() {
        Some(service) => service,
        None => {
            return None;
        },
    };
    let health = Arc::new(HealthController::new(health_service));
    let echo = Arc::new(EchoController::new(echo_service));
    Some(Controllers { health, echo })
}

/// Whether `route` declares `method` on `path` for `handler`.
pub open spec fn declares(
    route: RouteDescriptor,
    method: HttpMethod,
    path: Seq<char>,
    handler: Seq<char>,
) -> bool {
    route.method == method && route.path@ == path && route.handler@ == handler
}

/// The routes of the application, in the order in which they are mounted:
/// the welcome page, the health check and the echo.
pub fn route_table() -> (routes: Vec<RouteDescriptor>)
    ensures
        routes@.len() == 3,
        declares(routes@[0], HttpMethod::Get, "/"@, "root"@),
        declares(routes@[1], HttpMethod::Get, "/health"@, "health_check"@),
        declares(routes@[2], HttpMethod::Post, "/echo"@, "echo"@),
{
    let mut routes: Vec<RouteDescriptor> = Vec::new();
    routes.push(
        RouteDescriptor {
            method: HttpMethod::Get,
            path: String::from_str("/"),
            handler: String::from_str("root"),
        },
    );
    routes.push(
        RouteDescriptor {
            method: HttpMethod::Get,
            path: String::from_str("/health"),
            handler: String::from_str("health_check"),
        },
    );
    routes.push(
        RouteDescriptor {
            method: HttpMethod::Post,
            path: String::from_str("/echo"),
            handler: String::from_str("echo"),
        },
    );
    routes
}

} // verus!
