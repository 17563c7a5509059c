//! The controller of the health endpoint.

use crate::services::health_service::{HealthResponse, HealthService};
use std::sync::Arc;
use vstd::prelude::*;

verus! {

/// The health controller: it answers with the help of the health service.
#[derive(Clone)]
pub struct HealthController {
    health_service: Arc<HealthService>,
}

impl HealthController {
    /// The service that the controller works with.
    pub closed spec fn service(&self) -> Arc<HealthService> {
        self.health_service
    }

    /// A controller that works with `health_service`.
    pub fn new(health_service: Arc<HealthService>) -> (controller: Self)
        ensures
            controller.service() == health_service,
    {
        HealthController { health_service }
    }

    /// Answers a health check: the service reports.
    pub fn check_health(&self) -> (response: HealthResponse)
        ensures
            response.status@ == "healthy"@,
    {
        self.health_service.health_check()
    }
}

} // verus!
