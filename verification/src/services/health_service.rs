//! A service that reports whether the application is up.

use crate::di::Injectable;
use vstd::prelude::*;
use vstd::string::StringExecFns;

verus! {

/// What the health endpoint answers.
#[derive(Debug)]
pub struct HealthResponse {
    /// `healthy` while the application serves.
    pub status: String,
}

/// The health service. It holds no state.
pub struct HealthService {}

impl Injectable for HealthService {

}

impl HealthService {
    /// Creates the service.
    pub fn new() -> Self {
        HealthService {  }
    }

    /// Reports that the application is up.
    pub fn health_check(&self) -> (response: HealthResponse)
        ensures
            response.status@ == "healthy"@,
    {
        HealthResponse { status: String::from_str("healthy") }
    }
}

} // verus!
