//! The routing table of the HTTP engine.

use vstd::prelude::*;

verus! {

/// `axum::Router`: the routing table of the HTTP engine. The verifier takes
/// it as an opaque value.
#[verifier::external_type_specification]
#[verifier::external_body]
#[verifier::reject_recursive_types(S)]
pub struct ExRouter<S>(axum::Router<S>);

/// `axum::Router::new`: a router without routes. What a router holds is the
/// engine's matter, and nothing is claimed of the result.
#[verifier::external_body]
pub fn new() -> axum::Router<()> {
    axum::Router::new()
}

/// Whether `router` is a routing table as [`new`] makes it: one to which no
/// route has been added.
pub open spec fn fresh(router: axum::Router<()>) -> bool {
    call_ensures(new, (), router)
}

} // verus!
