use vstd::prelude::*;

verus! {

/// What the liveness probe reports.
#[derive(Debug)]
pub struct HealthCheck {
    pub healthy: bool,
    pub status: String,
    pub comment: String,
}

} // verus!
