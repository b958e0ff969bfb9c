use vstd::prelude::*;

use crate::model::health::HealthCheck;
use crate::service::result::{accept, ServiceResult};

verus! {

/// The answer of the liveness probe: always the same success.
pub fn health_check() -> (r: ServiceResult<HealthCheck>)
    ensures
        r matches Ok(value),
        r->Ok_0.code == 200,
        r->Ok_0.message matches Some(message) && message@ == "Pong from server."@,
        r->Ok_0.data matches Some(check) && check.healthy && check.status@ == "OK"@ && check.comment@
            == "Service is running smoothly."@,
{
    let health_check = HealthCheck {
        healthy: true,
        status: "OK".to_owned(),
        comment: "Service is running smoothly.".to_owned(),
    };
    Ok(accept().with_message("Pong from server.").with_data(health_check))
}

} // verus!
