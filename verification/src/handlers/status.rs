//! Readiness probe.

use crate::models::StatusResponse;
use vstd::prelude::*;
use vstd::string::StringExecFns;

verus! {

/// The placeholder answer of the status endpoint.
pub fn auth_status() -> (response: StatusResponse)
    ensures
        !response.authenticated,
        response.message@ == "Authentication service is ready for implementation"@,
{
    StatusResponse {
        authenticated: false,
        message: String::from_str("Authentication service is ready for implementation"),
    }
}

} // verus!
