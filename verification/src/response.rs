//! Response models for the read-only endpoints.

use vstd::prelude::*;
use vstd::string::*;

verus! {

/// The health endpoint's payload: a fixed status indicator.
#[derive(Debug)]
pub struct HealthResponse {
    /// Always `"ok"` while the server runs.
    pub status: String,
}

impl HealthResponse {
    /// A healthy response.
    pub fn ok() -> (r: HealthResponse)
        ensures
            r.status@ == "ok"@,
    {
        HealthResponse { status: String::from_str("ok") }
    }
}

impl Default for HealthResponse {
    /// The default response is the healthy one.
    fn default() -> (r: HealthResponse)
        ensures
            r.status@ == "ok"@,
    {
        HealthResponse::ok()
    }
}

} // verus!
