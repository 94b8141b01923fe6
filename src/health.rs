use vstd::prelude::*;

verus! {

/// The answer of the liveness check.
pub struct HealthResponse {
    pub status: &'static str,
}

/// The answer of the store check.
pub struct HealthDbResponse {
    pub status: &'static str,
}

impl HealthResponse {
    pub fn ok() -> (r: HealthResponse)
        ensures
            r.status@ == "ok"@,
    {
        HealthResponse { status: "ok" }
    }
}

impl HealthDbResponse {
    /// `ok` when the store answered a ping, `degraded` when it did not.
    pub fn from_ping(reachable: bool) -> (r: HealthDbResponse)
        ensures
            r.status@ == (if reachable {
                "ok"@
            } else {
                "degraded"@
            }),
    {
        if reachable {
            HealthDbResponse { status: "ok" }
        } else {
            HealthDbResponse { status: "degraded" }
        }
    }

    /// The HTTP status that goes with the answer: 200, or 503 when degraded.
    pub fn status_code(reachable: bool) -> (r: u16)
        ensures
            r == (if reachable {
                200u16
            } else {
                503u16
            }),
    {
        if reachable {
            200
        } else {
            503
        }
    }
}

} // verus!
