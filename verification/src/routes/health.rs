//! The answer of the health check.

use vstd::prelude::*;
use vstd::string::*;

verus! {

/// The state of the backend, as the health check reports it.
#[derive(Debug, Clone)]
pub struct HealthResponse {
    pub status: String,
    pub version: String,
    pub database: String,
}

impl HealthResponse {
    /// The report of a running backend of the given version, whose database
    /// did or did not answer.
    pub fn new(version: &str, database_answered: bool) -> (report: Self)
        ensures
            report.status@ == "ok"@,
            report.version@ == version@,
            report.database@ == if database_answered {
                "connected"@
            } else {
                "disconnected"@
            },
    {
        let database = if database_answered {
            String::from_str("connected")
        } else {
            String::from_str("disconnected")
        };
        HealthResponse { status: String::from_str("ok"), version: String::from_str(version), database }
    }
}

} // verus!
