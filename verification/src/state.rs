//! The health status shown on the dashboard.

use vstd::prelude::*;

use crate::upstream::{clone_opt, opt_text};

verus! {

/// The latest known health of the upstream service.
#[derive(Debug)]
pub struct HealthStatus {
    /// `"ok"`, `"error"`, or `"unknown"` before anything was checked.
    pub status: String,
    /// Round-trip latency of the latest request or check, in milliseconds.
    pub latency_ms: Option<u64>,
    /// When the latest request or check happened.
    pub checked_at: Option<String>,
    /// The latest error; `None` when healthy.
    pub error: Option<String>,
}

impl HealthStatus {
    /// A field-by-field copy.
    pub fn duplicate(&self) -> (res: HealthStatus)
        ensures
            res.status@ == self.status@,
            res.latency_ms == self.latency_ms,
            opt_text(res.checked_at) == opt_text(self.checked_at),
            opt_text(res.error) == opt_text(self.error),
    {
        HealthStatus {
            status: self.status.clone(),
            latency_ms: self.latency_ms,
            checked_at: clone_opt(&self.checked_at),
            error: clone_opt(&self.error),
        }
    }
}

impl Default for HealthStatus {
    /// Nothing checked yet: status `"unknown"`, every other field empty.
    fn default() -> (res: HealthStatus)
        ensures
            res.status@ == "unknown"@,
            res.latency_ms is None,
            res.checked_at is None,
            res.error is None,
    {
        HealthStatus { status: String::from_str("unknown"), latency_ms: None, checked_at: None, error: None }
    }
}

} // verus!
