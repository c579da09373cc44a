//! The health payload.

use vstd::prelude::*;
use vstd::string::StringExecFns;

verus! {

/// What the service reports of itself.
#[derive(Clone, Debug, PartialEq, Eq)]
pub struct HealthStatus {
    /// Always "healthy".
    pub status: String,
    /// Seconds since the Unix epoch at the time of the report.
    pub timestamp: u64,
    /// Always "json-validator".
    pub service: String,
}

/// The mathematical content of a [`HealthStatus`].
pub struct HealthReport {
    pub status: Seq<char>,
    pub timestamp: nat,
    pub service: Seq<char>,
}

impl View for HealthStatus {
    type V = HealthReport;

    open spec fn view(&self) -> HealthReport {
        HealthReport {
            status: self.status@,
            timestamp: self.timestamp as nat,
            service: self.service@,
        }
    }
}

/// The report made when the clock reads `timestamp`.
pub open spec fn report_at(timestamp: u64) -> HealthReport {
    HealthReport { status: "healthy"@, timestamp: timestamp as nat, service: "json-validator"@ }
}

/// Reports the service healthy at `timestamp`, the caller's reading of the
/// clock in seconds since the Unix epoch.
pub fn health_check(timestamp: u64) -> (report: HealthStatus)
    ensures
        report@ == report_at(timestamp),
{
    HealthStatus {
        status: String::from_str("healthy"),
        timestamp,
        service: String::from_str("json-validator"),
    }
}

/// Reports carry their clock readings unchanged: of two reports, the one made
/// at the later reading has the later or equal timestamp, and they differ in
/// nothing else.
pub proof fn law_reports_follow_the_clock(earlier: u64, later: u64)
    requires
        earlier <= later,
    ensures
        report_at(earlier).timestamp <= report_at(later).timestamp,
        report_at(earlier).status == report_at(later).status,
        report_at(earlier).service == report_at(later).service,
{
}

} // verus!
