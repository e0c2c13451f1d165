//! From the outcome of one HTTP request to the sample it stands for.

use crate::checker::types::{success_status, CheckResult, Status};
use crate::clock::Timestamp;
use crate::config::SiteConfig;
use vstd::prelude::*;
use vstd::string::StringExecFns;

verus! {

/// Why a request got no response.
#[derive(Clone, Copy, Debug, PartialEq, Eq, Structural)]
pub enum ProbeFailure {
    /// The request ran into the timeout.
    Timeout,
    /// No connection could be made.
    Connect,
    /// Any other transport error.
    Other,
}

/// What one request came to.
#[derive(Debug)]
pub enum ProbeOutcome {
    /// A response arrived after `elapsed_ms` milliseconds.
    Responded { elapsed_ms: u64, status_code: u16 },
    /// No response arrived; `detail` is the transport's own description.
    Failed { kind: ProbeFailure, detail: String },
}

/// The error text of a failed probe. A timeout is named without detail.
pub open spec fn failure_text(kind: ProbeFailure, detail: Seq<char>) -> Seq<char> {
    match kind {
        ProbeFailure::Timeout => "Request timeout"@,
        ProbeFailure::Connect => "Connection failed: "@ + detail,
        ProbeFailure::Other => "Request failed: "@ + detail,
    }
}

/// The error text of a failed probe.
pub fn failure_message(kind: ProbeFailure, detail: &str) -> (message: String)
    ensures
        message@ == failure_text(kind, detail@),
{
    match kind {
        ProbeFailure::Timeout => String::from_str("Request timeout"),
        ProbeFailure::Connect => {
            let mut message = String::from_str("Connection failed: ");
            message.append(detail);
            message
        },
        ProbeFailure::Other => {
            let mut message = String::from_str("Request failed: ");
            message.append(detail);
            message
        },
    }
}

/// Whether `sample` is what `outcome`, seen at `timestamp`, stands for. A
/// failure is one `Down` sample with the error text. A response is `Up` or
/// `Warning` by its code and latency, and carries both.
pub open spec fn is_sample_of(
    sample: CheckResult,
    timestamp: Timestamp,
    outcome: ProbeOutcome,
    expected_status: u16,
    warning_threshold_ms: Option<u64>,
) -> bool {
    match outcome {
        ProbeOutcome::Responded { elapsed_ms, status_code } => {
            &&& sample.timestamp == timestamp
            &&& sample.status == success_status(
                elapsed_ms,
                status_code,
                expected_status,
                warning_threshold_ms,
            )
            &&& sample.response_time_ms == Some(elapsed_ms)
            &&& sample.http_status == Some(status_code)
            &&& sample.error_message.is_none()
        },
        ProbeOutcome::Failed { kind, detail } => {
            &&& sample.timestamp == timestamp
            &&& sample.status == Status::Down
            &&& sample.response_time_ms.is_none()
            &&& sample.http_status.is_none()
            &&& sample.error_message matches Some(text)
            &&& text@ == failure_text(kind, detail@)
        },
    }
}

/// Classifies the outcome of a request that ended at `timestamp`.
pub fn classify_at(
    timestamp: Timestamp,
    outcome: &ProbeOutcome,
    expected_status: u16,
    warning_threshold_ms: Option<u64>,
) -> (sample: CheckResult)
    ensures
        is_sample_of(sample, timestamp, *outcome, expected_status, warning_threshold_ms),
{
    match outcome {
        ProbeOutcome::Responded { elapsed_ms, status_code } => CheckResult::success_at(
            timestamp,
            *elapsed_ms,
            *status_code,
            expected_status,
            warning_threshold_ms,
        ),
        ProbeOutcome::Failed { kind, detail } => CheckResult::down_at(
            timestamp,
            failure_message(*kind, detail.as_str()),
        ),
    }
}

/// Classifies the outcome of a request to `site` that has just ended.
pub fn classify(outcome: &ProbeOutcome, site: &SiteConfig, warning_threshold_ms: Option<u64>) -> (sample:
    CheckResult)
    ensures
        is_sample_of(
            sample,
            sample.timestamp,
            *outcome,
            site.expected_status,
            warning_threshold_ms,
        ),
{
    classify_at(crate::clock::now(), outcome, site.expected_status, warning_threshold_ms)
}

} // verus!
