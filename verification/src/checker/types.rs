//! The classification of one probe and the sample it produces.

use crate::clock::Timestamp;
use vstd::prelude::*;

verus! {

/// The classification of a single probe.
#[derive(Clone, Copy, Debug, PartialEq, Eq, Structural)]
pub enum Status {
    /// The response matched what was expected.
    Up,
    /// The request failed or timed out.
    Down,
    /// A response arrived, but not the expected one, or too slowly.
    Warning,
}

impl Status {
    /// `Down` and `Warning` count as failing.
    pub open spec fn is_failing(self) -> bool {
        self != Status::Up
    }

    pub fn failing(&self) -> (b: bool)
        ensures
            b == self.is_failing(),
    {
        match self {
            Status::Up => false,
            _ => true,
        }
    }
}

/// One sample: the outcome of one probe of one endpoint.
#[derive(Debug)]
pub struct CheckResult {
    pub timestamp: Timestamp,
    pub status: Status,
    pub response_time_ms: Option<u64>,
    pub http_status: Option<u16>,
    pub error_message: Option<String>,
}

impl Clone for CheckResult {
    fn clone(&self) -> (copy: CheckResult)
        ensures
            copy == *self,
    {
        CheckResult {
            timestamp: self.timestamp,
            status: self.status,
            response_time_ms: self.response_time_ms,
            http_status: self.http_status,
            error_message: match &self.error_message {
                Some(text) => Some(text.clone()),
                None => None,
            },
        }
    }
}

/// The status of a probe that got a response.
pub open spec fn success_status(
    response_time_ms: u64,
    http_status: u16,
    expected_status: u16,
    warning_threshold_ms: Option<u64>,
) -> Status {
    let slow = match warning_threshold_ms {
        Some(t) => t > 0 && response_time_ms > t,
        None => false,
    };
    if http_status != expected_status || slow {
        Status::Warning
    } else {
        Status::Up
    }
}

impl CheckResult {
    /// A failed probe taken at `timestamp`: always `Down`, with the error text.
    pub fn down_at(timestamp: Timestamp, error: String) -> (r: CheckResult)
        ensures
            r == (CheckResult {
                timestamp,
                status: Status::Down,
                response_time_ms: None,
                http_status: None,
                error_message: Some(error),
            }),
    {
        CheckResult {
            timestamp,
            status: Status::Down,
            response_time_ms: None,
            http_status: None,
            error_message: Some(error),
        }
    }

    /// A probe that got a response at `timestamp`. It is `Warning` when the
    /// response code differs from the expected one, or when a threshold above
    /// zero is set and the response took longer; otherwise `Up`.
    pub fn success_at(
        timestamp: Timestamp,
        response_time_ms: u64,
        http_status: u16,
        expected_status: u16,
        warning_threshold_ms: Option<u64>,
    ) -> (r: CheckResult)
        ensures
            r == (CheckResult {
                timestamp,
                status: success_status(
                    response_time_ms,
                    http_status,
                    expected_status,
                    warning_threshold_ms,
                ),
                response_time_ms: Some(response_time_ms),
                http_status: Some(http_status),
                error_message: None,
            }),
    {
        let status_mismatch = http_status != expected_status;
        let slow_response = match warning_threshold_ms {
            Some(t) => t > 0 && response_time_ms > t,
            None => false,
        };
        let status = if status_mismatch || slow_response {
            Status::Warning
        } else {
            Status::Up
        };
        CheckResult {
            timestamp,
            status,
            response_time_ms: Some(response_time_ms),
            http_status: Some(http_status),
            error_message: None,
        }
    }

    /// A failed probe, stamped with the current time.
    pub fn new_down(error: String) -> (r: CheckResult)
        ensures
            r.status == Status::Down,
            r.response_time_ms.is_none(),
            r.http_status.is_none(),
            r.error_message == Some(error),
    {
        CheckResult::down_at(crate::clock::now(), error)
    }

    /// A probe that got a response, stamped with the current time.
    pub fn new_success(
        response_time_ms: u64,
        http_status: u16,
        expected_status: u16,
        warning_threshold_ms: Option<u64>,
    ) -> (r: CheckResult)
        ensures
            r.status == success_status(
                response_time_ms,
                http_status,
                expected_status,
                warning_threshold_ms,
            ),
            r.response_time_ms == Some(response_time_ms),
            r.http_status == Some(http_status),
            r.error_message.is_none(),
    {
        CheckResult::success_at(
            crate::clock::now(),
            response_time_ms,
            http_status,
            expected_status,
            warning_threshold_ms,
        )
    }
}

} // verus!
