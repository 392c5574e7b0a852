//! Classification of worker liveness probes.
//!
//! The surrounding application issues a single bounded-timeout request to the
//! worker's liveness endpoint and hands the outcome to [`classify_probe`]:
//! `None` when the transport failed (connection refused, timeout), or the
//! status code and body when a response arrived. Each probe is independent;
//! nothing is cached.

use vstd::prelude::*;

verus! {

/// Why a single liveness probe failed.
#[derive(Debug, PartialEq, Eq, Structural)]
pub enum HealthError {
    /// The worker could not be reached at all: connection refused or timeout.
    Unreachable,
    /// The worker answered, but with a non-success status code.
    BadStatus(u16),
}

/// A status code counts as success exactly when it lies in the 2xx range.
pub open spec fn is_success_status(code: u16) -> bool {
    200 <= code < 300
}

/// Turns the raw outcome of one liveness request into the probe result.
///
/// `response` is `None` when the transport failed before any status arrived,
/// and `Some((status, body))` otherwise. A 2xx status yields the body as-is;
/// any other status yields `BadStatus` with that code.
pub fn classify_probe(response: Option<(u16, String)>) -> (r: Result<String, HealthError>)
    ensures
        response is None <==> r == Result::<String, HealthError>::Err(HealthError::Unreachable),
        response matches Some(p) ==> if is_success_status(p.0) {
            r matches Ok(body) && body@ == p.1@
        } else {
            r == Result::<String, HealthError>::Err(HealthError::BadStatus(p.0))
        },
{
    match response {
        None => Err(HealthError::Unreachable),
        Some((code, body)) => {
            if 200 <= code && code < 300 {
                Ok(body)
            } else {
                Err(HealthError::BadStatus(code))
            }
        },
    }
}

} // verus!
