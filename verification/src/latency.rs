//! The request-latency report: which measurement and unit a finished
//! request is logged with. Writing the log line is the surrounding
//! program's concern.

use vstd::prelude::*;

verus! {

/// The hook value installed on the response path of the request tracer.
#[derive(Debug, Clone, Copy)]
pub struct LatencyOnResponse;

/// The figure a latency is reported as: whole milliseconds when there are
/// any, else microseconds (under the log line's historical `ns` label).
pub fn latency_parts(millis: u64, micros: u64) -> (r: (u64, &'static str))
    ensures
        millis > 0 ==> r == (millis, " ms"),
        millis == 0 ==> r == (micros, " ns"),
{
    if millis > 0 {
        (millis, " ms")
    } else {
        (micros, " ns")
    }
}

} // verus!
