//! The text line that reports latency.

use vstd::prelude::*;
use vstd::string::*;

use crate::metrics::LatencySnapshot;
use crate::tracks::{append_decimal, decimal};

verus! {

/// The latency line for a summary: a notice when there are no samples, else
/// the count and the statistics in microseconds.
pub open spec fn latency_line(s: LatencySnapshot) -> Seq<char> {
    if s.count == 0 {
        "latency | no samples yet"@
    } else {
        "latency | n="@ + decimal(s.count as nat) + " min="@ + decimal(s.min_us as nat)
            + "µs p50="@ + decimal(s.p50_us as nat) + "µs p90="@ + decimal(s.p90_us as nat)
            + "µs p99="@ + decimal(s.p99_us as nat) + "µs max="@ + decimal(s.max_us as nat)
            + "µs mean="@ + decimal(s.mean_us as nat) + "µs"@
    }
}

/// The line that reports the latency summary `s`.
pub fn latency_text(s: &LatencySnapshot) -> (line: String)
    ensures
        line@ == latency_line(*s),
{
    let mut line = String::new();
    if s.count == 0 {
        line.append("latency | no samples yet");
        return line;
    }
    line.append("latency | n=");
    append_decimal(&mut line, s.count);
    line.append(" min=");
    append_decimal(&mut line, s.min_us);
    line.append("µs p50=");
    append_decimal(&mut line, s.p50_us);
    line.append("µs p90=");
    append_decimal(&mut line, s.p90_us);
    line.append("µs p99=");
    append_decimal(&mut line, s.p99_us);
    line.append("µs max=");
    append_decimal(&mut line, s.max_us);
    line.append("µs mean=");
    append_decimal(&mut line, s.mean_us);
    line.append("µs");
    line
}

} // verus!
