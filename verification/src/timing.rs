//! Spans of time as the daemon's waits and phase records use them.
use vstd::prelude::*;

verus! {

/// The number of nanoseconds in a second.
pub const NANOS_PER_SECOND: u32 = 1_000_000_000;

/// A span of time: whole seconds and the nanoseconds beyond them.
#[derive(Clone, Copy)]
pub struct Span {
    pub secs: u64,
    pub nanos: u32,
}

impl Span {
    /// The nanoseconds part is below one second.
    pub open spec fn wf(self) -> bool {
        self.nanos < NANOS_PER_SECOND
    }

    /// The length of the span in nanoseconds.
    pub open spec fn total_nanos(self) -> int {
        self.secs as int * 1_000_000_000 + self.nanos as int
    }
}

/// The time still left of `readiness_timeout` after `elapsed`, or `None` once none is left.
pub fn remaining_timeout(elapsed: Span, readiness_timeout: Span) -> (remaining: Option<Span>)
    requires
        elapsed.wf(),
        readiness_timeout.wf(),
    ensures
        readiness_timeout.total_nanos() > elapsed.total_nanos() ==> (remaining matches Some(r)
            && r.wf() && r.total_nanos() == readiness_timeout.total_nanos()
            - elapsed.total_nanos()),
        readiness_timeout.total_nanos() <= elapsed.total_nanos() ==> remaining is None,
{
    if readiness_timeout.secs < elapsed.secs {
        return None;
    }
    if readiness_timeout.secs == elapsed.secs {
        if readiness_timeout.nanos <= elapsed.nanos {
            return None;
        }
        return Some(Span { secs: 0, nanos: readiness_timeout.nanos - elapsed.nanos });
    }
    if readiness_timeout.nanos >= elapsed.nanos {
        Some(
            Span {
                secs: readiness_timeout.secs - elapsed.secs,
                nanos: readiness_timeout.nanos - elapsed.nanos,
            },
        )
    } else {
        Some(
            Span {
                secs: readiness_timeout.secs - elapsed.secs - 1,
                nanos: NANOS_PER_SECOND - elapsed.nanos + readiness_timeout.nanos,
            },
        )
    }
}

/// The whole milliseconds of `duration`, saturating at `u64::MAX`.
pub fn duration_milliseconds(duration: Span) -> (millis: u64)
    requires
        duration.wf(),
    ensures
        millis as int == if duration.total_nanos() / 1_000_000 <= u64::MAX as int {
            duration.total_nanos() / 1_000_000
        } else {
            u64::MAX as int
        },
{
    let total: u128 = duration.secs as u128 * 1000 + (duration.nanos / 1_000_000) as u128;
    assert(total as int == duration.total_nanos() / 1_000_000) by (nonlinear_arith)
        requires
            total as int == duration.secs as int * 1000 + duration.nanos as int / 1_000_000,
            duration.nanos < 1_000_000_000,
    {
    }
    if total > u64::MAX as u128 {
        u64::MAX
    } else {
        total as u64
    }
}

/// Converts a count to the `u64` used in phase records, saturating where it would not fit.
pub fn usize_as_u64(value: usize) -> (result: u64)
    ensures
        result as int == if value as int <= u64::MAX as int {
            value as int
        } else {
            u64::MAX as int
        },
{
    value as u64
}

} // verus!
