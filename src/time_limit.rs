//! The daily window during which the service answers: from 18:00 to 23:00,
//! local time, both ends excluded.

use chrono::{Local, Timelike};
use vstd::prelude::*;

verus! {

/// 18:00:00, in seconds after midnight.
pub const WINDOW_OPENS: u32 = 64800;

/// 23:00:00, in seconds after midnight.
pub const WINDOW_CLOSES: u32 = 82800;

/// Whether the time of day `secs` seconds and `nanos` nanoseconds after
/// midnight lies strictly after the opening and strictly before the closing.
pub open spec fn in_window(secs: int, nanos: int) -> bool {
    &&& (secs > WINDOW_OPENS || (secs == WINDOW_OPENS && nanos > 0))
    &&& secs < WINDOW_CLOSES
}

/// Relies on chrono's `Local::now().time()`, with `num_seconds_from_midnight`
/// and `nanosecond`: the local time of day, read from the system clock and
/// time zone.
#[verifier::external_body]
fn local_time_of_day() -> (u32, u32) {
    let now = Local::now().time();
    (now.num_seconds_from_midnight(), now.nanosecond())
}

/// Whether the time of day lies in the window.
pub fn is_time_in_range(secs: u32, nanos: u32) -> (b: bool)
    ensures
        b == in_window(secs as int, nanos as int),
{
    (secs > WINDOW_OPENS || (secs == WINDOW_OPENS && nanos > 0)) && secs < WINDOW_CLOSES
}

/// Whether the current local time lies in the window.
pub fn is_current_time_range() -> bool {
    let (secs, nanos) = local_time_of_day();
    is_time_in_range(secs, nanos)
}

} // verus!
