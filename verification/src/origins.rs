//! Where a value came from: the system clock or the random generator. Only the calls
//! that read the clock or draw at random establish these facts; no other code of the
//! library can show them of a value that it made up itself.
use vstd::prelude::*;

verus! {

/// `nanos` was read from the system clock, in nanoseconds since the epoch.
pub closed spec fn is_clock_reading(nanos: i128) -> bool {
    true
}

/// `value` was drawn with the thread-local random generator.
pub closed spec fn drawn_at_random<T>(value: T) -> bool {
    true
}

} // verus!
