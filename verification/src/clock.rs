//! Elapsed-time arithmetic over caller-supplied millisecond clocks.
//!
//! The engine never reads a clock itself: every tick receives the current
//! time in milliseconds from its driver. Elapsed time is clamped at zero,
//! so a clock that jumps backwards merely delays timeouts instead of
//! breaking the engine.

use vstd::prelude::*;

verus! {

/// Milliseconds elapsed from `entered` to `now`, zero when `now` lies
/// before `entered`.
pub open spec fn spec_elapsed(entered: u64, now: u64) -> int {
    if now >= entered {
        now - entered
    } else {
        0
    }
}

/// Executable counterpart of [`spec_elapsed`].
pub fn elapsed_millis(entered: u64, now: u64) -> (r: u64)
    ensures
        r == spec_elapsed(entered, now),
{
    if now >= entered {
        now - entered
    } else {
        0
    }
}

} // verus!
