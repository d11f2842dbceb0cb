//! Time, in milliseconds since a start that the host chooses. The host reads
//! the clock; the library only compares the readings it is handed.

use vstd::prelude::*;

verus! {

/// The time from `since` to `now`; none where `now` is the earlier one.
pub open spec fn elapsed(since: int, now: int) -> int {
    if now >= since {
        now - since
    } else {
        0
    }
}

/// The length of the frame that ends at `now`, which is as long as a frame
/// gets where more time than that has passed.
pub open spec fn frame_length(last: int, now: int) -> int {
    if elapsed(last, now) > u32::MAX {
        u32::MAX as int
    } else {
        elapsed(last, now)
    }
}

/// The milliseconds from `since` to `now`.
pub fn elapsed_ms(since: u64, now: u64) -> (ms: u64)
    ensures
        ms == elapsed(since as int, now as int),
{
    if now >= since {
        now - since
    } else {
        0
    }
}

/// The milliseconds by which a frame that ends at `now` advances the game.
pub fn frame_delta(last: u64, now: u64) -> (dt: u32)
    ensures
        dt == frame_length(last as int, now as int),
{
    let ms: u64 = elapsed_ms(last, now);
    if ms > 4_294_967_295 {
        u32::MAX
    } else {
        ms as u32
    }
}

} // verus!
