use vstd::prelude::*;

verus! {

/// Presentation time in milliseconds of the frame at `index` for an integer
/// `framerate` in frames per second: the integer part of
/// `index * 1000 / framerate`.
///
/// The per-frame truncation is deliberate: when `1000 / framerate` is not
/// exact, the rounding error accumulates frame by frame instead of being
/// corrected, and callers depend on that drift bit for bit.
pub open spec fn pts_millis(index: int, framerate: int) -> int
    recommends
        framerate >= 1,
{
    index * 1000 / framerate
}

/// Maps a monotonic frame index to its presentation timestamp in milliseconds.
pub fn pts_ms(index: u64, framerate: u64) -> (pts: u64)
    requires
        framerate >= 1,
        index * 1000 <= u64::MAX,
    ensures
        pts == pts_millis(index as int, framerate as int),
{
    (index * 1000) / framerate
}

} // verus!
