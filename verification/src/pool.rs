//! Grow-only buffer sizing.
//!
//! GPU buffers are reused across frames: a buffer already big enough for
//! the frame's data keeps its size (its stale contents are about to be
//! fully overwritten), and one too small is replaced by a buffer of
//! exactly the required size. The policy never shrinks a buffer, so a run
//! of frames with stable or shrinking sprite counts allocates nothing.

use vstd::prelude::*;

verus! {

/// The byte size a buffer has after being asked to hold `required` bytes:
/// unchanged when already big enough, otherwise exactly `required`.
pub open spec fn grown_size(current: int, required: int) -> int {
    if required > current {
        required
    } else {
        current
    }
}

/// Decides the byte size of a buffer for this frame under the grow-only
/// policy. The caller allocates a fresh buffer (with the old usage flags)
/// exactly when the result differs from `current`.
pub fn ensure_buffer_size(current: u64, required: u64) -> (new_size: u64)
    ensures
        new_size == grown_size(current as int, required as int),
        new_size >= current,
        new_size >= required,
{
    if current >= required {
        current
    } else {
        required
    }
}

/// Law: the grow-only policy yields a buffer that always fits the request,
/// never shrinks, and allocates nothing beyond the request.
pub proof fn lemma_grown_size_bounds(current: int, required: int)
    ensures
        grown_size(current, required) >= current,
        grown_size(current, required) >= required,
        grown_size(current, required) == current || grown_size(current, required) == required,
{
}

/// Law (monotone capacity): whatever two frames require, the size after
/// the second frame is at least the size after the first, which is at
/// least the starting size — repeated frames never shrink a buffer.
pub proof fn lemma_capacity_monotonic(start: int, required_first: int, required_second: int)
    ensures
        grown_size(grown_size(start, required_first), required_second) >= grown_size(
            start,
            required_first,
        ),
        grown_size(start, required_first) >= start,
{
}

} // verus!
