//! Size negotiation for write-mode opens.
//!
//! A write-mode open aims for a target size: the caller's request when there
//! is one, else the file's current size, else a fixed default. The file is
//! grown to the target when it is smaller, and is never shrunk, so the size
//! after the open is the maximum of the current size and the target.

use vstd::prelude::*;

verus! {

/// Size given to a fresh, empty file when the caller does not ask for one.
pub const DEFAULT_SIZE: usize = 1048576;

/// The size a write-mode open aims for: the caller's request when positive,
/// else the file's current size when positive, else [`DEFAULT_SIZE`].
pub open spec fn size_target(requested: int, current: int) -> int {
    if requested > 0 {
        requested
    } else if current > 0 {
        current
    } else {
        DEFAULT_SIZE as int
    }
}

/// The file's size after a write-mode open: the target, except that a file
/// is never shrunk below its current size.
pub open spec fn open_size(requested: int, current: int) -> int {
    if current > size_target(requested, current) {
        current
    } else {
        size_target(requested, current)
    }
}

/// Computes [`open_size`] for machine-sized inputs.
pub fn compute_open_size(requested: usize, current: usize) -> (s: usize)
    ensures
        s == open_size(requested as int, current as int),
{
    let target: usize = if requested > 0 {
        requested
    } else if current > 0 {
        current
    } else {
        DEFAULT_SIZE
    };
    if current > target {
        current
    } else {
        target
    }
}

/// An open never shrinks the file: the size after a write-mode open is at
/// least the size before it, whatever was requested.
pub proof fn lemma_open_size_never_shrinks(requested: int, current: int)
    ensures
        open_size(requested, current) >= current,
{
}

/// A write-mode open with no requested size leaves an existing, non-empty
/// file at exactly its current size.
pub proof fn lemma_open_size_keeps_existing(current: int)
    requires
        current > 0,
    ensures
        open_size(0, current) == current,
{
}

/// Requesting more than the current size grows the file to exactly the
/// requested size.
pub proof fn lemma_open_size_grows_to_request(requested: int, current: int)
    requires
        0 <= current,
        requested > current,
    ensures
        open_size(requested, current) == requested,
{
}

/// Requesting no more than the current size of a non-empty file leaves the
/// file at its current size.
pub proof fn lemma_open_size_request_within(requested: int, current: int)
    requires
        0 < current,
        requested <= current,
    ensures
        open_size(requested, current) == current,
{
}

/// A write-mode open of a fresh or empty file with no requested size yields
/// exactly [`DEFAULT_SIZE`] bytes.
pub proof fn lemma_open_size_default(requested: int, current: int)
    requires
        requested == 0,
        current == 0,
    ensures
        open_size(requested, current) == DEFAULT_SIZE as int,
{
}

/// The size after an open covers the caller's request.
pub proof fn lemma_open_size_at_least_requested(requested: int, current: int)
    ensures
        open_size(requested, current) >= requested,
{
}

} // verus!
