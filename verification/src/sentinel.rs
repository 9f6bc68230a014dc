//! The bridged sentinel constants.
//!
//! The upstream library reserves the four highest values of the
//! platform-width unsigned domain as out-of-band mode selectors: they are
//! passed where a real size would otherwise go. Upstream defines them as
//! textual macros, which structural header analysis cannot see, so they are
//! re-declared here by hand. Their width (`usize`) must stay consistent with
//! the width-normalization rule of the binding rule set, which exposes the
//! platform-width size type as `usize` as well.

use vstd::prelude::*;

verus! {

/// Interpret the input argument as a filename.
pub const PLUM_MODE_FILENAME: usize = usize::MAX;

/// Interpret the input argument as an in-memory buffer.
pub const PLUM_MODE_BUFFER: usize = usize::MAX - 1;

/// Interpret the input argument as a streaming callback descriptor.
pub const PLUM_MODE_CALLBACK: usize = usize::MAX - 2;

/// No memory limit: the largest value that still denotes a real size cap.
pub const PLUM_MAX_MEMORY_SIZE: usize = usize::MAX - 3;

/// The four sentinels are the four highest values of the `usize` domain,
/// strictly descending in the fixed semantic order filename, buffer,
/// callback, memory ceiling; in particular they are pairwise distinct.
pub proof fn lemma_sentinel_invariants()
    ensures
        PLUM_MODE_FILENAME == usize::MAX,
        PLUM_MODE_BUFFER == usize::MAX - 1,
        PLUM_MODE_CALLBACK == usize::MAX - 2,
        PLUM_MAX_MEMORY_SIZE == usize::MAX - 3,
        PLUM_MODE_FILENAME > PLUM_MODE_BUFFER,
        PLUM_MODE_BUFFER > PLUM_MODE_CALLBACK,
        PLUM_MODE_CALLBACK > PLUM_MAX_MEMORY_SIZE,
{
}

} // verus!
