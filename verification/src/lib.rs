//! Filesystem change-notification core.
//!
//! The crate keeps the watcher lifecycle, backend selection, event
//! normalization and debounce aggregation as verified logic over plain
//! values.  The host wires a concrete notification backend to it: raw
//! events enter as `(kind, paths)` pairs, normalized events are drained
//! pull-style per watcher id.

use vstd::prelude::*;

pub mod backend;
pub mod debounce;
pub mod events;
pub mod registry;

verus! {

/// Converts borrowed path text into the owned form the registry stores,
/// character for character.
pub fn path_to_string(path: &str) -> (r: String)
    ensures
        r@ == path@,
{
    path.to_owned()
}

} // verus!
