//! One published version of a task.

use vstd::prelude::*;

verus! {

/// The record kept for one published version: the content hash and the time
/// at which the host saw it published. It never changes once stored.
#[derive(Clone, Copy, Debug, PartialEq, Eq)]
pub struct VersionInfo {
    /// The 32-byte digest of the content; the registry does not interpret it.
    pub hash: [u8; 32],
    /// The host's time at the moment of publishing.
    pub timestamp: u64,
}

impl VersionInfo {
    /// The record of `hash`, published at `timestamp`.
    pub fn new(hash: [u8; 32], timestamp: u64) -> (info: VersionInfo)
        ensures
            info == (VersionInfo { hash, timestamp }),
    {
        VersionInfo { hash, timestamp }
    }
}

} // verus!
