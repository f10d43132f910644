//! Outcomes that end a sync pass early.
use vstd::prelude::*;

verus! {

/// A source-consistency condition met while fetching one height.
#[derive(Debug, Clone, Copy, PartialEq, Eq, Structural)]
pub enum SyncError {
    /// The source holds nothing yet at this height.
    NothingAtHeight(u64),
    /// The block at this height is not final yet and must not be stored.
    PendingBlock(u64),
}

impl SyncError {
    /// The height that the condition was met at.
    pub fn height(&self) -> (r: u64)
        ensures
            r == self.height_spec(),
    {
        match self {
            SyncError::NothingAtHeight(h) => *h,
            SyncError::PendingBlock(h) => *h,
        }
    }

    pub open spec fn height_spec(&self) -> u64 {
        match self {
            SyncError::NothingAtHeight(h) => *h,
            SyncError::PendingBlock(h) => *h,
        }
    }
}

/// Why a pass was abandoned. Every variant is transient: the next tick
/// starts a fresh pass.
#[derive(Debug, Clone, Copy, PartialEq, Eq, Structural)]
pub enum PassError {
    /// The node could not be reached or answered with something malformed.
    Transport,
    /// Reading from or writing to the store failed.
    Storage,
    /// The source was not ready at some height of the range.
    Source(SyncError),
}

/// The configuration cannot start a sync loop.
#[derive(Debug, Clone, Copy, PartialEq, Eq, Structural)]
pub enum ConfigError {
    /// The tick period is zero.
    ZeroInterval,
}

} // verus!
