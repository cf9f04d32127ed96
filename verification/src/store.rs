//! The in-memory holder of the latest snapshot, read by the presentation
//! side. It is replaced as one whole value each tick, never field by field,
//! so a reader can never observe a half-updated snapshot.

use crate::snapshot::{SnapView, Snapshot};
use vstd::prelude::*;

verus! {

/// Holds the latest snapshot, or nothing before the first tick completes.
/// `version` grows by one on every update: the presentation side polls it to
/// learn that a new snapshot is on display.
pub struct SnapshotStore {
    pub current: Option<Snapshot>,
    pub version: u64,
}

impl SnapshotStore {
    /// The value on display: the latest snapshot's value, or `None` before
    /// the first tick.
    pub open spec fn stored(self) -> Option<SnapView> {
        match self.current {
            Some(s) => Some(s@),
            None => None,
        }
    }

    /// An empty store: nothing is available yet.
    pub fn new() -> (st: SnapshotStore)
        ensures
            st.stored() is None,
            st.version == 0,
    {
        SnapshotStore { current: None, version: 0 }
    }

    /// Replaces the stored snapshot as one whole value and notes the update,
    /// so a poll of `version` sees exactly one step per replacement.
    pub fn replace(&mut self, s: Snapshot)
        requires
            old(self).version < u64::MAX,
        ensures
            final(self).stored() == Some(s@),
            final(self).version == old(self).version + 1,
    {
        self.current = Some(s);
        self.version = self.version + 1;
    }

    /// Reads the latest snapshot, or `None` before the first tick completes.
    pub fn latest(&self) -> (r: &Option<Snapshot>)
        ensures
            *r == self.current,
    {
        &self.current
    }
}

} // verus!
