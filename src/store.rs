//! A single-slot holder of the latest sample of one process.
//!
//! Concurrent users share a store behind a lock (`Mutex<SnapshotStore>`):
//! `set` and `get` then see and replace whole samples only.
use vstd::prelude::*;
use crate::sample::Sample;

verus! {

/// The latest sample of one process. The last write wins; no history is
/// kept, and a sample of any other process is refused.
pub struct SnapshotStore {
    pid: u32,
    slot: Option<Sample>,
}

impl SnapshotStore {
    #[verifier::type_invariant]
    spec fn holds_own_samples(self) -> bool {
        self.slot matches Some(s) ==> s.pid == self.pid
    }

    /// The process whose samples this store holds.
    pub closed spec fn owner(&self) -> u32 {
        self.pid
    }

    /// The sample stored last, or `None` when none was stored yet.
    pub closed spec fn latest(&self) -> Option<Sample> {
        match self.slot {
            Some(s) if s.pid == self.pid => Some(s),
            _ => None,
        }
    }

    /// What a store holds is always a sample of its own process.
    pub proof fn lemma_latest_is_own(&self)
        ensures
            self.latest() matches Some(s) ==> s.pid == self.owner(),
    {
    }

    /// An empty store for the samples of `pid`.
    pub fn new(pid: u32) -> (r: SnapshotStore)
        ensures
            r.owner() == pid,
            r.latest() is None,
    {
        SnapshotStore { pid, slot: None }
    }

    /// The process whose samples this store holds.
    pub fn pid(&self) -> (r: u32)
        ensures
            r == self.owner(),
    {
        self.pid
    }

    /// Replaces the held sample by `sample`. A sample of another process is
    /// refused and leaves the store as it was; the result says whether
    /// `sample` was stored.
    pub fn set(&mut self, sample: Sample) -> (r: bool)
        ensures
            r == (sample.pid == old(self).owner()),
            final(self).owner() == old(self).owner(),
            final(self).latest() == (if r {
                Some(sample)
            } else {
                old(self).latest()
            }),
    {
        proof {
            use_type_invariant(&*self);
        }
        if sample.pid != self.pid {
            return false;
        }
        self.slot = Some(sample);
        true
    }

    /// The sample stored last, or `None` when none was stored yet; always a
    /// sample of this store's own process.
    pub fn get(&self) -> (r: Option<Sample>)
        ensures
            r == self.latest(),
            r matches Some(s) ==> s.pid == self.owner(),
    {
        proof {
            use_type_invariant(self);
        }
        self.slot
    }
}

} // verus!
