//! Tracks the files that a run writes, for cleanup when the run is cancelled.
//!
//! A tracker is `Active` until the run either commits, which keeps every
//! output, or rolls back, which hands every recorded path out for deletion.

use std::sync::atomic::AtomicBool;
use std::sync::atomic::Ordering;
use std::sync::Arc;
use vstd::prelude::*;

verus! {

/// Where a run stands.
#[derive(Debug, Clone, Copy, PartialEq, Eq, Structural)]
pub enum RunPhase {
    /// The run is under way: paths can be recorded.
    Active,
    /// The run completed; its outputs are kept.
    Committed,
    /// The run was abandoned; its outputs are to be deleted.
    RolledBack,
}

/// The texts of a list of strings, in order.
pub open spec fn texts(list: Seq<String>) -> Seq<Seq<char>> {
    list.map_values(|s: String| s@)
}

/// Tracks files created during processing for cleanup on interruption
#[derive(Debug)]
pub struct FileTracker {
    files: Vec<String>,
    cancelled: Arc<AtomicBool>,
    phase: RunPhase,
}

impl FileTracker {
    /// The paths recorded so far, oldest first.
    pub closed spec fn pending(&self) -> Seq<Seq<char>> {
        texts(self.files@)
    }

    /// Where the run stands.
    pub closed spec fn spec_phase(&self) -> RunPhase {
        self.phase
    }

    /// The shared flag by which the run is cancelled.
    pub closed spec fn flag(&self) -> Arc<AtomicBool> {
        self.cancelled
    }

    /// A tracker for a new run: active, with nothing recorded, and watching
    /// the given flag. The run is cancelled by setting the flag.
    pub fn new_with_cancellation(cancelled: Arc<AtomicBool>) -> (t: FileTracker)
        ensures
            t.phase() == RunPhase::Active,
            t.pending() == Seq::<Seq<char>>::empty(),
            t.flag() == cancelled,
    {
        let t = FileTracker { files: Vec::new(), cancelled, phase: RunPhase::Active };
        assert(t.pending() =~= Seq::<Seq<char>>::empty());
        t
    }

    /// Where the run stands.
    #[verifier::when_used_as_spec(spec_phase)]
    pub fn phase(&self) -> (p: RunPhase)
        ensures
            p == self.spec_phase(),
    {
        self.phase
    }

    /// The paths recorded so far, oldest first.
    pub fn files(&self) -> (f: &Vec<String>)
        ensures
            texts(f@) == self.pending(),
    {
        &self.files
    }

    /// Records a path that the run is about to write.
    pub fn track(&mut self, path: String)
        requires
            old(self).phase() == RunPhase::Active,
        ensures
            final(self).phase() == RunPhase::Active,
            final(self).pending() == old(self).pending().push(path@),
            final(self).flag() == old(self).flag(),
    {
        proof {
            self.files@.lemma_push_map_commute(|s: String| s@, path);
        }
        self.files.push(path);
    }

    /// Reads the shared cancellation flag, [`FileTracker::flag`]. The flag is
    /// set from outside the run, so nothing is known of the answer; what
    /// follows from either answer is stated by [`FileTracker::observe`].
    pub fn is_cancelled(&self) -> bool {
        self.cancelled.load(Ordering::Relaxed)
    }

    /// Completes the run: the recorded paths are forgotten and every output
    /// is kept.
    pub fn commit(&mut self)
        requires
            old(self).phase() == RunPhase::Active,
        ensures
            final(self).phase() == RunPhase::Committed,
            final(self).pending() == Seq::<Seq<char>>::empty(),
            final(self).flag() == old(self).flag(),
    {
        self.files = Vec::new();
        self.phase = RunPhase::Committed;
        assert(self.pending() =~= Seq::<Seq<char>>::empty());
    }

    /// Abandons the run: hands out every recorded path, oldest first, for the
    /// caller to delete, and forgets them.
    pub fn rollback(&mut self) -> (doomed: Vec<String>)
        requires
            old(self).phase() == RunPhase::Active,
        ensures
            final(self).phase() == RunPhase::RolledBack,
            final(self).pending() == Seq::<Seq<char>>::empty(),
            final(self).flag() == old(self).flag(),
            texts(doomed@) == old(self).pending(),
    {
        let mut doomed: Vec<String> = Vec::new();
        std::mem::swap(&mut doomed, &mut self.files);
        self.phase = RunPhase::RolledBack;
        assert(self.pending() =~= Seq::<Seq<char>>::empty());
        doomed
    }

    /// A checkpoint between two units of work, given what the cancellation
    /// flag showed: rolls back if the run was cancelled, and otherwise leaves
    /// the tracker as it is.
    pub fn observe(&mut self, cancelled: bool) -> (doomed: Option<Vec<String>>)
        requires
            old(self).phase() == RunPhase::Active,
        ensures
            final(self).flag() == old(self).flag(),
            match doomed {
                Some(paths) => cancelled && texts(paths@) == old(self).pending() && final(
                    self
                ).phase() == RunPhase::RolledBack && final(self).pending() == Seq::<
                    Seq<char>,
                >::empty(),
                None => !cancelled && final(self).phase() == RunPhase::Active && final(
                    self
                ).pending() == old(self).pending(),
            },
    {
        if cancelled {
            Some(self.rollback())
        } else {
            None
        }
    }

    /// A checkpoint between two units of work: reads the cancellation flag
    /// and rolls back if it is set.
    pub fn check_cancelled(&mut self) -> (doomed: Option<Vec<String>>)
        requires
            old(self).phase() == RunPhase::Active,
        ensures
            final(self).flag() == old(self).flag(),
            match doomed {
                Some(paths) => texts(paths@) == old(self).pending() && final(self).phase()
                    == RunPhase::RolledBack && final(self).pending() == Seq::<Seq<char>>::empty(),
                None => final(self).phase() == RunPhase::Active && final(self).pending() == old(self).pending(),
            },
    {
        let cancelled = self.is_cancelled();
        self.observe(cancelled)
    }
}

} // verus!
