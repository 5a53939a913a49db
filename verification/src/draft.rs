//! The snapshot cell: a transactional container with one committed value
//! and at most one in-progress draft.

use std::sync::Arc;
use vstd::prelude::*;

verus! {

/// A transactional cell holding a committed value plus at most one open
/// draft. Any number of readers can take a snapshot of the committed
/// value at any time; the snapshot is reference-counted, so it stays
/// valid and unchanged even after a later commit replaces the cell's
/// committed value. An edit becomes visible only when `commit` runs, and
/// a commit is atomic: either the whole draft becomes the committed value
/// or nothing changes.
pub struct Draft<T> {
    committed: Arc<T>,
    pending: Option<T>,
}

impl<T> Draft<T> {
    /// The value every reader currently sees.
    pub closed spec fn spec_committed(&self) -> T {
        *self.committed
    }

    /// The open draft, if an edit is in progress.
    pub closed spec fn spec_draft(&self) -> Option<T> {
        self.pending
    }

    /// A fresh cell: `value` is committed, no draft is open.
    pub fn from(value: T) -> (cell: Draft<T>)
        ensures
            cell.spec_committed() == value,
            cell.spec_draft() is None,
    {
        Draft { committed: Arc::new(value), pending: None }
    }

    /// Non-blocking read: a reference-counted snapshot of the committed
    /// value. Later commits do not change what the snapshot shows.
    pub fn latest(&self) -> (snap: Arc<T>)
        ensures
            *snap == self.spec_committed(),
    {
        self.committed.clone()
    }

    /// Borrow the committed value for reading.
    pub fn data(&self) -> (r: &T)
        ensures
            *r == self.spec_committed(),
    {
        &*self.committed
    }

    /// Whether an edit is in progress.
    pub fn has_draft(&self) -> (r: bool)
        ensures
            r == (self.spec_draft() is Some),
    {
        self.pending.is_some()
    }

    /// Open a draft starting from `start` (callers pass a copy of the
    /// committed value to edit it). If a draft is already open the call
    /// is re-entrant: the existing draft is kept, `start` is dropped and
    /// the call reports `false`, the "draft in progress" condition.
    pub fn open_draft(&mut self, start: T) -> (opened: bool)
        ensures
            opened == (old(self).spec_draft() is None),
            opened ==> final(self).spec_draft() == Some(start),
            !opened ==> final(self).spec_draft() == old(self).spec_draft(),
            final(self).spec_committed() == old(self).spec_committed(),
    {
        if self.pending.is_some() {
            false
        } else {
            self.pending = Some(start);
            true
        }
    }

    /// Replace the draft slot with `value`, opening a draft if none is
    /// open. The committed value is untouched.
    pub fn set_draft(&mut self, value: T)
        ensures
            final(self).spec_draft() == Some(value),
            final(self).spec_committed() == old(self).spec_committed(),
    {
        self.pending = Some(value);
    }

    /// Borrow the open draft, if any.
    pub fn draft_ref(&self) -> (r: Option<&T>)
        ensures
            match r {
                Some(d) => self.spec_draft() == Some(*d),
                None => self.spec_draft() is None,
            },
    {
        self.pending.as_ref()
    }

    /// Atomically make the draft the new committed value and clear the
    /// draft slot. Committing with no open draft is a no-op. Readers that
    /// captured an earlier snapshot keep seeing the old value.
    pub fn commit(&mut self)
        ensures
            final(self).spec_draft() is None,
            match old(self).spec_draft() {
                Some(d) => final(self).spec_committed() == d,
                None => final(self).spec_committed() == old(self).spec_committed(),
            },
    {
        match self.pending.take() {
            Some(d) => {
                self.committed = Arc::new(d);
            },
            None => {},
        }
    }

    /// Drop an open draft without touching the committed value.
    pub fn discard(&mut self)
        ensures
            final(self).spec_draft() is None,
            final(self).spec_committed() == old(self).spec_committed(),
    {
        self.pending = None;
    }
}

/// Snapshot isolation: a snapshot captured from `latest()` before a commit
/// still shows the value that was committed at capture time, never the
/// post-commit value. `pre` is the cell when the snapshot was taken,
/// `post` the cell after `commit`; unless the draft happened to equal the
/// old committed value, the captured snapshot differs from what new
/// readers see after the commit.
pub proof fn lemma_snapshot_isolation<T>(pre: Draft<T>, post: Draft<T>, snap: T, d: T)
    requires
        snap == pre.spec_committed(),
        pre.spec_draft() == Some(d),
        // what `commit` ensures of the cell
        post.spec_committed() == d,
        post.spec_draft() is None,
    ensures
        snap == pre.spec_committed(),
        d != pre.spec_committed() ==> snap != post.spec_committed(),
{
}

} // verus!
