use crate::source::{Source, SourceV};
use vstd::prelude::*;

verus! {

/// The read cache: a point-in-time copy of the stored records, replaced
/// wholesale by refreshes and never patched in place.
///
/// Refreshes are ordered against writes by a monotonically increasing
/// write-sequence number: every mutation obtains a fresh number before it
/// starts, a refresh carries the number current when its fetch was issued,
/// and a refresh result is discarded when a higher-numbered write has been
/// issued since.  "Last refresh to finish wins" is thereby ruled out: a
/// stale refresh can never overwrite the effect of a newer write.
pub struct CacheSync {
    snapshot: Vec<Source>,
    issued: u64,
    applied: u64,
}

impl CacheSync {
    /// The cached snapshot.
    pub closed spec fn snap(self) -> Seq<SourceV> {
        self.snapshot.deep_view()
    }

    /// The sequence number of the most recently issued write.
    pub closed spec fn issued_seq(self) -> int {
        self.issued as int
    }

    /// The sequence number the current snapshot was refreshed under.
    pub closed spec fn applied_seq(self) -> int {
        self.applied as int
    }

    /// Applied refreshes never run ahead of issued writes.
    pub closed spec fn wf(self) -> bool {
        self.applied <= self.issued
    }

    /// An empty cache with no writes issued.
    pub fn new() -> (c: CacheSync)
        ensures
            c.wf(),
            c.snap() == Seq::<SourceV>::empty(),
            c.issued_seq() == 0,
            c.applied_seq() == 0,
    {
        let snapshot: Vec<Source> = Vec::new();
        proof {
            assert(snapshot.deep_view() =~= Seq::<SourceV>::empty());
        }
        CacheSync { snapshot, issued: 0, applied: 0 }
    }

    /// The current snapshot; reading never involves storage.
    pub fn snapshot(&self) -> (v: &Vec<Source>)
        ensures
            v.deep_view() == self.snap(),
    {
        &self.snapshot
    }

    /// Draws the sequence number for a mutation about to start.
    pub fn issue_write(&mut self) -> (seq: u64)
        requires
            old(self).wf(),
            old(self).issued_seq() < u64::MAX,
        ensures
            final(self).wf(),
            seq as int == final(self).issued_seq() == old(self).issued_seq() + 1,
            final(self).snap() == old(self).snap(),
            final(self).applied_seq() == old(self).applied_seq(),
    {
        self.issued = self.issued + 1;
        self.issued
    }

    /// The sequence number a mutation-free refresh should carry.
    pub fn current_seq(&self) -> (seq: u64)
        ensures
            seq as int == self.issued_seq(),
    {
        self.issued
    }

    /// Offers a refresh result fetched under sequence number `seq`.  The
    /// snapshot is swapped atomically when no higher-numbered write has been
    /// issued since; a stale result is discarded unchanged.
    pub fn apply_refresh(&mut self, seq: u64, fetched: Vec<Source>) -> (applied: bool)
        requires
            old(self).wf(),
            seq as int <= old(self).issued_seq(),
        ensures
            final(self).wf(),
            final(self).issued_seq() == old(self).issued_seq(),
            applied <==> seq as int == old(self).issued_seq(),
            applied ==> final(self).snap() == fetched.deep_view() && final(self).applied_seq()
                == seq as int,
            !applied ==> final(self).snap() == old(self).snap() && final(self).applied_seq()
                == old(self).applied_seq(),
    {
        if seq == self.issued {
            self.snapshot = fetched;
            self.applied = seq;
            true
        } else {
            false
        }
    }
}

} // verus!
