use crate::cache::CacheSync;
use crate::source::{Source, SourceV};
use crate::store::{
    lemma_find_found, lemma_find_none, lemma_find_value, spec_create, spec_delete, spec_find,
    spec_update, unique_ids, MemStore, PersistenceError,
};
use vstd::prelude::*;

verus! {

/// The record repository: the one owner of both the durable store and the
/// read cache.
///
/// All mutations pass through `&mut self`, so mutation-plus-refresh pairs
/// are serialized in one writer; readers only ever borrow the snapshot.
/// Every successful mutation triggers exactly one refresh, tagged with the
/// write-sequence number it was issued under; a failed mutation leaves both
/// the store and the cache unchanged and reports its error.  Under this
/// discipline the snapshot always equals the stored contents, which the
/// invariant records.
pub struct Repository {
    store: MemStore,
    cache: CacheSync,
}

impl Repository {
    /// The durable contents.
    pub closed spec fn recs(self) -> Seq<SourceV> {
        self.store.recs()
    }

    /// The id the next created record will receive.
    pub closed spec fn next(self) -> int {
        self.store.next()
    }

    /// The cached snapshot.
    pub closed spec fn snap(self) -> Seq<SourceV> {
        self.cache.snap()
    }

    /// How many writes have been issued so far.
    pub closed spec fn writes(self) -> int {
        self.cache.issued_seq()
    }

    /// The repository invariant: a well-formed store, a well-formed cache,
    /// and a snapshot that matches the stored contents.
    pub closed spec fn wf(self) -> bool {
        self.store.wf() && self.cache.wf() && self.cache.snap() == self.store.recs()
    }

    /// An empty repository; ids start at 1.
    pub fn new() -> (r: Repository)
        ensures
            r.wf(),
            r.recs() == Seq::<SourceV>::empty(),
            r.snap() == Seq::<SourceV>::empty(),
            r.next() == 1,
            r.writes() == 0,
    {
        Repository { store: MemStore::new(), cache: CacheSync::new() }
    }

    /// The current snapshot: a complete, self-consistent copy of the stored
    /// records as of the last refresh.  Reading never touches storage.
    pub fn snapshot(&self) -> (v: &Vec<Source>)
        ensures
            v.deep_view() == self.snap(),
    {
        self.cache.snapshot()
    }

    /// Creates the record under a fresh id, refreshes the cache, and
    /// returns the assigned id.
    pub fn create(&mut self, src: &Source) -> (r: Result<i64, PersistenceError>)
        requires
            old(self).wf(),
            src@.dates_wf(),
            old(self).next() < i64::MAX,
            old(self).writes() < u64::MAX,
        ensures
            final(self).wf(),
            r is Ok,
            ({
                let (recs2, next2, id) = spec_create(old(self).recs(), old(self).next(), src@);
                r->Ok_0 as int == id && final(self).recs() == recs2 && final(self).next() == next2
            }),
            final(self).snap() == final(self).recs(),
            final(self).writes() == old(self).writes() + 1,
    {
        let seq = self.cache.issue_write();
        let id = self.store.create(src);
        let fetched = self.store.fetch_all();
        self.cache.apply_refresh(seq, fetched);
        Ok(id)
    }

    /// Replaces the record carrying `id` and refreshes the cache; NotFound
    /// leaves store and cache unchanged.
    pub fn update(&mut self, id: i64, src: &Source) -> (r: Result<(), PersistenceError>)
        requires
            old(self).wf(),
            src@.dates_wf(),
            old(self).writes() < u64::MAX,
        ensures
            final(self).wf(),
            final(self).next() == old(self).next(),
            final(self).snap() == final(self).recs(),
            match spec_update(old(self).recs(), id as int, src@) {
                Ok(recs2) => r is Ok && final(self).recs() == recs2 && final(self).writes() == old(
                    self,
                ).writes() + 1,
                Err(e) => r is Err && r->Err_0 == e && final(self).recs() == old(self).recs()
                    && final(self).writes() == old(self).writes(),
            },
    {
        match self.store.update(id, src) {
            Ok(()) => {
                let seq = self.cache.issue_write();
                let fetched = self.store.fetch_all();
                self.cache.apply_refresh(seq, fetched);
                Ok(())
            },
            Err(e) => Err(e),
        }
    }

    /// Removes the record carrying `id` and refreshes the cache; NotFound
    /// leaves store and cache unchanged.
    pub fn delete(&mut self, id: i64) -> (r: Result<(), PersistenceError>)
        requires
            old(self).wf(),
            old(self).writes() < u64::MAX,
        ensures
            final(self).wf(),
            final(self).next() == old(self).next(),
            final(self).snap() == final(self).recs(),
            match spec_delete(old(self).recs(), id as int) {
                Ok(recs2) => r is Ok && final(self).recs() == recs2 && final(self).writes() == old(
                    self,
                ).writes() + 1,
                Err(e) => r is Err && r->Err_0 == e && final(self).recs() == old(self).recs()
                    && final(self).writes() == old(self).writes(),
            },
    {
        match self.store.delete(id) {
            Ok(()) => {
                let seq = self.cache.issue_write();
                let fetched = self.store.fetch_all();
                self.cache.apply_refresh(seq, fetched);
                Ok(())
            },
            Err(e) => Err(e),
        }
    }

    /// Fetches the complete stored contents and swaps them in as the new
    /// snapshot.
    pub fn refresh(&mut self) -> (r: Result<(), PersistenceError>)
        requires
            old(self).wf(),
        ensures
            final(self).wf(),
            r is Ok,
            final(self).recs() == old(self).recs(),
            final(self).next() == old(self).next(),
            final(self).writes() == old(self).writes(),
            final(self).snap() == final(self).recs(),
    {
        let seq = self.cache.current_seq();
        let fetched = self.store.fetch_all();
        self.cache.apply_refresh(seq, fetched);
        Ok(())
    }
}

/// Serializing a concurrent `update(id, v)` and `delete(id)` in either
/// order ends in a definite state: the record is gone.  Updating first and
/// then deleting removes it; deleting first makes the update report
/// NotFound and change nothing.  Both serialized outcomes lie in the set
/// the contract allows, and each order's outcome is fully determined.
pub proof fn lemma_update_delete_serialized(recs: Seq<SourceV>, id: int, v: SourceV)
    requires
        unique_ids(recs),
    ensures
        spec_update(recs, id, v) is Ok ==> spec_delete(spec_update(recs, id, v)->Ok_0, id) is Ok
            && spec_find(spec_delete(spec_update(recs, id, v)->Ok_0, id)->Ok_0, id) == -1,
        spec_delete(recs, id) is Ok ==> spec_find(spec_delete(recs, id)->Ok_0, id) == -1
            && spec_update(spec_delete(recs, id)->Ok_0, id, v) is Err,
        spec_update(recs, id, v) is Err ==> spec_delete(recs, id) is Err && spec_find(recs, id)
            == -1,
{
    if spec_find(recs, id) == -1 {
    } else {
        lemma_find_found(recs, id, 0);
        let i = spec_find(recs, id);
        assert forall|k: int| 0 <= k < recs.len() && k != i implies (#[trigger] recs[k]).id
            != id by {
            if k < i {
            } else {
                assert(recs[i].id != recs[k].id);
            }
        }
        // update first, then delete
        let r1 = recs.update(i, v.with_id(id));
        assert(r1[i].id == id);
        assert(forall|k: int| 0 <= k < i ==> (#[trigger] r1[k]).id != id);
        lemma_find_value(r1, id, 0, i);
        let r2 = r1.remove(i);
        assert forall|k: int| 0 <= k < r2.len() implies (#[trigger] r2[k]).id != id by {
            if k < i {
                assert(r2[k] == r1[k]);
            } else {
                assert(r2[k] == r1[k + 1]);
            }
        }
        lemma_find_none(r2, id, 0);
        // delete first, then update
        let d1 = recs.remove(i);
        assert forall|k: int| 0 <= k < d1.len() implies (#[trigger] d1[k]).id != id by {
            if k < i {
                assert(d1[k] == recs[k]);
            } else {
                assert(d1[k] == recs[k + 1]);
            }
        }
        lemma_find_none(d1, id, 0);
    }
}

} // verus!
