use crate::chars::append_str;
use crate::source::{eq_except_id, Source, SourceV};
use vstd::prelude::*;

verus! {

/// A persistence failure, reported to the caller instead of ending the
/// process.
#[derive(Clone, Copy, PartialEq, Eq, Structural, Debug)]
pub enum PersistenceError {
    ConnectionFailure,
    ConstraintViolation,
    NotFound,
}

// ---------------------------------------------------------------------------
// The persistence contract, as transitions on the stored sequence of
// records: create appends with a fresh id, update and delete address the
// record carrying the given id and report NotFound when there is none.
// ---------------------------------------------------------------------------

/// The first index at or after `i` whose record carries `id`, or -1.
pub open spec fn spec_find_from(recs: Seq<SourceV>, id: int, i: int) -> int
    decreases recs.len() - i,
{
    if i < 0 || i >= recs.len() {
        -1
    } else if recs[i].id == id {
        i
    } else {
        spec_find_from(recs, id, i + 1)
    }
}

/// The first index whose record carries `id`, or -1.
pub open spec fn spec_find(recs: Seq<SourceV>, id: int) -> int {
    spec_find_from(recs, id, 0)
}

/// Creating appends the record under the next free id: the new contents,
/// the next free id afterwards, and the assigned id.
pub open spec fn spec_create(recs: Seq<SourceV>, next: int, s: SourceV) -> (Seq<SourceV>, int, int) {
    (recs.push(s.with_id(next)), next + 1, next)
}

/// Updating replaces the record carrying `id` in place, keeping that id.
pub open spec fn spec_update(recs: Seq<SourceV>, id: int, s: SourceV) -> Result<
    Seq<SourceV>,
    PersistenceError,
> {
    let i = spec_find(recs, id);
    if i == -1 {
        Err(PersistenceError::NotFound)
    } else {
        Ok(recs.update(i, s.with_id(id)))
    }
}

/// Deleting removes the record carrying `id`.
pub open spec fn spec_delete(recs: Seq<SourceV>, id: int) -> Result<
    Seq<SourceV>,
    PersistenceError,
> {
    let i = spec_find(recs, id);
    if i == -1 {
        Err(PersistenceError::NotFound)
    } else {
        Ok(recs.remove(i))
    }
}

/// No two records carry the same id.
pub open spec fn unique_ids(recs: Seq<SourceV>) -> bool {
    forall|i: int, j: int|
        0 <= i < j < recs.len() ==> (#[trigger] recs[i]).id != (#[trigger] recs[j]).id
}

/// Every id is positive and below the next free id.
pub open spec fn ids_below(recs: Seq<SourceV>, next: int) -> bool {
    forall|i: int| 0 <= i < recs.len() ==> 1 <= (#[trigger] recs[i]).id < next
}

/// Every stored record has well-formed dates.
pub open spec fn recs_wf(recs: Seq<SourceV>) -> bool {
    forall|i: int| 0 <= i < recs.len() ==> (#[trigger] recs[i]).dates_wf()
}

// ---------------------------------------------------------------------------
// Facts about finding by id.
// ---------------------------------------------------------------------------

/// When no record carries `id`, the search reports -1, and the other way
/// round.
pub proof fn lemma_find_none(recs: Seq<SourceV>, id: int, i: int)
    requires
        0 <= i <= recs.len(),
        forall|k: int| i <= k < recs.len() ==> (#[trigger] recs[k]).id != id,
    ensures
        spec_find_from(recs, id, i) == -1,
    decreases recs.len() - i,
{
    if i < recs.len() {
        lemma_find_none(recs, id, i + 1);
    }
}

/// When the first record carrying `id` sits at `j`, the search reports `j`.
pub proof fn lemma_find_value(recs: Seq<SourceV>, id: int, i: int, j: int)
    requires
        0 <= i <= j < recs.len(),
        recs[j].id == id,
        forall|k: int| i <= k < j ==> (#[trigger] recs[k]).id != id,
    ensures
        spec_find_from(recs, id, i) == j,
    decreases j - i,
{
    if i < j {
        lemma_find_value(recs, id, i + 1, j);
    }
}

/// What a successful search yields: a position in range carrying `id`,
/// before which no record carries it.
pub proof fn lemma_find_found(recs: Seq<SourceV>, id: int, i: int)
    requires
        0 <= i <= recs.len(),
        spec_find_from(recs, id, i) != -1,
    ensures
        i <= spec_find_from(recs, id, i) < recs.len(),
        recs[spec_find_from(recs, id, i)].id == id,
        forall|k: int| i <= k < spec_find_from(recs, id, i) ==> (#[trigger] recs[k]).id != id,
    decreases recs.len() - i,
{
    if i < recs.len() && recs[i].id != id {
        lemma_find_found(recs, id, i + 1);
    }
}

// ---------------------------------------------------------------------------
// The in-memory store: a verified realization of the persistence contract,
// usable both as the reference model and as a storage backend of its own.
// ---------------------------------------------------------------------------

pub struct MemStore {
    records: Vec<Source>,
    next_id: i64,
}

impl MemStore {
    /// The stored records, in storage order.
    pub closed spec fn recs(self) -> Seq<SourceV> {
        self.records.deep_view()
    }

    /// The id the next created record will receive.
    pub closed spec fn next(self) -> int {
        self.next_id as int
    }

    /// The store's invariant: ids start at 1, stay unique and below the
    /// next free id, and every record is well-formed.
    pub closed spec fn wf(self) -> bool {
        1 <= self.next_id && unique_ids(self.recs()) && ids_below(self.recs(), self.next())
            && recs_wf(self.recs())
    }

    /// An empty store; the first record will receive id 1.
    pub fn new() -> (s: MemStore)
        ensures
            s.wf(),
            s.recs() == Seq::<SourceV>::empty(),
            s.next() == 1,
    {
        let records: Vec<Source> = Vec::new();
        proof {
            assert(records.deep_view() =~= Seq::<SourceV>::empty());
        }
        MemStore { records, next_id: 1 }
    }

    /// Appends the record under the next free id and returns that id.
    pub fn create(&mut self, src: &Source) -> (id: i64)
        requires
            old(self).wf(),
            src@.dates_wf(),
            old(self).next() < i64::MAX,
        ensures
            final(self).wf(),
            ({
                let (recs2, next2, sid) = spec_create(old(self).recs(), old(self).next(), src@);
                final(self).recs() == recs2 && final(self).next() == next2 && id as int == sid
            }),
    {
        let id = self.next_id;
        let rec = src.cloned_with_id(id);
        self.records.push(rec);
        self.next_id = self.next_id + 1;
        proof {
            assert(self.records.deep_view() =~= old(self).recs().push(src@.with_id(id as int)));
        }
        id
    }

    /// A copy of the full stored contents, in storage order.
    pub fn fetch_all(&self) -> (v: Vec<Source>)
        ensures
            v.deep_view() == self.recs(),
    {
        let n = self.records.len();
        let mut v: Vec<Source> = Vec::new();
        assert(v.deep_view() =~= self.recs().subrange(0, 0));
        let mut i: usize = 0;
        while i < n
            invariant
                i <= n == self.records@.len(),
                v@.len() == i as int,
                v.deep_view() == self.recs().subrange(0, i as int),
            decreases n - i,
        {
            let rec = self.records[i].clone();
            let ghost pre = v.deep_view();
            let ghost prev_v = v@;
            v.push(rec);
            proof {
                assert(pre.len() == prev_v.len());
                assert forall|k: int| 0 <= k < i + 1 implies #[trigger] v.deep_view()[k]
                    == self.recs()[k] by {
                    if k < i as int {
                        assert(v@[k] == prev_v[k]);
                        assert(pre[k] == prev_v[k].deep_view());
                        assert(pre[k] == self.recs().subrange(0, i as int)[k]);
                    } else {
                        assert(v@[k].deep_view() == self.records@[i as int]@);
                        assert(self.recs()[i as int] == self.records@[i as int].deep_view());
                    }
                }
                assert(v.deep_view() =~= self.recs().subrange(0, i + 1 as int));
            }
            i = i + 1;
        }
        proof {
            assert(v.deep_view() =~= self.recs());
        }
        v
    }

    /// The index of the record carrying `id`, if any.
    fn find_index(&self, id: i64) -> (r: Option<usize>)
        ensures
            match r {
                Some(i) => spec_find(self.recs(), id as int) == i as int && i < self.recs().len(),
                None => spec_find(self.recs(), id as int) == -1,
            },
    {
        let n = self.records.len();
        let mut i: usize = 0;
        while i < n
            invariant
                i <= n == self.records@.len(),
                spec_find(self.recs(), id as int) == spec_find_from(self.recs(), id as int, i as int),
            decreases n - i,
        {
            assert(self.recs()[i as int] == self.records@[i as int]@);
            if self.records[i].id == id {
                return Some(i);
            }
            i = i + 1;
        }
        None
    }

    /// Replaces the record carrying `id`, or reports NotFound.
    pub fn update(&mut self, id: i64, src: &Source) -> (r: Result<(), PersistenceError>)
        requires
            old(self).wf(),
            src@.dates_wf(),
        ensures
            final(self).wf(),
            final(self).next() == old(self).next(),
            match spec_update(old(self).recs(), id as int, src@) {
                Ok(recs2) => r is Ok && final(self).recs() == recs2,
                Err(e) => r is Err && r->Err_0 == e && final(self).recs() == old(self).recs(),
            },
    {
        match self.find_index(id) {
            None => Err(PersistenceError::NotFound),
            Some(i) => {
                let ghost idx = i as int;
                proof {
                    lemma_find_found(old(self).recs(), id as int, 0);
                }
                let rec = src.cloned_with_id(id);
                self.records.remove(i);
                self.records.insert(i, rec);
                proof {
                    assert(self.records.deep_view() =~= old(self).recs().update(
                        idx,
                        src@.with_id(id as int),
                    ));
                    let recs2 = self.records.deep_view();
                    let recs1 = old(self).recs();
                    assert forall|a: int, b: int| 0 <= a < b < recs2.len() implies (
                    #[trigger] recs2[a]).id != (#[trigger] recs2[b]).id by {
                        assert(recs1[a].id == recs2[a].id && recs1[b].id == recs2[b].id);
                    }
                    assert forall|a: int| 0 <= a < recs2.len() implies 1 <= (
                    #[trigger] recs2[a]).id < final(self).next() by {
                        assert(recs1[a].id == recs2[a].id);
                    }
                }
                Ok(())
            },
        }
    }

    /// Removes the record carrying `id`, or reports NotFound.
    pub fn delete(&mut self, id: i64) -> (r: Result<(), PersistenceError>)
        requires
            old(self).wf(),
        ensures
            final(self).wf(),
            final(self).next() == old(self).next(),
            match spec_delete(old(self).recs(), id as int) {
                Ok(recs2) => r is Ok && final(self).recs() == recs2,
                Err(e) => r is Err && r->Err_0 == e && final(self).recs() == old(self).recs(),
            },
    {
        match self.find_index(id) {
            None => Err(PersistenceError::NotFound),
            Some(i) => {
                let ghost idx = i as int;
                proof {
                    lemma_find_found(old(self).recs(), id as int, 0);
                }
                self.records.remove(i);
                proof {
                    assert(self.records.deep_view() =~= old(self).recs().remove(idx));
                    let recs2 = self.records.deep_view();
                    let recs1 = old(self).recs();
                    assert forall|a: int, b: int| 0 <= a < b < recs2.len() implies (
                    #[trigger] recs2[a]).id != (#[trigger] recs2[b]).id by {
                        let a1 = if a < idx { a } else { a + 1 };
                        let b1 = if b < idx { b } else { b + 1 };
                        assert(recs2[a] == recs1[a1] && recs2[b] == recs1[b1]);
                    }
                    assert forall|a: int| 0 <= a < recs2.len() implies 1 <= (
                    #[trigger] recs2[a]).id < final(self).next() by {
                        let a1 = if a < idx { a } else { a + 1 };
                        assert(recs2[a] == recs1[a1]);
                    }
                    assert forall|a: int| 0 <= a < recs2.len() implies (
                    #[trigger] recs2[a]).dates_wf() by {
                        let a1 = if a < idx { a } else { a + 1 };
                        assert(recs2[a] == recs1[a1]);
                    }
                }
                Ok(())
            },
        }
    }
}

/// Round trip: creating a record and then fetching the full contents yields
/// a record equal to it in every field except the id.
pub proof fn lemma_create_round_trip(recs: Seq<SourceV>, next: int, s: SourceV)
    ensures
        ({
            let (recs2, next2, id) = spec_create(recs, next, s);
            exists|i: int|
                0 <= i < recs2.len() && eq_except_id(#[trigger] recs2[i], s)
        }),
{
    let (recs2, next2, id) = spec_create(recs, next, s);
    assert(recs2[recs.len() as int] == s.with_id(next));
    assert(eq_except_id(recs2[recs.len() as int], s));
}

/// The name of the store's database file: the fixed stem, the first three
/// characters of the version, and the fixed extension.
pub fn db_file_name(version: &str) -> (r: String)
    requires
        version@.len() >= 3,
    ensures
        r@ == "sources-"@ + version@.subrange(0, 3) + ".db"@,
{
    let mut out: Vec<char> = Vec::new();
    append_str(&mut out, "sources-");
    let c0 = version.get_char(0);
    let c1 = version.get_char(1);
    let c2 = version.get_char(2);
    out.push(c0);
    out.push(c1);
    out.push(c2);
    append_str(&mut out, ".db");
    proof {
        assert(out@ =~= "sources-"@ + version@.subrange(0, 3) + ".db"@);
    }
    crate::chars::chars_to_string(&out)
}

} // verus!
