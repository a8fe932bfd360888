//! The metadata store: records keyed by identifier, held in insertion
//! order, with unique ids. Durable persistence of this state is the
//! unverified shell's concern; the contracts here pin down exactly what
//! every operation does to the stored sequence.

use vstd::prelude::*;
use crate::category::Category;
use crate::errors::MemoError;
use crate::recording::{merge_view, Recording, RecordingView};

verus! {

/// Index of the first record with the given id, searching from `i`;
/// `-1` if there is none.
pub open spec fn find_from(recs: Seq<RecordingView>, id: Seq<char>, i: int) -> int
    decreases recs.len() - i,
{
    if i < 0 || i >= recs.len() {
        -1
    } else if recs[i].id == id {
        i
    } else {
        find_from(recs, id, i + 1)
    }
}

/// Index of the first record with the given id; `-1` if there is none.
pub open spec fn find_rec(recs: Seq<RecordingView>, id: Seq<char>) -> int {
    find_from(recs, id, 0)
}

/// Whether some record carries the given id.
pub open spec fn contains_rec(recs: Seq<RecordingView>, id: Seq<char>) -> bool {
    find_rec(recs, id) >= 0
}

/// The first record with the given id, if any.
pub open spec fn lookup(recs: Seq<RecordingView>, id: Seq<char>) -> Option<RecordingView> {
    if find_rec(recs, id) >= 0 {
        Some(recs[find_rec(recs, id)])
    } else {
        None
    }
}

/// What `find_from` returns: either `-1` and no match at or after `i`,
/// or the least matching index at or after `i`.
pub proof fn lemma_find_from(recs: Seq<RecordingView>, id: Seq<char>, i: int)
    requires
        0 <= i,
    ensures
        find_from(recs, id, i) == -1 || find_from(recs, id, i) >= i,
        find_from(recs, id, i) == -1 ==> forall|k: int| i <= k < recs.len() ==> recs[k].id != id,
        find_from(recs, id, i) >= 0 ==> {
            &&& i <= find_from(recs, id, i) < recs.len()
            &&& recs[find_from(recs, id, i)].id == id
            &&& forall|k: int| i <= k < find_from(recs, id, i) ==> recs[k].id != id
        },
    decreases recs.len() - i,
{
    if i < recs.len() && recs[i].id != id {
        lemma_find_from(recs, id, i + 1);
    }
}

/// `find_from` reads only the ids: two sequences with the same ids
/// agree on it.
pub proof fn lemma_find_from_same_ids(
    a: Seq<RecordingView>,
    b: Seq<RecordingView>,
    id: Seq<char>,
    i: int,
)
    requires
        a.len() == b.len(),
        forall|k: int| 0 <= k < a.len() ==> a[k].id == b[k].id,
    ensures
        find_from(a, id, i) == find_from(b, id, i),
    decreases a.len() - i,
{
    if 0 <= i < a.len() && a[i].id != id {
        lemma_find_from_same_ids(a, b, id, i + 1);
    }
}

/// Appending a record with a fresh id makes it findable at the end.
pub proof fn lemma_find_pushed(recs: Seq<RecordingView>, r: RecordingView, i: int)
    requires
        0 <= i <= recs.len(),
        forall|k: int| i <= k < recs.len() ==> recs[k].id != r.id,
    ensures
        find_from(recs.push(r), r.id, i) == recs.len(),
    decreases recs.len() - i,
{
    if i < recs.len() {
        lemma_find_pushed(recs, r, i + 1);
    }
}

/// Round trip: creating a record under a fresh id and then looking that
/// id up yields exactly the record that was stored.
pub proof fn lemma_create_get_round_trip(recs: Seq<RecordingView>, r: RecordingView)
    requires
        !contains_rec(recs, r.id),
    ensures
        lookup(recs.push(r), r.id) == Some(r),
{
    lemma_find_from(recs, r.id, 0);
    lemma_find_pushed(recs, r, 0);
}

/// In-memory store of all recordings, in insertion order.
pub struct MetadataStore {
    pub records: Vec<Recording>,
}

impl View for MetadataStore {
    type V = Seq<RecordingView>;

    open spec fn view(&self) -> Seq<RecordingView> {
        self.records.deep_view()
    }
}

impl MetadataStore {
    /// Ids are unique and every stored record is well formed.
    pub open spec fn wf(self) -> bool {
        &&& forall|i: int, j: int|
            0 <= i < j < self@.len() ==> #[trigger] self@[i].id != #[trigger] self@[j].id
        &&& forall|i: int| 0 <= i < self@.len() ==> (#[trigger] self@[i]).wf()
    }

    /// An empty store.
    pub fn new() -> (s: MetadataStore)
        ensures
            s@ =~= Seq::<RecordingView>::empty(),
            s.wf(),
    {
        MetadataStore { records: Vec::new() }
    }

    /// Index of the first stored record with the given id, if any.
    fn find_index(&self, id: &String) -> (r: Option<usize>)
        ensures
            r is Some ==> r->0 == find_rec(self@, id@) && r->0 < self@.len() && self@[r->0 as int].id
                == id@,
            r is None ==> !contains_rec(self@, id@),
    {
        let n = self.records.len();
        let mut i: usize = 0;
        while i < n
            invariant
                n == self@.len(),
                0 <= i <= n,
                forall|k: int| 0 <= k < i ==> self@[k].id != id@,
            decreases n - i,
        {
            assert(self@[i as int].id == self.records@[i as int].id@);
            if self.records[i].id == *id {
                proof {
                    lemma_find_from(self@, id@, 0);
                    assert(self@[i as int].id == id@);
                    assert(find_rec(self@, id@) == i as int);
                }
                return Some(i);
            }
            i += 1;
        }
        proof {
            lemma_find_from(self@, id@, 0);
            if find_rec(self@, id@) >= 0 {
                assert(self@[find_rec(self@, id@)].id == id@);
                assert(false);
            }
        }
        None
    }

    /// Stores a new record. Fails with `DuplicateId`, and changes
    /// nothing, exactly when the id is already present; otherwise the
    /// record is appended.
    pub fn create(&mut self, r: Recording) -> (res: Result<(), MemoError>)
        requires
            old(self).wf(),
            r@.wf(),
        ensures
            final(self).wf(),
            contains_rec(old(self)@, r@.id) ==> res == Result::<(), MemoError>::Err(
                MemoError::DuplicateId,
            ) && final(self)@ == old(self)@,
            !contains_rec(old(self)@, r@.id) ==> res is Ok && final(self)@ == old(self)@.push(r@),
    {
        if self.find_index(&r.id).is_some() {
            return Err(MemoError::DuplicateId);
        }
        proof {
            lemma_find_from(self@, r.id@, 0);
        }
        let ghost old_view = self@;
        self.records.push(r);
        proof {
            assert(self@ =~= old_view.push(r@));
            assert forall|i: int, j: int| 0 <= i < j < self@.len() implies #[trigger] self@[i].id
                != #[trigger] self@[j].id by {
                if j == self@.len() - 1 {
                    assert(old_view[i].id != r@.id);
                }
            }
        }
        Ok(())
    }

    /// Fetches the record with the given id. Fails with `NotFound`
    /// exactly when no record carries the id.
    pub fn get(&self, id: &String) -> (res: Result<Recording, MemoError>)
        ensures
            contains_rec(self@, id@) ==> res is Ok && Some(res->Ok_0@) == lookup(self@, id@),
            !contains_rec(self@, id@) ==> res == Result::<Recording, MemoError>::Err(
                MemoError::NotFound,
            ),
    {
        match self.find_index(id) {
            Some(i) => Ok(self.records[i].clone()),
            None => Err(MemoError::NotFound),
        }
    }

    /// Merges stage results into the record with the given id: a `Some`
    /// argument overwrites its own field, a `None` argument leaves the
    /// field untouched, so previously-set fields are never cleared.
    /// Fails with `NotFound`, and changes nothing, exactly when no
    /// record carries the id.
    pub fn merge_update(
        &mut self,
        id: &String,
        transcript: Option<String>,
        summary: Option<String>,
        category: Option<Category>,
    ) -> (res: Result<(), MemoError>)
        requires
            old(self).wf(),
            transcript is Some ==> transcript->0@.len() > 0,
            summary is Some ==> summary->0@.len() > 0,
        ensures
            final(self).wf(),
            !contains_rec(old(self)@, id@) ==> res == Result::<(), MemoError>::Err(
                MemoError::NotFound,
            ) && final(self)@ == old(self)@,
            contains_rec(old(self)@, id@) ==> res is Ok && final(self)@ == old(self)@.update(
                find_rec(old(self)@, id@),
                merge_view(
                    old(self)@[find_rec(old(self)@, id@)],
                    transcript.deep_view(),
                    summary.deep_view(),
                    category,
                ),
            ),
    {
        let i = match self.find_index(id) {
            None => {
                return Err(MemoError::NotFound);
            },
            Some(i) => i,
        };
        let ghost old_view = self@;
        let cur = self.records[i].clone();
        let merged = Recording {
            id: cur.id,
            file_path: cur.file_path,
            timestamp_millis: cur.timestamp_millis,
            duration_millis: cur.duration_millis,
            transcript: if transcript.is_some() {
                transcript
            } else {
                cur.transcript
            },
            summary: if summary.is_some() {
                summary
            } else {
                cur.summary
            },
            category: if category.is_some() {
                category
            } else {
                cur.category
            },
        };
        assert(merged@ =~= merge_view(
            old_view[i as int],
            transcript.deep_view(),
            summary.deep_view(),
            category,
        ));
        self.records[i] = merged;
        proof {
            assert(self@ =~= old_view.update(
                i as int,
                merge_view(
                    old_view[i as int],
                    transcript.deep_view(),
                    summary.deep_view(),
                    category,
                ),
            ));
            assert forall|a: int, b: int| 0 <= a < b < self@.len() implies #[trigger] self@[a].id
                != #[trigger] self@[b].id by {
                assert(old_view[a].id != old_view[b].id);
            }
            assert forall|a: int| 0 <= a < self@.len() implies (#[trigger] self@[a]).wf() by {
                assert(old_view[a].wf());
            }
        }
        Ok(())
    }

    /// All records, in insertion order, each equal to its stored
    /// original. The order is stable: it never changes within a run.
    pub fn list_all(&self) -> (out: Vec<Recording>)
        ensures
            out.deep_view() == self@,
    {
        let n = self.records.len();
        let mut out: Vec<Recording> = Vec::new();
        let mut i: usize = 0;
        while i < n
            invariant
                n == self@.len(),
                0 <= i <= n,
                out.deep_view() =~= self@.subrange(0, i as int),
            decreases n - i,
        {
            let ghost prev = out.deep_view();
            let copy = self.records[i].clone();
            assert(copy@ == self@[i as int]);
            out.push(copy);
            proof {
                assert(out@.len() == prev.len() + 1);
                assert forall|k: int| 0 <= k < out@.len() implies #[trigger] out.deep_view()[k]
                    == self@.subrange(0, i + 1)[k] by {
                    if k < i as int {
                        assert(prev[k] == self@.subrange(0, i as int)[k]);
                    }
                }
                assert(out.deep_view() =~= self@.subrange(0, i + 1));
            }
            i += 1;
        }
        proof {
            assert(self@.subrange(0, n as int) =~= self@);
            assert(out.deep_view() =~= self@);
        }
        out
    }
}

} // verus!
