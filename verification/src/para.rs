//! The derived PARA index: a pure read that partitions the stored
//! records into the four buckets by their category. It holds no state
//! of its own and is recomputed on every query; the store stays the
//! only source of truth for membership.

use vstd::prelude::*;
use crate::category::Category;
use crate::recording::{Recording, RecordingView};
use crate::store::MetadataStore;

verus! {

/// The four ordered bucket sequences. A record with no category appears
/// in none of them: uncategorized records are omitted, not given a
/// fifth bucket.
pub struct ParaFolders {
    pub projects: Vec<Recording>,
    pub areas: Vec<Recording>,
    pub resources: Vec<Recording>,
    pub archives: Vec<Recording>,
}

/// The bucket a category keys: the stored records carrying exactly that
/// category, in store order.
pub open spec fn para_bucket(recs: Seq<RecordingView>, c: Category) -> Seq<RecordingView> {
    recs.filter(|r: RecordingView| r.category == Some(c))
}

/// Pushing distributes over the bucket filter.
proof fn lemma_filter_push(s: Seq<RecordingView>, x: RecordingView, p: spec_fn(RecordingView) -> bool)
    ensures
        s.push(x).filter(p) == (if p(x) {
            s.filter(p).push(x)
        } else {
            s.filter(p)
        }),
{
    reveal(Seq::filter);
    assert(s.push(x).drop_last() =~= s);
    assert(s.push(x).last() == x);
}

/// Everything a filter keeps comes from the filtered sequence.
proof fn lemma_filter_sub(s: Seq<RecordingView>, p: spec_fn(RecordingView) -> bool, x: RecordingView)
    requires
        s.filter(p).contains(x),
    ensures
        s.contains(x),
        p(x),
    decreases s.len(),
{
    reveal(Seq::filter);
    if s.len() > 0 {
        let d = s.drop_last();
        if p(s.last()) {
            let f = d.filter(p).push(s.last());
            assert(s.filter(p) == f);
            let j = choose|j: int| 0 <= j < f.len() && f[j] == x;
            if j == f.len() - 1 {
                assert(x == s.last());
                assert(s[s.len() - 1] == x);
            } else {
                assert(d.filter(p)[j] == x);
                assert(d.filter(p).contains(x));
                lemma_filter_sub(d, p, x);
                let k = choose|k: int| 0 <= k < d.len() && d[k] == x;
                assert(s[k] == x);
            }
        } else {
            assert(s.filter(p) == d.filter(p));
            lemma_filter_sub(d, p, x);
            let k = choose|k: int| 0 <= k < d.len() && d[k] == x;
            assert(s[k] == x);
        }
    }
}

/// Partition law: a record lies in a bucket exactly when the store
/// holds it with that bucket's category. Hence every categorized record
/// appears in exactly one bucket — two distinct categories never share
/// one — and uncategorized records appear in none.
pub proof fn lemma_para_partition(recs: Seq<RecordingView>)
    ensures
        forall|c: Category, r: RecordingView| #[trigger] para_bucket(recs, c).contains(r) <==> (
        recs.contains(r) && r.category == Some(c)),
        forall|c1: Category, c2: Category, r: RecordingView|
            #![trigger para_bucket(recs, c1).contains(r), para_bucket(recs, c2).contains(r)]
            para_bucket(recs, c1).contains(r) && para_bucket(recs, c2).contains(r) ==> c1 == c2,
{
    assert forall|c: Category, r: RecordingView| #[trigger] para_bucket(recs, c).contains(r) <==> (
    recs.contains(r) && r.category == Some(c)) by {
        let p = |rv: RecordingView| rv.category == Some(c);
        if para_bucket(recs, c).contains(r) {
            lemma_filter_sub(recs, p, r);
        }
        if recs.contains(r) && r.category == Some(c) {
            let i = choose|i: int| 0 <= i < recs.len() && recs[i] == r;
            recs.lemma_filter_contains(p, i);
        }
    }
}

impl MetadataStore {
    /// Scans the store and partitions every categorized record into the
    /// bucket its category keys, in store order.
    pub fn build_para_folders(&self) -> (f: ParaFolders)
        ensures
            f.projects.deep_view() == para_bucket(self@, Category::Projects),
            f.areas.deep_view() == para_bucket(self@, Category::Areas),
            f.resources.deep_view() == para_bucket(self@, Category::Resources),
            f.archives.deep_view() == para_bucket(self@, Category::Archives),
    {
        let n = self.records.len();
        let mut projects: Vec<Recording> = Vec::new();
        let mut areas: Vec<Recording> = Vec::new();
        let mut resources: Vec<Recording> = Vec::new();
        let mut archives: Vec<Recording> = Vec::new();
        let mut i: usize = 0;
        while i < n
            invariant
                n == self@.len(),
                0 <= i <= n,
                projects.deep_view() == para_bucket(
                    self@.subrange(0, i as int),
                    Category::Projects,
                ),
                areas.deep_view() == para_bucket(self@.subrange(0, i as int), Category::Areas),
                resources.deep_view() == para_bucket(
                    self@.subrange(0, i as int),
                    Category::Resources,
                ),
                archives.deep_view() == para_bucket(
                    self@.subrange(0, i as int),
                    Category::Archives,
                ),
            decreases n - i,
        {
            let ghost pre = self@.subrange(0, i as int);
            let rec = self.records[i].clone();
            assert(rec@ == self@[i as int]);
            proof {
                assert(self@.subrange(0, i + 1).drop_last() =~= pre);
                assert(self@.subrange(0, i + 1) =~= pre.push(self@[i as int]));
                lemma_filter_push(pre, self@[i as int], |r: RecordingView| r.category == Some(Category::Projects));
                lemma_filter_push(pre, self@[i as int], |r: RecordingView| r.category == Some(Category::Areas));
                lemma_filter_push(pre, self@[i as int], |r: RecordingView| r.category == Some(Category::Resources));
                lemma_filter_push(pre, self@[i as int], |r: RecordingView| r.category == Some(Category::Archives));
            }
            let ghost gproj = projects.deep_view();
            let ghost gareas = areas.deep_view();
            let ghost gres = resources.deep_view();
            let ghost garch = archives.deep_view();
            match rec.category {
                Some(Category::Projects) => {
                    projects.push(rec);
                    assert(projects.deep_view() =~= gproj.push(self@[i as int]));
                },
                Some(Category::Areas) => {
                    areas.push(rec);
                    assert(areas.deep_view() =~= gareas.push(self@[i as int]));
                },
                Some(Category::Resources) => {
                    resources.push(rec);
                    assert(resources.deep_view() =~= gres.push(self@[i as int]));
                },
                Some(Category::Archives) => {
                    archives.push(rec);
                    assert(archives.deep_view() =~= garch.push(self@[i as int]));
                },
                None => {},
            }
            i += 1;
        }
        proof {
            assert(self@.subrange(0, n as int) =~= self@);
        }
        ParaFolders { projects, areas, resources, archives }
    }
}

} // verus!
