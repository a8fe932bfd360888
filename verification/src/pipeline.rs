//! The enrichment pipeline: three fixed stages, each independently
//! invocable and idempotent, each reading from and merging back into
//! the store. Stage calls on one record are serialized by the caller;
//! records never share mutable state with one another.

use vstd::prelude::*;
use crate::category::Category;
use crate::classify::{classify, classify_spec};
use crate::errors::MemoError;
use crate::recording::{merge_view, RecordingView};
use crate::store::{contains_rec, find_rec, lookup, MetadataStore};
use crate::store::lemma_find_from;
use crate::store::lemma_find_from_same_ids;
use crate::text::{condense, condense_spec, lemma_condense_shape};

verus! {

/// An engine capability: either not loaded, or loaded and usable. The
/// handle of a loaded engine lives outside the core; stages only need
/// to know whether the capability is present, and fail fast with
/// `EngineUnavailable` when it is not.
#[derive(Clone, Copy, PartialEq, Eq, Structural, Debug)]
pub enum EngineStatus {
    NotLoaded,
    Loaded,
}

/// A transcript as handed out at the interface boundary.
pub struct Transcript {
    pub text: String,
    /// Capture-stop time of the recording the text belongs to.
    pub timestamp_millis: u64,
    pub summary: Option<String>,
    pub category: Option<Category>,
}

/// What the transcription stage should decode: the audio path of the
/// addressed record. Fails fast with `EngineUnavailable` when the
/// engine is not loaded, `NotFound` when the record does not exist.
pub fn transcription_input(store: &MetadataStore, id: &String, engine: &EngineStatus) -> (res:
    Result<String, MemoError>)
    ensures
        engine is NotLoaded ==> res == Result::<String, MemoError>::Err(
            MemoError::EngineUnavailable,
        ),
        engine is Loaded && !contains_rec(store@, id@) ==> res == Result::<String, MemoError>::Err(
            MemoError::NotFound,
        ),
        engine is Loaded && contains_rec(store@, id@) ==> res is Ok && res->Ok_0@ == lookup(
            store@,
            id@,
        )->0.file_path,
{
    match engine {
        EngineStatus::NotLoaded => Err(MemoError::EngineUnavailable),
        EngineStatus::Loaded => {
            match store.get(id) {
                Err(e) => Err(e),
                Ok(rec) => Ok(rec.file_path),
            }
        },
    }
}

/// Merges a transcription outcome into the addressed record. An engine
/// failure, or empty decoded text (reported as `DecodeFailure`), leaves
/// the store unchanged, so a later retry starts from the same state;
/// success overwrites only the `transcript` field.
pub fn apply_transcript(
    store: &mut MetadataStore,
    id: &String,
    outcome: Result<String, MemoError>,
) -> (res: Result<(), MemoError>)
    requires
        old(store).wf(),
    ensures
        final(store).wf(),
        outcome is Err ==> res == Result::<(), MemoError>::Err(outcome->Err_0) && final(store)@
            == old(store)@,
        outcome is Ok && outcome->Ok_0@.len() == 0 ==> res == Result::<(), MemoError>::Err(
            MemoError::DecodeFailure,
        ) && final(store)@ == old(store)@,
        outcome is Ok && outcome->Ok_0@.len() > 0 && !contains_rec(old(store)@, id@) ==> res
            == Result::<(), MemoError>::Err(MemoError::NotFound) && final(store)@ == old(store)@,
        outcome is Ok && outcome->Ok_0@.len() > 0 && contains_rec(old(store)@, id@) ==> res is Ok
            && final(store)@ == old(store)@.update(
            find_rec(old(store)@, id@),
            merge_view(
                old(store)@[find_rec(old(store)@, id@)],
                Some(outcome->Ok_0@),
                None,
                None,
            ),
        ),
{
    match outcome {
        Err(e) => Err(e),
        Ok(text) => {
            if text.as_str().is_empty() {
                return Err(MemoError::DecodeFailure);
            }
            store.merge_update(id, Some(text), None, None)
        },
    }
}

/// The store after one successful summarize of the addressed record;
/// the store itself when the stage cannot run on it.
pub open spec fn summarize_view(recs: Seq<RecordingView>, id: Seq<char>) -> Seq<RecordingView> {
    let i = find_rec(recs, id);
    if i >= 0 && recs[i].transcript is Some && recs[i].transcript->0.len() > 0 {
        recs.update(
            i,
            merge_view(recs[i], None, Some(condense_spec(recs[i].transcript->0)), None),
        )
    } else {
        recs
    }
}

/// Runs the summarize stage on the addressed record: requires the
/// transcript to be present, condenses it, and merges the summary back.
/// Fails with `MissingPrerequisite`, leaving the store unchanged, when
/// the transcript is absent.
pub fn run_summarize(store: &mut MetadataStore, id: &String, engine: &EngineStatus) -> (res: Result<
    String,
    MemoError,
>)
    requires
        old(store).wf(),
    ensures
        final(store).wf(),
        engine is NotLoaded ==> res == Result::<String, MemoError>::Err(
            MemoError::EngineUnavailable,
        ) && final(store)@ == old(store)@,
        engine is Loaded ==> final(store)@ == summarize_view(old(store)@, id@),
        engine is Loaded && !contains_rec(old(store)@, id@) ==> res == Result::<
            String,
            MemoError,
        >::Err(MemoError::NotFound),
        engine is Loaded && contains_rec(old(store)@, id@) && lookup(old(store)@, id@)->0.transcript
            is None ==> res == Result::<String, MemoError>::Err(MemoError::MissingPrerequisite),
        engine is Loaded && contains_rec(old(store)@, id@) && lookup(old(store)@, id@)->0.transcript
            is Some ==> res is Ok && res->Ok_0@ == condense_spec(
            lookup(old(store)@, id@)->0.transcript->0,
        ),
{
    match engine {
        EngineStatus::NotLoaded => Err(MemoError::EngineUnavailable),
        EngineStatus::Loaded => {
            let rec = match store.get(id) {
                Err(e) => {
                    return Err(e);
                },
                Ok(rec) => rec,
            };
            let t = match rec.transcript {
                None => {
                    return Err(MemoError::MissingPrerequisite);
                },
                Some(t) => t,
            };
            proof {
                lemma_find_from(store@, id@, 0);
                assert(store@[find_rec(store@, id@)].wf());
            }
            if t.as_str().is_empty() {
                // unreachable on a well-formed store, where stored
                // transcripts are never empty
                return Err(MemoError::EmptyInput);
            }
            let s = condense(t.as_str());
            proof {
                lemma_condense_shape(t@);
            }
            match store.merge_update(id, None, Some(s.clone()), None) {
                Ok(_) => Ok(s),
                Err(e) => Err(e),
            }
        },
    }
}

/// The summarize operation at the interface boundary: condenses the
/// given transcript text to a non-empty summary no longer than the
/// input. Fails with `EngineUnavailable` when the capability is not
/// loaded, with `EmptyInput` exactly when the text is empty.
pub fn summarize_text(t: &str, engine: &EngineStatus) -> (res: Result<String, MemoError>)
    ensures
        engine is NotLoaded ==> res == Result::<String, MemoError>::Err(
            MemoError::EngineUnavailable,
        ),
        engine is Loaded && t@.len() == 0 ==> res == Result::<String, MemoError>::Err(
            MemoError::EmptyInput,
        ),
        engine is Loaded && t@.len() > 0 ==> res is Ok && res->Ok_0@ == condense_spec(t@)
            && res->Ok_0@.len() > 0 && res->Ok_0@.len() <= t@.len(),
{
    match engine {
        EngineStatus::NotLoaded => Err(MemoError::EngineUnavailable),
        EngineStatus::Loaded => {
            if t.is_empty() {
                return Err(MemoError::EmptyInput);
            }
            proof {
                lemma_condense_shape(t@);
            }
            Ok(condense(t))
        },
    }
}

/// The categorize operation at the interface boundary: one of the four
/// buckets for any transcript and summary text, derived
/// deterministically. Fails only with `EngineUnavailable`.
pub fn categorize_text(t: &str, s: &str, engine: &EngineStatus) -> (res: Result<
    Category,
    MemoError,
>)
    ensures
        engine is NotLoaded ==> res == Result::<Category, MemoError>::Err(
            MemoError::EngineUnavailable,
        ),
        engine is Loaded ==> res is Ok && res->Ok_0 == classify_spec(t@, s@),
{
    match engine {
        EngineStatus::NotLoaded => Err(MemoError::EngineUnavailable),
        EngineStatus::Loaded => Ok(classify(t, s)),
    }
}

/// The text the categorize stage reads: the summary together with the
/// transcript when the summary is present, the transcript alone as the
/// documented degraded fallback, nothing when neither stage has run.
pub open spec fn category_inputs(r: RecordingView) -> Option<(Seq<char>, Seq<char>)> {
    if r.summary is Some {
        Some(
            (
                if r.transcript is Some {
                    r.transcript->0
                } else {
                    Seq::empty()
                },
                r.summary->0,
            ),
        )
    } else if r.transcript is Some {
        Some((r.transcript->0, Seq::<char>::empty()))
    } else {
        None
    }
}

/// The store after one successful categorize of the addressed record;
/// the store itself when the stage cannot run on it.
pub open spec fn categorize_view(recs: Seq<RecordingView>, id: Seq<char>) -> Seq<RecordingView> {
    let i = find_rec(recs, id);
    if i >= 0 && category_inputs(recs[i]) is Some {
        let inp = category_inputs(recs[i])->0;
        recs.update(i, merge_view(recs[i], None, None, Some(classify_spec(inp.0, inp.1))))
    } else {
        recs
    }
}

/// Runs the categorize stage on the addressed record: classifies its
/// text deterministically into exactly one of the four buckets and
/// merges the result back. Fails with `MissingPrerequisite`, leaving
/// the store unchanged, when neither transcript nor summary is present.
pub fn run_categorize(store: &mut MetadataStore, id: &String, engine: &EngineStatus) -> (res:
    Result<Category, MemoError>)
    requires
        old(store).wf(),
    ensures
        final(store).wf(),
        engine is NotLoaded ==> res == Result::<Category, MemoError>::Err(
            MemoError::EngineUnavailable,
        ) && final(store)@ == old(store)@,
        engine is Loaded ==> final(store)@ == categorize_view(old(store)@, id@),
        engine is Loaded && !contains_rec(old(store)@, id@) ==> res == Result::<
            Category,
            MemoError,
        >::Err(MemoError::NotFound),
        engine is Loaded && contains_rec(old(store)@, id@) && category_inputs(
            lookup(old(store)@, id@)->0,
        ) is None ==> res == Result::<Category, MemoError>::Err(MemoError::MissingPrerequisite),
        engine is Loaded && contains_rec(old(store)@, id@) && category_inputs(
            lookup(old(store)@, id@)->0,
        ) is Some ==> res is Ok && res->Ok_0 == classify_spec(
            (category_inputs(lookup(old(store)@, id@)->0)->0).0,
            (category_inputs(lookup(old(store)@, id@)->0)->0).1,
        ),
{
    match engine {
        EngineStatus::NotLoaded => Err(MemoError::EngineUnavailable),
        EngineStatus::Loaded => {
            let rec = match store.get(id) {
                Err(e) => {
                    return Err(e);
                },
                Ok(rec) => rec,
            };
            proof {
                reveal_strlit("");
                assert(""@ =~= Seq::<char>::empty());
            }
            let c: Category;
            if rec.summary.is_some() {
                let s = rec.summary.as_ref().unwrap();
                let t: &str = match &rec.transcript {
                    Some(t) => t.as_str(),
                    None => "",
                };
                c = classify(t, s.as_str());
            } else if rec.transcript.is_some() {
                let t = rec.transcript.as_ref().unwrap();
                c = classify(t.as_str(), "");
            } else {
                return Err(MemoError::MissingPrerequisite);
            }
            match store.merge_update(id, None, None, Some(c)) {
                Ok(_) => Ok(c),
                Err(e) => Err(e),
            }
        },
    }
}

/// Fetches the transcript of the addressed record, together with the
/// record's timestamp and whatever later stages have produced. Fails
/// with `NotFound` when the record does not exist or its transcription
/// stage has not run yet.
pub fn get_transcript(store: &MetadataStore, id: &String) -> (res: Result<Transcript, MemoError>)
    ensures
        !(contains_rec(store@, id@) && lookup(store@, id@)->0.transcript is Some) ==> res
            == Result::<Transcript, MemoError>::Err(MemoError::NotFound),
        contains_rec(store@, id@) && lookup(store@, id@)->0.transcript is Some ==> {
            &&& res is Ok
            &&& res->Ok_0.text@ == lookup(store@, id@)->0.transcript->0
            &&& res->Ok_0.timestamp_millis == lookup(store@, id@)->0.timestamp_millis
            &&& res->Ok_0.summary.deep_view() == lookup(store@, id@)->0.summary
            &&& res->Ok_0.category == lookup(store@, id@)->0.category
        },
{
    match store.get(id) {
        Err(_) => Err(MemoError::NotFound),
        Ok(rec) => {
            match rec.transcript {
                None => Err(MemoError::NotFound),
                Some(text) => Ok(
                    Transcript {
                        text,
                        timestamp_millis: rec.timestamp_millis,
                        summary: rec.summary,
                        category: rec.category,
                    },
                ),
            }
        },
    }
}

/// Summarize is idempotent: summarizing a record twice, with no
/// intervening mutation, leaves exactly the store that one summarize
/// leaves.
pub proof fn lemma_summarize_idempotent(recs: Seq<RecordingView>, id: Seq<char>)
    ensures
        summarize_view(summarize_view(recs, id), id) == summarize_view(recs, id),
{
    let i = find_rec(recs, id);
    lemma_find_from(recs, id, 0);
    if i >= 0 && recs[i].transcript is Some && recs[i].transcript->0.len() > 0 {
        let c = condense_spec(recs[i].transcript->0);
        let m = merge_view(recs[i], None, Some(c), None);
        let r1 = recs.update(i, m);
        assert(forall|k: int| 0 <= k < recs.len() ==> recs[k].id == r1[k].id);
        lemma_find_from_same_ids(recs, r1, id, 0);
        assert(r1[i].transcript == recs[i].transcript);
        let m2 = merge_view(r1[i], None, Some(condense_spec(r1[i].transcript->0)), None);
        assert(m2 =~= m);
        assert(r1.update(i, m2) =~= r1);
    }
}

/// Categorize is idempotent: re-running a categorization that already
/// set a category re-derives the same category from the unchanged text
/// and leaves the store as it was.
pub proof fn lemma_categorize_idempotent(recs: Seq<RecordingView>, id: Seq<char>)
    ensures
        categorize_view(categorize_view(recs, id), id) == categorize_view(recs, id),
{
    let i = find_rec(recs, id);
    lemma_find_from(recs, id, 0);
    if i >= 0 && category_inputs(recs[i]) is Some {
        let inp = category_inputs(recs[i])->0;
        let m = merge_view(recs[i], None, None, Some(classify_spec(inp.0, inp.1)));
        let r1 = recs.update(i, m);
        assert(forall|k: int| 0 <= k < recs.len() ==> recs[k].id == r1[k].id);
        lemma_find_from_same_ids(recs, r1, id, 0);
        assert(r1[i].transcript == recs[i].transcript);
        assert(r1[i].summary == recs[i].summary);
        assert(category_inputs(r1[i]) == category_inputs(recs[i]));
        let m2 = merge_view(r1[i], None, None, Some(classify_spec(inp.0, inp.1)));
        assert(m2 =~= m);
        assert(r1.update(i, m2) =~= r1);
    }
}

} // verus!
