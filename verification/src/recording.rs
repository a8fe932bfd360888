//! The central entity: one captured memo together with its progressively
//! populated artifacts, and the mathematical view contracts speak of.

use vstd::prelude::*;
use crate::category::Category;

verus! {

/// One captured audio session with its derived artifacts. `id`,
/// `file_path`, `timestamp_millis` and `duration_millis` are fixed at
/// finalization; the three enrichment fields populate monotonically in
/// pipeline order and are never cleared once set.
#[derive(Debug)]
pub struct Recording {
    pub id: String,
    pub file_path: String,
    /// Capture-stop time, in milliseconds since the Unix epoch.
    pub timestamp_millis: u64,
    /// Length of the capture, in milliseconds.
    pub duration_millis: u64,
    pub transcript: Option<String>,
    pub summary: Option<String>,
    pub category: Option<Category>,
}

/// The mathematical shadow of a `Recording`: every text field as a
/// sequence of characters.
#[verifier::ext_equal]
pub ghost struct RecordingView {
    pub id: Seq<char>,
    pub file_path: Seq<char>,
    pub timestamp_millis: u64,
    pub duration_millis: u64,
    pub transcript: Option<Seq<char>>,
    pub summary: Option<Seq<char>>,
    pub category: Option<Category>,
}

impl RecordingView {
    /// A well-formed record names itself and its audio file, and never
    /// holds empty enrichment text: an absent stage result is `None`,
    /// not an empty string.
    pub open spec fn wf(self) -> bool {
        &&& self.id.len() > 0
        &&& self.file_path.len() > 0
        &&& (self.transcript is Some ==> self.transcript->0.len() > 0)
        &&& (self.summary is Some ==> self.summary->0.len() > 0)
    }
}

impl View for Recording {
    type V = RecordingView;

    open spec fn view(&self) -> RecordingView {
        RecordingView {
            id: self.id@,
            file_path: self.file_path@,
            timestamp_millis: self.timestamp_millis,
            duration_millis: self.duration_millis,
            transcript: self.transcript.deep_view(),
            summary: self.summary.deep_view(),
            category: self.category,
        }
    }
}

impl DeepView for Recording {
    type V = RecordingView;

    open spec fn deep_view(&self) -> RecordingView {
        self.view()
    }
}

/// One stage result merged into a record: a `Some` argument overwrites
/// its own field, a `None` argument leaves the field as it was. The
/// identity fields are never touched.
pub open spec fn merge_view(
    r: RecordingView,
    transcript: Option<Seq<char>>,
    summary: Option<Seq<char>>,
    category: Option<Category>,
) -> RecordingView {
    RecordingView {
        transcript: if transcript is Some {
            transcript
        } else {
            r.transcript
        },
        summary: if summary is Some {
            summary
        } else {
            r.summary
        },
        category: if category is Some {
            category
        } else {
            r.category
        },
        ..r
    }
}

/// A merge never clears a previously-set field and never touches the
/// identity fields: enrichment is monotone.
pub proof fn lemma_merge_monotone(
    r: RecordingView,
    transcript: Option<Seq<char>>,
    summary: Option<Seq<char>>,
    category: Option<Category>,
)
    ensures
        r.transcript is Some ==> merge_view(r, transcript, summary, category).transcript is Some,
        r.summary is Some ==> merge_view(r, transcript, summary, category).summary is Some,
        r.category is Some ==> merge_view(r, transcript, summary, category).category is Some,
        merge_view(r, transcript, summary, category).id == r.id,
        merge_view(r, transcript, summary, category).file_path == r.file_path,
        merge_view(r, transcript, summary, category).timestamp_millis == r.timestamp_millis,
        merge_view(r, transcript, summary, category).duration_millis == r.duration_millis,
{
}

fn clone_opt_string(o: &Option<String>) -> (r: Option<String>)
    ensures
        r == *o,
{
    match o {
        None => None,
        Some(s) => Some(s.clone()),
    }
}

impl Clone for Recording {
    fn clone(&self) -> (r: Self)
        ensures
            r == *self,
    {
        Recording {
            id: self.id.clone(),
            file_path: self.file_path.clone(),
            timestamp_millis: self.timestamp_millis,
            duration_millis: self.duration_millis,
            transcript: clone_opt_string(&self.transcript),
            summary: clone_opt_string(&self.summary),
            category: self.category,
        }
    }
}

} // verus!
