//! The deterministic PARA classifier: a keyword rule over transcript
//! and summary text. The same input text always yields the same bucket,
//! and the result is one of the four fixed variants by construction.

use vstd::prelude::*;
use crate::category::Category;
use crate::text::{contains_sub, occurs};

verus! {

/// Either text mentions the needle, up to ASCII case.
pub open spec fn mentions(t: Seq<char>, s: Seq<char>, k: Seq<char>) -> bool {
    occurs(t, k) || occurs(s, k)
}

/// The classification rule, in priority order: actionable work with a
/// goal is a project; an ongoing responsibility is an area; material
/// kept for its content is a resource; anything marked finished or
/// inactive is an archive. Text that matches none of the rules falls
/// back to `Resources`, the bucket for material that may become useful
/// later.
pub open spec fn classify_spec(t: Seq<char>, s: Seq<char>) -> Category {
    if mentions(t, s, "project"@) || mentions(t, s, "deadline"@) || mentions(t, s, "launch"@) {
        Category::Projects
    } else if mentions(t, s, "routine"@) || mentions(t, s, "habit"@) || mentions(t, s, "health"@)
        || mentions(t, s, "family"@) {
        Category::Areas
    } else if mentions(t, s, "book"@) || mentions(t, s, "article"@) || mentions(t, s, "reference"@)
        || mentions(t, s, "idea"@) {
        Category::Resources
    } else if mentions(t, s, "archive"@) || mentions(t, s, "finished"@) || mentions(
        t,
        s,
        "done"@,
    ) {
        Category::Archives
    } else {
        Category::Resources
    }
}

fn mentions_kw(t: &str, s: &str, k: &str) -> (r: bool)
    ensures
        r == mentions(t@, s@, k@),
{
    contains_sub(t, k) || contains_sub(s, k)
}

/// Classifies a transcript and summary into exactly one PARA bucket.
/// Deterministic: equal text always yields the equal bucket, so
/// re-running the stage on unchanged text reproduces its result.
pub fn classify(t: &str, s: &str) -> (c: Category)
    ensures
        c == classify_spec(t@, s@),
{
    if mentions_kw(t, s, "project") || mentions_kw(t, s, "deadline") || mentions_kw(
        t,
        s,
        "launch",
    ) {
        Category::Projects
    } else if mentions_kw(t, s, "routine") || mentions_kw(t, s, "habit") || mentions_kw(
        t,
        s,
        "health",
    ) || mentions_kw(t, s, "family") {
        Category::Areas
    } else if mentions_kw(t, s, "book") || mentions_kw(t, s, "article") || mentions_kw(
        t,
        s,
        "reference",
    ) || mentions_kw(t, s, "idea") {
        Category::Resources
    } else if mentions_kw(t, s, "archive") || mentions_kw(t, s, "finished") || mentions_kw(
        t,
        s,
        "done",
    ) {
        Category::Archives
    } else {
        Category::Resources
    }
}

} // verus!
