//! The closed set of PARA buckets and its textual boundary form.

use vstd::prelude::*;

verus! {

/// One of the four fixed organizational buckets. No other value is a
/// valid category: the enum is closed.
#[derive(Clone, Copy, PartialEq, Eq, Structural, Debug)]
pub enum Category {
    Projects,
    Areas,
    Resources,
    Archives,
}

impl Category {
    /// The textual label used at the external interface boundary.
    pub open spec fn label_spec(self) -> Seq<char> {
        match self {
            Category::Projects => "Projects"@,
            Category::Areas => "Areas"@,
            Category::Resources => "Resources"@,
            Category::Archives => "Archives"@,
        }
    }

    /// Serializes the category to its label text.
    pub fn label(&self) -> (r: String)
        ensures
            r@ == self.label_spec(),
    {
        match self {
            Category::Projects => String::from_str("Projects"),
            Category::Areas => String::from_str("Areas"),
            Category::Resources => String::from_str("Resources"),
            Category::Archives => String::from_str("Archives"),
        }
    }
}

/// Every category value is one of the four fixed buckets; the type
/// admits no fifth state.
pub proof fn lemma_category_closed(c: Category)
    ensures
        c == Category::Projects || c == Category::Areas || c == Category::Resources
            || c == Category::Archives,
{
}

} // verus!
