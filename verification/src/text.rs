//! Verified text primitives: substring occurrence, used by the
//! classifier, and the extractive condenser behind the summarize stage.

use vstd::prelude::*;
use vstd::string::StrSliceExecFns;

verus! {

/// Case folding for matching: an ASCII upper-case letter folds to its
/// lower-case form, every other character stands as it is.
pub open spec fn lower_char(c: char) -> char {
    if 'A' <= c && c <= 'Z' {
        ((c as u8) + 32) as char
    } else {
        c
    }
}

fn fold_char(c: char) -> (r: char)
    ensures
        r == lower_char(c),
{
    if 'A' <= c && c <= 'Z' {
        ((c as u8) + 32) as char
    } else {
        c
    }
}

/// The needle `k` occurs in `t` starting at position `i`, comparing
/// characters up to ASCII case.
pub open spec fn occurs_at(t: Seq<char>, k: Seq<char>, i: int) -> bool {
    &&& 0 <= i
    &&& i + k.len() <= t.len()
    &&& forall|j: int| 0 <= j < k.len() ==> lower_char(t[i + j]) == lower_char(k[j])
}

/// The needle `k` occurs somewhere in `t`, up to ASCII case.
pub open spec fn occurs(t: Seq<char>, k: Seq<char>) -> bool {
    exists|i: int| occurs_at(t, k, i)
}

/// Character-by-character check of one candidate position.
fn match_at(t: &str, k: &str, i: usize, tlen: usize, klen: usize) -> (r: bool)
    requires
        tlen == t@.len(),
        klen == k@.len(),
        i + klen <= tlen,
    ensures
        r == occurs_at(t@, k@, i as int),
{
    let mut j: usize = 0;
    while j < klen
        invariant
            tlen == t@.len(),
            klen == k@.len(),
            i + klen <= tlen,
            0 <= j <= klen,
            forall|jj: int| 0 <= jj < j ==> lower_char(t@[i + jj]) == lower_char(k@[jj]),
        decreases klen - j,
    {
        if fold_char(t.get_char(i + j)) != fold_char(k.get_char(j)) {
            assert(lower_char(t@[i + j as int]) != lower_char(k@[j as int]));
            return false;
        }
        j += 1;
    }
    true
}

/// Whether the needle occurs anywhere in the haystack, up to ASCII case.
pub fn contains_sub(t: &str, k: &str) -> (r: bool)
    ensures
        r == occurs(t@, k@),
{
    let tlen = t.unicode_len();
    let klen = k.unicode_len();
    if klen > tlen {
        assert(forall|i: int| !occurs_at(t@, k@, i));
        return false;
    }
    let mut i: usize = 0;
    while i <= tlen - klen
        invariant
            tlen == t@.len(),
            klen == k@.len(),
            klen <= tlen,
            0 <= i <= tlen - klen + 1,
            forall|ii: int| 0 <= ii < i ==> !occurs_at(t@, k@, ii),
        decreases tlen + 1 - i,
    {
        if match_at(t, k, i, tlen, klen) {
            return true;
        }
        i += 1;
    }
    assert forall|ii: int| !occurs_at(t@, k@, ii) by {
        if ii > tlen - klen {
            assert(!occurs_at(t@, k@, ii));
        }
    }
    false
}

/// Position of the first `needle` character at or after `i`; `-1` if
/// there is none.
pub open spec fn find_char_from(t: Seq<char>, needle: char, i: int) -> int
    decreases t.len() - i,
{
    if i < 0 || i >= t.len() {
        -1
    } else if t[i] == needle {
        i
    } else {
        find_char_from(t, needle, i + 1)
    }
}

/// `find_char_from` returns `-1` with no match at or after `i`, or the
/// least matching position at or after `i`.
pub proof fn lemma_find_char_from(t: Seq<char>, needle: char, i: int)
    requires
        0 <= i,
    ensures
        find_char_from(t, needle, i) == -1 || find_char_from(t, needle, i) >= i,
        find_char_from(t, needle, i) == -1 ==> forall|k: int| i <= k < t.len() ==> t[k] != needle,
        find_char_from(t, needle, i) >= 0 ==> {
            &&& i <= find_char_from(t, needle, i) < t.len()
            &&& t[find_char_from(t, needle, i)] == needle
            &&& forall|k: int| i <= k < find_char_from(t, needle, i) ==> t[k] != needle
        },
    decreases t.len() - i,
{
    if i < t.len() && t[i] != needle {
        lemma_find_char_from(t, needle, i + 1);
    }
}

/// The condenser never keeps more than this many characters.
pub const SUMMARY_CAP: usize = 120;

/// How much of the text the condenser keeps: up to and including the
/// first full stop, capped; the whole text, capped, when there is no
/// full stop.
pub open spec fn summary_len(t: Seq<char>) -> int {
    let d = find_char_from(t, '.', 0);
    let base: int = if d >= 0 {
        d + 1
    } else {
        t.len() as int
    };
    if base > SUMMARY_CAP {
        SUMMARY_CAP as int
    } else {
        base
    }
}

/// What the condenser returns: the leading sentence of the text.
pub open spec fn condense_spec(t: Seq<char>) -> Seq<char> {
    t.take(summary_len(t))
}

/// The condensed text is a prefix of the input: never longer than the
/// input, never empty unless the input is empty, and never beyond the
/// cap.
pub proof fn lemma_condense_shape(t: Seq<char>)
    ensures
        condense_spec(t).len() <= t.len(),
        t.len() > 0 ==> condense_spec(t).len() > 0,
        condense_spec(t).len() <= SUMMARY_CAP,
        condense_spec(t) == t.take(summary_len(t)),
{
    lemma_find_char_from(t, '.', 0);
}

/// Condenses a transcript to its leading sentence, capped at
/// `SUMMARY_CAP` characters.
pub fn condense(t: &str) -> (r: String)
    ensures
        r@ == condense_spec(t@),
{
    let tlen = t.unicode_len();
    let mut d: usize = 0;
    let mut found = false;
    while d < tlen && !found
        invariant
            tlen == t@.len(),
            0 <= d <= tlen,
            found ==> d < tlen && t@[d as int] == '.' && find_char_from(t@, '.', 0) == d,
            !found ==> forall|k: int| 0 <= k < d ==> t@[k] != '.',
        decreases tlen - d + (if found { 0int } else { 1int }),
    {
        if t.get_char(d) == '.' {
            found = true;
            proof {
                lemma_find_char_from(t@, '.', 0);
                assert(t@[d as int] == '.');
                assert(find_char_from(t@, '.', 0) == d);
            }
        } else {
            d += 1;
        }
    }
    proof {
        if !found {
            lemma_find_char_from(t@, '.', 0);
            if find_char_from(t@, '.', 0) >= 0 {
                assert(t@[find_char_from(t@, '.', 0)] == '.');
                assert(false);
            }
        }
    }
    let base = if found {
        d + 1
    } else {
        tlen
    };
    let keep = if base > SUMMARY_CAP {
        SUMMARY_CAP
    } else {
        base
    };
    let head = t.substring_char(0, keep);
    let out = head.to_owned();
    proof {
        assert(out@ =~= condense_spec(t@));
    }
    out
}

} // verus!
