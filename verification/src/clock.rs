//! Wall-clock readings and the deterministic audio file name derived
//! from a capture-stop instant.

use vstd::prelude::*;

verus! {

/// Largest clock reading (milliseconds since the Unix epoch) that the
/// timestamp label supports; comfortably inside the range chrono can
/// represent, which reaches about 262,000 years away from the epoch.
pub const MAX_INSTANT_MILLIS: u64 = 8_000_000_000_000_000;

/// The compact label chrono renders for an instant; a function of the
/// millisecond value alone.
pub uninterp spec fn label_of(millis: u64) -> Seq<char>;

/// Relies on chrono's `Utc::now` and `DateTime::timestamp_millis` for
/// the current wall-clock time in milliseconds since the Unix epoch.
/// Nothing is promised of the reading: the clock may move arbitrarily
/// between calls, so callers must handle every value.
#[verifier::external_body]
pub(crate) fn now_millis() -> i64 {
    chrono::Utc::now().timestamp_millis()
}

/// Relies on chrono's `DateTime::from_timestamp_millis` (total on the
/// required range) and its `%Y%m%d_%H%M%S` formatting: a zero-padded
/// timestamp label, determined by the millisecond value alone, never
/// shorter than the 15 characters of the padded fields and separator.
#[verifier::external_body]
pub(crate) fn timestamp_label(millis: u64) -> (r: String)
    requires
        millis <= MAX_INSTANT_MILLIS,
    ensures
        r@ == label_of(millis),
        r@.len() >= 15,
{
    let stamp = chrono::DateTime::<chrono::Utc>::from_timestamp_millis(millis as i64)
        .expect("instant lies within the supported range");
    stamp.format("%Y%m%d_%H%M%S").to_string()
}

/// A raw clock reading folded into the supported window: readings before
/// the epoch, or beyond the label range, are recorded as the epoch.
pub open spec fn clamp_instant_spec(raw: i64) -> u64 {
    if 0 <= raw <= MAX_INSTANT_MILLIS {
        raw as u64
    } else {
        0
    }
}

/// Clamps a raw clock reading into the supported window.
pub fn clamp_instant(raw: i64) -> (r: u64)
    ensures
        r == clamp_instant_spec(raw),
        r <= MAX_INSTANT_MILLIS,
{
    if 0 <= raw && raw <= MAX_INSTANT_MILLIS as i64 {
        raw as u64
    } else {
        0
    }
}

/// The audio file name belonging to a capture that stopped at the given
/// instant: the timestamp label between a fixed prefix and suffix.
pub open spec fn wav_name_spec(millis: u64) -> Seq<char> {
    "recording_"@ + label_of(millis) + ".wav"@
}

/// Builds the deterministic audio file name for a capture-stop instant.
pub fn wav_file_name(millis: u64) -> (r: String)
    requires
        millis <= MAX_INSTANT_MILLIS,
    ensures
        r@ == wav_name_spec(millis),
        r@.len() >= 29,
{
    let mut name = String::from_str("recording_");
    let label = timestamp_label(millis);
    name.append(label.as_str());
    name.append(".wav");
    proof {
        reveal_strlit("recording_");
        reveal_strlit(".wav");
        assert(name@ =~= wav_name_spec(millis));
    }
    name
}

} // verus!
