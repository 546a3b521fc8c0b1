use vstd::prelude::*;

verus! {

/// The JSON text that `serde_json::to_string` gives for a string: `Some` of the
/// quoted and escaped text, or `None` where it reports an error.
pub uninterp spec fn json_text(value: Seq<char>) -> Option<Seq<char>>;

/// Calls `serde_json::to_string` on a string slice. Its outcome depends on the
/// characters alone; an error is handed on as `None`.
#[verifier::external_body]
pub(crate) fn to_json_text(value: &str) -> (text: Option<String>)
    ensures
        text.deep_view() == json_text(value@),
{
    serde_json::to_string(value).ok()
}

/// Whether `chrono::DateTime::from_timestamp_micros` gives a calendar time for
/// that many microseconds since the Unix epoch.
pub uninterp spec fn is_calendar_micros(micros: int) -> bool;

/// Calls `chrono::DateTime::from_timestamp_micros`, which returns `None` for a
/// count that lies outside the range of dates that chrono represents, and
/// tells whether a time came back.
#[verifier::external_body]
pub(crate) fn calendar_time_exists(micros: i64) -> (exists: bool)
    ensures
        exists == is_calendar_micros(micros as int),
{
    chrono::DateTime::from_timestamp_micros(micros).is_some()
}

} // verus!
