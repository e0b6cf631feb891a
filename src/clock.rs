use vstd::prelude::*;

verus! {

/// The text that a strftime-style `pattern` gives for the instant `secs`
/// seconds after the Unix epoch, seen at `offset_secs` east of UTC; none
/// when the instant or the offset is out of range or the pattern is invalid.
pub uninterp spec fn strftime_of(secs: int, offset_secs: int, pattern: Seq<char>) -> Option<Seq<char>>;

/// Relies on chrono's DateTime::from_timestamp, FixedOffset::east_opt and
/// DateTime::format: the text depends on the instant, the offset and the
/// pattern alone, and formatting reports an invalid pattern as an error.
#[verifier::external_body]
pub(crate) fn strftime(secs: i64, offset_secs: i32, pattern: &str) -> (r: Option<String>)
    ensures
        match r {
            Some(s) => strftime_of(secs as int, offset_secs as int, pattern@) == Some(s@),
            None => strftime_of(secs as int, offset_secs as int, pattern@) is None,
        },
{
    let offset = chrono::FixedOffset::east_opt(offset_secs)?;
    let at = chrono::DateTime::from_timestamp(secs, 0)?.with_timezone(&offset);
    let mut out = String::new();
    at.format(pattern).write_to(&mut out).ok()?;
    Some(out)
}

/// Pattern of the timestamp shown in alerts.
pub open spec fn display_pattern() -> Seq<char> {
    "%Y-%m-%d %H:%M:%S"@
}

/// The timestamp shown in an alert for a local time.
pub fn display_timestamp(secs: i64, offset_secs: i32) -> (r: Option<String>)
    ensures
        match r {
            Some(s) => strftime_of(secs as int, offset_secs as int, display_pattern()) == Some(s@),
            None => strftime_of(secs as int, offset_secs as int, display_pattern()) is None,
        },
{
    strftime(secs, offset_secs, "%Y-%m-%d %H:%M:%S")
}

} // verus!
