//! Commit times as text.

use std::fmt::Write;
use vstd::prelude::*;

verus! {

/// What `chrono` prints for the instant `seconds` after the Unix epoch, seen
/// at `offset_seconds` east of UTC and laid out by the `strftime` pattern
/// `pattern`; `None` where it prints nothing.
pub uninterp spec fn local_time_text(seconds: i64, offset_seconds: i32, pattern: Seq<char>) -> Option<
    Seq<char>,
>;

/// Formats an instant with `chrono`: `DateTime::from_timestamp` makes the
/// instant, `FixedOffset::east_opt` the offset, `DateTime::with_timezone`
/// moves the instant there and `DateTime::format` lays it out.
///
/// Nothing is proved of this function. It is taken to return what `chrono`
/// prints, which depends on the three arguments alone, and `None` where
/// `chrono` rejects the instant, the offset or the pattern.
#[verifier::external_body]
pub(crate) fn format_timestamp(seconds: i64, offset_seconds: i32, pattern: &str) -> (text: Option<
    String,
>)
    ensures
        match text {
            Some(t) => local_time_text(seconds, offset_seconds, pattern@) == Some(t@),
            None => local_time_text(seconds, offset_seconds, pattern@) is None,
        },
{
    let instant = chrono::DateTime::from_timestamp(seconds, 0)?;
    let zone = chrono::FixedOffset::east_opt(offset_seconds)?;
    let mut text = String::new();
    write!(text, "{}", instant.with_timezone(&zone).format(pattern)).ok()?;
    Some(text)
}

} // verus!
