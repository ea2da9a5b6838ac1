//! How the timing library reads durations from text.

use vstd::prelude::*;
use livesplit_core::TimeSpan;

verus! {

/// The largest magnitude, in nanoseconds, of a duration the timing library
/// can hold: `i64::MAX` whole seconds and 999_999_999 nanoseconds.
pub const TIME_LIMIT: i128 = 9_223_372_036_854_775_807_999_999_999;

/// What `TimeSpan::parse_opt` reads from a text: `None` when the text is
/// refused, `Some(None)` when it is blank, `Some(Some(t))` for `t`
/// nanoseconds.
pub uninterp spec fn parsed_time(s: Seq<char>) -> Option<Option<i128>>;

/// Relies on `TimeSpan::parse_opt` and `whole_nanoseconds`: whole seconds
/// fit an `i64` and the fraction is under a second.
#[verifier::external_body]
pub(crate) fn parse_time(text: &str) -> (r: Option<Option<i128>>)
    ensures
        r == parsed_time(text@),
        forall|t: i128| r == Some(Some(t)) ==> -TIME_LIMIT <= t <= TIME_LIMIT,
{
    match TimeSpan::parse_opt(text) {
        Ok(Some(t)) => Some(Some(t.to_duration().whole_nanoseconds())),
        Ok(None) => Some(None),
        Err(_) => None,
    }
}

} // verus!
