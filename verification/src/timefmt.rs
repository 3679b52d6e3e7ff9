//! Timestamp text.  Turning seconds since the Unix epoch into the
//! `YYYY-MM-DD HH:MM:SS` form is chrono's work; the text it produces is
//! named here and everything around the call is stated over that name.

use vstd::prelude::*;

verus! {

/// The first second of year 10000.  Seconds in `0..TIMESTAMP_LIMIT` fall in
/// years 1970 through 9999, whose timestamp text is four-digit-year shaped.
pub const TIMESTAMP_LIMIT: i64 = 253402300800;

/// The `YYYY-MM-DD HH:MM:SS` text (in UTC) of a timestamp of `secs`
/// seconds since the Unix epoch, as chrono formats it.
pub uninterp spec fn timestamp_text(secs: int) -> Seq<char>;

/// Relies on chrono's `DateTime::from_timestamp` and its strftime
/// formatting with `%Y-%m-%d %H:%M:%S`: for seconds within year 1970
/// through year 9999 the timestamp is well inside chrono's documented
/// range, so the conversion succeeds, and the formatted text depends on
/// the seconds alone; its pieces are zero-padded to 4+2+2+2+2+2 digits,
/// 19 characters with the separators.
#[verifier::external_body]
pub(crate) fn format_timestamp(secs: i64) -> (r: String)
    requires
        0 <= secs < TIMESTAMP_LIMIT,
    ensures
        r@ == timestamp_text(secs as int),
        r@.len() == 19,
{
    let datetime = chrono::DateTime::from_timestamp(secs, 0).unwrap();
    datetime.format("%Y-%m-%d %H:%M:%S").to_string()
}

} // verus!
