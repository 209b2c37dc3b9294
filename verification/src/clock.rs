//! The wall clock and the calendar, both taken from `chrono`.

use chrono::{TimeZone, Utc};
use vstd::prelude::*;

verus! {

/// The text that `chrono` writes for the UTC date and time that lies `nanos`
/// nanoseconds after the Unix epoch, such as `1970-01-01 00:00:00 UTC`.
pub uninterp spec fn utc_text(nanos: i64) -> Seq<char>;

/// The current time in nanoseconds since the Unix epoch, read with
/// `chrono::Utc::now` and converted by `DateTime::timestamp_nanos_opt`, which
/// gives `None` for an instant that no `i64` count of nanoseconds reaches.
///
/// Nothing is claimed of the value: it is whatever the system clock says.
/// `Utc::now` takes no argument and panics where the system clock is set
/// before the epoch.
#[verifier::external_body]
pub(crate) fn get_timestamp() -> Option<i64> {
    Utc::now().timestamp_nanos_opt()
}

/// Writes out the instant `nanos` nanoseconds after the Unix epoch: builds
/// the `DateTime<Utc>` with `TimeZone::timestamp_nanos`, which accepts every
/// `i64`, and formats it with its `Display`. The result depends on `nanos`
/// alone and is what [`utc_text`] names.
#[verifier::external_body]
pub(crate) fn format_utc(nanos: i64) -> (text: String)
    ensures
        text@ == utc_text(nanos),
{
    format!("{}", Utc.timestamp_nanos(nanos))
}

} // verus!
