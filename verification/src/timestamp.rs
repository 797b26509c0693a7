//! Timestamps as the readable export writes them.

use chrono::{DateTime, SecondsFormat};
use vstd::prelude::*;

verus! {

/// The instant `millis` milliseconds after the Unix epoch, written in UTC as
/// an RFC 3339 date and time with three fractional digits and a closing `Z`;
/// `None` where the instant lies outside the dates that the calendar library
/// can hold.
pub uninterp spec fn utc_timestamp_text(millis: int) -> Option<Seq<char>>;

/// chrono's `DateTime::from_timestamp_millis`, and on the date that it gives
/// `DateTime::to_rfc3339_opts` with `SecondsFormat::Millis` and `use_z`.
/// Claimed: the text depends on the number alone, and there is none exactly
/// where chrono has no date for the number.
#[verifier::external_body]
pub(crate) fn format_utc_millis(millis: i64) -> (r: Option<String>)
    ensures
        r.deep_view() == utc_timestamp_text(millis as int),
{
    match DateTime::from_timestamp_millis(millis) {
        Some(instant) => Some(instant.to_rfc3339_opts(SecondsFormat::Millis, true)),
        None => None,
    }
}

} // verus!
