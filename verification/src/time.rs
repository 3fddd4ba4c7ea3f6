//! Points in time, and how the AWS SDK writes them: its `DateTime`, which
//! every service crate hands on under `primitives`.
use crate::text::text_view;
use vstd::prelude::*;

verus! {

/// A point in time: whole seconds since the start of 1970, and the
/// nanoseconds into the second.
#[derive(Clone, Copy, Debug, PartialEq, Eq, Structural)]
pub struct Timestamp {
    pub seconds: i64,
    pub nanos: u32,
}

/// How a point in time is written as an HTTP date, such as
/// `Mon, 16 Dec 2019 23:48:18 GMT`; `None` where the formatter refuses it.
pub uninterp spec fn http_date(seconds: i64, nanos: u32) -> Option<Seq<char>>;

/// Makes a `DateTime` with `DateTime::from_secs_and_nanos` and writes it
/// with `DateTime::fmt` in the format `DateTimeFormat::HttpDate`. Trusted:
/// the result is the one that `http_date` names, which says no more than
/// that the same point in time is always written in the same way. The
/// precondition keeps out the nanoseconds on which the constructor panics.
#[verifier::external_body]
fn format_http_date(seconds: i64, nanos: u32) -> (out: Option<String>)
    requires
        nanos < 1_000_000_000,
    ensures
        text_view(out) == http_date(seconds, nanos),
{
    aws_sdk_memorydb::primitives::DateTime::from_secs_and_nanos(seconds, nanos).fmt(
        aws_sdk_memorydb::primitives::DateTimeFormat::HttpDate,
    ).ok()
}

/// How a point in time is written in a report: as an HTTP date; not at all
/// where its nanoseconds are no part of a second or the formatter refuses it.
pub open spec fn date_text(at: Timestamp) -> Option<Seq<char>> {
    if at.nanos < 1_000_000_000 {
        http_date(at.seconds, at.nanos)
    } else {
        None
    }
}

/// A point in time as an HTTP date.
pub fn http_date_text(at: Timestamp) -> (out: Option<String>)
    ensures
        text_view(out) == date_text(at),
{
    if at.nanos < 1_000_000_000 {
        format_http_date(at.seconds, at.nanos)
    } else {
        None
    }
}

/// How a point in time that may be missing is written in a report.
pub open spec fn date_text_of(at: Option<Timestamp>) -> Option<Seq<char>> {
    match at {
        Some(at) => date_text(at),
        None => None,
    }
}

/// A point in time that may be missing, as an HTTP date.
pub fn http_date_text_of(at: Option<Timestamp>) -> (out: Option<String>)
    ensures
        text_view(out) == date_text_of(at),
{
    match at {
        Some(at) => http_date_text(at),
        None => None,
    }
}

} // verus!
