//! Points in time, as the catalogue writes them.
//!
//! A [`Timestamp`] keeps the text it was read from beside the instant and the
//! offset from UTC that the text denotes, so that encoding gives back the
//! very text and nothing is normalised.

use crate::json::{Json, JsonView};
use crate::schema::{outcome, DecodeError, DecodeErrorView, Fault, Schema};
use vstd::prelude::*;

verus! {

/// What chrono reads from `text` as a date and time with a fixed offset: the
/// seconds since the Unix epoch, the nanoseconds past that second, and the
/// offset from UTC in seconds east; nothing where `text` is no date and time.
pub uninterp spec fn datetime_fields(text: Seq<char>) -> Option<(i64, u32, i32)>;

/// Parses `text` with chrono's `FromStr` for `DateTime<FixedOffset>` and takes
/// the result apart with `timestamp`, `timestamp_subsec_nanos` and
/// `offset().local_minus_utc()`. The contract claims only that the outcome is
/// a function of the text; nothing about which texts parse is proved here.
#[verifier::external_body]
fn parse_datetime(text: &str) -> (fields: Option<(i64, u32, i32)>)
    ensures
        fields == datetime_fields(text@),
{
    match text.parse::<chrono::DateTime<chrono::FixedOffset>>() {
        Ok(moment) => Some(
            (
                moment.timestamp(),
                moment.timestamp_subsec_nanos(),
                moment.offset().local_minus_utc(),
            ),
        ),
        Err(_) => None,
    }
}

/// A date and time with its offset from UTC.
#[derive(Debug, PartialEq, Eq)]
pub struct Timestamp {
    /// The text as it stands in the document.
    pub text: String,
    /// Seconds since 1970-01-01T00:00:00Z, leap seconds not counted.
    pub seconds: i64,
    /// Nanoseconds past `seconds`; a leap second shows as a billion or more.
    pub nanos: u32,
    /// Seconds that local time is ahead of UTC.
    pub offset: i32,
}

/// The model of a [`Timestamp`].
pub struct TimestampView {
    pub text: Seq<char>,
    pub seconds: i64,
    pub nanos: u32,
    pub offset: i32,
}

impl DeepView for Timestamp {
    type V = TimestampView;

    open spec fn deep_view(&self) -> TimestampView {
        TimestampView {
            text: self.text@,
            seconds: self.seconds,
            nanos: self.nanos,
            offset: self.offset,
        }
    }
}

/// The timestamp that `text` makes, given what the parser said of it.
pub open spec fn assembled(text: Seq<char>, fields: Option<(i64, u32, i32)>) -> Result<
    TimestampView,
    DecodeErrorView,
> {
    match fields {
        Some(fields) => Ok(
            TimestampView { text, seconds: fields.0, nanos: fields.1, offset: fields.2 },
        ),
        None => Err(DecodeErrorView::here(Fault::Timestamp)),
    }
}

impl Timestamp {
    /// Makes the timestamp for `text` from the parser's verdict `fields`.
    pub fn assemble(text: &str, fields: Option<(i64, u32, i32)>) -> (result: Result<
        Timestamp,
        DecodeError,
    >)
        ensures
            outcome(result) == assembled(text@, fields),
    {
        match fields {
            Some(fields) => Ok(
                Timestamp {
                    text: text.to_owned(),
                    seconds: fields.0,
                    nanos: fields.1,
                    offset: fields.2,
                },
            ),
            None => Err(DecodeError::here(Fault::Timestamp)),
        }
    }

    /// Reads `text` as a date and time.
    pub fn parse(text: &str) -> (result: Result<Timestamp, DecodeError>)
        ensures
            outcome(result) == assembled(text@, datetime_fields(text@)),
    {
        Timestamp::assemble(text, parse_datetime(text))
    }
}

impl Schema for Timestamp {
    open spec fn valid(value: TimestampView) -> bool {
        datetime_fields(value.text) == Some((value.seconds, value.nanos, value.offset))
    }

    open spec fn decoded(doc: JsonView) -> Result<TimestampView, DecodeErrorView> {
        match doc {
            JsonView::Text(text) => assembled(text, datetime_fields(text)),
            _ => Err(DecodeErrorView::here(Fault::Mismatch)),
        }
    }

    open spec fn encoded(value: TimestampView) -> JsonView {
        JsonView::Text(value.text)
    }

    fn decode(doc: &Json) -> (result: Result<Timestamp, DecodeError>) {
        match doc {
            Json::Text(text) => Timestamp::parse(text.as_str()),
            _ => Err(DecodeError::here(Fault::Mismatch)),
        }
    }

    fn encode(&self) -> (doc: Json) {
        Json::Text(self.text.clone())
    }

    proof fn decoded_is_valid(doc: JsonView) {
    }

    proof fn encoded_decodes(value: TimestampView) {
    }
}

} // verus!
