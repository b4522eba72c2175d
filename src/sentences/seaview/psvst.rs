//! `SVST`: timestamp of a displacement record.
use chrono::{Datelike, Timelike};
use vstd::prelude::*;
use crate::sentences::error::{ParseErrorModel, ParseNMEA0183Error};
use crate::{Nmea, NmeaView};

verus! {

/// A calendar date and time of day, without a time zone.
///
/// A leap second is `second` 59 with `nanosecond` of at least one billion.
#[derive(Debug, Clone, Copy, PartialEq, Eq, Structural)]
pub struct Timestamp {
    pub year: i32,
    pub month: u32,
    pub day: u32,
    pub hour: u32,
    pub minute: u32,
    pub second: u32,
    pub nanosecond: u32,
}

/// The date and time that chrono reads from the text `s` with the pattern `fmt`, if any.
pub uninterp spec fn naive_datetime_of(s: Seq<char>, fmt: Seq<char>) -> Option<Timestamp>;

/// Relies on `chrono::NaiveDateTime::parse_from_str`: the date and time that `s` spells in
/// the pattern `fmt`, or none; the result depends on the two texts alone.
#[verifier::external_body]
fn parse_datetime(s: &str, fmt: &str) -> (r: Option<Timestamp>)
    ensures
        r == naive_datetime_of(s@, fmt@),
{
    match chrono::NaiveDateTime::parse_from_str(s, fmt) {
        Ok(t) => Some(
            Timestamp {
                year: t.year(),
                month: t.month(),
                day: t.day(),
                hour: t.hour(),
                minute: t.minute(),
                second: t.second(),
                nanosecond: t.nanosecond(),
            },
        ),
        Err(_) => None,
    }
}

/// The pattern of the timestamp field: `YYYY-MM-DD HH:MM:SS`.
pub open spec fn timestamp_pattern() -> Seq<char> {
    "%Y-%m-%d %H:%M:%S"@
}

/// The UTC time of a displacement record block.
///
/// Field 0 is the time, `YYYY-MM-DD HH:MM:SS`; it is absent when it does not read as one.
///
/// Example: `$PSVST,2020-10-02 16:04:53*58`.
#[derive(Debug, Clone)]
pub struct Svst {
    pub talker_id: String,
    pub message_id: String,
    pub timestamp: Option<Timestamp>,
}

impl Svst {
    /// Why the fields of `n` do not decode, if they do not: there are none.
    pub open spec fn decode_error(n: NmeaView) -> Option<ParseErrorModel> {
        if n.fields.len() < 1 {
            Some(ParseErrorModel::MissingFields(1))
        } else {
            None
        }
    }

    /// Whether `m` is the record that the fields of `n` decode to.
    pub open spec fn decoded(n: NmeaView, m: Svst) -> bool {
        &&& m.talker_id@ == n.talker_id
        &&& m.message_id@ == n.message_id
        &&& m.timestamp == naive_datetime_of(n.fields[0], timestamp_pattern())
    }

    /// Decodes the fields of an `SVST` sentence.
    pub fn try_from(nmea: Nmea) -> (r: Result<Svst, ParseNMEA0183Error>)
        ensures
            match r {
                Ok(m) => Self::decode_error(nmea@) is None && Self::decoded(nmea@, m),
                Err(e) => Self::decode_error(nmea@) == Some(e@),
            },
    {
        if nmea.fields.len() < 1 {
            return Err(ParseNMEA0183Error::MissingFields(1));
        }
        let timestamp = parse_datetime(nmea.fields[0].as_str(), "%Y-%m-%d %H:%M:%S");
        Ok(Svst { talker_id: nmea.talker_id, message_id: nmea.message_id, timestamp })
    }
}

} // verus!
