//! `HDM`: magnetic heading.
use vstd::prelude::*;
use crate::numeric::{decimal_of, parse_decimal, Decimal};
use crate::sentences::error::{ParseErrorModel, ParseNMEA0183Error};
use crate::text::single_char;
use crate::{Nmea, NmeaView};

verus! {

/// A heading and what it is measured against.
///
/// Fields: 0 heading in degrees, absent when it is not a number; 1 reference (`M` magnetic,
/// `T` true), which must be known.
#[derive(Debug, Clone)]
pub struct Hdm {
    pub talker_id: String,
    pub message_id: String,
    pub heading: Option<Decimal>,
    pub heading_type: Option<HeadingType>,
}

/// What a heading is measured against.
#[derive(Debug, Clone, Copy, PartialEq, Eq, Structural)]
pub enum HeadingType {
    Magentic,
    True,
}

/// The heading reference that a code names: `M` magnetic, `T` true.
pub open spec fn heading_type_of(s: Seq<char>) -> Option<HeadingType> {
    if s == seq!['M'] {
        Some(HeadingType::Magentic)
    } else if s == seq!['T'] {
        Some(HeadingType::True)
    } else {
        None
    }
}

/// Why the fields of `n` do not decode as a heading, if they do not.
pub open spec fn heading_error(n: NmeaView) -> Option<ParseErrorModel> {
    let f = n.fields;
    if f.len() < 2 {
        Some(ParseErrorModel::MissingFields(2))
    } else if heading_type_of(f[1]) is None {
        Some(ParseErrorModel::UnrecognizedCode(f[1]))
    } else {
        None
    }
}

impl HeadingType {
    /// Reads a heading reference code, which must be known.
    pub fn try_from(heading_type: &str) -> (r: Result<Self, ParseNMEA0183Error>)
        ensures
            match heading_type_of(heading_type@) {
                Some(v) => r == Ok::<Self, ParseNMEA0183Error>(v),
                None => r matches Err(e) && e@ == ParseErrorModel::UnrecognizedCode(
                    heading_type@,
                ),
            },
    {
        match single_char(heading_type) {
            Some('M') => {
                assert(heading_type@ =~= seq!['M']);
                Ok(HeadingType::Magentic)
            },
            Some('T') => {
                assert(heading_type@ =~= seq!['T']);
                Ok(HeadingType::True)
            },
            _ => Err(ParseNMEA0183Error::unrecognized(heading_type)),
        }
    }
}

impl Hdm {
    /// Why the fields of `n` do not decode as a heading, if they do not.
    pub open spec fn decode_error(n: NmeaView) -> Option<ParseErrorModel> {
        heading_error(n)
    }

    /// Whether `m` is the record that the fields of `n` decode to.
    pub open spec fn decoded(n: NmeaView, m: Hdm) -> bool {
        &&& m.talker_id@ == n.talker_id
        &&& m.message_id@ == n.message_id
        &&& m.heading == decimal_of(n.fields[0])
        &&& m.heading_type == heading_type_of(n.fields[1])
    }

    /// Decodes the fields of an `HDM` sentence.
    pub fn try_from(nmea: Nmea) -> (r: Result<Hdm, ParseNMEA0183Error>)
        ensures
            match r {
                Ok(m) => Self::decode_error(nmea@) is None && Self::decoded(nmea@, m),
                Err(e) => Self::decode_error(nmea@) == Some(e@),
            },
    {
        if nmea.fields.len() < 2 {
            return Err(ParseNMEA0183Error::MissingFields(2));
        }
        let heading_type = HeadingType::try_from(nmea.fields[1].as_str())?;
        Ok(Hdm {
            heading: parse_decimal(nmea.fields[0].as_str()),
            heading_type: Some(heading_type),
            talker_id: nmea.talker_id,
            message_id: nmea.message_id,
        })
    }
}

} // verus!
