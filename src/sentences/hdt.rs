//! `HDT`: true heading.
use vstd::prelude::*;
use crate::numeric::{decimal_of, parse_decimal, Decimal};
use crate::sentences::error::{ParseErrorModel, ParseNMEA0183Error};
use crate::sentences::hdm::{heading_error, heading_type_of, HeadingType};
use crate::{Nmea, NmeaView};

verus! {

/// A true heading; its fields are those of [`crate::sentences::hdm::Hdm`].
#[derive(Debug, Clone)]
pub struct Hdt {
    pub talker_id: String,
    pub message_id: String,
    pub heading: Option<Decimal>,
    pub heading_type: Option<HeadingType>,
}

impl Hdt {
    /// Why the fields of `n` do not decode as a heading, if they do not.
    pub open spec fn decode_error(n: NmeaView) -> Option<ParseErrorModel> {
        heading_error(n)
    }

    /// Whether `m` is the record that the fields of `n` decode to.
    pub open spec fn decoded(n: NmeaView, m: Hdt) -> bool {
        &&& m.talker_id@ == n.talker_id
        &&& m.message_id@ == n.message_id
        &&& m.heading == decimal_of(n.fields[0])
        &&& m.heading_type == heading_type_of(n.fields[1])
    }

    /// Decodes the fields of an `HDT` sentence.
    pub fn try_from(nmea: Nmea) -> (r: Result<Hdt, ParseNMEA0183Error>)
        ensures
            match r {
                Ok(m) => Self::decode_error(nmea@) is None && Self::decoded(nmea@, m),
                Err(e) => Self::decode_error(nmea@) == Some(e@),
            },
    {
        if nmea.fields.len() < 2 {
            return Err(ParseNMEA0183Error::MissingFields(2));
        }
        let heading_type = HeadingType::try_from(nmea.fields[1].as_str())?;
        Ok(Hdt {
            heading: parse_decimal(nmea.fields[0].as_str()),
            heading_type: Some(heading_type),
            talker_id: nmea.talker_id,
            message_id: nmea.message_id,
        })
    }
}

} // verus!
