//! `ILT`: wind angle and speed, without a speed unit.
use vstd::prelude::*;
use crate::numeric::{decimal_of, i32_of, parse_decimal, parse_i32, Decimal};
use crate::sentences::error::{ParseErrorModel, ParseNMEA0183Error};
use crate::{Nmea, NmeaView};
pub use crate::sentences::mwv::{AcceptableMeasurement, WindDirectionType};
use crate::sentences::mwv::{acceptable_of, wind_reference_of};

verus! {

/// Wind angle and speed in knots.
///
/// Fields: 0 wind angle in degrees, 1 reference (`R`/`T`), 2 speed in knots, 3 unit (not
/// read), 4 status (`A`/`V`). The angle and the speed must be numbers; the codes known.
#[derive(Debug, Clone)]
pub struct Ilt {
    pub talker_id: String,
    pub message_id: String,
    pub wind_direction_deg: Option<i32>,
    pub wind_dir_type: Option<WindDirectionType>,
    pub wind_speed_knots: Option<Decimal>,
    pub acceptable: Option<AcceptableMeasurement>,
}

impl Ilt {
    /// Why the fields of `n` do not decode, if they do not.
    pub open spec fn decode_error(n: NmeaView) -> Option<ParseErrorModel> {
        let f = n.fields;
        if f.len() < 5 {
            Some(ParseErrorModel::MissingFields(5))
        } else if i32_of(f[0]) is None {
            Some(ParseErrorModel::NumericFormatError)
        } else if wind_reference_of(f[1]) is None {
            Some(ParseErrorModel::UnrecognizedCode(f[1]))
        } else if decimal_of(f[2]) is None {
            Some(ParseErrorModel::NumericFormatError)
        } else if acceptable_of(f[4]) is None {
            Some(ParseErrorModel::UnrecognizedCode(f[4]))
        } else {
            None
        }
    }

    /// Whether `m` is the record that the fields of `n` decode to.
    pub open spec fn decoded(n: NmeaView, m: Ilt) -> bool {
        let f = n.fields;
        &&& m.talker_id@ == n.talker_id
        &&& m.message_id@ == n.message_id
        &&& m.wind_direction_deg == i32_of(f[0])
        &&& m.wind_dir_type == wind_reference_of(f[1])
        &&& m.wind_speed_knots == decimal_of(f[2])
        &&& m.acceptable == acceptable_of(f[4])
    }

    /// Decodes the fields of an `ILT` sentence.
    pub fn try_from(nmea: Nmea) -> (r: Result<Ilt, ParseNMEA0183Error>)
        ensures
            match r {
                Ok(m) => Self::decode_error(nmea@) is None && Self::decoded(nmea@, m),
                Err(e) => Self::decode_error(nmea@) == Some(e@),
            },
    {
        if nmea.fields.len() < 5 {
            return Err(ParseNMEA0183Error::MissingFields(5));
        }
        let direction = match parse_i32(nmea.fields[0].as_str()) {
            Some(v) => v,
            None => return Err(ParseNMEA0183Error::NumericFormatError),
        };
        let reference = WindDirectionType::from_code(nmea.fields[1].as_str())?;
        let speed = match parse_decimal(nmea.fields[2].as_str()) {
            Some(v) => v,
            None => return Err(ParseNMEA0183Error::NumericFormatError),
        };
        let status = AcceptableMeasurement::from_code(nmea.fields[4].as_str())?;
        Ok(Ilt {
            talker_id: nmea.talker_id,
            message_id: nmea.message_id,
            wind_direction_deg: Some(direction),
            wind_dir_type: Some(reference),
            wind_speed_knots: Some(speed),
            acceptable: Some(status),
        })
    }
}

} // verus!
