//! `GGA`: position fix data.
use vstd::prelude::*;
use crate::numeric::{decimal_of, parse_decimal, parse_u32, parse_u8, u32_of, u8_of, Decimal};
use crate::sentences::error::{ParseErrorModel, ParseNMEA0183Error};
use crate::sentences::require_decimal;
use crate::{Nmea, NmeaView};

verus! {

/// Position fix data.
///
/// Fields: 0 time of fix (`hhmmss.sss`), 1 latitude (`ddmm.mmmm`), 2 `N`/`S`, 3 longitude
/// (`dddmm.mmmm`), 4 `E`/`W`, 5 fix quality (`0` to `6`), 6 satellites in use, 7 horizontal
/// dilution of precision, 8 altitude above mean sea level, 9 its unit, 10 geoid separation,
/// 11 its unit, 12 age of differential corrections, 13 differential reference station.
///
/// Latitude and longitude are required and must be numbers. The fix quality must be one of
/// the known codes `0` to `6`; any other text, empty or not a number, is an unknown code. The other numeric fields are absent when they are not numbers.
#[derive(Debug, Clone)]
pub struct Gga {
    pub talker_id: String,
    pub message_id: String,
    pub fix_time: Option<Decimal>,
    pub latitude: Option<Decimal>,
    pub longitude: Option<Decimal>,
    pub fix_quality: Option<FixQuality>,
    pub num_satellites: Option<u32>,
    pub hdop: Option<Decimal>,
    pub altitude_msl: Option<Decimal>,
    pub geoid_separation: Option<Decimal>,
    pub differential_age: Option<Decimal>,
    pub differential_gps_reference_station_id: Option<u32>,
}

/// The quality of a position fix.
#[derive(Debug, Clone, Copy, PartialEq, Eq, Structural)]
pub enum FixQuality {
    FixNotValid,
    GpsFix,
    DifferentialGpsFix,
    NotApplicable,
    RtkFixed,
    RtkFloat,
    InsDeadReckoning,
}

/// The fix quality that a number names.
pub open spec fn fix_quality_of(v: u8) -> Option<FixQuality> {
    if v == 0 {
        Some(FixQuality::FixNotValid)
    } else if v == 1 {
        Some(FixQuality::GpsFix)
    } else if v == 2 {
        Some(FixQuality::DifferentialGpsFix)
    } else if v == 3 {
        Some(FixQuality::NotApplicable)
    } else if v == 4 {
        Some(FixQuality::RtkFixed)
    } else if v == 5 {
        Some(FixQuality::RtkFloat)
    } else if v == 6 {
        Some(FixQuality::InsDeadReckoning)
    } else {
        None
    }
}

impl FixQuality {
    /// The fix quality that `v` names, if any.
    pub fn from_number(v: u8) -> (r: Option<Self>)
        ensures
            r == fix_quality_of(v),
    {
        match v {
            0 => Some(FixQuality::FixNotValid),
            1 => Some(FixQuality::GpsFix),
            2 => Some(FixQuality::DifferentialGpsFix),
            3 => Some(FixQuality::NotApplicable),
            4 => Some(FixQuality::RtkFixed),
            5 => Some(FixQuality::RtkFloat),
            6 => Some(FixQuality::InsDeadReckoning),
            _ => None,
        }
    }
}

impl Gga {
    /// Why the fields of `n` do not decode as fix data, if they do not.
    pub open spec fn decode_error(n: NmeaView) -> Option<ParseErrorModel> {
        let f = n.fields;
        if f.len() < 14 {
            Some(ParseErrorModel::MissingFields(14))
        } else if decimal_of(f[1]) is None || decimal_of(f[3]) is None {
            Some(ParseErrorModel::NumericFormatError)
        } else if u8_of(f[5]) is None || fix_quality_of(u8_of(f[5])->0) is None {
            Some(ParseErrorModel::UnrecognizedCode(f[5]))
        } else {
            None
        }
    }

    /// Whether `m` is the record that the fields of `n` decode to.
    pub open spec fn decoded(n: NmeaView, m: Gga) -> bool {
        let f = n.fields;
        &&& m.talker_id@ == n.talker_id
        &&& m.message_id@ == n.message_id
        &&& m.fix_time == decimal_of(f[0])
        &&& m.latitude == decimal_of(f[1])
        &&& m.longitude == decimal_of(f[3])
        &&& m.fix_quality == fix_quality_of(u8_of(f[5])->0)
        &&& m.num_satellites == u32_of(f[6])
        &&& m.hdop == decimal_of(f[7])
        &&& m.altitude_msl == decimal_of(f[8])
        &&& m.geoid_separation == decimal_of(f[10])
        &&& m.differential_age == decimal_of(f[12])
        &&& m.differential_gps_reference_station_id == u32_of(f[13])
    }

    /// Decodes the fields of a `GGA` sentence.
    pub fn try_from(nmea: Nmea) -> (r: Result<Gga, ParseNMEA0183Error>)
        ensures
            match r {
                Ok(m) => Self::decode_error(nmea@) is None && Self::decoded(nmea@, m),
                Err(e) => Self::decode_error(nmea@) == Some(e@),
            },
    {
        if nmea.fields.len() < 14 {
            return Err(ParseNMEA0183Error::MissingFields(14));
        }
        let latitude = require_decimal(nmea.fields[1].as_str())?;
        let longitude = require_decimal(nmea.fields[3].as_str())?;
        let quality = match parse_u8(nmea.fields[5].as_str()) {
            Some(v) => v,
            None => return Err(ParseNMEA0183Error::unrecognized(nmea.fields[5].as_str())),
        };
        let fix_quality = match FixQuality::from_number(quality) {
            Some(q) => q,
            None => return Err(ParseNMEA0183Error::unrecognized(nmea.fields[5].as_str())),
        };
        Ok(Gga {
            fix_time: parse_decimal(nmea.fields[0].as_str()),
            latitude: Some(latitude),
            longitude: Some(longitude),
            fix_quality: Some(fix_quality),
            num_satellites: parse_u32(nmea.fields[6].as_str()),
            hdop: parse_decimal(nmea.fields[7].as_str()),
            altitude_msl: parse_decimal(nmea.fields[8].as_str()),
            geoid_separation: parse_decimal(nmea.fields[10].as_str()),
            differential_age: parse_decimal(nmea.fields[12].as_str()),
            differential_gps_reference_station_id: parse_u32(nmea.fields[13].as_str()),
            talker_id: nmea.talker_id,
            message_id: nmea.message_id,
        })
    }
}

} // verus!
