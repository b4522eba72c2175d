//! `MWV`: wind speed and angle.
use vstd::prelude::*;
use crate::numeric::{decimal_of, i32_of, parse_decimal, parse_i32, Decimal};
use crate::sentences::error::{ParseErrorModel, ParseNMEA0183Error};
use crate::sentences::{speed_unit_of, UnitsOfSpeed};
use crate::text::single_char;
use crate::{Nmea, NmeaView};

verus! {

/// Wind speed and angle, as a wind instrument reports them.
///
/// Fields: 0 wind angle in degrees, 1 reference (`R` relative, `T` true), 2 wind speed,
/// 3 speed unit (`K`, `M`, `N`, `S`), 4 status (`A` acceptable, `V` void). The angle and the
/// speed must be numbers; the codes must be known. On success every field is present.
///
/// Example: `$WIMWV,049,R,000.03,N,A*03`.
#[derive(Debug, Clone)]
pub struct Mwv {
    pub talker_id: String,
    pub message_id: String,
    pub wind_direction_deg: Option<i32>,
    pub wind_dir_type: Option<WindDirectionType>,
    pub wind_speed: Option<Decimal>,
    pub wind_speed_units: Option<UnitsOfSpeed>,
    pub acceptable: Option<AcceptableMeasurement>,
}

/// What a wind angle is measured against.
#[derive(Debug, Clone, Copy, PartialEq, Eq, Structural)]
pub enum WindDirectionType {
    Relative,
    True,
}

/// Whether a measurement may be used.
#[derive(Debug, Clone, Copy, PartialEq, Eq, Structural)]
pub enum AcceptableMeasurement {
    Acceptable,
    Void,
}

/// The wind reference that a code names: `R` relative, `T` true.
pub open spec fn wind_reference_of(s: Seq<char>) -> Option<WindDirectionType> {
    if s == seq!['R'] {
        Some(WindDirectionType::Relative)
    } else if s == seq!['T'] {
        Some(WindDirectionType::True)
    } else {
        None
    }
}

/// The status that a code names: `A` acceptable, `V` void.
pub open spec fn acceptable_of(s: Seq<char>) -> Option<AcceptableMeasurement> {
    if s == seq!['A'] {
        Some(AcceptableMeasurement::Acceptable)
    } else if s == seq!['V'] {
        Some(AcceptableMeasurement::Void)
    } else {
        None
    }
}

impl WindDirectionType {
    /// Reads a wind reference code, which must be known.
    pub fn from_code(c: &str) -> (r: Result<Self, ParseNMEA0183Error>)
        ensures
            match wind_reference_of(c@) {
                Some(v) => r == Ok::<Self, ParseNMEA0183Error>(v),
                None => r matches Err(e) && e@ == ParseErrorModel::UnrecognizedCode(c@),
            },
    {
        match single_char(c) {
            Some('R') => {
                assert(c@ =~= seq!['R']);
                Ok(WindDirectionType::Relative)
            },
            Some('T') => {
                assert(c@ =~= seq!['T']);
                Ok(WindDirectionType::True)
            },
            _ => Err(ParseNMEA0183Error::unrecognized(c)),
        }
    }
}

impl AcceptableMeasurement {
    /// Reads a status code, which must be known.
    pub fn from_code(c: &str) -> (r: Result<Self, ParseNMEA0183Error>)
        ensures
            match acceptable_of(c@) {
                Some(v) => r == Ok::<Self, ParseNMEA0183Error>(v),
                None => r matches Err(e) && e@ == ParseErrorModel::UnrecognizedCode(c@),
            },
    {
        match single_char(c) {
            Some('A') => {
                assert(c@ =~= seq!['A']);
                Ok(AcceptableMeasurement::Acceptable)
            },
            Some('V') => {
                assert(c@ =~= seq!['V']);
                Ok(AcceptableMeasurement::Void)
            },
            _ => Err(ParseNMEA0183Error::unrecognized(c)),
        }
    }
}

impl Mwv {
    /// Why the fields of `n` do not decode as wind speed and angle, if they do not.
    pub open spec fn decode_error(n: NmeaView) -> Option<ParseErrorModel> {
        let f = n.fields;
        if f.len() < 5 {
            Some(ParseErrorModel::MissingFields(5))
        } else if i32_of(f[0]) is None {
            Some(ParseErrorModel::NumericFormatError)
        } else if wind_reference_of(f[1]) is None {
            Some(ParseErrorModel::UnrecognizedCode(f[1]))
        } else if decimal_of(f[2]) is None {
            Some(ParseErrorModel::NumericFormatError)
        } else if speed_unit_of(f[3]) is None {
            Some(ParseErrorModel::UnrecognizedCode(f[3]))
        } else if acceptable_of(f[4]) is None {
            Some(ParseErrorModel::UnrecognizedCode(f[4]))
        } else {
            None
        }
    }

    /// Whether `m` is the record that the fields of `n` decode to.
    pub open spec fn decoded(n: NmeaView, m: Mwv) -> bool {
        let f = n.fields;
        &&& m.talker_id@ == n.talker_id
        &&& m.message_id@ == n.message_id
        &&& m.wind_direction_deg == i32_of(f[0])
        &&& m.wind_dir_type == wind_reference_of(f[1])
        &&& m.wind_speed == decimal_of(f[2])
        &&& m.wind_speed_units == speed_unit_of(f[3])
        &&& m.acceptable == acceptable_of(f[4])
    }

    /// Decodes the fields of an `MWV` sentence.
    pub fn try_from(nmea: Nmea) -> (r: Result<Mwv, ParseNMEA0183Error>)
        ensures
            match r {
                Ok(m) => Self::decode_error(nmea@) is None && Self::decoded(nmea@, m),
                Err(e) => Self::decode_error(nmea@) == Some(e@),
            },
    {
        if nmea.fields.len() < 5 {
            return Err(ParseNMEA0183Error::MissingFields(5));
        }
        let direction = match parse_i32(nmea.fields[0].as_str()) {
            Some(v) => v,
            None => return Err(ParseNMEA0183Error::NumericFormatError),
        };
        let reference = WindDirectionType::from_code(nmea.fields[1].as_str())?;
        let speed = match parse_decimal(nmea.fields[2].as_str()) {
            Some(v) => v,
            None => return Err(ParseNMEA0183Error::NumericFormatError),
        };
        let units = match UnitsOfSpeed::from_char(nmea.fields[3].as_str()) {
            Some(u) => u,
            None => return Err(ParseNMEA0183Error::unrecognized(nmea.fields[3].as_str())),
        };
        let status = AcceptableMeasurement::from_code(nmea.fields[4].as_str())?;
        Ok(Mwv {
            talker_id: nmea.talker_id,
            message_id: nmea.message_id,
            wind_direction_deg: Some(direction),
            wind_dir_type: Some(reference),
            wind_speed: Some(speed),
            wind_speed_units: Some(units),
            acceptable: Some(status),
        })
    }
}

} // verus!
