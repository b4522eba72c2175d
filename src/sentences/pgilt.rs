//! `GILT` (proprietary): tilt of a sensor.
use vstd::prelude::*;
use crate::numeric::{decimal_of, i32_of, parse_decimal, parse_i32};
use crate::sentences::error::{ParseErrorModel, ParseNMEA0183Error};
use crate::sentences::{measurement_unit_of, Reading, TransducerReading, UnitsOfMeasurement};
use crate::{Nmea, NmeaView};

verus! {

/// The tilt of a sensor about two axes, and which way up it faces.
///
/// Fields: 0 status (not read), 1 x tilt, 2 its unit, 3 y tilt, 4 its unit, 5 orientation
/// (`+1` upright, `-1` downwards), 6 sensor name. A tilt is absent when it is not a number;
/// the units and the orientation must be known codes (an orientation that is not a number
/// is an unknown code).
#[derive(Debug, Clone)]
pub struct Gilt {
    pub talker_id: String,
    pub message_id: String,
    pub x_tilt: Option<TransducerReading>,
    pub y_tilt: Option<TransducerReading>,
    pub z_orientation: Option<ZOrientation>,
    pub sensor_name: Option<String>,
}

/// Which way up a sensor faces.
#[derive(Debug, Clone, Copy, PartialEq, Eq, Structural)]
pub enum ZOrientation {
    FacingUpright,
    FacingDownwards,
}

/// The orientation that a number names: `1` upright, `-1` downwards.
pub open spec fn z_orientation_of(v: i32) -> Option<ZOrientation> {
    if v == 1 {
        Some(ZOrientation::FacingUpright)
    } else if v == -1 {
        Some(ZOrientation::FacingDownwards)
    } else {
        None
    }
}

impl ZOrientation {
    /// The orientation that `v` names, if any.
    pub fn from_value(v: i32) -> (r: Option<Self>)
        ensures
            r == z_orientation_of(v),
    {
        if v == 1 {
            Some(ZOrientation::FacingUpright)
        } else if v == -1 {
            Some(ZOrientation::FacingDownwards)
        } else {
            None
        }
    }
}

/// Whether `t` is an angular reading of `value` in `units`, without a name.
pub open spec fn is_tilt(
    t: Option<TransducerReading>,
    value: Seq<char>,
    units: Seq<char>,
) -> bool {
    t matches Some(r) && r is AngularDisplacement && r.measurement().holds(
        decimal_of(value),
        measurement_unit_of(units),
        None,
    )
}

impl Gilt {
    /// Why the fields of `n` do not decode as a tilt, if they do not.
    pub open spec fn decode_error(n: NmeaView) -> Option<ParseErrorModel> {
        let f = n.fields;
        if f.len() < 7 {
            Some(ParseErrorModel::MissingFields(7))
        } else if measurement_unit_of(f[2]) is None {
            Some(ParseErrorModel::UnrecognizedCode(f[2]))
        } else if measurement_unit_of(f[4]) is None {
            Some(ParseErrorModel::UnrecognizedCode(f[4]))
        } else if i32_of(f[5]) is None || z_orientation_of(i32_of(f[5])->0) is None {
            Some(ParseErrorModel::UnrecognizedCode(f[5]))
        } else {
            None
        }
    }

    /// Whether `m` is the record that the fields of `n` decode to.
    pub open spec fn decoded(n: NmeaView, m: Gilt) -> bool {
        let f = n.fields;
        &&& m.talker_id@ == n.talker_id
        &&& m.message_id@ == n.message_id
        &&& is_tilt(m.x_tilt, f[1], f[2])
        &&& is_tilt(m.y_tilt, f[3], f[4])
        &&& m.z_orientation == z_orientation_of(i32_of(f[5])->0)
        &&& m.sensor_name matches Some(s) && s@ == f[6]
    }

    /// Decodes the fields of a `GILT` sentence.
    pub fn try_from(nmea: Nmea) -> (r: Result<Gilt, ParseNMEA0183Error>)
        ensures
            match r {
                Ok(m) => Self::decode_error(nmea@) is None && Self::decoded(nmea@, m),
                Err(e) => Self::decode_error(nmea@) == Some(e@),
            },
    {
        if nmea.fields.len() < 7 {
            return Err(ParseNMEA0183Error::MissingFields(7));
        }
        let x_units = UnitsOfMeasurement::require(nmea.fields[2].as_str())?;
        let y_units = UnitsOfMeasurement::require(nmea.fields[4].as_str())?;
        let z = match parse_i32(nmea.fields[5].as_str()) {
            Some(v) => v,
            None => return Err(ParseNMEA0183Error::unrecognized(nmea.fields[5].as_str())),
        };
        let z_orientation = match ZOrientation::from_value(z) {
            Some(o) => o,
            None => return Err(ParseNMEA0183Error::unrecognized(nmea.fields[5].as_str())),
        };
        let x_tilt = TransducerReading::AngularDisplacement(
            Reading { reading: parse_decimal(nmea.fields[1].as_str()), units: Some(x_units), name: None },
        );
        let y_tilt = TransducerReading::AngularDisplacement(
            Reading { reading: parse_decimal(nmea.fields[3].as_str()), units: Some(y_units), name: None },
        );
        let sensor_name = nmea.fields[6].clone();
        Ok(Gilt {
            talker_id: nmea.talker_id,
            message_id: nmea.message_id,
            x_tilt: Some(x_tilt),
            y_tilt: Some(y_tilt),
            z_orientation: Some(z_orientation),
            sensor_name: Some(sensor_name),
        })
    }
}

} // verus!
