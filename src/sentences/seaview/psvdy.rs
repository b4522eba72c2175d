//! `SVDY`: motion of the buoy.
use vstd::prelude::*;
use crate::numeric::{parse_u32, u32_of};
use crate::sentences::error::{ParseErrorModel, ParseNMEA0183Error};
use crate::sentences::{parse_quantity, quantity_of, Quantity, QuantityUnit};
use crate::{Nmea, NmeaView};

verus! {

/// Instantaneous motion data at the device's sample rate.
///
/// Fields: 0 to 2 acceleration along x, y, z in the sensor frame (m/s²); 3 to 5 angular rates
/// about x, y, z (deg/s); 6 to 8 heading, pitch and roll (degrees); 9 to 11 acceleration
/// towards north, east and up (m/s²); 12 sample index. Each is absent when it is not a number.
#[derive(Debug, Clone)]
pub struct Svdy {
    pub talker_id: String,
    pub message_id: String,
    pub acc_x: Option<Quantity>,
    pub acc_y: Option<Quantity>,
    pub acc_z: Option<Quantity>,
    pub gyr_p: Option<Quantity>,
    pub gyr_q: Option<Quantity>,
    pub gyr_r: Option<Quantity>,
    pub heading: Option<Quantity>,
    pub pitch: Option<Quantity>,
    pub roll: Option<Quantity>,
    pub acc_n: Option<Quantity>,
    pub acc_e: Option<Quantity>,
    pub acc_u: Option<Quantity>,
    /// Monotonic sample index, for detecting gaps.
    pub index: Option<u32>,
}

impl Svdy {
    /// Why the fields of `n` do not decode, if they do not: there are too few of them.
    pub open spec fn decode_error(n: NmeaView) -> Option<ParseErrorModel> {
        if n.fields.len() < 13 {
            Some(ParseErrorModel::MissingFields(13))
        } else {
            None
        }
    }

    /// Whether `m` is the record that the fields of `n` decode to.
    pub open spec fn decoded(n: NmeaView, m: Svdy) -> bool {
        let f = n.fields;
        let acc = QuantityUnit::MetresPerSecondSquared;
        let rate = QuantityUnit::DegreesPerSecond;
        let angle = QuantityUnit::Degrees;
        &&& m.talker_id@ == n.talker_id
        &&& m.message_id@ == n.message_id
        &&& m.acc_x == quantity_of(f[0], acc)
        &&& m.acc_y == quantity_of(f[1], acc)
        &&& m.acc_z == quantity_of(f[2], acc)
        &&& m.gyr_p == quantity_of(f[3], rate)
        &&& m.gyr_q == quantity_of(f[4], rate)
        &&& m.gyr_r == quantity_of(f[5], rate)
        &&& m.heading == quantity_of(f[6], angle)
        &&& m.pitch == quantity_of(f[7], angle)
        &&& m.roll == quantity_of(f[8], angle)
        &&& m.acc_n == quantity_of(f[9], acc)
        &&& m.acc_e == quantity_of(f[10], acc)
        &&& m.acc_u == quantity_of(f[11], acc)
        &&& m.index == u32_of(f[12])
    }

    /// Decodes the fields of an `SVDY` sentence; it needs thirteen.
    pub fn try_from(nmea: Nmea) -> (r: Result<Svdy, ParseNMEA0183Error>)
        ensures
            match r {
                Ok(m) => Self::decode_error(nmea@) is None && Self::decoded(nmea@, m),
                Err(e) => Self::decode_error(nmea@) == Some(e@),
            },
    {
        if nmea.fields.len() < 13 {
            return Err(ParseNMEA0183Error::MissingFields(13));
        }
        let acc = QuantityUnit::MetresPerSecondSquared;
        let rate = QuantityUnit::DegreesPerSecond;
        let angle = QuantityUnit::Degrees;
        Ok(Svdy {
            acc_x: parse_quantity(nmea.fields[0].as_str(), acc),
            acc_y: parse_quantity(nmea.fields[1].as_str(), acc),
            acc_z: parse_quantity(nmea.fields[2].as_str(), acc),
            gyr_p: parse_quantity(nmea.fields[3].as_str(), rate),
            gyr_q: parse_quantity(nmea.fields[4].as_str(), rate),
            gyr_r: parse_quantity(nmea.fields[5].as_str(), rate),
            heading: parse_quantity(nmea.fields[6].as_str(), angle),
            pitch: parse_quantity(nmea.fields[7].as_str(), angle),
            roll: parse_quantity(nmea.fields[8].as_str(), angle),
            acc_n: parse_quantity(nmea.fields[9].as_str(), acc),
            acc_e: parse_quantity(nmea.fields[10].as_str(), acc),
            acc_u: parse_quantity(nmea.fields[11].as_str(), acc),
            index: parse_u32(nmea.fields[12].as_str()),
            talker_id: nmea.talker_id,
            message_id: nmea.message_id,
        })
    }
}

} // verus!
