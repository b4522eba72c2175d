//! `SVSV`: displacement of the buoy.
use vstd::prelude::*;
use crate::sentences::error::{ParseErrorModel, ParseNMEA0183Error};
use crate::sentences::{parse_quantity, quantity_of, Quantity, QuantityUnit};
use crate::{Nmea, NmeaView};

verus! {

/// One sample of the displacement (heave) time series.
///
/// Fields: 0 time (s), 1 north, 2 east, 3 up (m). Each is absent when it is not a number.
///
/// Example: `$PSVSV,0.000,0.024,0.037,-0.663*7C`.
#[derive(Debug, Clone)]
pub struct Svsv {
    pub talker_id: String,
    pub message_id: String,
    pub time: Option<Quantity>,
    pub north: Option<Quantity>,
    pub east: Option<Quantity>,
    pub up: Option<Quantity>,
}

impl Svsv {
    /// Why the fields of `n` do not decode, if they do not: there are too few of them.
    pub open spec fn decode_error(n: NmeaView) -> Option<ParseErrorModel> {
        if n.fields.len() < 4 {
            Some(ParseErrorModel::MissingFields(4))
        } else {
            None
        }
    }

    /// Whether `m` is the record that the fields of `n` decode to.
    pub open spec fn decoded(n: NmeaView, m: Svsv) -> bool {
        let f = n.fields;
        &&& m.talker_id@ == n.talker_id
        &&& m.message_id@ == n.message_id
        &&& m.time == quantity_of(f[0], QuantityUnit::Seconds)
        &&& m.north == quantity_of(f[1], QuantityUnit::Metres)
        &&& m.east == quantity_of(f[2], QuantityUnit::Metres)
        &&& m.up == quantity_of(f[3], QuantityUnit::Metres)
    }

    /// Decodes the fields of an `SVSV` sentence; it needs four.
    pub fn try_from(nmea: Nmea) -> (r: Result<Svsv, ParseNMEA0183Error>)
        ensures
            match r {
                Ok(m) => Self::decode_error(nmea@) is None && Self::decoded(nmea@, m),
                Err(e) => Self::decode_error(nmea@) == Some(e@),
            },
    {
        if nmea.fields.len() < 4 {
            return Err(ParseNMEA0183Error::MissingFields(4));
        }
        Ok(Svsv {
            time: parse_quantity(nmea.fields[0].as_str(), QuantityUnit::Seconds),
            north: parse_quantity(nmea.fields[1].as_str(), QuantityUnit::Metres),
            east: parse_quantity(nmea.fields[2].as_str(), QuantityUnit::Metres),
            up: parse_quantity(nmea.fields[3].as_str(), QuantityUnit::Metres),
            talker_id: nmea.talker_id,
            message_id: nmea.message_id,
        })
    }
}

} // verus!
