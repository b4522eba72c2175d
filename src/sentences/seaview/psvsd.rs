//! `SVSD`: directional wave energy spectrum for one period.
use vstd::prelude::*;
use crate::numeric::{decimal_of, Decimal};
use crate::sentences::error::{ParseErrorModel, ParseNMEA0183Error};
use crate::sentences::{all_decimals, require_decimal, require_decimals};
use crate::{Nmea, NmeaView};

verus! {

/// The directional wave energy spectrum for one period.
///
/// Fields: 0 period, then the energy for each of the device's angles. Every field must be a
/// number: a partly garbled spectrum is refused whole.
#[derive(Debug, Clone)]
pub struct Svsd {
    pub talker_id: String,
    pub message_id: String,
    /// The period of this spectrum.
    pub period: Decimal,
    /// The energy (ESmag) for each angle, in order.
    pub esmag: Vec<Decimal>,
}

impl Svsd {
    /// Why the fields of `n` do not decode as a spectrum, if they do not.
    pub open spec fn decode_error(n: NmeaView) -> Option<ParseErrorModel> {
        let f = n.fields;
        if f.len() < 2 {
            Some(ParseErrorModel::MissingFields(2))
        } else if !all_decimals(f, 0, f.len() as int) {
            Some(ParseErrorModel::NumericFormatError)
        } else {
            None
        }
    }

    /// Whether `m` is the record that the fields of `n` decode to.
    pub open spec fn decoded(n: NmeaView, m: Svsd) -> bool {
        let f = n.fields;
        &&& m.talker_id@ == n.talker_id
        &&& m.message_id@ == n.message_id
        &&& Some(m.period) == decimal_of(f[0])
        &&& m.esmag@.len() == f.len() - 1
        &&& forall|i: int| 0 <= i < m.esmag@.len() ==> Some(#[trigger] m.esmag@[i]) == decimal_of(f[i + 1])
    }

    /// Decodes the fields of an `SVSD` sentence.
    pub fn try_from(nmea: Nmea) -> (r: Result<Svsd, ParseNMEA0183Error>)
        ensures
            match r {
                Ok(m) => Self::decode_error(nmea@) is None && Self::decoded(nmea@, m),
                Err(e) => Self::decode_error(nmea@) == Some(e@),
            },
    {
        let n = nmea.fields.len();
        if n < 2 {
            return Err(ParseNMEA0183Error::MissingFields(2));
        }
        let period = require_decimal(nmea.fields[0].as_str());
        let esmag = require_decimals(&nmea.fields, 1, n);
        match (period, esmag) {
            (Ok(period), Ok(esmag)) => {
                assert(all_decimals(nmea@.fields, 0, n as int)) by {
                    assert(decimal_of(nmea@.fields[0]) is Some);
                }
                Ok(Svsd { talker_id: nmea.talker_id, message_id: nmea.message_id, period, esmag })
            },
            _ => Err(ParseNMEA0183Error::NumericFormatError),
        }
    }
}

} // verus!
