//! `SVSI`: identity of the device.
use vstd::prelude::*;
use crate::sentences::error::{ParseErrorModel, ParseNMEA0183Error};
use crate::{Nmea, NmeaView};

verus! {

/// The identity that the device reports.
///
/// Example: `$PSVSI,WINDMILL*73`.
#[derive(Debug, Clone)]
pub struct Svsi {
    pub talker_id: String,
    pub message_id: String,
    /// Identity of the device: the first field, as it stands.
    pub identity: String,
}

impl Svsi {
    /// Why the fields of `n` do not decode, if they do not: there are none.
    pub open spec fn decode_error(n: NmeaView) -> Option<ParseErrorModel> {
        if n.fields.len() < 1 {
            Some(ParseErrorModel::MissingFields(1))
        } else {
            None
        }
    }

    /// Whether `m` is the record that the fields of `n` decode to.
    pub open spec fn decoded(n: NmeaView, m: Svsi) -> bool {
        &&& m.talker_id@ == n.talker_id
        &&& m.message_id@ == n.message_id
        &&& m.identity@ == n.fields[0]
    }

    /// Decodes the fields of an `SVSI` sentence.
    pub fn try_from(nmea: Nmea) -> (r: Result<Svsi, ParseNMEA0183Error>)
        ensures
            match r {
                Ok(m) => Self::decode_error(nmea@) is None && Self::decoded(nmea@, m),
                Err(e) => Self::decode_error(nmea@) == Some(e@),
            },
    {
        if nmea.fields.len() < 1 {
            return Err(ParseNMEA0183Error::MissingFields(1));
        }
        let identity = nmea.fields[0].clone();
        Ok(Svsi { talker_id: nmea.talker_id, message_id: nmea.message_id, identity })
    }
}

} // verus!
