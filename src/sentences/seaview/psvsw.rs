//! `SVSW`: summary telemetry.
use vstd::prelude::*;
use crate::envelope::string_views;
use crate::sentences::error::{ParseErrorModel, ParseNMEA0183Error};
use crate::{Nmea, NmeaView};

verus! {

/// Summary telemetry, kept as its raw fields.
///
/// Which values the device sends, and in what order, is set by a bitmask on the device and
/// cannot be read from the sentence; the fields are therefore passed through as they stand.
///
/// Example:
/// `$PSVSW,0.570,2.560,311.141,311.142,3.872,1.559,0.118,3.824,12.6,23.8,SVS-603HR,2023-01-12 12:26:27,255*1A`.
#[derive(Debug, Clone)]
pub struct Svsw {
    pub talker_id: String,
    pub message_id: String,
    pub params: Vec<String>,
}

impl Svsw {
    /// Every sentence of this type decodes.
    pub open spec fn decode_error(n: NmeaView) -> Option<ParseErrorModel> {
        None
    }

    /// Whether `m` is the record that the fields of `n` decode to.
    pub open spec fn decoded(n: NmeaView, m: Svsw) -> bool {
        &&& m.talker_id@ == n.talker_id
        &&& m.message_id@ == n.message_id
        &&& string_views(m.params@) == n.fields
    }

    /// Decodes the fields of an `SVSW` sentence: every field is kept.
    pub fn try_from(nmea: Nmea) -> (r: Result<Svsw, ParseNMEA0183Error>)
        ensures
            match r {
                Ok(m) => Self::decode_error(nmea@) is None && Self::decoded(nmea@, m),
                Err(e) => Self::decode_error(nmea@) == Some(e@),
            },
    {
        Ok(Svsw { talker_id: nmea.talker_id, message_id: nmea.message_id, params: nmea.fields })
    }
}

} // verus!
