//! `SVSH`: header labels of the spectrum records.
use vstd::prelude::*;
use crate::envelope::string_views;
use crate::sentences::error::{ParseErrorModel, ParseNMEA0183Error};
use crate::{Nmea, NmeaView};

verus! {

/// The labels of the columns of the spectrum records that follow, as they stand.
///
/// Example: `$PSVSH,Period,ESmag,Nre,Nim,Ere,Eim,Ure,Uim,Umag,theta,a1,b1,a2,b2*57`.
#[derive(Debug, Clone)]
pub struct Svsh {
    pub talker_id: String,
    pub message_id: String,
    pub headers: Vec<String>,
}

impl Svsh {
    /// Every sentence of this type decodes.
    pub open spec fn decode_error(n: NmeaView) -> Option<ParseErrorModel> {
        None
    }

    /// Whether `m` is the record that the fields of `n` decode to.
    pub open spec fn decoded(n: NmeaView, m: Svsh) -> bool {
        &&& m.talker_id@ == n.talker_id
        &&& m.message_id@ == n.message_id
        &&& string_views(m.headers@) == n.fields
    }

    /// Decodes the fields of an `SVSH` sentence: every field is a label.
    pub fn try_from(nmea: Nmea) -> (r: Result<Svsh, ParseNMEA0183Error>)
        ensures
            match r {
                Ok(m) => Self::decode_error(nmea@) is None && Self::decoded(nmea@, m),
                Err(e) => Self::decode_error(nmea@) == Some(e@),
            },
    {
        Ok(Svsh { talker_id: nmea.talker_id, message_id: nmea.message_id, headers: nmea.fields })
    }
}

} // verus!
