//! `XDR`: transducer measurements, in repeating groups of four fields.
use vstd::prelude::*;
use crate::envelope::string_views;
use crate::numeric::{decimal_of, parse_decimal};
use crate::sentences::error::{ParseErrorModel, ParseNMEA0183Error};
use crate::sentences::{
    is_transducer_code, measurement_unit_of, transducer_of, Reading, TransducerReading, UnitsOfMeasurement,
};
use crate::{Nmea, NmeaView};

verus! {

/// Readings of one or more transducers.
///
/// The fields come in groups of four: transducer kind, value, unit, name. A value is absent
/// when it is not a number; the kind and the unit must be known codes.
///
/// Example: `$WIXDR,C,+023.9,C,TEMP,P,1.0243,B,PRESS,H,039,P,RH*01`.
#[derive(Debug, Clone)]
pub struct Xdr {
    pub talker_id: String,
    pub message_id: String,
    /// One reading per group, in the order of the groups.
    pub readings: Vec<Option<TransducerReading>>,
}

/// Why group `k` of the fields `f` does not decode, if it does not.
pub open spec fn group_error(f: Seq<Seq<char>>, k: int) -> Option<ParseErrorModel> {
    if measurement_unit_of(f[4 * k + 2]) is None {
        Some(ParseErrorModel::UnrecognizedCode(f[4 * k + 2]))
    } else if !is_transducer_code(f[4 * k]) {
        Some(ParseErrorModel::UnrecognizedCode(f[4 * k]))
    } else {
        None
    }
}

/// The error of the first of the groups before group `k` that does not decode, if any.
pub open spec fn first_group_error(f: Seq<Seq<char>>, k: nat) -> Option<ParseErrorModel>
    decreases k,
{
    if k == 0 {
        None
    } else if first_group_error(f, (k - 1) as nat) is Some {
        first_group_error(f, (k - 1) as nat)
    } else {
        group_error(f, k - 1)
    }
}

/// Why the fields `f` do not decode as readings, if they do not: they do not come in
/// whole groups of four, or a group does not decode.
pub open spec fn readings_error(f: Seq<Seq<char>>) -> Option<ParseErrorModel> {
    if f.len() % 4 != 0 {
        Some(ParseErrorModel::MalformedGroup)
    } else {
        first_group_error(f, f.len() / 4)
    }
}

/// Whether `t` is the reading that group `k` of the fields `f` decodes to.
pub open spec fn reading_decoded(f: Seq<Seq<char>>, k: int, t: Option<TransducerReading>) -> bool {
    t matches Some(r) && t == transducer_of(f[4 * k], r.measurement()) && r.measurement().holds(
        decimal_of(f[4 * k + 1]),
        measurement_unit_of(f[4 * k + 2]),
        Some(f[4 * k + 3]),
    )
}

proof fn lemma_first_group_error_stays(f: Seq<Seq<char>>, k: nat, m: nat)
    requires
        k <= m,
        first_group_error(f, k) is Some,
    ensures
        first_group_error(f, m) == first_group_error(f, k),
    decreases m - k,
{
    if k < m {
        lemma_first_group_error_stays(f, k, (m - 1) as nat);
    }
}

/// Decodes fields that come in groups of four into transducer readings.
pub fn to_readings(fields: Vec<String>) -> (r: Result<Vec<Option<TransducerReading>>, ParseNMEA0183Error>)
    ensures
        match r {
            Ok(v) => {
                &&& readings_error(string_views(fields@)) is None
                &&& v@.len() == fields@.len() / 4
                &&& forall|k: int| 0 <= k < v@.len() ==> reading_decoded(string_views(fields@), k, #[trigger] v@[k])
            },
            Err(e) => readings_error(string_views(fields@)) == Some(e@),
        },
{
    let ghost f = string_views(fields@);
    let n = fields.len();
    if n % 4 != 0 {
        return Err(ParseNMEA0183Error::MalformedGroup);
    }
    let mut readings: Vec<Option<TransducerReading>> = Vec::new();
    let mut i: usize = 0;
    while i < n
        invariant
            n == fields@.len(),
            f == string_views(fields@),
            n % 4 == 0,
            i % 4 == 0,
            i <= n,
            readings@.len() == i / 4,
            first_group_error(f, (i / 4) as nat) is None,
            forall|k: int| 0 <= k < readings@.len() ==> reading_decoded(f, k, #[trigger] readings@[k]),
        decreases n - i,
    {
        let ghost k = i / 4;
        assert(4 * k == i);
        assert(i + 4 <= n);
        let units = match UnitsOfMeasurement::from_char(fields[i + 2].as_str()) {
            Some(u) => u,
            None => {
                proof {
                    lemma_first_group_error_stays(f, (k + 1) as nat, n as nat / 4);
                }
                return Err(ParseNMEA0183Error::unrecognized(fields[i + 2].as_str()));
            },
        };
        let reading = Reading {
            reading: parse_decimal(fields[i + 1].as_str()),
            units: Some(units),
            name: Some(fields[i + 3].clone()),
        };
        let transducer = match TransducerReading::from_nmea(fields[i].as_str(), reading) {
            Some(t) => t,
            None => {
                proof {
                    lemma_first_group_error_stays(f, (k + 1) as nat, n as nat / 4);
                }
                return Err(ParseNMEA0183Error::unrecognized(fields[i].as_str()));
            },
        };
        readings.push(Some(transducer));
        i += 4;
        assert(i / 4 == k + 1);
    }
    Ok(readings)
}

impl Xdr {
    /// Why the fields of `n` do not decode as readings, if they do not.
    pub open spec fn decode_error(n: NmeaView) -> Option<ParseErrorModel> {
        readings_error(n.fields)
    }

    /// Whether `m` is the record that the fields of `n` decode to.
    pub open spec fn decoded(n: NmeaView, m: Xdr) -> bool {
        &&& m.talker_id@ == n.talker_id
        &&& m.message_id@ == n.message_id
        &&& m.readings@.len() == n.fields.len() / 4
        &&& forall|k: int| 0 <= k < m.readings@.len() ==> reading_decoded(n.fields, k, #[trigger] m.readings@[k])
    }

    /// Decodes the fields of an `XDR` sentence.
    pub fn try_from(nmea: Nmea) -> (r: Result<Xdr, ParseNMEA0183Error>)
        ensures
            match r {
                Ok(m) => Self::decode_error(nmea@) is None && Self::decoded(nmea@, m),
                Err(e) => Self::decode_error(nmea@) == Some(e@),
            },
    {
        let readings = to_readings(nmea.fields)?;
        Ok(Xdr { talker_id: nmea.talker_id, message_id: nmea.message_id, readings })
    }
}

} // verus!
