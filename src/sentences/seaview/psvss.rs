//! `SVSS`: one frequency bin of the wave energy spectrum.
use vstd::prelude::*;
use crate::numeric::{decimal_of, Decimal};
use crate::sentences::error::{ParseErrorModel, ParseNMEA0183Error};
use crate::sentences::{all_decimals, require_decimals};
use crate::{Nmea, NmeaView};

verus! {

/// One frequency bin of the wave energy spectrum.
#[derive(Debug, Clone, Copy, PartialEq, Eq, Structural)]
pub struct SpectrumBin {
    /// Period of the bin.
    pub period: Decimal,
    /// Energy spectrum magnitude.
    pub es_mag: Decimal,
    /// North, real and imaginary parts.
    pub n_re: Decimal,
    pub n_im: Decimal,
    /// East, real and imaginary parts.
    pub e_re: Decimal,
    pub e_im: Decimal,
    /// Up, real and imaginary parts.
    pub u_re: Decimal,
    pub u_im: Decimal,
    /// Magnitude of the up energy.
    pub u_mag: Decimal,
    /// Direction, in radians.
    pub theta: Decimal,
    /// Fourier coefficients.
    pub a1: Decimal,
    pub b1: Decimal,
    pub a2: Decimal,
    pub b2: Decimal,
}

/// The fourteen values of a bin, in the order in which they stand in the sentence.
pub open spec fn bin_values(b: SpectrumBin) -> Seq<Decimal> {
    seq![
        b.period,
        b.es_mag,
        b.n_re,
        b.n_im,
        b.e_re,
        b.e_im,
        b.u_re,
        b.u_im,
        b.u_mag,
        b.theta,
        b.a1,
        b.b1,
        b.a2,
        b.b2,
    ]
}

/// One frequency bin of the spectrum; the order of its values is the one that `SVSH` labels.
///
/// Fields: 0 period, 1 ESmag, 2 Nre, 3 Nim, 4 Ere, 5 Eim, 6 Ure, 7 Uim, 8 Umag, 9 theta,
/// 10 a1, 11 b1, 12 a2, 13 b2. Each must be a number.
#[derive(Debug, Clone)]
pub struct Svss {
    pub talker_id: String,
    pub message_id: String,
    pub bin: SpectrumBin,
}

impl Svss {
    /// Why the fields of `n` do not decode as a spectrum bin, if they do not.
    pub open spec fn decode_error(n: NmeaView) -> Option<ParseErrorModel> {
        if n.fields.len() < 14 {
            Some(ParseErrorModel::MissingFields(14))
        } else if !all_decimals(n.fields, 0, 14) {
            Some(ParseErrorModel::NumericFormatError)
        } else {
            None
        }
    }

    /// Whether `m` is the record that the fields of `n` decode to.
    pub open spec fn decoded(n: NmeaView, m: Svss) -> bool {
        &&& m.talker_id@ == n.talker_id
        &&& m.message_id@ == n.message_id
        &&& forall|i: int| 0 <= i < 14 ==> Some(#[trigger] bin_values(m.bin)[i]) == decimal_of(n.fields[i])
    }

    /// Decodes the fields of an `SVSS` sentence.
    pub fn try_from(nmea: Nmea) -> (r: Result<Svss, ParseNMEA0183Error>)
        ensures
            match r {
                Ok(m) => Self::decode_error(nmea@) is None && Self::decoded(nmea@, m),
                Err(e) => Self::decode_error(nmea@) == Some(e@),
            },
    {
        if nmea.fields.len() < 14 {
            return Err(ParseNMEA0183Error::MissingFields(14));
        }
        let v = require_decimals(&nmea.fields, 0, 14)?;
        let bin = SpectrumBin {
            period: v[0],
            es_mag: v[1],
            n_re: v[2],
            n_im: v[3],
            e_re: v[4],
            e_im: v[5],
            u_re: v[6],
            u_im: v[7],
            u_mag: v[8],
            theta: v[9],
            a1: v[10],
            b1: v[11],
            a2: v[12],
            b2: v[13],
        };
        assert(bin_values(bin) =~= v@);
        Ok(Svss { talker_id: nmea.talker_id, message_id: nmea.message_id, bin })
    }
}

} // verus!
