//! Decoding of NMEA 0183 sentences into typed records.
use vstd::prelude::*;
use vstd::utf8::is_ascii_chars;

pub mod envelope;
pub mod numeric;
pub mod registry;
pub mod sentences;
pub mod text;
pub mod theorems;

use crate::envelope::{
    checksum_framed, checksum_ok, checksum_text, fields_of, find_between, has_checksum, hex_digit,
    id_chars_between, identifier, is_id_char, is_payload_char, payload, payload_chars_between,
    split_fields, star_index, string_views, talker_len, trim, trim_line, well_formed,
    xor_between,
};
use crate::registry::{kind_of, message_kind, MessageKind};
use crate::sentences::error::{ParseErrorModel, ParseNMEA0183Error};
use crate::sentences::gga::Gga;
use crate::sentences::hdm::Hdm;
use crate::sentences::hdt::Hdt;
use crate::sentences::mwv::Mwv;
use crate::sentences::pgilt::Gilt;
use crate::sentences::seaview::{
    psvdy::Svdy, psvsd::Svsd, psvsh::Svsh, psvsi::Svsi, psvss::Svss, psvst::Svst, psvsv::Svsv,
    psvsw::Svsw,
};
use crate::sentences::xdr::Xdr;
use crate::text::{char_at, find_char, lemma_find_char};

verus! {

broadcast use vstd::string::group_string_axioms;

/// A decoded sentence: one variant per message type that has a decoder, and `Unknown` for
/// the others.
#[derive(Debug, Clone)]
pub enum Sentence {
    Unknown,
    Mwv(Mwv),
    Xdr(Xdr),
    Gga(Gga),
    Hdm(Hdm),
    Hdt(Hdt),
    Gilt(Gilt),
    Svdy(Svdy),
    Svss(Svss),
    Svsd(Svsd),
    Svst(Svst),
    Svsi(Svsi),
    Svsv(Svsv),
    Svsh(Svsh),
    Svsw(Svsw),
}

/// Why the fields of `n` do not decode as a message of type `k`, if they do not.
pub open spec fn decode_error_of(k: MessageKind, n: NmeaView) -> Option<ParseErrorModel> {
    match k {
        MessageKind::Mwv => Mwv::decode_error(n),
        MessageKind::Gga => Gga::decode_error(n),
        MessageKind::Xdr => Xdr::decode_error(n),
        MessageKind::Hdm => Hdm::decode_error(n),
        MessageKind::Hdt => Hdt::decode_error(n),
        MessageKind::Gilt => Gilt::decode_error(n),
        MessageKind::Svdy => Svdy::decode_error(n),
        MessageKind::Svss => Svss::decode_error(n),
        MessageKind::Svsd => Svsd::decode_error(n),
        MessageKind::Svst => Svst::decode_error(n),
        MessageKind::Svsi => Svsi::decode_error(n),
        MessageKind::Svsv => Svsv::decode_error(n),
        MessageKind::Svsh => Svsh::decode_error(n),
        MessageKind::Svsw => Svsw::decode_error(n),
    }
}

/// Whether `s` is the sentence of type `k` that the fields of `n` decode to.
pub open spec fn sentence_decoded(k: MessageKind, n: NmeaView, s: Sentence) -> bool {
    match (k, s) {
        (MessageKind::Mwv, Sentence::Mwv(m)) => Mwv::decoded(n, m),
        (MessageKind::Gga, Sentence::Gga(m)) => Gga::decoded(n, m),
        (MessageKind::Xdr, Sentence::Xdr(m)) => Xdr::decoded(n, m),
        (MessageKind::Hdm, Sentence::Hdm(m)) => Hdm::decoded(n, m),
        (MessageKind::Hdt, Sentence::Hdt(m)) => Hdt::decoded(n, m),
        (MessageKind::Gilt, Sentence::Gilt(m)) => Gilt::decoded(n, m),
        (MessageKind::Svdy, Sentence::Svdy(m)) => Svdy::decoded(n, m),
        (MessageKind::Svss, Sentence::Svss(m)) => Svss::decoded(n, m),
        (MessageKind::Svsd, Sentence::Svsd(m)) => Svsd::decoded(n, m),
        (MessageKind::Svst, Sentence::Svst(m)) => Svst::decoded(n, m),
        (MessageKind::Svsi, Sentence::Svsi(m)) => Svsi::decoded(n, m),
        (MessageKind::Svsv, Sentence::Svsv(m)) => Svsv::decoded(n, m),
        (MessageKind::Svsh, Sentence::Svsh(m)) => Svsh::decoded(n, m),
        (MessageKind::Svsw, Sentence::Svsw(m)) => Svsw::decoded(n, m),
        _ => false,
    }
}

/// Whether `r` is what the tokenized sentence `n` decodes to: `Unknown` when its message
/// identifier has no decoder, else the outcome of that decoder.
pub open spec fn decodes_to(n: NmeaView, r: Result<Sentence, ParseNMEA0183Error>) -> bool {
    match kind_of(n.message_id) {
        None => r matches Ok(Sentence::Unknown),
        Some(k) => match r {
            Ok(s) => decode_error_of(k, n) is None && sentence_decoded(k, n, s),
            Err(e) => decode_error_of(k, n) == Some(e@),
        },
    }
}

/// Whether `r` is what decoding the text `line` gives.
pub open spec fn parsed(line: Seq<char>, r: Result<Sentence, ParseNMEA0183Error>) -> bool {
    match line_model(line) {
        Ok(n) => decodes_to(n, r),
        Err(e) => r matches Err(x) && x@ == e,
    }
}

/// A sentence split into its parts, before its fields are decoded.
#[derive(Debug, Clone)]
pub struct Nmea {
    pub talker_id: String,
    pub message_id: String,
    /// The field tokens, in the order in which they stand in the line.
    pub fields: Vec<String>,
}

/// The mathematical model of an [`Nmea`].
pub struct NmeaView {
    pub talker_id: Seq<char>,
    pub message_id: Seq<char>,
    pub fields: Seq<Seq<char>>,
}

impl View for Nmea {
    type V = NmeaView;

    open spec fn view(&self) -> NmeaView {
        NmeaView {
            talker_id: self.talker_id@,
            message_id: self.message_id@,
            fields: string_views(self.fields@),
        }
    }
}

/// What tokenizing a line gives: its parts, or why it was refused.
///
/// A line is refused with `EnvelopeError` when it is not ASCII or, once surrounding
/// whitespace is removed, does not have the shape of a sentence; with `ChecksumMismatch`
/// when it carries a checksum that differs from the exclusive-or of its payload.
pub open spec fn line_model(line: Seq<char>) -> Result<NmeaView, ParseErrorModel> {
    let t = trim(line);
    let id = identifier(t);
    if !is_ascii_chars(line) || !well_formed(t) {
        Err(ParseErrorModel::EnvelopeError)
    } else if !checksum_ok(t) {
        Err(ParseErrorModel::ChecksumMismatch)
    } else {
        Ok(
            NmeaView {
                talker_id: id.take(talker_len(id)),
                message_id: id.skip(talker_len(id)),
                fields: fields_of(payload(t)),
            },
        )
    }
}

/// Decodes sentences.
pub struct NmeaParser {}

impl NmeaParser {
    /// Decodes one line: tokenizes it, checks its checksum when it carries one, and hands
    /// its fields to the decoder that its message identifier selects.
    pub fn parse(nmea_sentence: &str) -> (r: Result<Sentence, ParseNMEA0183Error>)
        ensures
            parsed(nmea_sentence@, r),
    {
        let nmea = Self::to_nmea(nmea_sentence)?;
        Self::dispatch(nmea)
    }

    /// Hands a tokenized sentence to the decoder that its message identifier selects.
    pub fn dispatch(nmea: Nmea) -> (r: Result<Sentence, ParseNMEA0183Error>)
        ensures
            decodes_to(nmea@, r),
    {
        let kind = match message_kind(nmea.message_id.as_str()) {
            Some(k) => k,
            None => return Ok(Sentence::Unknown),
        };
        Ok(
            match kind {
                MessageKind::Mwv => Sentence::Mwv(Mwv::try_from(nmea)?),
                MessageKind::Gga => Sentence::Gga(Gga::try_from(nmea)?),
                MessageKind::Xdr => Sentence::Xdr(Xdr::try_from(nmea)?),
                MessageKind::Hdm => Sentence::Hdm(Hdm::try_from(nmea)?),
                MessageKind::Hdt => Sentence::Hdt(Hdt::try_from(nmea)?),
                MessageKind::Gilt => Sentence::Gilt(Gilt::try_from(nmea)?),
                MessageKind::Svdy => Sentence::Svdy(Svdy::try_from(nmea)?),
                MessageKind::Svss => Sentence::Svss(Svss::try_from(nmea)?),
                MessageKind::Svsd => Sentence::Svsd(Svsd::try_from(nmea)?),
                MessageKind::Svst => Sentence::Svst(Svst::try_from(nmea)?),
                MessageKind::Svsi => Sentence::Svsi(Svsi::try_from(nmea)?),
                MessageKind::Svsv => Sentence::Svsv(Svsv::try_from(nmea)?),
                MessageKind::Svsh => Sentence::Svsh(Svsh::try_from(nmea)?),
                MessageKind::Svsw => Sentence::Svsw(Svsw::try_from(nmea)?),
            },
        )
    }

    /// Compares the two hexadecimal digits after the `*` of a sentence with the exclusive-or
    /// of the bytes strictly between its `$` and its `*`.
    pub fn verify_checksum(sentence: &str) -> (r: Result<(), ParseNMEA0183Error>)
        requires
            sentence.is_ascii(),
            checksum_framed(sentence@),
        ensures
            r is Ok <==> checksum_ok(sentence@),
            r matches Err(e) ==> e@ == ParseErrorModel::ChecksumMismatch,
    {
        let n = sentence.unicode_len();
        let ghost t = sentence@;
        proof {
            lemma_find_char(t, '*');
            assert(checksum_text(t)[0] == t[star_index(t) + 1]);
            assert(checksum_text(t)[1] == t[star_index(t) + 2]);
        }
        let star = n - 3;
        let computed = xor_between(sentence, 1, star);
        let hi = hex_digit(char_at(sentence, n - 2));
        let lo = hex_digit(char_at(sentence, n - 1));
        match (hi, lo) {
            (Some(h), Some(l)) => {
                let expected: u16 = (h as u16) * 16 + (l as u16);
                if computed as u16 == expected {
                    Ok(())
                } else {
                    Err(ParseNMEA0183Error::ChecksumMismatch)
                }
            },
            _ => Err(ParseNMEA0183Error::ChecksumMismatch),
        }
    }

    /// Splits a line into talker, message identifier and fields, and checks its checksum
    /// when it carries one.
    pub fn to_nmea(nmea_sentence: &str) -> (r: Result<Nmea, ParseNMEA0183Error>)
        ensures
            match line_model(nmea_sentence@) {
                Ok(v) => r matches Ok(n) && n@ == v,
                Err(e) => r matches Err(x) && x@ == e,
            },
    {
        if !nmea_sentence.is_ascii() {
            return Err(ParseNMEA0183Error::EnvelopeError);
        }
        let t = trim_line(nmea_sentence);
        let n = t.unicode_len();
        if n == 0 || char_at(t, 0) != '$' {
            return Err(ParseNMEA0183Error::EnvelopeError);
        }
        let star = find_between(t, 0, n, '*');
        proof {
            assert(t@.subrange(0, n as int) =~= t@);
            lemma_find_char(t@, '*');
        }
        if star < n {
            if n - star != 3 || hex_digit(char_at(t, star + 1)).is_none() || hex_digit(
                char_at(t, star + 2),
            ).is_none() {
                return Err(ParseNMEA0183Error::EnvelopeError);
            }
        }
        if !payload_chars_between(t, 1, star) {
            proof {
                let p = payload(t@);
                if forall|i: int| 0 <= i < p.len() ==> is_payload_char(#[trigger] p[i]) {
                    assert forall|i: int| 1 <= i < star implies is_payload_char(
                        #[trigger] t@[i],
                    ) by {
                        assert(t@[i] == p[i - 1]);
                    }
                }
            }
            return Err(ParseNMEA0183Error::EnvelopeError);
        }
        let comma = find_between(t, 1, star, ',');
        let id_len = comma - 1;
        let tl: usize = if id_len > 0 && char_at(t, 1) == 'P' {
            1
        } else {
            2
        };
        proof {
            assert(identifier(t@) =~= t@.subrange(1, comma as int));
        }
        if id_len < tl + 3 || id_len > tl + 5 || !id_chars_between(t, 1, comma) {
            proof {
                let id = identifier(t@);
                if forall|i: int| 0 <= i < id.len() ==> is_id_char(#[trigger] id[i]) {
                    assert forall|i: int| 1 <= i < comma implies is_id_char(#[trigger] t@[i]) by {
                        assert(t@[i] == id[i - 1]);
                    }
                }
            }
            return Err(ParseNMEA0183Error::EnvelopeError);
        }
        if star < n {
            match Self::verify_checksum(t) {
                Ok(()) => {},
                Err(e) => return Err(e),
            }
        }
        let talker_id = t.substring_ascii(1, 1 + tl).to_owned();
        let message_id = t.substring_ascii(1 + tl, comma).to_owned();
        let fields = if comma < star {
            split_fields(t, comma + 1, star)
        } else {
            Vec::new()
        };
        proof {
            let p = payload(t@);
            if comma < star {
                assert(p.skip(comma as int) =~= t@.subrange(comma + 1, star as int));
            }
            assert(string_views(Seq::<String>::empty()) =~= Seq::<Seq<char>>::empty());
            let id = identifier(t@);
            assert(forall|i: int| 0 <= i < payload(t@).len() ==> is_payload_char(#[trigger] payload(t@)[i]));
            assert(forall|i: int| 0 <= i < id.len() ==> is_id_char(#[trigger] id[i]));
            assert(talker_len(id) == tl);
            assert(well_formed(t@));
            assert(checksum_ok(t@));
            assert(talker_id@ == id.take(talker_len(id)));
            assert(message_id@ == id.skip(talker_len(id)));
            assert(string_views(fields@) == fields_of(payload(t@)));
        }
        Ok(Nmea { talker_id, message_id, fields })
    }
}

} // verus!
