//! Facts about decoding that relate several of its steps, proved from their models.
use vstd::prelude::*;
use vstd::utf8::is_ascii_chars;
use crate::envelope::{
    checksum_ok, checksum_text, has_checksum, hex_byte, hex_value, identifier, is_hex,
    is_id_char, is_payload_char, payload, star_index, trim, trim_end, trim_start, well_formed,
    xor_chars,
};
use crate::registry::{kind_of, lookup_from, registry, MessageKind};
use crate::sentences::error::{ParseErrorModel, ParseNMEA0183Error};
use crate::text::{lemma_find_char, lemma_find_char_at};
use crate::sentences::xdr::first_group_error;
use crate::{decode_error_of, line_model, parsed, NmeaView, Sentence};

verus! {

/// A line that has the shape of a sentence and carries a checksum gets past the checksum
/// check exactly when the exclusive-or of the bytes strictly between its `$` and its `*`
/// equals the byte that its two hexadecimal digits spell, in either case.
pub proof fn checksum_decides(line: Seq<char>, r: Result<Sentence, ParseNMEA0183Error>)
    requires
        is_ascii_chars(line),
        well_formed(trim(line)),
        has_checksum(trim(line)),
        parsed(line, r),
    ensures
        (r matches Err(e) && e@ == ParseErrorModel::ChecksumMismatch) <==> xor_chars(
            payload(trim(line)),
        ) as nat != hex_byte(checksum_text(trim(line))[0], checksum_text(trim(line))[1]),
{
    if let Ok(n) = line_model(line) {
        if let Some(k) = kind_of(n.message_id) {
            lemma_decoders_never_check_sums(k, n);
        }
    }
}

/// No decoder fails with `ChecksumMismatch`: that failure belongs to the envelope alone.
proof fn lemma_decoders_never_check_sums(k: MessageKind, n: NmeaView)
    ensures
        decode_error_of(k, n) != Some(ParseErrorModel::ChecksumMismatch),
{
    if k == MessageKind::Xdr && n.fields.len() % 4 == 0 {
        lemma_group_errors(n.fields, n.fields.len() / 4);
    }
}

proof fn lemma_group_errors(f: Seq<Seq<char>>, k: nat)
    ensures
        first_group_error(f, k) != Some(ParseErrorModel::ChecksumMismatch),
    decreases k,
{
    if k > 0 {
        lemma_group_errors(f, (k - 1) as nat);
    }
}

/// Replacing one digit of the checksum of a line that decodes by a digit of another value
/// makes the line fail with `ChecksumMismatch`.
pub proof fn altered_checksum_refused(
    line: Seq<char>,
    i: int,
    c: char,
    r: Result<Sentence, ParseNMEA0183Error>,
)
    requires
        line_model(line) is Ok,
        has_checksum(trim(line)),
        i == trim(line).len() - 2 || i == trim(line).len() - 1,
        is_hex(c),
        hex_value(c) != hex_value(trim(line)[i]),
        parsed(trim(line).update(i, c), r),
    ensures
        r matches Err(e) && e@ == ParseErrorModel::ChecksumMismatch,
{
    let t = trim(line);
    let a = t.update(i, c);
    let star = star_index(t);
    lemma_find_char(t, '*');
    assert(star == t.len() - 3);
    assert forall|j: int| 0 <= j < star implies a[j] != '*' by {
        assert(a[j] == t[j]);
    }
    lemma_find_char_at(a, '*', star);
    assert(star_index(a) == star);
    assert(payload(a) =~= payload(t));
    assert(identifier(a) =~= identifier(t));
    let ct = checksum_text(t);
    let ca = checksum_text(a);
    assert(ca.len() == 2);
    assert(ct[0] == t[star + 1] && ct[1] == t[star + 2]);
    assert(ca[0] == a[star + 1] && ca[1] == a[star + 2]);
    assert(well_formed(a));
    assert(is_ascii_chars(a)) by {
        assert forall|j: int| 0 <= j < a.len() implies '\0' <= #[trigger] a[j] <= '\u{7f}' by {
            if 1 <= j < star {
                assert(a[j] == payload(a)[j - 1]);
                assert(is_payload_char(payload(a)[j - 1]));
            }
        }
    }
    assert(trim_start(a) == a);
    assert(trim_end(a) == a);
    assert(trim(a) == a);
    assert(hex_value(ca[0]) < 16 && hex_value(ca[1]) < 16);
    assert(hex_value(ct[0]) < 16 && hex_value(ct[1]) < 16);
    assert(hex_byte(ca[0], ca[1]) != hex_byte(ct[0], ct[1]));
    assert(!checksum_ok(a));
}

/// An `XDR` sentence whose fields do not come in whole groups of four fails with
/// `MalformedGroup`.
pub proof fn partial_group_refused(line: Seq<char>, r: Result<Sentence, ParseNMEA0183Error>)
    requires
        line_model(line) matches Ok(n) && n.message_id == "XDR"@ && n.fields.len() % 4 != 0,
        parsed(line, r),
    ensures
        r matches Err(e) && e@ == ParseErrorModel::MalformedGroup,
{
    reveal_strlit("MWV");
    reveal_strlit("GGA");
    reveal_strlit("XDR");
    assert("MWV"@[0] != "XDR"@[0]);
    assert("GGA"@[0] != "XDR"@[0]);
    assert(registry()[0].0 != "XDR"@);
    assert(registry()[1].0 != "XDR"@);
    assert(registry()[2] == ("XDR"@, MessageKind::Xdr));
    assert(lookup_from("XDR"@, 2) == Some(MessageKind::Xdr));
    assert(lookup_from("XDR"@, 1) == Some(MessageKind::Xdr));
    assert(kind_of("XDR"@) == Some(MessageKind::Xdr));
}

/// A line whose message identifier has no decoder decodes to `Unknown`, not to an error.
pub proof fn unknown_message_accepted(line: Seq<char>, r: Result<Sentence, ParseNMEA0183Error>)
    requires
        line_model(line) matches Ok(n) && kind_of(n.message_id) is None,
        parsed(line, r),
    ensures
        r matches Ok(Sentence::Unknown),
{
}

} // verus!
