//! The envelope of a sentence: `$<talker><message>,<f1>,...,<fn>[*<hh>]`.
use vstd::prelude::*;
use vstd::utf8::is_ascii_chars;
use crate::text::{char_at, find_char, lemma_find_char, lemma_find_char_at};

verus! {

broadcast use vstd::string::group_string_axioms;

/// Whitespace that surrounds a line and is not part of it.
pub open spec fn is_space(c: char) -> bool {
    c == ' ' || c == '\t' || c == '\n' || c == '\r' || c == '\x0b' || c == '\x0c'
}

/// `s` without its leading whitespace.
pub open spec fn trim_start(s: Seq<char>) -> Seq<char>
    decreases s.len(),
{
    if s.len() > 0 && is_space(s[0]) {
        trim_start(s.drop_first())
    } else {
        s
    }
}

/// `s` without its trailing whitespace.
pub open spec fn trim_end(s: Seq<char>) -> Seq<char>
    decreases s.len(),
{
    if s.len() > 0 && is_space(s.last()) {
        trim_end(s.drop_last())
    } else {
        s
    }
}

/// `s` without surrounding whitespace.
pub open spec fn trim(s: Seq<char>) -> Seq<char> {
    trim_end(trim_start(s))
}

/// A character that may stand in the payload: printable ASCII but the delimiters.
pub open spec fn is_payload_char(c: char) -> bool {
    ' ' <= c <= '~' && c != '$' && c != '*'
}

/// A character of the talker and message identifiers.
pub open spec fn is_id_char(c: char) -> bool {
    ('A' <= c <= 'Z') || ('0' <= c <= '9')
}

/// A hexadecimal digit, in either case.
pub open spec fn is_hex(c: char) -> bool {
    ('0' <= c <= '9') || ('a' <= c <= 'f') || ('A' <= c <= 'F')
}

/// The value of the hexadecimal digit `c`.
pub open spec fn hex_value(c: char) -> nat {
    if '0' <= c <= '9' {
        (c as int - '0' as int) as nat
    } else if 'a' <= c <= 'f' {
        (c as int - 'a' as int + 10) as nat
    } else {
        (c as int - 'A' as int + 10) as nat
    }
}

/// The byte that two hexadecimal digits spell.
pub open spec fn hex_byte(hi: char, lo: char) -> nat {
    hex_value(hi) * 16 + hex_value(lo)
}

/// The exclusive-or of the bytes of an ASCII text.
pub open spec fn xor_chars(s: Seq<char>) -> u8
    decreases s.len(),
{
    if s.len() == 0 {
        0
    } else {
        xor_chars(s.drop_last()) ^ (s.last() as u8)
    }
}

/// Position of the `*` that starts the checksum, or the length of the line.
pub open spec fn star_index(t: Seq<char>) -> int {
    find_char(t, '*') as int
}

/// Whether the line carries a checksum.
pub open spec fn has_checksum(t: Seq<char>) -> bool {
    star_index(t) < t.len()
}

/// The bytes strictly between the leading `$` and the `*` (or the end of the line).
pub open spec fn payload(t: Seq<char>) -> Seq<char> {
    t.subrange(1, star_index(t))
}

/// The text after the `*`.
pub open spec fn checksum_text(t: Seq<char>) -> Seq<char> {
    t.skip(star_index(t) + 1)
}

/// The talker and message identifiers, run together: the payload up to its first comma.
pub open spec fn identifier(t: Seq<char>) -> Seq<char> {
    payload(t).take(find_char(payload(t), ',') as int)
}

/// Proprietary sentences have the one-letter talker `P`; the others a two-letter talker.
pub open spec fn talker_len(id: Seq<char>) -> int {
    if id.len() > 0 && id[0] == 'P' {
        1
    } else {
        2
    }
}

/// Whether `t` has the shape of a sentence.
pub open spec fn well_formed(t: Seq<char>) -> bool {
    let id = identifier(t);
    &&& t.len() > 0
    &&& t[0] == '$'
    &&& has_checksum(t) ==> checksum_text(t).len() == 2 && is_hex(checksum_text(t)[0])
        && is_hex(checksum_text(t)[1])
    &&& forall|i: int| 0 <= i < payload(t).len() ==> is_payload_char(#[trigger] payload(t)[i])
    &&& forall|i: int| 0 <= i < id.len() ==> is_id_char(#[trigger] id[i])
    &&& talker_len(id) + 3 <= id.len() <= talker_len(id) + 5
}

/// Whether `t` is framed as `$<payload>*<hh>`: it starts with `$`, and its first `*` is
/// followed by exactly two hexadecimal digits, in either case, that end the text.
pub open spec fn checksum_framed(t: Seq<char>) -> bool {
    &&& t.len() > 0
    &&& t[0] == '$'
    &&& has_checksum(t)
    &&& checksum_text(t).len() == 2
    &&& is_hex(checksum_text(t)[0])
    &&& is_hex(checksum_text(t)[1])
}

/// Whether the checksum of a well-formed line, when it carries one, is right.
pub open spec fn checksum_ok(t: Seq<char>) -> bool {
    has_checksum(t) ==> xor_chars(payload(t)) as nat == hex_byte(
        checksum_text(t)[0],
        checksum_text(t)[1],
    )
}

/// `s` split at each comma, in order; an empty text gives one empty field.
pub open spec fn split_commas(s: Seq<char>) -> Seq<Seq<char>>
    decreases s.len(),
{
    let c = find_char(s, ',') as int;
    if c >= s.len() {
        seq![s]
    } else {
        seq![s.take(c)] + split_commas(s.skip(c + 1))
    }
}

/// The field tokens of a payload: what follows the identifier, split at commas.
pub open spec fn fields_of(p: Seq<char>) -> Seq<Seq<char>> {
    let c = find_char(p, ',') as int;
    if c >= p.len() {
        Seq::empty()
    } else {
        split_commas(p.skip(c + 1))
    }
}

/// The views of a sequence of strings.
pub open spec fn string_views(v: Seq<String>) -> Seq<Seq<char>> {
    v.map_values(|s: String| s@)
}

/// Removes surrounding whitespace from an ASCII line.
pub fn trim_line(s: &str) -> (t: &str)
    requires
        s.is_ascii(),
    ensures
        t@ == trim(s@),
        t.is_ascii(),
{
    let n = s.unicode_len();
    let mut i: usize = 0;
    assert(s@.subrange(0, n as int) =~= s@);
    while i < n && is_space_char(char_at(s, i))
        invariant
            s.is_ascii(),
            n == s@.len(),
            i <= n,
            trim_start(s@) == trim_start(s@.subrange(i as int, n as int)),
        decreases n - i,
    {
        assert(s@.subrange(i as int, n as int).drop_first() =~= s@.subrange(i + 1, n as int));
        i += 1;
    }
    let mut j: usize = n;
    while j > i && is_space_char(char_at(s, j - 1))
        invariant
            s.is_ascii(),
            n == s@.len(),
            i <= j <= n,
            trim(s@) == trim_end(s@.subrange(i as int, j as int)),
        decreases j,
    {
        assert(s@.subrange(i as int, j as int).drop_last() =~= s@.subrange(i as int, j - 1));
        j -= 1;
    }
    s.substring_ascii(i, j)
}

/// Whether `c` is whitespace that surrounds a line.
fn is_space_char(c: char) -> (r: bool)
    ensures
        r == is_space(c),
{
    c == ' ' || c == '\t' || c == '\n' || c == '\r' || c == '\x0b' || c == '\x0c'
}

/// Position of the first `c` in `s[from..to]`, or `to`.
pub fn find_between(s: &str, from: usize, to: usize, c: char) -> (k: usize)
    requires
        s.is_ascii(),
        from <= to <= s@.len(),
    ensures
        k == from + find_char(s@.subrange(from as int, to as int), c),
        from <= k <= to,
{
    let mut i = from;
    while i < to && char_at(s, i) != c
        invariant
            s.is_ascii(),
            from <= i <= to <= s@.len(),
            forall|j: int| from <= j < i ==> s@[j] != c,
        decreases to - i,
    {
        i += 1;
    }
    proof {
        let t = s@.subrange(from as int, to as int);
        assert forall|j: int| 0 <= j < i - from implies t[j] != c by {
            assert(t[j] == s@[from + j]);
        }
        lemma_find_char_at(t, c, i - from);
    }
    i
}

/// Splits `s[from..to]` at each comma.
pub fn split_fields(s: &str, from: usize, to: usize) -> (r: Vec<String>)
    requires
        s.is_ascii(),
        from <= to <= s@.len(),
    ensures
        string_views(r@) == split_commas(s@.subrange(from as int, to as int)),
{
    let ghost whole = s@.subrange(from as int, to as int);
    let mut fields: Vec<String> = Vec::new();
    let mut start = from;
    loop
        invariant
            s.is_ascii(),
            from <= start <= to <= s@.len(),
            whole == s@.subrange(from as int, to as int),
            string_views(fields@) + split_commas(s@.subrange(start as int, to as int))
                == split_commas(whole),
        decreases to - start,
    {
        let k = find_between(s, start, to, ',');
        let ghost rest = s@.subrange(start as int, to as int);
        let piece = s.substring_ascii(start, k).to_owned();
        let ghost before = string_views(fields@);
        fields.push(piece);
        assert(string_views(fields@) =~= before.push(piece@));
        if k >= to {
            assert(split_commas(rest) =~= seq![rest]);
            assert(piece@ =~= rest);
            assert(string_views(fields@) =~= before + split_commas(rest));
            return fields;
        }
        assert(rest.take(k - start) =~= piece@);
        assert(rest.skip(k - start + 1) =~= s@.subrange(k + 1, to as int));
        assert(split_commas(rest) =~= seq![piece@] + split_commas(s@.subrange(k + 1, to as int)));
        assert(string_views(fields@) + split_commas(s@.subrange(k + 1, to as int)) =~= before
            + split_commas(rest));
        start = k + 1;
    }
}

/// The value of a hexadecimal digit, or `None` when `c` is not one.
pub fn hex_digit(c: char) -> (r: Option<u8>)
    ensures
        r is Some <==> is_hex(c),
        r matches Some(v) ==> v as nat == hex_value(c),
{
    if '0' <= c && c <= '9' {
        Some((c as u8) - ('0' as u8))
    } else if 'a' <= c && c <= 'f' {
        Some((c as u8) - ('a' as u8) + 10)
    } else if 'A' <= c && c <= 'F' {
        Some((c as u8) - ('A' as u8) + 10)
    } else {
        None
    }
}

/// Whether every character of `s[from..to]` may stand in a payload.
pub fn payload_chars_between(s: &str, from: usize, to: usize) -> (r: bool)
    requires
        s.is_ascii(),
        from <= to <= s@.len(),
    ensures
        r == forall|i: int| from <= i < to ==> is_payload_char(#[trigger] s@[i]),
{
    let mut i = from;
    while i < to
        invariant
            s.is_ascii(),
            from <= i <= to <= s@.len(),
            forall|j: int| from <= j < i ==> is_payload_char(#[trigger] s@[j]),
        decreases to - i,
    {
        let c = char_at(s, i);
        if !(' ' <= c && c <= '~' && c != '$' && c != '*') {
            return false;
        }
        i += 1;
    }
    true
}

/// Whether every character of `s[from..to]` may stand in an identifier.
pub fn id_chars_between(s: &str, from: usize, to: usize) -> (r: bool)
    requires
        s.is_ascii(),
        from <= to <= s@.len(),
    ensures
        r == forall|i: int| from <= i < to ==> is_id_char(#[trigger] s@[i]),
{
    let mut i = from;
    while i < to
        invariant
            s.is_ascii(),
            from <= i <= to <= s@.len(),
            forall|j: int| from <= j < i ==> is_id_char(#[trigger] s@[j]),
        decreases to - i,
    {
        let c = char_at(s, i);
        if !(('A' <= c && c <= 'Z') || ('0' <= c && c <= '9')) {
            return false;
        }
        i += 1;
    }
    true
}

/// The exclusive-or of the bytes of `s[from..to]`.
pub fn xor_between(s: &str, from: usize, to: usize) -> (r: u8)
    requires
        s.is_ascii(),
        from <= to <= s@.len(),
    ensures
        r == xor_chars(s@.subrange(from as int, to as int)),
{
    let mut acc: u8 = 0;
    let mut i = from;
    while i < to
        invariant
            s.is_ascii(),
            from <= i <= to <= s@.len(),
            acc == xor_chars(s@.subrange(from as int, i as int)),
        decreases to - i,
    {
        let b = s.get_ascii(i);
        assert(s@.subrange(from as int, i + 1).drop_last() =~= s@.subrange(from as int, i as int));
        acc = acc ^ b;
        i += 1;
    }
    acc
}

} // verus!
