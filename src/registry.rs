//! Which message identifiers have a decoder.
use vstd::prelude::*;
use crate::text::str_eq;

verus! {

/// The message types that have a decoder.
#[derive(Debug, Clone, Copy, PartialEq, Eq, Structural)]
pub enum MessageKind {
    Mwv,
    Gga,
    Xdr,
    Hdm,
    Hdt,
    Gilt,
    Svdy,
    Svss,
    Svsd,
    Svst,
    Svsi,
    Svsv,
    Svsh,
    Svsw,
}

/// Each message identifier that has a decoder, with the type of its message.
pub open spec fn registry() -> Seq<(Seq<char>, MessageKind)> {
    seq![
        ("MWV"@, MessageKind::Mwv),
        ("GGA"@, MessageKind::Gga),
        ("XDR"@, MessageKind::Xdr),
        ("HDM"@, MessageKind::Hdm),
        ("HDT"@, MessageKind::Hdt),
        ("GILT"@, MessageKind::Gilt),
        ("SVDY"@, MessageKind::Svdy),
        ("SVSS"@, MessageKind::Svss),
        ("SVSD"@, MessageKind::Svsd),
        ("SVST"@, MessageKind::Svst),
        ("SVSI"@, MessageKind::Svsi),
        ("SVSV"@, MessageKind::Svsv),
        ("SVSH"@, MessageKind::Svsh),
        ("SVSW"@, MessageKind::Svsw),
    ]
}

/// The type of the first entry of the registry, from entry `i` on, whose identifier is `id`.
pub open spec fn lookup_from(id: Seq<char>, i: int) -> Option<MessageKind>
    decreases registry().len() - i,
{
    if i < 0 || i >= registry().len() {
        None
    } else if registry()[i].0 == id {
        Some(registry()[i].1)
    } else {
        lookup_from(id, i + 1)
    }
}

/// The message type that the identifier `id` selects; `None` for one without a decoder.
pub open spec fn kind_of(id: Seq<char>) -> Option<MessageKind> {
    lookup_from(id, 0)
}

/// Looks a message identifier up in the registry.
pub fn message_kind(id: &str) -> (r: Option<MessageKind>)
    ensures
        r == kind_of(id@),
{
    let table: [(&str, MessageKind); 14] = [
        ("MWV", MessageKind::Mwv),
        ("GGA", MessageKind::Gga),
        ("XDR", MessageKind::Xdr),
        ("HDM", MessageKind::Hdm),
        ("HDT", MessageKind::Hdt),
        ("GILT", MessageKind::Gilt),
        ("SVDY", MessageKind::Svdy),
        ("SVSS", MessageKind::Svss),
        ("SVSD", MessageKind::Svsd),
        ("SVST", MessageKind::Svst),
        ("SVSI", MessageKind::Svsi),
        ("SVSV", MessageKind::Svsv),
        ("SVSH", MessageKind::Svsh),
        ("SVSW", MessageKind::Svsw),
    ];
    assert(forall|j: int|
        0 <= j < 14 ==> (#[trigger] table@[j]).0@ == registry()[j].0 && table@[j].1
            == registry()[j].1);
    let mut i: usize = 0;
    while i < 14
        invariant
            i <= 14,
            table@.len() == 14,
            registry().len() == 14,
            forall|j: int|
                0 <= j < 14 ==> (#[trigger] table@[j]).0@ == registry()[j].0 && table@[j].1
                    == registry()[j].1,
            kind_of(id@) == lookup_from(id@, i as int),
        decreases 14 - i,
    {
        if str_eq(id, table[i].0) {
            return Some(table[i].1);
        }
        i += 1;
    }
    None
}

} // verus!
