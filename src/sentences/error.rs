//! Why a sentence could not be decoded.
use vstd::prelude::*;

verus! {

/// The ways in which decoding a sentence fails.
#[derive(Debug, Clone)]
pub enum ParseNMEA0183Error {
    /// The line does not have the shape `$<talker><message>,<fields>[*<hh>]`.
    EnvelopeError,
    /// The checksum after `*` differs from the one computed over the payload.
    ChecksumMismatch,
    /// The sentence has fewer fields than its message type needs; holds the number needed.
    MissingFields(usize),
    /// A categorical field holds none of the codes that it may hold; holds the field.
    UnrecognizedCode(String),
    /// The fields of a repeating group do not come in whole groups.
    MalformedGroup,
    /// A field that must be a number is not one.
    NumericFormatError,
}

/// The mathematical model of a decoding failure.
pub enum ParseErrorModel {
    EnvelopeError,
    ChecksumMismatch,
    MissingFields(nat),
    UnrecognizedCode(Seq<char>),
    MalformedGroup,
    NumericFormatError,
}

impl View for ParseNMEA0183Error {
    type V = ParseErrorModel;

    open spec fn view(&self) -> ParseErrorModel {
        match self {
            ParseNMEA0183Error::EnvelopeError => ParseErrorModel::EnvelopeError,
            ParseNMEA0183Error::ChecksumMismatch => ParseErrorModel::ChecksumMismatch,
            ParseNMEA0183Error::MissingFields(n) => ParseErrorModel::MissingFields(*n as nat),
            ParseNMEA0183Error::UnrecognizedCode(s) => ParseErrorModel::UnrecognizedCode(s@),
            ParseNMEA0183Error::MalformedGroup => ParseErrorModel::MalformedGroup,
            ParseNMEA0183Error::NumericFormatError => ParseErrorModel::NumericFormatError,
        }
    }
}

impl ParseNMEA0183Error {
    /// The error for a categorical field that holds no known code.
    pub fn unrecognized(field: &str) -> (r: Self)
        ensures
            r@ == ParseErrorModel::UnrecognizedCode(field@),
    {
        ParseNMEA0183Error::UnrecognizedCode(field.to_owned())
    }
}

} // verus!
