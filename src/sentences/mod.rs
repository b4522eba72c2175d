//! The records that sentences decode into, and the vocabulary they share.
use vstd::prelude::*;
use crate::envelope::string_views;
use crate::numeric::{decimal_of, parse_decimal, Decimal};
use crate::sentences::error::{ParseErrorModel, ParseNMEA0183Error};
use crate::text::single_char;

pub mod error;
pub mod gga;
pub mod hdm;
pub mod hdt;
pub mod ilt;
pub mod mwv;
pub mod pgilt;
pub mod seaview;
pub mod xdr;

verus! {

/// Units in which a speed is given.
#[derive(Debug, Clone, Copy, PartialEq, Eq, Structural)]
pub enum UnitsOfSpeed {
    KilometersPerHour,
    MetresPerSecond,
    Knots,
    StatuteMilesPerHour,
}

/// The unit of speed that a one-letter code names.
pub open spec fn speed_unit_of(s: Seq<char>) -> Option<UnitsOfSpeed> {
    if s.len() != 1 {
        None
    } else {
        match s[0] {
            'K' => Some(UnitsOfSpeed::KilometersPerHour),
            'M' => Some(UnitsOfSpeed::MetresPerSecond),
            'N' => Some(UnitsOfSpeed::Knots),
            'S' => Some(UnitsOfSpeed::StatuteMilesPerHour),
            _ => None,
        }
    }
}

impl UnitsOfSpeed {
    /// The unit that the code `c` names, if any.
    pub fn from_char(c: &str) -> (r: Option<Self>)
        ensures
            r == speed_unit_of(c@),
    {
        match single_char(c) {
            Some('K') => Some(Self::KilometersPerHour),
            Some('M') => Some(Self::MetresPerSecond),
            Some('N') => Some(Self::Knots),
            Some('S') => Some(Self::StatuteMilesPerHour),
            _ => None,
        }
    }
}

/// Units in which a transducer reports a measurement.
#[derive(Debug, Clone, Copy, PartialEq, Eq, Structural)]
pub enum UnitsOfMeasurement {
    Amperes,
    Bar,
    Celsius,
    Degrees,
    Hertz,
    Kelvin,
    LitresPerSecond,
    Meter,
    Newton,
    PartsPerThousand,
    Percent,
    Volts,
}

/// The unit of measurement that a one-letter code names.
pub open spec fn measurement_unit_of(s: Seq<char>) -> Option<UnitsOfMeasurement> {
    if s.len() != 1 {
        None
    } else {
        match s[0] {
            'A' => Some(UnitsOfMeasurement::Amperes),
            'B' => Some(UnitsOfMeasurement::Bar),
            'C' => Some(UnitsOfMeasurement::Celsius),
            'D' => Some(UnitsOfMeasurement::Degrees),
            'H' => Some(UnitsOfMeasurement::Hertz),
            'I' => Some(UnitsOfMeasurement::LitresPerSecond),
            'K' => Some(UnitsOfMeasurement::Kelvin),
            'M' => Some(UnitsOfMeasurement::Meter),
            'N' => Some(UnitsOfMeasurement::Newton),
            'P' => Some(UnitsOfMeasurement::Percent),
            'S' => Some(UnitsOfMeasurement::PartsPerThousand),
            'V' => Some(UnitsOfMeasurement::Volts),
            _ => None,
        }
    }
}

impl UnitsOfMeasurement {
    /// The unit that the code `c` names, if any.
    pub fn from_char(c: &str) -> (r: Option<Self>)
        ensures
            r == measurement_unit_of(c@),
    {
        match single_char(c) {
            Some('A') => Some(Self::Amperes),
            Some('B') => Some(Self::Bar),
            Some('C') => Some(Self::Celsius),
            Some('D') => Some(Self::Degrees),
            Some('H') => Some(Self::Hertz),
            Some('I') => Some(Self::LitresPerSecond),
            Some('K') => Some(Self::Kelvin),
            Some('M') => Some(Self::Meter),
            Some('N') => Some(Self::Newton),
            Some('P') => Some(Self::Percent),
            Some('S') => Some(Self::PartsPerThousand),
            Some('V') => Some(Self::Volts),
            _ => None,
        }
    }

    /// Reads a unit code that must name a unit.
    pub fn require(c: &str) -> (r: Result<Self, ParseNMEA0183Error>)
        ensures
            match measurement_unit_of(c@) {
                Some(u) => r == Ok::<Self, ParseNMEA0183Error>(u),
                None => r matches Err(e) && e@ == ParseErrorModel::UnrecognizedCode(c@),
            },
    {
        match Self::from_char(c) {
            Some(u) => Ok(u),
            None => Err(ParseNMEA0183Error::unrecognized(c)),
        }
    }
}

/// A generic sensor measurement: a value, its unit and the transducer's name, each of which
/// may be absent.
#[derive(Debug, Clone)]
pub struct Reading {
    pub reading: Option<Decimal>,
    pub units: Option<UnitsOfMeasurement>,
    pub name: Option<String>,
}

impl Reading {
    /// Whether this reading holds exactly the given value, unit and name.
    pub open spec fn holds(
        self,
        reading: Option<Decimal>,
        units: Option<UnitsOfMeasurement>,
        name: Option<Seq<char>>,
    ) -> bool {
        &&& self.reading == reading
        &&& self.units == units
        &&& match (self.name, name) {
            (Some(a), Some(b)) => a@ == b,
            (None, None) => true,
            _ => false,
        }
    }
}

/// A measurement together with the kind of transducer that made it.
///
/// [`TransducerReading::from_nmea`] gives the kind that a code selects; the code `H`
/// (relative humidity, reported in percent) is read as a pressure reading, so no code
/// selects `Humidity`, which remains for readings that callers build themselves.
#[derive(Debug, Clone)]
pub enum TransducerReading {
    AngularDisplacement(Reading),
    Temperature(Reading),
    Depth(Reading),
    Frequency(Reading),
    Humidity(Reading),
    Force(Reading),
    Pressure(Reading),
    Flow(Reading),
}

/// The reading that a transducer code selects, holding `r`: `A` angular displacement,
/// `C` temperature, `D` depth, `F` frequency, `H` and `P` pressure, `N` force, `R` flow.
pub open spec fn transducer_of(s: Seq<char>, r: Reading) -> Option<TransducerReading> {
    if s.len() != 1 {
        None
    } else {
        match s[0] {
            'A' => Some(TransducerReading::AngularDisplacement(r)),
            'C' => Some(TransducerReading::Temperature(r)),
            'D' => Some(TransducerReading::Depth(r)),
            'F' => Some(TransducerReading::Frequency(r)),
            'H' => Some(TransducerReading::Pressure(r)),
            'N' => Some(TransducerReading::Force(r)),
            'P' => Some(TransducerReading::Pressure(r)),
            'R' => Some(TransducerReading::Flow(r)),
            _ => None,
        }
    }
}

/// Whether `s` is the one-letter code of a transducer kind.
pub open spec fn is_transducer_code(s: Seq<char>) -> bool {
    s.len() == 1 && (s[0] == 'A' || s[0] == 'C' || s[0] == 'D' || s[0] == 'F' || s[0] == 'H'
        || s[0] == 'N' || s[0] == 'P' || s[0] == 'R')
}

impl TransducerReading {
    /// The measurement itself.
    pub open spec fn measurement(self) -> Reading {
        match self {
            TransducerReading::AngularDisplacement(r) => r,
            TransducerReading::Temperature(r) => r,
            TransducerReading::Depth(r) => r,
            TransducerReading::Frequency(r) => r,
            TransducerReading::Humidity(r) => r,
            TransducerReading::Force(r) => r,
            TransducerReading::Pressure(r) => r,
            TransducerReading::Flow(r) => r,
        }
    }

    /// The reading of the transducer kind that the code `c` names, if any.
    pub fn from_nmea(c: &str, reading: Reading) -> (r: Option<Self>)
        ensures
            r == transducer_of(c@, reading),
            r is Some <==> is_transducer_code(c@),
    {
        match single_char(c) {
            Some('A') => Some(Self::AngularDisplacement(reading)),
            Some('C') => Some(Self::Temperature(reading)),
            Some('D') => Some(Self::Depth(reading)),
            Some('F') => Some(Self::Frequency(reading)),
            Some('H') => Some(Self::Pressure(reading)),
            Some('N') => Some(Self::Force(reading)),
            Some('P') => Some(Self::Pressure(reading)),
            Some('R') => Some(Self::Flow(reading)),
            _ => None,
        }
    }
}

/// The fixed unit of a [`Quantity`].
#[derive(Debug, Clone, Copy, PartialEq, Eq, Structural)]
pub enum QuantityUnit {
    MetresPerSecondSquared,
    DegreesPerSecond,
    Degrees,
    Metres,
    Seconds,
}

/// A number tagged with its unit.
#[derive(Debug, Clone, Copy, PartialEq, Eq, Structural)]
pub struct Quantity {
    pub value: Decimal,
    pub unit: QuantityUnit,
}

/// A field read leniently as a quantity in `unit`: absent when it is not a number.
pub open spec fn quantity_of(s: Seq<char>, unit: QuantityUnit) -> Option<Quantity> {
    match decimal_of(s) {
        Some(v) => Some(Quantity { value: v, unit }),
        None => None,
    }
}

/// Reads a field leniently as a quantity in `unit`.
pub fn parse_quantity(s: &str, unit: QuantityUnit) -> (r: Option<Quantity>)
    ensures
        r == quantity_of(s@, unit),
{
    match parse_decimal(s) {
        Some(v) => Some(Quantity { value: v, unit }),
        None => None,
    }
}

/// Reads a field that must be a decimal number.
pub fn require_decimal(s: &str) -> (r: Result<Decimal, ParseNMEA0183Error>)
    ensures
        match decimal_of(s@) {
            Some(v) => r matches Ok(x) && x == v,
            None => r matches Err(e) && e@ == ParseErrorModel::NumericFormatError,
        },
{
    match parse_decimal(s) {
        Some(v) => Ok(v),
        None => Err(ParseNMEA0183Error::NumericFormatError),
    }
}

/// Whether each of the fields `f[from..to]` is a decimal number.
pub open spec fn all_decimals(f: Seq<Seq<char>>, from: int, to: int) -> bool {
    forall|i: int| from <= i < to ==> (#[trigger] decimal_of(f[i])) is Some
}

/// Reads the fields `fields[from..to]`, each of which must be a decimal number.
pub fn require_decimals(fields: &Vec<String>, from: usize, to: usize) -> (r: Result<
    Vec<Decimal>,
    ParseNMEA0183Error,
>)
    requires
        from <= to <= fields@.len(),
    ensures
        match r {
            Ok(v) => {
                &&& all_decimals(string_views(fields@), from as int, to as int)
                &&& v@.len() == to - from
                &&& forall|i: int| 0 <= i < v@.len() ==> Some(#[trigger] v@[i]) == decimal_of(string_views(fields@)[from + i])
            },
            Err(e) => !all_decimals(string_views(fields@), from as int, to as int) && e@
                == ParseErrorModel::NumericFormatError,
        },
{
    let ghost f = string_views(fields@);
    let mut values: Vec<Decimal> = Vec::new();
    let mut i = from;
    while i < to
        invariant
            from <= i <= to <= fields@.len(),
            f == string_views(fields@),
            all_decimals(f, from as int, i as int),
            values@.len() == i - from,
            forall|j: int| 0 <= j < values@.len() ==> Some(#[trigger] values@[j]) == decimal_of(f[from + j]),
        decreases to - i,
    {
        match parse_decimal(fields[i].as_str()) {
            Some(v) => values.push(v),
            None => {
                assert(decimal_of(f[i as int]) is None);
                return Err(ParseNMEA0183Error::NumericFormatError);
            },
        }
        i += 1;
    }
    Ok(values)
}

} // verus!
