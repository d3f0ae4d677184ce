//! Measurement units selected for the weather display, and their
//! human-readable renderings.

use vstd::prelude::*;

verus! {

/// Unit a wind speed is reported in.
#[derive(Clone, Debug)]
pub enum Speed {
    Kmh,
    Ms,
    Mph,
    Knots,
}

impl Speed {
    /// The rendering `stringify` returns, as a sequence of characters.
    pub open spec fn spec_stringify(&self) -> Seq<char> {
        match self {
            Speed::Kmh => "km/h"@,
            Speed::Ms => "m/s"@,
            Speed::Mph => "mp/h"@,
            Speed::Knots => "kn"@,
        }
    }

    /// Display form of the unit, as shown next to a wind speed.
    pub fn stringify(&self) -> (r: String)
        ensures
            r@ == self.spec_stringify(),
    {
        match self {
            Speed::Kmh => String::from_str("km/h"),
            Speed::Ms => String::from_str("m/s"),
            Speed::Mph => String::from_str("mp/h"),
            Speed::Knots => String::from_str("kn"),
        }
    }

    /// The rendering `to_string` returns, as a sequence of characters.
    pub open spec fn spec_to_string(&self) -> Seq<char> {
        match self {
            Speed::Kmh => "kmh"@,
            Speed::Ms => "ms"@,
            Speed::Mph => "mph"@,
            Speed::Knots => "kn"@,
        }
    }

    /// Identifier form of the unit, as used in configuration and queries.
    pub fn to_string(&self) -> (r: String)
        ensures
            r@ == self.spec_to_string(),
    {
        match self {
            Speed::Kmh => String::from_str("kmh"),
            Speed::Ms => String::from_str("ms"),
            Speed::Mph => String::from_str("mph"),
            Speed::Knots => String::from_str("kn"),
        }
    }
}

/// Unit a temperature is reported in.
#[derive(Clone, Debug)]
pub enum Temperature {
    Celsius,
    Fahrenheit,
}

impl Temperature {
    /// The rendering `to_string` returns, as a sequence of characters.
    pub open spec fn spec_to_string(&self) -> Seq<char> {
        match self {
            Temperature::Celsius => "°C"@,
            Temperature::Fahrenheit => "°F"@,
        }
    }

    /// Display form of the unit, as shown after a temperature value.
    pub fn to_string(&self) -> (r: String)
        ensures
            r@ == self.spec_to_string(),
    {
        match self {
            Temperature::Celsius => String::from_str("°C"),
            Temperature::Fahrenheit => String::from_str("°F"),
        }
    }
}

/// Unit a precipitation amount is reported in.
#[derive(Clone, Debug)]
pub enum Precipitation {
    Mm,
    Inch,
}

impl Precipitation {
    /// The rendering `to_string` returns, as a sequence of characters.
    pub open spec fn spec_to_string(&self) -> Seq<char> {
        match self {
            Precipitation::Mm => "mm"@,
            Precipitation::Inch => "inch"@,
        }
    }

    /// Display form of the unit, as shown after a precipitation amount.
    pub fn to_string(&self) -> (r: String)
        ensures
            r@ == self.spec_to_string(),
    {
        match self {
            Precipitation::Inch => String::from_str("inch"),
            Precipitation::Mm => String::from_str("mm"),
        }
    }
}

/// The full set of units the application displays weather data in.
#[derive(Clone, Debug)]
pub struct Units {
    pub speed: Speed,
    pub temperature: Temperature,
    pub precipitation: Precipitation,
}

impl Units {
    /// Bundles the three unit choices into one value.
    pub fn new(speed: Speed, temperature: Temperature, precipitation: Precipitation) -> (r: Self)
        ensures
            r.speed == speed,
            r.temperature == temperature,
            r.precipitation == precipitation,
    {
        Units { speed, temperature, precipitation }
    }
}

} // verus!
