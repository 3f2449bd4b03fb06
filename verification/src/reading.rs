//! Raw sensor readings and how they become property values.

use vstd::prelude::*;

verus! {

/// Why the producer could not hand over a reading.
#[derive(Clone, Copy, Debug, PartialEq, Eq, Structural)]
pub enum ProducerError {
    /// The sensor could not be reached at all.
    Unreachable,
    /// The sensor was reached, but the transfer failed.
    TransientFault,
}

/// One raw reading, in the integer units in which the sensor reports.
#[derive(Clone, Copy, Debug, PartialEq, Eq, Structural)]
pub struct Reading {
    /// Hundredths of a degree Celsius.
    pub temperature: i16,
    /// Pascal, that is, hundredths of a hectopascal.
    pub pressure: u32,
    /// Thousandths of a percent of relative humidity.
    pub humidity: u32,
    /// Ohm.
    pub gas_resistance: u32,
}

/// The field of a reading that a property shows.
#[derive(Clone, Copy, Debug, PartialEq, Eq, Structural)]
pub enum Quantity {
    /// Degrees Celsius.
    Temperature,
    /// Hectopascal.
    Pressure,
    /// Percent of relative humidity.
    Humidity,
    /// Ohm.
    GasResistance,
}

/// The chosen field of `reading` in thousandths of the quantity's unit.
pub open spec fn scaled(reading: Reading, quantity: Quantity) -> int {
    match quantity {
        Quantity::Temperature => reading.temperature * 10,
        Quantity::Pressure => reading.pressure * 10,
        Quantity::Humidity => reading.humidity as int,
        Quantity::GasResistance => reading.gas_resistance * 1000,
    }
}

/// `raw` where it lies between the bounds, else the bound nearest to it.
pub open spec fn clamped(raw: int, minimum: int, maximum: int) -> int {
    if raw < minimum {
        minimum
    } else if raw > maximum {
        maximum
    } else {
        raw
    }
}

/// Between ordered bounds, clamping lands within them, leaves alone what is
/// within them already, and so changes nothing when done twice.
pub proof fn lemma_clamped(raw: int, minimum: int, maximum: int)
    requires
        minimum <= maximum,
    ensures
        minimum <= clamped(raw, minimum, maximum) <= maximum,
        minimum <= raw <= maximum ==> clamped(raw, minimum, maximum) == raw,
        clamped(clamped(raw, minimum, maximum), minimum, maximum) == clamped(raw, minimum, maximum),
{
}

/// The chosen field of `reading`, brought to thousandths of its unit.
pub fn transform(reading: &Reading, quantity: Quantity) -> (value: i64)
    ensures
        value == scaled(*reading, quantity),
{
    match quantity {
        Quantity::Temperature => {
            let centi: i64 = reading.temperature as i64;
            centi * 10
        },
        Quantity::Pressure => {
            let pascal: i64 = reading.pressure as i64;
            pascal * 10
        },
        Quantity::Humidity => reading.humidity as i64,
        Quantity::GasResistance => {
            let ohm: i64 = reading.gas_resistance as i64;
            ohm * 1000
        },
    }
}

/// `raw`, or the bound nearest to it where it lies outside the bounds.
pub fn clamp(raw: i64, minimum: i64, maximum: i64) -> (value: i64)
    ensures
        value == clamped(raw as int, minimum as int, maximum as int),
        minimum <= maximum ==> minimum <= value <= maximum,
{
    if raw < minimum {
        minimum
    } else if raw > maximum {
        maximum
    } else {
        raw
    }
}

} // verus!
