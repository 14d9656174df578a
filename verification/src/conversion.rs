//! Selection of the conversion formula for a pair of unit selectors: the
//! default-input inference rule, the six-entry formula table, and the plan
//! that strings them together.

use vstd::prelude::*;
use crate::unit::TemperatureUnit;
use crate::unit::spec_long_form;
use crate::unit::long_form;

verus! {

/// The linear formula to apply to a value, one variant per ordered pair of
/// distinct canonical units, plus the identity passthrough for every other
/// pair (the same unit on both sides, or a pair the table does not list).
///
/// The numeric work itself is carried out by the caller on its own floating
/// point values; each variant names exactly one formula:
/// `FahrenheitToCelsius` subtracts thirty-two, then scales by five ninths;
/// `FahrenheitToKelvin` does the same and then adds the offset between the
/// Celsius and Kelvin scales; `CelsiusToFahrenheit` scales by nine fifths and
/// adds thirty-two; `CelsiusToKelvin` adds the offset; `KelvinToFahrenheit`
/// subtracts the offset, then subtracts thirty-two, then scales by nine
/// fifths (deliberately so, to keep this tool's established output for that
/// pair); `KelvinToCelsius` subtracts the offset; `Identity` returns the
/// value unchanged.
#[derive(Debug, Clone, Copy, PartialEq, Eq, Structural)]
pub enum Conversion {
    FahrenheitToCelsius,
    FahrenheitToKelvin,
    CelsiusToFahrenheit,
    CelsiusToKelvin,
    KelvinToFahrenheit,
    KelvinToCelsius,
    Identity,
}

/// The effective input unit: when the requested output unit is Fahrenheit or
/// its alias, the input unit is forced to Celsius, overriding whatever was
/// requested; otherwise the requested input unit stands. This keeps a bare
/// request for Fahrenheit output meaningful (Celsius to Fahrenheit) instead
/// of degenerating into a Fahrenheit-to-Fahrenheit no-op.
pub open spec fn spec_effective_input(to: TemperatureUnit, from: TemperatureUnit) -> TemperatureUnit {
    match to {
        TemperatureUnit::Fahrenheit | TemperatureUnit::F => TemperatureUnit::Celsius,
        _ => from,
    }
}

/// Apply the default-input inference rule: force the input unit to Celsius
/// whenever the output unit is Fahrenheit or its alias.
pub fn effective_input(to: TemperatureUnit, from: TemperatureUnit) -> (r: TemperatureUnit)
    ensures
        r == spec_effective_input(to, from),
{
    match to {
        TemperatureUnit::Fahrenheit | TemperatureUnit::F => TemperatureUnit::Celsius,
        _ => from,
    }
}

/// The formula table: each ordered pair of distinct canonical units selects
/// its formula; every other pair selects the identity passthrough.
pub open spec fn spec_conversion_for(from: TemperatureUnit, to: TemperatureUnit) -> Conversion {
    match (from, to) {
        (TemperatureUnit::Fahrenheit, TemperatureUnit::Celsius) => Conversion::FahrenheitToCelsius,
        (TemperatureUnit::Fahrenheit, TemperatureUnit::Kelvin) => Conversion::FahrenheitToKelvin,
        (TemperatureUnit::Celsius, TemperatureUnit::Fahrenheit) => Conversion::CelsiusToFahrenheit,
        (TemperatureUnit::Celsius, TemperatureUnit::Kelvin) => Conversion::CelsiusToKelvin,
        (TemperatureUnit::Kelvin, TemperatureUnit::Fahrenheit) => Conversion::KelvinToFahrenheit,
        (TemperatureUnit::Kelvin, TemperatureUnit::Celsius) => Conversion::KelvinToCelsius,
        _ => Conversion::Identity,
    }
}

/// Look a pair of units up in the formula table.
pub fn conversion_for(from: TemperatureUnit, to: TemperatureUnit) -> (r: Conversion)
    ensures
        r == spec_conversion_for(from, to),
{
    match (from, to) {
        (TemperatureUnit::Fahrenheit, TemperatureUnit::Celsius) => Conversion::FahrenheitToCelsius,
        (TemperatureUnit::Fahrenheit, TemperatureUnit::Kelvin) => Conversion::FahrenheitToKelvin,
        (TemperatureUnit::Celsius, TemperatureUnit::Fahrenheit) => Conversion::CelsiusToFahrenheit,
        (TemperatureUnit::Celsius, TemperatureUnit::Kelvin) => Conversion::CelsiusToKelvin,
        (TemperatureUnit::Kelvin, TemperatureUnit::Fahrenheit) => Conversion::KelvinToFahrenheit,
        (TemperatureUnit::Kelvin, TemperatureUnit::Celsius) => Conversion::KelvinToCelsius,
        _ => Conversion::Identity,
    }
}

/// The whole selection pipeline for one run: infer the effective input unit
/// from the requested output and input units, canonicalize both sides, and
/// look the canonical pair up in the formula table.
pub open spec fn spec_plan(to: TemperatureUnit, from: TemperatureUnit) -> Conversion {
    spec_conversion_for(
        spec_long_form(spec_effective_input(to, from)),
        spec_long_form(to),
    )
}

/// Select the conversion to perform for a requested output unit `to` and a
/// requested input unit `from`.
pub fn plan_conversion(to: TemperatureUnit, from: TemperatureUnit) -> (r: Conversion)
    ensures
        r == spec_plan(to, from),
{
    let input = effective_input(to, from);
    let f = long_form(&input);
    let t = long_form(&to);
    conversion_for(f, t)
}

/// Converting any unit to itself is the identity passthrough.
pub proof fn lemma_self_conversion_is_identity(u: TemperatureUnit)
    ensures
        spec_conversion_for(u, u) == Conversion::Identity,
{
}

/// A short alias on the output side behaves exactly as its long form: the
/// selected conversion is the same for every input unit.
pub proof fn lemma_alias_output_equivalent(to: TemperatureUnit, from: TemperatureUnit)
    ensures
        spec_plan(spec_long_form(to), from) == spec_plan(to, from),
{
}

/// A short alias on the input side behaves exactly as its long form: the
/// selected conversion is the same for every output unit.
pub proof fn lemma_alias_input_equivalent(to: TemperatureUnit, from: TemperatureUnit)
    ensures
        spec_plan(to, spec_long_form(from)) == spec_plan(to, from),
{
}

/// When the requested output unit is Fahrenheit or its alias, the requested
/// input unit is irrelevant: the inference rule overrides it, and the
/// selected conversion is always Celsius to Fahrenheit. In particular a run
/// that leaves the input unit at its default selects the same conversion as
/// one that requests Celsius, or any other unit, explicitly.
pub proof fn lemma_fahrenheit_output_forces_celsius_input(
    to: TemperatureUnit,
    from: TemperatureUnit,
)
    requires
        spec_long_form(to) == TemperatureUnit::Fahrenheit,
    ensures
        spec_plan(to, from) == Conversion::CelsiusToFahrenheit,
{
}

} // verus!
