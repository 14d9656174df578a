//! Temperature unit conversion: unit selectors with short aliases,
//! case-insensitive token parsing, a default-input inference rule, and
//! selection of the linear formula for each ordered pair of units.

pub mod conversion;
pub mod unit;
