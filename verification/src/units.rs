//! The units in which this crate counts physical quantities.
//!
//! Every quantity is a whole number of a small unit:
//!
//! | quantity    | one unit                    |
//! |-------------|-----------------------------|
//! | mass        | nanogram                    |
//! | temperature | nanokelvin                  |
//! | volume      | picolitre                   |
//! | pressure    | nanopascal                  |
//! | energy      | nanojoule                   |
//! | density     | picogram per cubic centimetre |
//! | area        | square millimetre           |
//!
//! With these, the gas law, the density law and the latent heat keep the
//! whole-number constants that they have in SI units. Masses, temperatures and
//! the volume of a container are `u64`; what is computed from them (the volume
//! of a body of water, a pressure, an energy) is `i128`. Every quotient is
//! rounded down.
use vstd::prelude::*;

verus! {

pub const NANOGRAMS_PER_KILOGRAM: u64 = 1_000_000_000_000;

pub const NANOKELVINS_PER_KELVIN: u64 = 1_000_000_000;

pub const PICOLITRES_PER_CUBIC_METRE: u64 = 1_000_000_000_000_000;

pub const NANOPASCALS_PER_PASCAL: u64 = 1_000_000_000;

pub const NANOJOULES_PER_JOULE: u64 = 1_000_000_000;

pub const SQUARE_MILLIMETRES_PER_SQUARE_METRE: u64 = 1_000_000;

/// The freezing point of water at atmospheric pressure, 273.15 K, which is
/// where the Celsius scale starts.
pub const ZERO_CELSIUS: u64 = 273_150_000_000;

/// No body of water is heavier than this: a thousand tonnes.
pub const MAX_MASS: u64 = 1_000_000_000_000_000_000;

/// No body of water is hotter than this: a hundred thousand kelvin.
pub const MAX_TEMPERATURE: u64 = 100_000_000_000_000;

/// No single exchange of heat is larger than this: ten petajoule.
pub const MAX_ENERGY: i128 = 10_000_000_000_000_000_000_000_000;

} // verus!
