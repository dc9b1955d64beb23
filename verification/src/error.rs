//! What can go wrong in the model.
use vstd::prelude::*;

verus! {

/// The one failure of the model that a caller can recover from.
#[derive(Clone, Copy, Debug, PartialEq, Eq, Structural)]
pub enum Error {
    /// The operation would have left some mass at or below zero kelvin.
    NonPositiveTemperature,
}

impl Error {
    /// The failure in words.
    pub fn message(&self) -> (message: &'static str)
        ensures
            message@ == "the operation left some mass with a temperature below zero Kelvin"@,
    {
        match self {
            Error::NonPositiveTemperature => {
                "the operation left some mass with a temperature below zero Kelvin"
            },
        }
    }
}

} // verus!
