//! The error of the card model.

use vstd::prelude::*;

verus! {

/// What can go wrong while a card is decoded.
#[derive(Debug, Clone, Copy, PartialEq, Eq, Structural)]
pub enum Error {
    /// The set or the number segment of a card code is not a decimal number
    /// of its width.
    MalformedCardCode,
}

impl Error {
    /// A short description of the error.
    pub fn message(&self) -> (text: &'static str)
        ensures
            text@ == "Invalid card code set"@,
    {
        "Invalid card code set"
    }
}

} // verus!
