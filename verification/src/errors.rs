//! Failure kinds of the reconstruction engine.

use vstd::prelude::*;

verus! {

/// What can go wrong while turning a text blob into records.  Every failure
/// is terminal for one parse invocation: the engine never returns a partial
/// record list.
#[derive(Debug, Clone, Copy, PartialEq, Eq, Structural)]
pub enum ParseSouthLawPropertiesError {
    /// The text blob handed to the noise filter was empty.
    EmptyInputError,
    /// Filtering removed every line: the document was well formed but held
    /// no extractable records.
    NoValidDataError,
    /// Reserved for structural content that fails a sanity check; no check
    /// of the current engine raises it.
    UnexpectedContentError,
}

impl ParseSouthLawPropertiesError {
    /// A human-readable reason string, for callers that surface failures
    /// outward.
    pub fn message(&self) -> (r: &'static str)
        ensures
            r@ == match self {
                ParseSouthLawPropertiesError::EmptyInputError => "Empty input error"@,
                ParseSouthLawPropertiesError::NoValidDataError => "No valid data found in the input"@,
                ParseSouthLawPropertiesError::UnexpectedContentError => "Unexpected content encountered in data"@,
            },
    {
        match self {
            ParseSouthLawPropertiesError::EmptyInputError => "Empty input error",
            ParseSouthLawPropertiesError::NoValidDataError => "No valid data found in the input",
            ParseSouthLawPropertiesError::UnexpectedContentError => "Unexpected content encountered in data",
        }
    }
}

} // verus!
