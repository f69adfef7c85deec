use vstd::prelude::*;
use vstd::string::StringExecFns;

verus! {

/// What can go wrong when building a [`crate::TinyId`] from an outside representation.
#[derive(Clone, Debug, PartialEq, Eq, PartialOrd, Ord, Hash)]
pub enum TinyIdError {
    /// The text did not hold exactly eight bytes.
    InvalidLength,
    /// Some byte lies outside the alphabet (or the value is the null identifier).
    InvalidCharacters,
    /// A lower-level conversion failed; holds its message.
    Conversion(String),
    /// Generation failed. The generator in this crate cannot fail; the variant
    /// is kept for strategies that might.
    GenerationFailure,
}

/// The human-readable message of an error.
pub open spec fn message(e: TinyIdError) -> Seq<char> {
    match e {
        TinyIdError::InvalidLength => "Invalid length"@,
        TinyIdError::InvalidCharacters => "Invalid characters"@,
        TinyIdError::Conversion(s) => "Conversion error: "@ + s@,
        TinyIdError::GenerationFailure => "TinyId generation failed"@,
    }
}

impl TinyIdError {
    /// Renders the error as a human-readable message.
    pub fn to_string(&self) -> (r: String)
        ensures
            r@ == message(*self),
    {
        match self {
            TinyIdError::InvalidLength => String::from_str("Invalid length"),
            TinyIdError::InvalidCharacters => String::from_str("Invalid characters"),
            TinyIdError::Conversion(s) => String::from_str("Conversion error: ").concat(s.as_str()),
            TinyIdError::GenerationFailure => String::from_str("TinyId generation failed"),
        }
    }
}

} // verus!
