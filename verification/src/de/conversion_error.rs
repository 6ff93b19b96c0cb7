use vstd::prelude::*;

verus! {

/// Why a single column value could not be turned into the requested type.
#[derive(Debug, PartialEq, Eq)]
pub enum ConversionError {
    /// The value's type cannot be represented in the requested type.
    ValueType(String),
    /// The value is a number outside the range of the requested type.
    NumberRange(String),
}

/// The mathematical content of a [`ConversionError`].
pub enum ConversionFault {
    ValueType(Seq<char>),
    NumberRange(Seq<char>),
}

impl View for ConversionError {
    type V = ConversionFault;

    open spec fn view(&self) -> ConversionFault {
        match self {
            ConversionError::ValueType(s) => ConversionFault::ValueType(s@),
            ConversionError::NumberRange(s) => ConversionFault::NumberRange(s@),
        }
    }
}

impl ConversionError {
    /// The message carried by the error.
    pub fn message(&self) -> (m: &String)
        ensures
            self@ matches ConversionFault::ValueType(s) ==> m@ == s,
            self@ matches ConversionFault::NumberRange(s) ==> m@ == s,
    {
        match self {
            ConversionError::ValueType(s) => s,
            ConversionError::NumberRange(s) => s,
        }
    }
}

} // verus!
