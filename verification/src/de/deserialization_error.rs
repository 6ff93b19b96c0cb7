use vstd::prelude::*;
use crate::de::conversion_error::{ConversionError, ConversionFault};
use crate::de::value::{data, entries, FieldValue, Record, Value};

verus! {

/// Message of the usage error for a value requested from a row that has
/// none left.
pub const NO_MORE_VALUE: &'static str = "next_value(): no more value found in row";

/// Message of the usage error for a sequence or tuple requested where a
/// composite shape has been selected already.
pub const NESTED_COMPOSITE: &'static str =
    "double-nesting (struct/tuple in struct/tuple) not possible";

/// Message of the usage error for a structure requested where a composite
/// shape has been selected already.
pub const NESTED_STRUCT: &'static str = "double-nesting (struct in struct) not possible";

/// Message of the usage error for a field identifier requested from a row
/// that has no value left.
pub const EMPTY_ROW: &'static str = "empty row in RowDeserializer::deserialize_identifier()";

/// Message of the usage error for a column that has no name.
pub const NO_FIELDNAME: &'static str = "no fieldname in RowDeserializer::deserialize_identifier()";

/// Message of the usage error for a field's value requested from a row that
/// has no value left.
pub const NO_FIELD_VALUE: &'static str = "FieldsMapVisitor::next_value_seed(): no more value";

/// The name reported for an unknown field whose column has no name.
pub const PLACEHOLDER: &'static str = "unknown";

/// What can go wrong while a row is decoded.
#[derive(Debug, PartialEq, Eq)]
pub enum DeserializationError {
    /// A column value could not be converted into the requested type.
    ConversionError(ConversionError),
    /// The requested shape has no representation in a row.
    NotImplemented(&'static str),
    /// A column has no corresponding field in the target structure.
    UnknownField(String),
    /// A bare scalar was requested from a row with more than one column.
    TrailingCols,
    /// The decoder was used in a way that a flat row does not allow.
    Usage(String),
}

/// The mathematical content of a [`DeserializationError`].
pub enum DecodeFault {
    Conversion(ConversionFault),
    NotImplemented(Seq<char>),
    UnknownField(Seq<char>),
    TrailingCols,
    Usage(Seq<char>),
}

impl View for DeserializationError {
    type V = DecodeFault;

    open spec fn view(&self) -> DecodeFault {
        match self {
            DeserializationError::ConversionError(e) => DecodeFault::Conversion(e@),
            DeserializationError::NotImplemented(s) => DecodeFault::NotImplemented(s@),
            DeserializationError::UnknownField(s) => DecodeFault::UnknownField(s@),
            DeserializationError::TrailingCols => DecodeFault::TrailingCols,
            DeserializationError::Usage(s) => DecodeFault::Usage(s@),
        }
    }
}

/// A usage error with the given message.
pub fn impl_err(s: &'static str) -> (e: DeserializationError)
    ensures
        e@ == DecodeFault::Usage(s@),
{
    DeserializationError::Usage(s.to_owned())
}

/// The outcome of a decoding step whose value is its own model, with the
/// error taken by its view.
pub open spec fn typed_outcome<T>(r: Result<T, DeserializationError>) -> Result<T, DecodeFault> {
    match r {
        Ok(v) => Ok(v),
        Err(e) => Err(e@),
    }
}

/// The outcome of a request for a field identifier, taken by its view.
pub open spec fn identifier_outcome(r: Result<&String, DeserializationError>) -> Result<
    Seq<char>,
    DecodeFault,
> {
    match r {
        Ok(s) => Ok(s@),
        Err(e) => Err(e@),
    }
}

/// The outcome of a step that may find nothing left, taken by its view.
pub open spec fn optional_outcome<T: View>(r: Result<Option<T>, DeserializationError>) -> Result<
    Option<T::V>,
    DecodeFault,
> {
    match r {
        Ok(Some(v)) => Ok(Some(v@)),
        Ok(None) => Ok(None),
        Err(e) => Err(e@),
    }
}

/// The outcome of the decoding of a sequence or tuple, taken by its view.
pub open spec fn tuple_outcome(r: Result<Vec<Value>, DeserializationError>) -> Result<
    Record,
    DecodeFault,
> {
    match r {
        Ok(vs) => Ok(Record::Tuple(data(vs@))),
        Err(e) => Err(e@),
    }
}

/// The outcome of the decoding of a structure, taken by its view.
pub open spec fn struct_outcome(r: Result<Vec<FieldValue>, DeserializationError>) -> Result<
    Record,
    DecodeFault,
> {
    match r {
        Ok(fs) => Ok(Record::Struct(entries(fs@))),
        Err(e) => Err(e@),
    }
}

/// The outcome of a key step, with the position as a mathematical integer.
pub open spec fn key_outcome(r: Result<Option<usize>, DeserializationError>) -> Result<
    Option<int>,
    DecodeFault,
> {
    match r {
        Ok(Some(k)) => Ok(Some(k as int)),
        Ok(None) => Ok(None),
        Err(e) => Err(e@),
    }
}

/// The outcome of a decoding step, taken by its view.
pub open spec fn outcome<T: View>(r: Result<T, DeserializationError>) -> Result<T::V, DecodeFault> {
    match r {
        Ok(v) => Ok(v@),
        Err(e) => Err(e@),
    }
}

} // verus!
