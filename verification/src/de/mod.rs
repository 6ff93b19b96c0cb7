//! The decoding direction: from a row to a typed value.
use vstd::prelude::*;
use crate::de::deserializable_row::{row_wf, DeserializableRow};
use crate::de::deserialization_error::{outcome, DeserializationError};
use crate::de::row_deserializer::RowDeserializer;
use crate::de::semantics::{decode_result, initial_mode};
use crate::de::shape::Shape;
use crate::de::value::Decoded;

pub mod conversion_error;
pub mod db_value;
pub mod deserializable_row;
pub mod deserialization_error;
pub mod field_deserializer;
pub mod laws;
pub mod memory;
pub mod row_deserializer;
pub mod semantics;
pub mod shape;
pub mod target;
pub mod value;

verus! {

/// Decodes a row into a value of the requested shape.
///
/// The row is used up by the decoding, whether it succeeds or fails.
pub fn decode<R: DeserializableRow>(row: R, shape: &Shape) -> (r: Result<
    Decoded,
    DeserializationError,
>)
    requires
        row_wf(row),
    ensures
        outcome(r) == decode_result(row, initial_mode(row), *shape),
{
    let mut de = RowDeserializer::new(row);
    de.deserialize(shape)
}

} // verus!
