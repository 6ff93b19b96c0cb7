use vstd::prelude::*;
use crate::de::conversion_error::{ConversionError, ConversionFault};
use crate::de::db_value::DbValue;
use crate::de::deserialization_error::{
    impl_err, outcome, typed_outcome, DecodeFault, DeserializationError, NESTED_COMPOSITE,
    NESTED_STRUCT,
};
use crate::de::shape::Shape;
use crate::de::value::{Datum, Value};

verus! {

/// What one column value decodes to, for a requested shape.
///
/// A primitive, a string or a byte sequence is the value's own conversion.
/// An optional is absent where the value is null, and else wraps what the
/// value decodes to for the wrapped shape. A wrapper decodes as what it
/// wraps. One column cannot hold a composite shape, and for the shapes
/// without a row representation the refused request is reported.
pub open spec fn cell_result<V: DbValue>(v: V, shape: Shape) -> Result<Datum, DecodeFault>
    decreases shape,
{
    match shape {
        Shape::Bool => match v.as_bool() {
            Ok(x) => Ok(Datum::Bool(x)),
            Err(e) => Err(DecodeFault::Conversion(e)),
        },
        Shape::U8 => match v.as_u8() {
            Ok(x) => Ok(Datum::U8(x)),
            Err(e) => Err(DecodeFault::Conversion(e)),
        },
        Shape::U16 => match v.as_u16() {
            Ok(x) => Ok(Datum::U16(x)),
            Err(e) => Err(DecodeFault::Conversion(e)),
        },
        Shape::U32 => match v.as_u32() {
            Ok(x) => Ok(Datum::U32(x)),
            Err(e) => Err(DecodeFault::Conversion(e)),
        },
        Shape::U64 => match v.as_u64() {
            Ok(x) => Ok(Datum::U64(x)),
            Err(e) => Err(DecodeFault::Conversion(e)),
        },
        Shape::I8 => match v.as_i8() {
            Ok(x) => Ok(Datum::I8(x)),
            Err(e) => Err(DecodeFault::Conversion(e)),
        },
        Shape::I16 => match v.as_i16() {
            Ok(x) => Ok(Datum::I16(x)),
            Err(e) => Err(DecodeFault::Conversion(e)),
        },
        Shape::I32 => match v.as_i32() {
            Ok(x) => Ok(Datum::I32(x)),
            Err(e) => Err(DecodeFault::Conversion(e)),
        },
        Shape::I64 => match v.as_i64() {
            Ok(x) => Ok(Datum::I64(x)),
            Err(e) => Err(DecodeFault::Conversion(e)),
        },
        Shape::Str => match v.as_text() {
            Ok(x) => Ok(Datum::Str(x)),
            Err(e) => Err(DecodeFault::Conversion(e)),
        },
        Shape::Bytes => match v.as_bytes() {
            Ok(x) => Ok(Datum::Bytes(x)),
            Err(e) => Err(DecodeFault::Conversion(e)),
        },
        Shape::Optional(inner) => if v.null() {
            Ok(Datum::Absent)
        } else {
            match cell_result(v, *inner) {
                Ok(x) => Ok(Datum::Present(Box::new(x))),
                Err(e) => Err(e),
            }
        },
        Shape::Newtype(inner) => cell_result(v, *inner),
        Shape::Sequence(_) | Shape::Tuple(_) => Err(DecodeFault::Usage(NESTED_COMPOSITE@)),
        Shape::Struct(_) => Err(DecodeFault::Usage(NESTED_STRUCT@)),
        _ => Err(DecodeFault::NotImplemented(shape.cell_label())),
    }
}

/// The outcome of a conversion as the outcome of a decoding step.
pub open spec fn failing<T>(r: Result<T, ConversionFault>) -> Result<T, DecodeFault> {
    match r {
        Ok(x) => Ok(x),
        Err(e) => Err(DecodeFault::Conversion(e)),
    }
}

/// A conversion failure as a decoding error.
pub fn conversion_failed(e: ConversionError) -> (r: DeserializationError)
    ensures
        r@ == DecodeFault::Conversion(e@),
{
    DeserializationError::ConversionError(e)
}

/// Decodes one column value, taken out of its row, by direct conversion.
pub struct FieldDeserializer<V> {
    value: V,
}

impl<V: DbValue> FieldDeserializer<V> {
    /// The column value to decode.
    pub closed spec fn value(self) -> V {
        self.value
    }

    pub fn new(value: V) -> (d: Self)
        ensures
            d.value() == value,
    {
        FieldDeserializer { value }
    }

    /// Converts the value into a `bool`.
    pub fn deserialize_bool(self) -> (r: Result<bool, DeserializationError>)
        ensures
            typed_outcome(r) == failing(self.value().as_bool()),
    {
        match self.value.into_bool() {
            Ok(x) => Ok(x),
            Err(e) => Err(conversion_failed(e)),
        }
    }

    /// Converts the value into a `u8`.
    pub fn deserialize_u8(self) -> (r: Result<u8, DeserializationError>)
        ensures
            typed_outcome(r) == failing(self.value().as_u8()),
    {
        match self.value.into_u8() {
            Ok(x) => Ok(x),
            Err(e) => Err(conversion_failed(e)),
        }
    }

    /// Converts the value into a `u16`.
    pub fn deserialize_u16(self) -> (r: Result<u16, DeserializationError>)
        ensures
            typed_outcome(r) == failing(self.value().as_u16()),
    {
        match self.value.into_u16() {
            Ok(x) => Ok(x),
            Err(e) => Err(conversion_failed(e)),
        }
    }

    /// Converts the value into a `u32`.
    pub fn deserialize_u32(self) -> (r: Result<u32, DeserializationError>)
        ensures
            typed_outcome(r) == failing(self.value().as_u32()),
    {
        match self.value.into_u32() {
            Ok(x) => Ok(x),
            Err(e) => Err(conversion_failed(e)),
        }
    }

    /// Converts the value into a `u64`.
    pub fn deserialize_u64(self) -> (r: Result<u64, DeserializationError>)
        ensures
            typed_outcome(r) == failing(self.value().as_u64()),
    {
        match self.value.into_u64() {
            Ok(x) => Ok(x),
            Err(e) => Err(conversion_failed(e)),
        }
    }

    /// Converts the value into a `i8`.
    pub fn deserialize_i8(self) -> (r: Result<i8, DeserializationError>)
        ensures
            typed_outcome(r) == failing(self.value().as_i8()),
    {
        match self.value.into_i8() {
            Ok(x) => Ok(x),
            Err(e) => Err(conversion_failed(e)),
        }
    }

    /// Converts the value into a `i16`.
    pub fn deserialize_i16(self) -> (r: Result<i16, DeserializationError>)
        ensures
            typed_outcome(r) == failing(self.value().as_i16()),
    {
        match self.value.into_i16() {
            Ok(x) => Ok(x),
            Err(e) => Err(conversion_failed(e)),
        }
    }

    /// Converts the value into a `i32`.
    pub fn deserialize_i32(self) -> (r: Result<i32, DeserializationError>)
        ensures
            typed_outcome(r) == failing(self.value().as_i32()),
    {
        match self.value.into_i32() {
            Ok(x) => Ok(x),
            Err(e) => Err(conversion_failed(e)),
        }
    }

    /// Converts the value into a `i64`.
    pub fn deserialize_i64(self) -> (r: Result<i64, DeserializationError>)
        ensures
            typed_outcome(r) == failing(self.value().as_i64()),
    {
        match self.value.into_i64() {
            Ok(x) => Ok(x),
            Err(e) => Err(conversion_failed(e)),
        }
    }

    /// Converts the value into a string.
    pub fn deserialize_string(self) -> (r: Result<String, DeserializationError>)
        ensures
            outcome(r) == failing(self.value().as_text()),
    {
        match self.value.into_string() {
            Ok(x) => Ok(x),
            Err(e) => Err(conversion_failed(e)),
        }
    }

    /// Converts the value into a byte sequence.
    pub fn deserialize_byte_buf(self) -> (r: Result<Vec<u8>, DeserializationError>)
        ensures
            outcome(r) == failing(self.value().as_bytes()),
    {
        match self.value.into_bytes() {
            Ok(x) => Ok(x),
            Err(e) => Err(conversion_failed(e)),
        }
    }

    /// Decodes the value as an optional of the given shape.
    pub fn deserialize_option(self, inner: &Shape) -> (r: Result<Value, DeserializationError>)
        ensures
            outcome(r) == cell_result(self.value(), Shape::Optional(Box::new(*inner))),
        decreases *inner, 1nat,
    {
        if self.value.is_null() {
            Ok(Value::Absent)
        } else {
            match self.deserialize(inner) {
                Ok(x) => Ok(Value::Present(Box::new(x))),
                Err(e) => Err(e),
            }
        }
    }

    /// Decodes the value as the given shape.
    pub fn deserialize(self, shape: &Shape) -> (r: Result<Value, DeserializationError>)
        ensures
            outcome(r) == cell_result(self.value(), *shape),
        decreases *shape, 0nat,
    {
        match shape {
            Shape::Bool => match self.deserialize_bool() {
                Ok(x) => Ok(Value::Bool(x)),
                Err(e) => Err(e),
            },
            Shape::U8 => match self.deserialize_u8() {
                Ok(x) => Ok(Value::U8(x)),
                Err(e) => Err(e),
            },
            Shape::U16 => match self.deserialize_u16() {
                Ok(x) => Ok(Value::U16(x)),
                Err(e) => Err(e),
            },
            Shape::U32 => match self.deserialize_u32() {
                Ok(x) => Ok(Value::U32(x)),
                Err(e) => Err(e),
            },
            Shape::U64 => match self.deserialize_u64() {
                Ok(x) => Ok(Value::U64(x)),
                Err(e) => Err(e),
            },
            Shape::I8 => match self.deserialize_i8() {
                Ok(x) => Ok(Value::I8(x)),
                Err(e) => Err(e),
            },
            Shape::I16 => match self.deserialize_i16() {
                Ok(x) => Ok(Value::I16(x)),
                Err(e) => Err(e),
            },
            Shape::I32 => match self.deserialize_i32() {
                Ok(x) => Ok(Value::I32(x)),
                Err(e) => Err(e),
            },
            Shape::I64 => match self.deserialize_i64() {
                Ok(x) => Ok(Value::I64(x)),
                Err(e) => Err(e),
            },
            Shape::Str => match self.deserialize_string() {
                Ok(x) => Ok(Value::Str(x)),
                Err(e) => Err(e),
            },
            Shape::Bytes => match self.deserialize_byte_buf() {
                Ok(x) => Ok(Value::Bytes(x)),
                Err(e) => Err(e),
            },
            Shape::Optional(inner) => self.deserialize_option(inner),
            Shape::Newtype(inner) => self.deserialize(inner),
            Shape::Sequence(_) | Shape::Tuple(_) => Err(impl_err(NESTED_COMPOSITE)),
            Shape::Struct(_) => Err(impl_err(NESTED_STRUCT)),
            Shape::Char => Err(
                DeserializationError::NotImplemented("FieldDeserializer::deserialize_char()"),
            ),
            Shape::Unit => Err(
                DeserializationError::NotImplemented("FieldDeserializer::deserialize_unit()"),
            ),
            Shape::Dictionary => Err(
                DeserializationError::NotImplemented("FieldDeserializer::deserialize_map()"),
            ),
            Shape::UnitStruct => Err(
                DeserializationError::NotImplemented(
                    "FieldDeserializer::deserialize_unit_struct()",
                ),
            ),
            Shape::TupleStruct => Err(
                DeserializationError::NotImplemented(
                    "FieldDeserializer::deserialize_tuple_struct()",
                ),
            ),
            Shape::Enum => Err(
                DeserializationError::NotImplemented("FieldDeserializer::deserialize_enum()"),
            ),
        }
    }
}

} // verus!
