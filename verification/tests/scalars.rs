use serde_db::de::conversion_error::ConversionError;
use serde_db::de::decode;
use serde_db::de::deserializable_row::DeserializableRow;
use serde_db::de::deserialization_error::{DeserializationError, NO_MORE_VALUE};
use serde_db::de::memory::{Column, MemoryRow, MemoryValue, NOT_CONVERTIBLE, OUT_OF_RANGE};
use serde_db::de::row_deserializer::RowDeserializer;
use serde_db::de::shape::Shape;
use serde_db::de::value::{Decoded, Value};

fn column(name: &str, value: MemoryValue) -> Column {
    Column { name: Some(name.to_string()), value }
}

fn one(value: MemoryValue) -> MemoryRow {
    MemoryRow::new(vec![column("a", value)])
}

fn two() -> MemoryRow {
    MemoryRow::new(vec![column("a", MemoryValue::Int(1)), column("b", MemoryValue::Int(2))])
}

fn optional(inner: Shape) -> Shape {
    Shape::Optional(Box::new(inner))
}

#[test]
fn single_column_decodes_as_scalar() {
    let decoded = decode(one(MemoryValue::Int(42)), &Shape::I32).unwrap();
    assert_eq!(decoded, Decoded::Single(Value::I32(42)));
}

#[test]
fn single_column_decodes_as_every_scalar_kind() {
    assert_eq!(
        decode(one(MemoryValue::Bool(true)), &Shape::Bool),
        Ok(Decoded::Single(Value::Bool(true)))
    );
    assert_eq!(decode(one(MemoryValue::UInt(7)), &Shape::U8), Ok(Decoded::Single(Value::U8(7))));
    assert_eq!(
        decode(one(MemoryValue::UInt(700)), &Shape::U16),
        Ok(Decoded::Single(Value::U16(700)))
    );
    assert_eq!(
        decode(one(MemoryValue::Int(70_000)), &Shape::U32),
        Ok(Decoded::Single(Value::U32(70_000)))
    );
    assert_eq!(
        decode(one(MemoryValue::UInt(u64::MAX)), &Shape::U64),
        Ok(Decoded::Single(Value::U64(u64::MAX)))
    );
    assert_eq!(decode(one(MemoryValue::Int(-7)), &Shape::I8), Ok(Decoded::Single(Value::I8(-7))));
    assert_eq!(
        decode(one(MemoryValue::Int(-700)), &Shape::I16),
        Ok(Decoded::Single(Value::I16(-700)))
    );
    assert_eq!(
        decode(one(MemoryValue::UInt(5)), &Shape::I32),
        Ok(Decoded::Single(Value::I32(5)))
    );
    assert_eq!(
        decode(one(MemoryValue::Int(i64::MIN)), &Shape::I64),
        Ok(Decoded::Single(Value::I64(i64::MIN)))
    );
    assert_eq!(
        decode(one(MemoryValue::Text("abc".to_string())), &Shape::Str),
        Ok(Decoded::Single(Value::Str("abc".to_string())))
    );
}

#[test]
fn single_column_decodes_as_bytes() {
    assert_eq!(
        decode(one(MemoryValue::Bytes(vec![1, 2, 3])), &Shape::Bytes),
        Ok(Decoded::Single(Value::Bytes(vec![1, 2, 3])))
    );
}

#[test]
fn two_columns_refuse_a_bare_scalar() {
    assert_eq!(decode(two(), &Shape::I32), Err(DeserializationError::TrailingCols));
    assert_eq!(decode(two(), &Shape::Bytes), Err(DeserializationError::TrailingCols));
    assert_eq!(decode(two(), &optional(Shape::I32)), Err(DeserializationError::TrailingCols));
}

#[test]
fn empty_row_refuses_a_bare_scalar() {
    let row = MemoryRow::new(vec![]);
    assert_eq!(decode(row, &Shape::Bool), Err(DeserializationError::TrailingCols));
}

#[test]
fn null_column_decodes_as_absent() {
    assert_eq!(
        decode(one(MemoryValue::Null), &optional(Shape::I64)),
        Ok(Decoded::Single(Value::Absent))
    );
}

#[test]
fn value_decodes_as_present() {
    assert_eq!(
        decode(one(MemoryValue::Int(9)), &optional(Shape::I64)),
        Ok(Decoded::Single(Value::Present(Box::new(Value::I64(9)))))
    );
}

#[test]
fn optional_of_optional_wraps_twice() {
    assert_eq!(
        decode(one(MemoryValue::Text("x".to_string())), &optional(optional(Shape::Str))),
        Ok(
            Decoded::Single(
                Value::Present(Box::new(Value::Present(Box::new(Value::Str("x".to_string()))))),
            ),
        )
    );
    assert_eq!(
        decode(one(MemoryValue::Null), &optional(optional(Shape::Str))),
        Ok(Decoded::Single(Value::Absent))
    );
}

#[test]
fn present_value_that_does_not_convert_fails() {
    assert_eq!(
        decode(one(MemoryValue::Bool(true)), &optional(Shape::I64)),
        Err(
            DeserializationError::ConversionError(
                ConversionError::ValueType(NOT_CONVERTIBLE.to_string()),
            ),
        )
    );
}

#[test]
fn null_does_not_convert_into_a_scalar() {
    assert_eq!(
        decode(one(MemoryValue::Null), &Shape::I64),
        Err(
            DeserializationError::ConversionError(
                ConversionError::ValueType(NOT_CONVERTIBLE.to_string()),
            ),
        )
    );
}

#[test]
fn number_out_of_range_is_a_conversion_failure() {
    assert_eq!(
        decode(one(MemoryValue::Int(256)), &Shape::U8),
        Err(
            DeserializationError::ConversionError(
                ConversionError::NumberRange(OUT_OF_RANGE.to_string()),
            ),
        )
    );
    assert_eq!(
        decode(one(MemoryValue::Int(-1)), &Shape::U64),
        Err(
            DeserializationError::ConversionError(
                ConversionError::NumberRange(OUT_OF_RANGE.to_string()),
            ),
        )
    );
}

#[test]
fn newtype_decodes_as_what_it_wraps() {
    let shape = Shape::Newtype(Box::new(Shape::Newtype(Box::new(Shape::U16))));
    assert_eq!(decode(one(MemoryValue::Int(12)), &shape), Ok(Decoded::Single(Value::U16(12))));
    assert_eq!(decode(two(), &shape), Err(DeserializationError::TrailingCols));
}

#[test]
fn shapes_without_a_row_representation_are_not_implemented() {
    let cases = vec![
        (Shape::Char, "RowDeserializer::deserialize_char()!"),
        (Shape::Unit, "RowDeserializer::deserialize_unit()"),
        (Shape::Dictionary, "RowDeserializer::deserialize_map()"),
        (Shape::UnitStruct, "RowDeserializer::deserialize_unit_struct()"),
        (Shape::TupleStruct, "RowDeserializer::deserialize_tuple_struct()"),
        (Shape::Enum, "RowDeserializer::deserialize_enum()"),
    ];
    for (shape, label) in cases {
        assert_eq!(
            decode(one(MemoryValue::Int(1)), &shape),
            Err(DeserializationError::NotImplemented(label))
        );
        assert_eq!(decode(two(), &shape), Err(DeserializationError::NotImplemented(label)));
    }
}

#[test]
fn typed_requests_take_one_value_each() {
    let mut de = RowDeserializer::new(one(MemoryValue::Int(300)));
    assert_eq!(de.remaining(), 1);
    assert_eq!(de.deserialize_u16(), Ok(300));
    assert_eq!(de.remaining(), 0);
    assert_eq!(de.deserialize_u16(), Err(DeserializationError::Usage(NO_MORE_VALUE.to_string())));
}

#[test]
fn typed_requests_convert_as_asked() {
    assert_eq!(RowDeserializer::new(one(MemoryValue::Bool(false))).deserialize_bool(), Ok(false));
    assert_eq!(RowDeserializer::new(one(MemoryValue::Int(200))).deserialize_u8(), Ok(200));
    assert_eq!(RowDeserializer::new(one(MemoryValue::Int(200))).deserialize_u32(), Ok(200));
    assert_eq!(RowDeserializer::new(one(MemoryValue::Int(200))).deserialize_u64(), Ok(200));
    assert_eq!(RowDeserializer::new(one(MemoryValue::Int(-128))).deserialize_i8(), Ok(-128));
    assert_eq!(RowDeserializer::new(one(MemoryValue::Int(-129))).deserialize_i16(), Ok(-129));
    assert_eq!(RowDeserializer::new(one(MemoryValue::Int(-129))).deserialize_i32(), Ok(-129));
    assert_eq!(RowDeserializer::new(one(MemoryValue::Int(-129))).deserialize_i64(), Ok(-129));
    let text = || one(MemoryValue::Text("hello".to_string()));
    assert_eq!(RowDeserializer::new(text()).deserialize_string(), Ok("hello".to_string()));
    assert_eq!(RowDeserializer::new(text()).deserialize_str(), Ok("hello".to_string()));
    assert_eq!(RowDeserializer::new(text()).deserialize_any(), Ok("hello".to_string()));
    let bytes = || one(MemoryValue::Bytes(vec![0, 255]));
    assert_eq!(RowDeserializer::new(bytes()).deserialize_bytes(), Ok(vec![0, 255]));
    assert_eq!(RowDeserializer::new(bytes()).deserialize_byte_buf(), Ok(vec![0, 255]));
}

#[test]
fn typed_requests_are_refused_while_columns_would_be_left() {
    let mut de = RowDeserializer::new(two());
    assert_eq!(de.value_deserialization_allowed(), Err(DeserializationError::TrailingCols));
    assert_eq!(de.deserialize_i64(), Err(DeserializationError::TrailingCols));
    assert_eq!(de.deserialize_string(), Err(DeserializationError::TrailingCols));
    assert_eq!(de.deserialize_option(&Shape::I64), Err(DeserializationError::TrailingCols));
    assert_eq!(de.next_value(), Err(DeserializationError::TrailingCols));
    assert_eq!(de.remaining(), 2);
}

#[test]
fn a_value_is_allowed_in_a_row_of_one_column() {
    let mut de = RowDeserializer::new(one(MemoryValue::Int(5)));
    assert_eq!(de.value_deserialization_allowed(), Ok(()));
    assert_eq!(de.next_value(), Ok(MemoryValue::Int(5)));
    assert_eq!(de.next_value(), Err(DeserializationError::Usage(NO_MORE_VALUE.to_string())));
}

#[test]
fn unsupported_requests_fail_by_name() {
    let refused = |label: &'static str| Err(DeserializationError::NotImplemented(label));
    for row in [one(MemoryValue::Text("c".to_string())), two(), MemoryRow::new(vec![])] {
        let left = row.len();
        let mut de = RowDeserializer::new(row);
        assert_eq!(de.deserialize_char(), refused("RowDeserializer::deserialize_char()!"));
        assert_eq!(de.deserialize_unit(), refused("RowDeserializer::deserialize_unit()"));
        assert_eq!(de.deserialize_map(), refused("RowDeserializer::deserialize_map()"));
        assert_eq!(
            de.deserialize_unit_struct(),
            refused("RowDeserializer::deserialize_unit_struct()")
        );
        assert_eq!(
            de.deserialize_tuple_struct(),
            refused("RowDeserializer::deserialize_tuple_struct()")
        );
        assert_eq!(de.deserialize_enum(), refused("RowDeserializer::deserialize_enum()"));
        assert_eq!(de.remaining(), left);
        assert_eq!(de.deserialize(&Shape::Dictionary), refused("RowDeserializer::deserialize_map()"));
        assert_eq!(de.remaining(), left);
        // The mode is as it was: a composite is still legal.
        assert_eq!(de.select_composite("again"), Ok(()));
    }
}

#[test]
fn a_value_that_does_not_convert_is_taken_all_the_same() {
    let mut de = RowDeserializer::new(one(MemoryValue::Bool(true)));
    assert_eq!(
        de.deserialize_i64(),
        Err(
            DeserializationError::ConversionError(
                ConversionError::ValueType(NOT_CONVERTIBLE.to_string()),
            ),
        )
    );
    assert_eq!(de.remaining(), 0);
}
