use serde_db::de::conversion_error::ConversionError;
use serde_db::de::decode;
use serde_db::de::deserialization_error::{
    DeserializationError, EMPTY_ROW, NESTED_COMPOSITE, NESTED_STRUCT, NO_FIELDNAME,
    NO_FIELD_VALUE, PLACEHOLDER,
};
use serde_db::de::field_deserializer::FieldDeserializer;
use serde_db::de::memory::{Column, MemoryRow, MemoryValue, NOT_CONVERTIBLE};
use serde_db::de::row_deserializer::{FieldsMapVisitor, FieldsSeqVisitor, RowDeserializer};
use serde_db::de::shape::{find_field, FieldShape, Shape};
use serde_db::de::target::{collect_sequence, collect_struct, collect_tuple};
use serde_db::de::value::{Decoded, FieldValue, Value};

fn col(name: &str, value: MemoryValue) -> Column {
    Column { name: Some(name.to_string()), value }
}

fn field(name: &str, shape: Shape) -> FieldShape {
    FieldShape { name: name.to_string(), shape }
}

fn entry(name: &str, value: Value) -> FieldValue {
    FieldValue { name: name.to_string(), value }
}

fn text(s: &str) -> MemoryValue {
    MemoryValue::Text(s.to_string())
}

fn person() -> MemoryRow {
    MemoryRow::new(vec![
        col("id", MemoryValue::Int(7)),
        col("name", text("Ada")),
        col("active", MemoryValue::Bool(true)),
    ])
}

fn usage(message: &str) -> DeserializationError {
    DeserializationError::Usage(message.to_string())
}

#[test]
fn structure_takes_each_column_by_name() {
    let shape = Shape::Struct(vec![
        field("id", Shape::U32),
        field("name", Shape::Str),
        field("active", Shape::Bool),
    ]);
    assert_eq!(
        decode(person(), &shape),
        Ok(
            Decoded::Struct(
                vec![
                    entry("id", Value::U32(7)),
                    entry("name", Value::Str("Ada".to_string())),
                    entry("active", Value::Bool(true)),
                ],
            ),
        )
    );
}

#[test]
fn structure_does_not_depend_on_the_order_of_declaration() {
    let shape = Shape::Struct(vec![
        field("active", Shape::Bool),
        field("id", Shape::U32),
        field("name", Shape::Str),
    ]);
    assert_eq!(
        decode(person(), &shape),
        Ok(
            Decoded::Struct(
                vec![
                    entry("id", Value::U32(7)),
                    entry("name", Value::Str("Ada".to_string())),
                    entry("active", Value::Bool(true)),
                ],
            ),
        )
    );
}

#[test]
fn structure_of_one_column() {
    let row = MemoryRow::new(vec![col("n", MemoryValue::Null)]);
    let shape = Shape::Struct(vec![field("n", Shape::Optional(Box::new(Shape::I8)))]);
    assert_eq!(decode(row, &shape), Ok(Decoded::Struct(vec![entry("n", Value::Absent)])));
}

#[test]
fn structure_of_an_empty_row_has_no_fields() {
    let shape = Shape::Struct(vec![field("id", Shape::U32)]);
    assert_eq!(decode(MemoryRow::new(vec![]), &shape), Ok(Decoded::Struct(vec![])));
}

#[test]
fn column_without_a_field_is_unknown() {
    let shape = Shape::Struct(vec![field("id", Shape::U32), field("active", Shape::Bool)]);
    assert_eq!(
        decode(person(), &shape),
        Err(DeserializationError::UnknownField("name".to_string()))
    );
}

#[test]
fn column_without_a_name_is_unknown_under_a_placeholder() {
    let row = MemoryRow::new(vec![
        col("id", MemoryValue::Int(7)),
        Column { name: None, value: MemoryValue::Int(8) },
    ]);
    let shape = Shape::Struct(vec![field("id", Shape::U32)]);
    assert_eq!(PLACEHOLDER, "unknown");
    assert_eq!(decode(row, &shape), Err(DeserializationError::UnknownField("unknown".to_string())));
}

#[test]
fn the_first_failure_in_row_order_is_reported() {
    let row = MemoryRow::new(vec![
        col("id", text("seven")),
        col("stranger", MemoryValue::Int(8)),
    ]);
    let shape = Shape::Struct(vec![field("id", Shape::U32)]);
    assert_eq!(
        decode(row, &shape),
        Err(
            DeserializationError::ConversionError(
                ConversionError::ValueType(NOT_CONVERTIBLE.to_string()),
            ),
        )
    );
}

#[test]
fn first_declared_field_of_a_name_is_the_one_found() {
    let fields = vec![field("a", Shape::U8), field("b", Shape::Str), field("a", Shape::Str)];
    assert_eq!(find_field(&fields, &"a".to_string()), Some(0));
    assert_eq!(find_field(&fields, &"b".to_string()), Some(1));
    assert_eq!(find_field(&fields, &"c".to_string()), None);
    assert_eq!(find_field(&vec![], &"a".to_string()), None);
}

#[test]
fn tuple_decodes_by_position() {
    let shape = Shape::Tuple(vec![Shape::I64, Shape::Str, Shape::Bool]);
    assert_eq!(
        decode(person(), &shape),
        Ok(
            Decoded::Tuple(
                vec![Value::I64(7), Value::Str("Ada".to_string()), Value::Bool(true)],
            ),
        )
    );
}

#[test]
fn tuple_ignores_the_column_names() {
    let shape = || Shape::Tuple(vec![Shape::I64, Shape::Str]);
    let named = MemoryRow::new(vec![col("x", MemoryValue::Int(1)), col("y", text("z"))]);
    let unnamed = MemoryRow::new(vec![
        Column { name: None, value: MemoryValue::Int(1) },
        Column { name: None, value: text("z") },
    ]);
    let expected = Decoded::Tuple(vec![Value::I64(1), Value::Str("z".to_string())]);
    assert_eq!(decode(named, &shape()), Ok(Decoded::Tuple(vec![
        Value::I64(1),
        Value::Str("z".to_string()),
    ])));
    assert_eq!(decode(unnamed, &shape()), Ok(expected));
}

#[test]
fn tuple_longer_than_the_row_is_cut_short() {
    let shape = Shape::Tuple(vec![Shape::I64, Shape::Str, Shape::Bool, Shape::U8, Shape::U8]);
    assert_eq!(
        decode(person(), &shape),
        Ok(
            Decoded::Tuple(
                vec![Value::I64(7), Value::Str("Ada".to_string()), Value::Bool(true)],
            ),
        )
    );
}

#[test]
fn tuple_shorter_than_the_row_leaves_the_rest() {
    let mut de = RowDeserializer::new(person());
    assert_eq!(
        de.deserialize_tuple(&vec![Shape::I64, Shape::Str]),
        Ok(vec![Value::I64(7), Value::Str("Ada".to_string())])
    );
    assert_eq!(de.remaining(), 1);
}

#[test]
fn tuple_of_one_column_is_legal() {
    let row = MemoryRow::new(vec![col("a", MemoryValue::Int(3))]);
    assert_eq!(
        decode(row, &Shape::Tuple(vec![Shape::U8])),
        Ok(Decoded::Tuple(vec![Value::U8(3)]))
    );
}

#[test]
fn tuple_element_that_does_not_convert_fails() {
    let shape = Shape::Tuple(vec![Shape::I64, Shape::I64]);
    assert_eq!(
        decode(person(), &shape),
        Err(
            DeserializationError::ConversionError(
                ConversionError::ValueType(NOT_CONVERTIBLE.to_string()),
            ),
        )
    );
}

#[test]
fn sequence_takes_every_column() {
    let row = MemoryRow::new(vec![
        col("a", MemoryValue::Int(1)),
        col("b", MemoryValue::Null),
        col("c", MemoryValue::Int(3)),
    ]);
    let shape = Shape::Sequence(Box::new(Shape::Optional(Box::new(Shape::U8))));
    assert_eq!(
        decode(row, &shape),
        Ok(
            Decoded::Tuple(
                vec![
                    Value::Present(Box::new(Value::U8(1))),
                    Value::Absent,
                    Value::Present(Box::new(Value::U8(3))),
                ],
            ),
        )
    );
}

#[test]
fn sequence_of_an_empty_row_is_empty() {
    let shape = Shape::Sequence(Box::new(Shape::U8));
    assert_eq!(decode(MemoryRow::new(vec![]), &shape), Ok(Decoded::Tuple(vec![])));
}

#[test]
fn second_composite_is_refused() {
    let mut de = RowDeserializer::new(person());
    assert_eq!(de.deserialize_tuple(&vec![Shape::I64]), Ok(vec![Value::I64(7)]));
    assert_eq!(de.deserialize_tuple(&vec![Shape::Str]), Err(usage(NESTED_COMPOSITE)));
    assert_eq!(de.deserialize_seq(&Shape::Str), Err(usage(NESTED_COMPOSITE)));
    assert_eq!(de.deserialize_struct(&vec![field("name", Shape::Str)]), Err(usage(NESTED_STRUCT)));
    assert_eq!(de.deserialize(&Shape::Tuple(vec![Shape::Str])), Err(usage(NESTED_COMPOSITE)));
    assert_eq!(de.remaining(), 2);
    assert_eq!(de.deserialize_string(), Ok("Ada".to_string()));
}

#[test]
fn composite_inside_a_structure_is_refused() {
    let inner = Shape::Struct(vec![field("x", Shape::U8)]);
    let shape = Shape::Struct(vec![field("id", inner)]);
    assert_eq!(decode(person(), &shape), Err(usage(NESTED_STRUCT)));
    let shape = Shape::Struct(vec![field("id", Shape::Tuple(vec![Shape::U8]))]);
    assert_eq!(decode(person(), &shape), Err(usage(NESTED_COMPOSITE)));
}

#[test]
fn composite_inside_a_tuple_is_refused() {
    let shape = Shape::Tuple(vec![Shape::Sequence(Box::new(Shape::U8))]);
    assert_eq!(decode(person(), &shape), Err(usage(NESTED_COMPOSITE)));
    let shape = Shape::Tuple(vec![Shape::Struct(vec![])]);
    assert_eq!(decode(person(), &shape), Err(usage(NESTED_STRUCT)));
}

#[test]
fn composite_inside_an_optional_is_refused() {
    let row = MemoryRow::new(vec![col("a", MemoryValue::Int(3))]);
    let shape = Shape::Optional(Box::new(Shape::Tuple(vec![Shape::U8])));
    assert_eq!(decode(row, &shape), Err(usage(NESTED_COMPOSITE)));
}

#[test]
fn unsupported_field_is_not_implemented() {
    let shape = Shape::Struct(vec![field("id", Shape::Char)]);
    assert_eq!(
        decode(person(), &shape),
        Err(DeserializationError::NotImplemented("RowDeserializer::deserialize_char()!"))
    );
    let wrapped = Shape::Newtype(Box::new(Shape::Enum));
    let shape = Shape::Struct(vec![field("id", wrapped)]);
    assert_eq!(
        decode(person(), &shape),
        Err(DeserializationError::NotImplemented("RowDeserializer::deserialize_enum()"))
    );
    let shape = Shape::Tuple(vec![Shape::Enum]);
    assert_eq!(
        decode(person(), &shape),
        Err(DeserializationError::NotImplemented("FieldDeserializer::deserialize_enum()"))
    );
    let shape = Shape::Struct(vec![field("id", Shape::Optional(Box::new(Shape::Unit)))]);
    assert_eq!(
        decode(person(), &shape),
        Err(DeserializationError::NotImplemented("FieldDeserializer::deserialize_unit()"))
    );
}

#[test]
fn selecting_the_composite_is_legal_once() {
    let mut de = RowDeserializer::new(person());
    assert_eq!(de.select_composite(NESTED_STRUCT), Ok(()));
    assert_eq!(de.select_composite(NESTED_STRUCT), Err(usage(NESTED_STRUCT)));
    assert_eq!(de.value_deserialization_allowed(), Ok(()));
    assert_eq!(de.remaining(), 3);
}

#[test]
fn identifier_is_the_name_of_the_next_column() {
    let mut de = RowDeserializer::new(person());
    assert_eq!(de.deserialize_identifier(), Ok(&"id".to_string()));
    assert_eq!(de.pull(), Some(MemoryValue::Int(7)));
    assert_eq!(de.deserialize_identifier(), Ok(&"name".to_string()));
    assert_eq!(de.get_fieldname(0), Some(&"id".to_string()));
    assert_eq!(de.get_fieldname(2), Some(&"active".to_string()));
    assert_eq!(de.get_fieldname(3), None);
    assert_eq!(de.pull(), Some(text("Ada")));
    assert_eq!(de.pull(), Some(MemoryValue::Bool(true)));
    assert_eq!(de.pull(), None);
    assert_eq!(de.deserialize_identifier(), Err(usage(EMPTY_ROW)));
}

#[test]
fn identifier_of_a_column_without_a_name_fails() {
    let row = MemoryRow::new(vec![Column { name: None, value: MemoryValue::Int(8) }]);
    let de = RowDeserializer::new(row);
    assert_eq!(de.deserialize_identifier(), Err(usage(NO_FIELDNAME)));
    assert_eq!(
        de.deserialize_ignored_any(),
        Err(DeserializationError::UnknownField("unknown".to_string()))
    );
}

#[test]
fn ignored_column_is_reported_by_its_name() {
    let mut de = RowDeserializer::new(person());
    assert_eq!(
        de.deserialize_ignored_any(),
        Err(DeserializationError::UnknownField("id".to_string()))
    );
    assert_eq!(de.pull(), Some(MemoryValue::Int(7)));
    assert_eq!(de.unknown_field(), DeserializationError::UnknownField("name".to_string()));
}

#[test]
fn element_steps_end_with_the_row() {
    let mut de = RowDeserializer::new(person());
    assert_eq!(de.select_composite(NESTED_COMPOSITE), Ok(()));
    let mut access = FieldsSeqVisitor::new(&mut de);
    assert_eq!(access.next_element_seed(&Shape::U8), Ok(Some(Value::U8(7))));
    assert_eq!(
        access.next_element_seed(&Shape::U8),
        Err(
            DeserializationError::ConversionError(
                ConversionError::ValueType(NOT_CONVERTIBLE.to_string()),
            ),
        )
    );
    assert_eq!(access.next_element_seed(&Shape::Bool), Ok(Some(Value::Bool(true))));
    assert_eq!(access.next_element_seed(&Shape::Bool), Ok(None));
}

#[test]
fn key_and_value_steps_alternate() {
    let fields = vec![field("name", Shape::Str), field("id", Shape::I16)];
    let mut de = RowDeserializer::new(person());
    assert_eq!(de.select_composite(NESTED_STRUCT), Ok(()));
    let mut access = FieldsMapVisitor::new(&mut de);
    assert_eq!(access.next_key_seed(&fields), Ok(Some(1)));
    assert_eq!(access.next_key_seed(&fields), Ok(Some(1)));
    assert_eq!(access.next_value_seed(&fields[1].shape), Ok(Value::I16(7)));
    assert_eq!(access.next_key_seed(&fields), Ok(Some(0)));
    assert_eq!(access.next_value_seed(&fields[0].shape), Ok(Value::Str("Ada".to_string())));
    assert_eq!(
        access.next_key_seed(&fields),
        Err(DeserializationError::UnknownField("active".to_string()))
    );
    assert_eq!(access.next_value_seed(&Shape::Bool), Ok(Value::Bool(true)));
    assert_eq!(access.next_key_seed(&fields), Ok(None));
    assert_eq!(access.next_value_seed(&Shape::Bool), Err(usage(NO_FIELD_VALUE)));
}

#[test]
fn collectors_fill_from_a_selected_row() {
    let mut de = RowDeserializer::new(person());
    assert_eq!(de.select_composite(NESTED_COMPOSITE), Ok(()));
    assert_eq!(
        collect_tuple(FieldsSeqVisitor::new(&mut de), &vec![Shape::U8]),
        Ok(vec![Value::U8(7)])
    );
    assert_eq!(
        collect_struct(FieldsMapVisitor::new(&mut de), &vec![field("name", Shape::Str)]),
        Err(DeserializationError::UnknownField("active".to_string()))
    );
    assert_eq!(
        collect_sequence(FieldsSeqVisitor::new(&mut de), &Shape::Bool),
        Ok(vec![Value::Bool(true)])
    );
    assert_eq!(de.remaining(), 0);
}

#[test]
fn one_value_decodes_by_direct_conversion() {
    assert_eq!(FieldDeserializer::new(MemoryValue::Int(5)).deserialize(&Shape::U8), Ok(Value::U8(5)));
    assert_eq!(FieldDeserializer::new(MemoryValue::Int(5)).deserialize_u8(), Ok(5));
    assert_eq!(FieldDeserializer::new(MemoryValue::Int(5)).deserialize_i64(), Ok(5));
    assert_eq!(FieldDeserializer::new(MemoryValue::Bool(true)).deserialize_bool(), Ok(true));
    assert_eq!(FieldDeserializer::new(text("t")).deserialize_string(), Ok("t".to_string()));
    assert_eq!(
        FieldDeserializer::new(MemoryValue::Bytes(vec![9])).deserialize_byte_buf(),
        Ok(vec![9])
    );
    assert_eq!(
        FieldDeserializer::new(MemoryValue::Null).deserialize_option(&Shape::U8),
        Ok(Value::Absent)
    );
    assert_eq!(
        FieldDeserializer::new(MemoryValue::Int(5)).deserialize_option(&Shape::U8),
        Ok(Value::Present(Box::new(Value::U8(5))))
    );
    assert_eq!(
        FieldDeserializer::new(MemoryValue::Int(5)).deserialize(&Shape::Struct(vec![])),
        Err(usage(NESTED_STRUCT))
    );
    assert_eq!(
        FieldDeserializer::new(MemoryValue::Int(5)).deserialize(&Shape::Dictionary),
        Err(DeserializationError::NotImplemented("FieldDeserializer::deserialize_map()"))
    );
    let refused = |shape: Shape| FieldDeserializer::new(MemoryValue::Int(5)).deserialize(&shape);
    assert_eq!(
        refused(Shape::Char),
        Err(DeserializationError::NotImplemented("FieldDeserializer::deserialize_char()"))
    );
    assert_eq!(
        refused(Shape::Unit),
        Err(DeserializationError::NotImplemented("FieldDeserializer::deserialize_unit()"))
    );
    assert_eq!(
        refused(Shape::UnitStruct),
        Err(DeserializationError::NotImplemented("FieldDeserializer::deserialize_unit_struct()"))
    );
    assert_eq!(
        refused(Shape::TupleStruct),
        Err(DeserializationError::NotImplemented("FieldDeserializer::deserialize_tuple_struct()"))
    );
    assert_eq!(
        refused(Shape::Enum),
        Err(DeserializationError::NotImplemented("FieldDeserializer::deserialize_enum()"))
    );
}

#[test]
fn refused_composite_takes_nothing_and_stays_committed() {
    let mut de = RowDeserializer::new(person());
    assert_eq!(de.select_composite(NESTED_COMPOSITE), Ok(()));
    assert_eq!(de.deserialize_seq(&Shape::I64), Err(usage(NESTED_COMPOSITE)));
    assert_eq!(de.remaining(), 3);
    assert_eq!(de.deserialize_tuple(&vec![Shape::I64]), Err(usage(NESTED_COMPOSITE)));
    assert_eq!(de.remaining(), 3);
    assert_eq!(de.deserialize_struct(&vec![field("id", Shape::I64)]), Err(usage(NESTED_STRUCT)));
    assert_eq!(de.remaining(), 3);
    assert_eq!(de.select_composite(NESTED_STRUCT), Err(usage(NESTED_STRUCT)));
    assert_eq!(de.deserialize_i64(), Ok(7));
}

#[test]
fn failed_sequence_leaves_the_decoder_committed() {
    let mut de = RowDeserializer::new(person());
    assert_eq!(
        de.deserialize_seq(&Shape::I64),
        Err(
            DeserializationError::ConversionError(
                ConversionError::ValueType(NOT_CONVERTIBLE.to_string()),
            ),
        )
    );
    // The first value was converted, the second was taken and did not convert.
    assert_eq!(de.remaining(), 1);
    assert_eq!(de.select_composite(NESTED_COMPOSITE), Err(usage(NESTED_COMPOSITE)));
    assert_eq!(de.deserialize_bool(), Ok(true));
}

#[test]
fn failed_tuple_leaves_the_decoder_committed() {
    let mut de = RowDeserializer::new(person());
    assert_eq!(
        de.deserialize_tuple(&vec![Shape::Bool, Shape::Str, Shape::Bool]),
        Err(
            DeserializationError::ConversionError(
                ConversionError::ValueType(NOT_CONVERTIBLE.to_string()),
            ),
        )
    );
    assert_eq!(de.remaining(), 2);
    assert_eq!(de.deserialize_tuple(&vec![]), Err(usage(NESTED_COMPOSITE)));
}

#[test]
fn failed_structure_leaves_the_decoder_committed() {
    // The second column is unknown: the first was taken, the second was not.
    let mut de = RowDeserializer::new(person());
    assert_eq!(
        de.deserialize_struct(&vec![field("id", Shape::I64)]),
        Err(DeserializationError::UnknownField("name".to_string()))
    );
    assert_eq!(de.remaining(), 2);
    assert_eq!(de.deserialize_struct(&vec![]), Err(usage(NESTED_STRUCT)));
    // The first column does not convert: it was taken all the same.
    let mut de = RowDeserializer::new(person());
    assert_eq!(
        de.deserialize_struct(&vec![field("id", Shape::Str)]),
        Err(
            DeserializationError::ConversionError(
                ConversionError::ValueType(NOT_CONVERTIBLE.to_string()),
            ),
        )
    );
    assert_eq!(de.remaining(), 2);
    // The first column's field asks for a shape that is refused: nothing was taken.
    let mut de = RowDeserializer::new(person());
    assert_eq!(
        de.deserialize_struct(&vec![field("id", Shape::Tuple(vec![]))]),
        Err(usage(NESTED_COMPOSITE))
    );
    assert_eq!(de.remaining(), 3);
    assert_eq!(de.select_composite(NESTED_STRUCT), Err(usage(NESTED_STRUCT)));
}

#[test]
fn value_step_takes_one_value_for_a_shape_of_one_column() {
    let mut de = RowDeserializer::new(person());
    assert_eq!(de.select_composite(NESTED_STRUCT), Ok(()));
    let mut access = FieldsMapVisitor::new(&mut de);
    assert_eq!(
        access.next_value_seed(&Shape::Enum),
        Err(DeserializationError::NotImplemented("RowDeserializer::deserialize_enum()"))
    );
    assert_eq!(access.next_value_seed(&Shape::Struct(vec![])), Err(usage(NESTED_STRUCT)));
    assert_eq!(access.de.remaining(), 3);
    assert_eq!(
        access.next_value_seed(&Shape::Bool),
        Err(
            DeserializationError::ConversionError(
                ConversionError::ValueType(NOT_CONVERTIBLE.to_string()),
            ),
        )
    );
    assert_eq!(access.de.remaining(), 2);
    assert_eq!(access.next_value_seed(&Shape::Str), Ok(Value::Str("Ada".to_string())));
    assert_eq!(access.de.remaining(), 1);
}
