use vstd::prelude::*;
use crate::de::db_value::DbValue;
use crate::de::deserializable_row::{
    lemma_taken_none, name_at, name_view, row_wf, taken, DeserializableRow,
};
use crate::de::deserialization_error::{
    identifier_outcome, impl_err, key_outcome, optional_outcome, outcome, struct_outcome,
    tuple_outcome, typed_outcome, DecodeFault, DeserializationError, EMPTY_ROW, NESTED_COMPOSITE,
    NESTED_STRUCT, NO_FIELDNAME, NO_FIELD_VALUE, NO_MORE_VALUE, PLACEHOLDER,
};
use crate::de::field_deserializer::{failing, FieldDeserializer};
use crate::de::semantics::{
    column_result, decode_result, element_result, identifier_result, initial_mode,
    key_step_result, lemma_decode_committed, lemma_reentry_single, mode_after,
    next_value_result, refused, reported_name, step, taken_count, value_step_result,
    value_step_taken, MCD,
};
use crate::de::shape::{find_field, FieldShape, Shape};
use crate::de::target::{collect_sequence, collect_struct, collect_tuple};
use crate::de::value::{Decoded, FieldValue, Record, Value};

verus! {

/// Decodes a single row into a value of a requested shape.
///
/// The decoder owns the row and the mode that says which targets are still
/// legal. It holds nothing else.
pub struct RowDeserializer<ROW> {
    row: ROW,
    cols_treat: MCD,
}

impl<ROW: DeserializableRow> RowDeserializer<ROW> {
    /// The row as it stands, with the values that are left.
    pub closed spec fn row(self) -> ROW {
        self.row
    }

    /// The mode as it stands.
    pub closed spec fn mode(self) -> MCD {
        self.cols_treat
    }

    /// The decoder's row keeps the row invariant.
    pub open spec fn wf(self) -> bool {
        row_wf(self.row())
    }

    /// `self` is `before` after `k` values were taken, in the given mode.
    pub open spec fn advanced(self, before: Self, k: int, mode: MCD) -> bool {
        taken(before.row(), self.row(), k) && self.mode() == mode
    }

    /// Takes the row for one decoding: a bare scalar is legal only where the
    /// row has exactly one column.
    pub fn new(row: ROW) -> (d: RowDeserializer<ROW>)
        ensures
            d.row() == row,
            d.mode() == initial_mode(row),
    {
        let cols_treat = match row.len() {
            1 => MCD::Can,
            _ => MCD::Must,
        };
        RowDeserializer { cols_treat, row }
    }

    /// Whether a single value may be taken: not while only a composite
    /// target is legal.
    pub fn value_deserialization_allowed(&self) -> (r: Result<(), DeserializationError>)
        ensures
            typed_outcome(r) == (if self.mode() is Must {
                Err(DecodeFault::TrailingCols)
            } else {
                Ok(())
            }),
    {
        match self.cols_treat {
            MCD::Must => Err(DeserializationError::TrailingCols),
            _ => Ok(()),
        }
    }

    /// The name of the column at the given place among all the columns.
    pub fn get_fieldname(&self, idx: usize) -> (name: Option<&String>)
        ensures
            name_view(name) == name_at(self.row().names(), idx as int),
    {
        self.row.fieldname(idx)
    }

    /// Takes the next value out of the row.
    pub fn next_value(&mut self) -> (r: Result<ROW::V, DeserializationError>)
        ensures
            typed_outcome(r) == next_value_result(old(self).row(), old(self).mode()),
            final(self).advanced(*old(self), if r is Ok { 1int } else { 0int }, old(self).mode()),
            old(self).mode() is Must ==> final(self).row() == old(self).row(),
    {
        match self.value_deserialization_allowed() {
            Err(e) => {
                assert(self.row().pending().skip(0) =~= self.row().pending());
                return Err(e);
            },
            Ok(_) => {},
        }
        match self.row.next() {
            Some(tv) => Ok(tv),
            None => {
                assert(old(self).row().pending().skip(0) =~= old(self).row().pending());
                Err(impl_err(NO_MORE_VALUE))
            },
        }
    }

    /// Decodes the next column as a `bool`.
    pub fn deserialize_bool(&mut self) -> (r: Result<bool, DeserializationError>)
        ensures
            typed_outcome(r) == (match next_value_result(old(self).row(), old(self).mode()) {
                Ok(v) => failing(v.as_bool()),
                Err(e) => Err(e),
            }),
            final(self).advanced(
                *old(self),
                step(old(self).row(), old(self).mode()),
                old(self).mode(),
            ),
            old(self).mode() is Must ==> final(self).row() == old(self).row(),
    {
        match self.next_value() {
            Ok(v) => FieldDeserializer::new(v).deserialize_bool(),
            Err(e) => Err(e),
        }
    }

    /// Decodes the next column as a `u8`.
    pub fn deserialize_u8(&mut self) -> (r: Result<u8, DeserializationError>)
        ensures
            typed_outcome(r) == (match next_value_result(old(self).row(), old(self).mode()) {
                Ok(v) => failing(v.as_u8()),
                Err(e) => Err(e),
            }),
            final(self).advanced(
                *old(self),
                step(old(self).row(), old(self).mode()),
                old(self).mode(),
            ),
            old(self).mode() is Must ==> final(self).row() == old(self).row(),
    {
        match self.next_value() {
            Ok(v) => FieldDeserializer::new(v).deserialize_u8(),
            Err(e) => Err(e),
        }
    }

    /// Decodes the next column as a `u16`.
    pub fn deserialize_u16(&mut self) -> (r: Result<u16, DeserializationError>)
        ensures
            typed_outcome(r) == (match next_value_result(old(self).row(), old(self).mode()) {
                Ok(v) => failing(v.as_u16()),
                Err(e) => Err(e),
            }),
            final(self).advanced(
                *old(self),
                step(old(self).row(), old(self).mode()),
                old(self).mode(),
            ),
            old(self).mode() is Must ==> final(self).row() == old(self).row(),
    {
        match self.next_value() {
            Ok(v) => FieldDeserializer::new(v).deserialize_u16(),
            Err(e) => Err(e),
        }
    }

    /// Decodes the next column as a `u32`.
    pub fn deserialize_u32(&mut self) -> (r: Result<u32, DeserializationError>)
        ensures
            typed_outcome(r) == (match next_value_result(old(self).row(), old(self).mode()) {
                Ok(v) => failing(v.as_u32()),
                Err(e) => Err(e),
            }),
            final(self).advanced(
                *old(self),
                step(old(self).row(), old(self).mode()),
                old(self).mode(),
            ),
            old(self).mode() is Must ==> final(self).row() == old(self).row(),
    {
        match self.next_value() {
            Ok(v) => FieldDeserializer::new(v).deserialize_u32(),
            Err(e) => Err(e),
        }
    }

    /// Decodes the next column as a `u64`.
    pub fn deserialize_u64(&mut self) -> (r: Result<u64, DeserializationError>)
        ensures
            typed_outcome(r) == (match next_value_result(old(self).row(), old(self).mode()) {
                Ok(v) => failing(v.as_u64()),
                Err(e) => Err(e),
            }),
            final(self).advanced(
                *old(self),
                step(old(self).row(), old(self).mode()),
                old(self).mode(),
            ),
            old(self).mode() is Must ==> final(self).row() == old(self).row(),
    {
        match self.next_value() {
            Ok(v) => FieldDeserializer::new(v).deserialize_u64(),
            Err(e) => Err(e),
        }
    }

    /// Decodes the next column as an `i8`.
    pub fn deserialize_i8(&mut self) -> (r: Result<i8, DeserializationError>)
        ensures
            typed_outcome(r) == (match next_value_result(old(self).row(), old(self).mode()) {
                Ok(v) => failing(v.as_i8()),
                Err(e) => Err(e),
            }),
            final(self).advanced(
                *old(self),
                step(old(self).row(), old(self).mode()),
                old(self).mode(),
            ),
            old(self).mode() is Must ==> final(self).row() == old(self).row(),
    {
        match self.next_value() {
            Ok(v) => FieldDeserializer::new(v).deserialize_i8(),
            Err(e) => Err(e),
        }
    }

    /// Decodes the next column as an `i16`.
    pub fn deserialize_i16(&mut self) -> (r: Result<i16, DeserializationError>)
        ensures
            typed_outcome(r) == (match next_value_result(old(self).row(), old(self).mode()) {
                Ok(v) => failing(v.as_i16()),
                Err(e) => Err(e),
            }),
            final(self).advanced(
                *old(self),
                step(old(self).row(), old(self).mode()),
                old(self).mode(),
            ),
            old(self).mode() is Must ==> final(self).row() == old(self).row(),
    {
        match self.next_value() {
            Ok(v) => FieldDeserializer::new(v).deserialize_i16(),
            Err(e) => Err(e),
        }
    }

    /// Decodes the next column as an `i32`.
    pub fn deserialize_i32(&mut self) -> (r: Result<i32, DeserializationError>)
        ensures
            typed_outcome(r) == (match next_value_result(old(self).row(), old(self).mode()) {
                Ok(v) => failing(v.as_i32()),
                Err(e) => Err(e),
            }),
            final(self).advanced(
                *old(self),
                step(old(self).row(), old(self).mode()),
                old(self).mode(),
            ),
            old(self).mode() is Must ==> final(self).row() == old(self).row(),
    {
        match self.next_value() {
            Ok(v) => FieldDeserializer::new(v).deserialize_i32(),
            Err(e) => Err(e),
        }
    }

    /// Decodes the next column as an `i64`.
    pub fn deserialize_i64(&mut self) -> (r: Result<i64, DeserializationError>)
        ensures
            typed_outcome(r) == (match next_value_result(old(self).row(), old(self).mode()) {
                Ok(v) => failing(v.as_i64()),
                Err(e) => Err(e),
            }),
            final(self).advanced(
                *old(self),
                step(old(self).row(), old(self).mode()),
                old(self).mode(),
            ),
            old(self).mode() is Must ==> final(self).row() == old(self).row(),
    {
        match self.next_value() {
            Ok(v) => FieldDeserializer::new(v).deserialize_i64(),
            Err(e) => Err(e),
        }
    }

    /// Decodes the next column as a string.
    pub fn deserialize_string(&mut self) -> (r: Result<String, DeserializationError>)
        ensures
            outcome(r) == (match next_value_result(old(self).row(), old(self).mode()) {
                Ok(v) => failing(v.as_text()),
                Err(e) => Err(e),
            }),
            final(self).advanced(
                *old(self),
                step(old(self).row(), old(self).mode()),
                old(self).mode(),
            ),
            old(self).mode() is Must ==> final(self).row() == old(self).row(),
    {
        match self.next_value() {
            Ok(v) => FieldDeserializer::new(v).deserialize_string(),
            Err(e) => Err(e),
        }
    }

    /// Decodes the next column as a string slice: the same as a string.
    pub fn deserialize_str(&mut self) -> (r: Result<String, DeserializationError>)
        ensures
            outcome(r) == (match next_value_result(old(self).row(), old(self).mode()) {
                Ok(v) => failing(v.as_text()),
                Err(e) => Err(e),
            }),
            final(self).advanced(
                *old(self),
                step(old(self).row(), old(self).mode()),
                old(self).mode(),
            ),
            old(self).mode() is Must ==> final(self).row() == old(self).row(),
    {
        self.deserialize_string()
    }

    /// Decodes the next column where the target names no type: as a string.
    pub fn deserialize_any(&mut self) -> (r: Result<String, DeserializationError>)
        ensures
            outcome(r) == (match next_value_result(old(self).row(), old(self).mode()) {
                Ok(v) => failing(v.as_text()),
                Err(e) => Err(e),
            }),
            final(self).advanced(
                *old(self),
                step(old(self).row(), old(self).mode()),
                old(self).mode(),
            ),
            old(self).mode() is Must ==> final(self).row() == old(self).row(),
    {
        match self.next_value() {
            Ok(v) => FieldDeserializer::new(v).deserialize_string(),
            Err(e) => Err(e),
        }
    }

    /// Decodes the next column as a borrowed byte sequence.
    pub fn deserialize_bytes(&mut self) -> (r: Result<Vec<u8>, DeserializationError>)
        ensures
            outcome(r) == (match next_value_result(old(self).row(), old(self).mode()) {
                Ok(v) => failing(v.as_bytes()),
                Err(e) => Err(e),
            }),
            final(self).advanced(
                *old(self),
                step(old(self).row(), old(self).mode()),
                old(self).mode(),
            ),
            old(self).mode() is Must ==> final(self).row() == old(self).row(),
    {
        match self.next_value() {
            Ok(v) => FieldDeserializer::new(v).deserialize_byte_buf(),
            Err(e) => Err(e),
        }
    }

    /// Decodes the next column as an owned byte sequence.
    pub fn deserialize_byte_buf(&mut self) -> (r: Result<Vec<u8>, DeserializationError>)
        ensures
            outcome(r) == (match next_value_result(old(self).row(), old(self).mode()) {
                Ok(v) => failing(v.as_bytes()),
                Err(e) => Err(e),
            }),
            final(self).advanced(
                *old(self),
                step(old(self).row(), old(self).mode()),
                old(self).mode(),
            ),
            old(self).mode() is Must ==> final(self).row() == old(self).row(),
    {
        match self.next_value() {
            Ok(v) => FieldDeserializer::new(v).deserialize_byte_buf(),
            Err(e) => Err(e),
        }
    }

    /// Decodes the next column as an optional of the given shape: absent
    /// where the column is null.
    pub fn deserialize_option(&mut self, inner: &Shape) -> (r: Result<Value, DeserializationError>)
        ensures
            outcome(r) == column_result(
                old(self).row(),
                old(self).mode(),
                Shape::Optional(Box::new(*inner)),
            ),
            final(self).advanced(
                *old(self),
                step(old(self).row(), old(self).mode()),
                old(self).mode(),
            ),
            old(self).mode() is Must ==> final(self).row() == old(self).row(),
    {
        match self.next_value() {
            Ok(v) => FieldDeserializer::new(v).deserialize_option(inner),
            Err(e) => Err(e),
        }
    }

    /// A single character has no representation in a row.
    pub fn deserialize_char(&self) -> (r: Result<Decoded, DeserializationError>)
        ensures
            outcome(r) == Err::<Record, DecodeFault>(
                DecodeFault::NotImplemented(Shape::Char.label()),
            ),
    {
        Err(DeserializationError::NotImplemented("RowDeserializer::deserialize_char()!"))
    }

    /// The unit value has no representation in a row.
    pub fn deserialize_unit(&self) -> (r: Result<Decoded, DeserializationError>)
        ensures
            outcome(r) == Err::<Record, DecodeFault>(
                DecodeFault::NotImplemented(Shape::Unit.label()),
            ),
    {
        Err(DeserializationError::NotImplemented("RowDeserializer::deserialize_unit()"))
    }

    /// A map with keys of any kind has no representation in a row.
    pub fn deserialize_map(&self) -> (r: Result<Decoded, DeserializationError>)
        ensures
            outcome(r) == Err::<Record, DecodeFault>(
                DecodeFault::NotImplemented(Shape::Dictionary.label()),
            ),
    {
        Err(DeserializationError::NotImplemented("RowDeserializer::deserialize_map()"))
    }

    /// A structure without fields has no representation in a row.
    pub fn deserialize_unit_struct(&self) -> (r: Result<Decoded, DeserializationError>)
        ensures
            outcome(r) == Err::<Record, DecodeFault>(
                DecodeFault::NotImplemented(Shape::UnitStruct.label()),
            ),
    {
        Err(DeserializationError::NotImplemented("RowDeserializer::deserialize_unit_struct()"))
    }

    /// A structure with unnamed fields has no representation in a row.
    pub fn deserialize_tuple_struct(&self) -> (r: Result<Decoded, DeserializationError>)
        ensures
            outcome(r) == Err::<Record, DecodeFault>(
                DecodeFault::NotImplemented(Shape::TupleStruct.label()),
            ),
    {
        Err(DeserializationError::NotImplemented("RowDeserializer::deserialize_tuple_struct()"))
    }

    /// A sum type has no representation in a row.
    pub fn deserialize_enum(&self) -> (r: Result<Decoded, DeserializationError>)
        ensures
            outcome(r) == Err::<Record, DecodeFault>(
                DecodeFault::NotImplemented(Shape::Enum.label()),
            ),
    {
        Err(DeserializationError::NotImplemented("RowDeserializer::deserialize_enum()"))
    }

    /// The name of the column whose value is taken next.
    pub fn deserialize_identifier(&self) -> (r: Result<&String, DeserializationError>)
        requires
            self.wf(),
        ensures
            identifier_outcome(r) == identifier_result(self.row()),
    {
        match self.row.len() {
            0 => Err(impl_err(EMPTY_ROW)),
            curr_len => {
                let idx: usize = self.row.number_of_fields() - curr_len;
                match self.get_fieldname(idx) {
                    Some(fieldname) => Ok(fieldname),
                    None => Err(impl_err(NO_FIELDNAME)),
                }
            },
        }
    }

    /// The failure for a column that the target has no field for: it names
    /// the column, or a placeholder where the column has no name.
    pub fn deserialize_ignored_any(&self) -> (r: Result<Decoded, DeserializationError>)
        requires
            self.wf(),
        ensures
            outcome(r) == Err::<Record, DecodeFault>(
                DecodeFault::UnknownField(reported_name(self.row())),
            ),
    {
        Err(self.unknown_field())
    }

    /// The error that reports the row's next column as unknown to the
    /// target.
    pub fn unknown_field(&self) -> (e: DeserializationError)
        requires
            self.wf(),
        ensures
            e@ == DecodeFault::UnknownField(reported_name(self.row())),
    {
        let idx: usize = self.row.number_of_fields() - self.row.len();
        let fieldname = match self.get_fieldname(idx) {
            Some(name) => name.clone(),
            None => PLACEHOLDER.to_owned(),
        };
        DeserializationError::UnknownField(fieldname)
    }

    /// Decodes a wrapper around one value: as the value it wraps.
    pub fn deserialize_newtype_struct(&mut self, inner: &Shape) -> (r: Result<
        Decoded,
        DeserializationError,
    >)
        requires
            old(self).wf(),
        ensures
            outcome(r) == decode_result(old(self).row(), old(self).mode(), *inner),
            final(self).advanced(
                *old(self),
                taken_count(old(self).row(), old(self).mode(), *inner),
                mode_after(*inner, old(self).mode()),
            ),
            refused(*inner, old(self).mode()) ==> final(self).row() == old(self).row(),
        decreases *inner, 1nat,
    {
        self.deserialize(inner)
    }

    /// The number of values that are left in the row.
    pub fn remaining(&self) -> (n: usize)
        ensures
            n == self.row().pending().len(),
    {
        self.row.len()
    }

    /// Takes the next value out of the row as an element of the selected
    /// composite: by position, whatever the mode. `None` where the row is
    /// exhausted.
    pub fn pull(&mut self) -> (v: Option<ROW::V>)
        ensures
            final(self).advanced(
                *old(self),
                if old(self).row().pending().len() > 0 {
                    1int
                } else {
                    0int
                },
                old(self).mode(),
            ),
            v == (if old(self).row().pending().len() > 0 {
                Some(old(self).row().pending()[0])
            } else {
                None
            }),
    {
        let v = self.row.next();
        proof {
            if old(self).row().pending().len() == 0 {
                lemma_taken_none(old(self).row());
            }
        }
        v
    }

    /// Selects the composite target. A row is flat: this is legal once, and
    /// a second request fails with the given message as a usage error and
    /// leaves the decoder as it is.
    pub fn select_composite(&mut self, refusal: &'static str) -> (r: Result<
        (),
        DeserializationError,
    >)
        ensures
            typed_outcome(r) == (if old(self).mode() is Done {
                Err(DecodeFault::Usage(refusal@))
            } else {
                Ok(())
            }),
            final(self).row() == old(self).row(),
            final(self).mode() is Done,
    {
        match self.cols_treat {
            MCD::Done => Err(impl_err(refusal)),
            _ => {
                self.cols_treat = MCD::Done;
                Ok(())
            },
        }
    }

    /// Decodes the rest of the row as a sequence of any length. Legal once:
    /// it selects the composite target.
    pub fn deserialize_seq(&mut self, elem: &Shape) -> (r: Result<Vec<Value>, DeserializationError>)
        ensures
            tuple_outcome(r) == decode_result(
                old(self).row(),
                old(self).mode(),
                Shape::Sequence(Box::new(*elem)),
            ),
            final(self).advanced(
                *old(self),
                taken_count(old(self).row(), old(self).mode(), Shape::Sequence(Box::new(*elem))),
                MCD::Done,
            ),
            old(self).mode() is Done ==> final(self).row() == old(self).row(),
    {
        match self.select_composite(NESTED_COMPOSITE) {
            Err(e) => {
                proof {
                    lemma_taken_none(old(self).row());
                }
                Err(e)
            },
            Ok(_) => collect_sequence(FieldsSeqVisitor::new(self), elem),
        }
    }

    /// Decodes the row as a tuple, by position. Legal once: it selects the
    /// composite target.
    pub fn deserialize_tuple(&mut self, elems: &Vec<Shape>) -> (r: Result<
        Vec<Value>,
        DeserializationError,
    >)
        ensures
            tuple_outcome(r) == decode_result(
                old(self).row(),
                old(self).mode(),
                Shape::Tuple(*elems),
            ),
            final(self).advanced(
                *old(self),
                taken_count(old(self).row(), old(self).mode(), Shape::Tuple(*elems)),
                MCD::Done,
            ),
            old(self).mode() is Done ==> final(self).row() == old(self).row(),
    {
        match self.select_composite(NESTED_COMPOSITE) {
            Err(e) => {
                proof {
                    lemma_taken_none(old(self).row());
                }
                Err(e)
            },
            Ok(_) => collect_tuple(FieldsSeqVisitor::new(self), elems),
        }
    }

    /// Decodes the row as a structure with the given declared fields. Legal
    /// once: it selects the composite target.
    pub fn deserialize_struct(&mut self, fields: &Vec<FieldShape>) -> (r: Result<
        Vec<FieldValue>,
        DeserializationError,
    >)
        requires
            old(self).wf(),
        ensures
            struct_outcome(r) == decode_result(
                old(self).row(),
                old(self).mode(),
                Shape::Struct(*fields),
            ),
            final(self).advanced(
                *old(self),
                taken_count(old(self).row(), old(self).mode(), Shape::Struct(*fields)),
                MCD::Done,
            ),
            old(self).mode() is Done ==> final(self).row() == old(self).row(),
        decreases *fields, 1nat,
    {
        match self.select_composite(NESTED_STRUCT) {
            Err(e) => {
                proof {
                    lemma_taken_none(old(self).row());
                }
                Err(e)
            },
            Ok(_) => collect_struct(FieldsMapVisitor::new(self), fields),
        }
    }

    /// Decodes the row, as far as the shape reaches, into a value of the
    /// requested shape.
    pub fn deserialize(&mut self, shape: &Shape) -> (r: Result<Decoded, DeserializationError>)
        requires
            old(self).wf(),
        ensures
            outcome(r) == decode_result(old(self).row(), old(self).mode(), *shape),
            final(self).advanced(
                *old(self),
                taken_count(old(self).row(), old(self).mode(), *shape),
                mode_after(*shape, old(self).mode()),
            ),
            refused(*shape, old(self).mode()) ==> final(self).row() == old(self).row(),
        decreases *shape, 0nat,
    {
        proof {
            lemma_taken_none(old(self).row());
        }
        match shape {
            Shape::Bool => match self.deserialize_bool() {
                Ok(x) => Ok(Decoded::Single(Value::Bool(x))),
                Err(e) => Err(e),
            },
            Shape::U8 => match self.deserialize_u8() {
                Ok(x) => Ok(Decoded::Single(Value::U8(x))),
                Err(e) => Err(e),
            },
            Shape::U16 => match self.deserialize_u16() {
                Ok(x) => Ok(Decoded::Single(Value::U16(x))),
                Err(e) => Err(e),
            },
            Shape::U32 => match self.deserialize_u32() {
                Ok(x) => Ok(Decoded::Single(Value::U32(x))),
                Err(e) => Err(e),
            },
            Shape::U64 => match self.deserialize_u64() {
                Ok(x) => Ok(Decoded::Single(Value::U64(x))),
                Err(e) => Err(e),
            },
            Shape::I8 => match self.deserialize_i8() {
                Ok(x) => Ok(Decoded::Single(Value::I8(x))),
                Err(e) => Err(e),
            },
            Shape::I16 => match self.deserialize_i16() {
                Ok(x) => Ok(Decoded::Single(Value::I16(x))),
                Err(e) => Err(e),
            },
            Shape::I32 => match self.deserialize_i32() {
                Ok(x) => Ok(Decoded::Single(Value::I32(x))),
                Err(e) => Err(e),
            },
            Shape::I64 => match self.deserialize_i64() {
                Ok(x) => Ok(Decoded::Single(Value::I64(x))),
                Err(e) => Err(e),
            },
            Shape::Str => match self.deserialize_string() {
                Ok(x) => Ok(Decoded::Single(Value::Str(x))),
                Err(e) => Err(e),
            },
            Shape::Bytes => match self.deserialize_byte_buf() {
                Ok(x) => Ok(Decoded::Single(Value::Bytes(x))),
                Err(e) => Err(e),
            },
            Shape::Optional(inner) => match self.deserialize_option(inner) {
                Ok(x) => Ok(Decoded::Single(x)),
                Err(e) => Err(e),
            },
            Shape::Newtype(inner) => self.deserialize_newtype_struct(inner),
            Shape::Sequence(elem) => match self.deserialize_seq(elem) {
                Ok(xs) => Ok(Decoded::Tuple(xs)),
                Err(e) => Err(e),
            },
            Shape::Tuple(elems) => match self.deserialize_tuple(elems) {
                Ok(xs) => Ok(Decoded::Tuple(xs)),
                Err(e) => Err(e),
            },
            Shape::Struct(fields) => match self.deserialize_struct(fields) {
                Ok(fs) => Ok(Decoded::Struct(fs)),
                Err(e) => Err(e),
            },
            Shape::Char => self.deserialize_char(),
            Shape::Unit => self.deserialize_unit(),
            Shape::Dictionary => self.deserialize_map(),
            Shape::UnitStruct => self.deserialize_unit_struct(),
            Shape::TupleStruct => self.deserialize_tuple_struct(),
            Shape::Enum => self.deserialize_enum(),
        }
    }
}

/// Drives the decoding of a sequence or tuple: one column for each element,
/// by position.
pub struct FieldsSeqVisitor<'a, R: DeserializableRow> {
    pub de: &'a mut RowDeserializer<R>,
}

impl<'a, R: DeserializableRow> FieldsSeqVisitor<'a, R> {
    /// Binds the driver to the decoder for as long as the elements are
    /// taken; the decoder is then what the driver left of it.
    pub fn new(de: &'a mut RowDeserializer<R>) -> (v: Self)
        ensures
            *v.de == *old(de),
            *final(v.de) == *final(de),
    {
        FieldsSeqVisitor { de }
    }

    /// Decodes the next column as an element of the given shape, by direct
    /// conversion; `None` where the row is exhausted.
    pub fn next_element_seed(&mut self, seed: &Shape) -> (r: Result<
        Option<Value>,
        DeserializationError,
    >)
        ensures
            *final(final(self).de) == *final(old(self).de),
            optional_outcome(r) == element_result(old(self).de.row(), *seed),
            final(self).de.advanced(
                *old(self).de,
                if old(self).de.row().pending().len() > 0 {
                    1int
                } else {
                    0int
                },
                old(self).de.mode(),
            ),
    {
        match self.de.pull() {
            None => Ok(None),
            Some(val) => match FieldDeserializer::new(val).deserialize(seed) {
                Ok(x) => Ok(Some(x)),
                Err(e) => Err(e),
            },
        }
    }
}

/// Drives the decoding of a structure: for each column first the key, which
/// is the declared field of the column's name, then the value.
pub struct FieldsMapVisitor<'a, R: DeserializableRow> {
    pub de: &'a mut RowDeserializer<R>,
}

impl<'a, R: DeserializableRow> FieldsMapVisitor<'a, R> {
    /// Binds the driver to the decoder for as long as the fields are taken;
    /// the decoder is then what the driver left of it.
    pub fn new(de: &'a mut RowDeserializer<R>) -> (v: Self)
        ensures
            *v.de == *old(de),
            *final(v.de) == *final(de),
    {
        FieldsMapVisitor { de }
    }

    /// The key step: the position, among the declared fields, of the field
    /// that the next column belongs to; `None` where the row is exhausted.
    /// A column that no declared field is named after is reported as an
    /// unknown field. Nothing is taken from the row.
    pub fn next_key_seed(&mut self, seed: &Vec<FieldShape>) -> (r: Result<
        Option<usize>,
        DeserializationError,
    >)
        requires
            old(self).de.wf(),
        ensures
            *final(final(self).de) == *final(old(self).de),
            *final(self).de == *old(self).de,
            key_outcome(r) == key_step_result(old(self).de.row(), seed@),
    {
        match self.de.row.len() {
            0 => Ok(None),
            _ => {
                match self.de.deserialize_identifier() {
                    Ok(name) => match find_field(seed, name) {
                        Some(k) => Ok(Some(k)),
                        None => Err(self.de.unknown_field()),
                    },
                    Err(_) => Err(self.de.unknown_field()),
                }
            },
        }
    }

    /// The value step: the next column, decoded as the shape of the field it
    /// belongs to by asking the decoder again. The structure has been
    /// selected by then, so that the decoder yields the content of one
    /// column or fails. A value asked for without a column left is a usage
    /// error.
    pub fn next_value_seed(&mut self, seed: &Shape) -> (r: Result<Value, DeserializationError>)
        requires
            old(self).de.wf(),
            old(self).de.mode() is Done,
        ensures
            *final(final(self).de) == *final(old(self).de),
            outcome(r) == value_step_result(old(self).de.row(), *seed),
            final(self).de.advanced(
                *old(self).de,
                value_step_taken(old(self).de.row(), *seed),
                MCD::Done,
            ),
        decreases *seed, 1nat,
    {
        match self.de.row.len() {
            0 => {
                proof {
                    lemma_taken_none(self.de.row());
                }
                Err(impl_err(NO_FIELD_VALUE))
            },
            _ => {
                proof {
                    lemma_decode_committed(self.de.row(), *seed);
                    lemma_reentry_single(self.de.row().pending()[0], *seed);
                }
                match self.de.deserialize(seed) {
                    Ok(Decoded::Single(v)) => Ok(v),
                    Ok(_) => unreached(),
                    Err(e) => Err(e),
                }
            },
        }
    }
}

} // verus!
