use vstd::prelude::*;
use crate::de::db_value::DbValue;
use crate::de::deserializable_row::{current_index, name_at, DeserializableRow};
use crate::de::deserialization_error::{DecodeFault, NESTED_COMPOSITE, NESTED_STRUCT};
use crate::de::field_deserializer::cell_result;
use crate::de::memory::{MemoryRow, MemoryValue};
use crate::de::semantics::{
    decode_result, element_count, element_shape, elements_result, field_result, fields_result,
    initial_mode, lemma_fields_failure, lemma_reentry_single, mode_after, reentry_result,
    refused, taken_count, MCD,
};
use crate::de::shape::{field_position, first_match, lemma_first_match, FieldShape, Shape};
use crate::de::value::{Datum, Record};

verus! {

/// The result of decoding one column value alone, as the result of decoding
/// a row.
pub open spec fn alone(r: Result<Datum, DecodeFault>) -> Result<Record, DecodeFault> {
    match r {
        Ok(d) => Ok(Record::Single(d)),
        Err(e) => Err(e),
    }
}

/// A row with exactly one column decodes, for a shape that stands for one
/// column, to what its one value converts to: where the conversion
/// succeeds, the decoding succeeds with the converted value.
pub proof fn law_one_column_scalar<R: DeserializableRow>(row: R, shape: Shape)
    requires
        row.pending().len() == 1,
        shape.single(),
    ensures
        decode_result(row, initial_mode(row), shape) == alone(cell_result(row.pending()[0], shape)),
    decreases shape,
{
    match shape {
        Shape::Newtype(inner) => {
            law_one_column_scalar(row, *inner);
        },
        _ => {},
    }
}

/// A row with more than one column refuses every shape that stands for one
/// column: the other columns would be left over.
pub proof fn law_trailing_columns<R: DeserializableRow>(row: R, shape: Shape)
    requires
        row.pending().len() > 1,
        shape.single(),
    ensures
        decode_result(row, initial_mode(row), shape) == Err::<Record, DecodeFault>(
            DecodeFault::TrailingCols,
        ),
    decreases shape,
{
    match shape {
        Shape::Newtype(inner) => {
            law_trailing_columns(row, *inner);
        },
        _ => {},
    }
}

/// Where each of the first `n` values converts, the elements are the
/// converted values, by position.
pub proof fn lemma_elements_all<V: DbValue>(values: Seq<V>, shape: Shape, n: nat)
    requires
        forall|i: int|
            0 <= i < n ==> (#[trigger] cell_result(values[i], element_shape(shape, i))) is Ok,
    ensures
        elements_result(values, shape, n) == Ok::<Seq<Datum>, DecodeFault>(
            Seq::new(n, |i: int| cell_result(values[i], element_shape(shape, i))->Ok_0),
        ),
    decreases n,
{
    if n > 0 {
        lemma_elements_all(values, shape, (n - 1) as nat);
        assert(cell_result(values[n - 1], element_shape(shape, n - 1)) is Ok);
        assert(Seq::new(
            (n - 1) as nat,
            |i: int| cell_result(values[i], element_shape(shape, i))->Ok_0,
        ).push(cell_result(values[n - 1], element_shape(shape, n - 1))->Ok_0) =~= Seq::new(
            n,
            |i: int| cell_result(values[i], element_shape(shape, i))->Ok_0,
        ));
    } else {
        assert(Seq::<Datum>::empty() =~= Seq::new(
            n,
            |i: int| cell_result(values[i], element_shape(shape, i))->Ok_0,
        ));
    }
}

/// Where each of the first `n` columns belongs to a declared field and
/// converts, the fields are the decoded columns, in row order.
pub proof fn lemma_fields_all<R: DeserializableRow>(row: R, fields: Seq<FieldShape>, n: nat)
    requires
        forall|j: int| 0 <= j < n ==> (#[trigger] field_result(row, fields, j)) is Ok,
    ensures
        fields_result(row, fields, n) == Ok::<Seq<(Seq<char>, Datum)>, DecodeFault>(
            Seq::new(n, |j: int| field_result(row, fields, j)->Ok_0),
        ),
    decreases n,
{
    if n > 0 {
        lemma_fields_all(row, fields, (n - 1) as nat);
        assert(field_result(row, fields, n - 1) is Ok);
        assert(Seq::new((n - 1) as nat, |j: int| field_result(row, fields, j)->Ok_0).push(
            field_result(row, fields, n - 1)->Ok_0,
        ) =~= Seq::new(n, |j: int| field_result(row, fields, j)->Ok_0));
    } else {
        assert(Seq::<(Seq<char>, Datum)>::empty() =~= Seq::new(
            n,
            |j: int| field_result(row, fields, j)->Ok_0,
        ));
    }
}

/// Whether the pending column at position `j` has a name, a declared field
/// is named after it, and its value converts as that field's shape asks.
pub open spec fn column_fits<R: DeserializableRow>(
    row: R,
    fields: Seq<FieldShape>,
    j: int,
) -> bool {
    &&& name_at(row.names(), current_index(row) + j) matches Some(name)
    &&& field_position(fields, name) matches Some(k)
    &&& cell_result(row.pending()[j], fields[k].shape) is Ok
}

/// A column that fits decodes, as a field, to its name and its converted
/// value.
pub proof fn lemma_column_fits<R: DeserializableRow>(row: R, fields: Seq<FieldShape>, j: int)
    requires
        column_fits(row, fields, j),
    ensures
        field_result(row, fields, j) == Ok::<(Seq<char>, Datum), DecodeFault>(
            (
                name_at(row.names(), current_index(row) + j)->Some_0,
                cell_result(
                    row.pending()[j],
                    fields[field_position(
                        fields,
                        name_at(row.names(), current_index(row) + j)->Some_0,
                    )->Some_0].shape,
                )->Ok_0,
            ),
        ),
{
    let name = name_at(row.names(), current_index(row) + j)->Some_0;
    let k = field_position(fields, name)->Some_0;
    lemma_reentry_single(row.pending()[j], fields[k].shape);
}

/// A row of exactly as many columns as the structure declares fields, each
/// column named after a declared field, decodes into the structure whatever
/// the order of the declarations: every declared field receives the value
/// of the column that has its name, converted as the field's shape asks.
pub proof fn law_struct_by_name<R: DeserializableRow>(row: R, fields: Seq<FieldShape>, shape: Shape)
    requires
        shape matches Shape::Struct(declared) && declared@ == fields,
        row.pending().len() == row.names().len(),
        row.names().len() == fields.len(),
        forall|j: int| 0 <= j < row.names().len() ==> #[trigger] column_fits(row, fields, j),
    ensures
        decode_result(row, initial_mode(row), shape) matches Ok(Record::Struct(decoded))
            && decoded.len() == fields.len() && forall|j: int, k: int|
            0 <= j < decoded.len() && 0 <= k < fields.len() && #[trigger] first_match(
                fields,
                row.names()[j]->Some_0,
                k,
            ) ==> decoded[j] == (
                fields[k].name@,
                cell_result(row.pending()[j], fields[k].shape)->Ok_0,
            ),
{
    let n = row.pending().len();
    assert forall|j: int| 0 <= j < n implies (#[trigger] field_result(row, fields, j)) is Ok by {
        assert(column_fits(row, fields, j));
        lemma_column_fits(row, fields, j);
    }
    lemma_fields_all(row, fields, n);
    let decoded = Seq::new(n, |j: int| field_result(row, fields, j)->Ok_0);
    assert forall|j: int, k: int|
        0 <= j < decoded.len() && 0 <= k < fields.len() && #[trigger] first_match(
            fields,
            row.names()[j]->Some_0,
            k,
        ) implies decoded[j] == (
        fields[k].name@,
        cell_result(row.pending()[j], fields[k].shape)->Ok_0,
    ) by {
        assert(column_fits(row, fields, j));
        lemma_column_fits(row, fields, j);
        lemma_first_match(fields, row.names()[j]->Some_0, k);
    }
}

/// A column whose name no declared field has makes the decoding of a
/// structure fail. Where the columns before it decode, the failure names
/// that column.
pub proof fn law_unknown_field<R: DeserializableRow>(
    row: R,
    mode: MCD,
    fields: Seq<FieldShape>,
    shape: Shape,
    j: int,
)
    requires
        shape matches Shape::Struct(declared) && declared@ == fields,
        !(mode is Done),
        0 <= j < row.pending().len(),
        name_at(row.names(), current_index(row) + j) matches Some(name) && field_position(
            fields,
            name,
        ) is None,
    ensures
        decode_result(row, mode, shape) is Err,
        (forall|i: int| 0 <= i < j ==> (#[trigger] field_result(row, fields, i)) is Ok)
            ==> decode_result(row, mode, shape) == Err::<Record, DecodeFault>(
            DecodeFault::UnknownField(name_at(row.names(), current_index(row) + j)->Some_0),
        ),
{
    let n = row.pending().len();
    assert(field_result(row, fields, j) is Err);
    assert(fields_result(row, fields, (j + 1) as nat) is Err);
    lemma_fields_failure(row, fields, (j + 1) as nat, n);
    if forall|i: int| 0 <= i < j ==> (#[trigger] field_result(row, fields, i)) is Ok {
        lemma_fields_all(row, fields, j as nat);
    }
}

/// A row with one column decodes, for an optional shape, to "absent" where
/// the column is null, and else to "present" around what the value converts
/// to for the wrapped shape.
pub proof fn law_optional<R: DeserializableRow>(row: R, inner: Shape)
    requires
        row.pending().len() == 1,
    ensures
        decode_result(row, initial_mode(row), Shape::Optional(Box::new(inner))) == ({
            let value = row.pending()[0];
            if value.null() {
                Ok(Record::Single(Datum::Absent))
            } else {
                match cell_result(value, inner) {
                    Ok(d) => Ok(Record::Single(Datum::Present(Box::new(d)))),
                    Err(e) => Err(e),
                }
            }
        }),
{
}

/// A row of exactly as many columns as the tuple has positions decodes by
/// position: where every value converts, the tuple holds the converted
/// values in row order.
pub proof fn law_tuple_by_position<R: DeserializableRow>(row: R, elems: Seq<Shape>, shape: Shape)
    requires
        shape matches Shape::Tuple(positions) && positions@ == elems,
        row.pending().len() == elems.len(),
        forall|i: int|
            0 <= i < elems.len() ==> (#[trigger] cell_result(row.pending()[i], elems[i])) is Ok,
    ensures
        decode_result(row, initial_mode(row), shape) == Ok::<Record, DecodeFault>(
            Record::Tuple(
                Seq::new(elems.len(), |i: int| cell_result(row.pending()[i], elems[i])->Ok_0),
            ),
        ),
{
    let n = elems.len();
    assert(element_count(shape, row.pending().len()) == n);
    assert forall|i: int| 0 <= i < n implies (#[trigger] cell_result(
        row.pending()[i],
        element_shape(shape, i),
    )) is Ok by {
        assert(cell_result(row.pending()[i], elems[i]) is Ok);
    }
    lemma_elements_all(row.pending(), shape, n);
    assert(Seq::new(n, |i: int| cell_result(row.pending()[i], element_shape(shape, i))->Ok_0)
        =~= Seq::new(n, |i: int| cell_result(row.pending()[i], elems[i])->Ok_0));
}

/// The decoding of a sequence or tuple does not look at the column names:
/// two rows with the same values decode alike.
pub proof fn law_positions_ignore_names<R: DeserializableRow>(a: R, b: R, shape: Shape)
    requires
        shape is Tuple || shape is Sequence,
        a.pending() == b.pending(),
    ensures
        decode_result(a, initial_mode(a), shape) == decode_result(b, initial_mode(b), shape),
{
}

/// A decoding that succeeds takes every column that the shape reaches: one
/// for a shape that stands for one column, all of them for a sequence or a
/// structure, and for a tuple as many as it has positions.
pub proof fn law_success_takes_all<R: DeserializableRow>(row: R, mode: MCD, shape: Shape)
    requires
        decode_result(row, mode, shape) is Ok,
    ensures
        shape.single() ==> taken_count(row, mode, shape) == 1,
        shape is Sequence || shape is Struct ==> taken_count(row, mode, shape)
            == row.pending().len(),
        shape is Tuple ==> taken_count(row, mode, shape) == element_count(
            shape,
            row.pending().len(),
        ),
    decreases shape,
{
    match shape {
        Shape::Newtype(inner) => {
            law_success_takes_all(row, mode, *inner);
        },
        Shape::Struct(fields) => {
            let n = row.pending().len();
            if n > 0 {
                let j = n - 1;
                assert(field_result(row, fields@, j) is Ok);
                let name = name_at(row.names(), current_index(row) + j)->Some_0;
                let k = field_position(fields@, name)->Some_0;
                lemma_reentry_single(row.pending()[j], fields@[k].shape);
            }
        },
        _ => {},
    }
}

/// The failure for a composite shape that is asked for where none is legal
/// any more.
pub open spec fn nesting_fault(shape: Shape) -> DecodeFault {
    DecodeFault::Usage(
        if shape is Struct {
            NESTED_STRUCT@
        } else {
            NESTED_COMPOSITE@
        },
    )
}

/// A composite target is selected once: decoding a sequence, tuple or
/// structure leaves the decoder committed, and in a committed decoder a
/// request for another one fails as a usage error, whatever the row holds,
/// and takes nothing from the row. A composite shape asked of a single
/// column fails alike.
pub proof fn law_no_nesting<R: DeserializableRow>(row: R, mode: MCD, shape: Shape)
    requires
        shape.composite(),
    ensures
        mode_after(shape, mode) == MCD::Done,
        decode_result(row, MCD::Done, shape) == Err::<Record, DecodeFault>(nesting_fault(shape)),
        taken_count(row, MCD::Done, shape) == 0,
        refused(shape, MCD::Done),
        forall|v: R::V| cell_result(v, shape) == Err::<Datum, DecodeFault>(nesting_fault(shape)),
        forall|v: R::V| reentry_result(v, shape) == Err::<Datum, DecodeFault>(nesting_fault(shape)),
{
}

/// Whether the shape asks for exactly the kind of the given content, which
/// is a boolean, an integer, a string or a byte sequence.
pub open spec fn of_kind(d: Datum, shape: Shape) -> bool {
    match d {
        Datum::Bool(_) => shape is Bool,
        Datum::U8(_) => shape is U8,
        Datum::U16(_) => shape is U16,
        Datum::U32(_) => shape is U32,
        Datum::U64(_) => shape is U64,
        Datum::I8(_) => shape is I8,
        Datum::I16(_) => shape is I16,
        Datum::I32(_) => shape is I32,
        Datum::I64(_) => shape is I64,
        Datum::Str(_) => shape is Str,
        Datum::Bytes(_) => shape is Bytes,
        _ => false,
    }
}

/// The encoding of a boolean, an integer, a string or a byte sequence
/// decodes, as its own kind, to what was encoded.
pub proof fn law_value_round_trip(m: MemoryValue, d: Datum, shape: Shape)
    requires
        m.holds(d),
        of_kind(d, shape),
    ensures
        cell_result(m, shape) == Ok::<Datum, DecodeFault>(d),
{
}

/// A structure that was encoded into a row decodes back to itself: where
/// the row holds one column for each field, named after it, with the
/// encoding of its value, and the target declares the same fields, each of
/// the kind of its value and no two of one name, the decoded fields are the
/// encoded ones, for every kind of scalar and for byte sequences.
pub proof fn law_round_trip(
    row: MemoryRow,
    source: Seq<(Seq<char>, Datum)>,
    fields: Seq<FieldShape>,
    shape: Shape,
)
    requires
        shape matches Shape::Struct(declared) && declared@ == fields,
        row.pending().len() == source.len(),
        row.names().len() == source.len(),
        fields.len() == source.len(),
        forall|j: int|
            0 <= j < source.len() ==> {
                &&& row.names()[j] == Some((#[trigger] source[j]).0)
                &&& row.pending()[j].holds(source[j].1)
                &&& fields[j].name@ == source[j].0
                &&& of_kind(source[j].1, fields[j].shape)
            },
        forall|i: int, j: int|
            0 <= i < j < source.len() ==> (#[trigger] source[i]).0 != (#[trigger] source[j]).0,
    ensures
        decode_result(row, initial_mode(row), shape) == Ok::<Record, DecodeFault>(
            Record::Struct(source),
        ),
{
    let n = source.len();
    assert forall|j: int| 0 <= j < n implies (#[trigger] field_result(row, fields, j)) == Ok::<
        (Seq<char>, Datum),
        DecodeFault,
    >(source[j]) by {
        assert(fields[j].name@ == source[j].0);
        assert forall|i: int| 0 <= i < j implies (#[trigger] fields[i]).name@ != source[j].0 by {
            assert(fields[i].name@ == source[i].0);
            assert(source[i].0 != source[j].0);
        }
        assert(first_match(fields, source[j].0, j));
        lemma_first_match(fields, source[j].0, j);
        law_value_round_trip(row.pending()[j], source[j].1, fields[j].shape);
        lemma_reentry_single(row.pending()[j], fields[j].shape);
    }
    lemma_fields_all(row, fields, n);
    assert(Seq::new(n, |j: int| field_result(row, fields, j)->Ok_0) =~= source);
}

} // verus!
