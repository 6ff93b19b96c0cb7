use vstd::prelude::*;
use crate::de::db_value::DbValue;
use crate::de::deserializable_row::{current_index, name_at, DeserializableRow};
use crate::de::deserialization_error::{
    DecodeFault, EMPTY_ROW, NESTED_COMPOSITE, NESTED_STRUCT, NO_FIELDNAME, NO_FIELD_VALUE,
    NO_MORE_VALUE, PLACEHOLDER,
};
use crate::de::field_deserializer::cell_result;
use crate::de::shape::{field_position, FieldShape, Shape};
use crate::de::value::{Datum, Record};

verus! {

/// Which targets a row admits at a given moment.
#[derive(Debug, Clone, Copy, PartialEq, Eq, Structural)]
pub enum MCD {
    /// The row has more than one column or none: only a composite target is
    /// legal.
    Must,
    /// The row has exactly one column: a bare scalar and a composite target
    /// are both legal.
    Can,
    /// A composite target has been selected: no further one is legal.
    Done,
}

/// The mode in which the decoding of a row starts.
pub open spec fn initial_mode<R: DeserializableRow>(row: R) -> MCD {
    if row.pending().len() == 1 {
        MCD::Can
    } else {
        MCD::Must
    }
}

/// What a request for the row's next value yields: the first pending value,
/// unless a bare value is illegal or the row is exhausted.
pub open spec fn next_value_result<R: DeserializableRow>(row: R, mode: MCD) -> Result<
    R::V,
    DecodeFault,
> {
    if mode is Must {
        Err(DecodeFault::TrailingCols)
    } else if row.pending().len() == 0 {
        Err(DecodeFault::Usage(NO_MORE_VALUE@))
    } else {
        Ok(row.pending()[0])
    }
}

/// The number of values that a request for the row's next value takes.
pub open spec fn step<R: DeserializableRow>(row: R, mode: MCD) -> int {
    if next_value_result(row, mode) is Ok {
        1
    } else {
        0
    }
}

/// What the row's next column decodes to, for a shape that stands for the
/// content of one column.
pub open spec fn column_result<R: DeserializableRow>(row: R, mode: MCD, shape: Shape) -> Result<
    Datum,
    DecodeFault,
> {
    match next_value_result(row, mode) {
        Ok(v) => cell_result(v, shape),
        Err(e) => Err(e),
    }
}

/// The field identifier of the row's next column: its name. There is none
/// where the row is exhausted, and none where the column has no name.
pub open spec fn identifier_result<R: DeserializableRow>(row: R) -> Result<Seq<char>, DecodeFault> {
    if row.pending().len() == 0 {
        Err(DecodeFault::Usage(EMPTY_ROW@))
    } else {
        match name_at(row.names(), current_index(row)) {
            Some(name) => Ok(name),
            None => Err(DecodeFault::Usage(NO_FIELDNAME@)),
        }
    }
}

/// The name under which the row's next column is known: its own, or a
/// placeholder where it has none.
pub open spec fn reported_name<R: DeserializableRow>(row: R) -> Seq<char> {
    match name_at(row.names(), current_index(row)) {
        Some(name) => name,
        None => PLACEHOLDER@,
    }
}

/// The declared field that the row's next column belongs to: the first one
/// with the column's name.
pub open spec fn key_result<R: DeserializableRow>(row: R, fields: Seq<FieldShape>) -> Result<
    int,
    DecodeFault,
> {
    match name_at(row.names(), current_index(row)) {
        Some(name) => match field_position(fields, name) {
            Some(k) => Ok(k),
            None => Err(DecodeFault::UnknownField(name)),
        },
        None => Err(DecodeFault::UnknownField(PLACEHOLDER@)),
    }
}

/// What the row's next value decodes to as an element of a sequence or
/// tuple: nothing where the row is exhausted, else the direct conversion of
/// the first pending value.
pub open spec fn element_result<R: DeserializableRow>(row: R, shape: Shape) -> Result<
    Option<Datum>,
    DecodeFault,
> {
    if row.pending().len() == 0 {
        Ok(None)
    } else {
        match cell_result(row.pending()[0], shape) {
            Ok(d) => Ok(Some(d)),
            Err(e) => Err(e),
        }
    }
}

/// What a column value decodes to where the committed decoder is asked
/// again, as it is for the value of a structure's field: the decoder itself
/// refuses a composite shape and a shape without a row representation, and
/// hands every other shape to the direct conversion of the value.
pub open spec fn reentry_result<V: DbValue>(v: V, shape: Shape) -> Result<Datum, DecodeFault>
    decreases shape,
{
    match shape {
        Shape::Newtype(inner) => reentry_result(v, *inner),
        Shape::Sequence(_) | Shape::Tuple(_) => Err(DecodeFault::Usage(NESTED_COMPOSITE@)),
        Shape::Struct(_) => Err(DecodeFault::Usage(NESTED_STRUCT@)),
        Shape::Char | Shape::Unit | Shape::Dictionary | Shape::UnitStruct | Shape::TupleStruct
        | Shape::Enum => Err(DecodeFault::NotImplemented(shape.label())),
        _ => cell_result(v, shape),
    }
}

/// The number of values that the committed decoder takes where it is asked
/// again while a value is left: one for a shape that stands for one column,
/// whether the value converts or not, and none for a shape that it refuses.
pub open spec fn reentry_taken(shape: Shape) -> int {
    if shape.single() {
        1
    } else {
        0
    }
}

/// For a shape that stands for one column, asking the decoder again is the
/// direct conversion; and only such a shape converts.
pub proof fn lemma_reentry_single<V: DbValue>(v: V, shape: Shape)
    ensures
        shape.single() ==> reentry_result(v, shape) == cell_result(v, shape),
        cell_result(v, shape) is Ok ==> shape.single(),
        reentry_result(v, shape) is Ok ==> shape.single(),
    decreases shape,
{
    match shape {
        Shape::Newtype(inner) => {
            lemma_reentry_single(v, *inner);
        },
        _ => {},
    }
}

/// What the key step of a structure yields: nothing where the row is
/// exhausted, else the declared field that the next column belongs to.
pub open spec fn key_step_result<R: DeserializableRow>(row: R, fields: Seq<FieldShape>) -> Result<
    Option<int>,
    DecodeFault,
> {
    if row.pending().len() == 0 {
        Ok(None)
    } else {
        match key_result(row, fields) {
            Ok(k) => Ok(Some(k)),
            Err(e) => Err(e),
        }
    }
}

/// What the value step of a structure yields: the next column decoded as
/// the field's shape, by asking the decoder again. It fails where no value
/// is left.
pub open spec fn value_step_result<R: DeserializableRow>(row: R, shape: Shape) -> Result<
    Datum,
    DecodeFault,
> {
    if row.pending().len() == 0 {
        Err(DecodeFault::Usage(NO_FIELD_VALUE@))
    } else {
        reentry_result(row.pending()[0], shape)
    }
}

/// The number of values that the value step of a structure takes.
pub open spec fn value_step_taken<R: DeserializableRow>(row: R, shape: Shape) -> int {
    if row.pending().len() == 0 {
        0
    } else {
        reentry_taken(shape)
    }
}

/// The shape of a composite's element at a position.
pub open spec fn element_shape(shape: Shape, i: int) -> Shape {
    match shape {
        Shape::Sequence(elem) => *elem,
        Shape::Tuple(elems) => elems@[i],
        _ => shape,
    }
}

/// The number of columns that a sequence or tuple takes from a row with
/// `pending` values left: all of them for a sequence, and for a tuple as
/// many as it has positions, or all where the row has fewer.
pub open spec fn element_count(shape: Shape, pending: nat) -> nat {
    match shape {
        Shape::Tuple(elems) => if elems@.len() <= pending {
            elems@.len()
        } else {
            pending
        },
        _ => pending,
    }
}

/// The first `n` elements of a sequence or tuple, each decoded from the
/// value at its position; the first failure, in row order, is the result.
pub open spec fn elements_result<V: DbValue>(values: Seq<V>, shape: Shape, n: nat) -> Result<
    Seq<Datum>,
    DecodeFault,
>
    decreases n,
{
    if n == 0 {
        Ok(Seq::empty())
    } else {
        match elements_result(values, shape, (n - 1) as nat) {
            Err(e) => Err(e),
            Ok(done) => match cell_result(values[n - 1], element_shape(shape, n - 1)) {
                Ok(d) => Ok(done.push(d)),
                Err(e) => Err(e),
            },
        }
    }
}

/// The number of values that the decoding of the first `n` elements takes:
/// all `n` where the elements before the last one decode, and else as many
/// as were taken up to the first failure, the failing one included.
pub open spec fn elements_taken<V: DbValue>(values: Seq<V>, shape: Shape, n: nat) -> int
    decreases n,
{
    if n == 0 {
        0
    } else if elements_result(values, shape, (n - 1) as nat) is Err {
        elements_taken(values, shape, (n - 1) as nat)
    } else {
        n as int
    }
}

/// The decoded field for the pending column at position `j`: the column's
/// name, and its value decoded as the shape of the declared field of that
/// name.
pub open spec fn field_result<R: DeserializableRow>(
    row: R,
    fields: Seq<FieldShape>,
    j: int,
) -> Result<(Seq<char>, Datum), DecodeFault> {
    match name_at(row.names(), current_index(row) + j) {
        None => Err(DecodeFault::UnknownField(PLACEHOLDER@)),
        Some(name) => match field_position(fields, name) {
            None => Err(DecodeFault::UnknownField(name)),
            Some(k) => match reentry_result(row.pending()[j], fields[k].shape) {
                Ok(d) => Ok((name, d)),
                Err(e) => Err(e),
            },
        },
    }
}

/// The number of values that the pending column at position `j` costs: one
/// where a declared field is named after it and the field's shape stands
/// for one column, whether the value converts or not; none where the column
/// is unknown or the field's shape is refused.
pub open spec fn field_taken<R: DeserializableRow>(row: R, fields: Seq<FieldShape>, j: int) -> int {
    match name_at(row.names(), current_index(row) + j) {
        None => 0,
        Some(name) => match field_position(fields, name) {
            None => 0,
            Some(k) => reentry_taken(fields[k].shape),
        },
    }
}

/// The decoded fields for the first `n` pending columns; the first failure,
/// in row order, is the result.
pub open spec fn fields_result<R: DeserializableRow>(
    row: R,
    fields: Seq<FieldShape>,
    n: nat,
) -> Result<Seq<(Seq<char>, Datum)>, DecodeFault>
    decreases n,
{
    if n == 0 {
        Ok(Seq::empty())
    } else {
        match fields_result(row, fields, (n - 1) as nat) {
            Err(e) => Err(e),
            Ok(done) => match field_result(row, fields, n - 1) {
                Ok(d) => Ok(done.push(d)),
                Err(e) => Err(e),
            },
        }
    }
}

/// The number of values that the decoding of the first `n` columns as
/// fields takes: what the columns up to the first failure cost, the failing
/// one included.
pub open spec fn fields_taken<R: DeserializableRow>(row: R, fields: Seq<FieldShape>, n: nat) -> int
    decreases n,
{
    if n == 0 {
        0
    } else if fields_result(row, fields, (n - 1) as nat) is Err {
        fields_taken(row, fields, (n - 1) as nat)
    } else {
        n - 1 + field_taken(row, fields, n - 1)
    }
}

/// What the pending values decode to as a sequence or tuple.
pub open spec fn composite_elements<V: DbValue>(pending: Seq<V>, shape: Shape) -> Result<
    Record,
    DecodeFault,
> {
    match elements_result(pending, shape, element_count(shape, pending.len())) {
        Ok(ds) => Ok(Record::Tuple(ds)),
        Err(e) => Err(e),
    }
}

/// What the pending columns decode to as a structure with the given
/// declared fields.
pub open spec fn composite_fields<R: DeserializableRow>(row: R, fields: Seq<FieldShape>) -> Result<
    Record,
    DecodeFault,
> {
    match fields_result(row, fields, row.pending().len()) {
        Ok(fs) => Ok(Record::Struct(fs)),
        Err(e) => Err(e),
    }
}

/// A failure among the first elements is the failure of the whole, and
/// nothing is taken after it.
pub proof fn lemma_elements_failure<V: DbValue>(values: Seq<V>, shape: Shape, k: nat, n: nat)
    requires
        k <= n,
        elements_result(values, shape, k) is Err,
    ensures
        elements_result(values, shape, n) == elements_result(values, shape, k),
        elements_taken(values, shape, n) == elements_taken(values, shape, k),
    decreases n,
{
    if k < n {
        lemma_elements_failure(values, shape, k, (n - 1) as nat);
    }
}

/// A failure among the first fields is the failure of the whole, and
/// nothing is taken after it.
pub proof fn lemma_fields_failure<R: DeserializableRow>(
    row: R,
    fields: Seq<FieldShape>,
    k: nat,
    n: nat,
)
    requires
        k <= n,
        fields_result(row, fields, k) is Err,
    ensures
        fields_result(row, fields, n) == fields_result(row, fields, k),
        fields_taken(row, fields, n) == fields_taken(row, fields, k),
    decreases n,
{
    if k < n {
        lemma_fields_failure(row, fields, k, (n - 1) as nat);
    }
}

/// What a row in a given mode decodes to, for a requested shape.
pub open spec fn decode_result<R: DeserializableRow>(row: R, mode: MCD, shape: Shape) -> Result<
    Record,
    DecodeFault,
>
    decreases shape,
{
    match shape {
        Shape::Newtype(inner) => decode_result(row, mode, *inner),
        Shape::Sequence(_) | Shape::Tuple(_) => if mode is Done {
            Err(DecodeFault::Usage(NESTED_COMPOSITE@))
        } else {
            composite_elements(row.pending(), shape)
        },
        Shape::Struct(fields) => if mode is Done {
            Err(DecodeFault::Usage(NESTED_STRUCT@))
        } else {
            composite_fields(row, fields@)
        },
        Shape::Char | Shape::Unit | Shape::Dictionary | Shape::UnitStruct | Shape::TupleStruct
        | Shape::Enum => Err(DecodeFault::NotImplemented(shape.label())),
        _ => match column_result(row, mode, shape) {
            Ok(d) => Ok(Record::Single(d)),
            Err(e) => Err(e),
        },
    }
}

/// The number of values that a request takes out of the row, whatever its
/// outcome. A refused request takes none; a request for one column takes
/// the value where one is handed out, whether it converts or not; a
/// composite takes the columns up to the first failure.
pub open spec fn taken_count<R: DeserializableRow>(row: R, mode: MCD, shape: Shape) -> int
    decreases shape,
{
    match shape {
        Shape::Newtype(inner) => taken_count(row, mode, *inner),
        Shape::Sequence(_) | Shape::Tuple(_) => if mode is Done {
            0
        } else {
            elements_taken(row.pending(), shape, element_count(shape, row.pending().len()))
        },
        Shape::Struct(fields) => if mode is Done {
            0
        } else {
            fields_taken(row, fields@, row.pending().len())
        },
        Shape::Char | Shape::Unit | Shape::Dictionary | Shape::UnitStruct | Shape::TupleStruct
        | Shape::Enum => 0,
        _ => step(row, mode),
    }
}

/// Whether the decoder refuses the request without a look at the row: a
/// composite where one has been selected already, a shape without a row
/// representation, and a shape for one column while columns would be left.
pub open spec fn refused(shape: Shape, mode: MCD) -> bool
    decreases shape,
{
    match shape {
        Shape::Newtype(inner) => refused(*inner, mode),
        Shape::Sequence(_) | Shape::Tuple(_) | Shape::Struct(_) => mode is Done,
        Shape::Char | Shape::Unit | Shape::Dictionary | Shape::UnitStruct | Shape::TupleStruct
        | Shape::Enum => true,
        _ => mode is Must,
    }
}

/// The mode after a request, whatever its outcome: a request for a
/// composite leaves the decoder committed, every other one leaves the mode
/// as it was.
pub open spec fn mode_after(shape: Shape, mode: MCD) -> MCD
    decreases shape,
{
    match shape {
        Shape::Newtype(inner) => mode_after(*inner, mode),
        Shape::Sequence(_) | Shape::Tuple(_) | Shape::Struct(_) => MCD::Done,
        _ => mode,
    }
}

/// Once a composite target is selected, every request decodes the next
/// column by asking the decoder again: it yields what that yields, takes
/// what that takes, and the mode stays.
pub proof fn lemma_decode_committed<R: DeserializableRow>(row: R, shape: Shape)
    requires
        row.pending().len() > 0,
    ensures
        decode_result(row, MCD::Done, shape) == (match reentry_result(row.pending()[0], shape) {
            Ok(d) => Ok(Record::Single(d)),
            Err(e) => Err(e),
        }),
        taken_count(row, MCD::Done, shape) == reentry_taken(shape),
        mode_after(shape, MCD::Done) == MCD::Done,
    decreases shape,
{
    match shape {
        Shape::Newtype(inner) => {
            lemma_decode_committed(row, *inner);
        },
        _ => {},
    }
}

} // verus!
