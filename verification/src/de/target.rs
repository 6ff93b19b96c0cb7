use vstd::prelude::*;
use crate::de::deserializable_row::{lemma_taken_again, lemma_taken_none, DeserializableRow};
use crate::de::deserialization_error::{
    struct_outcome, tuple_outcome, DecodeFault, DeserializationError,
};
use crate::de::row_deserializer::{FieldsMapVisitor, FieldsSeqVisitor};
use crate::de::semantics::{
    composite_elements, composite_fields, element_count, elements_result, elements_taken,
    fields_result, fields_taken, lemma_elements_failure, lemma_fields_failure,
    lemma_reentry_single, reentry_taken, reported_name, MCD,
};
use crate::de::shape::{lemma_field_position, FieldShape, Shape};
use crate::de::value::{data, entries, Datum, FieldValue, Value};

verus! {

/// Fills a sequence of any length: asks for elements of the one shape until
/// the row is exhausted.
pub fn collect_sequence<'a, R: DeserializableRow>(
    mut access: FieldsSeqVisitor<'a, R>,
    elem: &Shape,
) -> (r: Result<Vec<Value>, DeserializationError>)
    ensures
        tuple_outcome(r) == composite_elements(
            old(access.de).row().pending(),
            Shape::Sequence(Box::new(*elem)),
        ),
        final(access.de).advanced(
            *old(access.de),
            elements_taken(
                old(access.de).row().pending(),
                Shape::Sequence(Box::new(*elem)),
                old(access.de).row().pending().len(),
            ),
            old(access.de).mode(),
        ),
{
    let ghost start = *access.de;
    let ghost fin = *final(access.de);
    let ghost shape = Shape::Sequence(Box::new(*elem));
    let ghost total = start.row().pending().len();
    let mut out: Vec<Value> = Vec::new();
    proof {
        lemma_taken_none(start.row());
        assert(data(out@) =~= Seq::empty());
    }
    loop
        invariant
            *final(access.de) == fin,
            fin == *final(old(access.de)),
            start == *old(access.de),
            out@.len() <= total,
            access.de.advanced(start, out@.len() as int, start.mode()),
            elements_result(start.row().pending(), shape, out@.len() as nat) == Ok::<
                Seq<Datum>,
                DecodeFault,
            >(data(out@)),
            elements_taken(start.row().pending(), shape, out@.len() as nat) == out@.len(),
            shape == Shape::Sequence(Box::new(*elem)),
            total == start.row().pending().len(),
        ensures
            out@.len() == total,
        decreases total - out@.len(),
    {
        let ghost k = out@.len();
        let ghost before = *access.de;
        let step = access.next_element_seed(elem);
        proof {
            lemma_taken_again(
                start.row(),
                before.row(),
                access.de.row(),
                k as int,
                if before.row().pending().len() > 0 {
                    1int
                } else {
                    0int
                },
            );
        }
        match step {
            Err(e) => {
                proof {
                    lemma_elements_failure(start.row().pending(), shape, k + 1, total);
                }
                return Err(e);
            },
            Ok(None) => {
                break ;
            },
            Ok(Some(v)) => {
                proof {
                    assert(data(out@.push(v)) =~= data(out@).push(v@));
                }
                out.push(v);
            },
        }
    }
    Ok(out)
}

/// Fills a tuple: asks for one element for each position, in order, and
/// stops early where the row is exhausted.
pub fn collect_tuple<'a, R: DeserializableRow>(
    mut access: FieldsSeqVisitor<'a, R>,
    elems: &Vec<Shape>,
) -> (r: Result<Vec<Value>, DeserializationError>)
    ensures
        tuple_outcome(r) == composite_elements(
            old(access.de).row().pending(),
            Shape::Tuple(*elems),
        ),
        final(access.de).advanced(
            *old(access.de),
            elements_taken(
                old(access.de).row().pending(),
                Shape::Tuple(*elems),
                element_count(Shape::Tuple(*elems), old(access.de).row().pending().len()),
            ),
            old(access.de).mode(),
        ),
{
    let ghost start = *access.de;
    let ghost fin = *final(access.de);
    let ghost shape = Shape::Tuple(*elems);
    let ghost total = element_count(shape, start.row().pending().len());
    let mut out: Vec<Value> = Vec::new();
    proof {
        lemma_taken_none(start.row());
        assert(data(out@) =~= Seq::empty());
    }
    loop
        invariant
            *final(access.de) == fin,
            fin == *final(old(access.de)),
            start == *old(access.de),
            out@.len() <= total,
            access.de.advanced(start, out@.len() as int, start.mode()),
            elements_result(start.row().pending(), shape, out@.len() as nat) == Ok::<
                Seq<Datum>,
                DecodeFault,
            >(data(out@)),
            elements_taken(start.row().pending(), shape, out@.len() as nat) == out@.len(),
            shape == Shape::Tuple(*elems),
            total == element_count(shape, start.row().pending().len()),
        ensures
            out@.len() == total,
        decreases total - out@.len(),
    {
        if out.len() >= elems.len() {
            break ;
        }
        let ghost k = out@.len();
        let ghost before = *access.de;
        let step = access.next_element_seed(&elems[out.len()]);
        proof {
            lemma_taken_again(
                start.row(),
                before.row(),
                access.de.row(),
                k as int,
                if before.row().pending().len() > 0 {
                    1int
                } else {
                    0int
                },
            );
        }
        match step {
            Err(e) => {
                proof {
                    lemma_elements_failure(start.row().pending(), shape, k + 1, total);
                }
                return Err(e);
            },
            Ok(None) => {
                break ;
            },
            Ok(Some(v)) => {
                proof {
                    assert(data(out@.push(v)) =~= data(out@).push(v@));
                }
                out.push(v);
            },
        }
    }
    Ok(out)
}

/// Fills a structure: for each column the key step and then the value step,
/// until the row is exhausted. Every column becomes one field, named after
/// the column.
pub fn collect_struct<'a, R: DeserializableRow>(
    mut access: FieldsMapVisitor<'a, R>,
    fields: &Vec<FieldShape>,
) -> (r: Result<Vec<FieldValue>, DeserializationError>)
    requires
        old(access.de).wf(),
        old(access.de).mode() is Done,
    ensures
        struct_outcome(r) == composite_fields(old(access.de).row(), fields@),
        final(access.de).advanced(
            *old(access.de),
            fields_taken(old(access.de).row(), fields@, old(access.de).row().pending().len()),
            MCD::Done,
        ),
    decreases *fields, 0nat,
{
    let ghost start = *access.de;
    let ghost fin = *final(access.de);
    let ghost total = start.row().pending().len();
    let mut out: Vec<FieldValue> = Vec::new();
    proof {
        lemma_taken_none(start.row());
        assert(entries(out@) =~= Seq::empty());
    }
    loop
        invariant
            *final(access.de) == fin,
            fin == *final(old(access.de)),
            start == *old(access.de),
            start.wf(),
            out@.len() <= total,
            access.de.advanced(start, out@.len() as int, MCD::Done),
            fields_result(start.row(), fields@, out@.len() as nat) == Ok::<
                Seq<(Seq<char>, Datum)>,
                DecodeFault,
            >(entries(out@)),
            fields_taken(start.row(), fields@, out@.len() as nat) == out@.len(),
            total == start.row().pending().len(),
        ensures
            out@.len() == total,
        decreases total - out@.len(),
    {
        let ghost k = out@.len();
        let ghost before = *access.de;
        proof {
            lemma_taken_none(before.row());
            lemma_taken_again(start.row(), before.row(), before.row(), k as int, 0);
        }
        let key = match access.next_key_seed(fields) {
            Err(e) => {
                proof {
                    lemma_fields_failure(start.row(), fields@, k + 1, total);
                }
                return Err(e);
            },
            Ok(None) => {
                break ;
            },
            Ok(Some(key)) => key,
        };
        proof {
            lemma_field_position(fields@, reported_name(before.row()));
        }
        let name = fields[key].name.clone();
        let step = access.next_value_seed(&fields[key].shape);
        proof {
            lemma_taken_again(
                start.row(),
                before.row(),
                access.de.row(),
                k as int,
                reentry_taken(fields@[key as int].shape),
            );
            lemma_reentry_single(before.row().pending()[0], fields@[key as int].shape);
        }
        match step {
            Err(e) => {
                proof {
                    lemma_fields_failure(start.row(), fields@, k + 1, total);
                }
                return Err(e);
            },
            Ok(value) => {
                let field = FieldValue { name, value };
                proof {
                    assert(entries(out@.push(field)) =~= entries(out@).push(field@));
                }
                out.push(field);
            },
        }
    }
    Ok(out)
}

} // verus!
