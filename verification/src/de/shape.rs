use vstd::prelude::*;

verus! {

/// The shape of the value that a row is to be decoded into.
#[derive(Debug)]
pub enum Shape {
    Bool,
    U8,
    U16,
    U32,
    U64,
    I8,
    I16,
    I32,
    I64,
    /// A string.
    Str,
    /// A byte sequence.
    Bytes,
    /// A value that may be absent: absent where the column is null.
    Optional(Box<Shape>),
    /// A wrapper around one value, decoded as the value it wraps.
    Newtype(Box<Shape>),
    /// A sequence of any length, every element of the same shape.
    Sequence(Box<Shape>),
    /// A tuple, one shape for each position.
    Tuple(Vec<Shape>),
    /// A structure with named fields.
    Struct(Vec<FieldShape>),
    /// A single character: a row cannot represent it.
    Char,
    /// The unit value: a row cannot represent it.
    Unit,
    /// A map with keys of any kind: a row cannot represent it.
    Dictionary,
    /// A structure without fields: a row cannot represent it.
    UnitStruct,
    /// A structure with unnamed fields: a row cannot represent it.
    TupleStruct,
    /// A sum type: a row cannot represent it.
    Enum,
}

/// One declared field of a target structure.
#[derive(Debug)]
pub struct FieldShape {
    pub name: String,
    pub shape: Shape,
}

impl Shape {
    /// Whether the shape spans several columns.
    pub open spec fn composite(self) -> bool {
        self is Sequence || self is Tuple || self is Struct
    }

    /// Whether a row has no representation for the shape.
    pub open spec fn unsupported(self) -> bool {
        self is Char || self is Unit || self is Dictionary || self is UnitStruct
            || self is TupleStruct || self is Enum
    }

    /// What the row decoder reports for a shape without a row
    /// representation: the request that it refuses.
    pub open spec fn label(self) -> Seq<char> {
        match self {
            Shape::Char => "RowDeserializer::deserialize_char()!"@,
            Shape::Unit => "RowDeserializer::deserialize_unit()"@,
            Shape::Dictionary => "RowDeserializer::deserialize_map()"@,
            Shape::UnitStruct => "RowDeserializer::deserialize_unit_struct()"@,
            Shape::TupleStruct => "RowDeserializer::deserialize_tuple_struct()"@,
            Shape::Enum => "RowDeserializer::deserialize_enum()"@,
            _ => Seq::empty(),
        }
    }

    /// What the decoder of one column value reports for a shape without a
    /// row representation: the request that it refuses.
    pub open spec fn cell_label(self) -> Seq<char> {
        match self {
            Shape::Char => "FieldDeserializer::deserialize_char()"@,
            Shape::Unit => "FieldDeserializer::deserialize_unit()"@,
            Shape::Dictionary => "FieldDeserializer::deserialize_map()"@,
            Shape::UnitStruct => "FieldDeserializer::deserialize_unit_struct()"@,
            Shape::TupleStruct => "FieldDeserializer::deserialize_tuple_struct()"@,
            Shape::Enum => "FieldDeserializer::deserialize_enum()"@,
            _ => Seq::empty(),
        }
    }

    /// Whether the shape stands for the content of exactly one column, once
    /// wrappers are taken off: a primitive, a string, bytes, or an optional.
    pub open spec fn single(self) -> bool
        decreases self,
    {
        match self {
            Shape::Newtype(inner) => inner.single(),
            _ => !self.composite() && !self.unsupported(),
        }
    }
}

/// The index of the first declared field with the given name.
pub open spec fn field_position(fields: Seq<FieldShape>, name: Seq<char>) -> Option<int>
    decreases fields.len(),
{
    if fields.len() == 0 {
        None
    } else if fields[0].name@ == name {
        Some(0)
    } else {
        match field_position(fields.skip(1), name) {
            Some(k) => Some(k + 1),
            None => None,
        }
    }
}

/// Whether the declared field at position `k` is the first with the name.
pub open spec fn first_match(fields: Seq<FieldShape>, name: Seq<char>, k: int) -> bool {
    &&& 0 <= k < fields.len()
    &&& fields[k].name@ == name
    &&& forall|j: int| 0 <= j < k ==> (#[trigger] fields[j]).name@ != name
}

/// The position found for a name is that of the first declared field with
/// the name, and none is found only where no declared field has it.
pub proof fn lemma_field_position(fields: Seq<FieldShape>, name: Seq<char>)
    ensures
        match field_position(fields, name) {
            Some(k) => first_match(fields, name, k),
            None => forall|j: int| 0 <= j < fields.len() ==> (#[trigger] fields[j]).name@ != name,
        },
    decreases fields.len(),
{
    if fields.len() > 0 && fields[0].name@ != name {
        let rest = fields.skip(1);
        lemma_field_position(rest, name);
        match field_position(rest, name) {
            Some(k) => {
                assert forall|j: int| 0 <= j < k + 1 implies (#[trigger] fields[j]).name@
                    != name by {
                    if j > 0 {
                        assert(fields[j] == rest[j - 1]);
                    }
                }
                assert(fields[k + 1] == rest[k]);
            },
            None => {
                assert forall|j: int| 0 <= j < fields.len() implies (#[trigger] fields[j]).name@
                    != name by {
                    if j > 0 {
                        assert(fields[j] == rest[j - 1]);
                    }
                }
            },
        }
    }
}

/// Only the first declared field with a name is the position found for it.
pub proof fn lemma_first_match(fields: Seq<FieldShape>, name: Seq<char>, k: int)
    requires
        first_match(fields, name, k),
    ensures
        field_position(fields, name) == Some(k),
{
    lemma_field_position(fields, name);
}

/// Looks a name up among the declared fields: the first one that has it.
pub fn find_field(fields: &Vec<FieldShape>, name: &String) -> (r: Option<usize>)
    ensures
        match r {
            Some(k) => field_position(fields@, name@) == Some(k as int),
            None => field_position(fields@, name@) is None,
        },
{
    let mut i: usize = 0;
    while i < fields.len()
        invariant
            i <= fields@.len(),
            forall|j: int| 0 <= j < i ==> (#[trigger] fields@[j]).name@ != name@,
        decreases fields@.len() - i,
    {
        if fields[i].name == *name {
            proof {
                lemma_first_match(fields@, name@, i as int);
            }
            return Some(i);
        }
        i = i + 1;
    }
    proof {
        lemma_field_position(fields@, name@);
    }
    None
}

} // verus!
