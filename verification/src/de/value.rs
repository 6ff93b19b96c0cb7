use vstd::prelude::*;

verus! {

/// The decoded content of one column.
#[derive(Debug, PartialEq, Eq)]
pub enum Value {
    Bool(bool),
    U8(u8),
    U16(u16),
    U32(u32),
    U64(u64),
    I8(i8),
    I16(i16),
    I32(i32),
    I64(i64),
    Str(String),
    Bytes(Vec<u8>),
    /// An optional whose column was null.
    Absent,
    /// An optional whose column held a value.
    Present(Box<Value>),
}

/// The mathematical content of a [`Value`].
pub enum Datum {
    Bool(bool),
    U8(u8),
    U16(u16),
    U32(u32),
    U64(u64),
    I8(i8),
    I16(i16),
    I32(i32),
    I64(i64),
    Str(Seq<char>),
    Bytes(Seq<u8>),
    Absent,
    Present(Box<Datum>),
}

impl Value {
    /// What the value holds.
    pub open spec fn datum(self) -> Datum
        decreases self,
    {
        match self {
            Value::Bool(x) => Datum::Bool(x),
            Value::U8(x) => Datum::U8(x),
            Value::U16(x) => Datum::U16(x),
            Value::U32(x) => Datum::U32(x),
            Value::U64(x) => Datum::U64(x),
            Value::I8(x) => Datum::I8(x),
            Value::I16(x) => Datum::I16(x),
            Value::I32(x) => Datum::I32(x),
            Value::I64(x) => Datum::I64(x),
            Value::Str(s) => Datum::Str(s@),
            Value::Bytes(b) => Datum::Bytes(b@),
            Value::Absent => Datum::Absent,
            Value::Present(inner) => Datum::Present(Box::new(inner.datum())),
        }
    }
}

impl View for Value {
    type V = Datum;

    open spec fn view(&self) -> Datum {
        self.datum()
    }
}

/// A decoded field of a structure: the column's name and its content.
#[derive(Debug, PartialEq, Eq)]
pub struct FieldValue {
    pub name: String,
    pub value: Value,
}

impl View for FieldValue {
    type V = (Seq<char>, Datum);

    open spec fn view(&self) -> (Seq<char>, Datum) {
        (self.name@, self.value@)
    }
}

/// The value that a row was decoded into.
#[derive(Debug, PartialEq, Eq)]
pub enum Decoded {
    /// The content of the row's one column.
    Single(Value),
    /// The contents of the columns, by position.
    Tuple(Vec<Value>),
    /// The contents of the columns, each with its column's name, in row
    /// order.
    Struct(Vec<FieldValue>),
}

/// The mathematical content of a [`Decoded`].
pub enum Record {
    Single(Datum),
    Tuple(Seq<Datum>),
    Struct(Seq<(Seq<char>, Datum)>),
}

/// The contents of a run of values.
pub open spec fn data(values: Seq<Value>) -> Seq<Datum> {
    Seq::new(values.len(), |i: int| values[i]@)
}

/// The contents of a run of decoded fields.
pub open spec fn entries(fields: Seq<FieldValue>) -> Seq<(Seq<char>, Datum)> {
    Seq::new(fields.len(), |i: int| fields[i]@)
}

impl View for Decoded {
    type V = Record;

    open spec fn view(&self) -> Record {
        match self {
            Decoded::Single(v) => Record::Single(v@),
            Decoded::Tuple(vs) => Record::Tuple(data(vs@)),
            Decoded::Struct(fs) => Record::Struct(entries(fs@)),
        }
    }
}

} // verus!
