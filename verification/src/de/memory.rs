use vstd::prelude::*;
use crate::de::conversion_error::{ConversionError, ConversionFault};
use crate::de::db_value::DbValue;
use crate::de::deserializable_row::{row_wf, DeserializableRow};
use crate::de::value::{Datum, FieldValue, Value};

verus! {

/// Message of the failure to convert a value of another type.
pub const NOT_CONVERTIBLE: &'static str = "the value cannot be converted into the requested type";

/// Message of the failure to convert a number that does not fit.
pub const OUT_OF_RANGE: &'static str = "the number does not fit into the requested type";

/// A column value held in memory.
///
/// A boolean converts into `bool`, an integer into every integer type that
/// holds its number, a text into a string, and bytes into a byte sequence.
/// Nothing else converts; null converts into nothing.
#[derive(Debug, PartialEq, Eq)]
pub enum MemoryValue {
    Null,
    Bool(bool),
    Int(i64),
    UInt(u64),
    Text(String),
    Bytes(Vec<u8>),
}

/// The failure for a value of another type than the requested one.
pub open spec fn mismatch() -> ConversionFault {
    ConversionFault::ValueType(NOT_CONVERTIBLE@)
}

/// The failure for a number outside the requested type's range.
pub open spec fn overflow() -> ConversionFault {
    ConversionFault::NumberRange(OUT_OF_RANGE@)
}

impl MemoryValue {
    /// The number that the value holds, where it holds one.
    pub open spec fn number(self) -> Option<int> {
        match self {
            MemoryValue::Int(i) => Some(i as int),
            MemoryValue::UInt(u) => Some(u as int),
            _ => None,
        }
    }

    /// The value's number, where it holds one within the given bounds.
    pub open spec fn bounded(self, low: int, high: int) -> Result<int, ConversionFault> {
        match self.number() {
            None => Err(mismatch()),
            Some(n) => if low <= n <= high {
                Ok(n)
            } else {
                Err(overflow())
            },
        }
    }

    /// Whether the value is the encoding of the given content: a boolean for
    /// a boolean, an integer for a number, a text for a string, bytes for
    /// bytes, null for an absent optional, and for a present one the
    /// encoding of what it wraps.
    pub open spec fn holds(self, d: Datum) -> bool
        decreases d,
    {
        match d {
            Datum::Bool(x) => self == MemoryValue::Bool(x),
            Datum::U8(x) => self == MemoryValue::UInt(x as u64),
            Datum::U16(x) => self == MemoryValue::UInt(x as u64),
            Datum::U32(x) => self == MemoryValue::UInt(x as u64),
            Datum::U64(x) => self == MemoryValue::UInt(x),
            Datum::I8(x) => self == MemoryValue::Int(x as i64),
            Datum::I16(x) => self == MemoryValue::Int(x as i64),
            Datum::I32(x) => self == MemoryValue::Int(x as i64),
            Datum::I64(x) => self == MemoryValue::Int(x),
            Datum::Str(s) => self matches MemoryValue::Text(t) && t@ == s,
            Datum::Bytes(b) => self matches MemoryValue::Bytes(v) && v@ == b,
            Datum::Absent => self is Null,
            Datum::Present(inner) => self.holds(*inner),
        }
    }

    /// The encoding of a decoded value.
    pub fn encode(value: &Value) -> (m: MemoryValue)
        ensures
            m.holds(value@),
        decreases *value,
    {
        match value {
            Value::Bool(x) => MemoryValue::Bool(*x),
            Value::U8(x) => MemoryValue::UInt(*x as u64),
            Value::U16(x) => MemoryValue::UInt(*x as u64),
            Value::U32(x) => MemoryValue::UInt(*x as u64),
            Value::U64(x) => MemoryValue::UInt(*x),
            Value::I8(x) => MemoryValue::Int(*x as i64),
            Value::I16(x) => MemoryValue::Int(*x as i64),
            Value::I32(x) => MemoryValue::Int(*x as i64),
            Value::I64(x) => MemoryValue::Int(*x),
            Value::Str(s) => MemoryValue::Text(s.clone()),
            Value::Bytes(b) => {
                let copy = b.clone();
                assert(copy@ =~= b@);
                MemoryValue::Bytes(copy)
            },
            Value::Absent => MemoryValue::Null,
            Value::Present(inner) => MemoryValue::encode(inner),
        }
    }

    fn type_error() -> (e: ConversionError)
        ensures
            e@ == mismatch(),
    {
        ConversionError::ValueType(NOT_CONVERTIBLE.to_owned())
    }

    fn range_error() -> (e: ConversionError)
        ensures
            e@ == overflow(),
    {
        ConversionError::NumberRange(OUT_OF_RANGE.to_owned())
    }

    /// The value's number, where it is an integer from 0 to `high`.
    fn unsigned(self, high: u64) -> (r: Result<u64, ConversionError>)
        ensures
            match r {
                Ok(n) => self.bounded(0, high as int) == Ok::<int, ConversionFault>(n as int),
                Err(e) => self.bounded(0, high as int) == Err::<int, ConversionFault>(e@),
            },
    {
        match self {
            MemoryValue::Int(i) => {
                if i < 0 {
                    Err(Self::range_error())
                } else if i as u64 <= high {
                    Ok(i as u64)
                } else {
                    Err(Self::range_error())
                }
            },
            MemoryValue::UInt(u) => {
                if u <= high {
                    Ok(u)
                } else {
                    Err(Self::range_error())
                }
            },
            _ => Err(Self::type_error()),
        }
    }

    /// The value's number, where it is an integer from `low` to `high`.
    fn signed(self, low: i64, high: i64) -> (r: Result<i64, ConversionError>)
        requires
            low <= 0 <= high,
        ensures
            match r {
                Ok(n) => self.bounded(low as int, high as int) == Ok::<int, ConversionFault>(
                    n as int,
                ),
                Err(e) => self.bounded(low as int, high as int) == Err::<int, ConversionFault>(e@),
            },
    {
        match self {
            MemoryValue::Int(i) => {
                if low <= i && i <= high {
                    Ok(i)
                } else {
                    Err(Self::range_error())
                }
            },
            MemoryValue::UInt(u) => {
                if u <= high as u64 {
                    Ok(u as i64)
                } else {
                    Err(Self::range_error())
                }
            },
            _ => Err(Self::type_error()),
        }
    }
}

impl DbValue for MemoryValue {
    open spec fn null(&self) -> bool {
        self is Null
    }

    open spec fn as_bool(&self) -> Result<bool, ConversionFault> {
        match self {
            MemoryValue::Bool(b) => Ok(*b),
            _ => Err(mismatch()),
        }
    }

    open spec fn as_u8(&self) -> Result<u8, ConversionFault> {
        match self.bounded(0, u8::MAX as int) {
            Ok(n) => Ok(n as u8),
            Err(e) => Err(e),
        }
    }

    open spec fn as_u16(&self) -> Result<u16, ConversionFault> {
        match self.bounded(0, u16::MAX as int) {
            Ok(n) => Ok(n as u16),
            Err(e) => Err(e),
        }
    }

    open spec fn as_u32(&self) -> Result<u32, ConversionFault> {
        match self.bounded(0, u32::MAX as int) {
            Ok(n) => Ok(n as u32),
            Err(e) => Err(e),
        }
    }

    open spec fn as_u64(&self) -> Result<u64, ConversionFault> {
        match self.bounded(0, u64::MAX as int) {
            Ok(n) => Ok(n as u64),
            Err(e) => Err(e),
        }
    }

    open spec fn as_i8(&self) -> Result<i8, ConversionFault> {
        match self.bounded(i8::MIN as int, i8::MAX as int) {
            Ok(n) => Ok(n as i8),
            Err(e) => Err(e),
        }
    }

    open spec fn as_i16(&self) -> Result<i16, ConversionFault> {
        match self.bounded(i16::MIN as int, i16::MAX as int) {
            Ok(n) => Ok(n as i16),
            Err(e) => Err(e),
        }
    }

    open spec fn as_i32(&self) -> Result<i32, ConversionFault> {
        match self.bounded(i32::MIN as int, i32::MAX as int) {
            Ok(n) => Ok(n as i32),
            Err(e) => Err(e),
        }
    }

    open spec fn as_i64(&self) -> Result<i64, ConversionFault> {
        match self.bounded(i64::MIN as int, i64::MAX as int) {
            Ok(n) => Ok(n as i64),
            Err(e) => Err(e),
        }
    }

    open spec fn as_text(&self) -> Result<Seq<char>, ConversionFault> {
        match self {
            MemoryValue::Text(s) => Ok(s@),
            _ => Err(mismatch()),
        }
    }

    open spec fn as_bytes(&self) -> Result<Seq<u8>, ConversionFault> {
        match self {
            MemoryValue::Bytes(b) => Ok(b@),
            _ => Err(mismatch()),
        }
    }

    fn is_null(&self) -> (b: bool) {
        match self {
            MemoryValue::Null => true,
            _ => false,
        }
    }

    fn into_bool(self) -> (r: Result<bool, ConversionError>) {
        match self {
            MemoryValue::Bool(b) => Ok(b),
            _ => Err(Self::type_error()),
        }
    }

    fn into_u8(self) -> (r: Result<u8, ConversionError>) {
        match self.unsigned(0xff) {
            Ok(n) => Ok(n as u8),
            Err(e) => Err(e),
        }
    }

    fn into_u16(self) -> (r: Result<u16, ConversionError>) {
        match self.unsigned(0xffff) {
            Ok(n) => Ok(n as u16),
            Err(e) => Err(e),
        }
    }

    fn into_u32(self) -> (r: Result<u32, ConversionError>) {
        match self.unsigned(0xffff_ffff) {
            Ok(n) => Ok(n as u32),
            Err(e) => Err(e),
        }
    }

    fn into_u64(self) -> (r: Result<u64, ConversionError>) {
        self.unsigned(0xffff_ffff_ffff_ffff)
    }

    fn into_i8(self) -> (r: Result<i8, ConversionError>) {
        match self.signed(-0x80, 0x7f) {
            Ok(n) => Ok(n as i8),
            Err(e) => Err(e),
        }
    }

    fn into_i16(self) -> (r: Result<i16, ConversionError>) {
        match self.signed(-0x8000, 0x7fff) {
            Ok(n) => Ok(n as i16),
            Err(e) => Err(e),
        }
    }

    fn into_i32(self) -> (r: Result<i32, ConversionError>) {
        match self.signed(-0x8000_0000, 0x7fff_ffff) {
            Ok(n) => Ok(n as i32),
            Err(e) => Err(e),
        }
    }

    fn into_i64(self) -> (r: Result<i64, ConversionError>) {
        self.signed(-0x8000_0000_0000_0000, 0x7fff_ffff_ffff_ffff)
    }

    fn into_string(self) -> (r: Result<String, ConversionError>) {
        match self {
            MemoryValue::Text(s) => Ok(s),
            _ => Err(Self::type_error()),
        }
    }

    fn into_bytes(self) -> (r: Result<Vec<u8>, ConversionError>) {
        match self {
            MemoryValue::Bytes(b) => Ok(b),
            _ => Err(Self::type_error()),
        }
    }
}

/// One column of a row held in memory: its name, if it has one, and its
/// value.
#[derive(Debug, PartialEq, Eq)]
pub struct Column {
    pub name: Option<String>,
    pub value: MemoryValue,
}

/// The name of a column, taken by its view.
pub open spec fn label_view(name: Option<String>) -> Option<Seq<char>> {
    match name {
        Some(s) => Some(s@),
        None => None,
    }
}

/// A row held in memory.
///
/// The values are kept in reverse, so that the next one is taken from the
/// end; the names stay in row order.
#[derive(Debug, PartialEq, Eq)]
pub struct MemoryRow {
    names: Vec<Option<String>>,
    values: Vec<MemoryValue>,
}

impl MemoryRow {
    /// A row of the given columns, none of them taken.
    pub fn new(columns: Vec<Column>) -> (row: MemoryRow)
        ensures
            row.pending() == Seq::new(columns@.len(), |i: int| columns@[i].value),
            row.names() == Seq::new(columns@.len(), |i: int| label_view(columns@[i].name)),
            row_wf(row),
    {
        let ghost n = columns@.len();
        let mut columns = columns;
        let ghost given = columns@;
        let mut backwards: Vec<Option<String>> = Vec::new();
        let mut values: Vec<MemoryValue> = Vec::new();
        while columns.len() > 0
            invariant
                n == given.len(),
                columns@.len() + values@.len() == n,
                backwards@.len() == values@.len(),
                columns@ == given.take(columns@.len() as int),
                forall|i: int|
                    0 <= i < values@.len() ==> #[trigger] values@[i] == given[n - 1 - i].value,
                forall|i: int|
                    0 <= i < backwards@.len() ==> #[trigger] backwards@[i] == given[n - 1 - i].name,
            decreases columns@.len(),
        {
            match columns.pop() {
                Some(column) => {
                    backwards.push(column.name);
                    values.push(column.value);
                },
                None => {},
            }
        }
        let mut names: Vec<Option<String>> = Vec::new();
        while backwards.len() > 0
            invariant
                n == given.len(),
                backwards@.len() + names@.len() == n,
                forall|i: int|
                    0 <= i < backwards@.len() ==> #[trigger] backwards@[i] == given[n - 1 - i].name,
                forall|i: int| 0 <= i < names@.len() ==> #[trigger] names@[i] == given[i].name,
            decreases backwards@.len(),
        {
            match backwards.pop() {
                Some(name) => {
                    names.push(name);
                },
                None => {},
            }
        }
        let row = MemoryRow { names, values };
        assert(row.pending() =~= Seq::new(given.len(), |i: int| given[i].value));
        assert(row.names() =~= Seq::new(given.len(), |i: int| label_view(given[i].name)));
        row
    }
}

impl MemoryRow {
    /// The row that holds the fields of a structure: one column for each
    /// field, named after it, with the encoding of the field's value.
    pub fn encode(fields: &Vec<FieldValue>) -> (row: MemoryRow)
        ensures
            row.pending().len() == fields@.len(),
            row.names().len() == fields@.len(),
            forall|j: int|
                0 <= j < fields@.len() ==> (#[trigger] row.pending()[j]).holds(fields@[j].value@),
            forall|j: int|
                0 <= j < fields@.len() ==> #[trigger] row.names()[j] == Some(fields@[j].name@),
            row_wf(row),
    {
        let mut columns: Vec<Column> = Vec::new();
        let mut i: usize = 0;
        while i < fields.len()
            invariant
                i <= fields@.len(),
                columns@.len() == i,
                forall|j: int|
                    0 <= j < i ==> (#[trigger] columns@[j]).value.holds(fields@[j].value@),
                forall|j: int|
                    0 <= j < i ==> label_view((#[trigger] columns@[j]).name) == Some(
                        fields@[j].name@,
                    ),
            decreases fields@.len() - i,
        {
            let name = fields[i].name.clone();
            let value = MemoryValue::encode(&fields[i].value);
            columns.push(Column { name: Some(name), value });
            i = i + 1;
        }
        MemoryRow::new(columns)
    }
}

impl DeserializableRow for MemoryRow {
    type V = MemoryValue;

    closed spec fn pending(&self) -> Seq<MemoryValue> {
        Seq::new(self.values@.len(), |i: int| self.values@[self.values@.len() - 1 - i])
    }

    closed spec fn names(&self) -> Seq<Option<Seq<char>>> {
        Seq::new(self.names@.len(), |i: int| label_view(self.names@[i]))
    }

    fn len(&self) -> (n: usize) {
        self.values.len()
    }

    fn number_of_fields(&self) -> (n: usize) {
        self.names.len()
    }

    fn fieldname(&self, idx: usize) -> (name: Option<&String>) {
        if idx < self.names.len() {
            self.names[idx].as_ref()
        } else {
            None
        }
    }

    fn next(&mut self) -> (v: Option<MemoryValue>) {
        let v = self.values.pop();
        assert(self.pending() =~= if old(self).pending().len() > 0 {
            old(self).pending().skip(1)
        } else {
            old(self).pending()
        });
        v
    }
}

} // verus!
