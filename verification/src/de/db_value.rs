use vstd::prelude::*;
use crate::de::conversion_error::{ConversionError, ConversionFault};

verus! {

/// The outcome of a conversion, with the error taken by its view.
pub open spec fn plain_outcome<T>(r: Result<T, ConversionError>) -> Result<T, ConversionFault> {
    match r {
        Ok(v) => Ok(v),
        Err(e) => Err(e@),
    }
}

/// The outcome of a conversion into a string, taken by its view.
pub open spec fn text_outcome(r: Result<String, ConversionError>) -> Result<
    Seq<char>,
    ConversionFault,
> {
    match r {
        Ok(v) => Ok(v@),
        Err(e) => Err(e@),
    }
}

/// The outcome of a conversion into bytes, taken by its view.
pub open spec fn bytes_outcome(r: Result<Vec<u8>, ConversionError>) -> Result<
    Seq<u8>,
    ConversionFault,
> {
    match r {
        Ok(v) => Ok(v@),
        Err(e) => Err(e@),
    }
}

/// A dynamically typed database cell.
///
/// A cell tells whether it is null, and converts itself into each of the
/// primitive types, into a string and into a byte sequence. Every conversion
/// is a function of the cell alone: the `as_*` functions say what it yields,
/// and the `into_*` methods compute exactly that.
pub trait DbValue: Sized {
    /// Whether the cell holds the database's null.
    spec fn null(&self) -> bool;

    spec fn as_bool(&self) -> Result<bool, ConversionFault>;

    spec fn as_u8(&self) -> Result<u8, ConversionFault>;

    spec fn as_u16(&self) -> Result<u16, ConversionFault>;

    spec fn as_u32(&self) -> Result<u32, ConversionFault>;

    spec fn as_u64(&self) -> Result<u64, ConversionFault>;

    spec fn as_i8(&self) -> Result<i8, ConversionFault>;

    spec fn as_i16(&self) -> Result<i16, ConversionFault>;

    spec fn as_i32(&self) -> Result<i32, ConversionFault>;

    spec fn as_i64(&self) -> Result<i64, ConversionFault>;

    spec fn as_text(&self) -> Result<Seq<char>, ConversionFault>;

    spec fn as_bytes(&self) -> Result<Seq<u8>, ConversionFault>;

    fn is_null(&self) -> (b: bool)
        ensures
            b == self.null(),
    ;

    fn into_bool(self) -> (r: Result<bool, ConversionError>)
        ensures
            plain_outcome(r) == self.as_bool(),
    ;

    fn into_u8(self) -> (r: Result<u8, ConversionError>)
        ensures
            plain_outcome(r) == self.as_u8(),
    ;

    fn into_u16(self) -> (r: Result<u16, ConversionError>)
        ensures
            plain_outcome(r) == self.as_u16(),
    ;

    fn into_u32(self) -> (r: Result<u32, ConversionError>)
        ensures
            plain_outcome(r) == self.as_u32(),
    ;

    fn into_u64(self) -> (r: Result<u64, ConversionError>)
        ensures
            plain_outcome(r) == self.as_u64(),
    ;

    fn into_i8(self) -> (r: Result<i8, ConversionError>)
        ensures
            plain_outcome(r) == self.as_i8(),
    ;

    fn into_i16(self) -> (r: Result<i16, ConversionError>)
        ensures
            plain_outcome(r) == self.as_i16(),
    ;

    fn into_i32(self) -> (r: Result<i32, ConversionError>)
        ensures
            plain_outcome(r) == self.as_i32(),
    ;

    fn into_i64(self) -> (r: Result<i64, ConversionError>)
        ensures
            plain_outcome(r) == self.as_i64(),
    ;

    fn into_string(self) -> (r: Result<String, ConversionError>)
        ensures
            text_outcome(r) == self.as_text(),
    ;

    fn into_bytes(self) -> (r: Result<Vec<u8>, ConversionError>)
        ensures
            bytes_outcome(r) == self.as_bytes(),
    ;
}

} // verus!
