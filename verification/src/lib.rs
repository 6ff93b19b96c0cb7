//! Decoding of one database row into a value of a declared shape.
//!
//! A row is an ordered run of dynamically typed column values with stable
//! column names. The decoder in [`de`] turns such a row into a scalar, a
//! tuple or a structure with named fields, and rejects every request that a
//! flat row cannot represent.
pub mod de;
pub mod ser;
