//! The alternatives of a typed value.

use vstd::prelude::*;

verus! {

/// The typed value field.
#[derive(Clone, Debug)]
pub enum Value {
    /// A Boolean value: true or false.
    BoolValue(bool),
    /// A 64-bit integer.
    Int64Value(i64),
    /// A 64-bit double-precision floating-point number, as its IEEE 754 bit
    /// pattern.
    DoubleValue(u64),
    /// A variable-length string value.
    StringValue(String),
}

} // verus!
