//! What belongs to a label description.

use vstd::prelude::*;

verus! {

/// Value types that can be used as label values.
#[derive(Clone, Copy, Debug, PartialEq, Eq, Hash, Structural)]
pub enum ValueType {
    /// A variable-length string.
    String,
    /// Boolean; true or false.
    Bool,
    /// A 64-bit signed integer.
    Int64,
}

impl ValueType {
    /// The number that the wire format gives to each value type.
    pub open spec fn number(self) -> i32 {
        match self {
            ValueType::String => 0,
            ValueType::Bool => 1,
            ValueType::Int64 => 2,
        }
    }

    /// The value type's number on the wire.
    pub fn as_i32(self) -> (n: i32)
        ensures
            n == self.number(),
    {
        match self {
            ValueType::String => 0,
            ValueType::Bool => 1,
            ValueType::Int64 => 2,
        }
    }

    /// The value type with the given number, if there is one.
    pub fn from_i32(n: i32) -> (value_type: Option<ValueType>)
        ensures
            value_type is Some <==> 0 <= n <= 2,
            value_type matches Some(v) ==> v.number() == n,
    {
        match n {
            0 => Some(ValueType::String),
            1 => Some(ValueType::Bool),
            2 => Some(ValueType::Int64),
            _ => None,
        }
    }
}

} // verus!
