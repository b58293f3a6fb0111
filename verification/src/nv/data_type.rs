//! The historical name-value data-type tags without the boolean-value
//! tag: an older closed set kept for tools that speak it.

use vstd::prelude::*;

verus! {

/// A name-value pair data type of the older closed set.
#[derive(Clone, Copy, Debug, PartialEq, Eq, Structural)]
pub enum DataType {
    Boolean,
    Byte,
    Int16,
    Uint16,
    Int32,
    Uint32,
    Int64,
    Uint64,
    String,
    ByteArray,
    Int16Array,
    Uint16Array,
    Int32Array,
    Uint32Array,
    Int64Array,
    Uint64Array,
    StringArray,
    HrTime,
    NvList,
    NvListArray,
    Int8,
    Uint8,
    BooleanArray,
    Int8Array,
    Uint8Array,
    Double,
}

impl DataType {
    /// The numeric tag of this type on the wire.
    pub open spec fn spec_value(self) -> u32 {
        match self {
            DataType::Boolean => 1,
            DataType::Byte => 2,
            DataType::Int16 => 3,
            DataType::Uint16 => 4,
            DataType::Int32 => 5,
            DataType::Uint32 => 6,
            DataType::Int64 => 7,
            DataType::Uint64 => 8,
            DataType::String => 9,
            DataType::ByteArray => 10,
            DataType::Int16Array => 11,
            DataType::Uint16Array => 12,
            DataType::Int32Array => 13,
            DataType::Uint32Array => 14,
            DataType::Int64Array => 15,
            DataType::Uint64Array => 16,
            DataType::StringArray => 17,
            DataType::HrTime => 18,
            DataType::NvList => 19,
            DataType::NvListArray => 20,
            DataType::Int8 => 21,
            DataType::Uint8 => 22,
            DataType::BooleanArray => 23,
            DataType::Int8Array => 24,
            DataType::Uint8Array => 25,
            DataType::Double => 26,
        }
    }

    /// Returns the numeric tag of this type.
    pub fn to_u32(self) -> (r: u32)
        ensures
            r == self.spec_value(),
    {
        match self {
            DataType::Boolean => 1,
            DataType::Byte => 2,
            DataType::Int16 => 3,
            DataType::Uint16 => 4,
            DataType::Int32 => 5,
            DataType::Uint32 => 6,
            DataType::Int64 => 7,
            DataType::Uint64 => 8,
            DataType::String => 9,
            DataType::ByteArray => 10,
            DataType::Int16Array => 11,
            DataType::Uint16Array => 12,
            DataType::Int32Array => 13,
            DataType::Uint32Array => 14,
            DataType::Int64Array => 15,
            DataType::Uint64Array => 16,
            DataType::StringArray => 17,
            DataType::HrTime => 18,
            DataType::NvList => 19,
            DataType::NvListArray => 20,
            DataType::Int8 => 21,
            DataType::Uint8 => 22,
            DataType::BooleanArray => 23,
            DataType::Int8Array => 24,
            DataType::Uint8Array => 25,
            DataType::Double => 26,
        }
    }
}

} // verus!
