//! The name-value list decoder: a self-describing sequence of typed
//! pairs read through the XDR codec, with lazily streamed arrays and
//! nested lists.
//!
//! A list starts with a four-byte header naming the encoding and
//! endian, then a version word and a flags word holding the uniqueness
//! policy, then pairs. A pair carries its encoded size, its name, a
//! data type, an element count, and the typed payload; two zero size
//! words end the list. Only the XDR encoding is decoded: a native-
//! encoded list is rejected.

use vstd::prelude::*;

use core::marker::PhantomData;

use vstd::string::StringSliceAdditionalSpecFns;

use crate::endian::Endian;
use crate::xdr;
use crate::xdr::{align4, be32_at, be64_at, signed32, signed64, GetFromDecoder};

pub mod data_type;

verus! {

/// A name-value pair data type.
#[derive(Clone, Copy, Debug, PartialEq, Eq, Structural)]
pub enum DataType {
    Boolean,
    Byte,
    Int16,
    Uint16,
    Int32,
    Uint32,
    Int64,
    Uint64,
    String,
    ByteArray,
    Int16Array,
    Uint16Array,
    Int32Array,
    Uint32Array,
    Int64Array,
    Uint64Array,
    StringArray,
    HrTime,
    NvList,
    NvListArray,
    BooleanValue,
    Int8,
    Uint8,
    BooleanArray,
    Int8Array,
    Uint8Array,
    Double,
}

impl DataType {
    /// The numeric tag of this type on the wire.
    pub open spec fn spec_value(self) -> u32 {
        match self {
            DataType::Boolean => 1,
            DataType::Byte => 2,
            DataType::Int16 => 3,
            DataType::Uint16 => 4,
            DataType::Int32 => 5,
            DataType::Uint32 => 6,
            DataType::Int64 => 7,
            DataType::Uint64 => 8,
            DataType::String => 9,
            DataType::ByteArray => 10,
            DataType::Int16Array => 11,
            DataType::Uint16Array => 12,
            DataType::Int32Array => 13,
            DataType::Uint32Array => 14,
            DataType::Int64Array => 15,
            DataType::Uint64Array => 16,
            DataType::StringArray => 17,
            DataType::HrTime => 18,
            DataType::NvList => 19,
            DataType::NvListArray => 20,
            DataType::BooleanValue => 21,
            DataType::Int8 => 22,
            DataType::Uint8 => 23,
            DataType::BooleanArray => 24,
            DataType::Int8Array => 25,
            DataType::Uint8Array => 26,
            DataType::Double => 27,
        }
    }

    /// The type whose tag is `value`, for known tags.
    pub open spec fn spec_from_u32(value: u32) -> DataType
        recommends
            1 <= value <= 27,
    {
        if value == 1 {
            DataType::Boolean
        } else if value == 2 {
            DataType::Byte
        } else if value == 3 {
            DataType::Int16
        } else if value == 4 {
            DataType::Uint16
        } else if value == 5 {
            DataType::Int32
        } else if value == 6 {
            DataType::Uint32
        } else if value == 7 {
            DataType::Int64
        } else if value == 8 {
            DataType::Uint64
        } else if value == 9 {
            DataType::String
        } else if value == 10 {
            DataType::ByteArray
        } else if value == 11 {
            DataType::Int16Array
        } else if value == 12 {
            DataType::Uint16Array
        } else if value == 13 {
            DataType::Int32Array
        } else if value == 14 {
            DataType::Uint32Array
        } else if value == 15 {
            DataType::Int64Array
        } else if value == 16 {
            DataType::Uint64Array
        } else if value == 17 {
            DataType::StringArray
        } else if value == 18 {
            DataType::HrTime
        } else if value == 19 {
            DataType::NvList
        } else if value == 20 {
            DataType::NvListArray
        } else if value == 21 {
            DataType::BooleanValue
        } else if value == 22 {
            DataType::Int8
        } else if value == 23 {
            DataType::Uint8
        } else if value == 24 {
            DataType::BooleanArray
        } else if value == 25 {
            DataType::Int8Array
        } else if value == 26 {
            DataType::Uint8Array
        } else {
            DataType::Double
        }
    }

    /// Returns the numeric tag of this type.
    pub fn to_u32(self) -> (r: u32)
        ensures
            r == self.spec_value(),
    {
        match self {
            DataType::Boolean => 1,
            DataType::Byte => 2,
            DataType::Int16 => 3,
            DataType::Uint16 => 4,
            DataType::Int32 => 5,
            DataType::Uint32 => 6,
            DataType::Int64 => 7,
            DataType::Uint64 => 8,
            DataType::String => 9,
            DataType::ByteArray => 10,
            DataType::Int16Array => 11,
            DataType::Uint16Array => 12,
            DataType::Int32Array => 13,
            DataType::Uint32Array => 14,
            DataType::Int64Array => 15,
            DataType::Uint64Array => 16,
            DataType::StringArray => 17,
            DataType::HrTime => 18,
            DataType::NvList => 19,
            DataType::NvListArray => 20,
            DataType::BooleanValue => 21,
            DataType::Int8 => 22,
            DataType::Uint8 => 23,
            DataType::BooleanArray => 24,
            DataType::Int8Array => 25,
            DataType::Uint8Array => 26,
            DataType::Double => 27,
        }
    }

    /// Looks a type up by its numeric tag; exactly the tags 1 through
    /// 27 are known.
    pub fn try_from_u32(value: u32) -> (r: Option<DataType>)
        ensures
            1 <= value <= 27 ==> r == Some(DataType::spec_from_u32(value)),
            1 <= value <= 27 ==> DataType::spec_from_u32(value).spec_value() == value,
            !(1 <= value <= 27) ==> r is None,
    {
        match value {
            1 => Some(DataType::Boolean),
            2 => Some(DataType::Byte),
            3 => Some(DataType::Int16),
            4 => Some(DataType::Uint16),
            5 => Some(DataType::Int32),
            6 => Some(DataType::Uint32),
            7 => Some(DataType::Int64),
            8 => Some(DataType::Uint64),
            9 => Some(DataType::String),
            10 => Some(DataType::ByteArray),
            11 => Some(DataType::Int16Array),
            12 => Some(DataType::Uint16Array),
            13 => Some(DataType::Int32Array),
            14 => Some(DataType::Uint32Array),
            15 => Some(DataType::Int64Array),
            16 => Some(DataType::Uint64Array),
            17 => Some(DataType::StringArray),
            18 => Some(DataType::HrTime),
            19 => Some(DataType::NvList),
            20 => Some(DataType::NvListArray),
            21 => Some(DataType::BooleanValue),
            22 => Some(DataType::Int8),
            23 => Some(DataType::Uint8),
            24 => Some(DataType::BooleanArray),
            25 => Some(DataType::Int8Array),
            26 => Some(DataType::Uint8Array),
            27 => Some(DataType::Double),
            _ => None,
        }
    }
}

/// True when `count` is lawful for pairs of type `t`: flags carry no
/// value, plain values carry one, arrays carry any number.
pub open spec fn count_ok(t: DataType, count: usize) -> bool {
    match t {
        DataType::Boolean => count == 0,
        DataType::Byte | DataType::Int16 | DataType::Uint16 | DataType::Int32 | DataType::Uint32
            | DataType::Int64 | DataType::Uint64 | DataType::String | DataType::HrTime
            | DataType::NvList | DataType::BooleanValue | DataType::Int8 | DataType::Uint8
            | DataType::Double => count == 1,
        _ => true,
    }
}

/// Checks the element count against the pair's data type.
pub fn check_data_type_count(data_type: DataType, count: usize) -> (r: Result<(), DecodeError>)
    ensures
        count_ok(data_type, count) <==> r == Ok::<(), DecodeError>(()),
        !count_ok(data_type, count) ==> r == Err::<(), DecodeError>(
            (DecodeError::InvalidCount { data_type, count }),
        ),
{
    match data_type {
        DataType::Boolean => {
            if count == 0 {
                Ok(())
            } else {
                Err(DecodeError::InvalidCount { data_type, count })
            }
        },
        DataType::Byte | DataType::Int16 | DataType::Uint16 | DataType::Int32 | DataType::Uint32
            | DataType::Int64 | DataType::Uint64 | DataType::String | DataType::HrTime
            | DataType::NvList | DataType::BooleanValue | DataType::Int8 | DataType::Uint8
            | DataType::Double => {
            if count == 1 {
                Ok(())
            } else {
                Err(DecodeError::InvalidCount { data_type, count })
            }
        },
        _ => Ok(()),
    }
}

/// The list encoding named by a header's first byte.
#[derive(Clone, Copy, Debug, PartialEq, Eq, Structural)]
pub enum Encoding {
    Native,
    Xdr,
}

/// The uniqueness policy named by a list's flags word.
#[derive(Clone, Copy, Debug, PartialEq, Eq, Structural)]
pub enum Unique {
    NoneUnique,
    Name,
    NameType,
}

impl Unique {
    /// The policy named by a flags word, for lawful words.
    pub open spec fn spec_from_u32(flags: u32) -> Unique
        recommends
            flags <= 2,
    {
        if flags == 0 {
            Unique::NoneUnique
        } else if flags == 1 {
            Unique::Name
        } else {
            Unique::NameType
        }
    }
}

/// A failure while decoding a name-value list.
#[derive(Debug, PartialEq)]
pub enum DecodeError {
    /// The array has no more elements.
    EndOfArray {},
    /// The input ends before `count` more bytes could be read.
    EndOfInput { offset: usize, length: usize, count: usize },
    /// The element count is unlawful for the data type.
    InvalidCount { data_type: DataType, count: usize },
    /// The data type tag is unknown.
    InvalidDataType { data_type: u32 },
    /// A pair's contents disagree with its declared encoded size.
    InvalidEncodedSize { encoded_size: usize, used: usize },
    /// The encoding byte is unknown, or names an encoding the decoder
    /// does not carry.
    InvalidEncoding { encoding: u8 },
    /// The endian byte is unknown.
    InvalidEndian { endian: u8 },
    /// The flags word holds unknown bits.
    InvalidFlags { flags: u32 },
    /// The two reserved header bytes are not zero.
    InvalidReservedBytes { reserved: [u8; 2] },
    /// The version word is not zero.
    InvalidVersion { version: u32 },
    /// The underlying XDR decoder failed.
    Xdr { err: xdr::DecodeError },
}

/// A decoded name-value pair: its name and its lazily decoded value.
pub struct DecodedPair<'a> {
    pub name: &'a str,
    pub value: DecodedDataValue<'a>,
}

/// A decoded pair value. Scalars are decoded eagerly; arrays and
/// nested lists are carried as decoders that stream their elements.
/// A double is carried as the raw bits of its big-endian IEEE-754
/// encoding.
pub enum DecodedDataValue<'a> {
    Boolean(),
    Byte(u8),
    Int16(i16),
    Uint16(u16),
    Int32(i32),
    Uint32(u32),
    Int64(i64),
    Uint64(u64),
    String(&'a str),
    ByteArray(&'a [u8]),
    Int16Array(ArrayDecoder<'a, i16>),
    Uint16Array(ArrayDecoder<'a, u16>),
    Int32Array(ArrayDecoder<'a, i32>),
    Uint32Array(ArrayDecoder<'a, u32>),
    Int64Array(ArrayDecoder<'a, i64>),
    Uint64Array(ArrayDecoder<'a, u64>),
    StringArray(ArrayDecoder<'a, &'a str>),
    HrTime(i64),
    NvList(Decoder<'a>),
    NvListArray(ArrayDecoder<'a, Decoder<'a>>),
    BooleanValue(bool),
    Int8(i8),
    Uint8(u8),
    BooleanArray(ArrayDecoder<'a, bool>),
    Int8Array(ArrayDecoder<'a, i8>),
    Uint8Array(ArrayDecoder<'a, u8>),
    Double(u64),
}

impl<'a> DecodedPair<'a> {
    /// The data type of the decoded value.
    pub fn data_type(&self) -> (r: DataType)
        ensures
            r == self.spec_data_type(),
    {
        match self.value {
            DecodedDataValue::Boolean() => DataType::Boolean,
            DecodedDataValue::Byte(_) => DataType::Byte,
            DecodedDataValue::Int16(_) => DataType::Int16,
            DecodedDataValue::Uint16(_) => DataType::Uint16,
            DecodedDataValue::Int32(_) => DataType::Int32,
            DecodedDataValue::Uint32(_) => DataType::Uint32,
            DecodedDataValue::Int64(_) => DataType::Int64,
            DecodedDataValue::Uint64(_) => DataType::Uint64,
            DecodedDataValue::String(_) => DataType::String,
            DecodedDataValue::ByteArray(_) => DataType::ByteArray,
            DecodedDataValue::Int16Array(_) => DataType::Int16Array,
            DecodedDataValue::Uint16Array(_) => DataType::Uint16Array,
            DecodedDataValue::Int32Array(_) => DataType::Int32Array,
            DecodedDataValue::Uint32Array(_) => DataType::Uint32Array,
            DecodedDataValue::Int64Array(_) => DataType::Int64Array,
            DecodedDataValue::Uint64Array(_) => DataType::Uint64Array,
            DecodedDataValue::StringArray(_) => DataType::StringArray,
            DecodedDataValue::HrTime(_) => DataType::HrTime,
            DecodedDataValue::NvList(_) => DataType::NvList,
            DecodedDataValue::NvListArray(_) => DataType::NvListArray,
            DecodedDataValue::BooleanValue(_) => DataType::BooleanValue,
            DecodedDataValue::Int8(_) => DataType::Int8,
            DecodedDataValue::Uint8(_) => DataType::Uint8,
            DecodedDataValue::BooleanArray(_) => DataType::BooleanArray,
            DecodedDataValue::Int8Array(_) => DataType::Int8Array,
            DecodedDataValue::Uint8Array(_) => DataType::Uint8Array,
            DecodedDataValue::Double(_) => DataType::Double,
        }
    }

    /// The data type the value's shape names.
    pub open spec fn spec_data_type(&self) -> DataType {
        match self.value {
            DecodedDataValue::Boolean() => DataType::Boolean,
            DecodedDataValue::Byte(_) => DataType::Byte,
            DecodedDataValue::Int16(_) => DataType::Int16,
            DecodedDataValue::Uint16(_) => DataType::Uint16,
            DecodedDataValue::Int32(_) => DataType::Int32,
            DecodedDataValue::Uint32(_) => DataType::Uint32,
            DecodedDataValue::Int64(_) => DataType::Int64,
            DecodedDataValue::Uint64(_) => DataType::Uint64,
            DecodedDataValue::String(_) => DataType::String,
            DecodedDataValue::ByteArray(_) => DataType::ByteArray,
            DecodedDataValue::Int16Array(_) => DataType::Int16Array,
            DecodedDataValue::Uint16Array(_) => DataType::Uint16Array,
            DecodedDataValue::Int32Array(_) => DataType::Int32Array,
            DecodedDataValue::Uint32Array(_) => DataType::Uint32Array,
            DecodedDataValue::Int64Array(_) => DataType::Int64Array,
            DecodedDataValue::Uint64Array(_) => DataType::Uint64Array,
            DecodedDataValue::StringArray(_) => DataType::StringArray,
            DecodedDataValue::HrTime(_) => DataType::HrTime,
            DecodedDataValue::NvList(_) => DataType::NvList,
            DecodedDataValue::NvListArray(_) => DataType::NvListArray,
            DecodedDataValue::BooleanValue(_) => DataType::BooleanValue,
            DecodedDataValue::Int8(_) => DataType::Int8,
            DecodedDataValue::Uint8(_) => DataType::Uint8,
            DecodedDataValue::BooleanArray(_) => DataType::BooleanArray,
            DecodedDataValue::Int8Array(_) => DataType::Int8Array,
            DecodedDataValue::Uint8Array(_) => DataType::Uint8Array,
            DecodedDataValue::Double(_) => DataType::Double,
        }
    }
}

/// The declared encoded size of the pair at `off` of the list body.
pub open spec fn pair_esz(d: Seq<u8>, off: int) -> int {
    be32_at(d, off) as int
}

/// The name length of the pair at `off`.
pub open spec fn pair_nlen(d: Seq<u8>, off: int) -> int {
    be32_at(d, off + 8) as int
}

/// The name bytes of the pair at `off`.
pub open spec fn pair_name_bytes(d: Seq<u8>, off: int) -> Seq<u8> {
    d.subrange(off + 12, off + 12 + pair_nlen(d, off))
}

/// The offset of the type word of the pair at `off`.
pub open spec fn pair_type_off(d: Seq<u8>, off: int) -> int {
    align4(off + 12 + pair_nlen(d, off))
}

/// The type tag of the pair at `off`.
pub open spec fn pair_type_code(d: Seq<u8>, off: int) -> u32 {
    be32_at(d, pair_type_off(d, off))
}

/// The element count of the pair at `off`.
pub open spec fn pair_count(d: Seq<u8>, off: int) -> int {
    be32_at(d, pair_type_off(d, off) + 4) as int
}

/// The offset of the typed payload of the pair at `off`.
pub open spec fn pair_payload_off(d: Seq<u8>, off: int) -> int {
    pair_type_off(d, off) + 8
}

/// True when the two size words at `off` end the list.
pub open spec fn is_terminator(d: Seq<u8>, off: int) -> bool {
    off + 8 <= d.len() && be32_at(d, off) == 0 && be32_at(d, off + 4) == 0
}

/// True when the frame of the pair at `off` decodes: the size words,
/// a UTF-8 name, a known type tag with a lawful count, and a declared
/// size that covers the frame.
pub open spec fn pair_frame_ok(d: Seq<u8>, off: int) -> bool {
    &&& 0 <= off
    &&& off + 8 <= d.len()
    &&& !(be32_at(d, off) == 0 && be32_at(d, off + 4) == 0)
    &&& off + 12 <= d.len()
    &&& off + 12 + pair_nlen(d, off) <= d.len()
    &&& pair_type_off(d, off) <= d.len()
    &&& vstd::utf8::valid_utf8(pair_name_bytes(d, off))
    &&& pair_type_off(d, off) + 8 <= d.len()
    &&& 1 <= pair_type_code(d, off) <= 27
    &&& pair_payload_off(d, off) - off <= pair_esz(d, off)
    &&& count_ok(DataType::spec_from_u32(pair_type_code(d, off)), pair_count(d, off) as usize)
}

/// True when the length-prefixed byte run at `p` decodes: its count
/// word, its bytes, and its padding all lie within the body.
pub open spec fn byte_run_ok(d: Seq<u8>, p: int) -> bool {
    &&& p + 4 <= d.len()
    &&& p + 4 + be32_at(d, p) <= d.len()
    &&& align4(p + 4 + be32_at(d, p)) <= d.len()
}

/// The offset just past the length-prefixed byte run at `p`.
pub open spec fn byte_run_end(d: Seq<u8>, p: int) -> int {
    align4(p + 4 + be32_at(d, p))
}

/// The bytes of the length-prefixed byte run at `p`.
pub open spec fn byte_run_bytes(d: Seq<u8>, p: int) -> Seq<u8> {
    d.subrange(p + 4, p + 4 + be32_at(d, p))
}

/// True when the typed payload decodes, for payload offset `p`, type
/// tag `ty`, element count `cnt`, and `rem` declared payload bytes.
pub open spec fn value_decode_ok(d: Seq<u8>, p: int, ty: u32, cnt: int, rem: int) -> bool {
    if ty == 1 {
        true
    } else if ty == 2 {
        p + 4 <= d.len() && be32_at(d, p) <= 255
    } else if ty == 3 {
        p + 4 <= d.len() && -32768 <= signed32(be32_at(d, p)) <= 32767
    } else if ty == 4 {
        p + 4 <= d.len() && be32_at(d, p) <= 65535
    } else if ty == 5 || ty == 6 {
        p + 4 <= d.len()
    } else if ty == 7 || ty == 8 || ty == 18 || ty == 27 {
        p + 8 <= d.len()
    } else if ty == 9 {
        byte_run_ok(d, p) && vstd::utf8::valid_utf8(byte_run_bytes(d, p))
    } else if ty == 10 {
        byte_run_ok(d, p)
    } else if ty == 11 || ty == 12 || ty == 13 || ty == 14 || ty == 24 || ty == 25 || ty == 26 {
        cnt * 4 <= usize::MAX && p + cnt * 4 <= d.len() && align4(p + cnt * 4) <= d.len()
    } else if ty == 15 || ty == 16 {
        cnt * 8 <= usize::MAX && p + cnt * 8 <= d.len() && align4(p + cnt * 8) <= d.len()
    } else if ty == 17 || ty == 20 {
        p + rem <= d.len() && align4(p + rem) <= d.len()
    } else if ty == 19 {
        &&& p + rem <= d.len()
        &&& align4(p + rem) <= d.len()
        &&& rem >= 8
        &&& be32_at(d, p) == 0
        &&& be32_at(d, p + 4) <= 2
    } else if ty == 21 {
        p + 4 <= d.len() && be32_at(d, p) <= 1
    } else if ty == 22 {
        p + 4 <= d.len() && -128 <= signed32(be32_at(d, p)) <= 127
    } else {
        p + 4 <= d.len() && be32_at(d, p) <= 255
    }
}

/// The offset just past a successfully decoded payload.
pub open spec fn value_end(d: Seq<u8>, p: int, ty: u32, cnt: int, rem: int) -> int {
    if ty == 1 {
        p
    } else if ty == 2 || ty == 3 || ty == 4 || ty == 5 || ty == 6 || ty == 21 || ty == 22 || ty
        == 23 {
        p + 4
    } else if ty == 7 || ty == 8 || ty == 18 || ty == 27 {
        p + 8
    } else if ty == 9 || ty == 10 {
        byte_run_end(d, p)
    } else if ty == 11 || ty == 12 || ty == 13 || ty == 14 || ty == 24 || ty == 25 || ty == 26 {
        align4(p + cnt * 4)
    } else if ty == 15 || ty == 16 {
        align4(p + cnt * 8)
    } else {
        align4(p + rem)
    }
}

/// The decoded value's shape and contents, for a payload decoded at
/// `p` with type tag `ty` and `rem` declared payload bytes. Scalars,
/// strings, byte runs and nested lists are pinned to the bytes; the
/// streaming arrays are pinned to their carved slice and count.
pub open spec fn value_post(v: DecodedDataValue, d: Seq<u8>, p: int, ty: u32, cnt: int, rem: int) -> bool {
    if ty == 1 {
        v is Boolean
    } else if ty == 2 {
        v == DecodedDataValue::Byte(be32_at(d, p) as u8)
    } else if ty == 3 {
        v == DecodedDataValue::Int16(signed32(be32_at(d, p)) as i16)
    } else if ty == 4 {
        v == DecodedDataValue::Uint16(be32_at(d, p) as u16)
    } else if ty == 5 {
        v == DecodedDataValue::Int32(signed32(be32_at(d, p)))
    } else if ty == 6 {
        v == DecodedDataValue::Uint32(be32_at(d, p))
    } else if ty == 7 {
        v == DecodedDataValue::Int64(signed64(be64_at(d, p)))
    } else if ty == 8 {
        v == DecodedDataValue::Uint64(be64_at(d, p))
    } else if ty == 9 {
        v matches DecodedDataValue::String(s) && s.spec_bytes() == byte_run_bytes(d, p)
    } else if ty == 10 {
        v matches DecodedDataValue::ByteArray(b) && b@ == byte_run_bytes(d, p)
    } else if ty == 11 {
        v matches DecodedDataValue::Int16Array(a) && array_post(a, d.subrange(p, p + cnt * 4), cnt)
    } else if ty == 12 {
        v matches DecodedDataValue::Uint16Array(a) && array_post(a, d.subrange(p, p + cnt * 4), cnt)
    } else if ty == 13 {
        v matches DecodedDataValue::Int32Array(a) && array_post(a, d.subrange(p, p + cnt * 4), cnt)
    } else if ty == 14 {
        v matches DecodedDataValue::Uint32Array(a) && array_post(a, d.subrange(p, p + cnt * 4), cnt)
    } else if ty == 24 {
        v matches DecodedDataValue::BooleanArray(a) && array_post(
            a,
            d.subrange(p, p + cnt * 4),
            cnt,
        )
    } else if ty == 25 {
        v matches DecodedDataValue::Int8Array(a) && array_post(a, d.subrange(p, p + cnt * 4), cnt)
    } else if ty == 26 {
        v matches DecodedDataValue::Uint8Array(a) && array_post(a, d.subrange(p, p + cnt * 4), cnt)
    } else if ty == 15 {
        v matches DecodedDataValue::Int64Array(a) && array_post(a, d.subrange(p, p + cnt * 8), cnt)
    } else if ty == 16 {
        v matches DecodedDataValue::Uint64Array(a) && array_post(a, d.subrange(p, p + cnt * 8), cnt)
    } else if ty == 17 {
        v matches DecodedDataValue::StringArray(a) && array_post(a, d.subrange(p, p + rem), cnt)
    } else if ty == 20 {
        v matches DecodedDataValue::NvListArray(a) && array_post(a, d.subrange(p, p + rem), cnt)
    } else if ty == 18 {
        v == DecodedDataValue::HrTime(signed64(be64_at(d, p)))
    } else if ty == 19 {
        v matches DecodedDataValue::NvList(nd) && nd.wf() && nd.spec_data() == d.subrange(
            p,
            p + rem,
        ) && nd.spec_offset() == 8 && nd.spec_unique() == Unique::spec_from_u32(be32_at(d, p + 4))
    } else if ty == 21 {
        v == DecodedDataValue::BooleanValue(be32_at(d, p) == 1)
    } else if ty == 22 {
        v == DecodedDataValue::Int8(signed32(be32_at(d, p)) as i8)
    } else if ty == 23 {
        v == DecodedDataValue::Uint8(be32_at(d, p) as u8)
    } else {
        v == DecodedDataValue::Double(be64_at(d, p))
    }
}

/// A streaming array carries exactly the carved slice and count, with
/// its cursor at the start.
pub open spec fn array_post<T>(a: ArrayDecoder<T>, carved: Seq<u8>, cnt: int) -> bool {
    &&& a.spec_xdr().spec_data() == carved
    &&& a.spec_count() == cnt
    &&& a.spec_index() == 0
}

/// True when the whole pair at `off` decodes: its frame, its payload,
/// and a declared size that matches the bytes consumed exactly.
#[verifier::opaque]
pub open spec fn pair_ok(d: Seq<u8>, off: int) -> bool {
    let p = pair_payload_off(d, off);
    let ty = pair_type_code(d, off);
    let cnt = pair_count(d, off);
    let rem = pair_esz(d, off) - (p - off);
    &&& pair_frame_ok(d, off)
    &&& value_decode_ok(d, p, ty, cnt, rem)
    &&& value_end(d, p, ty, cnt, rem) == off + pair_esz(d, off)
}

/// The fields a decoded pair at `off` must carry.
pub open spec fn is_pair_decoded(pr: DecodedPair, d: Seq<u8>, off: int) -> bool {
    let p = pair_payload_off(d, off);
    let ty = pair_type_code(d, off);
    let cnt = pair_count(d, off);
    let rem = pair_esz(d, off) - (p - off);
    &&& pr.name.spec_bytes() == pair_name_bytes(d, off)
    &&& pr.spec_data_type() == DataType::spec_from_u32(ty)
    &&& value_wf(pr.value)
    &&& value_post(pr.value, d, p, ty, cnt, rem)
}

/// The 64-bit value of the pair at `off`.
pub open spec fn pair_u64_value(d: Seq<u8>, off: int) -> u64 {
    be64_at(d, pair_payload_off(d, off))
}

/// The boolean value of the pair at `off`.
pub open spec fn pair_bool_value(d: Seq<u8>, off: int) -> bool {
    be32_at(d, pair_payload_off(d, off)) == 1
}

/// The string bytes of the pair at `off`.
pub open spec fn pair_str_value(d: Seq<u8>, off: int) -> Seq<u8> {
    byte_run_bytes(d, pair_payload_off(d, off))
}

/// The nested-list bytes of the pair at `off`: the payload up to the
/// declared size.
pub open spec fn pair_list_value(d: Seq<u8>, off: int) -> Seq<u8> {
    d.subrange(pair_payload_off(d, off), off + pair_esz(d, off))
}

/// True when the scan from `off` for a pair named `name` reaches a
/// match or the terminator without striking an undecodable pair.
#[verifier::opaque]
pub open spec fn scan_clean(d: Seq<u8>, off: int, name: Seq<u8>) -> bool
    decreases d.len() - off,
{
    if !(0 <= off <= d.len()) {
        false
    } else if is_terminator(d, off) {
        true
    } else if !pair_ok(d, off) {
        false
    } else if pair_name_bytes(d, off) == name {
        true
    } else if off + pair_esz(d, off) <= d.len() && pair_esz(d, off) > 0 {
        scan_clean(d, off + pair_esz(d, off), name)
    } else {
        false
    }
}

/// The offset of the first pair named `name` from `off`, when the scan
/// is clean; the terminator gives nothing.
#[verifier::opaque]
pub open spec fn scan_found(d: Seq<u8>, off: int, name: Seq<u8>) -> Option<int>
    decreases d.len() - off,
{
    if !(0 <= off <= d.len()) {
        None
    } else if is_terminator(d, off) {
        None
    } else if !pair_ok(d, off) {
        None
    } else if pair_name_bytes(d, off) == name {
        Some(off)
    } else if off + pair_esz(d, off) <= d.len() && pair_esz(d, off) > 0 {
        scan_found(d, off + pair_esz(d, off), name)
    } else {
        None
    }
}

/// What a clean scan of the whole list for `name` must return: the
/// first pair of that name decoded, or nothing at the terminator.
pub open spec fn find_post<'a>(
    d: Seq<u8>,
    name: Seq<u8>,
    r: Result<Option<DecodedPair<'a>>, DecodeError>,
) -> bool {
    d.len() >= 8 && scan_clean(d, 8, name) ==> match scan_found(d, 8, name) {
        Some(po) => (r matches Ok(Some(q)) && is_pair_decoded(q, d, po) && q.name.spec_bytes()
            == name),
        None => r == Ok::<Option<DecodedPair<'a>>, DecodeError>(Option::<DecodedPair<'a>>::None),
    }
}

/// True when every pair from `off` decodes and the terminator is
/// reached.
#[verifier::opaque]
pub open spec fn scan_to_end(d: Seq<u8>, off: int) -> bool
    decreases d.len() - off,
{
    if !(0 <= off <= d.len()) {
        false
    } else if is_terminator(d, off) {
        true
    } else if pair_ok(d, off) && off + pair_esz(d, off) <= d.len() && pair_esz(d, off) > 0 {
        scan_to_end(d, off + pair_esz(d, off))
    } else {
        false
    }
}

/// The offset just past the terminator, for a scan that reaches it.
#[verifier::opaque]
pub open spec fn scan_end(d: Seq<u8>, off: int) -> int
    decreases d.len() - off,
{
    if !(0 <= off <= d.len()) {
        off
    } else if is_terminator(d, off) {
        off + 8
    } else if pair_ok(d, off) && off + pair_esz(d, off) <= d.len() && pair_esz(d, off) > 0 {
        scan_end(d, off + pair_esz(d, off))
    } else {
        off
    }
}

/// True when every pair name from `off` lies within `names`, as far as
/// the pairs decode.
#[verifier::opaque]
pub open spec fn names_within(d: Seq<u8>, off: int, names: Set<Seq<u8>>) -> bool
    decreases d.len() - off,
{
    if !(0 <= off <= d.len()) {
        true
    } else if is_terminator(d, off) {
        true
    } else if pair_ok(d, off) && off + pair_esz(d, off) <= d.len() && pair_esz(d, off) > 0 {
        names.contains(pair_name_bytes(d, off)) && names_within(d, off + pair_esz(d, off), names)
    } else {
        true
    }
}

/// One scan step: a decodable pair keeps the scan verdicts of the rest.
pub proof fn lemma_scan_step(d: Seq<u8>, off: int, names: Set<Seq<u8>>)
    requires
        pair_ok(d, off),
        off + pair_esz(d, off) <= d.len(),
        pair_esz(d, off) > 0,
    ensures
        scan_to_end(d, off) == scan_to_end(d, off + pair_esz(d, off)),
        scan_end(d, off) == scan_end(d, off + pair_esz(d, off)),
        names_within(d, off, names) == (names.contains(pair_name_bytes(d, off)) && names_within(
            d,
            off + pair_esz(d, off),
            names,
        )),
{
    reveal(pair_ok);
    reveal_with_fuel(scan_to_end, 2);
    reveal_with_fuel(scan_end, 2);
    reveal_with_fuel(names_within, 2);
}

/// At the terminator every scan verdict holds.
pub proof fn lemma_scan_terminator(d: Seq<u8>, off: int, names: Set<Seq<u8>>)
    requires
        is_terminator(d, off),
        0 <= off <= d.len(),
    ensures
        scan_to_end(d, off),
        names_within(d, off, names),
        scan_end(d, off) == off + 8,
{
    reveal_with_fuel(scan_to_end, 2);
    reveal_with_fuel(scan_end, 2);
    reveal_with_fuel(names_within, 2);
}

/// One scan step for a sought name: a decodable pair either matches or
/// passes the verdicts of the rest through.
pub proof fn lemma_scan_name_step(d: Seq<u8>, off: int, nm: Seq<u8>)
    requires
        pair_ok(d, off),
        off + pair_esz(d, off) <= d.len(),
        pair_esz(d, off) > 0,
    ensures
        pair_name_bytes(d, off) == nm ==> (scan_clean(d, off, nm) && scan_found(d, off, nm)
            == Some(off)),
        pair_name_bytes(d, off) != nm ==> (scan_clean(d, off, nm) == scan_clean(
            d,
            off + pair_esz(d, off),
            nm,
        ) && scan_found(d, off, nm) == scan_found(d, off + pair_esz(d, off), nm)),
{
    reveal(pair_ok);
    reveal_with_fuel(scan_clean, 2);
    reveal_with_fuel(scan_found, 2);
}

/// At the terminator a sought name is cleanly absent.
pub proof fn lemma_scan_name_terminator(d: Seq<u8>, off: int, nm: Seq<u8>)
    requires
        is_terminator(d, off),
        0 <= off <= d.len(),
    ensures
        scan_clean(d, off, nm),
        scan_found(d, off, nm) is None,
{
    reveal_with_fuel(scan_clean, 2);
    reveal_with_fuel(scan_found, 2);
}

/// A scan that strikes an undecodable pair is unclean for every name.
pub proof fn lemma_scan_name_stuck(d: Seq<u8>, off: int, nm: Seq<u8>)
    requires
        0 <= off <= d.len(),
        !is_terminator(d, off),
        !pair_ok(d, off),
    ensures
        !scan_clean(d, off, nm),
{
    reveal_with_fuel(scan_clean, 2);
}

/// A scan that strikes an undecodable pair reaches no terminator.
pub proof fn lemma_scan_stuck(d: Seq<u8>, off: int)
    requires
        !is_terminator(d, off),
        !pair_ok(d, off),
    ensures
        !scan_to_end(d, off),
{
    reveal_with_fuel(scan_to_end, 2);
}

/// A pair that decodes spans at least its frame.
pub proof fn lemma_pair_esz_pos(d: Seq<u8>, off: int)
    requires
        pair_ok(d, off),
    ensures
        pair_esz(d, off) >= 20,
        off + pair_esz(d, off) <= d.len(),
{
    reveal(pair_ok);
    lemma_align4_bounds(off + 12 + pair_nlen(d, off));
}

/// Alignment moves forward by less than four.
pub proof fn lemma_align4_bounds(n: int)
    ensures
        n <= align4(n) < n + 4,
        align4(n) % 4 == 0 || n < 0,
{
}

/// A scan that reaches the terminator ends past its first pair and
/// within the body.
pub proof fn lemma_scan_end_bounds(d: Seq<u8>, off: int)
    requires
        scan_to_end(d, off),
    ensures
        off + 8 <= scan_end(d, off) <= d.len(),
    decreases d.len() - off,
{
    reveal_with_fuel(scan_to_end, 2);
    reveal_with_fuel(scan_end, 2);
    if !is_terminator(d, off) {
        lemma_scan_end_bounds(d, off + pair_esz(d, off));
    }
}

/// A scan that reaches the terminator is clean for every name.
pub proof fn lemma_scan_to_end_clean(d: Seq<u8>, off: int, name: Seq<u8>)
    requires
        scan_to_end(d, off),
    ensures
        scan_clean(d, off, name),
    decreases d.len() - off,
{
    reveal(pair_ok);
    reveal_with_fuel(scan_to_end, 2);
    reveal_with_fuel(scan_clean, 2);
    if !is_terminator(d, off) {
        if pair_name_bytes(d, off) == name {
        } else {
            lemma_scan_to_end_clean(d, off + pair_esz(d, off), name);
        }
    }
}

/// The decoders carried inside a decoded value are well-formed.
pub open spec fn value_wf(v: DecodedDataValue) -> bool {
    match v {
        DecodedDataValue::Int16Array(a) => a.wf() && a.spec_index() == 0,
        DecodedDataValue::Uint16Array(a) => a.wf() && a.spec_index() == 0,
        DecodedDataValue::Int32Array(a) => a.wf() && a.spec_index() == 0,
        DecodedDataValue::Uint32Array(a) => a.wf() && a.spec_index() == 0,
        DecodedDataValue::Int64Array(a) => a.wf() && a.spec_index() == 0,
        DecodedDataValue::Uint64Array(a) => a.wf() && a.spec_index() == 0,
        DecodedDataValue::StringArray(a) => a.wf() && a.spec_index() == 0,
        DecodedDataValue::NvList(d) => d.wf() && d.spec_offset() == 8,
        DecodedDataValue::NvListArray(a) => a.wf() && a.spec_index() == 0,
        DecodedDataValue::BooleanArray(a) => a.wf() && a.spec_index() == 0,
        DecodedDataValue::Int8Array(a) => a.wf() && a.spec_index() == 0,
        DecodedDataValue::Uint8Array(a) => a.wf() && a.spec_index() == 0,
        _ => true,
    }
}

/// A name-value list decoder.
pub struct Decoder<'a> {
    decoder: xdr::Decoder<'a>,
    encoding: Encoding,
    endian: Endian,
    pub unique: Unique,
}

/// A lazily streamed array of `T`: a slice of encoded elements and a
/// cursor over them.
pub struct ArrayDecoder<'a, T> {
    decoder: xdr::Decoder<'a>,
    count: usize,
    index: usize,
    encoding: Encoding,
    endian: Endian,
    phantom: PhantomData<T>,
}

impl<'a, T> ArrayDecoder<'a, T> {
    /// The element count of the whole array.
    pub closed spec fn spec_count(&self) -> int {
        self.count as int
    }

    /// The cursor position within the array.
    pub closed spec fn spec_index(&self) -> int {
        self.index as int
    }

    /// The list encoding the elements are read under.
    pub closed spec fn spec_encoding(&self) -> Encoding {
        self.encoding
    }

    /// The cursor never runs past the slice, and the array carries the
    /// one encoding it can decode.
    pub open spec fn wf(&self) -> bool {
        &&& self.spec_xdr().wf()
        &&& self.spec_encoding() is Xdr
    }

    /// The underlying XDR decoder.
    pub closed spec fn spec_xdr(&self) -> xdr::Decoder<'a> {
        self.decoder
    }

    /// The number of elements in the entire array.
    pub fn capacity(&self) -> (r: usize)
        ensures
            r == self.spec_count(),
    {
        self.count
    }

    /// The number of elements still to be streamed.
    pub fn len(&self) -> (r: usize)
        ensures
            r == if self.spec_index() <= self.spec_count() {
                self.spec_count() - self.spec_index()
            } else {
                0
            },
    {
        if self.index <= self.count {
            self.count - self.index
        } else {
            0
        }
    }

    /// Moves the cursor back to the first element.
    pub fn reset(&mut self)
        requires
            old(self).wf(),
        ensures
            final(self).spec_count() == old(self).spec_count(),
            final(self).spec_index() == 0,
            final(self).wf(),
    {
        self.decoder.reset();
        self.index = 0;
    }
}

impl<'a, T: GetFromDecoder> ArrayDecoder<'a, T> {
    /// Streams the next element through the XDR codec: exactly what the
    /// element type's own decode names at the element cursor. Past the
    /// last element the array reports its own end.
    pub fn get(&mut self) -> (r: Result<T, DecodeError>)
        requires
            old(self).wf(),
        ensures
            final(self).wf(),
            final(self).spec_count() == old(self).spec_count(),
            final(self).spec_xdr().spec_data() == old(self).spec_xdr().spec_data(),
            old(self).spec_index() >= old(self).spec_count() ==> (r == Err::<T, DecodeError>(
                (DecodeError::EndOfArray {}),
            ) && final(self).spec_index() == old(self).spec_index()),
            old(self).spec_index() < old(self).spec_count() ==> final(self).spec_index() == old(
                self,
            ).spec_index() + 1,
            old(self).spec_index() < old(self).spec_count() ==> ({
                match T::spec_decode(
                    old(self).spec_xdr().spec_data(),
                    old(self).spec_xdr().spec_offset(),
                ) {
                    Some(vo) => r == Ok::<T, DecodeError>(vo.0) && final(self).spec_xdr().spec_offset() == vo.1,
                    None => r is Err,
                }
            }),
    {
        if self.index < self.count {
            self.index = self.index + 1;
            match T::get_from_decoder(&mut self.decoder) {
                Ok(v) => Ok(v),
                Err(err) => Err(DecodeError::Xdr { err }),
            }
        } else {
            Err(DecodeError::EndOfArray {})
        }
    }
}

impl<'a> ArrayDecoder<'a, &'a str> {
    /// Streams the next string element: the length-prefixed UTF-8 run
    /// at the element cursor. Past the last element the array reports
    /// its own end.
    pub fn get_str(&mut self) -> (r: Result<&'a str, DecodeError>)
        requires
            old(self).wf(),
        ensures
            final(self).wf(),
            final(self).spec_count() == old(self).spec_count(),
            final(self).spec_xdr().spec_data() == old(self).spec_xdr().spec_data(),
            old(self).spec_index() >= old(self).spec_count() ==> (r == Err::<&'a str, DecodeError>(
                (DecodeError::EndOfArray {}),
            ) && final(self).spec_index() == old(self).spec_index()),
            old(self).spec_index() < old(self).spec_count() ==> final(self).spec_index() == old(
                self,
            ).spec_index() + 1,
            old(self).spec_index() < old(self).spec_count() ==> ({
                let xd = old(self).spec_xdr().spec_data();
                let xo = old(self).spec_xdr().spec_offset();
                if byte_run_ok(xd, xo) && vstd::utf8::valid_utf8(byte_run_bytes(xd, xo)) {
                    (r matches Ok(s) && s.spec_bytes() == byte_run_bytes(xd, xo) && final(self).spec_xdr().spec_offset() == byte_run_end(xd, xo))
                } else {
                    r is Err
                }
            }),
    {
        if self.index < self.count {
            self.index = self.index + 1;
            match self.decoder.get_str() {
                Ok(v) => Ok(v),
                Err(err) => Err(DecodeError::Xdr { err }),
            }
        } else {
            Err(DecodeError::EndOfArray {})
        }
    }
}

impl<'a> ArrayDecoder<'a, Decoder<'a>> {
    /// Streams the next nested list. The element's span is found by
    /// draining a throwaway decoder to the end of the inner list, then
    /// exactly that many bytes are carved into the element's own
    /// decoder. Past the last element the array reports its own end.
    pub fn get_list(&mut self) -> (r: Result<Decoder<'a>, DecodeError>)
        requires
            old(self).wf(),
        ensures
            final(self).wf(),
            final(self).spec_count() == old(self).spec_count(),
            final(self).spec_xdr().spec_data() == old(self).spec_xdr().spec_data(),
            old(self).spec_index() >= old(self).spec_count() ==> (r == Err::<
                Decoder<'a>,
                DecodeError,
            >((DecodeError::EndOfArray {})) && final(self).spec_index() == old(self).spec_index()),
            old(self).spec_index() < old(self).spec_count() ==> final(self).spec_index() == old(
                self,
            ).spec_index() + 1,
            (old(self).spec_index() < old(self).spec_count() && old(
                self,
            ).spec_xdr().spec_offset() % 4 == 0) ==> ({
                let xd = old(self).spec_xdr().spec_data();
                let xo = old(self).spec_xdr().spec_offset();
                let sub = xd.subrange(xo, xd.len() as int);
                let dend = scan_end(sub, 8);
                let good = xd.len() % 4 == 0 && sub.len() >= 8 && be32_at(sub, 0) == 0 && be32_at(
                    sub,
                    4,
                ) <= 2 && scan_to_end(sub, 8) && align4(xo + dend) <= xd.len();
                &&& good <==> r is Ok
                &&& r matches Ok(nd) ==> (nd.wf() && nd.spec_data() == xd.subrange(xo, xo + dend)
                    && nd.spec_offset() == 8 && final(self).spec_xdr().spec_offset() == align4(
                    xo + dend,
                ))
            }),
    {
        if self.index >= self.count {
            return Err(DecodeError::EndOfArray {});
        }
        self.index = self.index + 1;
        let starting_length = self.decoder.len();
        let data = match self.decoder.get_n_bytes(starting_length) {
            Ok(v) => v,
            Err(err) => {
                return Err(DecodeError::Xdr { err });
            },
        };
        let mut probe = match Decoder::from_partial(self.encoding, self.endian, data) {
            Ok(v) => v,
            Err(e) => {
                return Err(e);
            },
        };
        let ghost xsnap = self.decoder;
        loop
            invariant_except_break
                probe.spec_offset() >= 8,
                scan_to_end(data@, 8) == scan_to_end(data@, probe.spec_offset()),
                scan_to_end(data@, 8) ==> scan_end(data@, 8) == scan_end(
                    data@,
                    probe.spec_offset(),
                ),
            invariant
                probe.wf(),
                probe.spec_data() == data@,
                data@.len() == starting_length,
                data@ == old(self).spec_xdr().spec_data().subrange(
                    old(self).spec_xdr().spec_offset(),
                    old(self).spec_xdr().spec_data().len() as int,
                ),
                self.decoder == xsnap,
                self.decoder.spec_data() == old(self).spec_xdr().spec_data(),
                self.decoder.spec_offset() == old(self).spec_xdr().spec_data().len(),
                self.count == old(self).count,
                self.index == old(self).index + 1,
                old(self).index < old(self).count,
                self.decoder.wf(),
                self.spec_encoding() is Xdr,
                self.endian == old(self).endian,
            ensures
                scan_to_end(data@, 8),
                probe.spec_offset() == scan_end(data@, 8),
                probe.wf(),
                probe.spec_data() == data@,
            decreases probe.spec_remaining(),
        {
            let ghost po = probe.spec_offset();
            match probe.next_pair() {
                Ok(v) => match v {
                    Some(_) => {
                        proof {
                            lemma_pair_esz_pos(data@, po);
                            lemma_scan_step(data@, po, Set::empty());
                        }
                    },
                    None => {
                        proof {
                            lemma_scan_terminator(data@, po, Set::empty());
                        }
                        break ;
                    },
                },
                Err(e) => {
                    proof {
                        reveal_with_fuel(scan_to_end, 1);
                    }
                    return Err(e);
                },
            }
        }
        let bytes_used = starting_length - probe.remaining();
        match self.decoder.rewind(starting_length) {
            Ok(()) => (),
            Err(err) => {
                return Err(DecodeError::Xdr { err });
            },
        }
        let data = match self.decoder.get_n_bytes(bytes_used) {
            Ok(v) => v,
            Err(err) => {
                return Err(DecodeError::Xdr { err });
            },
        };
        proof {
            let xd = old(self).spec_xdr().spec_data();
            let xo = old(self).spec_xdr().spec_offset();
            let sub = xd.subrange(xo, xd.len() as int);
            if scan_to_end(sub, 8) {
                lemma_scan_end_bounds(sub, 8);
            }
            if xo % 4 == 0 && data@.len() >= 8 {
                assert(data@.subrange(0, 4) =~= sub.subrange(0, 4));
                assert(data@.subrange(4, 8) =~= sub.subrange(4, 8));
            }
        }
        Decoder::from_partial(self.encoding, self.endian, data)
    }
}

/// What starting a decoder over a list body returns: the XDR encoding
/// with version zero and lawful flags succeeds and records the policy;
/// everything else fails with the named error. The native encoding is
/// rejected.
pub open spec fn list_body_post<'a>(
    encoding: Encoding,
    endian: Endian,
    body: Seq<u8>,
    r: Result<Decoder<'a>, DecodeError>,
) -> bool {
    if encoding is Native {
        r == Err::<Decoder<'a>, DecodeError>((DecodeError::InvalidEncoding { encoding: 0 }))
    } else {
        let version = be32_at(body, 0);
        let flags = be32_at(body, 4);
        if body.len() < 4 {
            r == Err::<Decoder<'a>, DecodeError>(
                (DecodeError::Xdr {
                    err: xdr::DecodeError::EndOfInput {
                        offset: 0,
                        length: body.len() as usize,
                        count: 4,
                    },
                }),
            )
        } else if version != 0 {
            r == Err::<Decoder<'a>, DecodeError>((DecodeError::InvalidVersion { version }))
        } else if body.len() < 8 {
            r == Err::<Decoder<'a>, DecodeError>(
                (DecodeError::Xdr {
                    err: xdr::DecodeError::EndOfInput {
                        offset: 4,
                        length: body.len() as usize,
                        count: 4,
                    },
                }),
            )
        } else if flags > 2 {
            r == Err::<Decoder<'a>, DecodeError>((DecodeError::InvalidFlags { flags }))
        } else {
            (r matches Ok(d) && d.wf() && d.spec_data() == body && d.spec_offset() == 8
                && d.spec_encoding() == encoding && d.spec_endian() == endian && d.spec_unique()
                == Unique::spec_from_u32(flags))
        }
    }
}

impl<'a> Decoder<'a> {
    /// The bytes of the list body (the version word onward).
    pub closed spec fn spec_data(&self) -> Seq<u8> {
        self.decoder.spec_data()
    }

    /// The current read position in the list body.
    pub closed spec fn spec_offset(&self) -> int {
        self.decoder.spec_offset()
    }

    /// The list's encoding.
    pub closed spec fn spec_encoding(&self) -> Encoding {
        self.encoding
    }

    /// The endian named by the list header.
    pub closed spec fn spec_endian(&self) -> Endian {
        self.endian
    }

    /// The uniqueness policy named by the list's flags word.
    pub closed spec fn spec_unique(&self) -> Unique {
        self.unique
    }

    /// Returns the list's uniqueness policy.
    pub fn unique_policy(&self) -> (r: Unique)
        ensures
            r == self.spec_unique(),
    {
        self.unique
    }

    /// The read position never passes the end of the body, and the
    /// decoder carries the one encoding it can decode.
    pub open spec fn wf(&self) -> bool {
        &&& 0 <= self.spec_offset() <= self.spec_data().len()
        &&& self.spec_encoding() is Xdr
    }

    /// The bytes not yet consumed.
    pub open spec fn spec_remaining(&self) -> int {
        self.spec_data().len() - self.spec_offset()
    }

    /// The number of bytes not yet consumed.
    pub fn remaining(&self) -> (r: usize)
        requires
            self.wf(),
        ensures
            r == self.spec_remaining(),
    {
        self.decoder.len()
    }

    /// Starts a list decoder from the four-byte header onward: the
    /// encoding and endian bytes, two zero reserved bytes, then the
    /// body. Only the XDR encoding is carried; the native encoding is
    /// rejected.
    pub fn from_bytes(data: &'a [u8]) -> (r: Result<Decoder<'a>, DecodeError>)
        ensures
            ({
                let n = data@.len();
                if n < 4 {
                    r == Err::<Decoder<'a>, DecodeError>(
                        (DecodeError::EndOfInput { offset: 0, length: n as usize, count: 4 }),
                    )
                } else {
                    let enc = data@[0];
                    let end = data@[1];
                    if enc >= 2 {
                        r == Err::<Decoder<'a>, DecodeError>(
                            (DecodeError::InvalidEncoding { encoding: enc }),
                        )
                    } else if end >= 2 {
                        r == Err::<Decoder<'a>, DecodeError>(
                            (DecodeError::InvalidEndian { endian: end }),
                        )
                    } else if !(data@[2] == 0 && data@[3] == 0) {
                        r == Err::<Decoder<'a>, DecodeError>(
                            (DecodeError::InvalidReservedBytes { reserved: [data@[2], data@[3]] }),
                        )
                    } else {
                        list_body_post(
                            if enc == 0 {
                                Encoding::Native
                            } else {
                                Encoding::Xdr
                            },
                            if end == 1 {
                                Endian::Little
                            } else {
                                Endian::Big
                            },
                            data@.skip(4),
                            r,
                        )
                    }
                }
            }),
    {
        if data.len() < 4 {
            return Err(DecodeError::EndOfInput { offset: 0, length: data.len(), count: 4 });
        }
        let encoding_byte = *vstd::slice::slice_index_get(data, 0);
        let endian_byte = *vstd::slice::slice_index_get(data, 1);
        let reserved_0 = *vstd::slice::slice_index_get(data, 2);
        let reserved_1 = *vstd::slice::slice_index_get(data, 3);
        let encoding = match encoding_byte {
            0 => Encoding::Native,
            1 => Encoding::Xdr,
            _ => {
                return Err(DecodeError::InvalidEncoding { encoding: encoding_byte });
            },
        };
        let endian = match endian_byte {
            0 => Endian::Big,
            1 => Endian::Little,
            _ => {
                return Err(DecodeError::InvalidEndian { endian: endian_byte });
            },
        };
        if reserved_0 != 0 || reserved_1 != 0 {
            return Err(DecodeError::InvalidReservedBytes { reserved: [reserved_0, reserved_1] });
        }
        let rest = vstd::slice::slice_subrange(data, 4, data.len());
        proof {
            assert(rest@ =~= data@.skip(4));
        }
        Decoder::from_partial(encoding, endian, rest)
    }

    /// Starts a decoder for a nested list: the encoding and endian come
    /// from the parent, and the body starts with the version and flags
    /// words.
    fn from_partial(encoding: Encoding, endian: Endian, data: &'a [u8]) -> (r: Result<
        Decoder<'a>,
        DecodeError,
    >)
        ensures
            list_body_post(encoding, endian, data@, r),
    {
        match encoding {
            Encoding::Native => {
                return Err(DecodeError::InvalidEncoding { encoding: 0 });
            },
            Encoding::Xdr => (),
        }
        let mut decoder = xdr::Decoder::from_bytes(data);
        let version = match decoder.get_u32() {
            Ok(v) => v,
            Err(err) => {
                return Err(DecodeError::Xdr { err });
            },
        };
        if version != 0 {
            return Err(DecodeError::InvalidVersion { version });
        }
        let flags = match decoder.get_u32() {
            Ok(v) => v,
            Err(err) => {
                return Err(DecodeError::Xdr { err });
            },
        };
        let unique_flags = flags & 0x3;
        proof {
            assert(flags & 0x3 != flags ==> flags > 3) by (bit_vector);
            assert(flags & 0x3 == flags ==> flags == flags & 0x3 && flags & 0x3 <= 3)
                by (bit_vector);
        }
        if unique_flags != flags {
            return Err(DecodeError::InvalidFlags { flags });
        }
        let unique = if unique_flags == 0 {
            Unique::NoneUnique
        } else if unique_flags == 1 {
            Unique::Name
        } else if unique_flags == 2 {
            Unique::NameType
        } else {
            return Err(DecodeError::InvalidFlags { flags });
        };
        Ok(Decoder { decoder, encoding, endian, unique })
    }

    /// Reads the next pair, or reports the end of the list: two zero
    /// size words end it. Every decoded pair moves the cursor forward.
    #[verifier::rlimit(100)]
    #[verifier::spinoff_prover]
    pub fn next_pair(&mut self) -> (r: Result<Option<DecodedPair<'a>>, DecodeError>)
        requires
            old(self).wf(),
        ensures
            final(self).wf(),
            final(self).spec_data() == old(self).spec_data(),
            final(self).spec_encoding() == old(self).spec_encoding(),
            final(self).spec_endian() == old(self).spec_endian(),
            final(self).spec_unique() == old(self).spec_unique(),
            ({
                let d = old(self).spec_data();
                let off = old(self).spec_offset();
                &&& (r == Ok::<Option<DecodedPair<'a>>, DecodeError>(
                    Option::<DecodedPair<'a>>::None,
                )) <==> is_terminator(d, off)
                &&& r == Ok::<Option<DecodedPair<'a>>, DecodeError>(
                    Option::<DecodedPair<'a>>::None,
                ) ==> final(self).spec_offset() == off + 8
                &&& (r matches Ok(p) && p is Some) <==> pair_ok(d, off)
                &&& r matches Ok(Some(p)) ==> is_pair_decoded(p, d, off) && final(self).spec_offset() == off + pair_esz(d, off) && final(self).spec_offset() > off
            }),
    {
        proof {
            reveal(pair_ok);
        }
        let starting_length = self.decoder.len();
        let encoded_size = match self.decoder.get_usize() {
            Ok(v) => v,
            Err(err) => {
                return Err(DecodeError::Xdr { err });
            },
        };
        let decoded_size = match self.decoder.get_usize() {
            Ok(v) => v,
            Err(err) => {
                return Err(DecodeError::Xdr { err });
            },
        };
        if encoded_size == 0 && decoded_size == 0 {
            return Ok(None);
        }
        let name = match self.decoder.get_str() {
            Ok(v) => v,
            Err(err) => {
                return Err(DecodeError::Xdr { err });
            },
        };
        let data_type_code = match self.decoder.get_u32() {
            Ok(v) => v,
            Err(err) => {
                return Err(DecodeError::Xdr { err });
            },
        };
        let data_type = match DataType::try_from_u32(data_type_code) {
            Some(v) => v,
            None => {
                return Err(DecodeError::InvalidDataType { data_type: data_type_code });
            },
        };
        let element_count = match self.decoder.get_usize() {
            Ok(v) => v,
            Err(err) => {
                return Err(DecodeError::Xdr { err });
            },
        };
        let bytes_used = starting_length - self.decoder.len();
        let bytes_rem = if bytes_used <= encoded_size {
            encoded_size - bytes_used
        } else {
            return Err(DecodeError::InvalidEncodedSize { encoded_size, used: bytes_used });
        };
        match check_data_type_count(data_type, element_count) {
            Ok(()) => (),
            Err(e) => {
                return Err(e);
            },
        }
        let value = match self.decode_value(data_type, element_count, bytes_rem) {
            Ok(v) => v,
            Err(e) => {
                return Err(e);
            },
        };
        let bytes_used = starting_length - self.decoder.len();
        if bytes_used > encoded_size {
            return Err(DecodeError::InvalidEncodedSize { encoded_size, used: bytes_used });
        }
        if encoded_size - bytes_used > 0 {
            return Err(DecodeError::InvalidEncodedSize { encoded_size, used: bytes_used });
        }
        Ok(Some(DecodedPair { name, value }))
    }

    /// Decodes one pair's typed payload: scalars eagerly, arrays and
    /// nested lists as streaming decoders over a carved slice.
    #[verifier::rlimit(100)]
    #[verifier::spinoff_prover]
    fn decode_value(&mut self, data_type: DataType, element_count: usize, bytes_rem: usize) -> (r:
        Result<DecodedDataValue<'a>, DecodeError>)
        requires
            old(self).wf(),
        ensures
            final(self).wf(),
            final(self).spec_data() == old(self).spec_data(),
            final(self).spec_encoding() == old(self).spec_encoding(),
            final(self).spec_endian() == old(self).spec_endian(),
            final(self).spec_unique() == old(self).spec_unique(),
            final(self).spec_offset() >= old(self).spec_offset(),
            ({
                let d = old(self).spec_data();
                let p = old(self).spec_offset();
                let ty = data_type.spec_value();
                &&& (r is Ok) ==> value_decode_ok(d, p, ty, element_count as int, bytes_rem as int)
                &&& value_decode_ok(d, p, ty, element_count as int, bytes_rem as int) ==> r is Ok
                &&& r matches Ok(v) ==> value_wf(v)
                &&& r matches Ok(v) ==> value_post(v, d, p, ty, element_count as int, bytes_rem as int)
                &&& r matches Ok(v) ==> final(self).spec_offset() == value_end(
                    d,
                    p,
                    ty,
                    element_count as int,
                    bytes_rem as int,
                )
            }),
    {
        match data_type {
            DataType::Boolean => Ok(DecodedDataValue::Boolean()),
            DataType::Byte => match self.decoder.get_u8() {
                Ok(v) => Ok(DecodedDataValue::Byte(v)),
                Err(err) => Err(DecodeError::Xdr { err }),
            },
            DataType::Int16 => match self.decoder.get_i16() {
                Ok(v) => Ok(DecodedDataValue::Int16(v)),
                Err(err) => Err(DecodeError::Xdr { err }),
            },
            DataType::Uint16 => match self.decoder.get_u16() {
                Ok(v) => Ok(DecodedDataValue::Uint16(v)),
                Err(err) => Err(DecodeError::Xdr { err }),
            },
            DataType::Int32 => match self.decoder.get_i32() {
                Ok(v) => Ok(DecodedDataValue::Int32(v)),
                Err(err) => Err(DecodeError::Xdr { err }),
            },
            DataType::Uint32 => match self.decoder.get_u32() {
                Ok(v) => Ok(DecodedDataValue::Uint32(v)),
                Err(err) => Err(DecodeError::Xdr { err }),
            },
            DataType::Int64 => match self.decoder.get_i64() {
                Ok(v) => Ok(DecodedDataValue::Int64(v)),
                Err(err) => Err(DecodeError::Xdr { err }),
            },
            DataType::Uint64 => match self.decoder.get_u64() {
                Ok(v) => Ok(DecodedDataValue::Uint64(v)),
                Err(err) => Err(DecodeError::Xdr { err }),
            },
            DataType::String => match self.decoder.get_str() {
                Ok(v) => Ok(DecodedDataValue::String(v)),
                Err(err) => Err(DecodeError::Xdr { err }),
            },
            DataType::ByteArray => match self.decoder.get_bytes() {
                Ok(v) => Ok(DecodedDataValue::ByteArray(v)),
                Err(err) => Err(DecodeError::Xdr { err }),
            },
            DataType::Int16Array => match self.carve_fixed(element_count, 4) {
                Ok(v) => Ok(DecodedDataValue::Int16Array(v)),
                Err(e) => Err(e),
            },
            DataType::Uint16Array => match self.carve_fixed(element_count, 4) {
                Ok(v) => Ok(DecodedDataValue::Uint16Array(v)),
                Err(e) => Err(e),
            },
            DataType::Int32Array => match self.carve_fixed(element_count, 4) {
                Ok(v) => Ok(DecodedDataValue::Int32Array(v)),
                Err(e) => Err(e),
            },
            DataType::Uint32Array => match self.carve_fixed(element_count, 4) {
                Ok(v) => Ok(DecodedDataValue::Uint32Array(v)),
                Err(e) => Err(e),
            },
            DataType::Int64Array => match self.carve_fixed(element_count, 8) {
                Ok(v) => Ok(DecodedDataValue::Int64Array(v)),
                Err(e) => Err(e),
            },
            DataType::Uint64Array => match self.carve_fixed(element_count, 8) {
                Ok(v) => Ok(DecodedDataValue::Uint64Array(v)),
                Err(e) => Err(e),
            },
            DataType::StringArray => match self.carve(bytes_rem, element_count) {
                Ok(v) => Ok(DecodedDataValue::StringArray(v)),
                Err(e) => Err(e),
            },
            DataType::HrTime => match self.decoder.get_i64() {
                Ok(v) => Ok(DecodedDataValue::HrTime(v)),
                Err(err) => Err(DecodeError::Xdr { err }),
            },
            DataType::NvList => {
                let ghost d = old(self).spec_data();
                let ghost p = old(self).spec_offset();
                let data = match self.decoder.get_n_bytes(bytes_rem) {
                    Ok(v) => v,
                    Err(err) => {
                        return Err(DecodeError::Xdr { err });
                    },
                };
                proof {
                    if data@.len() >= 4 {
                        assert(data@.subrange(0, 4) =~= d.subrange(p, p + 4));
                    }
                    if data@.len() >= 8 {
                        assert(data@.subrange(4, 8) =~= d.subrange(p + 4, p + 8));
                    }
                }
                match Decoder::from_partial(self.encoding, self.endian, data) {
                    Ok(v) => Ok(DecodedDataValue::NvList(v)),
                    Err(e) => Err(e),
                }
            },
            DataType::NvListArray => match self.carve(bytes_rem, element_count) {
                Ok(v) => Ok(DecodedDataValue::NvListArray(v)),
                Err(e) => Err(e),
            },
            DataType::BooleanValue => match self.decoder.get_bool() {
                Ok(v) => Ok(DecodedDataValue::BooleanValue(v)),
                Err(err) => Err(DecodeError::Xdr { err }),
            },
            DataType::Int8 => match self.decoder.get_i8() {
                Ok(v) => Ok(DecodedDataValue::Int8(v)),
                Err(err) => Err(DecodeError::Xdr { err }),
            },
            DataType::Uint8 => match self.decoder.get_u8() {
                Ok(v) => Ok(DecodedDataValue::Uint8(v)),
                Err(err) => Err(DecodeError::Xdr { err }),
            },
            DataType::BooleanArray => match self.carve_fixed(element_count, 4) {
                Ok(v) => Ok(DecodedDataValue::BooleanArray(v)),
                Err(e) => Err(e),
            },
            DataType::Int8Array => match self.carve_fixed(element_count, 4) {
                Ok(v) => Ok(DecodedDataValue::Int8Array(v)),
                Err(e) => Err(e),
            },
            DataType::Uint8Array => match self.carve_fixed(element_count, 4) {
                Ok(v) => Ok(DecodedDataValue::Uint8Array(v)),
                Err(e) => Err(e),
            },
            DataType::Double => match self.decoder.get_u64() {
                Ok(v) => Ok(DecodedDataValue::Double(v)),
                Err(err) => Err(DecodeError::Xdr { err }),
            },
        }
    }

    /// Carves `byte_len` bytes into a fresh array decoder of `count`
    /// elements.
    fn carve<T>(&mut self, byte_len: usize, count: usize) -> (r: Result<
        ArrayDecoder<'a, T>,
        DecodeError,
    >)
        requires
            old(self).wf(),
        ensures
            final(self).wf(),
            final(self).spec_data() == old(self).spec_data(),
            final(self).spec_encoding() == old(self).spec_encoding(),
            final(self).spec_endian() == old(self).spec_endian(),
            final(self).spec_unique() == old(self).spec_unique(),
            final(self).spec_offset() >= old(self).spec_offset(),
            ({
                let d = old(self).spec_data();
                let p = old(self).spec_offset();
                &&& (r is Ok) <==> (p + byte_len <= d.len() && align4(p + byte_len) <= d.len())
                &&& r matches Ok(a) ==> a.wf() && a.spec_count() == count && a.spec_index() == 0
                    && a.spec_xdr().spec_data() == d.subrange(p, p + byte_len) && final(self).spec_offset() == align4(p + byte_len)
            }),
    {
        let data = match self.decoder.get_n_bytes(byte_len) {
            Ok(v) => v,
            Err(err) => {
                return Err(DecodeError::Xdr { err });
            },
        };
        Ok(
            ArrayDecoder {
                decoder: xdr::Decoder::from_bytes(data),
                count,
                index: 0,
                encoding: self.encoding,
                endian: self.endian,
                phantom: PhantomData,
            },
        )
    }

    /// Carves a fixed-width element array: `count` elements of `elem`
    /// bytes each.
    fn carve_fixed<T>(&mut self, count: usize, elem: usize) -> (r: Result<
        ArrayDecoder<'a, T>,
        DecodeError,
    >)
        requires
            old(self).wf(),
            elem == 4 || elem == 8,
        ensures
            final(self).wf(),
            final(self).spec_data() == old(self).spec_data(),
            final(self).spec_encoding() == old(self).spec_encoding(),
            final(self).spec_endian() == old(self).spec_endian(),
            final(self).spec_unique() == old(self).spec_unique(),
            final(self).spec_offset() >= old(self).spec_offset(),
            ({
                let d = old(self).spec_data();
                let p = old(self).spec_offset();
                &&& (r is Ok) <==> (count * elem <= usize::MAX && p + count * elem <= d.len()
                    && align4(p + count * elem) <= d.len())
                &&& r matches Ok(a) ==> a.wf() && a.spec_count() == count && a.spec_index() == 0
                    && a.spec_xdr().spec_data() == d.subrange(p, p + count * elem) && final(self).spec_offset() == align4(p + count * elem)
            }),
    {
        let byte_len: usize = match count.checked_mul(elem) {
            Some(v) => v,
            None => {
                return Err(DecodeError::InvalidEncodedSize { encoded_size: 0, used: 0 });
            },
        };
        self.carve(byte_len, count)
    }

    /// Reads the next pair but keeps only its name: one scan step.
    pub fn next_name(&mut self) -> (r: Result<Option<&'a str>, DecodeError>)
        requires
            old(self).wf(),
        ensures
            final(self).wf(),
            final(self).spec_data() == old(self).spec_data(),
            final(self).spec_encoding() == old(self).spec_encoding(),
            final(self).spec_endian() == old(self).spec_endian(),
            final(self).spec_unique() == old(self).spec_unique(),
            ({
                let d = old(self).spec_data();
                let off = old(self).spec_offset();
                &&& (r == Ok::<Option<&'a str>, DecodeError>(Option::<&'a str>::None))
                    <==> is_terminator(d, off)
                &&& r == Ok::<Option<&'a str>, DecodeError>(Option::<&'a str>::None) ==> final(self).spec_offset() == off + 8
                &&& (r matches Ok(p) && p is Some) <==> pair_ok(d, off)
                &&& r matches Ok(Some(nm)) ==> (nm.spec_bytes() == pair_name_bytes(d, off)
                    && final(self).spec_offset() == off + pair_esz(d, off))
            }),
    {
        match self.next_pair() {
            Ok(Some(p)) => Ok(Some(p.name)),
            Ok(None) => Ok(None),
            Err(e) => Err(e),
        }
    }

    /// Moves the read position back to the first pair, just past the
    /// version and flags words.
    pub fn reset(&mut self)
        requires
            old(self).wf(),
        ensures
            final(self).wf(),
            final(self).spec_data() == old(self).spec_data(),
            final(self).spec_encoding() == old(self).spec_encoding(),
            final(self).spec_endian() == old(self).spec_endian(),
            final(self).spec_unique() == old(self).spec_unique(),
            old(self).spec_data().len() >= 8 ==> final(self).spec_offset() == 8,
            old(self).spec_data().len() < 8 ==> final(self).spec_offset() == 0,
    {
        self.decoder.reset();
        match self.decoder.skip(8) {
            Ok(()) => (),
            Err(_) => (),
        }
    }

    /// Scans the list from the start for a pair with the given name:
    /// a clean scan yields the first pair of that name decoded, or
    /// nothing at the terminator; a scan that strikes an undecodable
    /// pair fails. A found pair's name always equals the sought name.
    pub fn find_pair(&mut self, name: &str) -> (r: Result<Option<DecodedPair<'a>>, DecodeError>)
        requires
            old(self).wf(),
        ensures
            final(self).wf(),
            final(self).spec_data() == old(self).spec_data(),
            final(self).spec_encoding() == old(self).spec_encoding(),
            final(self).spec_endian() == old(self).spec_endian(),
            final(self).spec_unique() == old(self).spec_unique(),
            r matches Ok(Some(q)) ==> q.name.spec_bytes() == name.spec_bytes() && value_wf(
                q.value,
            ),
            find_post(old(self).spec_data(), name.spec_bytes(), r),
            (old(self).spec_data().len() >= 8 && !scan_clean(
                old(self).spec_data(),
                8,
                name.spec_bytes(),
            )) ==> r is Err,
    {
        self.reset();
        loop
            invariant
                self.wf(),
                self.spec_data() == old(self).spec_data(),
                self.spec_encoding() == old(self).spec_encoding(),
                self.spec_endian() == old(self).spec_endian(),
                self.spec_unique() == old(self).spec_unique(),
                old(self).spec_data().len() >= 8 ==> {
                    let d = old(self).spec_data();
                    let nb = name.spec_bytes();
                    &&& scan_clean(d, 8, nb) == scan_clean(d, self.spec_offset(), nb)
                    &&& scan_found(d, 8, nb) == scan_found(d, self.spec_offset(), nb)
                },
                old(self).spec_data().len() < 8 ==> self.spec_offset() == 0,
            decreases self.spec_remaining(),
        {
            let ghost co = self.spec_offset();
            let pair = match self.next_pair() {
                Ok(v) => v,
                Err(e) => {
                    proof {
                        lemma_scan_name_stuck(old(self).spec_data(), co, name.spec_bytes());
                    }
                    return Err(e);
                },
            };
            match pair {
                Some(p) => {
                    proof {
                        lemma_pair_esz_pos(old(self).spec_data(), co);
                        lemma_scan_name_step(old(self).spec_data(), co, name.spec_bytes());
                    }
                    if str_bytes_equal(p.name, name) {
                        return Ok(Some(p));
                    }
                },
                None => {
                    proof {
                        lemma_scan_name_terminator(old(self).spec_data(), co, name.spec_bytes());
                    }
                    return Ok(None);
                },
            }
        }
    }
}

/// Compares two strings by their bytes; equal bytes mean equal views.
pub fn str_bytes_equal(a: &str, b: &str) -> (r: bool)
    ensures
        r == (a.spec_bytes() == b.spec_bytes()),
        r == (a@ == b@),
{
    let ab = a.as_bytes();
    let bb = b.as_bytes();
    if ab.len() != bb.len() {
        proof {
            assert(a.spec_bytes().len() != b.spec_bytes().len());
        }
        return false;
    }
    let n = ab.len();
    let mut i: usize = 0;
    while i < n
        invariant
            n == ab@.len() == bb@.len(),
            ab@ == a.spec_bytes(),
            bb@ == b.spec_bytes(),
            0 <= i <= n,
            forall|j: int| 0 <= j < i ==> ab@[j] == bb@[j],
        decreases n - i,
    {
        if *vstd::slice::slice_index_get(ab, i) != *vstd::slice::slice_index_get(bb, i) {
            proof {
                assert(a.spec_bytes()[i as int] != b.spec_bytes()[i as int]);
            }
            return false;
        }
        i = i + 1;
    }
    proof {
        broadcast use vstd::utf8::encode_utf8_decode_utf8;

        assert(a.spec_bytes() =~= b.spec_bytes());
        assert(vstd::utf8::decode_utf8(vstd::utf8::encode_utf8(a@)) == a@);
        assert(vstd::utf8::decode_utf8(vstd::utf8::encode_utf8(b@)) == b@);
    }
    true
}

} // verus!
