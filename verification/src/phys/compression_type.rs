//! The compression algorithm tag carried by block pointers and dnodes.

use vstd::prelude::*;

verus! {

/// A compression algorithm.
#[derive(Clone, Copy, Debug, PartialEq, Eq, Structural)]
pub enum CompressionType {
    Inherit,
    On,
    Off,
    Lzjb,
    Empty,
    Gzip1,
    Gzip2,
    Gzip3,
    Gzip4,
    Gzip5,
    Gzip6,
    Gzip7,
    Gzip8,
    Gzip9,
    Zle,
    Lz4,
    Zstd,
}

/// An unknown numeric code for [`CompressionType`].
#[derive(Debug, PartialEq, Eq, Structural)]
pub enum CompressionTypeError {
    /// The code stands for no known value.
    InvalidValue { value: u8 },
}

impl CompressionType {
    /// The numeric code of this value in the on-disk format.
    pub open spec fn spec_value(self) -> u8 {
        match self {
            CompressionType::Inherit => 0,
            CompressionType::On => 1,
            CompressionType::Off => 2,
            CompressionType::Lzjb => 3,
            CompressionType::Empty => 4,
            CompressionType::Gzip1 => 5,
            CompressionType::Gzip2 => 6,
            CompressionType::Gzip3 => 7,
            CompressionType::Gzip4 => 8,
            CompressionType::Gzip5 => 9,
            CompressionType::Gzip6 => 10,
            CompressionType::Gzip7 => 11,
            CompressionType::Gzip8 => 12,
            CompressionType::Gzip9 => 13,
            CompressionType::Zle => 14,
            CompressionType::Lz4 => 15,
            CompressionType::Zstd => 16,
        }
    }

    /// Returns the numeric code of this value.
    pub fn to_u8(self) -> (r: u8)
        ensures
            r == self.spec_value(),
    {
        match self {
            CompressionType::Inherit => 0,
            CompressionType::On => 1,
            CompressionType::Off => 2,
            CompressionType::Lzjb => 3,
            CompressionType::Empty => 4,
            CompressionType::Gzip1 => 5,
            CompressionType::Gzip2 => 6,
            CompressionType::Gzip3 => 7,
            CompressionType::Gzip4 => 8,
            CompressionType::Gzip5 => 9,
            CompressionType::Gzip6 => 10,
            CompressionType::Gzip7 => 11,
            CompressionType::Gzip8 => 12,
            CompressionType::Gzip9 => 13,
            CompressionType::Zle => 14,
            CompressionType::Lz4 => 15,
            CompressionType::Zstd => 16,
        }
    }

    /// The value whose code is `value`, for known codes.
    pub open spec fn spec_from_u8(value: u8) -> CompressionType
        recommends
            value <= 16,
    {
        if value == 0 {
            CompressionType::Inherit
        } else if value == 1 {
            CompressionType::On
        } else if value == 2 {
            CompressionType::Off
        } else if value == 3 {
            CompressionType::Lzjb
        } else if value == 4 {
            CompressionType::Empty
        } else if value == 5 {
            CompressionType::Gzip1
        } else if value == 6 {
            CompressionType::Gzip2
        } else if value == 7 {
            CompressionType::Gzip3
        } else if value == 8 {
            CompressionType::Gzip4
        } else if value == 9 {
            CompressionType::Gzip5
        } else if value == 10 {
            CompressionType::Gzip6
        } else if value == 11 {
            CompressionType::Gzip7
        } else if value == 12 {
            CompressionType::Gzip8
        } else if value == 13 {
            CompressionType::Gzip9
        } else if value == 14 {
            CompressionType::Zle
        } else if value == 15 {
            CompressionType::Lz4
        } else {
            CompressionType::Zstd
        }
    }

    /// Looks a value up by its numeric code; exactly the codes
    /// 0 through 16 are known.
    pub fn try_from_u8(value: u8) -> (r: Result<CompressionType, CompressionTypeError>)
        ensures
            value <= 16 ==> r == Ok::<CompressionType, CompressionTypeError>(CompressionType::spec_from_u8(value)),
            value <= 16 ==> CompressionType::spec_from_u8(value).spec_value() == value,
            value > 16 ==> r == Err::<CompressionType, CompressionTypeError>((CompressionTypeError::InvalidValue { value })),
    {
        match value {
            0 => Ok(CompressionType::Inherit),
            1 => Ok(CompressionType::On),
            2 => Ok(CompressionType::Off),
            3 => Ok(CompressionType::Lzjb),
            4 => Ok(CompressionType::Empty),
            5 => Ok(CompressionType::Gzip1),
            6 => Ok(CompressionType::Gzip2),
            7 => Ok(CompressionType::Gzip3),
            8 => Ok(CompressionType::Gzip4),
            9 => Ok(CompressionType::Gzip5),
            10 => Ok(CompressionType::Gzip6),
            11 => Ok(CompressionType::Gzip7),
            12 => Ok(CompressionType::Gzip8),
            13 => Ok(CompressionType::Gzip9),
            14 => Ok(CompressionType::Zle),
            15 => Ok(CompressionType::Lz4),
            16 => Ok(CompressionType::Zstd),
            _ => Err(CompressionTypeError::InvalidValue { value }),
        }
    }
}

} // verus!
