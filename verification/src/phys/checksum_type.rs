//! The checksum algorithm tag carried by block pointers and dnodes.

use vstd::prelude::*;

verus! {

/// A checksum algorithm.
#[derive(Clone, Copy, Debug, PartialEq, Eq, Structural)]
pub enum ChecksumType {
    Inherit,
    On,
    Off,
    Label,
    GangHeader,
    Zilog,
    Fletcher2,
    Fletcher4,
    Sha256,
    Zilog2,
    NoParity,
    Sha512_256,
    Skein,
    EdonR,
    Blake3,
}

/// An unknown numeric code for [`ChecksumType`].
#[derive(Debug, PartialEq, Eq, Structural)]
pub enum ChecksumTypeError {
    /// The code stands for no known value.
    InvalidValue { value: u8 },
}

impl ChecksumType {
    /// The numeric code of this value in the on-disk format.
    pub open spec fn spec_value(self) -> u8 {
        match self {
            ChecksumType::Inherit => 0,
            ChecksumType::On => 1,
            ChecksumType::Off => 2,
            ChecksumType::Label => 3,
            ChecksumType::GangHeader => 4,
            ChecksumType::Zilog => 5,
            ChecksumType::Fletcher2 => 6,
            ChecksumType::Fletcher4 => 7,
            ChecksumType::Sha256 => 8,
            ChecksumType::Zilog2 => 9,
            ChecksumType::NoParity => 10,
            ChecksumType::Sha512_256 => 11,
            ChecksumType::Skein => 12,
            ChecksumType::EdonR => 13,
            ChecksumType::Blake3 => 14,
        }
    }

    /// Returns the numeric code of this value.
    pub fn to_u8(self) -> (r: u8)
        ensures
            r == self.spec_value(),
    {
        match self {
            ChecksumType::Inherit => 0,
            ChecksumType::On => 1,
            ChecksumType::Off => 2,
            ChecksumType::Label => 3,
            ChecksumType::GangHeader => 4,
            ChecksumType::Zilog => 5,
            ChecksumType::Fletcher2 => 6,
            ChecksumType::Fletcher4 => 7,
            ChecksumType::Sha256 => 8,
            ChecksumType::Zilog2 => 9,
            ChecksumType::NoParity => 10,
            ChecksumType::Sha512_256 => 11,
            ChecksumType::Skein => 12,
            ChecksumType::EdonR => 13,
            ChecksumType::Blake3 => 14,
        }
    }

    /// The value whose code is `value`, for known codes.
    pub open spec fn spec_from_u8(value: u8) -> ChecksumType
        recommends
            value <= 14,
    {
        if value == 0 {
            ChecksumType::Inherit
        } else if value == 1 {
            ChecksumType::On
        } else if value == 2 {
            ChecksumType::Off
        } else if value == 3 {
            ChecksumType::Label
        } else if value == 4 {
            ChecksumType::GangHeader
        } else if value == 5 {
            ChecksumType::Zilog
        } else if value == 6 {
            ChecksumType::Fletcher2
        } else if value == 7 {
            ChecksumType::Fletcher4
        } else if value == 8 {
            ChecksumType::Sha256
        } else if value == 9 {
            ChecksumType::Zilog2
        } else if value == 10 {
            ChecksumType::NoParity
        } else if value == 11 {
            ChecksumType::Sha512_256
        } else if value == 12 {
            ChecksumType::Skein
        } else if value == 13 {
            ChecksumType::EdonR
        } else {
            ChecksumType::Blake3
        }
    }

    /// Looks a value up by its numeric code; exactly the codes
    /// 0 through 14 are known.
    pub fn try_from_u8(value: u8) -> (r: Result<ChecksumType, ChecksumTypeError>)
        ensures
            value <= 14 ==> r == Ok::<ChecksumType, ChecksumTypeError>(ChecksumType::spec_from_u8(value)),
            value <= 14 ==> ChecksumType::spec_from_u8(value).spec_value() == value,
            value > 14 ==> r == Err::<ChecksumType, ChecksumTypeError>((ChecksumTypeError::InvalidValue { value })),
    {
        match value {
            0 => Ok(ChecksumType::Inherit),
            1 => Ok(ChecksumType::On),
            2 => Ok(ChecksumType::Off),
            3 => Ok(ChecksumType::Label),
            4 => Ok(ChecksumType::GangHeader),
            5 => Ok(ChecksumType::Zilog),
            6 => Ok(ChecksumType::Fletcher2),
            7 => Ok(ChecksumType::Fletcher4),
            8 => Ok(ChecksumType::Sha256),
            9 => Ok(ChecksumType::Zilog2),
            10 => Ok(ChecksumType::NoParity),
            11 => Ok(ChecksumType::Sha512_256),
            12 => Ok(ChecksumType::Skein),
            13 => Ok(ChecksumType::EdonR),
            14 => Ok(ChecksumType::Blake3),
            _ => Err(ChecksumTypeError::InvalidValue { value }),
        }
    }
}

} // verus!
