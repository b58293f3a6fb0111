//! Checksum of an opaque block with a chosen algorithm and byte order.

use vstd::prelude::*;

use crate::checksum::fletcher::{fletcher2, fletcher4};
use crate::checksum::sha256::sha256_words;
use crate::checksum::sha512::sha512_256_words;
use crate::endian::Endian;
use crate::phys::{ChecksumType, ChecksumValue};

verus! {

/// True for the checksum types a block checksum can be computed with.
/// The other values are either placeholders (inherit, on, off) or
/// algorithms this library does not carry.
pub open spec fn checksum_computable(t: ChecksumType) -> bool {
    ||| t is Fletcher2
    ||| t is Fletcher4
    ||| t is Sha256
    ||| t is Sha512_256
}

/// The checksum of `data` under the algorithm `t`, with words loaded in
/// the order given by `e` where the algorithm reads words.
pub open spec fn block_checksum_words(data: Seq<u8>, e: Endian, t: ChecksumType) -> Seq<u64>
    recommends
        checksum_computable(t),
{
    match t {
        ChecksumType::Fletcher2 => fletcher2(data, e),
        ChecksumType::Fletcher4 => fletcher4(data, e),
        ChecksumType::Sha256 => sha256_words(data),
        ChecksumType::Sha512_256 => sha512_256_words(data),
        _ => seq![0u64, 0u64, 0u64, 0u64],
    }
}

/// A failure while computing a block checksum. The supported
/// algorithms report none; the type gives the compute path the same
/// result shape as the verify path.
#[derive(Debug, PartialEq, Eq, Structural)]
pub enum BlockChecksumError {
    /// Reserved for algorithms the library does not carry.
    Unsupported {},
}

/// A failure while verifying a block checksum.
#[derive(Debug, PartialEq, Eq, Structural)]
pub enum BlockVerifyError {
    /// The computed checksum differs from the expected one.
    Mismatch {},
}

/// Computes the checksum of the `data` block.
pub fn block_checksum(data: &[u8], endian: Endian, checksum_type: ChecksumType) -> (r: Result<
    ChecksumValue,
    BlockChecksumError,
>)
    requires
        checksum_computable(checksum_type),
    ensures
        r matches Ok(v) && v.words@ == block_checksum_words(data@, endian, checksum_type),
{
    let words = match checksum_type {
        ChecksumType::Fletcher2 => match endian {
            Endian::Little => crate::checksum::fletcher::fletcher_2_le(data),
            Endian::Big => crate::checksum::fletcher::fletcher_2_be(data),
        },
        ChecksumType::Fletcher4 => match endian {
            Endian::Little => crate::checksum::fletcher::fletcher_4_le(data),
            Endian::Big => crate::checksum::fletcher::fletcher_4_be(data),
        },
        ChecksumType::Sha256 => crate::checksum::sha256::sha_256_digest(data),
        ChecksumType::Sha512_256 => crate::checksum::sha512::sha_512_256_digest(data),
        _ => [0, 0, 0, 0],
    };
    Ok(ChecksumValue { words })
}

/// Verifies the checksum of the `data` block: succeeds exactly when the
/// recomputed checksum equals `checksum_value`.
pub fn block_verify(
    data: &[u8],
    endian: Endian,
    checksum_type: ChecksumType,
    checksum_value: &ChecksumValue,
) -> (r: Result<(), BlockVerifyError>)
    requires
        checksum_computable(checksum_type),
    ensures
        r == Ok::<(), BlockVerifyError>(()) <==> checksum_value.words@ == block_checksum_words(
            data@,
            endian,
            checksum_type,
        ),
        r is Err ==> r == Err::<(), BlockVerifyError>(BlockVerifyError::Mismatch {}),
{
    let computed = match block_checksum(data, endian, checksum_type) {
        Ok(v) => v,
        Err(_) => {
            return Err(BlockVerifyError::Mismatch {});
        },
    };
    if computed.words[0] == checksum_value.words[0] && computed.words[1] == checksum_value.words[1]
        && computed.words[2] == checksum_value.words[2] && computed.words[3]
        == checksum_value.words[3] {
        proof {
            assert(checksum_value.words@ =~= computed.words@);
        }
        Ok(())
    } else {
        proof {
            assert(computed.words@.len() == 4);
        }
        Err(BlockVerifyError::Mismatch {})
    }
}

} // verus!
