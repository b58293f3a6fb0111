//! The self-describing checksum embedded at the tail of label regions.
//!
//! A protected region ends in a 40-byte tail: an 8-byte magic whose byte
//! order identifies the endian, then four 64-bit checksum words. The
//! checksum is a SHA-256 over the whole region with the tail seeded by
//! the region's byte offset on the device, so the same bytes at another
//! offset fail verification.

use vstd::prelude::*;

use crate::checksum::sha256::sha256_words;
use crate::endian::{spliced, word64, word64_of, DecodeError, Decoder, EncodeError, Endian};
use crate::phys::checksum_value::words_at;

verus! {

/// Byte length of an encoded label checksum tail (including magic).
pub const LENGTH: usize = 40;

/// Embedded checksum magic.
pub const MAGIC: u64 = 0x210da7ab10c7a11;

/// The region with its tail seeded for computation: magic, the offset
/// word, and three zero words.
pub open spec fn label_prefill(d: Seq<u8>, offset: u64, e: Endian) -> Seq<u8>
    recommends
        d.len() >= 40,
{
    d.subrange(0, d.len() - 40) + word64(MAGIC, e) + word64(offset, e) + word64(0, e) + word64(0, e)
        + word64(0, e)
}

/// The checksum words stored by the write path: a SHA-256 over the
/// seeded region.
pub open spec fn label_words(d: Seq<u8>, offset: u64, e: Endian) -> Seq<u64>
    recommends
        d.len() >= 40,
{
    sha256_words(label_prefill(d, offset, e))
}

/// The region after the write path: the seeded tail's four words
/// overwritten with the computed checksum; the magic stays.
pub open spec fn label_checksummed(d: Seq<u8>, offset: u64, e: Endian) -> Seq<u8>
    recommends
        d.len() >= 40,
{
    let w = label_words(d, offset, e);
    d.subrange(0, d.len() - 40) + word64(MAGIC, e) + word64(w[0], e) + word64(w[1], e) + word64(
        w[2],
        e,
    ) + word64(w[3], e)
}

/// The synthetic 32-byte region the read path hashes in place of the
/// stored words: the offset word and three zero words.
pub open spec fn label_offset_region(offset: u64, e: Endian) -> Seq<u8> {
    word64(offset, e) + word64(0, e) + word64(0, e) + word64(0, e)
}

/// The checksum words the read path recomputes.
pub open spec fn label_verify_words(d: Seq<u8>, offset: u64, e: Endian) -> Seq<u64>
    recommends
        d.len() >= 40,
{
    sha256_words(d.subrange(0, d.len() - 32) + label_offset_region(offset, e))
}

/// The checksum words stored in the region's tail.
pub open spec fn label_stored_words(d: Seq<u8>, e: Endian) -> Seq<u64>
    recommends
        d.len() >= 40,
{
    words_at(d, d.len() - 32, e)
}

/// A failure while computing a label checksum.
#[derive(Debug, PartialEq, Eq)]
pub enum LabelChecksumError {
    /// An encoder ran out of space.
    EndianEncodeError { err: EncodeError },
    /// The region is shorter than a checksum tail.
    InvalidLength { length: usize },
}

/// A failure while verifying a label checksum.
#[derive(Debug, PartialEq, Eq)]
pub enum LabelVerifyError {
    /// The magic is all zeroes: the region was never written.
    EmptyMagic {},
    /// An encoder ran out of space.
    EndianEncodeError { err: EncodeError },
    /// The magic matches neither byte order.
    EndianDecodeError { err: DecodeError },
    /// The region is shorter than a checksum tail.
    InvalidLength { length: usize },
    /// The recomputed checksum differs from the stored one.
    Mismatch {},
}

/// Writes the eight bytes of `value` over `data` starting at `at`.
fn set_word64(data: &mut Vec<u8>, at: usize, value: u64, endian: Endian)
    requires
        at + 8 <= old(data)@.len(),
    ensures
        final(data)@ == spliced(old(data)@, at as int, word64(value, endian)),
        final(data)@.len() == old(data)@.len(),
{
    let total: usize = data.len();
    let b0: u8 = ((value >> 56) & 0xff) as u8;
    let b1: u8 = ((value >> 48) & 0xff) as u8;
    let b2: u8 = ((value >> 40) & 0xff) as u8;
    let b3: u8 = ((value >> 32) & 0xff) as u8;
    let b4: u8 = ((value >> 24) & 0xff) as u8;
    let b5: u8 = ((value >> 16) & 0xff) as u8;
    let b6: u8 = ((value >> 8) & 0xff) as u8;
    let b7: u8 = (value & 0xff) as u8;
    match endian {
        Endian::Big => {
            data.set(at, b0);
            data.set(at + 1, b1);
            data.set(at + 2, b2);
            data.set(at + 3, b3);
            data.set(at + 4, b4);
            data.set(at + 5, b5);
            data.set(at + 6, b6);
            data.set(at + 7, b7);
        },
        Endian::Little => {
            data.set(at, b7);
            data.set(at + 1, b6);
            data.set(at + 2, b5);
            data.set(at + 3, b4);
            data.set(at + 4, b3);
            data.set(at + 5, b2);
            data.set(at + 6, b1);
            data.set(at + 7, b0);
        },
    }
    proof {
        assert(data@ =~= spliced(old(data)@, at as int, word64(value, endian)));
    }
}

/// Computes the checksum of the `data` region and encodes it in the
/// region's tail. The `offset` is mixed into the digest as a salt;
/// `endian` chooses the tail's byte order.
pub fn label_checksum(data: &mut Vec<u8>, offset: u64, endian: Endian) -> (r: Result<
    (),
    LabelChecksumError,
>)
    ensures
        old(data)@.len() < 40 ==> (r == Err::<(), LabelChecksumError>(
            (LabelChecksumError::InvalidLength { length: old(data)@.len() as usize }),
        ) && final(data)@ == old(data)@),
        old(data)@.len() >= 40 ==> (r == Ok::<(), LabelChecksumError>(()) && final(data)@
            == label_checksummed(old(data)@, offset, endian)),
{
    let length = data.len();
    if length < LENGTH {
        return Err(LabelChecksumError::InvalidLength { length });
    }
    set_word64(data, length - 40, MAGIC, endian);
    set_word64(data, length - 32, offset, endian);
    set_word64(data, length - 24, 0, endian);
    set_word64(data, length - 16, 0, endian);
    set_word64(data, length - 8, 0, endian);
    proof {
        assert(data@ =~= label_prefill(old(data)@, offset, endian));
    }
    let checksum = crate::checksum::sha256::sha_256_digest(data.as_slice());
    let ghost w = label_words(old(data)@, offset, endian);
    set_word64(data, length - 32, checksum[0], endian);
    set_word64(data, length - 24, checksum[1], endian);
    set_word64(data, length - 16, checksum[2], endian);
    set_word64(data, length - 8, checksum[3], endian);
    proof {
        assert(data@ =~= label_checksummed(old(data)@, offset, endian));
    }
    Ok(())
}

/// What verification returns for a region: the result `r` the read
/// path must produce for `data` at `offset`.
pub open spec fn label_verify_post(d: Seq<u8>, offset: u64, r: Result<(), LabelVerifyError>) -> bool {
    let n = d.len() as int;
    if n < 40 {
        r == Err::<(), LabelVerifyError>((LabelVerifyError::InvalidLength { length: n as usize }))
    } else {
        let mb = d.subrange(n - 40, n - 32);
        if word64_of(mb, Endian::Little) == MAGIC {
            label_verdict(d, offset, Endian::Little, r)
        } else if word64_of(mb, Endian::Big) == MAGIC {
            label_verdict(d, offset, Endian::Big, r)
        } else if forall|i: int| 0 <= i < 8 ==> mb[i] == 0 {
            r == Err::<(), LabelVerifyError>((LabelVerifyError::EmptyMagic {}))
        } else {
            (r matches Err(LabelVerifyError::EndianDecodeError { err }) && err matches
            DecodeError::InvalidMagic { expected, actual } && expected == MAGIC && actual@
                =~= Seq::new(8, |i: int| mb[7 - i]))
        }
    }
}

/// True when verification of `data` at `offset` succeeds.
pub open spec fn label_verified(d: Seq<u8>, offset: u64) -> bool {
    label_verify_post(d, offset, Ok(()))
}

/// Verifies the checksum of the `data` region against the stored tail.
/// The endian comes from the magic's byte order; an all-zero magic means
/// the region was never written.
pub fn label_verify(data: &[u8], offset: u64) -> (r: Result<(), LabelVerifyError>)
    ensures
        label_verify_post(data@, offset, r),
        r is Ok <==> label_verified(data@, offset),
{
    let length = data.len();
    if length < LENGTH {
        return Err(LabelVerifyError::InvalidLength { length });
    }
    let tail = vstd::slice::slice_subrange(data, length - 40, length);
    let mut decoder = match Decoder::from_u64_magic(tail, MAGIC) {
        Ok(v) => v,
        Err(e) => {
            match e {
                DecodeError::InvalidMagic { expected, actual } => {
                    if actual[0] == 0 && actual[1] == 0 && actual[2] == 0 && actual[3] == 0
                        && actual[4] == 0 && actual[5] == 0 && actual[6] == 0 && actual[7] == 0 {
                        proof {
                            let mb = data@.subrange(length - 40, length - 32);
                            assert forall|i: int| 0 <= i < 8 implies mb[i] == 0 by {
                                assert(actual@[7 - i] == mb[i]);
                            }
                        }
                        return Err(LabelVerifyError::EmptyMagic {});
                    }
                    return Err(
                        LabelVerifyError::EndianDecodeError {
                            err: DecodeError::InvalidMagic { expected, actual },
                        },
                    );
                },
                _ => {
                    return Err(LabelVerifyError::EndianDecodeError { err: e });
                },
            }
        },
    };
    let endian = decoder.endian();
    let w0 = match decoder.get_u64() {
        Ok(v) => v,
        Err(e) => {
            return Err(LabelVerifyError::EndianDecodeError { err: e });
        },
    };
    let w1 = match decoder.get_u64() {
        Ok(v) => v,
        Err(e) => {
            return Err(LabelVerifyError::EndianDecodeError { err: e });
        },
    };
    let w2 = match decoder.get_u64() {
        Ok(v) => v,
        Err(e) => {
            return Err(LabelVerifyError::EndianDecodeError { err: e });
        },
    };
    let w3 = match decoder.get_u64() {
        Ok(v) => v,
        Err(e) => {
            return Err(LabelVerifyError::EndianDecodeError { err: e });
        },
    };
    proof {
        let d = data@;
        let n = d.len() as int;
        assert(tail@.subrange(8, 16) =~= d.subrange(n - 32, n - 24));
        assert(tail@.subrange(16, 24) =~= d.subrange(n - 24, n - 16));
        assert(tail@.subrange(24, 32) =~= d.subrange(n - 16, n - 8));
        assert(tail@.subrange(32, 40) =~= d.subrange(n - 8, n));
        assert(seq![w0, w1, w2, w3] =~= label_stored_words(d, endian));
    }
    let mut region: Vec<u8> = Vec::new();
    let mut i: usize = 0;
    while i < 32
        invariant
            0 <= i <= 32,
            region@.len() == i,
            forall|j: int| 0 <= j < i ==> region@[j] == 0,
        decreases 32 - i,
    {
        region.push(0);
        i = i + 1;
    }
    set_word64(&mut region, 0, offset, endian);
    proof {
        assert((0u64 >> 56) & 0xff == 0 && (0u64 >> 48) & 0xff == 0 && (0u64 >> 40) & 0xff == 0 && (
        0u64 >> 32) & 0xff == 0 && (0u64 >> 24) & 0xff == 0 && (0u64 >> 16) & 0xff == 0 && (0u64
            >> 8) & 0xff == 0 && 0u64 & 0xff == 0) by (bit_vector);
        assert(region@ =~= label_offset_region(offset, endian));
    }
    let prefix = vstd::slice::slice_subrange(data, 0, length - 32);
    let region_slice = region.as_slice();
    let slices: [&[u8]; 2] = [prefix, region_slice];
    let computed = crate::checksum::sha256::sha_256_digest_slices(
        vstd::array::array_as_slice(&slices),
    );
    proof {
        let dv = vstd::array::spec_array_as_slice(&slices).deep_view();
        assert(dv =~= seq![prefix.deep_view(), region_slice.deep_view()]);
        reveal_with_fuel(Seq::flatten, 3);
        assert(dv.flatten() =~= data@.subrange(0, data@.len() - 32) + label_offset_region(
            offset,
            endian,
        ));
    }
    if w0 == computed[0] && w1 == computed[1] && w2 == computed[2] && w3 == computed[3] {
        proof {
            assert(label_stored_words(data@, endian) =~= label_verify_words(data@, offset, endian));
        }
        Ok(())
    } else {
        proof {
            assert(label_stored_words(data@, endian) != label_verify_words(data@, offset, endian));
        }
        Err(LabelVerifyError::Mismatch {})
    }
}

/// What verification returns once the endian is known: success exactly
/// when the stored words equal the recomputed words.
pub open spec fn label_verdict(
    d: Seq<u8>,
    offset: u64,
    e: Endian,
    r: Result<(), LabelVerifyError>,
) -> bool
    recommends
        d.len() >= 40,
{
    if label_stored_words(d, e) == label_verify_words(d, offset, e) {
        r == Ok::<(), LabelVerifyError>(())
    } else {
        r == Err::<(), LabelVerifyError>((LabelVerifyError::Mismatch {}))
    }
}

} // verus!
