//! The 40-byte checksum trailer of label-protected regions.

use vstd::prelude::*;

use crate::endian::{word64, word64_of, Decoder, DecodeError, Encoder, EncodeError, Endian};
use crate::phys::checksum_value::{words_at, words_bytes, ChecksumValue};

verus! {

/// Byte length of an encoded checksum tail.
pub const LENGTH: usize = 40;

/// Magic value of an encoded checksum tail; its byte order identifies
/// the endian of the words that follow.
pub const MAGIC: u64 = 0x210da7ab10c7a11;

/// A checksum tail: the byte order it was written in, and four words.
#[derive(Clone, Copy, Debug, PartialEq, Eq)]
pub struct ChecksumTail {
    pub endian: Endian,
    pub value: ChecksumValue,
}

/// The 40-byte encoding of a checksum tail.
pub open spec fn tail_bytes(t: ChecksumTail) -> Seq<u8> {
    word64(MAGIC, t.endian) + words_bytes(t.value.words@, t.endian)
}

impl ChecksumTail {
    /// Decodes a checksum tail, inferring the endian from the magic's
    /// byte order.
    pub fn from_bytes(bytes: &[u8]) -> (r: Result<ChecksumTail, DecodeError>)
        requires
            bytes@.len() == LENGTH,
        ensures
            ({
                let d = bytes@;
                let mb = d.subrange(0, 8);
                if word64_of(mb, Endian::Little) == MAGIC {
                    (r matches Ok(t) && t.endian == Endian::Little && t.value.words@ == words_at(
                        d,
                        8,
                        Endian::Little,
                    ))
                } else if word64_of(mb, Endian::Big) == MAGIC {
                    (r matches Ok(t) && t.endian == Endian::Big && t.value.words@ == words_at(
                        d,
                        8,
                        Endian::Big,
                    ))
                } else {
                    (r matches Err(DecodeError::InvalidMagic { expected, actual }) && expected
                        == MAGIC && actual@ =~= Seq::new(8, |i: int| mb[7 - i]))
                }
            }),
    {
        let mut decoder = match Decoder::from_u64_magic(bytes, MAGIC) {
            Ok(v) => v,
            Err(e) => {
                return Err(e);
            },
        };
        let endian = decoder.endian();
        let value = match ChecksumValue::from_decoder(&mut decoder) {
            Ok(v) => v,
            Err(e) => {
                return Err(e);
            },
        };
        Ok(ChecksumTail { endian, value })
    }

    /// Encodes a checksum tail into the 40-byte buffer: the magic in the
    /// tail's byte order, then the four words.
    pub fn to_bytes(&self, bytes: &mut Vec<u8>) -> (r: Result<(), EncodeError>)
        requires
            old(bytes)@.len() == LENGTH,
        ensures
            r == Ok::<(), EncodeError>(()),
            final(bytes)@ == tail_bytes(*self),
    {
        let mut buf: Vec<u8> = Vec::new();
        core::mem::swap(bytes, &mut buf);
        let mut encoder = Encoder::to_bytes(buf, self.endian);
        match encoder.put_u64(MAGIC) {
            Ok(()) => (),
            Err(e) => {
                return Err(e);
            },
        }
        match self.value.to_encoder(&mut encoder) {
            Ok(()) => (),
            Err(e) => {
                return Err(e);
            },
        }
        let mut out = encoder.finish();
        proof {
            crate::endian::lemma_spliced_adjacent(
                old(bytes)@,
                0,
                word64(MAGIC, self.endian),
                words_bytes(self.value.words@, self.endian),
            );
            assert(out@ =~= tail_bytes(*self));
        }
        core::mem::swap(bytes, &mut out);
        Ok(())
    }
}

} // verus!
