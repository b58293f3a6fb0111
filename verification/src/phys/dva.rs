//! The Data Virtual Address: a 16-byte physical pointer.
//!
//! The first word packs a zero padding byte, the vdev id, a grid byte,
//! and the allocated size in sectors; the second word packs the gang bit
//! and the offset in sectors. An all-zero pair is legal and means the
//! address is absent.

use vstd::prelude::*;

use crate::endian::{spliced, word64, Decoder, DecodeError, Encoder, EncodeError, Endian};

verus! {

/// Mask for unused padding in the first word.
pub const PADDING_MASK: u64 = 0xff00000000000000;

/// Mask for the gang bit in the second word.
pub const GANG_MASK: u64 = 0x8000000000000000;

/// Mask for the offset field in the second word.
pub const OFFSET_MASK: u64 = 0x7fffffffffffffff;

/// A Data Virtual Address.
#[derive(Clone, Copy, Debug, PartialEq, Eq, Structural)]
pub struct Dva {
    pub vdev: u32,
    pub grid: u8,
    pub asize: u32,
    pub offset: u64,
    pub is_gang: bool,
}

/// Byte length of an encoded DVA.
pub const DVA_LENGTH: usize = 16;

/// The first packed word of a DVA: vdev, grid and asize.
pub open spec fn dva_word0(d: Dva) -> u64 {
    ((d.vdev as u64) << 32) | ((d.grid as u64) << 24) | (d.asize as u64)
}

/// The second packed word of a DVA: the gang bit and the offset.
pub open spec fn dva_word1(d: Dva) -> u64 {
    (if d.is_gang {
        GANG_MASK
    } else {
        0
    }) | d.offset
}

/// The DVA read from two already-decoded words.
pub open spec fn dva_unpack(a: u64, b: u64) -> Dva {
    Dva {
        vdev: ((a >> 32) & 0xffffff) as u32,
        grid: ((a >> 24) & 0xff) as u8,
        asize: (a & 0xffffff) as u32,
        offset: b & OFFSET_MASK,
        is_gang: (b & GANG_MASK) != 0,
    }
}

/// A DVA whose fields fit their packed widths.
pub open spec fn dva_valid(d: Dva) -> bool {
    &&& d.asize <= 0xffffff
    &&& d.vdev <= 0xffffff
    &&& d.offset <= OFFSET_MASK
}

/// The 16-byte encoding of a DVA in the order given by `e`.
pub open spec fn dva_bytes(d: Dva, e: Endian) -> Seq<u8> {
    word64(dva_word0(d), e) + word64(dva_word1(d), e)
}

/// A failure while decoding a DVA.
#[derive(Debug, PartialEq, Eq)]
pub enum DvaDecodeError {
    /// The underlying byte decoder failed.
    EndianDecodeError { err: DecodeError },
    /// The offset field is out of range.
    InvalidOffset { offset: u64 },
    /// The leading padding byte of the first word is not zero.
    NonZeroPadding { padding: u64 },
}

/// A failure while encoding a DVA.
#[derive(Debug, PartialEq, Eq)]
pub enum DvaEncodeError {
    /// The underlying byte encoder failed.
    EndianEncodeError { err: EncodeError },
    /// The asize field does not fit its 24 bits.
    InvalidAsize { asize: u32 },
    /// The offset field does not fit its 63 bits.
    InvalidOffset { offset: u64 },
    /// The vdev field does not fit its 24 bits.
    InvalidVdev { vdev: u32 },
}

impl Dva {
    /// Decodes a DVA: two words, rejecting non-zero leading padding.
    /// An all-zero pair decodes to the absent address.
    pub fn from_decoder(decoder: &mut Decoder) -> (r: Result<Dva, DvaDecodeError>)
        requires
            old(decoder).wf(),
        ensures
            final(decoder).wf(),
            final(decoder).spec_data() == old(decoder).spec_data(),
            final(decoder).spec_endian() == old(decoder).spec_endian(),
            ({
                let d = old(decoder).spec_data();
                let off = old(decoder).spec_offset();
                let e = old(decoder).spec_endian();
                if off + 16 <= d.len() {
                    let a = crate::endian::word64_of(d.subrange(off, off + 8), e);
                    let b = crate::endian::word64_of(d.subrange(off + 8, off + 16), e);
                    &&& final(decoder).spec_offset() == off + 16
                    &&& a == 0 && b == 0 ==> r == Ok::<Dva, DvaDecodeError>(
                        (Dva { vdev: 0, grid: 0, asize: 0, offset: 0, is_gang: false }),
                    )
                    &&& !(a == 0 && b == 0) && a & PADDING_MASK != 0 ==> r == Err::<
                        Dva,
                        DvaDecodeError,
                    >((DvaDecodeError::NonZeroPadding { padding: a & PADDING_MASK }))
                    &&& !(a == 0 && b == 0) && a & PADDING_MASK == 0 ==> r == Ok::<
                        Dva,
                        DvaDecodeError,
                    >(dva_unpack(a, b))
                } else {
                    let done = (d.len() - off) / 8;
                    r == Err::<Dva, DvaDecodeError>(
                        (DvaDecodeError::EndianDecodeError {
                            err: DecodeError::EndOfInput {
                                offset: (off + 8 * done) as usize,
                                length: d.len() as usize,
                                count: 8,
                            },
                        }),
                    ) && final(decoder).spec_offset() == off + 8 * done
                }
            }),
    {
        let a = match decoder.get_u64() {
            Ok(v) => v,
            Err(e) => {
                return Err(DvaDecodeError::EndianDecodeError { err: e });
            },
        };
        let b = match decoder.get_u64() {
            Ok(v) => v,
            Err(e) => {
                return Err(DvaDecodeError::EndianDecodeError { err: e });
            },
        };
        if a == 0 && b == 0 {
            return Ok(Dva { vdev: 0, grid: 0, asize: 0, offset: 0, is_gang: false });
        }
        let padding = a & PADDING_MASK;
        if padding != 0 {
            return Err(DvaDecodeError::NonZeroPadding { padding });
        }
        Ok(
            Dva {
                vdev: ((a >> 32) & 0xffffff) as u32,
                grid: ((a >> 24) & 0xff) as u8,
                asize: (a & 0xffffff) as u32,
                offset: b & OFFSET_MASK,
                is_gang: (b & GANG_MASK) != 0,
            },
        )
    }

    /// Encodes a DVA: field widths are checked, then the two packed
    /// words are written.
    pub fn to_encoder(&self, encoder: &mut Encoder) -> (r: Result<(), DvaEncodeError>)
        requires
            old(encoder).wf(),
        ensures
            final(encoder).wf(),
            final(encoder).spec_endian() == old(encoder).spec_endian(),
            final(encoder).spec_data().len() == old(encoder).spec_data().len(),
            ({
                let d = old(encoder).spec_data();
                let off = old(encoder).spec_offset();
                let e = old(encoder).spec_endian();
                if self.asize > 0xffffff {
                    r == Err::<(), DvaEncodeError>(
                        (DvaEncodeError::InvalidAsize { asize: self.asize }),
                    ) && final(encoder).spec_data() == d && final(encoder).spec_offset() == off
                } else if self.vdev > 0xffffff {
                    r == Err::<(), DvaEncodeError>((DvaEncodeError::InvalidVdev { vdev: self.vdev }))
                        && final(encoder).spec_data() == d && final(encoder).spec_offset() == off
                } else if self.offset > OFFSET_MASK {
                    r == Err::<(), DvaEncodeError>(
                        (DvaEncodeError::InvalidOffset { offset: self.offset }),
                    ) && final(encoder).spec_data() == d && final(encoder).spec_offset() == off
                } else if off + 16 <= d.len() {
                    r == Ok::<(), DvaEncodeError>(()) && final(encoder).spec_data() == spliced(
                        d,
                        off,
                        dva_bytes(*self, e),
                    ) && final(encoder).spec_offset() == off + 16
                } else {
                    let done = (d.len() - off) / 8;
                    r == Err::<(), DvaEncodeError>(
                        (DvaEncodeError::EndianEncodeError {
                            err: EncodeError::EndOfOutput {
                                offset: (off + 8 * done) as usize,
                                length: d.len() as usize,
                                count: 8,
                            },
                        }),
                    ) && final(encoder).spec_offset() == off + 8 * done && (forall|i: int|
                        0 <= i < off ==> #[trigger] final(encoder).spec_data()[i] == d[i])
                }
            }),
    {
        let vdev = self.vdev as u64;
        let grid = self.grid as u64;
        let asize = self.asize as u64;
        if asize > 0xffffff {
            return Err(DvaEncodeError::InvalidAsize { asize: self.asize });
        }
        if vdev > 0xffffff {
            return Err(DvaEncodeError::InvalidVdev { vdev: self.vdev });
        }
        if self.offset > OFFSET_MASK {
            return Err(DvaEncodeError::InvalidOffset { offset: self.offset });
        }
        let a = (vdev << 32) | (grid << 24) | asize;
        let b = (if self.is_gang {
            GANG_MASK
        } else {
            0
        }) | self.offset;
        match encoder.put_u64(a) {
            Ok(()) => (),
            Err(e) => {
                proof {
                    assert(encoder.spec_data().subrange(0, old(encoder).spec_offset()) =~= old(
                        encoder,
                    ).spec_data().subrange(0, old(encoder).spec_offset()));
                }
                return Err(DvaEncodeError::EndianEncodeError { err: e });
            },
        }
        match encoder.put_u64(b) {
            Ok(()) => (),
            Err(e) => {
                proof {
                    assert(encoder.spec_data().subrange(0, old(encoder).spec_offset()) =~= old(
                        encoder,
                    ).spec_data().subrange(0, old(encoder).spec_offset()));
                }
                return Err(DvaEncodeError::EndianEncodeError { err: e });
            },
        }
        proof {
            crate::endian::lemma_spliced_adjacent(
                old(encoder).spec_data(),
                old(encoder).spec_offset(),
                word64(dva_word0(*self), old(encoder).spec_endian()),
                word64(dva_word1(*self), old(encoder).spec_endian()),
            );
        }
        Ok(())
    }
}

/// Unpacking the packed words of a well-formed DVA gives its fields
/// back: decoding an encoded DVA yields an equal value.
pub proof fn lemma_dva_pack_roundtrip(d: Dva)
    requires
        dva_valid(d),
    ensures
        dva_unpack(dva_word0(d), dva_word1(d)) == d,
        !(dva_word0(d) == 0 && dva_word1(d) == 0) || (d == Dva {
            vdev: 0,
            grid: 0,
            asize: 0,
            offset: 0,
            is_gang: false,
        }),
        dva_word0(d) & PADDING_MASK == 0,
{
    let vdev = d.vdev;
    let grid = d.grid;
    let asize = d.asize;
    let offset = d.offset;
    let a = ((vdev as u64) << 32) | ((grid as u64) << 24) | (asize as u64);
    let gw: u64 = if d.is_gang {
        0x8000000000000000
    } else {
        0
    };
    let b = gw | offset;
    assert(((a >> 32) & 0xffffff) as u32 == vdev && ((a >> 24) & 0xff) as u8 == grid && (a
        & 0xffffff) as u32 == asize && a & 0xff00000000000000 == 0) by (bit_vector)
        requires
            a == ((vdev as u64) << 32) | ((grid as u64) << 24) | (asize as u64),
            vdev <= 0xffffff,
            asize <= 0xffffff,
    ;
    assert((b & 0x7fffffffffffffff == offset) && ((b & 0x8000000000000000 != 0) == (gw
        == 0x8000000000000000)) && ((a == 0 && b == 0) ==> (vdev == 0 && grid == 0 && asize == 0
        && offset == 0 && gw == 0))) by (bit_vector)
        requires
            b == gw | offset,
            offset <= 0x7fffffffffffffff,
            gw == 0 || gw == 0x8000000000000000,
            a == ((vdev as u64) << 32) | ((grid as u64) << 24) | (asize as u64),
    ;
}

} // verus!
