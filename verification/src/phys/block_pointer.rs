//! The 128-byte block pointer: a tagged union over regular, encrypted
//! and embedded shapes sharing one flags-word layout.
//!
//! The flags word carries, from the low bits up: the sizes (laid out per
//! variant), compression, the embedded bit, the checksum type or
//! embedded type, the DMU type, the level, and the encrypted, dedup and
//! little-endian bits. The embedded and encrypted bits select the
//! variant; both set at once is invalid.

use vstd::prelude::*;

use crate::endian::{
    spliced, word64, word64_of, Decoder, DecodeError, Encoder, EncodeError, Endian,
};
use crate::phys::checksum_value::{words_at, words_bytes, ChecksumValue};
use crate::phys::dva::{
    dva_bytes, dva_unpack, dva_valid, Dva, DvaDecodeError, DvaEncodeError, PADDING_MASK,
};
use crate::phys::{
    ChecksumType, ChecksumTypeError, CompressionType, CompressionTypeError, DmuType, DmuTypeError,
};

verus! {

/// Byte length of an encoded block pointer.
pub const BLOCK_POINTER_LENGTH: usize = 128;

/// Flag bit marking an embedded block pointer.
pub const EMBEDDED_FLAG_MASK: u64 = 1u64 << 39;

/// Flag bit marking an encrypted block pointer.
pub const ENCRYPTED_FLAG_MASK: u64 = 1u64 << 61;

/// Flag bit marking deduplication.
pub const DEDUP_FLAG_MASK: u64 = 1u64 << 62;

/// Flag bit marking little-endian byte order of the pointed-to block.
pub const LITTLE_ENDIAN_FLAG_MASK: u64 = 1u64 << 63;

/// The 64-bit word at offset `off` of `d` in the order given by `e`.
pub open spec fn word64_at(d: Seq<u8>, off: int, e: Endian) -> u64 {
    word64_of(d.subrange(off, off + 8), e)
}

/// The embedded bit of a flags word.
pub open spec fn bp_embedded_flag(flags: u64) -> bool {
    flags & EMBEDDED_FLAG_MASK != 0
}

/// The encrypted bit of a flags word.
pub open spec fn bp_encrypted_flag(flags: u64) -> bool {
    flags & ENCRYPTED_FLAG_MASK != 0
}

/// The dedup bit of a flags word.
pub open spec fn bp_dedup_flag(flags: u64) -> bool {
    flags & DEDUP_FLAG_MASK != 0
}

/// The byte order named by a flags word.
pub open spec fn bp_endian_flag(flags: u64) -> Endian {
    if flags & LITTLE_ENDIAN_FLAG_MASK != 0 {
        Endian::Little
    } else {
        Endian::Big
    }
}

/// The level field of a flags word (five bits).
pub open spec fn bp_level(flags: u64) -> u8 {
    ((flags >> 56) & 0x1f) as u8
}

/// The DMU type code of a flags word.
pub open spec fn bp_dmu_code(flags: u64) -> u8 {
    ((flags >> 48) & 0xff) as u8
}

/// The checksum type code (or embedded type code) of a flags word.
pub open spec fn bp_checksum_code(flags: u64) -> u8 {
    ((flags >> 40) & 0xff) as u8
}

/// The compression code of a flags word (seven bits).
pub open spec fn bp_compression_code(flags: u64) -> u8 {
    ((flags >> 32) & 0x7f) as u8
}

/// True when the 16-byte DVA slot at `off` decodes: either all zero, or
/// with a zero leading padding byte.
pub open spec fn dva_slot_ok(d: Seq<u8>, off: int, e: Endian) -> bool {
    let a = word64_at(d, off, e);
    let b = word64_at(d, off + 8, e);
    (a == 0 && b == 0) || a & PADDING_MASK == 0
}

/// The DVA decoded from the 16-byte slot at `off`.
pub open spec fn dva_slot(d: Seq<u8>, off: int, e: Endian) -> Dva {
    let a = word64_at(d, off, e);
    let b = word64_at(d, off + 8, e);
    if a == 0 && b == 0 {
        Dva { vdev: 0, grid: 0, asize: 0, offset: 0, is_gang: false }
    } else {
        dva_unpack(a, b)
    }
}

/// The error reported for a DVA slot that does not decode.
pub open spec fn dva_slot_err(d: Seq<u8>, off: int, e: Endian) -> DvaDecodeError {
    DvaDecodeError::NonZeroPadding { padding: word64_at(d, off, e) & PADDING_MASK }
}

/// The error reported for a DVA whose fields do not fit their widths.
pub open spec fn dva_field_err(d: Dva) -> DvaEncodeError {
    if d.asize > 0xffffff {
        DvaEncodeError::InvalidAsize { asize: d.asize }
    } else if d.vdev > 0xffffff {
        DvaEncodeError::InvalidVdev { vdev: d.vdev }
    } else {
        DvaEncodeError::InvalidOffset { offset: d.offset }
    }
}

/// A block pointer: one of the three shapes.
#[derive(Clone, Debug, PartialEq)]
pub enum BlockPointer {
    Embedded(BlockPointerEmbedded),
    Encrypted(BlockPointerEncrypted),
    Regular(BlockPointerRegular),
}

/// A failure while decoding a block pointer.
#[derive(Debug, PartialEq)]
pub enum BlockPointerDecodeError {
    /// The checksum type code is unknown.
    ChecksumTypeError { err: ChecksumTypeError },
    /// The compression code is unknown.
    CompressionTypeError { err: CompressionTypeError },
    /// The DMU type code is unknown.
    DmuTypeError { err: DmuTypeError },
    /// A DVA slot does not decode.
    DvaDecodeError { err: DvaDecodeError },
    /// The underlying byte decoder failed.
    EndianDecodeError { err: DecodeError },
    /// The embedded and encrypted bits name no shape.
    InvalidBlockPointerType { embedded: bool, encrypted: bool },
    /// The dedup bit is set where the shape forbids it.
    InvalidDedupValue { dedup: bool },
    /// The embedded physical size exceeds the payload capacity.
    InvalidEmbeddedLength { length: u8 },
    /// The embedded type code is unknown.
    InvalidEmbeddedType { embedded_type: u8 },
}

/// A failure while encoding a block pointer.
#[derive(Debug, PartialEq)]
pub enum BlockPointerEncodeError {
    /// A DVA's fields do not fit their widths.
    DvaEncodeError { err: DvaEncodeError },
    /// The underlying byte encoder failed.
    EndianEncodeError { err: EncodeError },
    /// The embedded physical size exceeds the payload capacity.
    InvalidEmbeddedLength { length: u8 },
    /// The level does not fit its five bits.
    InvalidLevel { level: u8 },
    /// The embedded logical size does not fit its 25 bits.
    InvalidLogicalSize { logical_size: u32 },
}

/// A regular block pointer: three DVAs, a full checksum.
#[derive(Clone, Debug, PartialEq)]
pub struct BlockPointerRegular {
    pub checksum_type: ChecksumType,
    pub checksum_value: ChecksumValue,
    pub compression: CompressionType,
    pub dedup: bool,
    pub dmu: DmuType,
    pub dvas: [Dva; 3],
    pub endian: Endian,
    pub fill_count: u64,
    pub level: u8,
    pub logical_birth_txg: u64,
    pub logical_size: u16,
    pub physical_birth_txg: u64,
    pub physical_size: u16,
}

/// The packed flags word of a regular block pointer.
pub open spec fn regular_flags(p: BlockPointerRegular) -> u64 {
    (p.logical_size as u64) | ((p.physical_size as u64) << 16) | ((
    p.compression.spec_value() as u64) << 32) | ((p.checksum_type.spec_value() as u64) << 40) | ((
    p.dmu.spec_value() as u64) << 48) | ((p.level as u64) << 56) | (if p.dedup {
        DEDUP_FLAG_MASK
    } else {
        0
    }) | (if p.endian is Little {
        LITTLE_ENDIAN_FLAG_MASK
    } else {
        0
    })
}

/// The 128-byte encoding of a regular block pointer in the order given
/// by `e`.
pub open spec fn regular_bytes(p: BlockPointerRegular, e: Endian) -> Seq<u8> {
    dva_bytes(p.dvas@[0], e) + dva_bytes(p.dvas@[1], e) + dva_bytes(p.dvas@[2], e) + word64(
        regular_flags(p),
        e,
    ) + Seq::new(16, |i: int| 0u8) + word64(p.physical_birth_txg, e) + word64(
        p.logical_birth_txg,
        e,
    ) + word64(p.fill_count, e) + words_bytes(p.checksum_value.words@, e)
}

/// A regular block pointer whose fields fit their packed widths.
pub open spec fn regular_valid(p: BlockPointerRegular) -> bool {
    &&& dva_valid(p.dvas@[0])
    &&& dva_valid(p.dvas@[1])
    &&& dva_valid(p.dvas@[2])
    &&& p.level <= 0x1f
}

/// True when the 128 bytes at `off` decode as a regular block pointer.
pub open spec fn regular_decode_ok(d: Seq<u8>, off: int, e: Endian) -> bool {
    let flags = word64_at(d, off + 48, e);
    &&& off + 128 <= d.len()
    &&& dva_slot_ok(d, off, e)
    &&& dva_slot_ok(d, off + 16, e)
    &&& dva_slot_ok(d, off + 32, e)
    &&& !bp_embedded_flag(flags)
    &&& !bp_encrypted_flag(flags)
    &&& bp_dmu_code(flags) <= 53
    &&& bp_checksum_code(flags) <= 14
    &&& bp_compression_code(flags) <= 16
    &&& forall|i: int| off + 56 <= i < off + 72 ==> d[i] == 0
}

/// The fields a regular block pointer decoded from the 128 bytes at
/// `off` must carry.
pub open spec fn is_regular_decoded(p: BlockPointerRegular, d: Seq<u8>, off: int, e: Endian) -> bool {
    let flags = word64_at(d, off + 48, e);
    &&& p.checksum_type == ChecksumType::spec_from_u8(bp_checksum_code(flags))
    &&& p.checksum_value.words@ == words_at(d, off + 96, e)
    &&& p.compression == CompressionType::spec_from_u8(bp_compression_code(flags))
    &&& p.dedup == bp_dedup_flag(flags)
    &&& p.dmu == DmuType::spec_from_u8(bp_dmu_code(flags))
    &&& p.dvas@ =~= seq![dva_slot(d, off, e), dva_slot(d, off + 16, e), dva_slot(d, off + 32, e)]
    &&& p.endian == bp_endian_flag(flags)
    &&& p.fill_count == word64_at(d, off + 88, e)
    &&& p.level == bp_level(flags)
    &&& p.logical_birth_txg == word64_at(d, off + 80, e)
    &&& p.logical_size == (flags & 0xffff) as u16
    &&& p.physical_birth_txg == word64_at(d, off + 72, e)
    &&& p.physical_size == ((flags >> 16) & 0xffff) as u16
}

/// The error reported for 128 in-range bytes that do not decode as a
/// regular block pointer, following the order the fields are examined.
pub open spec fn regular_decode_err(d: Seq<u8>, off: int, e: Endian) -> BlockPointerDecodeError {
    let flags = word64_at(d, off + 48, e);
    if !dva_slot_ok(d, off, e) {
        BlockPointerDecodeError::DvaDecodeError { err: dva_slot_err(d, off, e) }
    } else if !dva_slot_ok(d, off + 16, e) {
        BlockPointerDecodeError::DvaDecodeError { err: dva_slot_err(d, off + 16, e) }
    } else if !dva_slot_ok(d, off + 32, e) {
        BlockPointerDecodeError::DvaDecodeError { err: dva_slot_err(d, off + 32, e) }
    } else if bp_embedded_flag(flags) || bp_encrypted_flag(flags) {
        BlockPointerDecodeError::InvalidBlockPointerType {
            embedded: bp_embedded_flag(flags),
            encrypted: bp_encrypted_flag(flags),
        }
    } else if bp_dmu_code(flags) > 53 {
        BlockPointerDecodeError::DmuTypeError {
            err: DmuTypeError::InvalidValue { value: bp_dmu_code(flags) },
        }
    } else if bp_checksum_code(flags) > 14 {
        BlockPointerDecodeError::ChecksumTypeError {
            err: ChecksumTypeError::InvalidValue { value: bp_checksum_code(flags) },
        }
    } else if bp_compression_code(flags) > 16 {
        BlockPointerDecodeError::CompressionTypeError {
            err: CompressionTypeError::InvalidValue { value: bp_compression_code(flags) },
        }
    } else {
        BlockPointerDecodeError::EndianDecodeError { err: DecodeError::NonZeroPadding {} }
    }
}

impl BlockPointerRegular {
    /// Decodes a regular block pointer: three DVA slots, the flags word,
    /// zero padding, the transaction groups, the fill count, and the
    /// checksum. Succeeds exactly when [`regular_decode_ok`] holds of
    /// the 128 bytes at the decoder's position.
    #[verifier::rlimit(100)]
    pub fn from_decoder(decoder: &mut Decoder) -> (r: Result<
        BlockPointerRegular,
        BlockPointerDecodeError,
    >)
        requires
            old(decoder).wf(),
        ensures
            final(decoder).wf(),
            final(decoder).spec_data() == old(decoder).spec_data(),
            final(decoder).spec_endian() == old(decoder).spec_endian(),
            ({
                let d = old(decoder).spec_data();
                let off = old(decoder).spec_offset();
                let e = old(decoder).spec_endian();
                &&& regular_decode_ok(d, off, e) ==> (r matches Ok(p) && is_regular_decoded(
                    p,
                    d,
                    off,
                    e,
                ) && final(decoder).spec_offset() == off + 128)
                &&& (off + 128 <= d.len() && !regular_decode_ok(d, off, e)) ==> r == Err::<
                    BlockPointerRegular,
                    BlockPointerDecodeError,
                >(regular_decode_err(d, off, e))
                &&& off + 128 > d.len() ==> r is Err
            }),
    {
        let ghost d = old(decoder).spec_data();
        let ghost off = old(decoder).spec_offset();
        let ghost e = old(decoder).spec_endian();
        let dva0 = match Dva::from_decoder(decoder) {
            Ok(v) => v,
            Err(err) => {
                return Err(BlockPointerDecodeError::DvaDecodeError { err });
            },
        };
        let dva1 = match Dva::from_decoder(decoder) {
            Ok(v) => v,
            Err(err) => {
                return Err(BlockPointerDecodeError::DvaDecodeError { err });
            },
        };
        let dva2 = match Dva::from_decoder(decoder) {
            Ok(v) => v,
            Err(err) => {
                return Err(BlockPointerDecodeError::DvaDecodeError { err });
            },
        };
        let flags = match decoder.get_u64() {
            Ok(v) => v,
            Err(err) => {
                return Err(BlockPointerDecodeError::EndianDecodeError { err });
            },
        };
        proof {
            assert(d.subrange(off + 16, off + 24) =~= d.subrange(off + 16, off + 32).subrange(
                0,
                8,
            ));
        }
        let embedded = (flags & EMBEDDED_FLAG_MASK) != 0;
        let encrypted = (flags & ENCRYPTED_FLAG_MASK) != 0;
        if embedded || encrypted {
            return Err(BlockPointerDecodeError::InvalidBlockPointerType { embedded, encrypted });
        }
        let dedup = (flags & DEDUP_FLAG_MASK) != 0;
        let endian = if (flags & LITTLE_ENDIAN_FLAG_MASK) != 0 {
            Endian::Little
        } else {
            Endian::Big
        };
        let level = ((flags >> 56) & 0x1f) as u8;
        let dmu = match DmuType::try_from_u8(((flags >> 48) & 0xff) as u8) {
            Ok(v) => v,
            Err(err) => {
                return Err(BlockPointerDecodeError::DmuTypeError { err });
            },
        };
        let checksum_type = match ChecksumType::try_from_u8(((flags >> 40) & 0xff) as u8) {
            Ok(v) => v,
            Err(err) => {
                return Err(BlockPointerDecodeError::ChecksumTypeError { err });
            },
        };
        let compression = match CompressionType::try_from_u8(((flags >> 32) & 0x7f) as u8) {
            Ok(v) => v,
            Err(err) => {
                return Err(BlockPointerDecodeError::CompressionTypeError { err });
            },
        };
        let logical_size = (flags & 0xffff) as u16;
        let physical_size = ((flags >> 16) & 0xffff) as u16;
        match decoder.skip_zero_padding(16) {
            Ok(()) => (),
            Err(err) => {
                return Err(BlockPointerDecodeError::EndianDecodeError { err });
            },
        }
        let physical_birth_txg = match decoder.get_u64() {
            Ok(v) => v,
            Err(err) => {
                return Err(BlockPointerDecodeError::EndianDecodeError { err });
            },
        };
        let logical_birth_txg = match decoder.get_u64() {
            Ok(v) => v,
            Err(err) => {
                return Err(BlockPointerDecodeError::EndianDecodeError { err });
            },
        };
        let fill_count = match decoder.get_u64() {
            Ok(v) => v,
            Err(err) => {
                return Err(BlockPointerDecodeError::EndianDecodeError { err });
            },
        };
        let checksum_value = match ChecksumValue::from_decoder(decoder) {
            Ok(v) => v,
            Err(err) => {
                return Err(BlockPointerDecodeError::EndianDecodeError { err });
            },
        };
        Ok(
            BlockPointerRegular {
                checksum_type,
                checksum_value,
                compression,
                dedup,
                dmu,
                dvas: [dva0, dva1, dva2],
                endian,
                fill_count,
                level,
                logical_birth_txg,
                logical_size,
                physical_birth_txg,
                physical_size,
            },
        )
    }

    /// Encodes a regular block pointer. Succeeds exactly when the DVA
    /// fields and the level fit their widths and the encoder has 128
    /// bytes of room.
    #[verifier::rlimit(100)]
    pub fn to_encoder(&self, encoder: &mut Encoder) -> (r: Result<(), BlockPointerEncodeError>)
        requires
            old(encoder).wf(),
        ensures
            final(encoder).wf(),
            final(encoder).spec_endian() == old(encoder).spec_endian(),
            final(encoder).spec_data().len() == old(encoder).spec_data().len(),
            forall|i: int|
                0 <= i < old(encoder).spec_offset() ==> #[trigger] final(encoder).spec_data()[i]
                    == old(encoder).spec_data()[i],
            ({
                let d = old(encoder).spec_data();
                let off = old(encoder).spec_offset();
                let e = old(encoder).spec_endian();
                &&& (regular_valid(*self) && off + 128 <= d.len()) ==> (r == Ok::<
                    (),
                    BlockPointerEncodeError,
                >(()) && final(encoder).spec_data() == spliced(d, off, regular_bytes(*self, e))
                    && final(encoder).spec_offset() == off + 128)
                &&& !dva_valid(self.dvas@[0]) ==> r == Err::<(), BlockPointerEncodeError>(
                    (BlockPointerEncodeError::DvaEncodeError { err: dva_field_err(self.dvas@[0]) }),
                )
                &&& (dva_valid(self.dvas@[0]) && !dva_valid(self.dvas@[1]) && off + 16 <= d.len())
                    ==> r == Err::<(), BlockPointerEncodeError>(
                    (BlockPointerEncodeError::DvaEncodeError { err: dva_field_err(self.dvas@[1]) }),
                )
                &&& (dva_valid(self.dvas@[0]) && dva_valid(self.dvas@[1]) && !dva_valid(
                    self.dvas@[2],
                ) && off + 32 <= d.len()) ==> r == Err::<(), BlockPointerEncodeError>(
                    (BlockPointerEncodeError::DvaEncodeError { err: dva_field_err(self.dvas@[2]) }),
                )
                &&& (dva_valid(self.dvas@[0]) && dva_valid(self.dvas@[1]) && dva_valid(
                    self.dvas@[2],
                ) && self.level > 0x1f && off + 48 <= d.len()) ==> r == Err::<
                    (),
                    BlockPointerEncodeError,
                >((BlockPointerEncodeError::InvalidLevel { level: self.level }))
                &&& r is Ok ==> (regular_valid(*self) && off + 128 <= d.len())
                &&& !(r is Ok) ==> r is Err
            }),
    {
        let ghost d = old(encoder).spec_data();
        let ghost off = old(encoder).spec_offset();
        let ghost e = old(encoder).spec_endian();
        match self.dvas[0].to_encoder(encoder) {
            Ok(()) => (),
            Err(err) => {
                return Err(BlockPointerEncodeError::DvaEncodeError { err });
            },
        }
        proof {
            assert(forall|i: int|
                0 <= i < old(encoder).spec_offset() ==> #[trigger] encoder.spec_data()[i] == old(
                    encoder,
                ).spec_data()[i]);
        }
        match self.dvas[1].to_encoder(encoder) {
            Ok(()) => (),
            Err(err) => {
                return Err(BlockPointerEncodeError::DvaEncodeError { err });
            },
        }
        proof {
            assert(forall|i: int|
                0 <= i < old(encoder).spec_offset() ==> #[trigger] encoder.spec_data()[i] == old(
                    encoder,
                ).spec_data()[i]);
        }
        match self.dvas[2].to_encoder(encoder) {
            Ok(()) => (),
            Err(err) => {
                return Err(BlockPointerEncodeError::DvaEncodeError { err });
            },
        }
        proof {
            assert(forall|i: int|
                0 <= i < old(encoder).spec_offset() ==> #[trigger] encoder.spec_data()[i] == old(
                    encoder,
                ).spec_data()[i]);
        }
        let level64 = self.level as u64;
        if level64 > 0x1f {
            return Err(BlockPointerEncodeError::InvalidLevel { level: self.level });
        }
        let flags = (self.logical_size as u64) | ((self.physical_size as u64) << 16) | ((
        self.compression.to_u8() as u64) << 32) | ((self.checksum_type.to_u8() as u64) << 40) | ((
        self.dmu.to_u8() as u64) << 48) | (level64 << 56) | (if self.dedup {
            DEDUP_FLAG_MASK
        } else {
            0
        }) | (match self.endian {
            Endian::Little => LITTLE_ENDIAN_FLAG_MASK,
            Endian::Big => 0,
        });
        match encoder.put_u64(flags) {
            Ok(()) => (),
            Err(err) => {
                return Err(BlockPointerEncodeError::EndianEncodeError { err });
            },
        }
        proof {
            assert(forall|i: int|
                0 <= i < old(encoder).spec_offset() ==> #[trigger] encoder.spec_data()[i] == old(
                    encoder,
                ).spec_data()[i]);
        }
        match encoder.put_zero_padding(16) {
            Ok(()) => (),
            Err(err) => {
                return Err(BlockPointerEncodeError::EndianEncodeError { err });
            },
        }
        proof {
            assert(forall|i: int|
                0 <= i < old(encoder).spec_offset() ==> #[trigger] encoder.spec_data()[i] == old(
                    encoder,
                ).spec_data()[i]);
        }
        match encoder.put_u64(self.physical_birth_txg) {
            Ok(()) => (),
            Err(err) => {
                return Err(BlockPointerEncodeError::EndianEncodeError { err });
            },
        }
        proof {
            assert(forall|i: int|
                0 <= i < old(encoder).spec_offset() ==> #[trigger] encoder.spec_data()[i] == old(
                    encoder,
                ).spec_data()[i]);
        }
        match encoder.put_u64(self.logical_birth_txg) {
            Ok(()) => (),
            Err(err) => {
                return Err(BlockPointerEncodeError::EndianEncodeError { err });
            },
        }
        proof {
            assert(forall|i: int|
                0 <= i < old(encoder).spec_offset() ==> #[trigger] encoder.spec_data()[i] == old(
                    encoder,
                ).spec_data()[i]);
        }
        match encoder.put_u64(self.fill_count) {
            Ok(()) => (),
            Err(err) => {
                return Err(BlockPointerEncodeError::EndianEncodeError { err });
            },
        }
        proof {
            assert(forall|i: int|
                0 <= i < old(encoder).spec_offset() ==> #[trigger] encoder.spec_data()[i] == old(
                    encoder,
                ).spec_data()[i]);
        }
        match self.checksum_value.to_encoder(encoder) {
            Ok(()) => (),
            Err(err) => {
                return Err(BlockPointerEncodeError::EndianEncodeError { err });
            },
        }
        proof {
            assert(forall|i: int|
                0 <= i < old(encoder).spec_offset() ==> #[trigger] encoder.spec_data()[i] == old(
                    encoder,
                ).spec_data()[i]);
        }
        proof {
            lemma_regular_splice(d, off, *self, e);
        }
        Ok(())
    }
}

/// The kind of data an embedded block pointer carries.
#[derive(Clone, Copy, Debug, PartialEq, Eq, Structural)]
pub enum BlockPointerEmbeddedType {
    Data,
    Reserved,
    Redacted,
}

impl BlockPointerEmbeddedType {
    /// The numeric code of this value in the on-disk format.
    pub open spec fn spec_value(self) -> u8 {
        match self {
            BlockPointerEmbeddedType::Data => 0,
            BlockPointerEmbeddedType::Reserved => 1,
            BlockPointerEmbeddedType::Redacted => 2,
        }
    }

    /// The value whose code is `value`, for known codes.
    pub open spec fn spec_from_u8(value: u8) -> BlockPointerEmbeddedType
        recommends
            value <= 2,
    {
        if value == 0 {
            BlockPointerEmbeddedType::Data
        } else if value == 1 {
            BlockPointerEmbeddedType::Reserved
        } else {
            BlockPointerEmbeddedType::Redacted
        }
    }

    /// Returns the numeric code of this value.
    pub fn to_u8(self) -> (r: u8)
        ensures
            r == self.spec_value(),
    {
        match self {
            BlockPointerEmbeddedType::Data => 0,
            BlockPointerEmbeddedType::Reserved => 1,
            BlockPointerEmbeddedType::Redacted => 2,
        }
    }

    /// Looks a value up by its numeric code; exactly the codes 0
    /// through 2 are known.
    pub fn try_from_u8(value: u8) -> (r: Result<BlockPointerEmbeddedType, BlockPointerDecodeError>)
        ensures
            value <= 2 ==> r == Ok::<BlockPointerEmbeddedType, BlockPointerDecodeError>(
                BlockPointerEmbeddedType::spec_from_u8(value),
            ),
            value <= 2 ==> BlockPointerEmbeddedType::spec_from_u8(value).spec_value() == value,
            value > 2 ==> r == Err::<BlockPointerEmbeddedType, BlockPointerDecodeError>(
                (BlockPointerDecodeError::InvalidEmbeddedType { embedded_type: value }),
            ),
    {
        match value {
            0 => Ok(BlockPointerEmbeddedType::Data),
            1 => Ok(BlockPointerEmbeddedType::Reserved),
            2 => Ok(BlockPointerEmbeddedType::Redacted),
            _ => Err(BlockPointerDecodeError::InvalidEmbeddedType { embedded_type: value }),
        }
    }
}

/// An embedded block pointer: the data lives inside the pointer as a
/// 112-byte payload wrapped around the flags word and the birth
/// transaction group.
#[derive(Clone, Debug, PartialEq)]
pub struct BlockPointerEmbedded {
    pub compression: CompressionType,
    pub dmu: DmuType,
    pub embedded_type: BlockPointerEmbeddedType,
    pub endian: Endian,
    pub level: u8,
    pub logical_birth_txg: u64,
    pub logical_size: u32,
    pub payload: [u8; 112],
    pub physical_size: u8,
}

/// The packed flags word of an embedded block pointer.
pub open spec fn embedded_flags(p: BlockPointerEmbedded) -> u64 {
    (p.logical_size as u64) | ((p.physical_size as u64) << 25) | ((
    p.compression.spec_value() as u64) << 32) | EMBEDDED_FLAG_MASK | ((
    p.embedded_type.spec_value() as u64) << 40) | ((p.dmu.spec_value() as u64) << 48) | ((
    p.level as u64) << 56) | (if p.endian is Little {
        LITTLE_ENDIAN_FLAG_MASK
    } else {
        0
    })
}

/// The 128-byte encoding of an embedded block pointer in the order
/// given by `e`.
pub open spec fn embedded_bytes(p: BlockPointerEmbedded, e: Endian) -> Seq<u8> {
    p.payload@.subrange(0, 48) + word64(embedded_flags(p), e) + p.payload@.subrange(48, 72)
        + word64(p.logical_birth_txg, e) + p.payload@.subrange(72, 112)
}

/// An embedded block pointer whose fields fit their packed widths.
pub open spec fn embedded_valid(p: BlockPointerEmbedded) -> bool {
    &&& p.physical_size <= 112
    &&& p.level <= 0x1f
    &&& p.logical_size <= 0x1ffffff
}

/// True when the 128 bytes at `off` decode as an embedded block
/// pointer.
pub open spec fn embedded_decode_ok(d: Seq<u8>, off: int, e: Endian) -> bool {
    let flags = word64_at(d, off + 48, e);
    &&& off + 128 <= d.len()
    &&& bp_embedded_flag(flags)
    &&& !bp_encrypted_flag(flags)
    &&& !bp_dedup_flag(flags)
    &&& bp_dmu_code(flags) <= 53
    &&& bp_checksum_code(flags) <= 2
    &&& bp_compression_code(flags) <= 16
    &&& ((flags >> 25) & 0x7f) <= 112
}

/// The three payload runs of an embedded block pointer, in order.
pub open spec fn embedded_payload(d: Seq<u8>, off: int) -> Seq<u8> {
    d.subrange(off, off + 48) + d.subrange(off + 56, off + 80) + d.subrange(off + 88, off + 128)
}

/// The fields an embedded block pointer decoded from the 128 bytes at
/// `off` must carry.
pub open spec fn is_embedded_decoded(
    p: BlockPointerEmbedded,
    d: Seq<u8>,
    off: int,
    e: Endian,
) -> bool {
    let flags = word64_at(d, off + 48, e);
    &&& p.compression == CompressionType::spec_from_u8(bp_compression_code(flags))
    &&& p.dmu == DmuType::spec_from_u8(bp_dmu_code(flags))
    &&& p.embedded_type == BlockPointerEmbeddedType::spec_from_u8(bp_checksum_code(flags))
    &&& p.endian == bp_endian_flag(flags)
    &&& p.level == bp_level(flags)
    &&& p.logical_birth_txg == word64_at(d, off + 80, e)
    &&& p.logical_size == (flags & 0x1ffffff) as u32
    &&& p.payload@ =~= embedded_payload(d, off)
    &&& p.physical_size == ((flags >> 25) & 0x7f) as u8
}

/// The error reported for 128 in-range bytes that do not decode as an
/// embedded block pointer, following the order the fields are examined.
pub open spec fn embedded_decode_err(d: Seq<u8>, off: int, e: Endian) -> BlockPointerDecodeError {
    let flags = word64_at(d, off + 48, e);
    if !(bp_embedded_flag(flags) && !bp_encrypted_flag(flags)) {
        BlockPointerDecodeError::InvalidBlockPointerType {
            embedded: bp_embedded_flag(flags),
            encrypted: bp_encrypted_flag(flags),
        }
    } else if bp_dedup_flag(flags) {
        BlockPointerDecodeError::InvalidDedupValue { dedup: true }
    } else if bp_dmu_code(flags) > 53 {
        BlockPointerDecodeError::DmuTypeError {
            err: DmuTypeError::InvalidValue { value: bp_dmu_code(flags) },
        }
    } else if bp_checksum_code(flags) > 2 {
        BlockPointerDecodeError::InvalidEmbeddedType { embedded_type: bp_checksum_code(flags) }
    } else if bp_compression_code(flags) > 16 {
        BlockPointerDecodeError::CompressionTypeError {
            err: CompressionTypeError::InvalidValue { value: bp_compression_code(flags) },
        }
    } else {
        BlockPointerDecodeError::InvalidEmbeddedLength {
            length: ((flags >> 25) & 0x7f) as u8,
        }
    }
}

impl BlockPointerEmbedded {
    /// Decodes an embedded block pointer: three payload runs wrapped
    /// around the flags word and the birth transaction group. Succeeds
    /// exactly when [`embedded_decode_ok`] holds of the 128 bytes at
    /// the decoder's position.
    #[verifier::rlimit(100)]
    pub fn from_decoder(decoder: &mut Decoder) -> (r: Result<
        BlockPointerEmbedded,
        BlockPointerDecodeError,
    >)
        requires
            old(decoder).wf(),
        ensures
            final(decoder).wf(),
            final(decoder).spec_data() == old(decoder).spec_data(),
            final(decoder).spec_endian() == old(decoder).spec_endian(),
            ({
                let d = old(decoder).spec_data();
                let off = old(decoder).spec_offset();
                let e = old(decoder).spec_endian();
                &&& embedded_decode_ok(d, off, e) ==> (r matches Ok(p) && is_embedded_decoded(
                    p,
                    d,
                    off,
                    e,
                ) && final(decoder).spec_offset() == off + 128)
                &&& (off + 128 <= d.len() && !embedded_decode_ok(d, off, e)) ==> r == Err::<
                    BlockPointerEmbedded,
                    BlockPointerDecodeError,
                >(embedded_decode_err(d, off, e))
                &&& off + 128 > d.len() ==> r is Err
            }),
    {
        let ghost d = old(decoder).spec_data();
        let ghost off = old(decoder).spec_offset();
        let ghost e = old(decoder).spec_endian();
        let mut payload: [u8; 112] = [0; 112];
        let part1 = match decoder.get_bytes(48) {
            Ok(v) => v,
            Err(err) => {
                return Err(BlockPointerDecodeError::EndianDecodeError { err });
            },
        };
        copy_into(&mut payload, 0, part1);
        let flags = match decoder.get_u64() {
            Ok(v) => v,
            Err(err) => {
                return Err(BlockPointerDecodeError::EndianDecodeError { err });
            },
        };
        let part2 = match decoder.get_bytes(24) {
            Ok(v) => v,
            Err(err) => {
                return Err(BlockPointerDecodeError::EndianDecodeError { err });
            },
        };
        copy_into(&mut payload, 48, part2);
        let logical_birth_txg = match decoder.get_u64() {
            Ok(v) => v,
            Err(err) => {
                return Err(BlockPointerDecodeError::EndianDecodeError { err });
            },
        };
        let part3 = match decoder.get_bytes(40) {
            Ok(v) => v,
            Err(err) => {
                return Err(BlockPointerDecodeError::EndianDecodeError { err });
            },
        };
        copy_into(&mut payload, 72, part3);
        let embedded = (flags & EMBEDDED_FLAG_MASK) != 0;
        let encrypted = (flags & ENCRYPTED_FLAG_MASK) != 0;
        if !(embedded && !encrypted) {
            return Err(BlockPointerDecodeError::InvalidBlockPointerType { embedded, encrypted });
        }
        let dedup = (flags & DEDUP_FLAG_MASK) != 0;
        if dedup {
            return Err(BlockPointerDecodeError::InvalidDedupValue { dedup });
        }
        let endian = if (flags & LITTLE_ENDIAN_FLAG_MASK) != 0 {
            Endian::Little
        } else {
            Endian::Big
        };
        let level = ((flags >> 56) & 0x1f) as u8;
        let dmu = match DmuType::try_from_u8(((flags >> 48) & 0xff) as u8) {
            Ok(v) => v,
            Err(err) => {
                return Err(BlockPointerDecodeError::DmuTypeError { err });
            },
        };
        let embedded_type = match BlockPointerEmbeddedType::try_from_u8(
            ((flags >> 40) & 0xff) as u8,
        ) {
            Ok(v) => v,
            Err(err) => {
                return Err(err);
            },
        };
        let compression = match CompressionType::try_from_u8(((flags >> 32) & 0x7f) as u8) {
            Ok(v) => v,
            Err(err) => {
                return Err(BlockPointerDecodeError::CompressionTypeError { err });
            },
        };
        let logical_size = (flags & 0x1ffffff) as u32;
        let physical_size = ((flags >> 25) & 0x7f) as u8;
        proof {
            assert((flags >> 25) & 0x7f <= 0x7f) by (bit_vector);
        }
        if physical_size > 112 {
            return Err(BlockPointerDecodeError::InvalidEmbeddedLength { length: physical_size });
        }
        proof {
            assert(payload@ =~= embedded_payload(d, off));
        }
        Ok(
            BlockPointerEmbedded {
                compression,
                dmu,
                embedded_type,
                endian,
                level,
                logical_birth_txg,
                logical_size,
                payload,
                physical_size,
            },
        )
    }

    /// Encodes an embedded block pointer. Succeeds exactly when the
    /// sizes and the level fit their widths and the encoder has 128
    /// bytes of room.
    #[verifier::rlimit(100)]
    pub fn to_encoder(&self, encoder: &mut Encoder) -> (r: Result<(), BlockPointerEncodeError>)
        requires
            old(encoder).wf(),
        ensures
            final(encoder).wf(),
            final(encoder).spec_endian() == old(encoder).spec_endian(),
            final(encoder).spec_data().len() == old(encoder).spec_data().len(),
            forall|i: int|
                0 <= i < old(encoder).spec_offset() ==> #[trigger] final(encoder).spec_data()[i]
                    == old(encoder).spec_data()[i],
            ({
                let d = old(encoder).spec_data();
                let off = old(encoder).spec_offset();
                let e = old(encoder).spec_endian();
                &&& (embedded_valid(*self) && off + 128 <= d.len()) ==> (r == Ok::<
                    (),
                    BlockPointerEncodeError,
                >(()) && final(encoder).spec_data() == spliced(d, off, embedded_bytes(*self, e))
                    && final(encoder).spec_offset() == off + 128)
                &&& self.physical_size > 112 ==> (r == Err::<(), BlockPointerEncodeError>(
                    (BlockPointerEncodeError::InvalidEmbeddedLength { length: self.physical_size }),
                ) && final(encoder).spec_data() == d && final(encoder).spec_offset() == off)
                &&& (self.physical_size <= 112 && self.level > 0x1f && off + 48 <= d.len()) ==> r
                    == Err::<(), BlockPointerEncodeError>(
                    (BlockPointerEncodeError::InvalidLevel { level: self.level }),
                )
                &&& (self.physical_size <= 112 && self.level <= 0x1f && self.logical_size
                    > 0x1ffffff && off + 48 <= d.len()) ==> r == Err::<
                    (),
                    BlockPointerEncodeError,
                >((BlockPointerEncodeError::InvalidLogicalSize { logical_size: self.logical_size }))
                &&& r is Ok ==> (embedded_valid(*self) && off + 128 <= d.len())
                &&& !(r is Ok) ==> r is Err
            }),
    {
        let ghost d = old(encoder).spec_data();
        let ghost off = old(encoder).spec_offset();
        let ghost e = old(encoder).spec_endian();
        if self.physical_size > 112 {
            return Err(
                BlockPointerEncodeError::InvalidEmbeddedLength { length: self.physical_size },
            );
        }
        let whole = vstd::array::array_as_slice(&self.payload);
        let part1 = vstd::slice::slice_subrange(whole, 0, 48);
        match encoder.put_bytes(part1) {
            Ok(()) => (),
            Err(err) => {
                return Err(BlockPointerEncodeError::EndianEncodeError { err });
            },
        }
        proof {
            assert(forall|i: int|
                0 <= i < old(encoder).spec_offset() ==> #[trigger] encoder.spec_data()[i] == old(
                    encoder,
                ).spec_data()[i]);
        }
        let level64 = self.level as u64;
        if level64 > 0x1f {
            return Err(BlockPointerEncodeError::InvalidLevel { level: self.level });
        }
        if self.logical_size > 0x1ffffff {
            return Err(
                BlockPointerEncodeError::InvalidLogicalSize { logical_size: self.logical_size },
            );
        }
        let flags = (self.logical_size as u64) | ((self.physical_size as u64) << 25) | ((
        self.compression.to_u8() as u64) << 32) | EMBEDDED_FLAG_MASK | ((
        self.embedded_type.to_u8() as u64) << 40) | ((self.dmu.to_u8() as u64) << 48) | (level64
            << 56) | (match self.endian {
            Endian::Little => LITTLE_ENDIAN_FLAG_MASK,
            Endian::Big => 0,
        });
        match encoder.put_u64(flags) {
            Ok(()) => (),
            Err(err) => {
                return Err(BlockPointerEncodeError::EndianEncodeError { err });
            },
        }
        proof {
            assert(forall|i: int|
                0 <= i < old(encoder).spec_offset() ==> #[trigger] encoder.spec_data()[i] == old(
                    encoder,
                ).spec_data()[i]);
        }
        let part2 = vstd::slice::slice_subrange(whole, 48, 72);
        match encoder.put_bytes(part2) {
            Ok(()) => (),
            Err(err) => {
                return Err(BlockPointerEncodeError::EndianEncodeError { err });
            },
        }
        proof {
            assert(forall|i: int|
                0 <= i < old(encoder).spec_offset() ==> #[trigger] encoder.spec_data()[i] == old(
                    encoder,
                ).spec_data()[i]);
        }
        match encoder.put_u64(self.logical_birth_txg) {
            Ok(()) => (),
            Err(err) => {
                return Err(BlockPointerEncodeError::EndianEncodeError { err });
            },
        }
        proof {
            assert(forall|i: int|
                0 <= i < old(encoder).spec_offset() ==> #[trigger] encoder.spec_data()[i] == old(
                    encoder,
                ).spec_data()[i]);
        }
        let part3 = vstd::slice::slice_subrange(whole, 72, 112);
        match encoder.put_bytes(part3) {
            Ok(()) => (),
            Err(err) => {
                return Err(BlockPointerEncodeError::EndianEncodeError { err });
            },
        }
        proof {
            assert(forall|i: int|
                0 <= i < old(encoder).spec_offset() ==> #[trigger] encoder.spec_data()[i] == old(
                    encoder,
                ).spec_data()[i]);
        }
        proof {
            let b1 = self.payload@.subrange(0, 48);
            let bf = word64(embedded_flags(*self), e);
            let b2 = self.payload@.subrange(48, 72);
            let bt = word64(self.logical_birth_txg, e);
            let b3 = self.payload@.subrange(72, 112);
            crate::endian::lemma_spliced_adjacent(d, off, b1, bf);
            crate::endian::lemma_spliced_adjacent(d, off, b1 + bf, b2);
            crate::endian::lemma_spliced_adjacent(d, off, b1 + bf + b2, bt);
            crate::endian::lemma_spliced_adjacent(d, off, b1 + bf + b2 + bt, b3);
            assert(embedded_bytes(*self, e) == b1 + bf + b2 + bt + b3);
        }
        Ok(())
    }
}

/// Copies `src` into `dst` starting at `at`.
fn copy_into(dst: &mut [u8; 112], at: usize, src: &[u8])
    requires
        at + src@.len() <= 112,
    ensures
        final(dst)@ =~= old(dst)@.subrange(0, at as int) + src@ + old(dst)@.subrange(
            at + src@.len(),
            112,
        ),
{
    let n = src.len();
    let mut i: usize = 0;
    while i < n
        invariant
            n == src@.len(),
            at + n <= 112,
            0 <= i <= n,
            dst@.len() == 112,
            forall|j: int| 0 <= j < at ==> dst@[j] == old(dst)@[j],
            forall|j: int| 0 <= j < i ==> #[trigger] dst@[at + j] == src@[j],
            forall|j: int| at + i <= j < 112 ==> dst@[j] == old(dst)@[j],
        decreases n - i,
    {
        dst[at + i] = *vstd::slice::slice_index_get(src, i);
        i = i + 1;
    }
    proof {
        let rhs = old(dst)@.subrange(0, at as int) + src@ + old(dst)@.subrange(
            at + src@.len(),
            112,
        );
        assert forall|j: int| 0 <= j < 112 implies dst@[j] == rhs[j] by {
            if at <= j < at + n {
                assert(dst@[at + (j - at)] == src@[j - at]);
            }
        }
        assert(dst@ =~= rhs);
    }
}

/// An encrypted block pointer: two DVAs, a salt and split IV, two
/// checksum words and two MAC words.
#[derive(Clone, Debug, PartialEq)]
pub struct BlockPointerEncrypted {
    pub checksum_type: ChecksumType,
    pub checksum_value: [u64; 2],
    pub compression: CompressionType,
    pub dedup: bool,
    pub dmu: DmuType,
    pub dvas: [Dva; 2],
    pub endian: Endian,
    pub fill_count: u32,
    pub iv_1: u64,
    pub iv_2: u32,
    pub level: u8,
    pub logical_birth_txg: u64,
    pub logical_size: u16,
    pub mac: [u64; 2],
    pub physical_birth_txg: u64,
    pub physical_size: u16,
    pub salt: u64,
}

/// The packed flags word of an encrypted block pointer.
pub open spec fn encrypted_flags(p: BlockPointerEncrypted) -> u64 {
    (p.logical_size as u64) | ((p.physical_size as u64) << 16) | ((
    p.compression.spec_value() as u64) << 32) | ((p.checksum_type.spec_value() as u64) << 40) | ((
    p.dmu.spec_value() as u64) << 48) | ((p.level as u64) << 56) | ENCRYPTED_FLAG_MASK | (if p.dedup {
        DEDUP_FLAG_MASK
    } else {
        0
    }) | (if p.endian is Little {
        LITTLE_ENDIAN_FLAG_MASK
    } else {
        0
    })
}

/// The packed word pairing the second IV half with the fill count.
pub open spec fn encrypted_iv_fill(p: BlockPointerEncrypted) -> u64 {
    (p.fill_count as u64) | ((p.iv_2 as u64) << 32)
}

/// The 128-byte encoding of an encrypted block pointer in the order
/// given by `e`.
pub open spec fn encrypted_bytes(p: BlockPointerEncrypted, e: Endian) -> Seq<u8> {
    dva_bytes(p.dvas@[0], e) + dva_bytes(p.dvas@[1], e) + word64(p.salt, e) + word64(p.iv_1, e)
        + word64(encrypted_flags(p), e) + Seq::new(16, |i: int| 0u8) + word64(
        p.physical_birth_txg,
        e,
    ) + word64(p.logical_birth_txg, e) + word64(encrypted_iv_fill(p), e) + word64(
        p.checksum_value@[0],
        e,
    ) + word64(p.checksum_value@[1], e) + word64(p.mac@[0], e) + word64(p.mac@[1], e)
}

/// An encrypted block pointer whose fields fit their packed widths.
pub open spec fn encrypted_valid(p: BlockPointerEncrypted) -> bool {
    &&& dva_valid(p.dvas@[0])
    &&& dva_valid(p.dvas@[1])
    &&& p.level <= 0x1f
}

/// True when the 128 bytes at `off` decode as an encrypted block
/// pointer.
pub open spec fn encrypted_decode_ok(d: Seq<u8>, off: int, e: Endian) -> bool {
    let flags = word64_at(d, off + 48, e);
    &&& off + 128 <= d.len()
    &&& dva_slot_ok(d, off, e)
    &&& dva_slot_ok(d, off + 16, e)
    &&& !bp_embedded_flag(flags)
    &&& bp_encrypted_flag(flags)
    &&& bp_dmu_code(flags) <= 53
    &&& bp_checksum_code(flags) <= 14
    &&& bp_compression_code(flags) <= 16
    &&& forall|i: int| off + 56 <= i < off + 72 ==> d[i] == 0
}

/// The fields an encrypted block pointer decoded from the 128 bytes at
/// `off` must carry.
pub open spec fn is_encrypted_decoded(
    p: BlockPointerEncrypted,
    d: Seq<u8>,
    off: int,
    e: Endian,
) -> bool {
    let flags = word64_at(d, off + 48, e);
    let iv_fill = word64_at(d, off + 88, e);
    &&& p.checksum_type == ChecksumType::spec_from_u8(bp_checksum_code(flags))
    &&& p.checksum_value@ =~= seq![word64_at(d, off + 96, e), word64_at(d, off + 104, e)]
    &&& p.compression == CompressionType::spec_from_u8(bp_compression_code(flags))
    &&& p.dedup == bp_dedup_flag(flags)
    &&& p.dmu == DmuType::spec_from_u8(bp_dmu_code(flags))
    &&& p.dvas@ =~= seq![dva_slot(d, off, e), dva_slot(d, off + 16, e)]
    &&& p.endian == bp_endian_flag(flags)
    &&& p.fill_count == (iv_fill & 0xffffffff) as u32
    &&& p.iv_1 == word64_at(d, off + 40, e)
    &&& p.iv_2 == ((iv_fill >> 32) & 0xffffffff) as u32
    &&& p.level == bp_level(flags)
    &&& p.logical_birth_txg == word64_at(d, off + 80, e)
    &&& p.logical_size == (flags & 0xffff) as u16
    &&& p.mac@ =~= seq![word64_at(d, off + 112, e), word64_at(d, off + 120, e)]
    &&& p.physical_birth_txg == word64_at(d, off + 72, e)
    &&& p.physical_size == ((flags >> 16) & 0xffff) as u16
    &&& p.salt == word64_at(d, off + 32, e)
}

/// The error reported for 128 in-range bytes that do not decode as an
/// encrypted block pointer, following the order the fields are
/// examined.
pub open spec fn encrypted_decode_err(d: Seq<u8>, off: int, e: Endian) -> BlockPointerDecodeError {
    let flags = word64_at(d, off + 48, e);
    if !dva_slot_ok(d, off, e) {
        BlockPointerDecodeError::DvaDecodeError { err: dva_slot_err(d, off, e) }
    } else if !dva_slot_ok(d, off + 16, e) {
        BlockPointerDecodeError::DvaDecodeError { err: dva_slot_err(d, off + 16, e) }
    } else if !(!bp_embedded_flag(flags) && bp_encrypted_flag(flags)) {
        BlockPointerDecodeError::InvalidBlockPointerType {
            embedded: bp_embedded_flag(flags),
            encrypted: bp_encrypted_flag(flags),
        }
    } else if bp_dmu_code(flags) > 53 {
        BlockPointerDecodeError::DmuTypeError {
            err: DmuTypeError::InvalidValue { value: bp_dmu_code(flags) },
        }
    } else if bp_checksum_code(flags) > 14 {
        BlockPointerDecodeError::ChecksumTypeError {
            err: ChecksumTypeError::InvalidValue { value: bp_checksum_code(flags) },
        }
    } else if bp_compression_code(flags) > 16 {
        BlockPointerDecodeError::CompressionTypeError {
            err: CompressionTypeError::InvalidValue { value: bp_compression_code(flags) },
        }
    } else {
        BlockPointerDecodeError::EndianDecodeError { err: DecodeError::NonZeroPadding {} }
    }
}

impl BlockPointerEncrypted {
    /// Decodes an encrypted block pointer: two DVA slots, the salt and
    /// first IV half, the flags word, zero padding, the transaction
    /// groups, the packed IV and fill word, two checksum words and two
    /// MAC words. Succeeds exactly when [`encrypted_decode_ok`] holds
    /// of the 128 bytes at the decoder's position.
    #[verifier::rlimit(100)]
    pub fn from_decoder(decoder: &mut Decoder) -> (r: Result<
        BlockPointerEncrypted,
        BlockPointerDecodeError,
    >)
        requires
            old(decoder).wf(),
        ensures
            final(decoder).wf(),
            final(decoder).spec_data() == old(decoder).spec_data(),
            final(decoder).spec_endian() == old(decoder).spec_endian(),
            ({
                let d = old(decoder).spec_data();
                let off = old(decoder).spec_offset();
                let e = old(decoder).spec_endian();
                &&& encrypted_decode_ok(d, off, e) ==> (r matches Ok(p) && is_encrypted_decoded(
                    p,
                    d,
                    off,
                    e,
                ) && final(decoder).spec_offset() == off + 128)
                &&& (off + 128 <= d.len() && !encrypted_decode_ok(d, off, e)) ==> r == Err::<
                    BlockPointerEncrypted,
                    BlockPointerDecodeError,
                >(encrypted_decode_err(d, off, e))
                &&& off + 128 > d.len() ==> r is Err
            }),
    {
        let ghost d = old(decoder).spec_data();
        let ghost off = old(decoder).spec_offset();
        let ghost e = old(decoder).spec_endian();
        let dva0 = match Dva::from_decoder(decoder) {
            Ok(v) => v,
            Err(err) => {
                return Err(BlockPointerDecodeError::DvaDecodeError { err });
            },
        };
        let dva1 = match Dva::from_decoder(decoder) {
            Ok(v) => v,
            Err(err) => {
                return Err(BlockPointerDecodeError::DvaDecodeError { err });
            },
        };
        let salt = match decoder.get_u64() {
            Ok(v) => v,
            Err(err) => {
                return Err(BlockPointerDecodeError::EndianDecodeError { err });
            },
        };
        let iv_1 = match decoder.get_u64() {
            Ok(v) => v,
            Err(err) => {
                return Err(BlockPointerDecodeError::EndianDecodeError { err });
            },
        };
        let flags = match decoder.get_u64() {
            Ok(v) => v,
            Err(err) => {
                return Err(BlockPointerDecodeError::EndianDecodeError { err });
            },
        };
        let embedded = (flags & EMBEDDED_FLAG_MASK) != 0;
        let encrypted = (flags & ENCRYPTED_FLAG_MASK) != 0;
        if !(!embedded && encrypted) {
            return Err(BlockPointerDecodeError::InvalidBlockPointerType { embedded, encrypted });
        }
        let dedup = (flags & DEDUP_FLAG_MASK) != 0;
        let endian = if (flags & LITTLE_ENDIAN_FLAG_MASK) != 0 {
            Endian::Little
        } else {
            Endian::Big
        };
        let level = ((flags >> 56) & 0x1f) as u8;
        let dmu = match DmuType::try_from_u8(((flags >> 48) & 0xff) as u8) {
            Ok(v) => v,
            Err(err) => {
                return Err(BlockPointerDecodeError::DmuTypeError { err });
            },
        };
        let checksum_type = match ChecksumType::try_from_u8(((flags >> 40) & 0xff) as u8) {
            Ok(v) => v,
            Err(err) => {
                return Err(BlockPointerDecodeError::ChecksumTypeError { err });
            },
        };
        let compression = match CompressionType::try_from_u8(((flags >> 32) & 0x7f) as u8) {
            Ok(v) => v,
            Err(err) => {
                return Err(BlockPointerDecodeError::CompressionTypeError { err });
            },
        };
        let logical_size = (flags & 0xffff) as u16;
        let physical_size = ((flags >> 16) & 0xffff) as u16;
        match decoder.skip_zero_padding(16) {
            Ok(()) => (),
            Err(err) => {
                return Err(BlockPointerDecodeError::EndianDecodeError { err });
            },
        }
        let physical_birth_txg = match decoder.get_u64() {
            Ok(v) => v,
            Err(err) => {
                return Err(BlockPointerDecodeError::EndianDecodeError { err });
            },
        };
        let logical_birth_txg = match decoder.get_u64() {
            Ok(v) => v,
            Err(err) => {
                return Err(BlockPointerDecodeError::EndianDecodeError { err });
            },
        };
        let iv_fill = match decoder.get_u64() {
            Ok(v) => v,
            Err(err) => {
                return Err(BlockPointerDecodeError::EndianDecodeError { err });
            },
        };
        let iv_2 = ((iv_fill >> 32) & 0xffffffff) as u32;
        let fill_count = (iv_fill & 0xffffffff) as u32;
        let cs0 = match decoder.get_u64() {
            Ok(v) => v,
            Err(err) => {
                return Err(BlockPointerDecodeError::EndianDecodeError { err });
            },
        };
        let cs1 = match decoder.get_u64() {
            Ok(v) => v,
            Err(err) => {
                return Err(BlockPointerDecodeError::EndianDecodeError { err });
            },
        };
        let mac0 = match decoder.get_u64() {
            Ok(v) => v,
            Err(err) => {
                return Err(BlockPointerDecodeError::EndianDecodeError { err });
            },
        };
        let mac1 = match decoder.get_u64() {
            Ok(v) => v,
            Err(err) => {
                return Err(BlockPointerDecodeError::EndianDecodeError { err });
            },
        };
        Ok(
            BlockPointerEncrypted {
                checksum_type,
                checksum_value: [cs0, cs1],
                compression,
                dedup,
                dmu,
                dvas: [dva0, dva1],
                endian,
                fill_count,
                iv_1,
                iv_2,
                level,
                logical_birth_txg,
                logical_size,
                mac: [mac0, mac1],
                physical_birth_txg,
                physical_size,
                salt,
            },
        )
    }

    /// Encodes an encrypted block pointer. Succeeds exactly when the
    /// DVA fields and the level fit their widths and the encoder has
    /// 128 bytes of room.
    #[verifier::rlimit(100)]
    pub fn to_encoder(&self, encoder: &mut Encoder) -> (r: Result<(), BlockPointerEncodeError>)
        requires
            old(encoder).wf(),
        ensures
            final(encoder).wf(),
            final(encoder).spec_endian() == old(encoder).spec_endian(),
            final(encoder).spec_data().len() == old(encoder).spec_data().len(),
            forall|i: int|
                0 <= i < old(encoder).spec_offset() ==> #[trigger] final(encoder).spec_data()[i]
                    == old(encoder).spec_data()[i],
            ({
                let d = old(encoder).spec_data();
                let off = old(encoder).spec_offset();
                let e = old(encoder).spec_endian();
                &&& (encrypted_valid(*self) && off + 128 <= d.len()) ==> (r == Ok::<
                    (),
                    BlockPointerEncodeError,
                >(()) && final(encoder).spec_data() == spliced(d, off, encrypted_bytes(*self, e))
                    && final(encoder).spec_offset() == off + 128)
                &&& !dva_valid(self.dvas@[0]) ==> r == Err::<(), BlockPointerEncodeError>(
                    (BlockPointerEncodeError::DvaEncodeError { err: dva_field_err(self.dvas@[0]) }),
                )
                &&& (dva_valid(self.dvas@[0]) && !dva_valid(self.dvas@[1]) && off + 16 <= d.len())
                    ==> r == Err::<(), BlockPointerEncodeError>(
                    (BlockPointerEncodeError::DvaEncodeError { err: dva_field_err(self.dvas@[1]) }),
                )
                &&& (dva_valid(self.dvas@[0]) && dva_valid(self.dvas@[1]) && self.level > 0x1f
                    && off + 48 <= d.len()) ==> r == Err::<(), BlockPointerEncodeError>(
                    (BlockPointerEncodeError::InvalidLevel { level: self.level }),
                )
                &&& r is Ok ==> (encrypted_valid(*self) && off + 128 <= d.len())
                &&& !(r is Ok) ==> r is Err
            }),
    {
        let ghost d = old(encoder).spec_data();
        let ghost off = old(encoder).spec_offset();
        let ghost e = old(encoder).spec_endian();
        match self.dvas[0].to_encoder(encoder) {
            Ok(()) => (),
            Err(err) => {
                return Err(BlockPointerEncodeError::DvaEncodeError { err });
            },
        }
        proof {
            assert(forall|i: int|
                0 <= i < old(encoder).spec_offset() ==> #[trigger] encoder.spec_data()[i] == old(
                    encoder,
                ).spec_data()[i]);
        }
        match self.dvas[1].to_encoder(encoder) {
            Ok(()) => (),
            Err(err) => {
                return Err(BlockPointerEncodeError::DvaEncodeError { err });
            },
        }
        proof {
            assert(forall|i: int|
                0 <= i < old(encoder).spec_offset() ==> #[trigger] encoder.spec_data()[i] == old(
                    encoder,
                ).spec_data()[i]);
        }
        match encoder.put_u64(self.salt) {
            Ok(()) => (),
            Err(err) => {
                return Err(BlockPointerEncodeError::EndianEncodeError { err });
            },
        }
        proof {
            assert(forall|i: int|
                0 <= i < old(encoder).spec_offset() ==> #[trigger] encoder.spec_data()[i] == old(
                    encoder,
                ).spec_data()[i]);
        }
        match encoder.put_u64(self.iv_1) {
            Ok(()) => (),
            Err(err) => {
                return Err(BlockPointerEncodeError::EndianEncodeError { err });
            },
        }
        proof {
            assert(forall|i: int|
                0 <= i < old(encoder).spec_offset() ==> #[trigger] encoder.spec_data()[i] == old(
                    encoder,
                ).spec_data()[i]);
        }
        let level64 = self.level as u64;
        if level64 > 0x1f {
            return Err(BlockPointerEncodeError::InvalidLevel { level: self.level });
        }
        let flags = (self.logical_size as u64) | ((self.physical_size as u64) << 16) | ((
        self.compression.to_u8() as u64) << 32) | ((self.checksum_type.to_u8() as u64) << 40) | ((
        self.dmu.to_u8() as u64) << 48) | (level64 << 56) | ENCRYPTED_FLAG_MASK | (if self.dedup {
            DEDUP_FLAG_MASK
        } else {
            0
        }) | (match self.endian {
            Endian::Little => LITTLE_ENDIAN_FLAG_MASK,
            Endian::Big => 0,
        });
        match encoder.put_u64(flags) {
            Ok(()) => (),
            Err(err) => {
                return Err(BlockPointerEncodeError::EndianEncodeError { err });
            },
        }
        proof {
            assert(forall|i: int|
                0 <= i < old(encoder).spec_offset() ==> #[trigger] encoder.spec_data()[i] == old(
                    encoder,
                ).spec_data()[i]);
        }
        match encoder.put_zero_padding(16) {
            Ok(()) => (),
            Err(err) => {
                return Err(BlockPointerEncodeError::EndianEncodeError { err });
            },
        }
        proof {
            assert(forall|i: int|
                0 <= i < old(encoder).spec_offset() ==> #[trigger] encoder.spec_data()[i] == old(
                    encoder,
                ).spec_data()[i]);
        }
        match encoder.put_u64(self.physical_birth_txg) {
            Ok(()) => (),
            Err(err) => {
                return Err(BlockPointerEncodeError::EndianEncodeError { err });
            },
        }
        proof {
            assert(forall|i: int|
                0 <= i < old(encoder).spec_offset() ==> #[trigger] encoder.spec_data()[i] == old(
                    encoder,
                ).spec_data()[i]);
        }
        match encoder.put_u64(self.logical_birth_txg) {
            Ok(()) => (),
            Err(err) => {
                return Err(BlockPointerEncodeError::EndianEncodeError { err });
            },
        }
        proof {
            assert(forall|i: int|
                0 <= i < old(encoder).spec_offset() ==> #[trigger] encoder.spec_data()[i] == old(
                    encoder,
                ).spec_data()[i]);
        }
        match encoder.put_u64((self.fill_count as u64) | ((self.iv_2 as u64) << 32)) {
            Ok(()) => (),
            Err(err) => {
                return Err(BlockPointerEncodeError::EndianEncodeError { err });
            },
        }
        proof {
            assert(forall|i: int|
                0 <= i < old(encoder).spec_offset() ==> #[trigger] encoder.spec_data()[i] == old(
                    encoder,
                ).spec_data()[i]);
        }
        match encoder.put_u64(self.checksum_value[0]) {
            Ok(()) => (),
            Err(err) => {
                return Err(BlockPointerEncodeError::EndianEncodeError { err });
            },
        }
        proof {
            assert(forall|i: int|
                0 <= i < old(encoder).spec_offset() ==> #[trigger] encoder.spec_data()[i] == old(
                    encoder,
                ).spec_data()[i]);
        }
        match encoder.put_u64(self.checksum_value[1]) {
            Ok(()) => (),
            Err(err) => {
                return Err(BlockPointerEncodeError::EndianEncodeError { err });
            },
        }
        proof {
            assert(forall|i: int|
                0 <= i < old(encoder).spec_offset() ==> #[trigger] encoder.spec_data()[i] == old(
                    encoder,
                ).spec_data()[i]);
        }
        match encoder.put_u64(self.mac[0]) {
            Ok(()) => (),
            Err(err) => {
                return Err(BlockPointerEncodeError::EndianEncodeError { err });
            },
        }
        proof {
            assert(forall|i: int|
                0 <= i < old(encoder).spec_offset() ==> #[trigger] encoder.spec_data()[i] == old(
                    encoder,
                ).spec_data()[i]);
        }
        match encoder.put_u64(self.mac[1]) {
            Ok(()) => (),
            Err(err) => {
                return Err(BlockPointerEncodeError::EndianEncodeError { err });
            },
        }
        proof {
            assert(forall|i: int|
                0 <= i < old(encoder).spec_offset() ==> #[trigger] encoder.spec_data()[i] == old(
                    encoder,
                ).spec_data()[i]);
        }
        proof {
            lemma_encrypted_splice(d, off, *self, e);
        }
        Ok(())
    }
}

/// Closes the chain of nine adjacent writes a regular block pointer
/// makes into one splice of its 128-byte encoding.
#[verifier::rlimit(100)]
#[verifier::spinoff_prover]
proof fn lemma_regular_splice(d: Seq<u8>, off: int, p: BlockPointerRegular, e: Endian)
    requires
        0 <= off,
        off + 128 <= d.len(),
    ensures
        ({
            let s1 = spliced(d, off, dva_bytes(p.dvas@[0], e));
            let s2 = spliced(s1, off + 16, dva_bytes(p.dvas@[1], e));
            let s3 = spliced(s2, off + 32, dva_bytes(p.dvas@[2], e));
            let s4 = spliced(s3, off + 48, word64(regular_flags(p), e));
            let s5 = spliced(s4, off + 56, Seq::new(16 as nat, |i: int| 0u8));
            let s6 = spliced(s5, off + 72, word64(p.physical_birth_txg, e));
            let s7 = spliced(s6, off + 80, word64(p.logical_birth_txg, e));
            let s8 = spliced(s7, off + 88, word64(p.fill_count, e));
            let s9 = spliced(s8, off + 96, words_bytes(p.checksum_value.words@, e));
            s9 == spliced(d, off, regular_bytes(p, e))
        }),
{
    let b0 = dva_bytes(p.dvas@[0], e);
    let b1 = dva_bytes(p.dvas@[1], e);
    let b2 = dva_bytes(p.dvas@[2], e);
    let bf = word64(regular_flags(p), e);
    let bz = Seq::new(16 as nat, |i: int| 0u8);
    let bp = word64(p.physical_birth_txg, e);
    let bl = word64(p.logical_birth_txg, e);
    let bc = word64(p.fill_count, e);
    let bw = words_bytes(p.checksum_value.words@, e);
    assert(b0.len() == 16 && b1.len() == 16 && b2.len() == 16 && bf.len() == 8 && bz.len() == 16
        && bp.len() == 8 && bl.len() == 8 && bc.len() == 8 && bw.len() == 32);
    crate::endian::lemma_spliced_adjacent(d, off, b0, b1);
    crate::endian::lemma_spliced_adjacent(d, off, b0 + b1, b2);
    crate::endian::lemma_spliced_adjacent(d, off, b0 + b1 + b2, bf);
    crate::endian::lemma_spliced_adjacent(d, off, b0 + b1 + b2 + bf, bz);
    crate::endian::lemma_spliced_adjacent(d, off, b0 + b1 + b2 + bf + bz, bp);
    crate::endian::lemma_spliced_adjacent(d, off, b0 + b1 + b2 + bf + bz + bp, bl);
    crate::endian::lemma_spliced_adjacent(d, off, b0 + b1 + b2 + bf + bz + bp + bl, bc);
    crate::endian::lemma_spliced_adjacent(d, off, b0 + b1 + b2 + bf + bz + bp + bl + bc, bw);
    assert(regular_bytes(p, e) == b0 + b1 + b2 + bf + bz + bp + bl + bc + bw);
}

/// Closes the chain of thirteen adjacent writes an encrypted block
/// pointer makes into one splice of its 128-byte encoding.
#[verifier::rlimit(100)]
#[verifier::spinoff_prover]
proof fn lemma_encrypted_splice(d: Seq<u8>, off: int, p: BlockPointerEncrypted, e: Endian)
    requires
        0 <= off,
        off + 128 <= d.len(),
    ensures
        ({
            let s1 = spliced(d, off, dva_bytes(p.dvas@[0], e));
            let s2 = spliced(s1, off + 16, dva_bytes(p.dvas@[1], e));
            let s3 = spliced(s2, off + 32, word64(p.salt, e));
            let s4 = spliced(s3, off + 40, word64(p.iv_1, e));
            let s5 = spliced(s4, off + 48, word64(encrypted_flags(p), e));
            let s6 = spliced(s5, off + 56, Seq::new(16 as nat, |i: int| 0u8));
            let s7 = spliced(s6, off + 72, word64(p.physical_birth_txg, e));
            let s8 = spliced(s7, off + 80, word64(p.logical_birth_txg, e));
            let s9 = spliced(s8, off + 88, word64(encrypted_iv_fill(p), e));
            let s10 = spliced(s9, off + 96, word64(p.checksum_value@[0], e));
            let s11 = spliced(s10, off + 104, word64(p.checksum_value@[1], e));
            let s12 = spliced(s11, off + 112, word64(p.mac@[0], e));
            let s13 = spliced(s12, off + 120, word64(p.mac@[1], e));
            s13 == spliced(d, off, encrypted_bytes(p, e))
        }),
{
    let b0 = dva_bytes(p.dvas@[0], e);
    let b1 = dva_bytes(p.dvas@[1], e);
    let bs = word64(p.salt, e);
    let bi = word64(p.iv_1, e);
    let bf = word64(encrypted_flags(p), e);
    let bz = Seq::new(16 as nat, |i: int| 0u8);
    let bp = word64(p.physical_birth_txg, e);
    let bl = word64(p.logical_birth_txg, e);
    let bv = word64(encrypted_iv_fill(p), e);
    let bc0 = word64(p.checksum_value@[0], e);
    let bc1 = word64(p.checksum_value@[1], e);
    let bm0 = word64(p.mac@[0], e);
    let bm1 = word64(p.mac@[1], e);
    crate::endian::lemma_spliced_adjacent(d, off, b0, b1);
    crate::endian::lemma_spliced_adjacent(d, off, b0 + b1, bs);
    crate::endian::lemma_spliced_adjacent(d, off, b0 + b1 + bs, bi);
    crate::endian::lemma_spliced_adjacent(d, off, b0 + b1 + bs + bi, bf);
    crate::endian::lemma_spliced_adjacent(d, off, b0 + b1 + bs + bi + bf, bz);
    crate::endian::lemma_spliced_adjacent(d, off, b0 + b1 + bs + bi + bf + bz, bp);
    crate::endian::lemma_spliced_adjacent(d, off, b0 + b1 + bs + bi + bf + bz + bp, bl);
    crate::endian::lemma_spliced_adjacent(d, off, b0 + b1 + bs + bi + bf + bz + bp + bl, bv);
    crate::endian::lemma_spliced_adjacent(d, off, b0 + b1 + bs + bi + bf + bz + bp + bl + bv, bc0);
    crate::endian::lemma_spliced_adjacent(
        d,
        off,
        b0 + b1 + bs + bi + bf + bz + bp + bl + bv + bc0,
        bc1,
    );
    crate::endian::lemma_spliced_adjacent(
        d,
        off,
        b0 + b1 + bs + bi + bf + bz + bp + bl + bv + bc0 + bc1,
        bm0,
    );
    crate::endian::lemma_spliced_adjacent(
        d,
        off,
        b0 + b1 + bs + bi + bf + bz + bp + bl + bv + bc0 + bc1 + bm0,
        bm1,
    );
    assert(encrypted_bytes(p, e) == b0 + b1 + bs + bi + bf + bz + bp + bl + bv + bc0 + bc1 + bm0
        + bm1);
}


/// True when the 128 bytes at `off` decode as a block pointer of some
/// shape.
pub open spec fn bp_decode_ok(d: Seq<u8>, off: int, e: Endian) -> bool {
    off + 56 <= d.len() && {
        let flags = word64_at(d, off + 48, e);
        if bp_embedded_flag(flags) && bp_encrypted_flag(flags) {
            false
        } else if bp_embedded_flag(flags) {
            embedded_decode_ok(d, off, e)
        } else if bp_encrypted_flag(flags) {
            encrypted_decode_ok(d, off, e)
        } else {
            regular_decode_ok(d, off, e)
        }
    }
}

/// The shape and fields a block pointer decoded from the 128 bytes at
/// `off` must carry: the embedded and encrypted flag bits select the
/// shape, and exactly one shape fits.
pub open spec fn is_bp_decoded(p: BlockPointer, d: Seq<u8>, off: int, e: Endian) -> bool {
    let flags = word64_at(d, off + 48, e);
    match p {
        BlockPointer::Regular(x) => !bp_embedded_flag(flags) && !bp_encrypted_flag(flags)
            && is_regular_decoded(x, d, off, e),
        BlockPointer::Encrypted(x) => !bp_embedded_flag(flags) && bp_encrypted_flag(flags)
            && is_encrypted_decoded(x, d, off, e),
        BlockPointer::Embedded(x) => bp_embedded_flag(flags) && !bp_encrypted_flag(flags)
            && is_embedded_decoded(x, d, off, e),
    }
}

/// A block pointer whose fields fit their packed widths.
pub open spec fn bp_valid(p: BlockPointer) -> bool {
    match p {
        BlockPointer::Regular(x) => regular_valid(x),
        BlockPointer::Encrypted(x) => encrypted_valid(x),
        BlockPointer::Embedded(x) => embedded_valid(x),
    }
}

/// The 128-byte encoding of a block pointer in the order given by `e`.
pub open spec fn bp_bytes(p: BlockPointer, e: Endian) -> Seq<u8> {
    match p {
        BlockPointer::Regular(x) => regular_bytes(x, e),
        BlockPointer::Encrypted(x) => encrypted_bytes(x, e),
        BlockPointer::Embedded(x) => embedded_bytes(x, e),
    }
}

/// Every block pointer encoding is 128 bytes long.
#[verifier::rlimit(100)]
pub proof fn lemma_bp_bytes_len(p: BlockPointer, e: Endian)
    ensures
        bp_bytes(p, e).len() == 128,
{
    match p {
        BlockPointer::Regular(x) => {
            assert(bp_bytes(p, e) == crate::phys::block_pointer::regular_bytes(x, e));
        },
        BlockPointer::Encrypted(x) => {
            assert(bp_bytes(p, e) == crate::phys::block_pointer::encrypted_bytes(x, e));
        },
        BlockPointer::Embedded(x) => {
            assert(bp_bytes(p, e) == crate::phys::block_pointer::embedded_bytes(x, e));
        },
    }
}

impl BlockPointer {
    /// Decodes a block pointer: peeks the flags word without moving the
    /// cursor, selects the shape from the embedded and encrypted bits,
    /// and hands off to that shape's decoder. Every input decodes to at
    /// most one shape, and both bits set at once always fails.
    pub fn from_decoder(decoder: &mut Decoder) -> (r: Result<
        BlockPointer,
        BlockPointerDecodeError,
    >)
        requires
            old(decoder).wf(),
        ensures
            final(decoder).wf(),
            final(decoder).spec_data() == old(decoder).spec_data(),
            final(decoder).spec_endian() == old(decoder).spec_endian(),
            ({
                let d = old(decoder).spec_data();
                let off = old(decoder).spec_offset();
                let e = old(decoder).spec_endian();
                let flags = word64_at(d, off + 48, e);
                &&& bp_decode_ok(d, off, e) ==> (r matches Ok(p) && is_bp_decoded(p, d, off, e)
                    && final(decoder).spec_offset() == off + 128)
                &&& !bp_decode_ok(d, off, e) ==> r is Err
                &&& (off + 56 <= d.len() && bp_embedded_flag(flags) && bp_encrypted_flag(flags))
                    ==> r == Err::<BlockPointer, BlockPointerDecodeError>(
                    (BlockPointerDecodeError::InvalidBlockPointerType {
                        embedded: true,
                        encrypted: true,
                    }),
                )
            }),
    {
        match decoder.skip(48) {
            Ok(()) => (),
            Err(err) => {
                return Err(BlockPointerDecodeError::EndianDecodeError { err });
            },
        }
        let flags = match decoder.get_u64() {
            Ok(v) => v,
            Err(err) => {
                return Err(BlockPointerDecodeError::EndianDecodeError { err });
            },
        };
        match decoder.rewind(56) {
            Ok(()) => (),
            Err(err) => {
                return Err(BlockPointerDecodeError::EndianDecodeError { err });
            },
        }
        let embedded = (flags & EMBEDDED_FLAG_MASK) != 0;
        let encrypted = (flags & ENCRYPTED_FLAG_MASK) != 0;
        match (embedded, encrypted) {
            (false, false) => match BlockPointerRegular::from_decoder(decoder) {
                Ok(p) => Ok(BlockPointer::Regular(p)),
                Err(e) => Err(e),
            },
            (false, true) => match BlockPointerEncrypted::from_decoder(decoder) {
                Ok(p) => Ok(BlockPointer::Encrypted(p)),
                Err(e) => Err(e),
            },
            (true, false) => match BlockPointerEmbedded::from_decoder(decoder) {
                Ok(p) => Ok(BlockPointer::Embedded(p)),
                Err(e) => Err(e),
            },
            (true, true) => Err(
                BlockPointerDecodeError::InvalidBlockPointerType { embedded, encrypted },
            ),
        }
    }

    /// Encodes a block pointer through its shape's encoder. Succeeds
    /// exactly when the shape's fields fit their widths and the encoder
    /// has 128 bytes of room.
    pub fn to_encoder(&self, encoder: &mut Encoder) -> (r: Result<(), BlockPointerEncodeError>)
        requires
            old(encoder).wf(),
        ensures
            final(encoder).wf(),
            final(encoder).spec_endian() == old(encoder).spec_endian(),
            final(encoder).spec_data().len() == old(encoder).spec_data().len(),
            forall|i: int|
                0 <= i < old(encoder).spec_offset() ==> #[trigger] final(encoder).spec_data()[i]
                    == old(encoder).spec_data()[i],
            ({
                let d = old(encoder).spec_data();
                let off = old(encoder).spec_offset();
                let e = old(encoder).spec_endian();
                &&& (bp_valid(*self) && off + 128 <= d.len()) ==> (r == Ok::<
                    (),
                    BlockPointerEncodeError,
                >(()) && final(encoder).spec_data() == spliced(d, off, bp_bytes(*self, e)) && final(encoder).spec_offset() == off + 128)
                &&& r is Ok ==> (bp_valid(*self) && off + 128 <= d.len())
                &&& !(r is Ok) ==> r is Err
            }),
    {
        match self {
            BlockPointer::Embedded(ptr) => {
                let r = ptr.to_encoder(encoder);
                proof {
                    if r is Ok {
                        assert(embedded_valid(*ptr));
                        assert(bp_valid(*self));
                    }
                }
                r
            },
            BlockPointer::Encrypted(ptr) => {
                let r = ptr.to_encoder(encoder);
                proof {
                    if r is Ok {
                        assert(encrypted_valid(*ptr));
                        assert(bp_valid(*self));
                    }
                }
                r
            },
            BlockPointer::Regular(ptr) => {
                let r = ptr.to_encoder(encoder);
                proof {
                    if r is Ok {
                        assert(regular_valid(*ptr));
                        assert(bp_valid(*self));
                    }
                }
                r
            },
        }
    }
}


} // verus!
