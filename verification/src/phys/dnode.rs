//! The 512-byte dnode: a fixed header and a 448-byte tail whose shape
//! is chosen by the header's block-pointer count and spill flag.

use vstd::prelude::*;

use crate::endian::{spliced, word16, word16_of, word64, Decoder, DecodeError, Encoder,
    EncodeError, Endian};
use crate::phys::block_pointer::{
    bp_bytes, bp_decode_ok, bp_valid, is_bp_decoded, lemma_bp_bytes_len, word64_at, BlockPointer,
    BlockPointerDecodeError, BlockPointerEncodeError,
};
use crate::phys::{
    ChecksumType, ChecksumTypeError, CompressionType, CompressionTypeError, DmuType, DmuTypeError,
};

verus! {

/// Byte length of an encoded dnode.
pub const DNODE_LENGTH: usize = 512;

/// Flag bit: the used field counts bytes rather than sectors.
pub const DNODE_FLAG_USED_BYTES: u8 = 1;

/// Flag bit: user accounting is tracked for this object.
pub const DNODE_FLAG_USER_USED_ACCOUNTED: u8 = 2;

/// Flag bit: a spill block pointer is present.
pub const DNODE_FLAG_SPILL_BLOCK_POINTER: u8 = 4;

/// Flag bit: user object accounting is tracked for this object.
pub const DNODE_FLAG_USER_OBJ_USED_ACCOUNTED: u8 = 8;

/// All known flag bits.
pub const DNODE_FLAG_ALL: u8 = 15;

/// The 16-bit word at offset `off` of `d` in the order given by `e`.
pub open spec fn word16_at(d: Seq<u8>, off: int, e: Endian) -> u16 {
    word16_of(d.subrange(off, off + 2), e)
}

/// A dnode.
#[derive(Clone, Debug, PartialEq)]
pub struct Dnode {
    pub bonus_len: u16,
    pub bonus_type: DmuType,
    pub checksum: ChecksumType,
    pub compression: CompressionType,
    pub data_block_size_sectors: u16,
    pub extra_slots: u8,
    pub dmu: DmuType,
    pub flags: u8,
    pub indirect_block_shift: u8,
    pub levels: u8,
    pub max_block_id: u64,
    pub tail: DnodeTail,
    pub used: u64,
    pub used_is_bytes: bool,
    pub user_obj_used_accounted: bool,
    pub user_used_accounted: bool,
}

/// The tail of a dnode.
#[derive(Clone, Debug, PartialEq)]
pub enum DnodeTail {
    Zero(DnodeTailZero),
    One(DnodeTailOne),
    Two(DnodeTailTwo),
    Three(DnodeTailThree),
    Spill(DnodeTailSpill),
}

/// A tail with no block pointers: all bonus.
#[derive(Clone, Debug, PartialEq)]
pub struct DnodeTailZero {
    pub ptrs: Vec<BlockPointer>,
    pub bonus: Vec<u8>,
}

/// A tail with one block pointer and 320 bytes of bonus.
#[derive(Clone, Debug, PartialEq)]
pub struct DnodeTailOne {
    pub ptrs: Vec<BlockPointer>,
    pub bonus: Vec<u8>,
}

/// A tail with two block pointers and 192 bytes of bonus.
#[derive(Clone, Debug, PartialEq)]
pub struct DnodeTailTwo {
    pub ptrs: Vec<BlockPointer>,
    pub bonus: Vec<u8>,
}

/// A tail with three block pointers and 64 bytes of bonus.
#[derive(Clone, Debug, PartialEq)]
pub struct DnodeTailThree {
    pub ptrs: Vec<BlockPointer>,
    pub bonus: Vec<u8>,
}

/// A tail with one block pointer, 192 bytes of bonus, and a spill
/// block pointer.
#[derive(Clone, Debug, PartialEq)]
pub struct DnodeTailSpill {
    pub ptrs: Vec<BlockPointer>,
    pub bonus: Vec<u8>,
    pub spill: BlockPointer,
}

/// The number of block pointers a tail shape carries.
pub open spec fn tail_ptr_count(t: DnodeTail) -> int {
    match t {
        DnodeTail::Zero(_) => 0,
        DnodeTail::One(_) => 1,
        DnodeTail::Two(_) => 2,
        DnodeTail::Three(_) => 3,
        DnodeTail::Spill(_) => 1,
    }
}

/// The bonus capacity of a tail shape, in bytes.
pub open spec fn tail_bonus_capacity(t: DnodeTail) -> int {
    match t {
        DnodeTail::Zero(_) => 448,
        DnodeTail::One(_) => 320,
        DnodeTail::Two(_) => 192,
        DnodeTail::Three(_) => 64,
        DnodeTail::Spill(_) => 192,
    }
}

/// A tail whose vectors have the lengths its shape prescribes.
pub open spec fn tail_wf(t: DnodeTail) -> bool {
    match t {
        DnodeTail::Zero(x) => x.ptrs@.len() == 0 && x.bonus@.len() == 448,
        DnodeTail::One(x) => x.ptrs@.len() == 1 && x.bonus@.len() == 320,
        DnodeTail::Two(x) => x.ptrs@.len() == 2 && x.bonus@.len() == 192,
        DnodeTail::Three(x) => x.ptrs@.len() == 3 && x.bonus@.len() == 64,
        DnodeTail::Spill(x) => x.ptrs@.len() == 1 && x.bonus@.len() == 192,
    }
}

/// The block pointers of a tail, in order, the spill pointer last.
pub open spec fn tail_all_ptrs(t: DnodeTail) -> Seq<BlockPointer> {
    match t {
        DnodeTail::Zero(x) => x.ptrs@,
        DnodeTail::One(x) => x.ptrs@,
        DnodeTail::Two(x) => x.ptrs@,
        DnodeTail::Three(x) => x.ptrs@,
        DnodeTail::Spill(x) => x.ptrs@.push(x.spill),
    }
}

/// The bonus bytes of a tail.
pub open spec fn tail_bonus(t: DnodeTail) -> Seq<u8> {
    match t {
        DnodeTail::Zero(x) => x.bonus@,
        DnodeTail::One(x) => x.bonus@,
        DnodeTail::Two(x) => x.bonus@,
        DnodeTail::Three(x) => x.bonus@,
        DnodeTail::Spill(x) => x.bonus@,
    }
}

/// The flags byte a dnode encodes: the three accounting bits plus the
/// spill bit when the tail carries a spill pointer.
pub open spec fn dnode_enc_flags(p: Dnode) -> u8 {
    ((if p.used_is_bytes {
        1u8
    } else {
        0u8
    }) | (if p.user_used_accounted {
        2u8
    } else {
        0u8
    }) | (if p.user_obj_used_accounted {
        8u8
    } else {
        0u8
    }) | (if p.tail is Spill {
        4u8
    } else {
        0u8
    }))
}

/// The 448-byte encoding of a dnode tail in the order given by `e`.
pub open spec fn tail_bytes(t: DnodeTail, e: Endian) -> Seq<u8> {
    match t {
        DnodeTail::Zero(x) => x.bonus@,
        DnodeTail::One(x) => bp_bytes(x.ptrs@[0], e) + x.bonus@,
        DnodeTail::Two(x) => bp_bytes(x.ptrs@[0], e) + bp_bytes(x.ptrs@[1], e) + x.bonus@,
        DnodeTail::Three(x) => bp_bytes(x.ptrs@[0], e) + bp_bytes(x.ptrs@[1], e) + bp_bytes(
            x.ptrs@[2],
            e,
        ) + x.bonus@,
        DnodeTail::Spill(x) => bp_bytes(x.ptrs@[0], e) + x.bonus@ + bp_bytes(x.spill, e),
    }
}

/// The 64-byte header encoding of a dnode in the order given by `e`.
pub open spec fn dnode_header_bytes(p: Dnode, e: Endian) -> Seq<u8> {
    seq![
        p.dmu.spec_value(),
        p.indirect_block_shift,
        p.levels,
        tail_ptr_count(p.tail) as u8,
        p.bonus_type.spec_value(),
        p.checksum.spec_value(),
        p.compression.spec_value(),
        dnode_enc_flags(p),
    ] + word16(p.data_block_size_sectors, e) + word16(p.bonus_len, e) + seq![p.extra_slots]
        + Seq::new(3 as nat, |i: int| 0u8) + word64(p.max_block_id, e) + word64(p.used, e)
        + Seq::new(32 as nat, |i: int| 0u8)
}

/// The 512-byte encoding of a dnode in the order given by `e`.
pub open spec fn dnode_bytes(p: Dnode, e: Endian) -> Seq<u8> {
    dnode_header_bytes(p, e) + tail_bytes(p.tail, e)
}

/// A tail whose block pointers fit their packed widths.
pub open spec fn tail_ptrs_valid(t: DnodeTail) -> bool {
    match t {
        DnodeTail::Zero(_) => true,
        DnodeTail::One(x) => bp_valid(x.ptrs@[0]),
        DnodeTail::Two(x) => bp_valid(x.ptrs@[0]) && bp_valid(x.ptrs@[1]),
        DnodeTail::Three(x) => bp_valid(x.ptrs@[0]) && bp_valid(x.ptrs@[1]) && bp_valid(
            x.ptrs@[2],
        ),
        DnodeTail::Spill(x) => bp_valid(x.ptrs@[0]) && bp_valid(x.spill),
    }
}

/// A dnode whose tail is well-formed, whose block pointers fit their
/// widths, and whose bonus length fits its tail's capacity.
pub open spec fn dnode_valid(p: Dnode) -> bool {
    &&& tail_wf(p.tail)
    &&& tail_ptrs_valid(p.tail)
    &&& p.bonus_len <= tail_bonus_capacity(p.tail)
}

/// The header conditions under which the 512 bytes at `off` decode as
/// a dnode: known type codes, known flags, the spill flag only with one
/// block pointer, zero padding, and a pointer count naming a shape.
pub open spec fn dnode_header_ok(d: Seq<u8>, off: int, e: Endian) -> bool {
    let flags = d[off + 7];
    let nblk = d[off + 3];
    &&& off + 512 <= d.len()
    &&& d[off] <= 53
    &&& d[off + 4] <= 53
    &&& d[off + 5] <= 14
    &&& d[off + 6] <= 16
    &&& flags & 0xf0 == 0
    &&& (flags & DNODE_FLAG_SPILL_BLOCK_POINTER != 0 ==> nblk == 1)
    &&& (forall|i: int| off + 13 <= i < off + 16 ==> d[i] == 0)
    &&& (forall|i: int| off + 32 <= i < off + 64 ==> d[i] == 0)
    &&& nblk <= 3
}

/// True when the spill flag of the header at `off` is set.
pub open spec fn dnode_spill_flag(d: Seq<u8>, off: int) -> bool {
    d[off + 7] & DNODE_FLAG_SPILL_BLOCK_POINTER != 0
}

/// The bonus capacity the header at `off` selects.
pub open spec fn dnode_sel_capacity(d: Seq<u8>, off: int) -> int {
    let nblk = d[off + 3];
    if nblk == 0 {
        448
    } else if nblk == 1 && dnode_spill_flag(d, off) {
        192
    } else if nblk == 1 {
        320
    } else if nblk == 2 {
        192
    } else {
        64
    }
}

/// True when the 448 bytes at `toff` decode as the tail shape named by
/// `nblk` and `spill`.
pub open spec fn tail_shape_ok(d: Seq<u8>, toff: int, e: Endian, nblk: u8, spill: bool) -> bool {
    &&& toff + 448 <= d.len()
    &&& if nblk == 0 {
        true
    } else if nblk == 1 && spill {
        bp_decode_ok(d, toff, e) && bp_decode_ok(d, toff + 320, e)
    } else if nblk == 1 {
        bp_decode_ok(d, toff, e)
    } else if nblk == 2 {
        bp_decode_ok(d, toff, e) && bp_decode_ok(d, toff + 128, e)
    } else {
        bp_decode_ok(d, toff, e) && bp_decode_ok(d, toff + 128, e) && bp_decode_ok(
            d,
            toff + 256,
            e,
        )
    }
}

/// True when every block pointer of the tail selected by the header at
/// `off` decodes.
pub open spec fn dnode_tail_ok(d: Seq<u8>, off: int, e: Endian) -> bool {
    tail_shape_ok(d, off + 64, e, d[off + 3], dnode_spill_flag(d, off))
}

/// True when the 512 bytes at `off` decode as a dnode.
pub open spec fn dnode_decode_ok(d: Seq<u8>, off: int, e: Endian) -> bool {
    &&& dnode_header_ok(d, off, e)
    &&& dnode_tail_ok(d, off, e)
    &&& word16_at(d, off + 10, e) <= dnode_sel_capacity(d, off)
}

/// The tail shape and contents decoded from the 448 bytes at `toff`
/// under the shape named by `nblk` and `spill`.
pub open spec fn is_tail_shape_decoded(
    t: DnodeTail,
    d: Seq<u8>,
    toff: int,
    e: Endian,
    nblk: u8,
    spill: bool,
) -> bool {
    &&& tail_wf(t)
    &&& if nblk == 0 {
        t matches DnodeTail::Zero(x) && x.bonus@ =~= d.subrange(toff, toff + 448)
    } else if nblk == 1 && spill {
        t matches DnodeTail::Spill(x) && is_bp_decoded(x.ptrs@[0], d, toff, e) && x.bonus@
            =~= d.subrange(toff + 128, toff + 320) && is_bp_decoded(x.spill, d, toff + 320, e)
    } else if nblk == 1 {
        t matches DnodeTail::One(x) && is_bp_decoded(x.ptrs@[0], d, toff, e) && x.bonus@
            =~= d.subrange(toff + 128, toff + 448)
    } else if nblk == 2 {
        t matches DnodeTail::Two(x) && is_bp_decoded(x.ptrs@[0], d, toff, e) && is_bp_decoded(
            x.ptrs@[1],
            d,
            toff + 128,
            e,
        ) && x.bonus@ =~= d.subrange(toff + 256, toff + 448)
    } else {
        t matches DnodeTail::Three(x) && is_bp_decoded(x.ptrs@[0], d, toff, e) && is_bp_decoded(
            x.ptrs@[1],
            d,
            toff + 128,
            e,
        ) && is_bp_decoded(x.ptrs@[2], d, toff + 256, e) && x.bonus@ =~= d.subrange(
            toff + 384,
            toff + 448,
        )
    }
}

/// The tail shape and contents a dnode decoded from the 512 bytes at
/// `off` must carry.
pub open spec fn is_dnode_tail_decoded(t: DnodeTail, d: Seq<u8>, off: int, e: Endian) -> bool {
    is_tail_shape_decoded(t, d, off + 64, e, d[off + 3], dnode_spill_flag(d, off))
}

/// The fields a dnode decoded from the 512 bytes at `off` must carry.
pub open spec fn is_dnode_decoded(p: Dnode, d: Seq<u8>, off: int, e: Endian) -> bool {
    let flags = d[off + 7];
    &&& p.dmu == DmuType::spec_from_u8(d[off])
    &&& p.indirect_block_shift == d[off + 1]
    &&& p.levels == d[off + 2]
    &&& p.bonus_type == DmuType::spec_from_u8(d[off + 4])
    &&& p.checksum == ChecksumType::spec_from_u8(d[off + 5])
    &&& p.compression == CompressionType::spec_from_u8(d[off + 6])
    &&& p.flags == flags
    &&& p.data_block_size_sectors == word16_at(d, off + 8, e)
    &&& p.bonus_len == word16_at(d, off + 10, e)
    &&& p.extra_slots == d[off + 12]
    &&& p.max_block_id == word64_at(d, off + 16, e)
    &&& p.used == word64_at(d, off + 24, e)
    &&& p.used_is_bytes == (flags & DNODE_FLAG_USED_BYTES != 0)
    &&& p.user_used_accounted == (flags & DNODE_FLAG_USER_USED_ACCOUNTED != 0)
    &&& p.user_obj_used_accounted == (flags & DNODE_FLAG_USER_OBJ_USED_ACCOUNTED != 0)
    &&& is_dnode_tail_decoded(p.tail, d, off, e)
}

/// A failure while decoding a dnode.
#[derive(Debug, PartialEq)]
pub enum DnodeDecodeError {
    /// A block pointer of the tail does not decode.
    BlockPointerDecodeError { err: BlockPointerDecodeError },
    /// The checksum type code is unknown.
    ChecksumTypeError { err: ChecksumTypeError },
    /// The compression code is unknown.
    CompressionTypeError { err: CompressionTypeError },
    /// A DMU type code is unknown.
    DmuTypeError { err: DmuTypeError },
    /// The underlying byte decoder failed.
    EndianDecodeError { err: DecodeError },
    /// The block pointer count names no shape.
    InvalidBlockPointerCount { count: u8 },
    /// The bonus length exceeds the tail's capacity.
    InvalidBonusLength { length: u16 },
    /// The flags byte holds unknown bits.
    InvalidFlags { flags: u8 },
    /// The spill flag is set but the pointer count is not one.
    InvalidSpillBlockPointerCount { count: u8 },
}

/// A failure while encoding a dnode.
#[derive(Debug, PartialEq)]
pub enum DnodeEncodeError {
    /// A block pointer of the tail does not encode.
    BlockPointerEncodeError { err: BlockPointerEncodeError },
    /// The underlying byte encoder failed.
    EndianEncodeError { err: EncodeError },
    /// The bonus length exceeds the tail's capacity.
    InvalidBonusLength { length: u16 },
}

impl Dnode {
    /// Decodes a dnode: the 64-byte header, then the tail shape the
    /// header's pointer count and spill flag select. Succeeds exactly
    /// when [`dnode_decode_ok`] holds of the 512 bytes at the decoder's
    /// position. The spill flag with a pointer count other than one is
    /// rejected.
    #[verifier::rlimit(100)]
    pub fn from_decoder(decoder: &mut Decoder) -> (r: Result<Dnode, DnodeDecodeError>)
        requires
            old(decoder).wf(),
        ensures
            final(decoder).wf(),
            final(decoder).spec_data() == old(decoder).spec_data(),
            final(decoder).spec_endian() == old(decoder).spec_endian(),
            ({
                let d = old(decoder).spec_data();
                let off = old(decoder).spec_offset();
                let e = old(decoder).spec_endian();
                &&& dnode_decode_ok(d, off, e) ==> (r matches Ok(p) && is_dnode_decoded(
                    p,
                    d,
                    off,
                    e,
                ) && final(decoder).spec_offset() == off + 512)
                &&& !dnode_decode_ok(d, off, e) ==> r is Err
                &&& (off + 512 <= d.len() && d[off] <= 53 && d[off + 4] <= 53 && d[off + 5] <= 14
                    && d[off + 6] <= 16 && d[off + 7] & 0xf0 != 0) ==> r == Err::<
                    Dnode,
                    DnodeDecodeError,
                >((DnodeDecodeError::InvalidFlags { flags: d[off + 7] }))
                &&& (off + 512 <= d.len() && d[off] <= 53 && d[off + 4] <= 53 && d[off + 5] <= 14
                    && d[off + 6] <= 16 && d[off + 7] & 0xf0 == 0 && dnode_spill_flag(d, off) && d[off
                    + 3] != 1) ==> r == Err::<Dnode, DnodeDecodeError>(
                    (DnodeDecodeError::InvalidSpillBlockPointerCount { count: d[off + 3] }),
                )
                &&& (dnode_header_ok(d, off, e) && dnode_tail_ok(d, off, e) && word16_at(
                    d,
                    off + 10,
                    e,
                ) > dnode_sel_capacity(d, off)) ==> r == Err::<Dnode, DnodeDecodeError>(
                    (DnodeDecodeError::InvalidBonusLength { length: word16_at(d, off + 10, e) }),
                )
                &&& (off + 512 <= d.len() && d[off] <= 53 && d[off + 4] <= 53 && d[off + 5] <= 14
                    && d[off + 6] <= 16 && d[off + 7] & 0xf0 == 0 && !dnode_spill_flag(d, off) && (
                forall|i: int| off + 13 <= i < off + 16 ==> d[i] == 0) && (forall|i: int|
                    off + 32 <= i < off + 64 ==> d[i] == 0) && d[off + 3] > 3) ==> r == Err::<
                    Dnode,
                    DnodeDecodeError,
                >((DnodeDecodeError::InvalidBlockPointerCount { count: d[off + 3] }))
            }),
    {
        let ghost d = old(decoder).spec_data();
        let ghost off = old(decoder).spec_offset();
        let ghost e = old(decoder).spec_endian();
        let dmu_code = match decoder.get_u8() {
            Ok(v) => v,
            Err(err) => {
                return Err(DnodeDecodeError::EndianDecodeError { err });
            },
        };
        let dmu = match DmuType::try_from_u8(dmu_code) {
            Ok(v) => v,
            Err(err) => {
                return Err(DnodeDecodeError::DmuTypeError { err });
            },
        };
        let indirect_block_shift = match decoder.get_u8() {
            Ok(v) => v,
            Err(err) => {
                return Err(DnodeDecodeError::EndianDecodeError { err });
            },
        };
        let levels = match decoder.get_u8() {
            Ok(v) => v,
            Err(err) => {
                return Err(DnodeDecodeError::EndianDecodeError { err });
            },
        };
        let block_pointers_n = match decoder.get_u8() {
            Ok(v) => v,
            Err(err) => {
                return Err(DnodeDecodeError::EndianDecodeError { err });
            },
        };
        let bonus_type = match decoder.get_u8() {
            Ok(v) => v,
            Err(err) => {
                return Err(DnodeDecodeError::EndianDecodeError { err });
            },
        };
        let bonus_type = match DmuType::try_from_u8(bonus_type) {
            Ok(v) => v,
            Err(err) => {
                return Err(DnodeDecodeError::DmuTypeError { err });
            },
        };
        let checksum = match decoder.get_u8() {
            Ok(v) => v,
            Err(err) => {
                return Err(DnodeDecodeError::EndianDecodeError { err });
            },
        };
        let checksum = match ChecksumType::try_from_u8(checksum) {
            Ok(v) => v,
            Err(err) => {
                return Err(DnodeDecodeError::ChecksumTypeError { err });
            },
        };
        let compression = match decoder.get_u8() {
            Ok(v) => v,
            Err(err) => {
                return Err(DnodeDecodeError::EndianDecodeError { err });
            },
        };
        let compression = match CompressionType::try_from_u8(compression) {
            Ok(v) => v,
            Err(err) => {
                return Err(DnodeDecodeError::CompressionTypeError { err });
            },
        };
        let flags = match decoder.get_u8() {
            Ok(v) => v,
            Err(err) => {
                return Err(DnodeDecodeError::EndianDecodeError { err });
            },
        };
        if (flags & DNODE_FLAG_ALL) != flags {
            proof {
                assert(flags & 15 != flags ==> flags & 0xf0 != 0) by (bit_vector);
            }
            return Err(DnodeDecodeError::InvalidFlags { flags });
        }
        proof {
            assert(flags & 15 == flags ==> flags & 0xf0 == 0) by (bit_vector);
        }
        let is_spill = (flags & DNODE_FLAG_SPILL_BLOCK_POINTER) != 0;
        if is_spill && block_pointers_n != 1 {
            return Err(
                DnodeDecodeError::InvalidSpillBlockPointerCount { count: block_pointers_n },
            );
        }
        let data_block_size_sectors = match decoder.get_u16() {
            Ok(v) => v,
            Err(err) => {
                return Err(DnodeDecodeError::EndianDecodeError { err });
            },
        };
        let bonus_len = match decoder.get_u16() {
            Ok(v) => v,
            Err(err) => {
                return Err(DnodeDecodeError::EndianDecodeError { err });
            },
        };
        let extra_slots = match decoder.get_u8() {
            Ok(v) => v,
            Err(err) => {
                return Err(DnodeDecodeError::EndianDecodeError { err });
            },
        };
        match decoder.skip_zero_padding(3) {
            Ok(()) => (),
            Err(err) => {
                return Err(DnodeDecodeError::EndianDecodeError { err });
            },
        }
        let max_block_id = match decoder.get_u64() {
            Ok(v) => v,
            Err(err) => {
                return Err(DnodeDecodeError::EndianDecodeError { err });
            },
        };
        let used = match decoder.get_u64() {
            Ok(v) => v,
            Err(err) => {
                return Err(DnodeDecodeError::EndianDecodeError { err });
            },
        };
        match decoder.skip_zero_padding(32) {
            Ok(()) => (),
            Err(err) => {
                return Err(DnodeDecodeError::EndianDecodeError { err });
            },
        }
        let tail: DnodeTail = match decode_tail(decoder, block_pointers_n, is_spill) {
            Ok(v) => v,
            Err(err) => {
                return Err(err);
            },
        };
        let max_bonus_len: u16 = match &tail {
            DnodeTail::Zero(_) => 448,
            DnodeTail::One(_) => 320,
            DnodeTail::Two(_) => 192,
            DnodeTail::Three(_) => 64,
            DnodeTail::Spill(_) => 192,
        };
        if bonus_len > max_bonus_len {
            return Err(DnodeDecodeError::InvalidBonusLength { length: bonus_len });
        }
        Ok(
            Dnode {
                bonus_len,
                bonus_type,
                checksum,
                compression,
                data_block_size_sectors,
                dmu,
                extra_slots,
                flags,
                indirect_block_shift,
                levels,
                max_block_id,
                tail,
                used,
                used_is_bytes: (flags & DNODE_FLAG_USED_BYTES) != 0,
                user_obj_used_accounted: (flags & DNODE_FLAG_USER_OBJ_USED_ACCOUNTED) != 0,
                user_used_accounted: (flags & DNODE_FLAG_USER_USED_ACCOUNTED) != 0,
            },
        )
    }

    /// Encodes a dnode: the header with the pointer count and flags
    /// derived from the tail, then the tail. Succeeds exactly when the
    /// dnode is well-formed and the encoder has 512 bytes of room.
    #[verifier::rlimit(100)]
    pub fn to_encoder(&self, encoder: &mut Encoder) -> (r: Result<(), DnodeEncodeError>)
        requires
            old(encoder).wf(),
            tail_wf(self.tail),
        ensures
            final(encoder).wf(),
            final(encoder).spec_endian() == old(encoder).spec_endian(),
            final(encoder).spec_data().len() == old(encoder).spec_data().len(),
            forall|i: int|
                0 <= i < old(encoder).spec_offset() ==> #[trigger] final(encoder).spec_data()[i]
                    == old(encoder).spec_data()[i],
            ({
                let d = old(encoder).spec_data();
                let off = old(encoder).spec_offset();
                let e = old(encoder).spec_endian();
                &&& (dnode_valid(*self) && off + 512 <= d.len()) ==> (r == Ok::<
                    (),
                    DnodeEncodeError,
                >(()) && final(encoder).spec_data() == spliced(d, off, dnode_bytes(*self, e))
                    && final(encoder).spec_offset() == off + 512)
                &&& (tail_wf(self.tail) && self.bonus_len > tail_bonus_capacity(self.tail) && off
                    + 12 <= d.len()) ==> r == Err::<(), DnodeEncodeError>(
                    (DnodeEncodeError::InvalidBonusLength { length: self.bonus_len }),
                )
                &&& r is Ok ==> (dnode_valid(*self) && off + 512 <= d.len())
                &&& !(r is Ok) ==> r is Err
            }),
    {
        let ghost d = old(encoder).spec_data();
        let ghost off = old(encoder).spec_offset();
        let ghost e = old(encoder).spec_endian();
        let ghost header = dnode_header_bytes(*self, e);
        match encode_dnode_header(encoder, self) {
            Ok(()) => (),
            Err(err) => {
                return Err(err);
            },
        }

        match encode_tail(encoder, &self.tail) {
            Ok(()) => (),
            Err(err) => {
                return Err(err);
            },
        }
        proof {
            lemma_tail_bytes_len(self.tail, e);
            crate::endian::lemma_spliced_adjacent(d, off, header, tail_bytes(self.tail, e));
            assert(dnode_bytes(*self, e) == header + tail_bytes(self.tail, e));
        }
        Ok(())
    }
}


impl Dnode {
    /// An empty dnode: every field zero, the tail all bonus.
    pub fn empty() -> (r: Dnode)
        ensures
            tail_wf(r.tail),
            dnode_valid(r),
            r.bonus_len == 0,
            r.dmu == DmuType::NoneType,
            r.bonus_type == DmuType::NoneType,
            r.checksum == ChecksumType::Inherit,
            r.compression == CompressionType::Inherit,
            r.tail matches DnodeTail::Zero(x) && x.bonus@ == Seq::new(448 as nat, |i: int| 0u8),
    {
        let mut bonus: Vec<u8> = Vec::new();
        let mut i: usize = 0;
        while i < 448
            invariant
                0 <= i <= 448,
                bonus@.len() == i,
                forall|j: int| 0 <= j < i ==> bonus@[j] == 0,
            decreases 448 - i,
        {
            bonus.push(0);
            i = i + 1;
        }
        proof {
            assert(bonus@ =~= Seq::new(448 as nat, |j: int| 0u8));
        }
        Dnode {
            bonus_len: 0,
            bonus_type: DmuType::NoneType,
            checksum: ChecksumType::Inherit,
            compression: CompressionType::Inherit,
            data_block_size_sectors: 0,
            extra_slots: 0,
            dmu: DmuType::NoneType,
            flags: 0,
            indirect_block_shift: 0,
            levels: 0,
            max_block_id: 0,
            tail: DnodeTail::Zero(DnodeTailZero { ptrs: Vec::new(), bonus }),
            used: 0,
            used_is_bytes: false,
            user_obj_used_accounted: false,
            user_used_accounted: false,
        }
    }

    /// The whole bonus slot of the tail.
    pub fn bonus_capacity(&self) -> (r: &[u8])
        ensures
            r@ == tail_bonus(self.tail),
    {
        match &self.tail {
            DnodeTail::Zero(x) => x.bonus.as_slice(),
            DnodeTail::One(x) => x.bonus.as_slice(),
            DnodeTail::Two(x) => x.bonus.as_slice(),
            DnodeTail::Three(x) => x.bonus.as_slice(),
            DnodeTail::Spill(x) => x.bonus.as_slice(),
        }
    }

    /// The used prefix of the bonus slot.
    pub fn bonus_used(&self) -> (r: &[u8])
        requires
            self.bonus_len <= tail_bonus(self.tail).len(),
        ensures
            r@ == tail_bonus(self.tail).subrange(0, self.bonus_len as int),
    {
        let whole = self.bonus_capacity();
        vstd::slice::slice_subrange(whole, 0, self.bonus_len as usize)
    }

    /// The tail's block pointers, the spill pointer excluded.
    pub fn pointers(&self) -> (r: &[BlockPointer])
        ensures
            r@ == match self.tail {
                DnodeTail::Zero(x) => x.ptrs@,
                DnodeTail::One(x) => x.ptrs@,
                DnodeTail::Two(x) => x.ptrs@,
                DnodeTail::Three(x) => x.ptrs@,
                DnodeTail::Spill(x) => x.ptrs@,
            },
    {
        match &self.tail {
            DnodeTail::Zero(x) => x.ptrs.as_slice(),
            DnodeTail::One(x) => x.ptrs.as_slice(),
            DnodeTail::Two(x) => x.ptrs.as_slice(),
            DnodeTail::Three(x) => x.ptrs.as_slice(),
            DnodeTail::Spill(x) => x.ptrs.as_slice(),
        }
    }
}

/// Decodes the 448-byte tail whose shape the header named: the block
/// pointers of the shape, the bonus run, and the spill pointer where
/// present. Succeeds exactly when the count names a shape and
/// [`tail_shape_ok`] holds at the decoder's position.
#[verifier::rlimit(100)]
fn decode_tail(decoder: &mut Decoder, nblk: u8, is_spill: bool) -> (r: Result<
    DnodeTail,
    DnodeDecodeError,
>)
    requires
        old(decoder).wf(),
        is_spill ==> nblk == 1,
    ensures
        final(decoder).wf(),
        final(decoder).spec_data() == old(decoder).spec_data(),
        final(decoder).spec_endian() == old(decoder).spec_endian(),
        ({
            let d = old(decoder).spec_data();
            let toff = old(decoder).spec_offset();
            let e = old(decoder).spec_endian();
            &&& nblk > 3 ==> r == Err::<DnodeTail, DnodeDecodeError>(
                (DnodeDecodeError::InvalidBlockPointerCount { count: nblk }),
            ) && final(decoder).spec_offset() == toff
            &&& (nblk <= 3 && tail_shape_ok(d, toff, e, nblk, is_spill)) ==> (r matches Ok(t)
                && is_tail_shape_decoded(t, d, toff, e, nblk, is_spill) && final(decoder).spec_offset() == toff + 448)
            &&& (nblk <= 3 && !tail_shape_ok(d, toff, e, nblk, is_spill)) ==> r is Err
        }),
{
    if nblk == 0 {
        let bonus = match decoder.get_bytes(448) {
            Ok(v) => v,
            Err(err) => {
                return Err(DnodeDecodeError::EndianDecodeError { err });
            },
        };
        Ok(DnodeTail::Zero(DnodeTailZero { ptrs: Vec::new(), bonus: vstd::slice::slice_to_vec(bonus) }))
    } else if nblk == 1 && is_spill {
        let p0 = match BlockPointer::from_decoder(decoder) {
            Ok(v) => v,
            Err(err) => {
                return Err(DnodeDecodeError::BlockPointerDecodeError { err });
            },
        };
        let bonus = match decoder.get_bytes(192) {
            Ok(v) => v,
            Err(err) => {
                return Err(DnodeDecodeError::EndianDecodeError { err });
            },
        };
        let spill = match BlockPointer::from_decoder(decoder) {
            Ok(v) => v,
            Err(err) => {
                return Err(DnodeDecodeError::BlockPointerDecodeError { err });
            },
        };
        let mut ptrs: Vec<BlockPointer> = Vec::new();
        ptrs.push(p0);
        Ok(DnodeTail::Spill(DnodeTailSpill { ptrs, bonus: vstd::slice::slice_to_vec(bonus), spill }))
    } else if nblk == 1 {
        let p0 = match BlockPointer::from_decoder(decoder) {
            Ok(v) => v,
            Err(err) => {
                return Err(DnodeDecodeError::BlockPointerDecodeError { err });
            },
        };
        let bonus = match decoder.get_bytes(320) {
            Ok(v) => v,
            Err(err) => {
                return Err(DnodeDecodeError::EndianDecodeError { err });
            },
        };
        let mut ptrs: Vec<BlockPointer> = Vec::new();
        ptrs.push(p0);
        Ok(DnodeTail::One(DnodeTailOne { ptrs, bonus: vstd::slice::slice_to_vec(bonus) }))
    } else if nblk == 2 {
        let p0 = match BlockPointer::from_decoder(decoder) {
            Ok(v) => v,
            Err(err) => {
                return Err(DnodeDecodeError::BlockPointerDecodeError { err });
            },
        };
        let p1 = match BlockPointer::from_decoder(decoder) {
            Ok(v) => v,
            Err(err) => {
                return Err(DnodeDecodeError::BlockPointerDecodeError { err });
            },
        };
        let bonus = match decoder.get_bytes(192) {
            Ok(v) => v,
            Err(err) => {
                return Err(DnodeDecodeError::EndianDecodeError { err });
            },
        };
        let mut ptrs: Vec<BlockPointer> = Vec::new();
        ptrs.push(p0);
        ptrs.push(p1);
        Ok(DnodeTail::Two(DnodeTailTwo { ptrs, bonus: vstd::slice::slice_to_vec(bonus) }))
    } else if nblk == 3 {
        let p0 = match BlockPointer::from_decoder(decoder) {
            Ok(v) => v,
            Err(err) => {
                return Err(DnodeDecodeError::BlockPointerDecodeError { err });
            },
        };
        let p1 = match BlockPointer::from_decoder(decoder) {
            Ok(v) => v,
            Err(err) => {
                return Err(DnodeDecodeError::BlockPointerDecodeError { err });
            },
        };
        let p2 = match BlockPointer::from_decoder(decoder) {
            Ok(v) => v,
            Err(err) => {
                return Err(DnodeDecodeError::BlockPointerDecodeError { err });
            },
        };
        let bonus = match decoder.get_bytes(64) {
            Ok(v) => v,
            Err(err) => {
                return Err(DnodeDecodeError::EndianDecodeError { err });
            },
        };
        let mut ptrs: Vec<BlockPointer> = Vec::new();
        ptrs.push(p0);
        ptrs.push(p1);
        ptrs.push(p2);
        Ok(DnodeTail::Three(DnodeTailThree { ptrs, bonus: vstd::slice::slice_to_vec(bonus) }))
    } else {
        Err(DnodeDecodeError::InvalidBlockPointerCount { count: nblk })
    }
}


/// Encodes a dnode tail: its block pointers, the bonus run, and the
/// spill pointer where present. Succeeds exactly when the tail's
/// pointers fit their widths and the encoder has 448 bytes of room.
#[verifier::rlimit(100)]
fn encode_tail(encoder: &mut Encoder, tail: &DnodeTail) -> (r: Result<(), DnodeEncodeError>)
    requires
        old(encoder).wf(),
        tail_wf(*tail),
    ensures
        final(encoder).wf(),
        final(encoder).spec_endian() == old(encoder).spec_endian(),
        final(encoder).spec_data().len() == old(encoder).spec_data().len(),
        forall|i: int|
            0 <= i < old(encoder).spec_offset() ==> #[trigger] final(encoder).spec_data()[i]
                == old(encoder).spec_data()[i],
        ({
            let d = old(encoder).spec_data();
            let off = old(encoder).spec_offset();
            let e = old(encoder).spec_endian();
            &&& (tail_ptrs_valid(*tail) && off + 448 <= d.len()) ==> (r == Ok::<
                (),
                DnodeEncodeError,
            >(()) && final(encoder).spec_data() == spliced(d, off, tail_bytes(*tail, e)) && final(encoder).spec_offset() == off + 448)
            &&& r is Ok ==> (tail_ptrs_valid(*tail) && off + 448 <= d.len())
            &&& !(r is Ok) ==> r is Err
        }),
{
    let ghost d = old(encoder).spec_data();
    let ghost off = old(encoder).spec_offset();
    let ghost e = old(encoder).spec_endian();
    match tail {
        DnodeTail::Zero(x) => {
            match encoder.put_bytes(x.bonus.as_slice()) {
                Ok(()) => (),
                Err(err) => {
                    return Err(DnodeEncodeError::EndianEncodeError { err });
                },
            }
            proof {
                assert(forall|i: int|
                    0 <= i < old(encoder).spec_offset() ==> #[trigger] encoder.spec_data()[i]
                        == old(encoder).spec_data()[i]);
            }
        },
        DnodeTail::One(x) => {
            match bp_ref(&x.ptrs, 0).to_encoder(encoder) {
                Ok(()) => (),
                Err(err) => {
                    return Err(DnodeEncodeError::BlockPointerEncodeError { err });
                },
            }
            proof {
                assert(forall|i: int|
                    0 <= i < old(encoder).spec_offset() ==> #[trigger] encoder.spec_data()[i]
                        == old(encoder).spec_data()[i]);
            }
            match encoder.put_bytes(x.bonus.as_slice()) {
                Ok(()) => (),
                Err(err) => {
                    return Err(DnodeEncodeError::EndianEncodeError { err });
                },
            }
            proof {
                assert(forall|i: int|
                    0 <= i < old(encoder).spec_offset() ==> #[trigger] encoder.spec_data()[i]
                        == old(encoder).spec_data()[i]);
            }
            proof {
                lemma_bp_bytes_len(x.ptrs@[0], e);
                crate::endian::lemma_spliced_adjacent(d, off, bp_bytes(x.ptrs@[0], e), x.bonus@);
            }
        },
        DnodeTail::Two(x) => {
            match bp_ref(&x.ptrs, 0).to_encoder(encoder) {
                Ok(()) => (),
                Err(err) => {
                    return Err(DnodeEncodeError::BlockPointerEncodeError { err });
                },
            }
            proof {
                assert(forall|i: int|
                    0 <= i < old(encoder).spec_offset() ==> #[trigger] encoder.spec_data()[i]
                        == old(encoder).spec_data()[i]);
            }
            match bp_ref(&x.ptrs, 1).to_encoder(encoder) {
                Ok(()) => (),
                Err(err) => {
                    return Err(DnodeEncodeError::BlockPointerEncodeError { err });
                },
            }
            proof {
                assert(forall|i: int|
                    0 <= i < old(encoder).spec_offset() ==> #[trigger] encoder.spec_data()[i]
                        == old(encoder).spec_data()[i]);
            }
            match encoder.put_bytes(x.bonus.as_slice()) {
                Ok(()) => (),
                Err(err) => {
                    return Err(DnodeEncodeError::EndianEncodeError { err });
                },
            }
            proof {
                assert(forall|i: int|
                    0 <= i < old(encoder).spec_offset() ==> #[trigger] encoder.spec_data()[i]
                        == old(encoder).spec_data()[i]);
            }
            proof {
                let b0 = bp_bytes(x.ptrs@[0], e);
                let b1 = bp_bytes(x.ptrs@[1], e);
                lemma_bp_bytes_len(x.ptrs@[0], e);
                lemma_bp_bytes_len(x.ptrs@[1], e);
                crate::endian::lemma_spliced_adjacent(d, off, b0, b1);
                crate::endian::lemma_spliced_adjacent(d, off, b0 + b1, x.bonus@);
            }
        },
        DnodeTail::Three(x) => {
            match bp_ref(&x.ptrs, 0).to_encoder(encoder) {
                Ok(()) => (),
                Err(err) => {
                    return Err(DnodeEncodeError::BlockPointerEncodeError { err });
                },
            }
            proof {
                assert(forall|i: int|
                    0 <= i < old(encoder).spec_offset() ==> #[trigger] encoder.spec_data()[i]
                        == old(encoder).spec_data()[i]);
            }
            match bp_ref(&x.ptrs, 1).to_encoder(encoder) {
                Ok(()) => (),
                Err(err) => {
                    return Err(DnodeEncodeError::BlockPointerEncodeError { err });
                },
            }
            proof {
                assert(forall|i: int|
                    0 <= i < old(encoder).spec_offset() ==> #[trigger] encoder.spec_data()[i]
                        == old(encoder).spec_data()[i]);
            }
            match bp_ref(&x.ptrs, 2).to_encoder(encoder) {
                Ok(()) => (),
                Err(err) => {
                    return Err(DnodeEncodeError::BlockPointerEncodeError { err });
                },
            }
            proof {
                assert(forall|i: int|
                    0 <= i < old(encoder).spec_offset() ==> #[trigger] encoder.spec_data()[i]
                        == old(encoder).spec_data()[i]);
            }
            match encoder.put_bytes(x.bonus.as_slice()) {
                Ok(()) => (),
                Err(err) => {
                    return Err(DnodeEncodeError::EndianEncodeError { err });
                },
            }
            proof {
                assert(forall|i: int|
                    0 <= i < old(encoder).spec_offset() ==> #[trigger] encoder.spec_data()[i]
                        == old(encoder).spec_data()[i]);
            }
            proof {
                let b0 = bp_bytes(x.ptrs@[0], e);
                let b1 = bp_bytes(x.ptrs@[1], e);
                let b2 = bp_bytes(x.ptrs@[2], e);
                lemma_bp_bytes_len(x.ptrs@[0], e);
                lemma_bp_bytes_len(x.ptrs@[1], e);
                lemma_bp_bytes_len(x.ptrs@[2], e);
                crate::endian::lemma_spliced_adjacent(d, off, b0, b1);
                crate::endian::lemma_spliced_adjacent(d, off, b0 + b1, b2);
                crate::endian::lemma_spliced_adjacent(d, off, b0 + b1 + b2, x.bonus@);
            }
        },
        DnodeTail::Spill(x) => {
            match bp_ref(&x.ptrs, 0).to_encoder(encoder) {
                Ok(()) => (),
                Err(err) => {
                    return Err(DnodeEncodeError::BlockPointerEncodeError { err });
                },
            }
            proof {
                assert(forall|i: int|
                    0 <= i < old(encoder).spec_offset() ==> #[trigger] encoder.spec_data()[i]
                        == old(encoder).spec_data()[i]);
            }
            match encoder.put_bytes(x.bonus.as_slice()) {
                Ok(()) => (),
                Err(err) => {
                    return Err(DnodeEncodeError::EndianEncodeError { err });
                },
            }
            proof {
                assert(forall|i: int|
                    0 <= i < old(encoder).spec_offset() ==> #[trigger] encoder.spec_data()[i]
                        == old(encoder).spec_data()[i]);
            }
            match x.spill.to_encoder(encoder) {
                Ok(()) => (),
                Err(err) => {
                    return Err(DnodeEncodeError::BlockPointerEncodeError { err });
                },
            }
            proof {
                assert(forall|i: int|
                    0 <= i < old(encoder).spec_offset() ==> #[trigger] encoder.spec_data()[i]
                        == old(encoder).spec_data()[i]);
            }
            proof {
                let b0 = bp_bytes(x.ptrs@[0], e);
                let bs = bp_bytes(x.spill, e);
                lemma_bp_bytes_len(x.ptrs@[0], e);
                lemma_bp_bytes_len(x.spill, e);
                crate::endian::lemma_spliced_adjacent(d, off, b0, x.bonus@);
                crate::endian::lemma_spliced_adjacent(d, off, b0 + x.bonus@, bs);
            }
        },
    }
    Ok(())
}


/// The 448-byte length of a well-formed tail's encoding.
pub proof fn lemma_tail_bytes_len(t: DnodeTail, e: Endian)
    requires
        tail_wf(t),
    ensures
        tail_bytes(t, e).len() == 448,
{
    match t {
        DnodeTail::Zero(_) => {},
        DnodeTail::One(x) => {
            lemma_bp_bytes_len(x.ptrs@[0], e);
        },
        DnodeTail::Two(x) => {
            lemma_bp_bytes_len(x.ptrs@[0], e);
            lemma_bp_bytes_len(x.ptrs@[1], e);
        },
        DnodeTail::Three(x) => {
            lemma_bp_bytes_len(x.ptrs@[0], e);
            lemma_bp_bytes_len(x.ptrs@[1], e);
            lemma_bp_bytes_len(x.ptrs@[2], e);
        },
        DnodeTail::Spill(x) => {
            lemma_bp_bytes_len(x.ptrs@[0], e);
            lemma_bp_bytes_len(x.spill, e);
        },
    }
}

/// Writes the 64-byte dnode header: the type codes, the pointer count
/// and flags derived from the tail, the sizes, and the padded counters.
/// Succeeds exactly when the bonus length fits the tail's capacity and
/// the encoder has 64 bytes of room.
#[verifier::rlimit(100)]
fn encode_dnode_header(encoder: &mut Encoder, p: &Dnode) -> (r: Result<(), DnodeEncodeError>)
    requires
        old(encoder).wf(),
        tail_wf(p.tail),
    ensures
        final(encoder).wf(),
        final(encoder).spec_endian() == old(encoder).spec_endian(),
        final(encoder).spec_data().len() == old(encoder).spec_data().len(),
        forall|i: int|
            0 <= i < old(encoder).spec_offset() ==> #[trigger] final(encoder).spec_data()[i]
                == old(encoder).spec_data()[i],
        ({
            let d = old(encoder).spec_data();
            let off = old(encoder).spec_offset();
            let e = old(encoder).spec_endian();
            &&& (p.bonus_len <= tail_bonus_capacity(p.tail) && off + 64 <= d.len()) ==> (r == Ok::<
                (),
                DnodeEncodeError,
            >(()) && final(encoder).spec_data() == spliced(d, off, dnode_header_bytes(*p, e))
                && final(encoder).spec_offset() == off + 64)
            &&& (p.bonus_len > tail_bonus_capacity(p.tail) && off + 12 <= d.len()) ==> r == Err::<
                (),
                DnodeEncodeError,
            >((DnodeEncodeError::InvalidBonusLength { length: p.bonus_len }))
            &&& r is Ok ==> (p.bonus_len <= tail_bonus_capacity(p.tail) && off + 64 <= d.len())
            &&& !(r is Ok) ==> r is Err
        }),
{
    let ghost d = old(encoder).spec_data();
    let ghost off = old(encoder).spec_offset();
    let ghost e = old(encoder).spec_endian();
    let ghost s1 = seq![p.dmu.spec_value()];
    let ghost s2 = seq![p.indirect_block_shift];
    let ghost s3 = seq![p.levels];
    let ghost s4 = seq![tail_ptr_count(p.tail) as u8];
    let ghost s5 = seq![p.bonus_type.spec_value()];
    let ghost s6 = seq![p.checksum.spec_value()];
    let ghost s7 = seq![p.compression.spec_value()];
    let ghost s8 = seq![dnode_enc_flags(*p)];
    let ghost s9 = word16(p.data_block_size_sectors, e);
    let ghost s10 = word16(p.bonus_len, e);
    let ghost s11 = seq![p.extra_slots];
    let ghost s12 = Seq::new(3 as nat, |i: int| 0u8);
    let ghost s13 = word64(p.max_block_id, e);
    let ghost s14 = word64(p.used, e);
    let ghost s15 = Seq::new(32 as nat, |i: int| 0u8);
    match encoder.put_u8(p.dmu.to_u8()) {
        Ok(()) => (),
        Err(err) => {
            return Err(DnodeEncodeError::EndianEncodeError { err });
        },
    }
    proof {
        assert(encoder.spec_data() == spliced(d, off, s1));
    }
    match encoder.put_u8(p.indirect_block_shift) {
        Ok(()) => (),
        Err(err) => {
            return Err(DnodeEncodeError::EndianEncodeError { err });
        },
    }
    proof {
        crate::endian::lemma_spliced_adjacent(d, off, s1, s2);
        assert(encoder.spec_data() == spliced(d, off, s1 + s2));
    }
    match encoder.put_u8(p.levels) {
        Ok(()) => (),
        Err(err) => {
            return Err(DnodeEncodeError::EndianEncodeError { err });
        },
    }
    proof {
        crate::endian::lemma_spliced_adjacent(d, off, s1 + s2, s3);
        assert(encoder.spec_data() == spliced(d, off, s1 + s2 + s3));
    }
    let nblk: u8 = match &p.tail {
        DnodeTail::Zero(_) => 0,
        DnodeTail::One(_) => 1,
        DnodeTail::Two(_) => 2,
        DnodeTail::Three(_) => 3,
        DnodeTail::Spill(_) => 1,
    };
    match encoder.put_u8(nblk) {
        Ok(()) => (),
        Err(err) => {
            return Err(DnodeEncodeError::EndianEncodeError { err });
        },
    }
    proof {
        crate::endian::lemma_spliced_adjacent(d, off, s1 + s2 + s3, s4);
        assert(encoder.spec_data() == spliced(d, off, s1 + s2 + s3 + s4));
    }
    match encoder.put_u8(p.bonus_type.to_u8()) {
        Ok(()) => (),
        Err(err) => {
            return Err(DnodeEncodeError::EndianEncodeError { err });
        },
    }
    proof {
        crate::endian::lemma_spliced_adjacent(d, off, s1 + s2 + s3 + s4, s5);
        assert(encoder.spec_data() == spliced(d, off, s1 + s2 + s3 + s4 + s5));
    }
    match encoder.put_u8(p.checksum.to_u8()) {
        Ok(()) => (),
        Err(err) => {
            return Err(DnodeEncodeError::EndianEncodeError { err });
        },
    }
    proof {
        crate::endian::lemma_spliced_adjacent(d, off, s1 + s2 + s3 + s4 + s5, s6);
        assert(encoder.spec_data() == spliced(d, off, s1 + s2 + s3 + s4 + s5 + s6));
    }
    match encoder.put_u8(p.compression.to_u8()) {
        Ok(()) => (),
        Err(err) => {
            return Err(DnodeEncodeError::EndianEncodeError { err });
        },
    }
    proof {
        crate::endian::lemma_spliced_adjacent(d, off, s1 + s2 + s3 + s4 + s5 + s6, s7);
        assert(encoder.spec_data() == spliced(d, off, s1 + s2 + s3 + s4 + s5 + s6 + s7));
    }
    let flags: u8 = (if p.used_is_bytes {
        DNODE_FLAG_USED_BYTES
    } else {
        0
    }) | (if p.user_used_accounted {
        DNODE_FLAG_USER_USED_ACCOUNTED
    } else {
        0
    }) | (if p.user_obj_used_accounted {
        DNODE_FLAG_USER_OBJ_USED_ACCOUNTED
    } else {
        0
    }) | (match &p.tail {
        DnodeTail::Spill(_) => DNODE_FLAG_SPILL_BLOCK_POINTER,
        _ => 0,
    });
    match encoder.put_u8(flags) {
        Ok(()) => (),
        Err(err) => {
            return Err(DnodeEncodeError::EndianEncodeError { err });
        },
    }
    proof {
        crate::endian::lemma_spliced_adjacent(d, off, s1 + s2 + s3 + s4 + s5 + s6 + s7, s8);
        assert(encoder.spec_data() == spliced(d, off, s1 + s2 + s3 + s4 + s5 + s6 + s7 + s8));
    }
    match encoder.put_u16(p.data_block_size_sectors) {
        Ok(()) => (),
        Err(err) => {
            return Err(DnodeEncodeError::EndianEncodeError { err });
        },
    }
    proof {
        crate::endian::lemma_spliced_adjacent(d, off, s1 + s2 + s3 + s4 + s5 + s6 + s7 + s8, s9);
        assert(encoder.spec_data() == spliced(d, off, s1 + s2 + s3 + s4 + s5 + s6 + s7 + s8 + s9));
    }
    let capacity: u16 = match &p.tail {
        DnodeTail::Zero(_) => 448,
        DnodeTail::One(_) => 320,
        DnodeTail::Two(_) => 192,
        DnodeTail::Three(_) => 64,
        DnodeTail::Spill(_) => 192,
    };
    if p.bonus_len > capacity {
        return Err(DnodeEncodeError::InvalidBonusLength { length: p.bonus_len });
    }
    match encoder.put_u16(p.bonus_len) {
        Ok(()) => (),
        Err(err) => {
            return Err(DnodeEncodeError::EndianEncodeError { err });
        },
    }
    proof {
        crate::endian::lemma_spliced_adjacent(d, off, s1 + s2 + s3 + s4 + s5 + s6 + s7 + s8 + s9, s10);
        assert(encoder.spec_data() == spliced(d, off, s1 + s2 + s3 + s4 + s5 + s6 + s7 + s8 + s9 + s10));
    }
    match encoder.put_u8(p.extra_slots) {
        Ok(()) => (),
        Err(err) => {
            return Err(DnodeEncodeError::EndianEncodeError { err });
        },
    }
    proof {
        crate::endian::lemma_spliced_adjacent(d, off, s1 + s2 + s3 + s4 + s5 + s6 + s7 + s8 + s9 + s10, s11);
        assert(encoder.spec_data() == spliced(d, off, s1 + s2 + s3 + s4 + s5 + s6 + s7 + s8 + s9 + s10 + s11));
    }
    match encoder.put_zero_padding(3) {
        Ok(()) => (),
        Err(err) => {
            return Err(DnodeEncodeError::EndianEncodeError { err });
        },
    }
    proof {
        crate::endian::lemma_spliced_adjacent(d, off, s1 + s2 + s3 + s4 + s5 + s6 + s7 + s8 + s9 + s10 + s11, s12);
        assert(encoder.spec_data() == spliced(d, off, s1 + s2 + s3 + s4 + s5 + s6 + s7 + s8 + s9 + s10 + s11 + s12));
    }
    match encoder.put_u64(p.max_block_id) {
        Ok(()) => (),
        Err(err) => {
            return Err(DnodeEncodeError::EndianEncodeError { err });
        },
    }
    proof {
        crate::endian::lemma_spliced_adjacent(d, off, s1 + s2 + s3 + s4 + s5 + s6 + s7 + s8 + s9 + s10 + s11 + s12, s13);
        assert(encoder.spec_data() == spliced(d, off, s1 + s2 + s3 + s4 + s5 + s6 + s7 + s8 + s9 + s10 + s11 + s12 + s13));
    }
    match encoder.put_u64(p.used) {
        Ok(()) => (),
        Err(err) => {
            return Err(DnodeEncodeError::EndianEncodeError { err });
        },
    }
    proof {
        crate::endian::lemma_spliced_adjacent(d, off, s1 + s2 + s3 + s4 + s5 + s6 + s7 + s8 + s9 + s10 + s11 + s12 + s13, s14);
        assert(encoder.spec_data() == spliced(d, off, s1 + s2 + s3 + s4 + s5 + s6 + s7 + s8 + s9 + s10 + s11 + s12 + s13 + s14));
    }
    match encoder.put_zero_padding(32) {
        Ok(()) => (),
        Err(err) => {
            return Err(DnodeEncodeError::EndianEncodeError { err });
        },
    }
    proof {
        crate::endian::lemma_spliced_adjacent(d, off, s1 + s2 + s3 + s4 + s5 + s6 + s7 + s8 + s9 + s10 + s11 + s12 + s13 + s14, s15);
        assert(encoder.spec_data() == spliced(d, off, s1 + s2 + s3 + s4 + s5 + s6 + s7 + s8 + s9 + s10 + s11 + s12 + s13 + s14 + s15));
    }
    proof {
        assert(s1 + s2 + s3 + s4 + s5 + s6 + s7 + s8 + s9 + s10 + s11 + s12 + s13 + s14 + s15 == dnode_header_bytes(*p, e));
        assert(forall|i: int| 0 <= i < off ==> #[trigger] encoder.spec_data()[i] == d[i]);
    }
    Ok(())
}


/// Reads one block pointer of a vector.
fn bp_ref<'a>(v: &'a Vec<BlockPointer>, i: usize) -> (r: &'a BlockPointer)
    requires
        i < v@.len(),
    ensures
        *r == v@[i as int],
{
    &v[i]
}


} // verus!
