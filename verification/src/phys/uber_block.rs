//! The 1024-byte uberblock: the pool's entry point, protected by the
//! label checksum and self-describing in its byte order.

use vstd::prelude::*;

use crate::checksum::label::{
    label_checksum, label_checksummed, label_verified, label_verify, label_verify_post,
    LabelChecksumError, LabelVerifyError,
};
use crate::endian::{spliced, word64, word64_of, Decoder, DecodeError, Encoder, EncodeError,
    Endian};
use crate::phys::block_pointer::{
    bp_bytes, bp_decode_ok, bp_valid, is_bp_decoded, lemma_bp_bytes_len, word64_at, BlockPointer,
    BlockPointerDecodeError, BlockPointerEncodeError,
};

verus! {

/// Byte length of an encoded uberblock.
pub const UBER_BLOCK_LENGTH: usize = 1024;

/// Magic value of an encoded uberblock.
pub const UBER_BLOCK_MAGIC: u64 = 0x00bab10c;

/// Magic value of an active multi-modifier-protection triple.
pub const MMP_MAGIC: u64 = 0x00000000a11cea11;

/// An uberblock's multi-modifier-protection triple.
#[derive(Clone, Copy, Debug, PartialEq, Eq, Structural)]
pub struct UberBlockMmp {
    pub delay: u64,
    pub config: u64,
}

/// An uberblock.
#[derive(Clone, Debug, PartialEq)]
pub struct UberBlock {
    pub checkpoint_txg: u64,
    pub endian: Endian,
    pub guid_sum: u64,
    pub mmp: Option<UberBlockMmp>,
    pub ptr: BlockPointer,
    pub software_version: u64,
    pub timestamp: u64,
    pub txg: u64,
    pub version: u64,
}

/// The byte order named by an uberblock's leading magic, if either
/// order matches.
pub open spec fn ub_magic_endian(d: Seq<u8>) -> Option<Endian> {
    let mb = d.subrange(0, 8);
    if word64_of(mb, Endian::Little) == UBER_BLOCK_MAGIC {
        Some(Endian::Little)
    } else if word64_of(mb, Endian::Big) == UBER_BLOCK_MAGIC {
        Some(Endian::Big)
    } else {
        None
    }
}

/// True when the 1024 bytes decode as an uberblock at device offset
/// `offset`: the label checksum verifies, the magic names a byte order,
/// the block pointer decodes, the multi-modifier-protection words are
/// consistent, and the padding is zero.
pub open spec fn ub_decode_ok(d: Seq<u8>, offset: u64) -> bool {
    &&& d.len() == 1024
    &&& label_verified(d, offset)
    &&& ub_magic_endian(d) is Some
    &&& {
        let e = ub_magic_endian(d)->0;
        let m = word64_at(d, 176, e);
        &&& bp_decode_ok(d, 40, e)
        &&& (m == 0 ==> word64_at(d, 184, e) == 0 && word64_at(d, 192, e) == 0)
        &&& (m == 0 || m == MMP_MAGIC)
        &&& (forall|i: int| 208 <= i < 984 ==> d[i] == 0)
    }
}

/// The fields an uberblock decoded from 1024 bytes at device offset
/// `offset` must carry.
pub open spec fn is_ub_decoded(u: UberBlock, d: Seq<u8>, offset: u64) -> bool {
    let e = ub_magic_endian(d)->0;
    let m = word64_at(d, 176, e);
    &&& u.endian == e
    &&& u.version == word64_at(d, 8, e)
    &&& u.txg == word64_at(d, 16, e)
    &&& u.guid_sum == word64_at(d, 24, e)
    &&& u.timestamp == word64_at(d, 32, e)
    &&& is_bp_decoded(u.ptr, d, 40, e)
    &&& u.software_version == word64_at(d, 168, e)
    &&& (m == 0 ==> u.mmp is None)
    &&& (m == MMP_MAGIC ==> u.mmp == Some(
        UberBlockMmp { delay: word64_at(d, 184, e), config: word64_at(d, 192, e) },
    ))
    &&& u.checkpoint_txg == word64_at(d, 200, e)
}

/// The 984 bytes an uberblock writes before the checksum tail: the
/// magic, the fields, the block pointer, the multi-modifier-protection
/// words, and zero padding.
pub open spec fn ub_body_bytes(u: UberBlock) -> Seq<u8> {
    let e = u.endian;
    word64(UBER_BLOCK_MAGIC, e) + word64(u.version, e) + word64(u.txg, e) + word64(u.guid_sum, e)
        + word64(u.timestamp, e) + bp_bytes(u.ptr, e) + word64(u.software_version, e) + (match u.mmp {
        Some(m) => word64(MMP_MAGIC, e) + word64(m.delay, e) + word64(m.config, e),
        None => Seq::new(24 as nat, |i: int| 0u8),
    }) + word64(u.checkpoint_txg, e) + Seq::new(776 as nat, |i: int| 0u8)
}

/// A failure while decoding an uberblock.
#[derive(Debug, PartialEq)]
pub enum UberBlockDecodeError {
    /// The block pointer does not decode.
    BlockPointerDecodeError { err: BlockPointerDecodeError },
    /// The underlying byte decoder failed.
    EndianDecodeError { err: DecodeError },
    /// The multi-modifier-protection magic is neither zero nor the
    /// known value.
    InvalidMmpMagic { magic: u64 },
    /// The label checksum does not verify.
    LabelVerifyError { err: LabelVerifyError },
    /// The multi-modifier-protection magic is zero but its values are
    /// not.
    NonZeroMmpValues { delay: u64, config: u64 },
}

/// A failure while encoding an uberblock.
#[derive(Debug, PartialEq)]
pub enum UberBlockEncodeError {
    /// The block pointer does not encode.
    BlockPointerEncodeError { err: BlockPointerEncodeError },
    /// The underlying byte encoder failed.
    EndianEncodeError { err: EncodeError },
    /// The label checksum could not be written.
    LabelChecksumError { err: LabelChecksumError },
}

impl UberBlock {
    /// Decodes an uberblock from its 1024 bytes at device offset
    /// `offset`: the label checksum is verified first, then the magic
    /// names the byte order and the fields follow. Succeeds exactly
    /// when [`ub_decode_ok`] holds.
    #[verifier::rlimit(100)]
    pub fn from_bytes(bytes: &[u8], offset: u64) -> (r: Result<UberBlock, UberBlockDecodeError>)
        requires
            bytes@.len() == 1024,
        ensures
            ub_decode_ok(bytes@, offset) ==> (r matches Ok(u) && is_ub_decoded(u, bytes@, offset)),
            !ub_decode_ok(bytes@, offset) ==> r is Err,
            !label_verified(bytes@, offset) ==> (r matches Err(
                UberBlockDecodeError::LabelVerifyError { err },
            ) && label_verify_post(bytes@, offset, Err(err))),
            ({
                let d = bytes@;
                let pre = label_verified(d, offset) && ub_magic_endian(d) is Some && bp_decode_ok(
                    d,
                    40,
                    ub_magic_endian(d)->0,
                );
                let e = ub_magic_endian(d)->0;
                let m = word64_at(d, 176, e);
                &&& (pre && m != 0 && m != MMP_MAGIC) ==> r == Err::<
                    UberBlock,
                    UberBlockDecodeError,
                >((UberBlockDecodeError::InvalidMmpMagic { magic: m }))
                &&& (pre && m == 0 && !(word64_at(d, 184, e) == 0 && word64_at(d, 192, e) == 0))
                    ==> r == Err::<UberBlock, UberBlockDecodeError>(
                    (UberBlockDecodeError::NonZeroMmpValues {
                        delay: word64_at(d, 184, e),
                        config: word64_at(d, 192, e),
                    }),
                )
                &&& (pre && (m == 0 ==> word64_at(d, 184, e) == 0 && word64_at(d, 192, e) == 0)
                    && (m == 0 || m == MMP_MAGIC) && (exists|i: int|
                    208 <= i < 984 && d[i] != 0)) ==> r == Err::<UberBlock, UberBlockDecodeError>(
                    (UberBlockDecodeError::EndianDecodeError {
                        err: DecodeError::NonZeroPadding {},
                    }),
                )
            }),
    {
        match label_verify(bytes, offset) {
            Ok(()) => (),
            Err(err) => {
                return Err(UberBlockDecodeError::LabelVerifyError { err });
            },
        }
        let mut decoder = match Decoder::from_u64_magic(bytes, UBER_BLOCK_MAGIC) {
            Ok(v) => v,
            Err(err) => {
                return Err(UberBlockDecodeError::EndianDecodeError { err });
            },
        };
        let version = match decoder.get_u64() {
            Ok(v) => v,
            Err(err) => {
                return Err(UberBlockDecodeError::EndianDecodeError { err });
            },
        };
        let txg = match decoder.get_u64() {
            Ok(v) => v,
            Err(err) => {
                return Err(UberBlockDecodeError::EndianDecodeError { err });
            },
        };
        let guid_sum = match decoder.get_u64() {
            Ok(v) => v,
            Err(err) => {
                return Err(UberBlockDecodeError::EndianDecodeError { err });
            },
        };
        let timestamp = match decoder.get_u64() {
            Ok(v) => v,
            Err(err) => {
                return Err(UberBlockDecodeError::EndianDecodeError { err });
            },
        };
        let ptr = match BlockPointer::from_decoder(&mut decoder) {
            Ok(v) => v,
            Err(err) => {
                return Err(UberBlockDecodeError::BlockPointerDecodeError { err });
            },
        };
        let software_version = match decoder.get_u64() {
            Ok(v) => v,
            Err(err) => {
                return Err(UberBlockDecodeError::EndianDecodeError { err });
            },
        };
        let mmp_magic = match decoder.get_u64() {
            Ok(v) => v,
            Err(err) => {
                return Err(UberBlockDecodeError::EndianDecodeError { err });
            },
        };
        let mmp_delay = match decoder.get_u64() {
            Ok(v) => v,
            Err(err) => {
                return Err(UberBlockDecodeError::EndianDecodeError { err });
            },
        };
        let mmp_config = match decoder.get_u64() {
            Ok(v) => v,
            Err(err) => {
                return Err(UberBlockDecodeError::EndianDecodeError { err });
            },
        };
        let mmp: Option<UberBlockMmp>;
        if mmp_magic == 0 {
            if mmp_delay != 0 || mmp_config != 0 {
                return Err(
                    UberBlockDecodeError::NonZeroMmpValues {
                        delay: mmp_delay,
                        config: mmp_config,
                    },
                );
            }
            mmp = None;
        } else if mmp_magic == MMP_MAGIC {
            mmp = Some(UberBlockMmp { config: mmp_config, delay: mmp_delay });
        } else {
            return Err(UberBlockDecodeError::InvalidMmpMagic { magic: mmp_magic });
        }
        let checkpoint_txg = match decoder.get_u64() {
            Ok(v) => v,
            Err(err) => {
                return Err(UberBlockDecodeError::EndianDecodeError { err });
            },
        };
        match decoder.skip_zero_padding(776) {
            Ok(()) => (),
            Err(err) => {
                return Err(UberBlockDecodeError::EndianDecodeError { err });
            },
        }
        Ok(
            UberBlock {
                checkpoint_txg,
                endian: decoder.endian(),
                guid_sum,
                mmp,
                ptr,
                software_version,
                timestamp,
                txg,
                version,
            },
        )
    }

    /// Encodes an uberblock into its 1024 bytes at device offset
    /// `offset`: the body is written in the uberblock's byte order and
    /// the label checksum then seals the region. Succeeds exactly when
    /// the block pointer's fields fit their widths.
    #[verifier::rlimit(100)]
    pub fn to_bytes(&self, bytes: &mut Vec<u8>, offset: u64) -> (r: Result<
        (),
        UberBlockEncodeError,
    >)
        requires
            old(bytes)@.len() == 1024,
        ensures
            final(bytes)@.len() == 1024,
            bp_valid(self.ptr) ==> (r == Ok::<(), UberBlockEncodeError>(()) && final(bytes)@
                == label_checksummed(
                spliced(old(bytes)@, 0, ub_body_bytes(*self)),
                offset,
                self.endian,
            )),
            !bp_valid(self.ptr) ==> r is Err,
    {        let mut buf: Vec<u8> = Vec::new();
        core::mem::swap(bytes, &mut buf);
        let mut encoder = Encoder::to_bytes(buf, self.endian);
        let res = self.encode_body(&mut encoder);
        let mut out = encoder.finish();
        core::mem::swap(bytes, &mut out);
        match res {
            Ok(()) => (),
            Err(err) => {
                return Err(err);
            },
        }
        match label_checksum(bytes, offset, self.endian) {
            Ok(()) => (),
            Err(err) => {
                return Err(UberBlockEncodeError::LabelChecksumError { err });
            },
        }
        Ok(())
    }

    /// Writes the 984-byte body of an uberblock from the start of the
    /// encoder. Succeeds exactly when the block pointer's fields fit
    /// their widths.
    #[verifier::rlimit(100)]
    fn encode_body(&self, encoder: &mut Encoder) -> (r: Result<(), UberBlockEncodeError>)
        requires
            old(encoder).wf(),
            old(encoder).spec_offset() == 0,
            old(encoder).spec_data().len() == 1024,
            old(encoder).spec_endian() == self.endian,
        ensures
            final(encoder).wf(),
            final(encoder).spec_data().len() == 1024,
            bp_valid(self.ptr) ==> (r == Ok::<(), UberBlockEncodeError>(()) && final(encoder).spec_data() == spliced(old(encoder).spec_data(), 0, ub_body_bytes(*self))),
            !bp_valid(self.ptr) ==> r is Err,
    {

        let ghost d0 = old(encoder).spec_data();
        let ghost e = self.endian;
        let ghost s1 = word64(UBER_BLOCK_MAGIC, e);
        let ghost s2 = word64(self.version, e);
        let ghost s3 = word64(self.txg, e);
        let ghost s4 = word64(self.guid_sum, e);
        let ghost s5 = word64(self.timestamp, e);
        let ghost s6 = bp_bytes(self.ptr, e);
        let ghost s7 = word64(self.software_version, e);
        let ghost s8 = (match self.mmp {
            Some(m) => word64(MMP_MAGIC, e) + word64(m.delay, e) + word64(m.config, e),
            None => Seq::new(24 as nat, |i: int| 0u8),
        });
        let ghost s9 = word64(self.checkpoint_txg, e);
        let ghost s10 = Seq::new(776 as nat, |i: int| 0u8);
        proof {
            lemma_bp_bytes_len(self.ptr, e);
        }
        match encoder.put_u64(UBER_BLOCK_MAGIC) {
            Ok(()) => (),
            Err(err) => {
                return Err(UberBlockEncodeError::EndianEncodeError { err });
            },
        }
        match encoder.put_u64(self.version) {
            Ok(()) => (),
            Err(err) => {
                return Err(UberBlockEncodeError::EndianEncodeError { err });
            },
        }
        match encoder.put_u64(self.txg) {
            Ok(()) => (),
            Err(err) => {
                return Err(UberBlockEncodeError::EndianEncodeError { err });
            },
        }
        match encoder.put_u64(self.guid_sum) {
            Ok(()) => (),
            Err(err) => {
                return Err(UberBlockEncodeError::EndianEncodeError { err });
            },
        }
        match encoder.put_u64(self.timestamp) {
            Ok(()) => (),
            Err(err) => {
                return Err(UberBlockEncodeError::EndianEncodeError { err });
            },
        }
        proof {
            crate::endian::lemma_spliced_adjacent(d0, 0, s1, s2);
            crate::endian::lemma_spliced_adjacent(d0, 0, s1 + s2, s3);
            crate::endian::lemma_spliced_adjacent(d0, 0, s1 + s2 + s3, s4);
            crate::endian::lemma_spliced_adjacent(d0, 0, s1 + s2 + s3 + s4, s5);
            assert(encoder.spec_data() == spliced(d0, 0, s1 + s2 + s3 + s4 + s5));
        }
        match self.ptr.to_encoder(encoder) {
            Ok(()) => (),
            Err(err) => {
                return Err(UberBlockEncodeError::BlockPointerEncodeError { err });
            },
        }
        match encoder.put_u64(self.software_version) {
            Ok(()) => (),
            Err(err) => {
                return Err(UberBlockEncodeError::EndianEncodeError { err });
            },
        }
        proof {
            crate::endian::lemma_spliced_adjacent(d0, 0, s1 + s2 + s3 + s4 + s5, s6);
            crate::endian::lemma_spliced_adjacent(d0, 0, s1 + s2 + s3 + s4 + s5 + s6, s7);
            assert(encoder.spec_data() == spliced(d0, 0, s1 + s2 + s3 + s4 + s5 + s6 + s7));
        }
        match &self.mmp {
            Some(mmp) => {
                match encoder.put_u64(MMP_MAGIC) {
                    Ok(()) => (),
                    Err(err) => {
                        return Err(UberBlockEncodeError::EndianEncodeError { err });
                    },
                }
                match encoder.put_u64(mmp.delay) {
                    Ok(()) => (),
                    Err(err) => {
                        return Err(UberBlockEncodeError::EndianEncodeError { err });
                    },
                }
                match encoder.put_u64(mmp.config) {
                    Ok(()) => (),
                    Err(err) => {
                        return Err(UberBlockEncodeError::EndianEncodeError { err });
                    },
                }
                proof {
                    let base = s1 + s2 + s3 + s4 + s5 + s6 + s7;
                    crate::endian::lemma_spliced_adjacent(d0, 0, base, word64(MMP_MAGIC, e));
                    crate::endian::lemma_spliced_adjacent(
                        d0,
                        0,
                        base + word64(MMP_MAGIC, e),
                        word64(mmp.delay, e),
                    );
                    crate::endian::lemma_spliced_adjacent(
                        d0,
                        0,
                        base + word64(MMP_MAGIC, e) + word64(mmp.delay, e),
                        word64(mmp.config, e),
                    );
                    assert(base + word64(MMP_MAGIC, e) + word64(mmp.delay, e) + word64(
                        mmp.config,
                        e,
                    ) == base + s8);
                    assert(encoder.spec_data() == spliced(d0, 0, base + s8));
                }
            },
            None => {
                match encoder.put_zero_padding(24) {
                    Ok(()) => (),
                    Err(err) => {
                        return Err(UberBlockEncodeError::EndianEncodeError { err });
                    },
                }
                proof {
                    let base = s1 + s2 + s3 + s4 + s5 + s6 + s7;
                    crate::endian::lemma_spliced_adjacent(d0, 0, base, s8);
                    assert(encoder.spec_data() == spliced(d0, 0, base + s8));
                }
            },
        }
        match encoder.put_u64(self.checkpoint_txg) {
            Ok(()) => (),
            Err(err) => {
                return Err(UberBlockEncodeError::EndianEncodeError { err });
            },
        }
        match encoder.put_zero_padding(776) {
            Ok(()) => (),
            Err(err) => {
                return Err(UberBlockEncodeError::EndianEncodeError { err });
            },
        }
        proof {
            let base = s1 + s2 + s3 + s4 + s5 + s6 + s7 + s8;
            crate::endian::lemma_spliced_adjacent(d0, 0, base, s9);
            crate::endian::lemma_spliced_adjacent(d0, 0, base + s9, s10);
            assert(encoder.spec_data() == spliced(d0, 0, base + s9 + s10));
            assert(ub_body_bytes(*self) == base + s9 + s10);
        }
        Ok(())
    }
}

} // verus!
