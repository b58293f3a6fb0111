//! The 192-byte intent-log header.

use vstd::prelude::*;

use crate::endian::{spliced, word64, Decoder, DecodeError, Encoder, EncodeError, Endian};
use crate::phys::block_pointer::{
    bp_bytes, bp_decode_ok, bp_valid, is_bp_decoded, lemma_bp_bytes_len, word64_at, BlockPointer,
    BlockPointerDecodeError, BlockPointerEncodeError,
};

verus! {

/// Byte length of an encoded intent-log header.
pub const ZIL_HEADER_LENGTH: usize = 192;

/// An intent-log header: claim bookkeeping around one log pointer.
#[derive(Clone, Debug, PartialEq)]
pub struct ZilHeader {
    pub claim_blk_seq: u64,
    pub claim_lr_seq: u64,
    pub claim_txg: u64,
    pub flags: u64,
    pub log: BlockPointer,
    pub replay_seq: u64,
}

/// True when the 192 bytes at `off` decode as an intent-log header.
pub open spec fn zil_decode_ok(d: Seq<u8>, off: int, e: Endian) -> bool {
    &&& off + 192 <= d.len()
    &&& bp_decode_ok(d, off + 16, e)
    &&& forall|i: int| off + 168 <= i < off + 192 ==> d[i] == 0
}

/// The fields an intent-log header decoded from the 192 bytes at `off`
/// must carry.
pub open spec fn is_zil_decoded(z: ZilHeader, d: Seq<u8>, off: int, e: Endian) -> bool {
    &&& z.claim_txg == word64_at(d, off, e)
    &&& z.replay_seq == word64_at(d, off + 8, e)
    &&& is_bp_decoded(z.log, d, off + 16, e)
    &&& z.claim_blk_seq == word64_at(d, off + 144, e)
    &&& z.flags == word64_at(d, off + 152, e)
    &&& z.claim_lr_seq == word64_at(d, off + 160, e)
}

/// The 192-byte encoding of an intent-log header in the order given by
/// `e`.
pub open spec fn zil_bytes(z: ZilHeader, e: Endian) -> Seq<u8> {
    word64(z.claim_txg, e) + word64(z.replay_seq, e) + bp_bytes(z.log, e) + word64(
        z.claim_blk_seq,
        e,
    ) + word64(z.flags, e) + word64(z.claim_lr_seq, e) + Seq::new(24 as nat, |i: int| 0u8)
}

/// A failure while decoding an intent-log header.
#[derive(Debug, PartialEq)]
pub enum ZilHeaderDecodeError {
    /// The log block pointer does not decode.
    BlockPointerDecodeError { err: BlockPointerDecodeError },
    /// The underlying byte decoder failed.
    EndianDecodeError { err: DecodeError },
}

/// A failure while encoding an intent-log header.
#[derive(Debug, PartialEq)]
pub enum ZilHeaderEncodeError {
    /// The log block pointer does not encode.
    BlockPointerEncodeError { err: BlockPointerEncodeError },
    /// The underlying byte encoder failed.
    EndianEncodeError { err: EncodeError },
}

impl ZilHeader {
    /// Decodes an intent-log header: the claim transaction group and
    /// replay sequence, the log pointer, the claim sequences and flags,
    /// and zero padding. Succeeds exactly when [`zil_decode_ok`] holds
    /// of the 192 bytes at the decoder's position.
    pub fn from_decoder(decoder: &mut Decoder) -> (r: Result<ZilHeader, ZilHeaderDecodeError>)
        requires
            old(decoder).wf(),
        ensures
            final(decoder).wf(),
            final(decoder).spec_data() == old(decoder).spec_data(),
            final(decoder).spec_endian() == old(decoder).spec_endian(),
            ({
                let d = old(decoder).spec_data();
                let off = old(decoder).spec_offset();
                let e = old(decoder).spec_endian();
                &&& zil_decode_ok(d, off, e) ==> (r matches Ok(z) && is_zil_decoded(z, d, off, e)
                    && final(decoder).spec_offset() == off + 192)
                &&& !zil_decode_ok(d, off, e) ==> r is Err
                &&& (off + 192 <= d.len() && bp_decode_ok(d, off + 16, e) && !zil_decode_ok(
                    d,
                    off,
                    e,
                )) ==> r == Err::<ZilHeader, ZilHeaderDecodeError>(
                    (ZilHeaderDecodeError::EndianDecodeError {
                        err: DecodeError::NonZeroPadding {},
                    }),
                )
            }),
    {
        let claim_txg = match decoder.get_u64() {
            Ok(v) => v,
            Err(err) => {
                return Err(ZilHeaderDecodeError::EndianDecodeError { err });
            },
        };
        let replay_seq = match decoder.get_u64() {
            Ok(v) => v,
            Err(err) => {
                return Err(ZilHeaderDecodeError::EndianDecodeError { err });
            },
        };
        let log = match BlockPointer::from_decoder(decoder) {
            Ok(v) => v,
            Err(err) => {
                return Err(ZilHeaderDecodeError::BlockPointerDecodeError { err });
            },
        };
        let claim_blk_seq = match decoder.get_u64() {
            Ok(v) => v,
            Err(err) => {
                return Err(ZilHeaderDecodeError::EndianDecodeError { err });
            },
        };
        let flags = match decoder.get_u64() {
            Ok(v) => v,
            Err(err) => {
                return Err(ZilHeaderDecodeError::EndianDecodeError { err });
            },
        };
        let claim_lr_seq = match decoder.get_u64() {
            Ok(v) => v,
            Err(err) => {
                return Err(ZilHeaderDecodeError::EndianDecodeError { err });
            },
        };
        match decoder.skip_zero_padding(24) {
            Ok(()) => (),
            Err(err) => {
                return Err(ZilHeaderDecodeError::EndianDecodeError { err });
            },
        }
        Ok(ZilHeader { claim_blk_seq, claim_lr_seq, claim_txg, flags, log, replay_seq })
    }

    /// Encodes an intent-log header. Succeeds exactly when the log
    /// pointer's fields fit their widths and the encoder has 192 bytes
    /// of room.
    pub fn to_encoder(&self, encoder: &mut Encoder) -> (r: Result<(), ZilHeaderEncodeError>)
        requires
            old(encoder).wf(),
        ensures
            final(encoder).wf(),
            final(encoder).spec_endian() == old(encoder).spec_endian(),
            final(encoder).spec_data().len() == old(encoder).spec_data().len(),
            forall|i: int|
                0 <= i < old(encoder).spec_offset() ==> #[trigger] final(encoder).spec_data()[i]
                    == old(encoder).spec_data()[i],
            ({
                let d = old(encoder).spec_data();
                let off = old(encoder).spec_offset();
                let e = old(encoder).spec_endian();
                &&& (bp_valid(self.log) && off + 192 <= d.len()) ==> (r == Ok::<
                    (),
                    ZilHeaderEncodeError,
                >(()) && final(encoder).spec_data() == spliced(d, off, zil_bytes(*self, e))
                    && final(encoder).spec_offset() == off + 192)
                &&& !(r is Ok) ==> r is Err
            }),
    {
        let ghost d = old(encoder).spec_data();
        let ghost off = old(encoder).spec_offset();
        let ghost e = old(encoder).spec_endian();
        match encoder.put_u64(self.claim_txg) {
            Ok(()) => (),
            Err(err) => {
                return Err(ZilHeaderEncodeError::EndianEncodeError { err });
            },
        }
        proof {
            assert(forall|i: int|
                0 <= i < old(encoder).spec_offset() ==> #[trigger] encoder.spec_data()[i] == old(
                    encoder,
                ).spec_data()[i]);
        }
        match encoder.put_u64(self.replay_seq) {
            Ok(()) => (),
            Err(err) => {
                return Err(ZilHeaderEncodeError::EndianEncodeError { err });
            },
        }
        proof {
            assert(forall|i: int|
                0 <= i < old(encoder).spec_offset() ==> #[trigger] encoder.spec_data()[i] == old(
                    encoder,
                ).spec_data()[i]);
        }
        match self.log.to_encoder(encoder) {
            Ok(()) => (),
            Err(err) => {
                return Err(ZilHeaderEncodeError::BlockPointerEncodeError { err });
            },
        }
        proof {
            assert(forall|i: int|
                0 <= i < old(encoder).spec_offset() ==> #[trigger] encoder.spec_data()[i] == old(
                    encoder,
                ).spec_data()[i]);
        }
        match encoder.put_u64(self.claim_blk_seq) {
            Ok(()) => (),
            Err(err) => {
                return Err(ZilHeaderEncodeError::EndianEncodeError { err });
            },
        }
        proof {
            assert(forall|i: int|
                0 <= i < old(encoder).spec_offset() ==> #[trigger] encoder.spec_data()[i] == old(
                    encoder,
                ).spec_data()[i]);
        }
        match encoder.put_u64(self.flags) {
            Ok(()) => (),
            Err(err) => {
                return Err(ZilHeaderEncodeError::EndianEncodeError { err });
            },
        }
        proof {
            assert(forall|i: int|
                0 <= i < old(encoder).spec_offset() ==> #[trigger] encoder.spec_data()[i] == old(
                    encoder,
                ).spec_data()[i]);
        }
        match encoder.put_u64(self.claim_lr_seq) {
            Ok(()) => (),
            Err(err) => {
                return Err(ZilHeaderEncodeError::EndianEncodeError { err });
            },
        }
        proof {
            assert(forall|i: int|
                0 <= i < old(encoder).spec_offset() ==> #[trigger] encoder.spec_data()[i] == old(
                    encoder,
                ).spec_data()[i]);
        }
        match encoder.put_zero_padding(24) {
            Ok(()) => (),
            Err(err) => {
                return Err(ZilHeaderEncodeError::EndianEncodeError { err });
            },
        }
        proof {
            assert(forall|i: int|
                0 <= i < old(encoder).spec_offset() ==> #[trigger] encoder.spec_data()[i] == old(
                    encoder,
                ).spec_data()[i]);
        }
        proof {
            lemma_bp_bytes_len(self.log, e);
            let b1 = word64(self.claim_txg, e);
            let b2 = word64(self.replay_seq, e);
            let b3 = bp_bytes(self.log, e);
            let b4 = word64(self.claim_blk_seq, e);
            let b5 = word64(self.flags, e);
            let b6 = word64(self.claim_lr_seq, e);
            let b7 = Seq::new(24 as nat, |i: int| 0u8);
            crate::endian::lemma_spliced_adjacent(d, off, b1, b2);
            crate::endian::lemma_spliced_adjacent(d, off, b1 + b2, b3);
            crate::endian::lemma_spliced_adjacent(d, off, b1 + b2 + b3, b4);
            crate::endian::lemma_spliced_adjacent(d, off, b1 + b2 + b3 + b4, b5);
            crate::endian::lemma_spliced_adjacent(d, off, b1 + b2 + b3 + b4 + b5, b6);
            crate::endian::lemma_spliced_adjacent(d, off, b1 + b2 + b3 + b4 + b5 + b6, b7);
            assert(zil_bytes(*self, e) == b1 + b2 + b3 + b4 + b5 + b6 + b7);
        }
        Ok(())
    }
}

} // verus!
