//! The four-word shape every checksum projects into.

use vstd::prelude::*;

use crate::endian::{word64, word64_of, Decoder, DecodeError, Encoder, EncodeError, spliced, Endian};

verus! {

/// The four 64-bit words at offset `off` of `d`, in the order given by `e`.
pub open spec fn words_at(d: Seq<u8>, off: int, e: Endian) -> Seq<u64>
    recommends
        0 <= off,
        off + 32 <= d.len(),
{
    seq![
        word64_of(d.subrange(off, off + 8), e),
        word64_of(d.subrange(off + 8, off + 16), e),
        word64_of(d.subrange(off + 16, off + 24), e),
        word64_of(d.subrange(off + 24, off + 32), e),
    ]
}

/// The 32-byte encoding of four 64-bit words in the order given by `e`.
pub open spec fn words_bytes(w: Seq<u64>, e: Endian) -> Seq<u8>
    recommends
        w.len() == 4,
{
    word64(w[0], e) + word64(w[1], e) + word64(w[2], e) + word64(w[3], e)
}

/// A checksum as four 64-bit words in native order.
#[derive(Clone, Copy, Debug, PartialEq, Eq)]
pub struct ChecksumValue {
    pub words: [u64; 4],
}

impl ChecksumValue {
    /// Decodes a checksum value: four 64-bit words.
    pub fn from_decoder(decoder: &mut Decoder) -> (r: Result<ChecksumValue, DecodeError>)
        requires
            old(decoder).wf(),
        ensures
            final(decoder).wf(),
            final(decoder).spec_data() == old(decoder).spec_data(),
            final(decoder).spec_endian() == old(decoder).spec_endian(),
            ({
                let d = old(decoder).spec_data();
                let off = old(decoder).spec_offset();
                if off + 32 <= d.len() {
                    (r matches Ok(v) && v.words@ == words_at(d, off, old(decoder).spec_endian())
                        && final(decoder).spec_offset() == off + 32)
                } else {
                    let done = (d.len() - off) / 8;
                    r == Err::<ChecksumValue, DecodeError>(
                        DecodeError::EndOfInput {
                            offset: (off + 8 * done) as usize,
                            length: d.len() as usize,
                            count: 8,
                        },
                    ) && final(decoder).spec_offset() == off + 8 * done
                }
            }),
    {
        let w0 = match decoder.get_u64() {
            Ok(v) => v,
            Err(e) => {
                return Err(e);
            },
        };
        let w1 = match decoder.get_u64() {
            Ok(v) => v,
            Err(e) => {
                return Err(e);
            },
        };
        let w2 = match decoder.get_u64() {
            Ok(v) => v,
            Err(e) => {
                return Err(e);
            },
        };
        let w3 = match decoder.get_u64() {
            Ok(v) => v,
            Err(e) => {
                return Err(e);
            },
        };
        let v = ChecksumValue { words: [w0, w1, w2, w3] };
        proof {
            assert(v.words@ =~= words_at(
                old(decoder).spec_data(),
                old(decoder).spec_offset(),
                old(decoder).spec_endian(),
            ));
        }
        Ok(v)
    }

    /// Encodes a checksum value: four 64-bit words.
    pub fn to_encoder(&self, encoder: &mut Encoder) -> (r: Result<(), EncodeError>)
        requires
            old(encoder).wf(),
        ensures
            final(encoder).wf(),
            final(encoder).spec_endian() == old(encoder).spec_endian(),
            final(encoder).spec_data().len() == old(encoder).spec_data().len(),
            ({
                let d = old(encoder).spec_data();
                let off = old(encoder).spec_offset();
                if off + 32 <= d.len() {
                    (r == Ok::<(), EncodeError>(()) && final(encoder).spec_data() == spliced(
                        d,
                        off,
                        words_bytes(self.words@, old(encoder).spec_endian()),
                    ) && final(encoder).spec_offset() == off + 32)
                } else {
                    let done = (d.len() - off) / 8;
                    r == Err::<(), EncodeError>(
                        EncodeError::EndOfOutput {
                            offset: (off + 8 * done) as usize,
                            length: d.len() as usize,
                            count: 8,
                        },
                    ) && final(encoder).spec_offset() == off + 8 * done && (forall|i: int|
                        0 <= i < off ==> #[trigger] final(encoder).spec_data()[i] == d[i])
                }
            }),
    {
        match encoder.put_u64(self.words[0]) {
            Ok(()) => (),
            Err(e) => {
                return Err(e);
            },
        }
        match encoder.put_u64(self.words[1]) {
            Ok(()) => (),
            Err(e) => {
                return Err(e);
            },
        }
        match encoder.put_u64(self.words[2]) {
            Ok(()) => (),
            Err(e) => {
                return Err(e);
            },
        }
        match encoder.put_u64(self.words[3]) {
            Ok(()) => (),
            Err(e) => {
                return Err(e);
            },
        }
        proof {
            let d0 = old(encoder).spec_data();
            let off = old(encoder).spec_offset();
            let e = old(encoder).spec_endian();
            let w0b = word64(self.words@[0], e);
            let w1b = word64(self.words@[1], e);
            let w2b = word64(self.words@[2], e);
            let w3b = word64(self.words@[3], e);
            crate::endian::lemma_spliced_adjacent(d0, off, w0b, w1b);
            crate::endian::lemma_spliced_adjacent(d0, off, w0b + w1b, w2b);
            crate::endian::lemma_spliced_adjacent(d0, off, w0b + w1b + w2b, w3b);
            assert(words_bytes(self.words@, e) == w0b + w1b + w2b + w3b);
            assert(encoder.spec_data() == spliced(d0, off, words_bytes(self.words@, e)));
        }
        Ok(())
    }
}

} // verus!
