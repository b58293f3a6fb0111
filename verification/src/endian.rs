//! Endian-aware binary decoder and encoder.
//!
//! [`Decoder`] reads fixed-width integers and byte runs from a borrowed
//! slice; [`Encoder`] writes them into an owned buffer of fixed capacity.
//! Both carry an [`Endian`] tag that fixes the byte order of every
//! multi-byte integer.

use vstd::prelude::*;

verus! {

/// Byte order of encoded integers.
#[derive(Clone, Copy, Debug, PartialEq, Eq, Structural)]
pub enum Endian {
    Big,
    Little,
}

/// The two bytes of `v` in the order given by `e`.
pub open spec fn word16(v: u16, e: Endian) -> Seq<u8> {
    match e {
        Endian::Big => seq![((v >> 8) & 0xff) as u8, (v & 0xff) as u8],
        Endian::Little => seq![(v & 0xff) as u8, ((v >> 8) & 0xff) as u8],
    }
}

/// The four bytes of `v` in the order given by `e`.
pub open spec fn word32(v: u32, e: Endian) -> Seq<u8> {
    match e {
        Endian::Big => seq![
            ((v >> 24) & 0xff) as u8,
            ((v >> 16) & 0xff) as u8,
            ((v >> 8) & 0xff) as u8,
            (v & 0xff) as u8,
        ],
        Endian::Little => seq![
            (v & 0xff) as u8,
            ((v >> 8) & 0xff) as u8,
            ((v >> 16) & 0xff) as u8,
            ((v >> 24) & 0xff) as u8,
        ],
    }
}

/// The eight bytes of `v` in the order given by `e`.
pub open spec fn word64(v: u64, e: Endian) -> Seq<u8> {
    match e {
        Endian::Big => seq![
            ((v >> 56) & 0xff) as u8,
            ((v >> 48) & 0xff) as u8,
            ((v >> 40) & 0xff) as u8,
            ((v >> 32) & 0xff) as u8,
            ((v >> 24) & 0xff) as u8,
            ((v >> 16) & 0xff) as u8,
            ((v >> 8) & 0xff) as u8,
            (v & 0xff) as u8,
        ],
        Endian::Little => seq![
            (v & 0xff) as u8,
            ((v >> 8) & 0xff) as u8,
            ((v >> 16) & 0xff) as u8,
            ((v >> 24) & 0xff) as u8,
            ((v >> 32) & 0xff) as u8,
            ((v >> 40) & 0xff) as u8,
            ((v >> 48) & 0xff) as u8,
            ((v >> 56) & 0xff) as u8,
        ],
    }
}

/// The integer read from two bytes in the order given by `e`.
pub open spec fn word16_of(s: Seq<u8>, e: Endian) -> u16
    recommends
        s.len() == 2,
{
    match e {
        Endian::Big => ((s[0] as u16) << 8) | (s[1] as u16),
        Endian::Little => ((s[1] as u16) << 8) | (s[0] as u16),
    }
}

/// The integer read from four bytes in the order given by `e`.
pub open spec fn word32_of(s: Seq<u8>, e: Endian) -> u32
    recommends
        s.len() == 4,
{
    match e {
        Endian::Big => ((s[0] as u32) << 24) | ((s[1] as u32) << 16) | ((s[2] as u32) << 8) | (
        s[3] as u32),
        Endian::Little => ((s[3] as u32) << 24) | ((s[2] as u32) << 16) | ((s[1] as u32) << 8) | (
        s[0] as u32),
    }
}

/// The integer read from eight bytes in the order given by `e`.
pub open spec fn word64_of(s: Seq<u8>, e: Endian) -> u64
    recommends
        s.len() == 8,
{
    match e {
        Endian::Big => ((s[0] as u64) << 56) | ((s[1] as u64) << 48) | ((s[2] as u64) << 40) | ((
        s[3] as u64) << 32) | ((s[4] as u64) << 24) | ((s[5] as u64) << 16) | ((s[6] as u64) << 8)
            | (s[7] as u64),
        Endian::Little => ((s[7] as u64) << 56) | ((s[6] as u64) << 48) | ((s[5] as u64) << 40) | ((
        s[4] as u64) << 32) | ((s[3] as u64) << 24) | ((s[2] as u64) << 16) | ((s[1] as u64) << 8)
            | (s[0] as u64),
    }
}

/// Reading back the bytes of a 16-bit word yields the word.
pub proof fn lemma_word16_roundtrip(v: u16, e: Endian)
    ensures
        word16_of(word16(v, e), e) == v,
{
    assert((((((v >> 8) & 0xff) as u8) as u16) << 8) | (((v & 0xff) as u8) as u16) == v)
        by (bit_vector);
}

/// Reading back the bytes of a 32-bit word yields the word.
pub proof fn lemma_word32_roundtrip(v: u32, e: Endian)
    ensures
        word32_of(word32(v, e), e) == v,
{
    assert(((((v >> 24) & 0xff) as u8) as u32) << 24 | ((((v >> 16) & 0xff) as u8) as u32) << 16 | (
    (((v >> 8) & 0xff) as u8) as u32) << 8 | (((v & 0xff) as u8) as u32) == v) by (bit_vector);
}

/// Reading back the bytes of a 64-bit word yields the word.
pub proof fn lemma_word64_roundtrip(v: u64, e: Endian)
    ensures
        word64_of(word64(v, e), e) == v,
{
    assert(((((v >> 56) & 0xff) as u8) as u64) << 56 | ((((v >> 48) & 0xff) as u8) as u64) << 48 | (
    (((v >> 40) & 0xff) as u8) as u64) << 40 | ((((v >> 32) & 0xff) as u8) as u64) << 32 | ((((v
        >> 24) & 0xff) as u8) as u64) << 24 | ((((v >> 16) & 0xff) as u8) as u64) << 16 | ((((v
        >> 8) & 0xff) as u8) as u64) << 8 | (((v & 0xff) as u8) as u64) == v) by (bit_vector);
}

/// Writing back the word read from eight bytes yields the same bytes.
pub proof fn lemma_word64_of_roundtrip(s: Seq<u8>, e: Endian)
    requires
        s.len() == 8,
    ensures
        word64(word64_of(s, e), e) == s,
{
    let b0 = s[0];
    let b1 = s[1];
    let b2 = s[2];
    let b3 = s[3];
    let b4 = s[4];
    let b5 = s[5];
    let b6 = s[6];
    let b7 = s[7];
    let v = ((b0 as u64) << 56) | ((b1 as u64) << 48) | ((b2 as u64) << 40) | ((b3 as u64) << 32)
        | ((b4 as u64) << 24) | ((b5 as u64) << 16) | ((b6 as u64) << 8) | (b7 as u64);
    assert(((v >> 56) & 0xff) as u8 == b0 && ((v >> 48) & 0xff) as u8 == b1 && ((v >> 40)
        & 0xff) as u8 == b2 && ((v >> 32) & 0xff) as u8 == b3 && ((v >> 24) & 0xff) as u8 == b4 && (
    (v >> 16) & 0xff) as u8 == b5 && ((v >> 8) & 0xff) as u8 == b6 && (v & 0xff) as u8 == b7)
        by (bit_vector)
        requires
            v == ((b0 as u64) << 56) | ((b1 as u64) << 48) | ((b2 as u64) << 40) | ((
            b3 as u64) << 32) | ((b4 as u64) << 24) | ((b5 as u64) << 16) | ((b6 as u64) << 8) | (
            b7 as u64),
    ;
    match e {
        Endian::Big => {
            assert(word64_of(s, Endian::Big) == v);
            assert(word64(v, Endian::Big) =~= s);
        },
        Endian::Little => {
            let w = word64_of(s, Endian::Little);
            assert(((w >> 56) & 0xff) as u8 == b7 && ((w >> 48) & 0xff) as u8 == b6 && ((w >> 40)
                & 0xff) as u8 == b5 && ((w >> 32) & 0xff) as u8 == b4 && ((w >> 24)
                & 0xff) as u8 == b3 && ((w >> 16) & 0xff) as u8 == b2 && ((w >> 8)
                & 0xff) as u8 == b1 && (w & 0xff) as u8 == b0)
                by (bit_vector)
                requires
                    w == ((b7 as u64) << 56) | ((b6 as u64) << 48) | ((b5 as u64) << 40) | ((
                    b4 as u64) << 32) | ((b3 as u64) << 24) | ((b2 as u64) << 16) | ((
                    b1 as u64) << 8) | (b0 as u64),
            ;
            assert(word64(w, Endian::Little) =~= s);
        },
    }
}

/// A failure while decoding.
#[derive(Debug, PartialEq, Eq)]
pub enum DecodeError {
    /// The input ends before `count` more bytes could be read.
    EndOfInput { offset: usize, length: usize, count: usize },
    /// The leading magic matches neither byte order.
    InvalidMagic { expected: u64, actual: [u8; 8] },
    /// A skipped padding region holds a non-zero byte.
    NonZeroPadding {},
    /// A rewind of `count` bytes would move before the start.
    RewindPastStart { offset: usize, count: usize },
}

/// A failure while encoding.
#[derive(Debug, PartialEq, Eq)]
pub enum EncodeError {
    /// The output has no room for `count` more bytes.
    EndOfOutput { offset: usize, length: usize, count: usize },
}

/// A binary decoder over a borrowed byte slice.
pub struct Decoder<'a> {
    data: &'a [u8],
    offset: usize,
    endian: Endian,
}

impl<'a> Decoder<'a> {
    /// The bytes being decoded.
    pub closed spec fn spec_data(&self) -> Seq<u8> {
        self.data@
    }

    /// The current read position.
    pub closed spec fn spec_offset(&self) -> int {
        self.offset as int
    }

    /// The byte order used for integers.
    pub closed spec fn spec_endian(&self) -> Endian {
        self.endian
    }

    /// The read position never passes the end of the data.
    pub open spec fn wf(&self) -> bool {
        0 <= self.spec_offset() <= self.spec_data().len()
    }

    /// The bytes not yet consumed.
    pub open spec fn spec_remaining(&self) -> int {
        self.spec_data().len() - self.spec_offset()
    }

    /// Starts a decoder at the beginning of `data` with the given byte order.
    pub fn from_bytes(data: &'a [u8], endian: Endian) -> (r: Decoder<'a>)
        ensures
            r.wf(),
            r.spec_data() == data@,
            r.spec_offset() == 0,
            r.spec_endian() == endian,
    {
        Decoder { data, offset: 0, endian }
    }

    /// Starts a decoder whose byte order is inferred from the first eight
    /// bytes: they must encode `magic` in either order, and the matching
    /// order becomes the decoder's. The decoder starts past the magic.
    pub fn from_u64_magic(data: &'a [u8], magic: u64) -> (r: Result<Decoder<'a>, DecodeError>)
        ensures
            data@.len() < 8 ==> r == Err::<Decoder<'a>, DecodeError>(
                DecodeError::EndOfInput { offset: 0, length: data@.len() as usize, count: 8 },
            ),
            data@.len() >= 8 ==> {
                let first = data@.subrange(0, 8);
                &&& word64_of(first, Endian::Little) == magic ==> (r matches Ok(d) && d.wf()
                    && d.spec_data() == data@ && d.spec_offset() == 8 && d.spec_endian()
                    == Endian::Little)
                &&& (word64_of(first, Endian::Little) != magic && word64_of(first, Endian::Big)
                    == magic) ==> (r matches Ok(d) && d.wf() && d.spec_data() == data@
                    && d.spec_offset() == 8 && d.spec_endian() == Endian::Big)
                &&& (word64_of(first, Endian::Little) != magic && word64_of(first, Endian::Big)
                    != magic) ==> (r matches Err(e) && e matches DecodeError::InvalidMagic {
                    expected,
                    actual,
                } && expected == magic && actual@ =~= Seq::new(8, |i: int| first[7 - i]))
            },
    {
        let mut decoder = Decoder::from_bytes(data, Endian::Little);
        let data_magic = match decoder.get_u64() {
            Ok(v) => v,
            Err(e) => {
                return Err(e);
            },
        };
        if data_magic != magic {
            decoder.endian = Endian::Big;
            let ghost first = data@.subrange(0, 8);
            decoder.offset = 0;
            let swapped = match decoder.get_u64() {
                Ok(v) => v,
                Err(e) => {
                    return Err(e);
                },
            };
            if swapped != magic {
                let actual: [u8; 8] = [
                    *self_index(data, 7),
                    *self_index(data, 6),
                    *self_index(data, 5),
                    *self_index(data, 4),
                    *self_index(data, 3),
                    *self_index(data, 2),
                    *self_index(data, 1),
                    *self_index(data, 0),
                ];
                proof {
                    assert(actual@ =~= Seq::new(8, |i: int| first[7 - i]));
                }
                return Err(DecodeError::InvalidMagic { expected: magic, actual });
            }
        }
        Ok(decoder)
    }

    /// The total length of the data.
    pub fn capacity(&self) -> (r: usize)
        ensures
            r == self.spec_data().len(),
    {
        self.data.len()
    }

    /// The byte order used for integers.
    pub fn endian(&self) -> (r: Endian)
        ensures
            r == self.spec_endian(),
    {
        self.endian
    }

    /// True when no bytes remain.
    pub fn is_empty(&self) -> (r: bool)
        requires
            self.wf(),
        ensures
            r == (self.spec_remaining() == 0),
    {
        self.len() == 0
    }

    /// The number of bytes not yet consumed.
    pub fn len(&self) -> (r: usize)
        requires
            self.wf(),
        ensures
            r == self.spec_remaining(),
    {
        self.data.len() - self.offset
    }

    /// Moves the read position back to the start.
    pub fn reset(&mut self)
        ensures
            final(self).spec_data() == old(self).spec_data(),
            final(self).spec_endian() == old(self).spec_endian(),
            final(self).spec_offset() == 0,
            final(self).wf(),
    {
        self.offset = 0;
    }

    /// Advances past the next `count` bytes.
    pub fn skip(&mut self, count: usize) -> (r: Result<(), DecodeError>)
        requires
            old(self).wf(),
        ensures
            final(self).spec_data() == old(self).spec_data(),
            final(self).spec_endian() == old(self).spec_endian(),
            final(self).wf(),
            old(self).spec_offset() + count <= old(self).spec_data().len() ==> (r == Ok::<
                (),
                DecodeError,
            >(()) && final(self).spec_offset() == old(self).spec_offset() + count),
            old(self).spec_offset() + count > old(self).spec_data().len() ==> (r == Err::<
                (),
                DecodeError,
            >(
                DecodeError::EndOfInput {
                    offset: old(self).spec_offset() as usize,
                    length: old(self).spec_data().len() as usize,
                    count: count,
                },
            ) && final(self).spec_offset() == old(self).spec_offset()),
    {
        if count > self.data.len() - self.offset {
            return Err(
                DecodeError::EndOfInput {
                    offset: self.offset,
                    length: self.data.len(),
                    count: count,
                },
            );
        }
        self.offset = self.offset + count;
        Ok(())
    }

    /// Advances past the next `count` bytes, which must all be zero.
    pub fn skip_zero_padding(&mut self, count: usize) -> (r: Result<(), DecodeError>)
        requires
            old(self).wf(),
        ensures
            final(self).spec_data() == old(self).spec_data(),
            final(self).spec_endian() == old(self).spec_endian(),
            final(self).wf(),
            ({
                let off = old(self).spec_offset();
                let d = old(self).spec_data();
                if off + count > d.len() {
                    r == Err::<(), DecodeError>(
                        DecodeError::EndOfInput {
                            offset: off as usize,
                            length: d.len() as usize,
                            count: count,
                        },
                    ) && final(self).spec_offset() == off
                } else if exists|i: int| off <= i < off + count && d[i] != 0 {
                    r == Err::<(), DecodeError>(DecodeError::NonZeroPadding {})
                        && final(self).spec_offset() == off
                } else {
                    r == Ok::<(), DecodeError>(()) && final(self).spec_offset() == off + count
                }
            }),
    {
        if count > self.data.len() - self.offset {
            return Err(
                DecodeError::EndOfInput {
                    offset: self.offset,
                    length: self.data.len(),
                    count: count,
                },
            );
        }
        let offset = self.offset;
        let mut idx: usize = offset;
        while idx < offset + count
            invariant
                offset == self.spec_offset(),
                offset <= idx <= offset + count,
                offset + count <= self.spec_data().len(),
                self.spec_data().len() <= usize::MAX,
                forall|i: int| offset <= i < idx ==> self.spec_data()[i] == 0,
            decreases offset + count - idx,
        {
            if *self_index(self.data, idx) != 0 {
                return Err(DecodeError::NonZeroPadding {});
            }
            idx = idx + 1;
        }
        self.offset = offset + count;
        Ok(())
    }

    /// Moves the read position back by `count` bytes.
    pub fn rewind(&mut self, count: usize) -> (r: Result<(), DecodeError>)
        requires
            old(self).wf(),
        ensures
            final(self).spec_data() == old(self).spec_data(),
            final(self).spec_endian() == old(self).spec_endian(),
            final(self).wf(),
            count <= old(self).spec_offset() ==> (r == Ok::<(), DecodeError>(())
                && final(self).spec_offset() == old(self).spec_offset() - count),
            count > old(self).spec_offset() ==> (r == Err::<(), DecodeError>(
                DecodeError::RewindPastStart {
                    offset: old(self).spec_offset() as usize,
                    count: count,
                },
            ) && final(self).spec_offset() == old(self).spec_offset()),
    {
        if count > self.offset {
            return Err(DecodeError::RewindPastStart { offset: self.offset, count: count });
        }
        self.offset = self.offset - count;
        Ok(())
    }

    /// Reads the next two bytes.
    pub fn get_2_bytes(&mut self) -> (r: Result<[u8; 2], DecodeError>)
        requires
            old(self).wf(),
        ensures
            final(self).spec_data() == old(self).spec_data(),
            final(self).spec_endian() == old(self).spec_endian(),
            final(self).wf(),
            old(self).spec_offset() + 2 <= old(self).spec_data().len() ==> (r matches Ok(b) && b@
                =~= old(self).spec_data().subrange(
                old(self).spec_offset(),
                old(self).spec_offset() + 2,
            ) && final(self).spec_offset() == old(self).spec_offset() + 2),
            old(self).spec_offset() + 2 > old(self).spec_data().len() ==> (r == Err::<
                [u8; 2],
                DecodeError,
            >(
                DecodeError::EndOfInput {
                    offset: old(self).spec_offset() as usize,
                    length: old(self).spec_data().len() as usize,
                    count: 2,
                },
            ) && final(self).spec_offset() == old(self).spec_offset()),
    {
        if 2 > self.data.len() - self.offset {
            return Err(
                DecodeError::EndOfInput { offset: self.offset, length: self.data.len(), count: 2 },
            );
        }
        let start = self.offset;
        let b: [u8; 2] = [*self_index(self.data, start), *self_index(self.data, start + 1)];
        self.offset = start + 2;
        proof {
            assert(b@ =~= old(self).spec_data().subrange(start as int, start + 2));
        }
        Ok(b)
    }

    /// Reads the next four bytes.
    pub fn get_4_bytes(&mut self) -> (r: Result<[u8; 4], DecodeError>)
        requires
            old(self).wf(),
        ensures
            final(self).spec_data() == old(self).spec_data(),
            final(self).spec_endian() == old(self).spec_endian(),
            final(self).wf(),
            old(self).spec_offset() + 4 <= old(self).spec_data().len() ==> (r matches Ok(b) && b@
                =~= old(self).spec_data().subrange(
                old(self).spec_offset(),
                old(self).spec_offset() + 4,
            ) && final(self).spec_offset() == old(self).spec_offset() + 4),
            old(self).spec_offset() + 4 > old(self).spec_data().len() ==> (r == Err::<
                [u8; 4],
                DecodeError,
            >(
                DecodeError::EndOfInput {
                    offset: old(self).spec_offset() as usize,
                    length: old(self).spec_data().len() as usize,
                    count: 4,
                },
            ) && final(self).spec_offset() == old(self).spec_offset()),
    {
        if 4 > self.data.len() - self.offset {
            return Err(
                DecodeError::EndOfInput { offset: self.offset, length: self.data.len(), count: 4 },
            );
        }
        let start = self.offset;
        let b: [u8; 4] = [
            *self_index(self.data, start),
            *self_index(self.data, start + 1),
            *self_index(self.data, start + 2),
            *self_index(self.data, start + 3),
        ];
        self.offset = start + 4;
        proof {
            assert(b@ =~= old(self).spec_data().subrange(start as int, start + 4));
        }
        Ok(b)
    }

    /// Reads the next eight bytes.
    pub fn get_8_bytes(&mut self) -> (r: Result<[u8; 8], DecodeError>)
        requires
            old(self).wf(),
        ensures
            final(self).spec_data() == old(self).spec_data(),
            final(self).spec_endian() == old(self).spec_endian(),
            final(self).wf(),
            old(self).spec_offset() + 8 <= old(self).spec_data().len() ==> (r matches Ok(b) && b@
                =~= old(self).spec_data().subrange(
                old(self).spec_offset(),
                old(self).spec_offset() + 8,
            ) && final(self).spec_offset() == old(self).spec_offset() + 8),
            old(self).spec_offset() + 8 > old(self).spec_data().len() ==> (r == Err::<
                [u8; 8],
                DecodeError,
            >(
                DecodeError::EndOfInput {
                    offset: old(self).spec_offset() as usize,
                    length: old(self).spec_data().len() as usize,
                    count: 8,
                },
            ) && final(self).spec_offset() == old(self).spec_offset()),
    {
        if 8 > self.data.len() - self.offset {
            return Err(
                DecodeError::EndOfInput { offset: self.offset, length: self.data.len(), count: 8 },
            );
        }
        let start = self.offset;
        let b: [u8; 8] = [
            *self_index(self.data, start),
            *self_index(self.data, start + 1),
            *self_index(self.data, start + 2),
            *self_index(self.data, start + 3),
            *self_index(self.data, start + 4),
            *self_index(self.data, start + 5),
            *self_index(self.data, start + 6),
            *self_index(self.data, start + 7),
        ];
        self.offset = start + 8;
        proof {
            assert(b@ =~= old(self).spec_data().subrange(start as int, start + 8));
        }
        Ok(b)
    }

    /// Reads the next `length` bytes. Byte order plays no part here.
    pub fn get_bytes(&mut self, length: usize) -> (r: Result<&'a [u8], DecodeError>)
        requires
            old(self).wf(),
        ensures
            final(self).spec_data() == old(self).spec_data(),
            final(self).spec_endian() == old(self).spec_endian(),
            final(self).wf(),
            old(self).spec_offset() + length <= old(self).spec_data().len() ==> (r matches Ok(b)
                && b@ =~= old(self).spec_data().subrange(
                old(self).spec_offset(),
                old(self).spec_offset() + length,
            ) && final(self).spec_offset() == old(self).spec_offset() + length),
            old(self).spec_offset() + length > old(self).spec_data().len() ==> (r == Err::<
                &'a [u8],
                DecodeError,
            >(
                DecodeError::EndOfInput {
                    offset: old(self).spec_offset() as usize,
                    length: old(self).spec_data().len() as usize,
                    count: length,
                },
            ) && final(self).spec_offset() == old(self).spec_offset()),
    {
        if length > self.data.len() - self.offset {
            return Err(
                DecodeError::EndOfInput {
                    offset: self.offset,
                    length: self.data.len(),
                    count: length,
                },
            );
        }
        let start = self.offset;
        let value = vstd::slice::slice_subrange(self.data, start, start + length);
        self.offset = start + length;
        Ok(value)
    }

    /// Reads one byte.
    pub fn get_u8(&mut self) -> (r: Result<u8, DecodeError>)
        requires
            old(self).wf(),
        ensures
            final(self).spec_data() == old(self).spec_data(),
            final(self).spec_endian() == old(self).spec_endian(),
            final(self).wf(),
            old(self).spec_offset() + 1 <= old(self).spec_data().len() ==> (r == Ok::<
                u8,
                DecodeError,
            >(old(self).spec_data()[old(self).spec_offset()]) && final(self).spec_offset() == old(
                self,
            ).spec_offset() + 1),
            old(self).spec_offset() + 1 > old(self).spec_data().len() ==> (r == Err::<
                u8,
                DecodeError,
            >(
                DecodeError::EndOfInput {
                    offset: old(self).spec_offset() as usize,
                    length: old(self).spec_data().len() as usize,
                    count: 1,
                },
            ) && final(self).spec_offset() == old(self).spec_offset()),
    {
        if 1 > self.data.len() - self.offset {
            return Err(
                DecodeError::EndOfInput { offset: self.offset, length: self.data.len(), count: 1 },
            );
        }
        let value = *self_index(self.data, self.offset);
        self.offset = self.offset + 1;
        Ok(value)
    }

    /// Reads a 16-bit integer in the decoder's byte order.
    pub fn get_u16(&mut self) -> (r: Result<u16, DecodeError>)
        requires
            old(self).wf(),
        ensures
            final(self).spec_data() == old(self).spec_data(),
            final(self).spec_endian() == old(self).spec_endian(),
            final(self).wf(),
            old(self).spec_offset() + 2 <= old(self).spec_data().len() ==> (r == Ok::<
                u16,
                DecodeError,
            >(
                word16_of(
                    old(self).spec_data().subrange(
                        old(self).spec_offset(),
                        old(self).spec_offset() + 2,
                    ),
                    old(self).spec_endian(),
                ),
            ) && final(self).spec_offset() == old(self).spec_offset() + 2),
            old(self).spec_offset() + 2 > old(self).spec_data().len() ==> (r == Err::<
                u16,
                DecodeError,
            >(
                DecodeError::EndOfInput {
                    offset: old(self).spec_offset() as usize,
                    length: old(self).spec_data().len() as usize,
                    count: 2,
                },
            ) && final(self).spec_offset() == old(self).spec_offset()),
    {
        let b = match self.get_2_bytes() {
            Ok(v) => v,
            Err(e) => {
                return Err(e);
            },
        };
        match self.endian {
            Endian::Big => Ok(((b[0] as u16) << 8) | (b[1] as u16)),
            Endian::Little => Ok(((b[1] as u16) << 8) | (b[0] as u16)),
        }
    }

    /// Reads a 32-bit integer in the decoder's byte order.
    pub fn get_u32(&mut self) -> (r: Result<u32, DecodeError>)
        requires
            old(self).wf(),
        ensures
            final(self).spec_data() == old(self).spec_data(),
            final(self).spec_endian() == old(self).spec_endian(),
            final(self).wf(),
            old(self).spec_offset() + 4 <= old(self).spec_data().len() ==> (r == Ok::<
                u32,
                DecodeError,
            >(
                word32_of(
                    old(self).spec_data().subrange(
                        old(self).spec_offset(),
                        old(self).spec_offset() + 4,
                    ),
                    old(self).spec_endian(),
                ),
            ) && final(self).spec_offset() == old(self).spec_offset() + 4),
            old(self).spec_offset() + 4 > old(self).spec_data().len() ==> (r == Err::<
                u32,
                DecodeError,
            >(
                DecodeError::EndOfInput {
                    offset: old(self).spec_offset() as usize,
                    length: old(self).spec_data().len() as usize,
                    count: 4,
                },
            ) && final(self).spec_offset() == old(self).spec_offset()),
    {
        let b = match self.get_4_bytes() {
            Ok(v) => v,
            Err(e) => {
                return Err(e);
            },
        };
        match self.endian {
            Endian::Big => Ok(
                ((b[0] as u32) << 24) | ((b[1] as u32) << 16) | ((b[2] as u32) << 8) | (
                b[3] as u32),
            ),
            Endian::Little => Ok(
                ((b[3] as u32) << 24) | ((b[2] as u32) << 16) | ((b[1] as u32) << 8) | (
                b[0] as u32),
            ),
        }
    }

    /// Reads a 64-bit integer in the decoder's byte order.
    pub fn get_u64(&mut self) -> (r: Result<u64, DecodeError>)
        requires
            old(self).wf(),
        ensures
            final(self).spec_data() == old(self).spec_data(),
            final(self).spec_endian() == old(self).spec_endian(),
            final(self).wf(),
            old(self).spec_offset() + 8 <= old(self).spec_data().len() ==> (r == Ok::<
                u64,
                DecodeError,
            >(
                word64_of(
                    old(self).spec_data().subrange(
                        old(self).spec_offset(),
                        old(self).spec_offset() + 8,
                    ),
                    old(self).spec_endian(),
                ),
            ) && final(self).spec_offset() == old(self).spec_offset() + 8),
            old(self).spec_offset() + 8 > old(self).spec_data().len() ==> (r == Err::<
                u64,
                DecodeError,
            >(
                DecodeError::EndOfInput {
                    offset: old(self).spec_offset() as usize,
                    length: old(self).spec_data().len() as usize,
                    count: 8,
                },
            ) && final(self).spec_offset() == old(self).spec_offset()),
    {
        let b = match self.get_8_bytes() {
            Ok(v) => v,
            Err(e) => {
                return Err(e);
            },
        };
        match self.endian {
            Endian::Big => Ok(
                ((b[0] as u64) << 56) | ((b[1] as u64) << 48) | ((b[2] as u64) << 40) | ((
                b[3] as u64) << 32) | ((b[4] as u64) << 24) | ((b[5] as u64) << 16) | ((
                b[6] as u64) << 8) | (b[7] as u64),
            ),
            Endian::Little => Ok(
                ((b[7] as u64) << 56) | ((b[6] as u64) << 48) | ((b[5] as u64) << 40) | ((
                b[4] as u64) << 32) | ((b[3] as u64) << 24) | ((b[2] as u64) << 16) | ((
                b[1] as u64) << 8) | (b[0] as u64),
            ),
        }
    }
}

/// Reads one element of a slice.
fn self_index<'a>(s: &'a [u8], i: usize) -> (r: &'a u8)
    requires
        i < s@.len(),
    ensures
        *r == s@[i as int],
{
    vstd::slice::slice_index_get(s, i)
}

/// The sequence `orig` with `ins` written over the bytes starting at `at`.
pub open spec fn spliced(orig: Seq<u8>, at: int, ins: Seq<u8>) -> Seq<u8>
    recommends
        0 <= at,
        at + ins.len() <= orig.len(),
{
    Seq::new(
        orig.len(),
        |i: int|
            if at <= i < at + ins.len() {
                ins[i - at]
            } else {
                orig[i]
            },
    )
}

/// Writing two runs back to back equals writing their concatenation.
pub proof fn lemma_spliced_adjacent(orig: Seq<u8>, at: int, a: Seq<u8>, b: Seq<u8>)
    requires
        0 <= at,
        at + a.len() + b.len() <= orig.len(),
    ensures
        spliced(spliced(orig, at, a), at + a.len(), b) == spliced(orig, at, a + b),
{
    let lhs = spliced(spliced(orig, at, a), at + a.len(), b);
    let rhs = spliced(orig, at, a + b);
    assert forall|j: int| 0 <= j < lhs.len() implies lhs[j] == rhs[j] by {
        if j < at {
        } else if j < at + a.len() {
        } else if j < at + a.len() + b.len() {
        } else {
        }
    }
    assert(lhs =~= rhs);
}

/// A binary encoder writing into an owned buffer of fixed capacity.
pub struct Encoder {
    data: Vec<u8>,
    offset: usize,
    endian: Endian,
}

impl Encoder {
    /// The buffer being written.
    pub closed spec fn spec_data(&self) -> Seq<u8> {
        self.data@
    }

    /// The current write position.
    pub closed spec fn spec_offset(&self) -> int {
        self.offset as int
    }

    /// The byte order used for integers.
    pub closed spec fn spec_endian(&self) -> Endian {
        self.endian
    }

    /// The write position never passes the end of the buffer.
    pub open spec fn wf(&self) -> bool {
        0 <= self.spec_offset() <= self.spec_data().len()
    }

    /// Starts an encoder at the beginning of `data` with the given byte
    /// order. The buffer's length is the encoder's capacity.
    pub fn to_bytes(data: Vec<u8>, endian: Endian) -> (r: Encoder)
        ensures
            r.wf(),
            r.spec_data() == data@,
            r.spec_offset() == 0,
            r.spec_endian() == endian,
    {
        Encoder { data, offset: 0, endian }
    }

    /// Gives the buffer back.
    pub fn finish(self) -> (r: Vec<u8>)
        ensures
            r@ == self.spec_data(),
    {
        self.data
    }

    /// The number of bytes still available.
    pub fn available(&self) -> (r: usize)
        requires
            self.wf(),
        ensures
            r == self.spec_data().len() - self.spec_offset(),
    {
        self.data.len() - self.offset
    }

    /// The total capacity of the buffer.
    pub fn capacity(&self) -> (r: usize)
        ensures
            r == self.spec_data().len(),
    {
        self.data.len()
    }

    /// The byte order used for integers.
    pub fn endian(&self) -> (r: Endian)
        ensures
            r == self.spec_endian(),
    {
        self.endian
    }

    /// True when no space remains.
    pub fn is_full(&self) -> (r: bool)
        ensures
            r == (self.spec_offset() >= self.spec_data().len()),
    {
        self.offset >= self.data.len()
    }

    /// The number of bytes written so far.
    pub fn len(&self) -> (r: usize)
        ensures
            r == self.spec_offset(),
    {
        self.offset
    }

    /// Writes the bytes of `data` at the current position.
    pub fn put_bytes(&mut self, data: &[u8]) -> (r: Result<(), EncodeError>)
        requires
            old(self).wf(),
        ensures
            final(self).spec_endian() == old(self).spec_endian(),
            final(self).wf(),
            final(self).spec_data().len() == old(self).spec_data().len(),
            old(self).spec_offset() + data@.len() <= old(self).spec_data().len() ==> (r == Ok::<
                (),
                EncodeError,
            >(()) && final(self).spec_data() == spliced(
                old(self).spec_data(),
                old(self).spec_offset(),
                data@,
            ) && final(self).spec_offset() == old(self).spec_offset() + data@.len()),
            old(self).spec_offset() + data@.len() > old(self).spec_data().len() ==> (r == Err::<
                (),
                EncodeError,
            >(
                EncodeError::EndOfOutput {
                    offset: old(self).spec_offset() as usize,
                    length: old(self).spec_data().len() as usize,
                    count: data@.len() as usize,
                },
            ) && final(self).spec_data() == old(self).spec_data() && final(self).spec_offset() == old(
                self,
            ).spec_offset()),
    {
        let length = data.len();
        if length > self.data.len() - self.offset {
            return Err(
                EncodeError::EndOfOutput {
                    offset: self.offset,
                    length: self.data.len(),
                    count: length,
                },
            );
        }
        let start = self.offset;
        let mut idx: usize = 0;
        while idx < length
            invariant
                length == data@.len(),
                start == old(self).spec_offset(),
                start + length <= old(self).spec_data().len(),
                old(self).spec_data().len() <= usize::MAX,
                0 <= idx <= length,
                self.spec_endian() == old(self).spec_endian(),
                self.spec_offset() == start,
                self.spec_data().len() == old(self).spec_data().len(),
                forall|i: int| 0 <= i < start ==> self.spec_data()[i] == old(self).spec_data()[i],
                forall|i: int|
                    start + length <= i < self.spec_data().len() ==> self.spec_data()[i] == old(
                        self,
                    ).spec_data()[i],
                forall|i: int| 0 <= i < idx ==> #[trigger] self.spec_data()[start + i] == data@[i],
                forall|i: int|
                    idx <= i < length ==> #[trigger] self.spec_data()[start + i] == old(
                        self,
                    ).spec_data()[start + i],
            decreases length - idx,
        {
            let b = *self_index(data, idx);
            self.data.set(start + idx, b);
            idx = idx + 1;
        }
        self.offset = start + length;
        proof {
            let dd = self.spec_data();
            let sp = spliced(old(self).spec_data(), start as int, data@);
            assert forall|j: int| 0 <= j < dd.len() implies dd[j] == sp[j] by {
                if start <= j < start + length {
                    assert(dd[start + (j - start)] == data@[j - start]);
                }
            }
            assert(dd =~= sp);
        }
        Ok(())
    }

    /// Writes one byte at the current position.
    pub fn put_u8(&mut self, value: u8) -> (r: Result<(), EncodeError>)
        requires
            old(self).wf(),
        ensures
            final(self).spec_endian() == old(self).spec_endian(),
            final(self).wf(),
            final(self).spec_data().len() == old(self).spec_data().len(),
            old(self).spec_offset() + 1 <= old(self).spec_data().len() ==> (r == Ok::<
                (),
                EncodeError,
            >(()) && final(self).spec_data() == spliced(
                old(self).spec_data(),
                old(self).spec_offset(),
                seq![value],
            ) && final(self).spec_offset() == old(self).spec_offset() + 1),
            old(self).spec_offset() + 1 > old(self).spec_data().len() ==> (r == Err::<
                (),
                EncodeError,
            >(
                EncodeError::EndOfOutput {
                    offset: old(self).spec_offset() as usize,
                    length: old(self).spec_data().len() as usize,
                    count: 1,
                },
            ) && final(self).spec_data() == old(self).spec_data() && final(self).spec_offset() == old(
                self,
            ).spec_offset()),
    {
        if 1 > self.data.len() - self.offset {
            return Err(
                EncodeError::EndOfOutput { offset: self.offset, length: self.data.len(), count: 1 },
            );
        }
        self.data.set(self.offset, value);
        self.offset = self.offset + 1;
        proof {
            assert(self.spec_data() =~= spliced(
                old(self).spec_data(),
                old(self).spec_offset(),
                seq![value],
            ));
        }
        Ok(())
    }

    /// Writes a 16-bit integer in the encoder's byte order.
    pub fn put_u16(&mut self, value: u16) -> (r: Result<(), EncodeError>)
        requires
            old(self).wf(),
        ensures
            final(self).spec_endian() == old(self).spec_endian(),
            final(self).wf(),
            final(self).spec_data().len() == old(self).spec_data().len(),
            old(self).spec_offset() + 2 <= old(self).spec_data().len() ==> (r == Ok::<
                (),
                EncodeError,
            >(()) && final(self).spec_data() == spliced(
                old(self).spec_data(),
                old(self).spec_offset(),
                word16(value, old(self).spec_endian()),
            ) && final(self).spec_offset() == old(self).spec_offset() + 2),
            old(self).spec_offset() + 2 > old(self).spec_data().len() ==> (r == Err::<
                (),
                EncodeError,
            >(
                EncodeError::EndOfOutput {
                    offset: old(self).spec_offset() as usize,
                    length: old(self).spec_data().len() as usize,
                    count: 2,
                },
            ) && final(self).spec_data() == old(self).spec_data() && final(self).spec_offset() == old(
            self,
            ).spec_offset()),
    {
        if 2 > self.data.len() - self.offset {
            return Err(
                EncodeError::EndOfOutput { offset: self.offset, length: self.data.len(), count: 2 },
            );
        }
        let start = self.offset;
        let b0: u8 = ((value >> 8) & 0xff) as u8;
        let b1: u8 = (value & 0xff) as u8;
        match self.endian {
            Endian::Big => {
                self.data.set(start, b0);
                self.data.set(start + 1, b1);
            },
            Endian::Little => {
                self.data.set(start, b1);
                self.data.set(start + 1, b0);
            },
        }
        self.offset = start + 2;
        proof {
            assert(self.spec_data() =~= spliced(
                old(self).spec_data(),
                start as int,
                word16(value, old(self).spec_endian()),
            ));
        }
        Ok(())
    }

    /// Writes a 32-bit integer in the encoder's byte order.
    pub fn put_u32(&mut self, value: u32) -> (r: Result<(), EncodeError>)
        requires
            old(self).wf(),
        ensures
            final(self).spec_endian() == old(self).spec_endian(),
            final(self).wf(),
            final(self).spec_data().len() == old(self).spec_data().len(),
            old(self).spec_offset() + 4 <= old(self).spec_data().len() ==> (r == Ok::<
                (),
                EncodeError,
            >(()) && final(self).spec_data() == spliced(
                old(self).spec_data(),
                old(self).spec_offset(),
                word32(value, old(self).spec_endian()),
            ) && final(self).spec_offset() == old(self).spec_offset() + 4),
            old(self).spec_offset() + 4 > old(self).spec_data().len() ==> (r == Err::<
                (),
                EncodeError,
            >(
                EncodeError::EndOfOutput {
                    offset: old(self).spec_offset() as usize,
                    length: old(self).spec_data().len() as usize,
                    count: 4,
                },
            ) && final(self).spec_data() == old(self).spec_data() && final(self).spec_offset() == old(
            self,
            ).spec_offset()),
    {
        if 4 > self.data.len() - self.offset {
            return Err(
                EncodeError::EndOfOutput { offset: self.offset, length: self.data.len(), count: 4 },
            );
        }
        let start = self.offset;
        let b0: u8 = ((value >> 24) & 0xff) as u8;
        let b1: u8 = ((value >> 16) & 0xff) as u8;
        let b2: u8 = ((value >> 8) & 0xff) as u8;
        let b3: u8 = (value & 0xff) as u8;
        match self.endian {
            Endian::Big => {
                self.data.set(start, b0);
                self.data.set(start + 1, b1);
                self.data.set(start + 2, b2);
                self.data.set(start + 3, b3);
            },
            Endian::Little => {
                self.data.set(start, b3);
                self.data.set(start + 1, b2);
                self.data.set(start + 2, b1);
                self.data.set(start + 3, b0);
            },
        }
        self.offset = start + 4;
        proof {
            assert(self.spec_data() =~= spliced(
                old(self).spec_data(),
                start as int,
                word32(value, old(self).spec_endian()),
            ));
        }
        Ok(())
    }

    /// Writes a 64-bit integer in the encoder's byte order.
    pub fn put_u64(&mut self, value: u64) -> (r: Result<(), EncodeError>)
        requires
            old(self).wf(),
        ensures
            final(self).spec_endian() == old(self).spec_endian(),
            final(self).wf(),
            final(self).spec_data().len() == old(self).spec_data().len(),
            old(self).spec_offset() + 8 <= old(self).spec_data().len() ==> (r == Ok::<
                (),
                EncodeError,
            >(()) && final(self).spec_data() == spliced(
                old(self).spec_data(),
                old(self).spec_offset(),
                word64(value, old(self).spec_endian()),
            ) && final(self).spec_offset() == old(self).spec_offset() + 8),
            old(self).spec_offset() + 8 > old(self).spec_data().len() ==> (r == Err::<
                (),
                EncodeError,
            >(
                EncodeError::EndOfOutput {
                    offset: old(self).spec_offset() as usize,
                    length: old(self).spec_data().len() as usize,
                    count: 8,
                },
            ) && final(self).spec_data() == old(self).spec_data() && final(self).spec_offset() == old(
            self,
            ).spec_offset()),
    {
        if 8 > self.data.len() - self.offset {
            return Err(
                EncodeError::EndOfOutput { offset: self.offset, length: self.data.len(), count: 8 },
            );
        }
        let start = self.offset;
        let b0: u8 = ((value >> 56) & 0xff) as u8;
        let b1: u8 = ((value >> 48) & 0xff) as u8;
        let b2: u8 = ((value >> 40) & 0xff) as u8;
        let b3: u8 = ((value >> 32) & 0xff) as u8;
        let b4: u8 = ((value >> 24) & 0xff) as u8;
        let b5: u8 = ((value >> 16) & 0xff) as u8;
        let b6: u8 = ((value >> 8) & 0xff) as u8;
        let b7: u8 = (value & 0xff) as u8;
        match self.endian {
            Endian::Big => {
                self.data.set(start, b0);
                self.data.set(start + 1, b1);
                self.data.set(start + 2, b2);
                self.data.set(start + 3, b3);
                self.data.set(start + 4, b4);
                self.data.set(start + 5, b5);
                self.data.set(start + 6, b6);
                self.data.set(start + 7, b7);
            },
            Endian::Little => {
                self.data.set(start, b7);
                self.data.set(start + 1, b6);
                self.data.set(start + 2, b5);
                self.data.set(start + 3, b4);
                self.data.set(start + 4, b3);
                self.data.set(start + 5, b2);
                self.data.set(start + 6, b1);
                self.data.set(start + 7, b0);
            },
        }
        self.offset = start + 8;
        proof {
            assert(self.spec_data() =~= spliced(
                old(self).spec_data(),
                start as int,
                word64(value, old(self).spec_endian()),
            ));
        }
        Ok(())
    }

    /// Writes `length` zero bytes at the current position.
    pub fn put_zero_padding(&mut self, length: usize) -> (r: Result<(), EncodeError>)
        requires
            old(self).wf(),
        ensures
            final(self).spec_endian() == old(self).spec_endian(),
            final(self).wf(),
            final(self).spec_data().len() == old(self).spec_data().len(),
            old(self).spec_offset() + length <= old(self).spec_data().len() ==> (r == Ok::<
                (),
                EncodeError,
            >(()) && final(self).spec_data() == spliced(
                old(self).spec_data(),
                old(self).spec_offset(),
                Seq::new(length as nat, |i: int| 0u8),
            ) && final(self).spec_offset() == old(self).spec_offset() + length),
            old(self).spec_offset() + length > old(self).spec_data().len() ==> (r == Err::<
                (),
                EncodeError,
            >(
                EncodeError::EndOfOutput {
                    offset: old(self).spec_offset() as usize,
                    length: old(self).spec_data().len() as usize,
                    count: length,
                },
            ) && final(self).spec_data() == old(self).spec_data() && final(self).spec_offset() == old(
            self,
            ).spec_offset()),
    {
        if length > self.data.len() - self.offset {
            return Err(
                EncodeError::EndOfOutput {
                    offset: self.offset,
                    length: self.data.len(),
                    count: length,
                },
            );
        }
        let start = self.offset;
        let mut idx: usize = 0;
        while idx < length
            invariant
                start == old(self).spec_offset(),
                start + length <= old(self).spec_data().len(),
                old(self).spec_data().len() <= usize::MAX,
                0 <= idx <= length,
                self.spec_endian() == old(self).spec_endian(),
                self.spec_offset() == start,
                self.spec_data().len() == old(self).spec_data().len(),
                forall|i: int| 0 <= i < start ==> self.spec_data()[i] == old(self).spec_data()[i],
                forall|i: int|
                    start + length <= i < self.spec_data().len() ==> self.spec_data()[i] == old(
                        self,
                    ).spec_data()[i],
                forall|i: int| 0 <= i < idx ==> #[trigger] self.spec_data()[start + i] == 0,
            decreases length - idx,
        {
            self.data.set(start + idx, 0);
            idx = idx + 1;
        }
        self.offset = start + length;
        proof {
            let dd = self.spec_data();
            let sp = spliced(old(self).spec_data(), start as int, Seq::new(length as nat, |i: int| 0u8));
            assert forall|j: int| 0 <= j < dd.len() implies dd[j] == sp[j] by {
                if start <= j < start + length {
                    assert(dd[start + (j - start)] == 0);
                }
            }
            assert(dd =~= sp);
        }
        Ok(())
    }
}

} // verus!
