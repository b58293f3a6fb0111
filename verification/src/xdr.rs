//! An XDR decoder (RFC 4506 subset).
//!
//! Every integer on the wire is big-endian, and every element is aligned
//! to four bytes: byte runs are followed by zero padding up to the next
//! multiple of four. Narrow integers travel as 32-bit words and are
//! checked on arrival.

use vstd::prelude::*;

use vstd::string::StringSliceAdditionalSpecFns;

use crate::endian::{word32_of, word64_of, Endian};

verus! {

/// The number of padding bytes after an element ending at position `n`.
pub open spec fn pad4(n: int) -> int {
    if n % 4 == 0 {
        0
    } else {
        4 - n % 4
    }
}

/// Position `n` advanced to the next multiple of four.
pub open spec fn align4(n: int) -> int {
    n + pad4(n)
}

/// The big-endian 32-bit integer at offset `off` of `d`.
pub open spec fn be32_at(d: Seq<u8>, off: int) -> u32 {
    word32_of(d.subrange(off, off + 4), Endian::Big)
}

/// The big-endian 64-bit integer at offset `off` of `d`.
pub open spec fn be64_at(d: Seq<u8>, off: int) -> u64 {
    word64_of(d.subrange(off, off + 8), Endian::Big)
}

/// The signed reading of a 32-bit word.
pub open spec fn signed32(w: u32) -> i32 {
    if w >= 0x8000_0000 {
        (w - 0x1_0000_0000) as i32
    } else {
        w as i32
    }
}

/// The signed reading of a 64-bit word.
pub open spec fn signed64(w: u64) -> i64 {
    if w >= 0x8000_0000_0000_0000 {
        (w - 0x1_0000_0000_0000_0000) as i64
    } else {
        w as i64
    }
}

/// A failure while decoding.
#[derive(Debug, PartialEq, Eq)]
pub enum DecodeError {
    /// The input ends before `count` more bytes could be read.
    EndOfInput { offset: usize, length: usize, count: usize },
    /// A boolean word is neither zero nor one.
    InvalidBoolean { offset: usize, value: u32 },
    /// A byte run is not valid UTF-8.
    InvalidStr { offset: usize, length: usize },
    /// A 32-bit word does not fit in an `i8`.
    I8Conversion { offset: usize, value: i32 },
    /// A 32-bit word does not fit in an `i16`.
    I16Conversion { offset: usize, value: i32 },
    /// A 32-bit word does not fit in a `u8`.
    U8Conversion { offset: usize, value: u32 },
    /// A rewind of `count` bytes would move before the start.
    RewindPastStart { offset: usize, count: usize },
    /// A 32-bit word does not fit in a `u16`.
    U16Conversion { offset: usize, value: u32 },
}

/// An XDR decoder over a borrowed byte slice.
#[derive(Clone)]
pub struct Decoder<'a> {
    data: &'a [u8],
    offset: usize,
}

impl<'a> Decoder<'a> {
    /// The bytes being decoded.
    pub closed spec fn spec_data(&self) -> Seq<u8> {
        self.data@
    }

    /// The current read position.
    pub closed spec fn spec_offset(&self) -> int {
        self.offset as int
    }

    /// The read position never passes the end of the data.
    pub open spec fn wf(&self) -> bool {
        0 <= self.spec_offset() <= self.spec_data().len()
    }

    /// The bytes not yet consumed.
    pub open spec fn spec_remaining(&self) -> int {
        self.spec_data().len() - self.spec_offset()
    }

    /// Starts a decoder at the beginning of `data`.
    pub fn from_bytes(data: &'a [u8]) -> (r: Decoder<'a>)
        ensures
            r.wf(),
            r.spec_data() == data@,
            r.spec_offset() == 0,
    {
        Decoder { data, offset: 0 }
    }

    /// The total length of the data.
    pub fn capacity(&self) -> (r: usize)
        ensures
            r == self.spec_data().len(),
    {
        self.data.len()
    }

    /// The current read position.
    pub fn offset(&self) -> (r: usize)
        ensures
            r == self.spec_offset(),
    {
        self.offset
    }

    /// True when no bytes remain.
    pub fn is_empty(&self) -> (r: bool)
        requires
            self.wf(),
        ensures
            r == (self.spec_remaining() == 0),
    {
        self.len() == 0
    }

    /// The number of bytes not yet consumed.
    pub fn len(&self) -> (r: usize)
        requires
            self.wf(),
        ensures
            r == self.spec_remaining(),
    {
        self.data.len() - self.offset
    }

    /// Moves the read position back to the start.
    pub fn reset(&mut self)
        ensures
            final(self).spec_data() == old(self).spec_data(),
            final(self).spec_offset() == 0,
            final(self).wf(),
    {
        self.offset = 0;
    }

    /// Consumes padding up to the next multiple of four.
    fn consume_padding(&mut self) -> (r: Result<(), DecodeError>)
        requires
            old(self).wf(),
        ensures
            final(self).spec_data() == old(self).spec_data(),
            final(self).wf(),
            align4(old(self).spec_offset()) <= old(self).spec_data().len() ==> (r == Ok::<
                (),
                DecodeError,
            >(()) && final(self).spec_offset() == align4(old(self).spec_offset())),
            align4(old(self).spec_offset()) > old(self).spec_data().len() ==> (r == Err::<
                (),
                DecodeError,
            >(
                DecodeError::EndOfInput {
                    offset: old(self).spec_offset() as usize,
                    length: old(self).spec_data().len() as usize,
                    count: pad4(old(self).spec_offset()) as usize,
                },
            ) && final(self).spec_offset() == old(self).spec_offset()),
    {
        let offset = self.offset;
        let remainder = offset % 4;
        let padding: usize = if remainder == 0 {
            0
        } else {
            4 - remainder
        };
        if padding > self.data.len() - self.offset {
            return Err(
                DecodeError::EndOfInput {
                    offset: self.offset,
                    length: self.data.len(),
                    count: padding,
                },
            );
        }
        self.offset = offset + padding;
        Ok(())
    }

    /// Moves the read position to `offset`, re-aligning to four bytes.
    pub fn seek(&mut self, offset: usize) -> (r: Result<(), DecodeError>)
        ensures
            final(self).spec_data() == old(self).spec_data(),
            final(self).wf(),
            align4(offset as int) <= old(self).spec_data().len() && offset <= old(
                self,
            ).spec_data().len() ==> (r == Ok::<(), DecodeError>(()) && final(self).spec_offset()
                == align4(offset as int)),
    {
        self.reset();
        self.skip(offset)
    }

    /// Advances past `length` bytes, re-aligning to four bytes.
    pub fn skip(&mut self, length: usize) -> (r: Result<(), DecodeError>)
        requires
            old(self).wf(),
        ensures
            final(self).spec_data() == old(self).spec_data(),
            final(self).wf(),
            ({
                let off = old(self).spec_offset();
                let dlen = old(self).spec_data().len();
                if off + length > dlen {
                    r == Err::<(), DecodeError>(
                        DecodeError::EndOfInput {
                            offset: off as usize,
                            length: dlen as usize,
                            count: length,
                        },
                    ) && final(self).spec_offset() == off
                } else if align4(off + length) > dlen {
                    r == Err::<(), DecodeError>(
                        DecodeError::EndOfInput {
                            offset: (off + length) as usize,
                            length: dlen as usize,
                            count: pad4(off + length) as usize,
                        },
                    ) && final(self).spec_offset() == off + length
                } else {
                    r == Ok::<(), DecodeError>(()) && final(self).spec_offset() == align4(
                        off + length,
                    )
                }
            }),
    {
        if length > self.data.len() - self.offset {
            return Err(
                DecodeError::EndOfInput {
                    offset: self.offset,
                    length: self.data.len(),
                    count: length,
                },
            );
        }
        self.offset = self.offset + length;
        self.consume_padding()
    }

    /// Moves the read position back by `count` bytes, then re-aligns
    /// forward to four bytes.
    pub fn rewind(&mut self, count: usize) -> (r: Result<(), DecodeError>)
        requires
            old(self).wf(),
        ensures
            final(self).spec_data() == old(self).spec_data(),
            final(self).wf(),
            ({
                let off = old(self).spec_offset();
                let dlen = old(self).spec_data().len();
                if count > off {
                    r == Err::<(), DecodeError>(
                        DecodeError::RewindPastStart { offset: off as usize, count: count },
                    ) && final(self).spec_offset() == off
                } else if align4(off - count) > dlen {
                    r == Err::<(), DecodeError>(
                        DecodeError::EndOfInput {
                            offset: (off - count) as usize,
                            length: dlen as usize,
                            count: pad4(off - count) as usize,
                        },
                    ) && final(self).spec_offset() == off - count
                } else {
                    r == Ok::<(), DecodeError>(()) && final(self).spec_offset() == align4(
                        off - count,
                    )
                }
            }),
    {
        if count > self.offset {
            return Err(DecodeError::RewindPastStart { offset: self.offset, count: count });
        }
        self.offset = self.offset - count;
        self.consume_padding()
    }

    /// Reads the next four bytes.
    fn get_4_bytes(&mut self) -> (r: Result<[u8; 4], DecodeError>)
        requires
            old(self).wf(),
        ensures
            final(self).spec_data() == old(self).spec_data(),
            final(self).wf(),
            old(self).spec_offset() + 4 <= old(self).spec_data().len() ==> (r matches Ok(b) && b@
                =~= old(self).spec_data().subrange(
                old(self).spec_offset(),
                old(self).spec_offset() + 4,
            ) && final(self).spec_offset() == old(self).spec_offset() + 4),
            old(self).spec_offset() + 4 > old(self).spec_data().len() ==> (r == Err::<
                [u8; 4],
                DecodeError,
            >(
                DecodeError::EndOfInput {
                    offset: old(self).spec_offset() as usize,
                    length: old(self).spec_data().len() as usize,
                    count: 4,
                },
            ) && final(self).spec_offset() == old(self).spec_offset()),
    {
        if 4 > self.data.len() - self.offset {
            return Err(
                DecodeError::EndOfInput { offset: self.offset, length: self.data.len(), count: 4 },
            );
        }
        let start = self.offset;
        let b: [u8; 4] = [
            *slice_get(self.data, start),
            *slice_get(self.data, start + 1),
            *slice_get(self.data, start + 2),
            *slice_get(self.data, start + 3),
        ];
        self.offset = start + 4;
        proof {
            assert(b@ =~= old(self).spec_data().subrange(start as int, start + 4));
        }
        Ok(b)
    }

    /// Reads the next eight bytes.
    fn get_8_bytes(&mut self) -> (r: Result<[u8; 8], DecodeError>)
        requires
            old(self).wf(),
        ensures
            final(self).spec_data() == old(self).spec_data(),
            final(self).wf(),
            old(self).spec_offset() + 8 <= old(self).spec_data().len() ==> (r matches Ok(b) && b@
                =~= old(self).spec_data().subrange(
                old(self).spec_offset(),
                old(self).spec_offset() + 8,
            ) && final(self).spec_offset() == old(self).spec_offset() + 8),
            old(self).spec_offset() + 8 > old(self).spec_data().len() ==> (r == Err::<
                [u8; 8],
                DecodeError,
            >(
                DecodeError::EndOfInput {
                    offset: old(self).spec_offset() as usize,
                    length: old(self).spec_data().len() as usize,
                    count: 8,
                },
            ) && final(self).spec_offset() == old(self).spec_offset()),
    {
        if 8 > self.data.len() - self.offset {
            return Err(
                DecodeError::EndOfInput { offset: self.offset, length: self.data.len(), count: 8 },
            );
        }
        let start = self.offset;
        let b: [u8; 8] = [
            *slice_get(self.data, start),
            *slice_get(self.data, start + 1),
            *slice_get(self.data, start + 2),
            *slice_get(self.data, start + 3),
            *slice_get(self.data, start + 4),
            *slice_get(self.data, start + 5),
            *slice_get(self.data, start + 6),
            *slice_get(self.data, start + 7),
        ];
        self.offset = start + 8;
        proof {
            assert(b@ =~= old(self).spec_data().subrange(start as int, start + 8));
        }
        Ok(b)
    }

    /// Reads `length` bytes, then consumes padding up to the next multiple
    /// of four.
    pub fn get_n_bytes(&mut self, length: usize) -> (r: Result<&'a [u8], DecodeError>)
        requires
            old(self).wf(),
        ensures
            final(self).spec_data() == old(self).spec_data(),
            final(self).wf(),
            ({
                let off = old(self).spec_offset();
                let dlen = old(self).spec_data().len();
                if off + length > dlen {
                    r == Err::<&'a [u8], DecodeError>(
                        DecodeError::EndOfInput {
                            offset: off as usize,
                            length: dlen as usize,
                            count: length,
                        },
                    ) && final(self).spec_offset() == off
                } else if align4(off + length) > dlen {
                    r == Err::<&'a [u8], DecodeError>(
                        DecodeError::EndOfInput {
                            offset: (off + length) as usize,
                            length: dlen as usize,
                            count: pad4(off + length) as usize,
                        },
                    ) && final(self).spec_offset() == off + length
                } else {
                    (r matches Ok(b) && b@ =~= old(self).spec_data().subrange(off, off + length)
                        && final(self).spec_offset() == align4(off + length))
                }
            }),
    {
        if length > self.data.len() - self.offset {
            return Err(
                DecodeError::EndOfInput {
                    offset: self.offset,
                    length: self.data.len(),
                    count: length,
                },
            );
        }
        let start = self.offset;
        let value = vstd::slice::slice_subrange(self.data, start, start + length);
        self.offset = start + length;
        match self.consume_padding() {
            Ok(()) => Ok(value),
            Err(e) => Err(e),
        }
    }

    /// Reads a boolean encoded as a 32-bit word.
    pub fn get_bool(&mut self) -> (r: Result<bool, DecodeError>)
        requires
            old(self).wf(),
        ensures
            final(self).spec_data() == old(self).spec_data(),
            final(self).wf(),
            ({
                let off = old(self).spec_offset();
                let dlen = old(self).spec_data().len();
                if off + 4 > dlen {
                    r == Err::<bool, DecodeError>(
                        DecodeError::EndOfInput {
                            offset: off as usize,
                            length: dlen as usize,
                            count: 4,
                        },
                    ) && final(self).spec_offset() == off
                } else {
                    let w = be32_at(old(self).spec_data(), off);
                    &&& w == 0 ==> r == Ok::<bool, DecodeError>(false)
                    &&& w == 1 ==> r == Ok::<bool, DecodeError>(true)
                    &&& w > 1 ==> r == Err::<bool, DecodeError>(
                        DecodeError::InvalidBoolean { offset: off as usize, value: w },
                    )
                    &&& final(self).spec_offset() == off + 4
                }
            }),
    {
        let offset = self.offset;
        let value = match self.get_u32() {
            Ok(v) => v,
            Err(e) => {
                return Err(e);
            },
        };
        match value {
            0 => Ok(false),
            1 => Ok(true),
            _ => Err(DecodeError::InvalidBoolean { offset, value }),
        }
    }

    /// Reads a length-prefixed byte run: a 32-bit count, that many bytes,
    /// and padding up to the next multiple of four.
    pub fn get_bytes(&mut self) -> (r: Result<&'a [u8], DecodeError>)
        requires
            old(self).wf(),
        ensures
            final(self).spec_data() == old(self).spec_data(),
            final(self).wf(),
            ({
                let off = old(self).spec_offset();
                let dlen = old(self).spec_data().len();
                if off + 4 > dlen {
                    r == Err::<&'a [u8], DecodeError>(
                        DecodeError::EndOfInput {
                            offset: off as usize,
                            length: dlen as usize,
                            count: 4,
                        },
                    ) && final(self).spec_offset() == off
                } else {
                    let n = be32_at(old(self).spec_data(), off) as int;
                    if off + 4 + n > dlen {
                        r == Err::<&'a [u8], DecodeError>(
                            DecodeError::EndOfInput {
                                offset: (off + 4) as usize,
                                length: dlen as usize,
                                count: n as usize,
                            },
                        ) && final(self).spec_offset() == off + 4
                    } else if align4(off + 4 + n) > dlen {
                        r == Err::<&'a [u8], DecodeError>(
                            DecodeError::EndOfInput {
                                offset: (off + 4 + n) as usize,
                                length: dlen as usize,
                                count: pad4(off + 4 + n) as usize,
                            },
                        ) && final(self).spec_offset() == off + 4 + n
                    } else {
                        (r matches Ok(b) && b@ =~= old(self).spec_data().subrange(
                            off + 4,
                            off + 4 + n,
                        ) && final(self).spec_offset() == align4(off + 4 + n))
                    }
                }
            }),
    {
        let length = match self.get_usize() {
            Ok(v) => v,
            Err(e) => {
                return Err(e);
            },
        };
        self.get_n_bytes(length)
    }

    /// Reads a 32-bit word and narrows it to an `i8`.
    pub fn get_i8(&mut self) -> (r: Result<i8, DecodeError>)
        requires
            old(self).wf(),
        ensures
            final(self).spec_data() == old(self).spec_data(),
            final(self).wf(),
            ({
                let off = old(self).spec_offset();
                let dlen = old(self).spec_data().len();
                if off + 4 > dlen {
                    r == Err::<i8, DecodeError>(
                        DecodeError::EndOfInput {
                            offset: off as usize,
                            length: dlen as usize,
                            count: 4,
                        },
                    ) && final(self).spec_offset() == off
                } else {
                    let v = signed32(be32_at(old(self).spec_data(), off));
                    &&& (-128 <= v <= 127) ==> r == Ok::<i8, DecodeError>(v as i8)
                    &&& !(-128 <= v <= 127) ==> r == Err::<i8, DecodeError>(
                        DecodeError::I8Conversion { offset: off as usize, value: v },
                    )
                    &&& final(self).spec_offset() == off + 4
                }
            }),
    {
        let offset = self.offset;
        let value = match self.get_i32() {
            Ok(v) => v,
            Err(e) => {
                return Err(e);
            },
        };
        if value >= -128 && value <= 127 {
            Ok(value as i8)
        } else {
            Err(DecodeError::I8Conversion { offset, value })
        }
    }

    /// Reads a 32-bit word and narrows it to an `i16`.
    pub fn get_i16(&mut self) -> (r: Result<i16, DecodeError>)
        requires
            old(self).wf(),
        ensures
            final(self).spec_data() == old(self).spec_data(),
            final(self).wf(),
            ({
                let off = old(self).spec_offset();
                let dlen = old(self).spec_data().len();
                if off + 4 > dlen {
                    r == Err::<i16, DecodeError>(
                        DecodeError::EndOfInput {
                            offset: off as usize,
                            length: dlen as usize,
                            count: 4,
                        },
                    ) && final(self).spec_offset() == off
                } else {
                    let v = signed32(be32_at(old(self).spec_data(), off));
                    &&& (-32768 <= v <= 32767) ==> r == Ok::<i16, DecodeError>(v as i16)
                    &&& !(-32768 <= v <= 32767) ==> r == Err::<i16, DecodeError>(
                        DecodeError::I16Conversion { offset: off as usize, value: v },
                    )
                    &&& final(self).spec_offset() == off + 4
                }
            }),
    {
        let offset = self.offset;
        let value = match self.get_i32() {
            Ok(v) => v,
            Err(e) => {
                return Err(e);
            },
        };
        if value >= -32768 && value <= 32767 {
            Ok(value as i16)
        } else {
            Err(DecodeError::I16Conversion { offset, value })
        }
    }

    /// Reads a big-endian 32-bit signed integer.
    pub fn get_i32(&mut self) -> (r: Result<i32, DecodeError>)
        requires
            old(self).wf(),
        ensures
            final(self).spec_data() == old(self).spec_data(),
            final(self).wf(),
            old(self).spec_offset() + 4 <= old(self).spec_data().len() ==> (r == Ok::<
                i32,
                DecodeError,
            >(signed32(be32_at(old(self).spec_data(), old(self).spec_offset()))) && final(self).spec_offset() == old(self).spec_offset() + 4),
            old(self).spec_offset() + 4 > old(self).spec_data().len() ==> (r == Err::<
                i32,
                DecodeError,
            >(
                DecodeError::EndOfInput {
                    offset: old(self).spec_offset() as usize,
                    length: old(self).spec_data().len() as usize,
                    count: 4,
                },
            ) && final(self).spec_offset() == old(self).spec_offset()),
    {
        let w = match self.get_u32() {
            Ok(v) => v,
            Err(e) => {
                return Err(e);
            },
        };
        if w >= 0x8000_0000 {
            Ok(-((0xFFFF_FFFFu32 - w) as i32) - 1)
        } else {
            Ok(w as i32)
        }
    }

    /// Reads a big-endian 64-bit signed integer.
    pub fn get_i64(&mut self) -> (r: Result<i64, DecodeError>)
        requires
            old(self).wf(),
        ensures
            final(self).spec_data() == old(self).spec_data(),
            final(self).wf(),
            old(self).spec_offset() + 8 <= old(self).spec_data().len() ==> (r == Ok::<
                i64,
                DecodeError,
            >(signed64(be64_at(old(self).spec_data(), old(self).spec_offset()))) && final(self).spec_offset() == old(self).spec_offset() + 8),
            old(self).spec_offset() + 8 > old(self).spec_data().len() ==> (r == Err::<
                i64,
                DecodeError,
            >(
                DecodeError::EndOfInput {
                    offset: old(self).spec_offset() as usize,
                    length: old(self).spec_data().len() as usize,
                    count: 8,
                },
            ) && final(self).spec_offset() == old(self).spec_offset()),
    {
        let w = match self.get_u64() {
            Ok(v) => v,
            Err(e) => {
                return Err(e);
            },
        };
        if w >= 0x8000_0000_0000_0000 {
            Ok(-((0xFFFF_FFFF_FFFF_FFFFu64 - w) as i64) - 1)
        } else {
            Ok(w as i64)
        }
    }

    /// Reads a 32-bit word and narrows it to a `u8`.
    pub fn get_u8(&mut self) -> (r: Result<u8, DecodeError>)
        requires
            old(self).wf(),
        ensures
            final(self).spec_data() == old(self).spec_data(),
            final(self).wf(),
            ({
                let off = old(self).spec_offset();
                let dlen = old(self).spec_data().len();
                if off + 4 > dlen {
                    r == Err::<u8, DecodeError>(
                        DecodeError::EndOfInput {
                            offset: off as usize,
                            length: dlen as usize,
                            count: 4,
                        },
                    ) && final(self).spec_offset() == off
                } else {
                    let w = be32_at(old(self).spec_data(), off);
                    &&& w <= 255 ==> r == Ok::<u8, DecodeError>(w as u8)
                    &&& w > 255 ==> r == Err::<u8, DecodeError>(
                        DecodeError::U8Conversion { offset: off as usize, value: w },
                    )
                    &&& final(self).spec_offset() == off + 4
                }
            }),
    {
        let offset = self.offset;
        let value = match self.get_u32() {
            Ok(v) => v,
            Err(e) => {
                return Err(e);
            },
        };
        if value <= 255 {
            Ok(value as u8)
        } else {
            Err(DecodeError::U8Conversion { offset, value })
        }
    }

    /// Reads a 32-bit word and narrows it to a `u16`.
    pub fn get_u16(&mut self) -> (r: Result<u16, DecodeError>)
        requires
            old(self).wf(),
        ensures
            final(self).spec_data() == old(self).spec_data(),
            final(self).wf(),
            ({
                let off = old(self).spec_offset();
                let dlen = old(self).spec_data().len();
                if off + 4 > dlen {
                    r == Err::<u16, DecodeError>(
                        DecodeError::EndOfInput {
                            offset: off as usize,
                            length: dlen as usize,
                            count: 4,
                        },
                    ) && final(self).spec_offset() == off
                } else {
                    let w = be32_at(old(self).spec_data(), off);
                    &&& w <= 65535 ==> r == Ok::<u16, DecodeError>(w as u16)
                    &&& w > 65535 ==> r == Err::<u16, DecodeError>(
                        DecodeError::U16Conversion { offset: off as usize, value: w },
                    )
                    &&& final(self).spec_offset() == off + 4
                }
            }),
    {
        let offset = self.offset;
        let value = match self.get_u32() {
            Ok(v) => v,
            Err(e) => {
                return Err(e);
            },
        };
        if value <= 65535 {
            Ok(value as u16)
        } else {
            Err(DecodeError::U16Conversion { offset, value })
        }
    }

    /// Reads a big-endian 32-bit unsigned integer.
    pub fn get_u32(&mut self) -> (r: Result<u32, DecodeError>)
        requires
            old(self).wf(),
        ensures
            final(self).spec_data() == old(self).spec_data(),
            final(self).wf(),
            old(self).spec_offset() + 4 <= old(self).spec_data().len() ==> (r == Ok::<
                u32,
                DecodeError,
            >(be32_at(old(self).spec_data(), old(self).spec_offset())) && final(self).spec_offset()
                == old(self).spec_offset() + 4),
            old(self).spec_offset() + 4 > old(self).spec_data().len() ==> (r == Err::<
                u32,
                DecodeError,
            >(
                DecodeError::EndOfInput {
                    offset: old(self).spec_offset() as usize,
                    length: old(self).spec_data().len() as usize,
                    count: 4,
                },
            ) && final(self).spec_offset() == old(self).spec_offset()),
    {
        let b = match self.get_4_bytes() {
            Ok(v) => v,
            Err(e) => {
                return Err(e);
            },
        };
        Ok(((b[0] as u32) << 24) | ((b[1] as u32) << 16) | ((b[2] as u32) << 8) | (b[3] as u32))
    }

    /// Reads a big-endian 64-bit unsigned integer.
    pub fn get_u64(&mut self) -> (r: Result<u64, DecodeError>)
        requires
            old(self).wf(),
        ensures
            final(self).spec_data() == old(self).spec_data(),
            final(self).wf(),
            old(self).spec_offset() + 8 <= old(self).spec_data().len() ==> (r == Ok::<
                u64,
                DecodeError,
            >(be64_at(old(self).spec_data(), old(self).spec_offset())) && final(self).spec_offset()
                == old(self).spec_offset() + 8),
            old(self).spec_offset() + 8 > old(self).spec_data().len() ==> (r == Err::<
                u64,
                DecodeError,
            >(
                DecodeError::EndOfInput {
                    offset: old(self).spec_offset() as usize,
                    length: old(self).spec_data().len() as usize,
                    count: 8,
                },
            ) && final(self).spec_offset() == old(self).spec_offset()),
    {
        let b = match self.get_8_bytes() {
            Ok(v) => v,
            Err(e) => {
                return Err(e);
            },
        };
        Ok(
            ((b[0] as u64) << 56) | ((b[1] as u64) << 48) | ((b[2] as u64) << 40) | ((
            b[3] as u64) << 32) | ((b[4] as u64) << 24) | ((b[5] as u64) << 16) | ((
            b[6] as u64) << 8) | (b[7] as u64),
        )
    }

    /// Reads a 32-bit word as a `usize` length.
    pub fn get_usize(&mut self) -> (r: Result<usize, DecodeError>)
        requires
            old(self).wf(),
        ensures
            final(self).spec_data() == old(self).spec_data(),
            final(self).wf(),
            old(self).spec_offset() + 4 <= old(self).spec_data().len() ==> (r == Ok::<
                usize,
                DecodeError,
            >(be32_at(old(self).spec_data(), old(self).spec_offset()) as usize) && final(self).spec_offset() == old(self).spec_offset() + 4),
            old(self).spec_offset() + 4 > old(self).spec_data().len() ==> (r == Err::<
                usize,
                DecodeError,
            >(
                DecodeError::EndOfInput {
                    offset: old(self).spec_offset() as usize,
                    length: old(self).spec_data().len() as usize,
                    count: 4,
                },
            ) && final(self).spec_offset() == old(self).spec_offset()),
    {
        let value = match self.get_u32() {
            Ok(v) => v,
            Err(e) => {
                return Err(e);
            },
        };
        Ok(value as usize)
    }

    /// Reads a length-prefixed UTF-8 string.
    pub fn get_str(&mut self) -> (r: Result<&'a str, DecodeError>)
        requires
            old(self).wf(),
        ensures
            final(self).spec_data() == old(self).spec_data(),
            final(self).wf(),
            ({
                let off = old(self).spec_offset();
                let dlen = old(self).spec_data().len();
                if off + 4 > dlen {
                    r == Err::<&'a str, DecodeError>(
                        DecodeError::EndOfInput {
                            offset: off as usize,
                            length: dlen as usize,
                            count: 4,
                        },
                    ) && final(self).spec_offset() == off
                } else {
                    let n = be32_at(old(self).spec_data(), off) as int;
                    let body = old(self).spec_data().subrange(off + 4, off + 4 + n);
                    if off + 4 + n > dlen {
                        r == Err::<&'a str, DecodeError>(
                            DecodeError::EndOfInput {
                                offset: (off + 4) as usize,
                                length: dlen as usize,
                                count: n as usize,
                            },
                        ) && final(self).spec_offset() == off + 4
                    } else if align4(off + 4 + n) > dlen {
                        r == Err::<&'a str, DecodeError>(
                            DecodeError::EndOfInput {
                                offset: (off + 4 + n) as usize,
                                length: dlen as usize,
                                count: pad4(off + 4 + n) as usize,
                            },
                        ) && final(self).spec_offset() == off + 4 + n
                    } else if !vstd::utf8::valid_utf8(body) {
                        r == Err::<&'a str, DecodeError>(
                            DecodeError::InvalidStr { offset: (off + 4) as usize, length: n as usize },
                        ) && final(self).spec_offset() == align4(off + 4 + n)
                    } else {
                        (r matches Ok(s) && s.spec_bytes() =~= body && final(self).spec_offset()
                            == align4(off + 4 + n))
                    }
                }
            }),
    {
        let length = match self.get_usize() {
            Ok(v) => v,
            Err(e) => {
                return Err(e);
            },
        };
        let offset = self.offset;
        let data = match self.get_n_bytes(length) {
            Ok(v) => v,
            Err(e) => {
                return Err(e);
            },
        };
        match bytes_as_str(data) {
            Some(s) => Ok(s),
            None => Err(DecodeError::InvalidStr { offset, length }),
        }
    }

    /// Reads a value by dispatching through [`GetFromDecoder`]: exactly
    /// what the type's own decode names at the decoder's position.
    pub fn get<F: GetFromDecoder>(&mut self) -> (r: Result<F, DecodeError>)
        requires
            old(self).wf(),
        ensures
            final(self).wf(),
            final(self).spec_data() == old(self).spec_data(),
            ({
                match F::spec_decode(old(self).spec_data(), old(self).spec_offset()) {
                    Some(vo) => r == Ok::<F, DecodeError>(vo.0) && final(self).spec_offset()
                        == vo.1,
                    None => r is Err,
                }
            }),
    {
        GetFromDecoder::get_from_decoder(self)
    }
}

/// Reads one element of a slice.
fn slice_get<'a>(s: &'a [u8], i: usize) -> (r: &'a u8)
    requires
        i < s@.len(),
    ensures
        *r == s@[i as int],
{
    vstd::slice::slice_index_get(s, i)
}

/// Relies on `core::str::from_utf8`: it succeeds exactly on valid UTF-8
/// input and yields a view of the same bytes.
#[verifier::external_body]
fn bytes_as_str(bytes: &[u8]) -> (r: Option<&str>)
    ensures
        r is Some <==> vstd::utf8::valid_utf8(bytes@),
        r matches Some(s) ==> s.spec_bytes() =~= bytes@,
{
    core::str::from_utf8(bytes).ok()
}

/// Reads a value of the implementing type from an XDR decoder.
pub trait GetFromDecoder: Sized {
    /// What one read of this type yields at offset `off` of `d`: the
    /// value and the offset just past it, or nothing when the read
    /// fails there.
    spec fn spec_decode(d: Seq<u8>, off: int) -> Option<(Self, int)>;

    /// Reads one value, advancing the decoder: exactly what
    /// [`Self::spec_decode`] names at the decoder's position.
    fn get_from_decoder<'a>(decoder: &mut Decoder<'a>) -> (r: Result<Self, DecodeError>)
        requires
            old(decoder).wf(),
        ensures
            final(decoder).wf(),
            final(decoder).spec_data() == old(decoder).spec_data(),
            ({
                match Self::spec_decode(old(decoder).spec_data(), old(decoder).spec_offset()) {
                    Some(vo) => r == Ok::<Self, DecodeError>(vo.0) && final(decoder).spec_offset()
                        == vo.1,
                    None => r is Err,
                }
            }),
    ;
}

impl GetFromDecoder for bool {
    open spec fn spec_decode(d: Seq<u8>, off: int) -> Option<(bool, int)> {
        if off + 4 <= d.len() && be32_at(d, off) <= 1 {
            Some((be32_at(d, off) == 1, off + 4))
        } else {
            None
        }
    }

    fn get_from_decoder<'a>(decoder: &mut Decoder<'a>) -> Result<Self, DecodeError> {
        decoder.get_bool()
    }
}

impl GetFromDecoder for i8 {
    open spec fn spec_decode(d: Seq<u8>, off: int) -> Option<(i8, int)> {
        if off + 4 <= d.len() && -128 <= signed32(be32_at(d, off)) <= 127 {
            Some((signed32(be32_at(d, off)) as i8, off + 4))
        } else {
            None
        }
    }

    fn get_from_decoder<'a>(decoder: &mut Decoder<'a>) -> Result<Self, DecodeError> {
        decoder.get_i8()
    }
}

impl GetFromDecoder for i16 {
    open spec fn spec_decode(d: Seq<u8>, off: int) -> Option<(i16, int)> {
        if off + 4 <= d.len() && -32768 <= signed32(be32_at(d, off)) <= 32767 {
            Some((signed32(be32_at(d, off)) as i16, off + 4))
        } else {
            None
        }
    }

    fn get_from_decoder<'a>(decoder: &mut Decoder<'a>) -> Result<Self, DecodeError> {
        decoder.get_i16()
    }
}

impl GetFromDecoder for i32 {
    open spec fn spec_decode(d: Seq<u8>, off: int) -> Option<(i32, int)> {
        if off + 4 <= d.len() {
            Some((signed32(be32_at(d, off)), off + 4))
        } else {
            None
        }
    }

    fn get_from_decoder<'a>(decoder: &mut Decoder<'a>) -> Result<Self, DecodeError> {
        decoder.get_i32()
    }
}

impl GetFromDecoder for i64 {
    open spec fn spec_decode(d: Seq<u8>, off: int) -> Option<(i64, int)> {
        if off + 8 <= d.len() {
            Some((signed64(be64_at(d, off)), off + 8))
        } else {
            None
        }
    }

    fn get_from_decoder<'a>(decoder: &mut Decoder<'a>) -> Result<Self, DecodeError> {
        decoder.get_i64()
    }
}

impl GetFromDecoder for u8 {
    open spec fn spec_decode(d: Seq<u8>, off: int) -> Option<(u8, int)> {
        if off + 4 <= d.len() && be32_at(d, off) <= 255 {
            Some((be32_at(d, off) as u8, off + 4))
        } else {
            None
        }
    }

    fn get_from_decoder<'a>(decoder: &mut Decoder<'a>) -> Result<Self, DecodeError> {
        decoder.get_u8()
    }
}

impl GetFromDecoder for u16 {
    open spec fn spec_decode(d: Seq<u8>, off: int) -> Option<(u16, int)> {
        if off + 4 <= d.len() && be32_at(d, off) <= 65535 {
            Some((be32_at(d, off) as u16, off + 4))
        } else {
            None
        }
    }

    fn get_from_decoder<'a>(decoder: &mut Decoder<'a>) -> Result<Self, DecodeError> {
        decoder.get_u16()
    }
}

impl GetFromDecoder for u32 {
    open spec fn spec_decode(d: Seq<u8>, off: int) -> Option<(u32, int)> {
        if off + 4 <= d.len() {
            Some((be32_at(d, off), off + 4))
        } else {
            None
        }
    }

    fn get_from_decoder<'a>(decoder: &mut Decoder<'a>) -> Result<Self, DecodeError> {
        decoder.get_u32()
    }
}

impl GetFromDecoder for u64 {
    open spec fn spec_decode(d: Seq<u8>, off: int) -> Option<(u64, int)> {
        if off + 8 <= d.len() {
            Some((be64_at(d, off), off + 8))
        } else {
            None
        }
    }

    fn get_from_decoder<'a>(decoder: &mut Decoder<'a>) -> Result<Self, DecodeError> {
        decoder.get_u64()
    }
}

impl GetFromDecoder for usize {
    open spec fn spec_decode(d: Seq<u8>, off: int) -> Option<(usize, int)> {
        if off + 4 <= d.len() {
            Some((be32_at(d, off) as usize, off + 4))
        } else {
            None
        }
    }

    fn get_from_decoder<'a>(decoder: &mut Decoder<'a>) -> Result<Self, DecodeError> {
        decoder.get_usize()
    }
}

} // verus!
