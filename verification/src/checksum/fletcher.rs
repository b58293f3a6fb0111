//! Fletcher-2 and Fletcher-4 running-sum checksums.
//!
//! Fletcher-2 consumes the input sixteen bytes at a time as two 64-bit
//! words; Fletcher-4 consumes it four bytes at a time as one 32-bit word.
//! Bytes past the last whole chunk are ignored. All accumulator sums wrap.

use vstd::prelude::*;
use vstd::wrapping::u64_specs;

use crate::endian::{word32_of, word64_of, Endian};

verus! {

/// The four Fletcher-2 accumulators after the first `n` sixteen-byte
/// chunks of `data`, each word loaded in the order given by `e`.
pub open spec fn fletcher2_state(data: Seq<u8>, e: Endian, n: nat) -> Seq<u64>
    decreases n,
{
    if n == 0 {
        seq![0u64, 0u64, 0u64, 0u64]
    } else {
        let prev = fletcher2_state(data, e, (n - 1) as nat);
        let base = 16 * (n - 1);
        let x = word64_of(data.subrange(base, base + 8), e);
        let y = word64_of(data.subrange(base + 8, base + 16), e);
        let c0 = u64_specs::wrapping_add(prev[0], x);
        let c1 = u64_specs::wrapping_add(prev[1], y);
        let c2 = u64_specs::wrapping_add(prev[2], c0);
        let c3 = u64_specs::wrapping_add(prev[3], c1);
        seq![c0, c1, c2, c3]
    }
}

/// The Fletcher-2 checksum of `data` with words loaded in the order
/// given by `e`.
pub open spec fn fletcher2(data: Seq<u8>, e: Endian) -> Seq<u64> {
    fletcher2_state(data, e, (data.len() / 16) as nat)
}

/// The four Fletcher-4 accumulators after the first `n` four-byte chunks
/// of `data`, each word loaded in the order given by `e`.
pub open spec fn fletcher4_state(data: Seq<u8>, e: Endian, n: nat) -> Seq<u64>
    decreases n,
{
    if n == 0 {
        seq![0u64, 0u64, 0u64, 0u64]
    } else {
        let prev = fletcher4_state(data, e, (n - 1) as nat);
        let base = 4 * (n - 1);
        let v = word32_of(data.subrange(base, base + 4), e) as u64;
        let c0 = u64_specs::wrapping_add(prev[0], v);
        let c1 = u64_specs::wrapping_add(c0, prev[1]);
        let c2 = u64_specs::wrapping_add(c1, prev[2]);
        let c3 = u64_specs::wrapping_add(c2, prev[3]);
        seq![c0, c1, c2, c3]
    }
}

/// The Fletcher-4 checksum of `data` with words loaded in the order
/// given by `e`.
pub open spec fn fletcher4(data: Seq<u8>, e: Endian) -> Seq<u64> {
    fletcher4_state(data, e, (data.len() / 4) as nat)
}

/// Computes the Fletcher-2 checksum, loading each word in the order
/// given by `endian`.
fn fletcher_2_impl(data: &[u8], endian: Endian) -> (r: [u64; 4])
    ensures
        r@ == fletcher2(data@, endian),
{
    let mut c0: u64 = 0;
    let mut c1: u64 = 0;
    let mut c2: u64 = 0;
    let mut c3: u64 = 0;
    let dlen = data.len();
    let n = dlen / 16;
    let mut i: usize = 0;
    while i < n
        invariant
            n == data@.len() / 16,
            dlen == data@.len(),
            0 <= i <= n,
            seq![c0, c1, c2, c3] =~= fletcher2_state(data@, endian, i as nat),
        decreases n - i,
    {
        let base = 16 * i;
        let mut dec = crate::endian::Decoder::from_bytes(data, endian);
        let ghost pre = seq![c0, c1, c2, c3];
        proof {
            assert(16 * i + 16 <= 16 * n <= data@.len()) by (nonlinear_arith)
                requires
                    i < n,
                    n == data@.len() / 16,
            ;
        }
        match dec.skip(base) {
            Ok(()) => (),
            Err(_) => (),
        }
        let x = match dec.get_u64() {
            Ok(v) => v,
            Err(_) => 0,
        };
        let y = match dec.get_u64() {
            Ok(v) => v,
            Err(_) => 0,
        };
        c0 = c0.wrapping_add(x);
        c1 = c1.wrapping_add(y);
        c2 = c2.wrapping_add(c0);
        c3 = c3.wrapping_add(c1);
        i = i + 1;
        proof {
            assert(fletcher2_state(data@, endian, i as nat) == seq![
                u64_specs::wrapping_add(pre[0], x),
                u64_specs::wrapping_add(pre[1], y),
                u64_specs::wrapping_add(pre[2], u64_specs::wrapping_add(pre[0], x)),
                u64_specs::wrapping_add(pre[3], u64_specs::wrapping_add(pre[1], y)),
            ]);
            assert(seq![c0, c1, c2, c3] =~= fletcher2_state(data@, endian, i as nat));
        }
    }
    proof {
        assert(i == data@.len() / 16);
    }
    [c0, c1, c2, c3]
}

/// Computes the Fletcher-4 checksum, loading each word in the order
/// given by `endian`.
fn fletcher_4_impl(data: &[u8], endian: Endian) -> (r: [u64; 4])
    ensures
        r@ == fletcher4(data@, endian),
{
    let mut c0: u64 = 0;
    let mut c1: u64 = 0;
    let mut c2: u64 = 0;
    let mut c3: u64 = 0;
    let dlen = data.len();
    let n = dlen / 4;
    let mut i: usize = 0;
    while i < n
        invariant
            n == data@.len() / 4,
            dlen == data@.len(),
            0 <= i <= n,
            seq![c0, c1, c2, c3] =~= fletcher4_state(data@, endian, i as nat),
        decreases n - i,
    {
        let base = 4 * i;
        let mut dec = crate::endian::Decoder::from_bytes(data, endian);
        let ghost pre = seq![c0, c1, c2, c3];
        proof {
            assert(4 * i + 4 <= 4 * n <= data@.len()) by (nonlinear_arith)
                requires
                    i < n,
                    n == data@.len() / 4,
            ;
        }
        match dec.skip(base) {
            Ok(()) => (),
            Err(_) => (),
        }
        let v32 = match dec.get_u32() {
            Ok(v) => v,
            Err(_) => 0,
        };
        let v = v32 as u64;
        c0 = c0.wrapping_add(v);
        c1 = c0.wrapping_add(c1);
        c2 = c1.wrapping_add(c2);
        c3 = c2.wrapping_add(c3);
        i = i + 1;
        proof {
            assert(seq![c0, c1, c2, c3] =~= fletcher4_state(data@, endian, i as nat));
        }
    }
    proof {
        assert(i == data@.len() / 4);
    }
    [c0, c1, c2, c3]
}

/// Computes the Fletcher-2 checksum of big-endian data.
pub fn fletcher_2_be(data: &[u8]) -> (r: [u64; 4])
    ensures
        r@ == fletcher2(data@, Endian::Big),
{
    fletcher_2_impl(data, Endian::Big)
}

/// Computes the Fletcher-2 checksum of little-endian data.
pub fn fletcher_2_le(data: &[u8]) -> (r: [u64; 4])
    ensures
        r@ == fletcher2(data@, Endian::Little),
{
    fletcher_2_impl(data, Endian::Little)
}

/// Computes the Fletcher-4 checksum of big-endian data.
pub fn fletcher_4_be(data: &[u8]) -> (r: [u64; 4])
    ensures
        r@ == fletcher4(data@, Endian::Big),
{
    fletcher_4_impl(data, Endian::Big)
}

/// Computes the Fletcher-4 checksum of little-endian data.
pub fn fletcher_4_le(data: &[u8]) -> (r: [u64; 4])
    ensures
        r@ == fletcher4(data@, Endian::Little),
{
    fletcher_4_impl(data, Endian::Little)
}

} // verus!
