//! SHA-256 digests packed into the native four-word checksum shape.

use vstd::prelude::*;

use crate::endian::{word32_of, Endian};

verus! {

/// The 32-byte SHA-256 digest of `data`. The digest depends on the
/// bytes alone.
pub uninterp spec fn sha256_bytes(data: Seq<u8>) -> Seq<u8>;

/// A 32-byte digest packed as four 64-bit words: each word pairs two
/// big-endian 32-bit digest words, high half first.
pub open spec fn digest_words_256(d: Seq<u8>) -> Seq<u64>
    recommends
        d.len() == 32,
{
    seq![
        ((word32_of(d.subrange(0, 4), Endian::Big) as u64) << 32) | (word32_of(
            d.subrange(4, 8),
            Endian::Big,
        ) as u64),
        ((word32_of(d.subrange(8, 12), Endian::Big) as u64) << 32) | (word32_of(
            d.subrange(12, 16),
            Endian::Big,
        ) as u64),
        ((word32_of(d.subrange(16, 20), Endian::Big) as u64) << 32) | (word32_of(
            d.subrange(20, 24),
            Endian::Big,
        ) as u64),
        ((word32_of(d.subrange(24, 28), Endian::Big) as u64) << 32) | (word32_of(
            d.subrange(28, 32),
            Endian::Big,
        ) as u64),
    ]
}

/// The SHA-256 checksum of `data` in the native four-word shape.
pub open spec fn sha256_words(data: Seq<u8>) -> Seq<u64> {
    digest_words_256(sha256_bytes(data))
}

/// Relies on `sha2::Sha256::digest`: the 32-byte SHA-256 digest of the
/// input, a function of the bytes alone.
#[verifier::external_body]
fn sha_256_raw(data: &[u8]) -> (r: Vec<u8>)
    ensures
        r@ == sha256_bytes(data@),
        r@.len() == 32,
{
    <sha2::Sha256 as sha2::digest::Digest>::digest(data).to_vec()
}

/// Relies on `sha2::Sha256::new`/`update`/`finalize`: feeding the slices
/// in order digests their concatenation, exactly as one `digest` call on
/// the concatenated bytes would.
#[verifier::external_body]
fn sha_256_raw_slices(datas: &[&[u8]]) -> (r: Vec<u8>)
    ensures
        r@ == sha256_bytes(datas.deep_view().flatten()),
        r@.len() == 32,
{
    let mut hasher: sha2::Sha256 = sha2::digest::Digest::new();
    for data in datas {
        sha2::digest::Digest::update(&mut hasher, data);
    }
    sha2::digest::Digest::finalize(hasher).to_vec()
}

/// Packs a 32-byte digest into four native 64-bit words, reading the
/// digest as eight big-endian 32-bit words and pairing them.
fn digest_to_zfs_u64(digest: &Vec<u8>) -> (r: [u64; 4])
    requires
        digest@.len() == 32,
    ensures
        r@ == digest_words_256(digest@),
{
    let mut dec = crate::endian::Decoder::from_bytes(digest.as_slice(), Endian::Big);
    let mut h: [u32; 8] = [0, 0, 0, 0, 0, 0, 0, 0];
    let mut i: usize = 0;
    while i < 8
        invariant
            0 <= i <= 8,
            dec.wf(),
            dec.spec_data() == digest@,
            digest@.len() == 32,
            dec.spec_endian() == Endian::Big,
            dec.spec_offset() == 4 * i,
            forall|j: int|
                0 <= j < i ==> h@[j] == word32_of(
                    digest@.subrange(4 * j, 4 * j + 4),
                    Endian::Big,
                ),
        decreases 8 - i,
    {
        let v = match dec.get_u32() {
            Ok(v) => v,
            Err(_) => 0,
        };
        h[i] = v;
        i = i + 1;
    }
    let r: [u64; 4] = [
        ((h[0] as u64) << 32) | (h[1] as u64),
        ((h[2] as u64) << 32) | (h[3] as u64),
        ((h[4] as u64) << 32) | (h[5] as u64),
        ((h[6] as u64) << 32) | (h[7] as u64),
    ];
    proof {
        assert(r@ =~= digest_words_256(digest@));
    }
    r
}

/// Computes the SHA-256 checksum of `data` in the native four-word shape.
pub fn sha_256_digest(data: &[u8]) -> (r: [u64; 4])
    ensures
        r@ == sha256_words(data@),
{
    let digest = sha_256_raw(data);
    digest_to_zfs_u64(&digest)
}

/// Computes the SHA-256 checksum of the concatenation of `datas` in the
/// native four-word shape, without copying the slices together.
pub fn sha_256_digest_slices(datas: &[&[u8]]) -> (r: [u64; 4])
    ensures
        r@ == sha256_words(datas.deep_view().flatten()),
{
    let digest = sha_256_raw_slices(datas);
    digest_to_zfs_u64(&digest)
}

} // verus!
