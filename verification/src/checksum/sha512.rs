//! SHA-512/256 digests packed into the native four-word checksum shape.

use vstd::prelude::*;

use crate::endian::{word64_of, Endian};

verus! {

/// The 32-byte SHA-512/256 digest of `data`. The digest depends on the
/// bytes alone.
pub uninterp spec fn sha512_256_bytes(data: Seq<u8>) -> Seq<u8>;

/// A 32-byte digest read as four big-endian 64-bit words.
pub open spec fn digest_words_512(d: Seq<u8>) -> Seq<u64>
    recommends
        d.len() == 32,
{
    seq![
        word64_of(d.subrange(0, 8), Endian::Big),
        word64_of(d.subrange(8, 16), Endian::Big),
        word64_of(d.subrange(16, 24), Endian::Big),
        word64_of(d.subrange(24, 32), Endian::Big),
    ]
}

/// The SHA-512/256 checksum of `data` in the native four-word shape.
pub open spec fn sha512_256_words(data: Seq<u8>) -> Seq<u64> {
    digest_words_512(sha512_256_bytes(data))
}

/// Relies on `sha2::Sha512_256::digest`: the 32-byte SHA-512/256 digest
/// of the input, a function of the bytes alone.
#[verifier::external_body]
fn sha_512_256_raw(data: &[u8]) -> (r: Vec<u8>)
    ensures
        r@ == sha512_256_bytes(data@),
        r@.len() == 32,
{
    <sha2::Sha512_256 as sha2::digest::Digest>::digest(data).to_vec()
}

/// Relies on `sha2::Sha512_256::new`/`update`/`finalize`: feeding the
/// slices in order digests their concatenation, exactly as one `digest`
/// call on the concatenated bytes would.
#[verifier::external_body]
fn sha_512_256_raw_slices(datas: &[&[u8]]) -> (r: Vec<u8>)
    ensures
        r@ == sha512_256_bytes(datas.deep_view().flatten()),
        r@.len() == 32,
{
    let mut hasher: sha2::Sha512_256 = sha2::digest::Digest::new();
    for data in datas {
        sha2::digest::Digest::update(&mut hasher, data);
    }
    sha2::digest::Digest::finalize(hasher).to_vec()
}

/// Packs a 32-byte digest into four native 64-bit words, reading them
/// big-endian.
fn digest_to_zfs_u64(digest: &Vec<u8>) -> (r: [u64; 4])
    requires
        digest@.len() == 32,
    ensures
        r@ == digest_words_512(digest@),
{
    let mut dec = crate::endian::Decoder::from_bytes(digest.as_slice(), Endian::Big);
    let mut w: [u64; 4] = [0, 0, 0, 0];
    let mut i: usize = 0;
    while i < 4
        invariant
            0 <= i <= 4,
            dec.wf(),
            dec.spec_data() == digest@,
            digest@.len() == 32,
            dec.spec_endian() == Endian::Big,
            dec.spec_offset() == 8 * i,
            forall|j: int|
                0 <= j < i ==> w@[j] == word64_of(
                    digest@.subrange(8 * j, 8 * j + 8),
                    Endian::Big,
                ),
        decreases 4 - i,
    {
        let v = match dec.get_u64() {
            Ok(v) => v,
            Err(_) => 0,
        };
        w[i] = v;
        i = i + 1;
    }
    proof {
        assert(w@ =~= digest_words_512(digest@));
    }
    w
}

/// Computes the SHA-512/256 checksum of `data` in the native four-word
/// shape.
pub fn sha_512_256_digest(data: &[u8]) -> (r: [u64; 4])
    ensures
        r@ == sha512_256_words(data@),
{
    let digest = sha_512_256_raw(data);
    digest_to_zfs_u64(&digest)
}

/// Computes the SHA-512/256 checksum of the concatenation of `datas` in
/// the native four-word shape, without copying the slices together.
pub fn sha_512_256_digest_slices(datas: &[&[u8]]) -> (r: [u64; 4])
    ensures
        r@ == sha512_256_words(datas.deep_view().flatten()),
{
    let digest = sha_512_256_raw_slices(datas);
    digest_to_zfs_u64(&digest)
}

} // verus!
