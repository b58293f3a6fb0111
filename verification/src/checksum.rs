//! Checksums over opaque blocks: the Fletcher family, SHA adaptors, and
//! the block-level and label-level checksum schemes built on them.

pub mod block;
pub mod fletcher;
pub mod label;
pub mod sha256;
pub mod sha512;

pub use block::{block_checksum, block_verify, BlockChecksumError, BlockVerifyError};
pub use fletcher::{fletcher_2_be, fletcher_2_le, fletcher_4_be, fletcher_4_le};
pub use label::{label_checksum, label_verify, LabelChecksumError, LabelVerifyError};
pub use sha256::{sha_256_digest, sha_256_digest_slices};
pub use sha512::{sha_512_256_digest, sha_512_256_digest_slices};
