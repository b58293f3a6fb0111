//! The physical on-disk structures of a storage pool: primitive typed
//! values, block pointers, dnodes, object sets, uberblocks, and labels.

pub mod checksum_tail;
pub mod checksum_type;
pub mod checksum_value;
pub mod compression_type;
pub mod dmu_type;
pub mod dnode;
pub mod dva;
pub mod label;
pub mod object_set;
pub mod pool;
pub mod uber_block;
pub mod vdev;
pub mod zil_header;

pub use checksum_tail::ChecksumTail;
pub use checksum_type::{ChecksumType, ChecksumTypeError};
pub use checksum_value::ChecksumValue;
pub use compression_type::{CompressionType, CompressionTypeError};
pub use dmu_type::{DmuType, DmuTypeError};
pub use dnode::{
    Dnode, DnodeDecodeError, DnodeEncodeError, DnodeTail, DnodeTailOne, DnodeTailSpill,
    DnodeTailThree, DnodeTailTwo, DnodeTailZero,
};
pub use dva::{Dva, DvaDecodeError, DvaEncodeError};
pub use pool::{
    Pool, PoolDecodeError, PoolFeaturesForRead, PoolHealth, PoolHost, PoolState, PoolVersion,
};
pub use vdev::{Vdev, VdevAlignmentMetaSlab, VdevDecodeError, VdevDisk, VdevTree};
pub use object_set::{
    ObjectSet, ObjectSetDecodeError, ObjectSetEncodeError, ObjectSetExtension, ObjectSetType,
};
pub use label::{
    Blank, BlankDecodeError, BootBlock, BootBlockDecodeError, BootHeader, BootHeaderDecodeError,
    Label, LabelDecode, LabelOffsetError, NvPairs, NvPairsDecodeError,
};
pub use uber_block::{UberBlock, UberBlockDecodeError, UberBlockEncodeError, UberBlockMmp};
pub use zil_header::{ZilHeader, ZilHeaderDecodeError, ZilHeaderEncodeError};
pub mod block_pointer;
pub use block_pointer::{
    BlockPointer, BlockPointerDecodeError, BlockPointerEmbedded, BlockPointerEmbeddedType,
    BlockPointerEncodeError, BlockPointerEncrypted, BlockPointerRegular,
};
