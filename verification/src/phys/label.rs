//! The 256 KiB label: a fixed partition into a blank run, a checksummed
//! boot header, the checksummed name-value region, and 128 uberblocks,
//! each verified on its own. Four labels live on a device: two at the
//! head, two at the tail, with the boot block between.

use vstd::prelude::*;

use crate::checksum::label::{label_verified, label_verify, label_verify_post, LabelVerifyError};
use crate::phys::uber_block::{UberBlock, UberBlockDecodeError};

verus! {

/// Byte length of the blank leading region of a label.
pub const BLANK_LENGTH: usize = 8192;

/// Byte length of the blank region's payload (the tail slot excluded).
pub const BLANK_PAYLOAD_LENGTH: usize = 8152;

/// Byte length of the boot header region of a label.
pub const BOOT_HEADER_LENGTH: usize = 8192;

/// Byte offset of the boot header region within a label.
pub const BOOT_HEADER_OFFSET: usize = 8192;

/// Byte length of the boot header's payload (the checksum tail excluded).
pub const BOOT_HEADER_PAYLOAD_LENGTH: usize = 8152;

/// Byte length of the name-value region of a label.
pub const NV_PAIRS_LENGTH: usize = 114688;

/// Byte offset of the name-value region within a label.
pub const NV_PAIRS_OFFSET: usize = 16384;

/// Byte length of the name-value region's payload (the checksum tail
/// excluded).
pub const NV_PAIRS_PAYLOAD_LENGTH: usize = 114648;

/// Byte length of the boot block between the second and third label.
pub const BOOT_BLOCK_LENGTH: usize = 3670016;

/// Byte offset of the boot block on a device.
pub const BOOT_BLOCK_OFFSET: usize = 524288;

/// Byte length of one label.
pub const LABEL_LENGTH: usize = 262144;

/// Count of labels on a device.
pub const LABEL_COUNT: usize = 4;

/// Count of uberblock slots in a label.
pub const UBER_COUNT: usize = 128;

/// Byte offset of the uberblock array within a label.
pub const UBER_OFFSET: usize = 131072;

/// The blank leading region of a label. Nothing in it is interpreted.
#[derive(Clone, Debug, PartialEq)]
pub struct Blank {
    pub payload: Vec<u8>,
}

/// A failure while decoding the blank region. It has no failure modes.
#[derive(Debug, PartialEq)]
pub enum BlankDecodeError {
    /// Reserved; the blank region always decodes.
    Unreachable {},
}

impl Blank {
    /// Decodes the blank region: its payload is taken as found.
    pub fn from_bytes(bytes: &[u8]) -> (r: Result<Blank, BlankDecodeError>)
        requires
            bytes@.len() == BLANK_LENGTH,
        ensures
            r matches Ok(b) && b.payload@ == bytes@.subrange(0, BLANK_PAYLOAD_LENGTH as int),
    {
        let payload = vstd::slice::slice_to_vec(
            vstd::slice::slice_subrange(bytes, 0, BLANK_PAYLOAD_LENGTH),
        );
        Ok(Blank { payload })
    }
}

/// The checksum-protected boot header region of a label.
#[derive(Clone, Debug, PartialEq)]
pub struct BootHeader {
    pub payload: Vec<u8>,
}

/// A failure while decoding the boot header region.
#[derive(Debug, PartialEq)]
pub enum BootHeaderDecodeError {
    /// The label checksum does not verify.
    LabelVerifyError { err: LabelVerifyError },
}

impl BootHeader {
    /// Decodes the boot header region at device offset `offset`: the
    /// label checksum is verified, then the payload is taken as found.
    pub fn from_bytes(bytes: &[u8], offset: u64) -> (r: Result<BootHeader, BootHeaderDecodeError>)
        requires
            bytes@.len() == BOOT_HEADER_LENGTH,
        ensures
            label_verified(bytes@, offset) ==> (r matches Ok(b) && b.payload@ == bytes@.subrange(
                0,
                BOOT_HEADER_PAYLOAD_LENGTH as int,
            )),
            !label_verified(bytes@, offset) ==> (r matches Err(
                BootHeaderDecodeError::LabelVerifyError { err },
            ) && label_verify_post(bytes@, offset, Err(err))),
    {
        match label_verify(bytes, offset) {
            Ok(()) => (),
            Err(err) => {
                return Err(BootHeaderDecodeError::LabelVerifyError { err });
            },
        }
        let payload = vstd::slice::slice_to_vec(
            vstd::slice::slice_subrange(bytes, 0, BOOT_HEADER_PAYLOAD_LENGTH),
        );
        Ok(BootHeader { payload })
    }
}

/// The boot block between the second and third label of a device.
#[derive(Clone, Debug, PartialEq)]
pub struct BootBlock {
    pub payload: Vec<u8>,
}

/// A failure while decoding the boot block. It has no failure modes.
#[derive(Debug, PartialEq)]
pub enum BootBlockDecodeError {
    /// Reserved; the boot block always decodes.
    Unreachable {},
}

impl BootBlock {
    /// Decodes the boot block: its payload is taken as found.
    pub fn from_bytes(bytes: &[u8]) -> (r: Result<BootBlock, BootBlockDecodeError>)
        requires
            bytes@.len() == BOOT_BLOCK_LENGTH,
        ensures
            r matches Ok(b) && b.payload@ == bytes@,
    {
        let payload = vstd::slice::slice_to_vec(bytes);
        Ok(BootBlock { payload })
    }
}

/// The checksum-protected name-value region of a label.
#[derive(Clone, Debug, PartialEq)]
pub struct NvPairs {
    pub payload: Vec<u8>,
}

/// A failure while decoding the name-value region.
#[derive(Debug, PartialEq)]
pub enum NvPairsDecodeError {
    /// The label checksum does not verify.
    LabelVerifyError { err: LabelVerifyError },
}

impl NvPairs {
    /// Decodes the name-value region at device offset `offset`: the
    /// label checksum is verified, then the payload is taken as found.
    pub fn from_bytes(bytes: &[u8], offset: u64) -> (r: Result<NvPairs, NvPairsDecodeError>)
        requires
            bytes@.len() == NV_PAIRS_LENGTH,
        ensures
            label_verified(bytes@, offset) ==> (r matches Ok(b) && b.payload@ == bytes@.subrange(
                0,
                NV_PAIRS_PAYLOAD_LENGTH as int,
            )),
            !label_verified(bytes@, offset) ==> (r matches Err(
                NvPairsDecodeError::LabelVerifyError { err },
            ) && label_verify_post(bytes@, offset, Err(err))),
    {
        match label_verify(bytes, offset) {
            Ok(()) => (),
            Err(err) => {
                return Err(NvPairsDecodeError::LabelVerifyError { err });
            },
        }
        let payload = vstd::slice::slice_to_vec(
            vstd::slice::slice_subrange(bytes, 0, NV_PAIRS_PAYLOAD_LENGTH),
        );
        Ok(NvPairs { payload })
    }
}

/// The fixed label layout: offsets alone, no stored bytes.
#[derive(Clone, Copy, Debug, PartialEq, Eq, Structural)]
pub struct Label {}

/// A device too small to carry its four labels.
#[derive(Debug, PartialEq, Eq, Structural)]
pub enum LabelOffsetError {
    /// The device is smaller than four labels.
    InvalidSize { size: u64 },
}

impl Label {
    /// The device offsets of the four labels: two at the head, two at
    /// the tail. Fails exactly when the device is smaller than four
    /// labels.
    pub fn offsets(vdev_size: u64) -> (r: Result<[u64; 4], LabelOffsetError>)
        ensures
            vdev_size < 4 * (LABEL_LENGTH as u64) ==> r == Err::<[u64; 4], LabelOffsetError>(
                (LabelOffsetError::InvalidSize { size: vdev_size }),
            ),
            vdev_size >= 4 * (LABEL_LENGTH as u64) ==> (r matches Ok(o) && o@ =~= seq![
                LABEL_LENGTH as u64,
                (2 * (LABEL_LENGTH as int)) as u64,
                (vdev_size - 2 * (LABEL_LENGTH as int)) as u64,
                (vdev_size - (LABEL_LENGTH as int)) as u64,
            ]),
    {
        let label_length: u64 = LABEL_LENGTH as u64;
        if vdev_size < label_length * 4 {
            return Err(LabelOffsetError::InvalidSize { size: vdev_size });
        }
        let o: [u64; 4] = [
            label_length,
            2 * label_length,
            vdev_size - 2 * label_length,
            vdev_size - label_length,
        ];
        Ok(o)
    }
}

/// The decoded parts of one label: each part carries its own result, so
/// one corrupt uberblock slot spoils nothing else.
pub struct LabelDecode {
    pub blank: Result<Blank, BlankDecodeError>,
    pub boot_header: Result<BootHeader, BootHeaderDecodeError>,
    pub nv_pairs: Result<NvPairs, NvPairsDecodeError>,
    pub uber_blocks: Vec<Result<UberBlock, UberBlockDecodeError>>,
}

/// The result an uberblock slot of a label must carry: what decoding
/// the slot's 1024 bytes at its own device offset returns.
pub open spec fn ub_slot_post(
    d: Seq<u8>,
    offset: u64,
    k: int,
    r: Result<UberBlock, UberBlockDecodeError>,
) -> bool {
    let sub = d.subrange(UBER_OFFSET + 1024 * k, UBER_OFFSET + 1024 * (k + 1));
    let slot_offset = (offset + (UBER_OFFSET as u64) + 1024 * (k as u64)) as u64;
    &&& crate::phys::uber_block::ub_decode_ok(sub, slot_offset) ==> (r matches Ok(u)
        && crate::phys::uber_block::is_ub_decoded(u, sub, slot_offset))
    &&& !crate::phys::uber_block::ub_decode_ok(sub, slot_offset) ==> r is Err
}

impl LabelDecode {
    /// Decodes one label found at device offset `offset`: the blank
    /// region, the boot header, the name-value region, and all 128
    /// uberblock slots, each against its own device offset.
    pub fn from_bytes(data: &[u8], offset: u64) -> (r: LabelDecode)
        requires
            data@.len() == LABEL_LENGTH,
            offset + (LABEL_LENGTH as u64) <= u64::MAX,
        ensures
            ({
                let d = data@;
                let bh = d.subrange(
                    BOOT_HEADER_OFFSET as int,
                    BOOT_HEADER_OFFSET + BOOT_HEADER_LENGTH,
                );
                let nv = d.subrange(NV_PAIRS_OFFSET as int, NV_PAIRS_OFFSET + NV_PAIRS_LENGTH);
                let bh_off = (offset + (BOOT_HEADER_OFFSET as u64)) as u64;
                let nv_off = (offset + (NV_PAIRS_OFFSET as u64)) as u64;
                &&& (r.blank matches Ok(b) && b.payload@ == d.subrange(
                    0,
                    BLANK_PAYLOAD_LENGTH as int,
                ))
                &&& label_verified(bh, bh_off) ==> (r.boot_header matches Ok(b) && b.payload@
                    == bh.subrange(0, BOOT_HEADER_PAYLOAD_LENGTH as int))
                &&& !label_verified(bh, bh_off) ==> r.boot_header is Err
                &&& label_verified(nv, nv_off) ==> (r.nv_pairs matches Ok(b) && b.payload@
                    == nv.subrange(0, NV_PAIRS_PAYLOAD_LENGTH as int))
                &&& !label_verified(nv, nv_off) ==> r.nv_pairs is Err
                &&& r.uber_blocks@.len() == UBER_COUNT
                &&& forall|k: int|
                    0 <= k < UBER_COUNT ==> ub_slot_post(d, offset, k, #[trigger] r.uber_blocks@[k])
            }),
    {
        let blank = Blank::from_bytes(vstd::slice::slice_subrange(data, 0, BLANK_LENGTH));
        let boot_header = BootHeader::from_bytes(
            vstd::slice::slice_subrange(
                data,
                BOOT_HEADER_OFFSET,
                BOOT_HEADER_OFFSET + BOOT_HEADER_LENGTH,
            ),
            offset + (BOOT_HEADER_OFFSET as u64),
        );
        let nv_pairs = NvPairs::from_bytes(
            vstd::slice::slice_subrange(data, NV_PAIRS_OFFSET, NV_PAIRS_OFFSET + NV_PAIRS_LENGTH),
            offset + (NV_PAIRS_OFFSET as u64),
        );
        let mut uber_blocks: Vec<Result<UberBlock, UberBlockDecodeError>> = Vec::new();
        let mut k: usize = 0;
        while k < UBER_COUNT
            invariant
                data@.len() == LABEL_LENGTH,
                offset + (LABEL_LENGTH as u64) <= u64::MAX,
                0 <= k <= UBER_COUNT,
                uber_blocks@.len() == k,
                forall|j: int|
                    0 <= j < k ==> ub_slot_post(data@, offset, j, #[trigger] uber_blocks@[j]),
            decreases UBER_COUNT - k,
        {
            let start = UBER_OFFSET + 1024 * k;
            let sub = vstd::slice::slice_subrange(data, start, start + 1024);
            let slot_offset = offset + (start as u64);
            let ub = UberBlock::from_bytes(sub, slot_offset);
            uber_blocks.push(ub);
            k = k + 1;
        }
        LabelDecode { blank, boot_header, nv_pairs, uber_blocks }
    }
}

} // verus!
