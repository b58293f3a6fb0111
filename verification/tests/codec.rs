use zfs_ondisk::checksum::fletcher::{fletcher_4_be, fletcher_4_le};
use zfs_ondisk::nv::data_type::DataType;
use zfs_ondisk::checksum::label::{label_checksum, label_verify, LabelVerifyError};
use zfs_ondisk::checksum::sha256::sha_256_digest;
use zfs_ondisk::endian::{Decoder, Encoder, Endian};
use zfs_ondisk::nv;
use zfs_ondisk::phys::checksum_tail::ChecksumTail;
use zfs_ondisk::phys::checksum_value::ChecksumValue;
use zfs_ondisk::phys::dnode::Dnode;
use zfs_ondisk::phys::dva::Dva;
use zfs_ondisk::phys::uber_block::{UberBlock, UberBlockDecodeError};

#[test]
fn test_data_type() {
    assert_eq!(DataType::Boolean.to_u32(), 1);

    assert_eq!(DataType::Byte.to_u32(), 2);
    assert_eq!(DataType::Int16.to_u32(), 3);
    assert_eq!(DataType::Uint16.to_u32(), 4);
    assert_eq!(DataType::Int32.to_u32(), 5);
    assert_eq!(DataType::Uint32.to_u32(), 6);
    assert_eq!(DataType::Int64.to_u32(), 7);
    assert_eq!(DataType::Uint64.to_u32(), 8);
    assert_eq!(DataType::String.to_u32(), 9);

    assert_eq!(DataType::ByteArray.to_u32(), 10);
    assert_eq!(DataType::Int16Array.to_u32(), 11);
    assert_eq!(DataType::Uint16Array.to_u32(), 12);
    assert_eq!(DataType::Int32Array.to_u32(), 13);
    assert_eq!(DataType::Uint32Array.to_u32(), 14);
    assert_eq!(DataType::Int64Array.to_u32(), 15);
    assert_eq!(DataType::Uint64Array.to_u32(), 16);
    assert_eq!(DataType::StringArray.to_u32(), 17);

    assert_eq!(DataType::HrTime.to_u32(), 18);
    assert_eq!(DataType::NvList.to_u32(), 19);
    assert_eq!(DataType::NvListArray.to_u32(), 20);

    assert_eq!(DataType::Int8.to_u32(), 21);
    assert_eq!(DataType::Uint8.to_u32(), 22);

    assert_eq!(DataType::BooleanArray.to_u32(), 23);
    assert_eq!(DataType::Int8Array.to_u32(), 24);
    assert_eq!(DataType::Uint8Array.to_u32(), 25);

    assert_eq!(DataType::Double.to_u32(), 26);
}

#[test]
fn dva_decode_and_reencode() {
    let data: [u8; 16] = [
        0x00, 0x12, 0x34, 0x56, 0x07, 0x00, 0x00, 0x08, 0x80, 0x00, 0x00, 0x00, 0x00, 0x00, 0x00,
        0x10,
    ];
    let mut decoder = Decoder::from_bytes(&data, Endian::Big);
    let dva = Dva::from_decoder(&mut decoder).unwrap();
    assert_eq!(dva.vdev, 0x123456);
    assert_eq!(dva.grid, 7);
    assert_eq!(dva.asize, 8);
    assert!(dva.is_gang);
    assert_eq!(dva.offset, 0x10);

    let mut encoder = Encoder::to_bytes(vec![0u8; 16], Endian::Big);
    dva.to_encoder(&mut encoder).unwrap();
    assert_eq!(encoder.finish(), data.to_vec());
}

#[test]
fn dva_endian_roundtrip() {
    let dva = Dva { vdev: 5, grid: 1, asize: 9, offset: 0x44, is_gang: false };
    for endian in [Endian::Big, Endian::Little] {
        let mut encoder = Encoder::to_bytes(vec![0u8; 16], endian);
        dva.to_encoder(&mut encoder).unwrap();
        let bytes = encoder.finish();
        let mut decoder = Decoder::from_bytes(bytes.as_slice(), endian);
        let back = Dva::from_decoder(&mut decoder).unwrap();
        assert_eq!(back, dva);
    }
}

#[test]
fn fletcher_4_accumulators() {
    let data: [u8; 16] = [0, 0, 0, 1, 0, 0, 0, 2, 0, 0, 0, 3, 0, 0, 0, 4];
    assert_eq!(fletcher_4_be(&data), [10, 20, 35, 56]);
    let le_data: [u8; 16] = [1, 0, 0, 0, 2, 0, 0, 0, 3, 0, 0, 0, 4, 0, 0, 0];
    assert_eq!(fletcher_4_le(&le_data), [10, 20, 35, 56]);
}

#[test]
fn sha_256_known_digest() {
    // SHA-256 of the empty input, packed two 32-bit words per word.
    let words = sha_256_digest(&[]);
    assert_eq!(
        words,
        [
            0xe3b0c44298fc1c14,
            0x9afbf4c8996fb924,
            0x27ae41e4649b934c,
            0xa495991b7852b855,
        ]
    );
}

#[test]
fn label_checksum_roundtrip() {
    let mut data = vec![0u8; 8192];
    label_checksum(&mut data, 0x20000, Endian::Big).unwrap();
    assert_eq!(
        &data[8152..8160],
        &[0x02, 0x10, 0xda, 0x7a, 0xb1, 0x0c, 0x7a, 0x11]
    );
    label_verify(&data, 0x20000).unwrap();
    assert!(matches!(
        label_verify(&data, 0x20008),
        Err(LabelVerifyError::Mismatch {})
    ));
    data[0] = 1;
    assert!(matches!(
        label_verify(&data, 0x20000),
        Err(LabelVerifyError::Mismatch {})
    ));
}

#[test]
fn uber_block_empty_magic() {
    let data = vec![0u8; 1024];
    let r = UberBlock::from_bytes(&data, 0);
    assert!(matches!(
        r,
        Err(UberBlockDecodeError::LabelVerifyError { err: LabelVerifyError::EmptyMagic {} })
    ));
}

#[test]
fn checksum_tail_self_describing() {
    let tail = ChecksumTail {
        endian: Endian::Big,
        value: ChecksumValue { words: [1, 2, 3, 4] },
    };
    let mut bytes = vec![0u8; 40];
    tail.to_bytes(&mut bytes).unwrap();
    let back = ChecksumTail::from_bytes(&bytes).unwrap();
    assert_eq!(back.endian, Endian::Big);
    assert_eq!(back.value.words, [1, 2, 3, 4]);

    let little = ChecksumTail {
        endian: Endian::Little,
        value: ChecksumValue { words: [5, 6, 7, 8] },
    };
    let mut bytes = vec![0u8; 40];
    little.to_bytes(&mut bytes).unwrap();
    let back = ChecksumTail::from_bytes(&bytes).unwrap();
    assert_eq!(back.endian, Endian::Little);
    assert_eq!(back.value.words, [5, 6, 7, 8]);
}

#[test]
fn nv_list_termination() {
    let data: [u8; 16] = [
        0x01, 0x01, 0x00, 0x00, // header: XDR encoding, little endian, reserved
        0x00, 0x00, 0x00, 0x00, // version 0
        0x00, 0x00, 0x00, 0x01, // flags: unique by name
        0x00, 0x00, 0x00, 0x00, // first zero size word
    ];
    let mut full = data.to_vec();
    full.extend_from_slice(&[0x00, 0x00, 0x00, 0x00]);
    let mut decoder = nv::Decoder::from_bytes(&full).unwrap();
    assert_eq!(decoder.unique, nv::Unique::Name);
    let pair = decoder.next_pair().unwrap();
    assert!(pair.is_none());
}

#[test]
fn xdr_narrow_conversions() {
    let data: [u8; 8] = [0x00, 0x00, 0x00, 0x7f, 0x00, 0x00, 0x01, 0x00];
    let mut dec = zfs_ondisk::xdr::Decoder::from_bytes(&data);
    assert_eq!(dec.get_i8().unwrap(), 127);
    assert!(matches!(
        dec.get_i8(),
        Err(zfs_ondisk::xdr::DecodeError::I8Conversion { offset: 4, value: 256 })
    ));
}

#[test]
fn xdr_bytes_alignment() {
    // A three-byte run: length word, bytes, one padding byte.
    let data: [u8; 8] = [0x00, 0x00, 0x00, 0x03, 0xaa, 0xbb, 0xcc, 0x00];
    let mut dec = zfs_ondisk::xdr::Decoder::from_bytes(&data);
    let got = dec.get_bytes().unwrap();
    assert_eq!(got, &[0xaa, 0xbb, 0xcc]);
    assert_eq!(dec.offset() % 4, 0);
    assert_eq!(dec.offset(), 8);
}

#[test]
fn nv_uint64_pair() {
    let mut data: Vec<u8> = vec![
        0x01, 0x01, 0x00, 0x00, // header: XDR encoding, little endian, reserved
        0x00, 0x00, 0x00, 0x00, // version 0
        0x00, 0x00, 0x00, 0x01, // flags: unique by name
        0x00, 0x00, 0x00, 0x20, // encoded size 32
        0x00, 0x00, 0x00, 0x10, // decoded size
        0x00, 0x00, 0x00, 0x01, // name length 1
        0x61, 0x00, 0x00, 0x00, // "a" and padding
        0x00, 0x00, 0x00, 0x08, // type: 64-bit unsigned
        0x00, 0x00, 0x00, 0x01, // element count 1
    ];
    data.extend_from_slice(&[0x00, 0x00, 0x00, 0x00, 0x00, 0x00, 0x00, 0x42]);
    data.extend_from_slice(&[0x00; 8]);
    let mut decoder = nv::Decoder::from_bytes(&data).unwrap();
    assert_eq!(decoder.unique_policy(), nv::Unique::Name);
    let pair = decoder.next_pair().unwrap().unwrap();
    assert_eq!(pair.name, "a");
    assert_eq!(pair.data_type(), nv::DataType::Uint64);
    assert!(matches!(pair.value, nv::DecodedDataValue::Uint64(0x42)));
    let end = decoder.next_pair().unwrap();
    assert!(end.is_none());

    let found = decoder.find_pair("a").unwrap().unwrap();
    assert!(matches!(found.value, nv::DecodedDataValue::Uint64(0x42)));
    let absent = decoder.find_pair("b").unwrap();
    assert!(absent.is_none());
}

#[test]
fn dnode_empty_accessors() {
    let d = Dnode::empty();
    assert_eq!(d.bonus_capacity().len(), 448);
    assert_eq!(d.bonus_used().len(), 0);
    assert_eq!(d.pointers().len(), 0);
}
