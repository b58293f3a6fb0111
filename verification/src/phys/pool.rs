//! The typed pool configuration read from a label's name-value list:
//! required identity keys, version-gated optional keys, and the closed
//! catalogue of read-side features. Unknown top-level names are
//! rejected.

use vstd::prelude::*;

use vstd::string::StringSliceAdditionalSpecFns;

use crate::nv;
use crate::nv::{str_bytes_equal, DataType, DecodedDataValue, DecodedPair};

verus! {

/// A pool format version.
#[derive(Clone, Copy, Debug, PartialEq, Eq, Structural)]
pub enum PoolVersion {
    V1,
    V2,
    V3,
    V4,
    V5,
    V6,
    V7,
    V8,
    V9,
    V10,
    V11,
    V12,
    V13,
    V14,
    V15,
    V16,
    V17,
    V18,
    V19,
    V20,
    V21,
    V22,
    V23,
    V24,
    V25,
    V26,
    V27,
    V28,
    V5000,
}

impl PoolVersion {
    /// The numeric code of this version.
    pub open spec fn spec_value(self) -> u64 {
        match self {
            PoolVersion::V1 => 1,
            PoolVersion::V2 => 2,
            PoolVersion::V3 => 3,
            PoolVersion::V4 => 4,
            PoolVersion::V5 => 5,
            PoolVersion::V6 => 6,
            PoolVersion::V7 => 7,
            PoolVersion::V8 => 8,
            PoolVersion::V9 => 9,
            PoolVersion::V10 => 10,
            PoolVersion::V11 => 11,
            PoolVersion::V12 => 12,
            PoolVersion::V13 => 13,
            PoolVersion::V14 => 14,
            PoolVersion::V15 => 15,
            PoolVersion::V16 => 16,
            PoolVersion::V17 => 17,
            PoolVersion::V18 => 18,
            PoolVersion::V19 => 19,
            PoolVersion::V20 => 20,
            PoolVersion::V21 => 21,
            PoolVersion::V22 => 22,
            PoolVersion::V23 => 23,
            PoolVersion::V24 => 24,
            PoolVersion::V25 => 25,
            PoolVersion::V26 => 26,
            PoolVersion::V27 => 27,
            PoolVersion::V28 => 28,
            PoolVersion::V5000 => 5000,
        }
    }

    /// Looks a version up by its numeric code; the codes 1 through 28
    /// and 5000 are known, and no others.
    pub fn try_from_u64(value: u64) -> (r: Option<PoolVersion>)
        ensures
            r matches Some(v) ==> v.spec_value() == value,
            (r is Some) <==> (1 <= value <= 28 || value == 5000),
    {
        match value {
            1 => Some(PoolVersion::V1),
            2 => Some(PoolVersion::V2),
            3 => Some(PoolVersion::V3),
            4 => Some(PoolVersion::V4),
            5 => Some(PoolVersion::V5),
            6 => Some(PoolVersion::V6),
            7 => Some(PoolVersion::V7),
            8 => Some(PoolVersion::V8),
            9 => Some(PoolVersion::V9),
            10 => Some(PoolVersion::V10),
            11 => Some(PoolVersion::V11),
            12 => Some(PoolVersion::V12),
            13 => Some(PoolVersion::V13),
            14 => Some(PoolVersion::V14),
            15 => Some(PoolVersion::V15),
            16 => Some(PoolVersion::V16),
            17 => Some(PoolVersion::V17),
            18 => Some(PoolVersion::V18),
            19 => Some(PoolVersion::V19),
            20 => Some(PoolVersion::V20),
            21 => Some(PoolVersion::V21),
            22 => Some(PoolVersion::V22),
            23 => Some(PoolVersion::V23),
            24 => Some(PoolVersion::V24),
            25 => Some(PoolVersion::V25),
            26 => Some(PoolVersion::V26),
            27 => Some(PoolVersion::V27),
            28 => Some(PoolVersion::V28),
            5000 => Some(PoolVersion::V5000),
            _ => None,
        }
    }
}

/// A pool state.
#[derive(Clone, Copy, Debug, PartialEq, Eq, Structural)]
pub enum PoolState {
    Active,
    Exported,
    Destroyed,
    Spare,
    L2Cache,
}

impl PoolState {
    /// The numeric code of this state.
    pub open spec fn spec_value(self) -> u64 {
        match self {
            PoolState::Active => 0,
            PoolState::Exported => 1,
            PoolState::Destroyed => 2,
            PoolState::Spare => 3,
            PoolState::L2Cache => 4,
        }
    }

    /// Looks a state up by its numeric code; exactly the codes 0
    /// through 4 are known.
    pub fn try_from_u64(value: u64) -> (r: Option<PoolState>)
        ensures
            value <= 4 ==> (r matches Some(s) && s.spec_value() == value),
            value > 4 ==> r is None,
    {
        match value {
            0 => Some(PoolState::Active),
            1 => Some(PoolState::Exported),
            2 => Some(PoolState::Destroyed),
            3 => Some(PoolState::Spare),
            4 => Some(PoolState::L2Cache),
            _ => None,
        }
    }
}

/// A pool health, as the deprecated health string names it.
#[derive(Clone, Copy, Debug, PartialEq, Eq, Structural)]
pub enum PoolHealth {
    Degraded,
    Faulted,
    Online,
}

/// A failure while projecting a pool configuration out of its
/// name-value list.
#[derive(Debug)]
pub enum PoolDecodeError {
    /// A rule over several keys is broken.
    InvalidConfiguration { reason: &'static str },
    /// The health string names no known health.
    InvalidPoolHealth { pool_health: String, full_length: usize },
    /// The state code is unknown.
    InvalidState { state: u64 },
    /// A required key is absent.
    MissingValue { name: &'static str },
    /// The underlying list decoder failed.
    NvDecodeError { err: nv::DecodeError },
    /// A read-side feature name is outside the known catalogue.
    UnknownFeature { feature: String, full_length: usize },
    /// A top-level name is unknown.
    UnknownName { name: String, full_length: usize },
    /// The version code is unknown.
    UnsupportedVersion { version: u64 },
    /// A key carries a value of the wrong type.
    ValueTypeMismatch { name: &'static str, data_type: DataType },
}

/// Gets the health named by the deprecated health string: exactly the
/// strings DEGRADED, FAULTED and ONLINE are known.
pub fn pool_health_from_str(string: &str) -> (r: Result<PoolHealth, PoolDecodeError>)
    ensures
        string@ == "DEGRADED"@ ==> r == Ok::<PoolHealth, PoolDecodeError>(PoolHealth::Degraded),
        string@ == "FAULTED"@ ==> r == Ok::<PoolHealth, PoolDecodeError>(PoolHealth::Faulted),
        string@ == "ONLINE"@ ==> r == Ok::<PoolHealth, PoolDecodeError>(PoolHealth::Online),
        r matches Ok(h) ==> string@ == (match h {
            PoolHealth::Degraded => "DEGRADED"@,
            PoolHealth::Faulted => "FAULTED"@,
            PoolHealth::Online => "ONLINE"@,
        }),
        !(string@ == "DEGRADED"@ || string@ == "FAULTED"@ || string@ == "ONLINE"@) ==> (r matches
        Err(PoolDecodeError::InvalidPoolHealth { pool_health, full_length }) && pool_health@
            == string@ && full_length == string.spec_bytes().len() as usize),
{
    proof {
        reveal_strlit("DEGRADED");
        reveal_strlit("FAULTED");
        reveal_strlit("ONLINE");
        assert("DEGRADED"@.len() == 8 && "FAULTED"@.len() == 7 && "ONLINE"@.len() == 6);
    }
    if str_bytes_equal(string, "DEGRADED") {
        Ok(PoolHealth::Degraded)
    } else if str_bytes_equal(string, "FAULTED") {
        Ok(PoolHealth::Faulted)
    } else if str_bytes_equal(string, "ONLINE") {
        Ok(PoolHealth::Online)
    } else {
        Err(
            PoolDecodeError::InvalidPoolHealth {
                pool_health: string.to_owned(),
                full_length: string.len(),
            },
        )
    }
}

/// Finds a 64-bit unsigned value by name: on a clean scan, the first
/// pair of that name gives its value, another type is a mismatch, and
/// an absent key gives `None`.
fn find_u64(decoder: &mut nv::Decoder, name: &'static str) -> (r: Result<
    Option<u64>,
    PoolDecodeError,
>)
    requires
        old(decoder).wf(),
    ensures
        final(decoder).wf(),
        final(decoder).spec_data() == old(decoder).spec_data(),
        ({
            let d = old(decoder).spec_data();
            let nb = name.spec_bytes();
            (d.len() >= 8 && nv::scan_clean(d, 8, nb)) ==> match nv::scan_found(d, 8, nb) {
                Some(po) => if nv::pair_type_code(d, po) == 8 {
                    r == Ok::<Option<u64>, PoolDecodeError>(Some(nv::pair_u64_value(d, po)))
                } else {
                    (r matches Err(PoolDecodeError::ValueTypeMismatch { name: n2, data_type })
                        && n2@ == name@)
                },
                None => r == Ok::<Option<u64>, PoolDecodeError>(Option::<u64>::None),
            }
        }),
{
    let pair = match decoder.find_pair(name) {
        Ok(v) => v,
        Err(err) => {
            return Err(PoolDecodeError::NvDecodeError { err });
        },
    };
    match pair {
        Some(p) => match p.value {
            DecodedDataValue::Uint64(v) => Ok(Some(v)),
            _ => Err(PoolDecodeError::ValueTypeMismatch { name, data_type: p.data_type() }),
        },
        None => Ok(None),
    }
}

/// Finds a string value by name: on a clean scan, the first pair of
/// that name gives its string, another type is a mismatch, and an
/// absent key gives `None`.
fn find_str<'a>(decoder: &mut nv::Decoder<'a>, name: &'static str) -> (r: Result<
    Option<&'a str>,
    PoolDecodeError,
>)
    requires
        old(decoder).wf(),
    ensures
        final(decoder).wf(),
        final(decoder).spec_data() == old(decoder).spec_data(),
        ({
            let d = old(decoder).spec_data();
            let nb = name.spec_bytes();
            (d.len() >= 8 && nv::scan_clean(d, 8, nb)) ==> match nv::scan_found(d, 8, nb) {
                Some(po) => if nv::pair_type_code(d, po) == 9 {
                    (r matches Ok(Some(s)) && s.spec_bytes() == nv::pair_str_value(d, po))
                } else {
                    (r matches Err(PoolDecodeError::ValueTypeMismatch { name: n2, data_type })
                        && n2@ == name@)
                },
                None => r == Ok::<Option<&'a str>, PoolDecodeError>(Option::<&'a str>::None),
            }
        }),
{
    let pair = match decoder.find_pair(name) {
        Ok(v) => v,
        Err(err) => {
            return Err(PoolDecodeError::NvDecodeError { err });
        },
    };
    match pair {
        Some(p) => match p.value {
            DecodedDataValue::String(v) => Ok(Some(v)),
            _ => Err(PoolDecodeError::ValueTypeMismatch { name, data_type: p.data_type() }),
        },
        None => Ok(None),
    }
}

/// Finds a nested list by name: on a clean scan, the first pair of
/// that name gives a decoder over its bytes, another type is a
/// mismatch, and an absent key gives `None`.
fn find_list<'a>(decoder: &mut nv::Decoder<'a>, name: &'static str) -> (r: Result<
    Option<nv::Decoder<'a>>,
    PoolDecodeError,
>)
    requires
        old(decoder).wf(),
    ensures
        final(decoder).wf(),
        final(decoder).spec_data() == old(decoder).spec_data(),
        r matches Ok(Some(nd)) ==> nd.wf() && nd.spec_offset() == 8,
        ({
            let d = old(decoder).spec_data();
            let nb = name.spec_bytes();
            (d.len() >= 8 && nv::scan_clean(d, 8, nb)) ==> match nv::scan_found(d, 8, nb) {
                Some(po) => if nv::pair_type_code(d, po) == 19 {
                    (r matches Ok(Some(nd)) && nd.wf() && nd.spec_data() == nv::pair_list_value(
                        d,
                        po,
                    ) && nd.spec_offset() == 8)
                } else {
                    (r matches Err(PoolDecodeError::ValueTypeMismatch { name: n2, data_type })
                        && n2@ == name@)
                },
                None => r == Ok::<Option<nv::Decoder<'a>>, PoolDecodeError>(
                    Option::<nv::Decoder<'a>>::None,
                ),
            }
        }),
{
    let pair = match decoder.find_pair(name) {
        Ok(v) => v,
        Err(err) => {
            return Err(PoolDecodeError::NvDecodeError { err });
        },
    };
    match pair {
        Some(p) => match p.value {
            DecodedDataValue::NvList(v) => Ok(Some(v)),
            _ => Err(PoolDecodeError::ValueTypeMismatch { name, data_type: p.data_type() }),
        },
        None => Ok(None),
    }
}

/// True when a feature flag with this name is present: on a clean
/// scan, a flag pair gives true, a boolean-value pair gives its value,
/// another type is a mismatch, and an absent key gives false.
fn find_flag(decoder: &mut nv::Decoder, name: &'static str) -> (r: Result<bool, PoolDecodeError>)
    requires
        old(decoder).wf(),
    ensures
        final(decoder).wf(),
        final(decoder).spec_data() == old(decoder).spec_data(),
        ({
            let d = old(decoder).spec_data();
            let nb = name.spec_bytes();
            (d.len() >= 8 && nv::scan_clean(d, 8, nb)) ==> match nv::scan_found(d, 8, nb) {
                Some(po) => if nv::pair_type_code(d, po) == 1 {
                    r == Ok::<bool, PoolDecodeError>(true)
                } else if nv::pair_type_code(d, po) == 21 {
                    r == Ok::<bool, PoolDecodeError>(nv::pair_bool_value(d, po))
                } else {
                    (r matches Err(PoolDecodeError::ValueTypeMismatch { name: n2, data_type })
                        && n2@ == name@)
                },
                None => r == Ok::<bool, PoolDecodeError>(false),
            }
        }),
{
    let pair = match decoder.find_pair(name) {
        Ok(v) => v,
        Err(err) => {
            return Err(PoolDecodeError::NvDecodeError { err });
        },
    };
    match pair {
        Some(p) => match p.value {
            DecodedDataValue::Boolean() => Ok(true),
            DecodedDataValue::BooleanValue(v) => Ok(v),
            _ => Err(PoolDecodeError::ValueTypeMismatch { name, data_type: p.data_type() }),
        },
        None => Ok(false),
    }
}

/// True when `n` names a feature of the closed read-side catalogue.
#[verifier::opaque]
pub open spec fn feature_name_ok(n: Seq<u8>) -> bool {
    ||| n == "org.zfsonlinux:allocation_classes".spec_bytes()
    ||| n == "com.delphix:async_destroy".spec_bytes()
    ||| n == "org.openzfs:blake3".spec_bytes()
    ||| n == "com.fudosecurity:block_cloning".spec_bytes()
    ||| n == "com.datto:bookmark_v2".spec_bytes()
    ||| n == "com.delphix:bookmark_written".spec_bytes()
    ||| n == "com.delphix:bookmarks".spec_bytes()
    ||| n == "org.openzfs:device_rebuild".spec_bytes()
    ||| n == "com.delphix:device_removal".spec_bytes()
    ||| n == "org.openzfs:draid".spec_bytes()
    ||| n == "org.illumos:edonr".spec_bytes()
    ||| n == "com.delphix:embedded_data".spec_bytes()
    ||| n == "com.delphix:empty_bpobj".spec_bytes()
    ||| n == "com.delphix:enabled_txg".spec_bytes()
    ||| n == "com.datto:encryption".spec_bytes()
    ||| n == "com.delphix:extensible_dataset".spec_bytes()
    ||| n == "com.joyent:filesystem_limits".spec_bytes()
    ||| n == "com.delphix:head_errlog".spec_bytes()
    ||| n == "com.delphix:hole_birth".spec_bytes()
    ||| n == "org.open-zfs:large_blocks".spec_bytes()
    ||| n == "org.zfsonlinux:large_dnode".spec_bytes()
    ||| n == "com.delphix:livelist".spec_bytes()
    ||| n == "com.delphix:log_spacemap".spec_bytes()
    ||| n == "org.illumos:lz4_compress".spec_bytes()
    ||| n == "com.joyent:multi_vdev_crash_dump".spec_bytes()
    ||| n == "com.delphix:obsolete_counts".spec_bytes()
    ||| n == "org.zfsonlinux:project_quota".spec_bytes()
    ||| n == "com.delphix:redacted_datasets".spec_bytes()
    ||| n == "com.delphix:redaction_bookmarks".spec_bytes()
    ||| n == "com.datto:resilver_defer".spec_bytes()
    ||| n == "org.illumos:sha512".spec_bytes()
    ||| n == "org.illumos:skein".spec_bytes()
    ||| n == "com.delphix:spacemap_histogram".spec_bytes()
    ||| n == "com.delphix:spacemap_v2".spec_bytes()
    ||| n == "org.zfsonlinux:userobj_accounting".spec_bytes()
    ||| n == "org.openzfs:zilsaxattr".spec_bytes()
    ||| n == "com.delphix:zpool_checkpoint".spec_bytes()
    ||| n == "org.freebsd:zstd_compress".spec_bytes()
}

/// The closed catalogue of read-side feature names.
pub open spec fn feature_keys() -> Set<Seq<u8>> {
    Set::new(|n: Seq<u8>| feature_name_ok(n))
}

/// The flag a feature name carries in the nested list: present as a
/// flag pair it is true, as a boolean value it is that value, absent
/// it is false.
pub open spec fn feature_flag(nd: Seq<u8>, name: Seq<u8>) -> bool {
    match nv::scan_found(nd, 8, name) {
        Some(po) => if nv::pair_type_code(nd, po) == 1 {
            true
        } else {
            nv::pair_bool_value(nd, po)
        },
        None => false,
    }
}

/// True when the feature name, where present, carries a flag or a
/// boolean value.
pub open spec fn feature_typed_ok(nd: Seq<u8>, name: Seq<u8>) -> bool {
    match nv::scan_found(nd, 8, name) {
        Some(po) => nv::pair_type_code(nd, po) == 1 || nv::pair_type_code(nd, po) == 21,
        None => true,
    }
}

/// Every field of the projection equals its feature's flag in the
/// nested list.
#[verifier::opaque]
pub open spec fn feature_fields_ok(f: PoolFeaturesForRead, nd: Seq<u8>) -> bool {
    &&& f.allocation_classes == feature_flag(nd, "org.zfsonlinux:allocation_classes".spec_bytes())
    &&& f.async_destroy == feature_flag(nd, "com.delphix:async_destroy".spec_bytes())
    &&& f.blake_3 == feature_flag(nd, "org.openzfs:blake3".spec_bytes())
    &&& f.block_cloning == feature_flag(nd, "com.fudosecurity:block_cloning".spec_bytes())
    &&& f.bookmark_v2 == feature_flag(nd, "com.datto:bookmark_v2".spec_bytes())
    &&& f.bookmark_written == feature_flag(nd, "com.delphix:bookmark_written".spec_bytes())
    &&& f.bookmarks == feature_flag(nd, "com.delphix:bookmarks".spec_bytes())
    &&& f.device_rebuild == feature_flag(nd, "org.openzfs:device_rebuild".spec_bytes())
    &&& f.device_removal == feature_flag(nd, "com.delphix:device_removal".spec_bytes())
    &&& f.draid == feature_flag(nd, "org.openzfs:draid".spec_bytes())
    &&& f.edonr == feature_flag(nd, "org.illumos:edonr".spec_bytes())
    &&& f.embedded_data == feature_flag(nd, "com.delphix:embedded_data".spec_bytes())
    &&& f.empty_block_pointer_object == feature_flag(nd, "com.delphix:empty_bpobj".spec_bytes())
    &&& f.enabled_txg == feature_flag(nd, "com.delphix:enabled_txg".spec_bytes())
    &&& f.encryption == feature_flag(nd, "com.datto:encryption".spec_bytes())
    &&& f.extensible_dataset == feature_flag(nd, "com.delphix:extensible_dataset".spec_bytes())
    &&& f.filesystem_limits == feature_flag(nd, "com.joyent:filesystem_limits".spec_bytes())
    &&& f.head_error_log == feature_flag(nd, "com.delphix:head_errlog".spec_bytes())
    &&& f.hole_birth == feature_flag(nd, "com.delphix:hole_birth".spec_bytes())
    &&& f.large_blocks == feature_flag(nd, "org.open-zfs:large_blocks".spec_bytes())
    &&& f.large_dnode == feature_flag(nd, "org.zfsonlinux:large_dnode".spec_bytes())
    &&& f.live_list == feature_flag(nd, "com.delphix:livelist".spec_bytes())
    &&& f.log_space_map == feature_flag(nd, "com.delphix:log_spacemap".spec_bytes())
    &&& f.lz4_compress == feature_flag(nd, "org.illumos:lz4_compress".spec_bytes())
    &&& f.multi_vdev_crash_dump == feature_flag(nd, "com.joyent:multi_vdev_crash_dump".spec_bytes())
    &&& f.obsolete_counts == feature_flag(nd, "com.delphix:obsolete_counts".spec_bytes())
    &&& f.project_quota == feature_flag(nd, "org.zfsonlinux:project_quota".spec_bytes())
    &&& f.redacted_datasets == feature_flag(nd, "com.delphix:redacted_datasets".spec_bytes())
    &&& f.redaction_bookmarks == feature_flag(nd, "com.delphix:redaction_bookmarks".spec_bytes())
    &&& f.resilver_defer == feature_flag(nd, "com.datto:resilver_defer".spec_bytes())
    &&& f.sha_512 == feature_flag(nd, "org.illumos:sha512".spec_bytes())
    &&& f.skein == feature_flag(nd, "org.illumos:skein".spec_bytes())
    &&& f.spacemap_historgram == feature_flag(nd, "com.delphix:spacemap_histogram".spec_bytes())
    &&& f.spacemap_v2 == feature_flag(nd, "com.delphix:spacemap_v2".spec_bytes())
    &&& f.user_object_accounting == feature_flag(nd, "org.zfsonlinux:userobj_accounting".spec_bytes())
    &&& f.zil_sa_xattr == feature_flag(nd, "org.openzfs:zilsaxattr".spec_bytes())
    &&& f.zpool_checkpoint == feature_flag(nd, "com.delphix:zpool_checkpoint".spec_bytes())
    &&& f.zstd_compress == feature_flag(nd, "org.freebsd:zstd_compress".spec_bytes())
}

/// Every catalogue feature, where present, carries a flag or a boolean
/// value.
#[verifier::opaque]
pub open spec fn features_typed_ok(nd: Seq<u8>) -> bool {
    &&& feature_typed_ok(nd, "org.zfsonlinux:allocation_classes".spec_bytes())
    &&& feature_typed_ok(nd, "com.delphix:async_destroy".spec_bytes())
    &&& feature_typed_ok(nd, "org.openzfs:blake3".spec_bytes())
    &&& feature_typed_ok(nd, "com.fudosecurity:block_cloning".spec_bytes())
    &&& feature_typed_ok(nd, "com.datto:bookmark_v2".spec_bytes())
    &&& feature_typed_ok(nd, "com.delphix:bookmark_written".spec_bytes())
    &&& feature_typed_ok(nd, "com.delphix:bookmarks".spec_bytes())
    &&& feature_typed_ok(nd, "org.openzfs:device_rebuild".spec_bytes())
    &&& feature_typed_ok(nd, "com.delphix:device_removal".spec_bytes())
    &&& feature_typed_ok(nd, "org.openzfs:draid".spec_bytes())
    &&& feature_typed_ok(nd, "org.illumos:edonr".spec_bytes())
    &&& feature_typed_ok(nd, "com.delphix:embedded_data".spec_bytes())
    &&& feature_typed_ok(nd, "com.delphix:empty_bpobj".spec_bytes())
    &&& feature_typed_ok(nd, "com.delphix:enabled_txg".spec_bytes())
    &&& feature_typed_ok(nd, "com.datto:encryption".spec_bytes())
    &&& feature_typed_ok(nd, "com.delphix:extensible_dataset".spec_bytes())
    &&& feature_typed_ok(nd, "com.joyent:filesystem_limits".spec_bytes())
    &&& feature_typed_ok(nd, "com.delphix:head_errlog".spec_bytes())
    &&& feature_typed_ok(nd, "com.delphix:hole_birth".spec_bytes())
    &&& feature_typed_ok(nd, "org.open-zfs:large_blocks".spec_bytes())
    &&& feature_typed_ok(nd, "org.zfsonlinux:large_dnode".spec_bytes())
    &&& feature_typed_ok(nd, "com.delphix:livelist".spec_bytes())
    &&& feature_typed_ok(nd, "com.delphix:log_spacemap".spec_bytes())
    &&& feature_typed_ok(nd, "org.illumos:lz4_compress".spec_bytes())
    &&& feature_typed_ok(nd, "com.joyent:multi_vdev_crash_dump".spec_bytes())
    &&& feature_typed_ok(nd, "com.delphix:obsolete_counts".spec_bytes())
    &&& feature_typed_ok(nd, "org.zfsonlinux:project_quota".spec_bytes())
    &&& feature_typed_ok(nd, "com.delphix:redacted_datasets".spec_bytes())
    &&& feature_typed_ok(nd, "com.delphix:redaction_bookmarks".spec_bytes())
    &&& feature_typed_ok(nd, "com.datto:resilver_defer".spec_bytes())
    &&& feature_typed_ok(nd, "org.illumos:sha512".spec_bytes())
    &&& feature_typed_ok(nd, "org.illumos:skein".spec_bytes())
    &&& feature_typed_ok(nd, "com.delphix:spacemap_histogram".spec_bytes())
    &&& feature_typed_ok(nd, "com.delphix:spacemap_v2".spec_bytes())
    &&& feature_typed_ok(nd, "org.zfsonlinux:userobj_accounting".spec_bytes())
    &&& feature_typed_ok(nd, "org.openzfs:zilsaxattr".spec_bytes())
    &&& feature_typed_ok(nd, "com.delphix:zpool_checkpoint".spec_bytes())
    &&& feature_typed_ok(nd, "org.freebsd:zstd_compress".spec_bytes())
}

/// The read-side features a pool declares.
#[derive(Clone, Copy, Debug, PartialEq, Eq, Structural)]
pub struct PoolFeaturesForRead {
    pub allocation_classes: bool,
    pub async_destroy: bool,
    pub blake_3: bool,
    pub block_cloning: bool,
    pub bookmark_v2: bool,
    pub bookmark_written: bool,
    pub bookmarks: bool,
    pub device_rebuild: bool,
    pub device_removal: bool,
    pub draid: bool,
    pub edonr: bool,
    pub embedded_data: bool,
    pub empty_block_pointer_object: bool,
    pub enabled_txg: bool,
    pub encryption: bool,
    pub extensible_dataset: bool,
    pub filesystem_limits: bool,
    pub head_error_log: bool,
    pub hole_birth: bool,
    pub large_blocks: bool,
    pub large_dnode: bool,
    pub live_list: bool,
    pub log_space_map: bool,
    pub lz4_compress: bool,
    pub multi_vdev_crash_dump: bool,
    pub obsolete_counts: bool,
    pub project_quota: bool,
    pub redacted_datasets: bool,
    pub redaction_bookmarks: bool,
    pub resilver_defer: bool,
    pub sha_512: bool,
    pub skein: bool,
    pub spacemap_historgram: bool,
    pub spacemap_v2: bool,
    pub user_object_accounting: bool,
    pub zil_sa_xattr: bool,
    pub zpool_checkpoint: bool,
    pub zstd_compress: bool,
}

/// True when `name` is in the closed catalogue of read-side features.
fn feature_known(name: &str) -> (r: bool)
    ensures
        r == feature_keys().contains(name.spec_bytes()),
{
    proof {
        reveal(feature_name_ok);
    }
    str_bytes_equal(name, "org.zfsonlinux:allocation_classes") || str_bytes_equal(
        name,
        "com.delphix:async_destroy",
    ) || str_bytes_equal(name, "org.openzfs:blake3") || str_bytes_equal(
        name,
        "com.fudosecurity:block_cloning",
    ) || str_bytes_equal(name, "com.datto:bookmark_v2") || str_bytes_equal(
        name,
        "com.delphix:bookmark_written",
    ) || str_bytes_equal(name, "com.delphix:bookmarks") || str_bytes_equal(
        name,
        "org.openzfs:device_rebuild",
    ) || str_bytes_equal(name, "com.delphix:device_removal") || str_bytes_equal(
        name,
        "org.openzfs:draid",
    ) || str_bytes_equal(name, "org.illumos:edonr") || str_bytes_equal(
        name,
        "com.delphix:embedded_data",
    ) || str_bytes_equal(name, "com.delphix:empty_bpobj") || str_bytes_equal(
        name,
        "com.delphix:enabled_txg",
    ) || str_bytes_equal(name, "com.datto:encryption") || str_bytes_equal(
        name,
        "com.delphix:extensible_dataset",
    ) || str_bytes_equal(name, "com.joyent:filesystem_limits") || str_bytes_equal(
        name,
        "com.delphix:head_errlog",
    ) || str_bytes_equal(name, "com.delphix:hole_birth") || str_bytes_equal(
        name,
        "org.open-zfs:large_blocks",
    ) || str_bytes_equal(name, "org.zfsonlinux:large_dnode") || str_bytes_equal(
        name,
        "com.delphix:livelist",
    ) || str_bytes_equal(name, "com.delphix:log_spacemap") || str_bytes_equal(
        name,
        "org.illumos:lz4_compress",
    ) || str_bytes_equal(name, "com.joyent:multi_vdev_crash_dump") || str_bytes_equal(
        name,
        "com.delphix:obsolete_counts",
    ) || str_bytes_equal(name, "org.zfsonlinux:project_quota") || str_bytes_equal(
        name,
        "com.delphix:redacted_datasets",
    ) || str_bytes_equal(name, "com.delphix:redaction_bookmarks") || str_bytes_equal(
        name,
        "com.datto:resilver_defer",
    ) || str_bytes_equal(name, "org.illumos:sha512") || str_bytes_equal(
        name,
        "org.illumos:skein",
    ) || str_bytes_equal(name, "com.delphix:spacemap_histogram") || str_bytes_equal(
        name,
        "com.delphix:spacemap_v2",
    ) || str_bytes_equal(name, "org.zfsonlinux:userobj_accounting") || str_bytes_equal(
        name,
        "org.openzfs:zilsaxattr",
    ) || str_bytes_equal(name, "com.delphix:zpool_checkpoint") || str_bytes_equal(
        name,
        "org.freebsd:zstd_compress",
    )
}

impl PoolFeaturesForRead {
    /// Projects the read-side features out of the configuration list:
    /// absent list gives `None`; a feature name outside the catalogue
    /// is rejected; each known feature becomes its flag.
    #[verifier::rlimit(100)]
    #[verifier::spinoff_prover]
    pub fn from_decoder(decoder: &mut nv::Decoder) -> (r: Result<
        Option<PoolFeaturesForRead>,
        PoolDecodeError,
    >)
        requires
            old(decoder).wf(),
        ensures
            final(decoder).wf(),
            final(decoder).spec_data() == old(decoder).spec_data(),
            ({
                let d = old(decoder).spec_data();
                let ff = nv::scan_found(d, 8, "features_for_read".spec_bytes());
                &&& (d.len() >= 8 && nv::scan_clean(d, 8, "features_for_read".spec_bytes()) && ff
                    is None) ==> r == Ok::<Option<PoolFeaturesForRead>, PoolDecodeError>(
                    Option::<PoolFeaturesForRead>::None,
                )
                &&& (r matches Ok(f) && f is Some) ==> ((d.len() >= 8 && nv::scan_clean(
                    d,
                    8,
                    "features_for_read".spec_bytes(),
                )) ==> (ff is Some && nv::pair_type_code(d, ff->0) == 19))
            }),
            ({
                let d = old(decoder).spec_data();
                let ffb = "features_for_read".spec_bytes();
                (d.len() >= 8 && nv::scan_clean(d, 8, ffb) && nv::scan_found(d, 8, ffb) is Some
                    && nv::pair_type_code(d, nv::scan_found(d, 8, ffb)->0) == 19) ==> {
                    let nd = nv::pair_list_value(d, nv::scan_found(d, 8, ffb)->0);
                    nd.len() >= 8 ==> {
                        &&& (nv::scan_to_end(nd, 8) && !nv::names_within(nd, 8, feature_keys()))
                            ==> (r matches Err(PoolDecodeError::UnknownFeature { .. }))
                        &&& (nv::scan_to_end(nd, 8) && nv::names_within(nd, 8, feature_keys())
                            && features_typed_ok(nd)) ==> (r matches Ok(Some(f))
                            && feature_fields_ok(f, nd))
                    }
                }
            }),
    {
        let mut feature_decoder = match find_list(decoder, "features_for_read") {
            Ok(Some(v)) => v,
            Ok(None) => {
                return Ok(None);
            },
            Err(e) => {
                return Err(e);
            },
        };
        match check_feature_names(&mut feature_decoder) {
            Ok(()) => (),
            Err(e) => {
                return Err(e);
            },
        }
        match read_flags(&mut feature_decoder) {
            Ok(f) => Ok(Some(f)),
            Err(e) => {
                return Err(e);
            },
        }
    }
}

/// Scans the nested feature list for a name outside the catalogue:
/// a clean scan of known names passes, an unknown name is rejected.
#[verifier::rlimit(100)]
#[verifier::spinoff_prover]
fn check_feature_names(fd: &mut nv::Decoder) -> (r: Result<(), PoolDecodeError>)
    requires
        old(fd).wf(),
        old(fd).spec_offset() == 8,
    ensures
        final(fd).wf(),
        final(fd).spec_data() == old(fd).spec_data(),
        ({
            let nd = old(fd).spec_data();
            &&& (nv::scan_to_end(nd, 8) && nv::names_within(nd, 8, feature_keys())) <==> r
                == Ok::<(), PoolDecodeError>(())
            &&& (nv::scan_to_end(nd, 8) && !nv::names_within(nd, 8, feature_keys())) ==> (r
            matches Err(PoolDecodeError::UnknownFeature { .. }))
        }),
{
    let ghost fdd = fd.spec_data();
    let mut outcome: Result<(), PoolDecodeError> = Ok(());
    loop
        invariant_except_break
            nv::scan_to_end(fdd, 8) == nv::scan_to_end(fdd, fd.spec_offset()),
            nv::names_within(fdd, 8, feature_keys()) == nv::names_within(
                fdd,
                fd.spec_offset(),
                feature_keys(),
            ),
            outcome == Ok::<(), PoolDecodeError>(()),
        invariant
            fd.wf(),
            fd.spec_data() == fdd,
        ensures
            fd.wf(),
            fd.spec_data() == fdd,
            (nv::scan_to_end(fdd, 8) && nv::names_within(fdd, 8, feature_keys())) <==> outcome
                == Ok::<(), PoolDecodeError>(()),
            (nv::scan_to_end(fdd, 8) && !nv::names_within(fdd, 8, feature_keys())) ==> (outcome
            matches Err(PoolDecodeError::UnknownFeature { .. })),
        decreases fd.spec_remaining(),
    {
        let ghost co = fd.spec_offset();
        let pname = match fd.next_name() {
            Ok(v) => v,
            Err(err) => {
                proof {
                    nv::lemma_scan_stuck(fdd, co);
                }
                outcome = Err(PoolDecodeError::NvDecodeError { err });
                break ;
            },
        };
        let pname = match pname {
            Some(v) => v,
            None => {
                proof {
                    nv::lemma_scan_terminator(fdd, co, feature_keys());
                }
                break ;
            },
        };
        proof {
            nv::lemma_pair_esz_pos(fdd, co);
            nv::lemma_scan_step(fdd, co, feature_keys());
        }
        if !feature_known(pname) {
            outcome = Err(
                PoolDecodeError::UnknownFeature {
                    feature: pname.to_owned(),
                    full_length: pname.len(),
                },
            );
            break ;
        }
    }
    outcome
}

/// Reads every catalogue feature flag from the nested feature list.
#[verifier::rlimit(100)]
#[verifier::spinoff_prover]
fn read_flags(fd: &mut nv::Decoder) -> (r: Result<PoolFeaturesForRead, PoolDecodeError>)
    requires
        old(fd).wf(),
    ensures
        final(fd).wf(),
        ({
            let nd = old(fd).spec_data();
            (nd.len() >= 8 && nv::scan_to_end(nd, 8) && features_typed_ok(nd)) ==> (r matches Ok(
                f,
            ) && feature_fields_ok(f, nd))
        }),
{
    proof {
        reveal(feature_fields_ok);
        reveal(features_typed_ok);
    }
    let ghost nd = fd.spec_data();
    proof {
        if nd.len() >= 8 && nv::scan_to_end(nd, 8) {
                nv::lemma_scan_to_end_clean(nd, 8, "org.zfsonlinux:allocation_classes".spec_bytes());
                nv::lemma_scan_to_end_clean(nd, 8, "com.delphix:async_destroy".spec_bytes());
                nv::lemma_scan_to_end_clean(nd, 8, "org.openzfs:blake3".spec_bytes());
                nv::lemma_scan_to_end_clean(nd, 8, "com.fudosecurity:block_cloning".spec_bytes());
                nv::lemma_scan_to_end_clean(nd, 8, "com.datto:bookmark_v2".spec_bytes());
                nv::lemma_scan_to_end_clean(nd, 8, "com.delphix:bookmark_written".spec_bytes());
                nv::lemma_scan_to_end_clean(nd, 8, "com.delphix:bookmarks".spec_bytes());
                nv::lemma_scan_to_end_clean(nd, 8, "org.openzfs:device_rebuild".spec_bytes());
                nv::lemma_scan_to_end_clean(nd, 8, "com.delphix:device_removal".spec_bytes());
                nv::lemma_scan_to_end_clean(nd, 8, "org.openzfs:draid".spec_bytes());
                nv::lemma_scan_to_end_clean(nd, 8, "org.illumos:edonr".spec_bytes());
                nv::lemma_scan_to_end_clean(nd, 8, "com.delphix:embedded_data".spec_bytes());
                nv::lemma_scan_to_end_clean(nd, 8, "com.delphix:empty_bpobj".spec_bytes());
                nv::lemma_scan_to_end_clean(nd, 8, "com.delphix:enabled_txg".spec_bytes());
                nv::lemma_scan_to_end_clean(nd, 8, "com.datto:encryption".spec_bytes());
                nv::lemma_scan_to_end_clean(nd, 8, "com.delphix:extensible_dataset".spec_bytes());
                nv::lemma_scan_to_end_clean(nd, 8, "com.joyent:filesystem_limits".spec_bytes());
                nv::lemma_scan_to_end_clean(nd, 8, "com.delphix:head_errlog".spec_bytes());
                nv::lemma_scan_to_end_clean(nd, 8, "com.delphix:hole_birth".spec_bytes());
                nv::lemma_scan_to_end_clean(nd, 8, "org.open-zfs:large_blocks".spec_bytes());
                nv::lemma_scan_to_end_clean(nd, 8, "org.zfsonlinux:large_dnode".spec_bytes());
                nv::lemma_scan_to_end_clean(nd, 8, "com.delphix:livelist".spec_bytes());
                nv::lemma_scan_to_end_clean(nd, 8, "com.delphix:log_spacemap".spec_bytes());
                nv::lemma_scan_to_end_clean(nd, 8, "org.illumos:lz4_compress".spec_bytes());
                nv::lemma_scan_to_end_clean(nd, 8, "com.joyent:multi_vdev_crash_dump".spec_bytes());
                nv::lemma_scan_to_end_clean(nd, 8, "com.delphix:obsolete_counts".spec_bytes());
                nv::lemma_scan_to_end_clean(nd, 8, "org.zfsonlinux:project_quota".spec_bytes());
                nv::lemma_scan_to_end_clean(nd, 8, "com.delphix:redacted_datasets".spec_bytes());
                nv::lemma_scan_to_end_clean(nd, 8, "com.delphix:redaction_bookmarks".spec_bytes());
                nv::lemma_scan_to_end_clean(nd, 8, "com.datto:resilver_defer".spec_bytes());
                nv::lemma_scan_to_end_clean(nd, 8, "org.illumos:sha512".spec_bytes());
                nv::lemma_scan_to_end_clean(nd, 8, "org.illumos:skein".spec_bytes());
                nv::lemma_scan_to_end_clean(nd, 8, "com.delphix:spacemap_histogram".spec_bytes());
                nv::lemma_scan_to_end_clean(nd, 8, "com.delphix:spacemap_v2".spec_bytes());
                nv::lemma_scan_to_end_clean(nd, 8, "org.zfsonlinux:userobj_accounting".spec_bytes());
                nv::lemma_scan_to_end_clean(nd, 8, "org.openzfs:zilsaxattr".spec_bytes());
                nv::lemma_scan_to_end_clean(nd, 8, "com.delphix:zpool_checkpoint".spec_bytes());
                nv::lemma_scan_to_end_clean(nd, 8, "org.freebsd:zstd_compress".spec_bytes());
        }
    }
        let allocation_classes = match find_flag(
            fd,
            "org.zfsonlinux:allocation_classes",
        ) {
            Ok(v) => v,
            Err(e) => {
                return Err(e);
            },
        };
        let async_destroy = match find_flag(fd, "com.delphix:async_destroy") {
            Ok(v) => v,
            Err(e) => {
                return Err(e);
            },
        };
        let blake_3 = match find_flag(fd, "org.openzfs:blake3") {
            Ok(v) => v,
            Err(e) => {
                return Err(e);
            },
        };
        let block_cloning = match find_flag(fd, "com.fudosecurity:block_cloning") {
            Ok(v) => v,
            Err(e) => {
                return Err(e);
            },
        };
        let bookmark_v2 = match find_flag(fd, "com.datto:bookmark_v2") {
            Ok(v) => v,
            Err(e) => {
                return Err(e);
            },
        };
        let bookmark_written = match find_flag(
            fd,
            "com.delphix:bookmark_written",
        ) {
            Ok(v) => v,
            Err(e) => {
                return Err(e);
            },
        };
        let bookmarks = match find_flag(fd, "com.delphix:bookmarks") {
            Ok(v) => v,
            Err(e) => {
                return Err(e);
            },
        };
        let device_rebuild = match find_flag(fd, "org.openzfs:device_rebuild") {
            Ok(v) => v,
            Err(e) => {
                return Err(e);
            },
        };
        let device_removal = match find_flag(fd, "com.delphix:device_removal") {
            Ok(v) => v,
            Err(e) => {
                return Err(e);
            },
        };
        let draid = match find_flag(fd, "org.openzfs:draid") {
            Ok(v) => v,
            Err(e) => {
                return Err(e);
            },
        };
        let edonr = match find_flag(fd, "org.illumos:edonr") {
            Ok(v) => v,
            Err(e) => {
                return Err(e);
            },
        };
        let embedded_data = match find_flag(fd, "com.delphix:embedded_data") {
            Ok(v) => v,
            Err(e) => {
                return Err(e);
            },
        };
        let empty_block_pointer_object = match find_flag(
            fd,
            "com.delphix:empty_bpobj",
        ) {
            Ok(v) => v,
            Err(e) => {
                return Err(e);
            },
        };
        let enabled_txg = match find_flag(fd, "com.delphix:enabled_txg") {
            Ok(v) => v,
            Err(e) => {
                return Err(e);
            },
        };
        let encryption = match find_flag(fd, "com.datto:encryption") {
            Ok(v) => v,
            Err(e) => {
                return Err(e);
            },
        };
        let extensible_dataset = match find_flag(
            fd,
            "com.delphix:extensible_dataset",
        ) {
            Ok(v) => v,
            Err(e) => {
                return Err(e);
            },
        };
        let filesystem_limits = match find_flag(
            fd,
            "com.joyent:filesystem_limits",
        ) {
            Ok(v) => v,
            Err(e) => {
                return Err(e);
            },
        };
        let head_error_log = match find_flag(fd, "com.delphix:head_errlog") {
            Ok(v) => v,
            Err(e) => {
                return Err(e);
            },
        };
        let hole_birth = match find_flag(fd, "com.delphix:hole_birth") {
            Ok(v) => v,
            Err(e) => {
                return Err(e);
            },
        };
        let large_blocks = match find_flag(fd, "org.open-zfs:large_blocks") {
            Ok(v) => v,
            Err(e) => {
                return Err(e);
            },
        };
        let large_dnode = match find_flag(fd, "org.zfsonlinux:large_dnode") {
            Ok(v) => v,
            Err(e) => {
                return Err(e);
            },
        };
        let live_list = match find_flag(fd, "com.delphix:livelist") {
            Ok(v) => v,
            Err(e) => {
                return Err(e);
            },
        };
        let log_space_map = match find_flag(fd, "com.delphix:log_spacemap") {
            Ok(v) => v,
            Err(e) => {
                return Err(e);
            },
        };
        let lz4_compress = match find_flag(fd, "org.illumos:lz4_compress") {
            Ok(v) => v,
            Err(e) => {
                return Err(e);
            },
        };
        let multi_vdev_crash_dump = match find_flag(
            fd,
            "com.joyent:multi_vdev_crash_dump",
        ) {
            Ok(v) => v,
            Err(e) => {
                return Err(e);
            },
        };
        let obsolete_counts = match find_flag(fd, "com.delphix:obsolete_counts") {
            Ok(v) => v,
            Err(e) => {
                return Err(e);
            },
        };
        let project_quota = match find_flag(fd, "org.zfsonlinux:project_quota") {
            Ok(v) => v,
            Err(e) => {
                return Err(e);
            },
        };
        let redacted_datasets = match find_flag(
            fd,
            "com.delphix:redacted_datasets",
        ) {
            Ok(v) => v,
            Err(e) => {
                return Err(e);
            },
        };
        let redaction_bookmarks = match find_flag(
            fd,
            "com.delphix:redaction_bookmarks",
        ) {
            Ok(v) => v,
            Err(e) => {
                return Err(e);
            },
        };
        let resilver_defer = match find_flag(fd, "com.datto:resilver_defer") {
            Ok(v) => v,
            Err(e) => {
                return Err(e);
            },
        };
        let sha_512 = match find_flag(fd, "org.illumos:sha512") {
            Ok(v) => v,
            Err(e) => {
                return Err(e);
            },
        };
        let skein = match find_flag(fd, "org.illumos:skein") {
            Ok(v) => v,
            Err(e) => {
                return Err(e);
            },
        };
        let spacemap_historgram = match find_flag(
            fd,
            "com.delphix:spacemap_histogram",
        ) {
            Ok(v) => v,
            Err(e) => {
                return Err(e);
            },
        };
        let spacemap_v2 = match find_flag(fd, "com.delphix:spacemap_v2") {
            Ok(v) => v,
            Err(e) => {
                return Err(e);
            },
        };
        let user_object_accounting = match find_flag(
            fd,
            "org.zfsonlinux:userobj_accounting",
        ) {
            Ok(v) => v,
            Err(e) => {
                return Err(e);
            },
        };
        let zil_sa_xattr = match find_flag(fd, "org.openzfs:zilsaxattr") {
            Ok(v) => v,
            Err(e) => {
                return Err(e);
            },
        };
        let zpool_checkpoint = match find_flag(
            fd,
            "com.delphix:zpool_checkpoint",
        ) {
            Ok(v) => v,
            Err(e) => {
                return Err(e);
            },
        };
        let zstd_compress = match find_flag(fd, "org.freebsd:zstd_compress") {
            Ok(v) => v,
            Err(e) => {
                return Err(e);
            },
        };
        Ok(
            PoolFeaturesForRead {
                    allocation_classes,
                    async_destroy,
                    blake_3,
                    block_cloning,
                    bookmark_v2,
                    bookmark_written,
                    bookmarks,
                    device_rebuild,
                    device_removal,
                    draid,
                    edonr,
                    embedded_data,
                    empty_block_pointer_object,
                    enabled_txg,
                    encryption,
                    extensible_dataset,
                    filesystem_limits,
                    head_error_log,
                    hole_birth,
                    large_blocks,
                    large_dnode,
                    live_list,
                    log_space_map,
                    lz4_compress,
                    multi_vdev_crash_dump,
                    obsolete_counts,
                    project_quota,
                    redacted_datasets,
                    redaction_bookmarks,
                    resilver_defer,
                    sha_512,
                    skein,
                    spacemap_historgram,
                    spacemap_v2,
                    user_object_accounting,
                    zil_sa_xattr,
                    zpool_checkpoint,
                    zstd_compress,
            },
        )
}

/// The host a pool was last imported on.
#[derive(Clone, Copy, Debug, PartialEq)]
pub struct PoolHost<'a> {
    pub id: u64,
    pub name: &'a str,
}

impl<'a> PoolHost<'a> {
    /// Projects the host keys out of the configuration list: both
    /// present give the host; neither gives `None`; a host name
    /// without a host id is rejected; a host id without a host name is
    /// a missing value.
    pub fn from_decoder(decoder: &mut nv::Decoder<'a>) -> (r: Result<
        Option<PoolHost<'a>>,
        PoolDecodeError,
    >)
        requires
            old(decoder).wf(),
        ensures
            final(decoder).wf(),
            final(decoder).spec_data() == old(decoder).spec_data(),
            ({
                let d = old(decoder).spec_data();
                let idb = "hostid".spec_bytes();
                let nmb = "hostname".spec_bytes();
                (d.len() >= 8 && nv::scan_clean(d, 8, idb) && nv::scan_clean(d, 8, nmb)) ==> {
                    let fid = nv::scan_found(d, 8, idb);
                    let fnm = nv::scan_found(d, 8, nmb);
                    &&& (fid is Some && nv::pair_type_code(d, fid->0) == 8 && fnm is Some
                        && nv::pair_type_code(d, fnm->0) == 9) ==> (r matches Ok(Some(h)) && h.id
                        == nv::pair_u64_value(d, fid->0) && h.name.spec_bytes()
                        == nv::pair_str_value(d, fnm->0))
                    &&& (fid is Some && nv::pair_type_code(d, fid->0) == 8 && fnm is None) ==> (r
                    matches Err(PoolDecodeError::MissingValue { .. }))
                    &&& (fid is None && fnm is Some && nv::pair_type_code(d, fnm->0) == 9) ==> (r
                    matches Err(PoolDecodeError::InvalidConfiguration { .. }))
                    &&& (fid is None && fnm is None) ==> r == Ok::<
                        Option<PoolHost<'a>>,
                        PoolDecodeError,
                    >(Option::<PoolHost<'a>>::None)
                }
            }),
    {
        let host_id = match find_u64(decoder, "hostid") {
            Ok(v) => v,
            Err(e) => {
                return Err(e);
            },
        };
        match host_id {
            Some(id) => {
                let host_name = match find_str(decoder, "hostname") {
                    Ok(v) => v,
                    Err(e) => {
                        return Err(e);
                    },
                };
                match host_name {
                    Some(name) => Ok(Some(PoolHost { id, name })),
                    None => Err(PoolDecodeError::MissingValue { name: "hostname" }),
                }
            },
            None => {
                let host_name = match find_str(decoder, "hostname") {
                    Ok(v) => v,
                    Err(e) => {
                        return Err(e);
                    },
                };
                if host_name.is_some() {
                    return Err(
                        PoolDecodeError::InvalidConfiguration {
                            reason: "'hostname' is set, but 'hostid' is not",
                        },
                    );
                }
                Ok(None)
            },
        }
    }
}

/// True of the name bytes of a known top-level configuration key.
#[verifier::opaque]
pub open spec fn pool_key_ok(n: Seq<u8>) -> bool {
    ||| n == "guid".spec_bytes()
    ||| n == "name".spec_bytes()
    ||| n == "pool_guid".spec_bytes()
    ||| n == "state".spec_bytes()
    ||| n == "top_guid".spec_bytes()
    ||| n == "txg".spec_bytes()
    ||| n == "vdev_tree".spec_bytes()
    ||| n == "version".spec_bytes()
    ||| n == "pool_health".spec_bytes()
    ||| n == "hostid".spec_bytes()
    ||| n == "hostname".spec_bytes()
    ||| n == "vdev_children".spec_bytes()
    ||| n == "errata".spec_bytes()
    ||| n == "features_for_read".spec_bytes()
}

/// The closed set of top-level configuration keys.
pub open spec fn pool_keys() -> Set<Seq<u8>> {
    Set::new(|n: Seq<u8>| pool_key_ok(n))
}

/// The required pair `name` is present as a 64-bit unsigned value.
pub open spec fn pool_req_u64_ok(d: Seq<u8>, name: Seq<u8>) -> bool {
    let f = nv::scan_found(d, 8, name);
    f is Some && nv::pair_type_code(d, f->0) == 8
}

/// The 64-bit value of the pair named `name`.
pub open spec fn pool_req_u64_val(d: Seq<u8>, name: Seq<u8>) -> u64 {
    nv::pair_u64_value(d, nv::scan_found(d, 8, name)->0)
}

/// True when `name` is a known top-level configuration key.
fn pool_key_known(name: &str) -> (r: bool)
    ensures
        r == pool_keys().contains(name.spec_bytes()),
{
    proof {
        reveal(pool_key_ok);
    }
    str_bytes_equal(name, "guid") || str_bytes_equal(name, "name") || str_bytes_equal(
        name,
        "pool_guid",
    ) || str_bytes_equal(name, "state") || str_bytes_equal(name, "top_guid") || str_bytes_equal(
        name,
        "txg",
    ) || str_bytes_equal(name, "vdev_tree") || str_bytes_equal(name, "version")
        || str_bytes_equal(name, "pool_health") || str_bytes_equal(name, "hostid")
        || str_bytes_equal(name, "hostname") || str_bytes_equal(name, "vdev_children")
        || str_bytes_equal(name, "errata") || str_bytes_equal(name, "features_for_read")
}

/// Scans the configuration list for a name outside the key set: a
/// clean scan of known names passes, an unknown name is rejected.
#[verifier::rlimit(100)]
#[verifier::spinoff_prover]
fn check_pool_keys(fd: &mut nv::Decoder) -> (r: Result<(), PoolDecodeError>)
    requires
        old(fd).wf(),
        old(fd).spec_data().len() >= 8 ==> old(fd).spec_offset() == 8,
    ensures
        final(fd).wf(),
        final(fd).spec_data() == old(fd).spec_data(),
        ({
            let d = old(fd).spec_data();
            d.len() >= 8 ==> {
                &&& (nv::scan_to_end(d, 8) && nv::names_within(d, 8, pool_keys())) <==> r
                    == Ok::<(), PoolDecodeError>(())
                &&& (nv::scan_to_end(d, 8) && !nv::names_within(d, 8, pool_keys())) ==> (r
                matches Err(PoolDecodeError::UnknownName { .. }))
            }
        }),
{
    let ghost fdd = fd.spec_data();
    let mut outcome: Result<(), PoolDecodeError> = Ok(());
    loop
        invariant_except_break
            fdd.len() >= 8 ==> nv::scan_to_end(fdd, 8) == nv::scan_to_end(fdd, fd.spec_offset()),
            fdd.len() >= 8 ==> nv::names_within(fdd, 8, pool_keys()) == nv::names_within(
                fdd,
                fd.spec_offset(),
                pool_keys(),
            ),
            outcome == Ok::<(), PoolDecodeError>(()),
        invariant
            fd.wf(),
            fd.spec_data() == fdd,
        ensures
            fd.wf(),
            fd.spec_data() == fdd,
            fdd.len() >= 8 ==> ((nv::scan_to_end(fdd, 8) && nv::names_within(fdd, 8, pool_keys()))
                <==> outcome == Ok::<(), PoolDecodeError>(())),
            fdd.len() >= 8 ==> ((nv::scan_to_end(fdd, 8) && !nv::names_within(
                fdd,
                8,
                pool_keys(),
            )) ==> (outcome matches Err(PoolDecodeError::UnknownName { .. }))),
        decreases fd.spec_remaining(),
    {
        let ghost co = fd.spec_offset();
        let pname = match fd.next_name() {
            Ok(v) => v,
            Err(err) => {
                proof {
                    nv::lemma_scan_stuck(fdd, co);
                }
                outcome = Err(PoolDecodeError::NvDecodeError { err });
                break ;
            },
        };
        let pname = match pname {
            Some(v) => v,
            None => {
                proof {
                    nv::lemma_scan_terminator(fdd, co, pool_keys());
                }
                break ;
            },
        };
        proof {
            nv::lemma_pair_esz_pos(fdd, co);
            nv::lemma_scan_step(fdd, co, pool_keys());
        }
        if !pool_key_known(pname) {
            outcome = Err(
                PoolDecodeError::UnknownName {
                    name: pname.to_owned(),
                    full_length: pname.len(),
                },
            );
            break ;
        }
    }
    outcome
}

/// A pool configuration projected from a label's name-value list.
#[derive(Clone, Debug, PartialEq)]
pub struct Pool<'a> {
    pub guid: u64,
    pub name: &'a str,
    pub pool_guid: u64,
    pub state: PoolState,
    pub top_guid: u64,
    pub txg: u64,
    pub version: PoolVersion,
    pub pool_health: Option<PoolHealth>,
    pub host: Option<PoolHost<'a>>,
    pub vdev_children: Option<u64>,
    pub errata: Option<u64>,
    pub features_for_read: Option<PoolFeaturesForRead>,
}

/// Finds a required 64-bit unsigned value by name: on a clean scan,
/// an absent key is a missing value, and another type is a mismatch.
fn require_u64(decoder: &mut nv::Decoder, name: &'static str) -> (r: Result<u64, PoolDecodeError>)
    requires
        old(decoder).wf(),
    ensures
        final(decoder).wf(),
        final(decoder).spec_data() == old(decoder).spec_data(),
        ({
            let d = old(decoder).spec_data();
            let nb = name.spec_bytes();
            (d.len() >= 8 && nv::scan_clean(d, 8, nb)) ==> match nv::scan_found(d, 8, nb) {
                Some(po) => if nv::pair_type_code(d, po) == 8 {
                    r == Ok::<u64, PoolDecodeError>(nv::pair_u64_value(d, po))
                } else {
                    (r matches Err(PoolDecodeError::ValueTypeMismatch { name: n2, data_type })
                        && n2@ == name@)
                },
                None => r == Err::<u64, PoolDecodeError>((PoolDecodeError::MissingValue { name })),
            }
        }),
{
    match find_u64(decoder, name) {
        Ok(Some(v)) => Ok(v),
        Ok(None) => Err(PoolDecodeError::MissingValue { name }),
        Err(e) => Err(e),
    }
}

impl<'a> Pool<'a> {
    /// Projects the pool configuration out of its name-value list:
    /// unknown top-level names are rejected, the required identity keys
    /// must be present with their declared types, and the optional
    /// keys follow their version-gated rules.
    #[verifier::rlimit(100)]
    #[verifier::spinoff_prover]
    pub fn from_decoder(decoder: &mut nv::Decoder<'a>) -> (r: Result<Pool<'a>, PoolDecodeError>)
        requires
            old(decoder).wf(),
        ensures
            final(decoder).wf(),
            final(decoder).spec_data() == old(decoder).spec_data(),
            ({
                let d = old(decoder).spec_data();
                r matches Ok(p) ==> (d.len() >= 8 ==> {
                    let fg = nv::scan_found(d, 8, "guid".spec_bytes());
                    let fm = nv::scan_found(d, 8, "name".spec_bytes());
                    let fpg = nv::scan_found(d, 8, "pool_guid".spec_bytes());
                    let fs = nv::scan_found(d, 8, "state".spec_bytes());
                    let ftg = nv::scan_found(d, 8, "top_guid".spec_bytes());
                    let ft = nv::scan_found(d, 8, "txg".spec_bytes());
                    let fv = nv::scan_found(d, 8, "version".spec_bytes());
                    let fph = nv::scan_found(d, 8, "pool_health".spec_bytes());
                    let fvc = nv::scan_found(d, 8, "vdev_children".spec_bytes());
                    let fe = nv::scan_found(d, 8, "errata".spec_bytes());
                    &&& nv::scan_clean(d, 8, "guid".spec_bytes()) ==> (fg is Some
                        && nv::pair_type_code(d, fg->0) == 8 && p.guid == nv::pair_u64_value(
                        d,
                        fg->0,
                    ))
                    &&& nv::scan_clean(d, 8, "name".spec_bytes()) ==> (fm is Some
                        && nv::pair_type_code(d, fm->0) == 9 && p.name.spec_bytes()
                        == nv::pair_str_value(d, fm->0))
                    &&& nv::scan_clean(d, 8, "pool_guid".spec_bytes()) ==> (fpg is Some
                        && nv::pair_type_code(d, fpg->0) == 8 && p.pool_guid == nv::pair_u64_value(
                        d,
                        fpg->0,
                    ))
                    &&& nv::scan_clean(d, 8, "state".spec_bytes()) ==> (fs is Some
                        && nv::pair_type_code(d, fs->0) == 8 && nv::pair_u64_value(d, fs->0) <= 4
                        && p.state.spec_value() == nv::pair_u64_value(d, fs->0))
                    &&& nv::scan_clean(d, 8, "top_guid".spec_bytes()) ==> (ftg is Some
                        && nv::pair_type_code(d, ftg->0) == 8 && p.top_guid == nv::pair_u64_value(
                        d,
                        ftg->0,
                    ))
                    &&& nv::scan_clean(d, 8, "txg".spec_bytes()) ==> (ft is Some
                        && nv::pair_type_code(d, ft->0) == 8 && p.txg == nv::pair_u64_value(
                        d,
                        ft->0,
                    ))
                    &&& nv::scan_clean(d, 8, "version".spec_bytes()) ==> (fv is Some
                        && nv::pair_type_code(d, fv->0) == 8 && p.version.spec_value()
                        == nv::pair_u64_value(d, fv->0))
                    &&& (nv::scan_clean(d, 8, "pool_health".spec_bytes()) && fph is None)
                        ==> p.pool_health is None
                    &&& (nv::scan_clean(d, 8, "vdev_children".spec_bytes()) && fvc is None)
                        ==> p.vdev_children is None
                    &&& (nv::scan_clean(d, 8, "vdev_children".spec_bytes()) && fvc is Some
                        && nv::pair_type_code(d, fvc->0) == 8) ==> p.vdev_children == Some(
                        nv::pair_u64_value(d, fvc->0),
                    )
                    &&& (nv::scan_clean(d, 8, "errata".spec_bytes()) && fe is None) ==> p.errata
                        is None
                    &&& (nv::scan_clean(d, 8, "errata".spec_bytes()) && fe is Some
                        && nv::pair_type_code(d, fe->0) == 8) ==> p.errata == Some(
                        nv::pair_u64_value(d, fe->0),
                    )
                    &&& (nv::scan_clean(d, 8, "features_for_read".spec_bytes()) && nv::scan_found(
                        d,
                        8,
                        "features_for_read".spec_bytes(),
                    ) is None) ==> p.features_for_read is None
                })
            }),
            ({
                let d = old(decoder).spec_data();
                let gb = "guid".spec_bytes();
                let mb = "name".spec_bytes();
                let pb = "pool_guid".spec_bytes();
                let sb = "state".spec_bytes();
                let tb = "top_guid".spec_bytes();
                let xb = "txg".spec_bytes();
                let vb = "version".spec_bytes();
                (d.len() >= 8 && nv::scan_to_end(d, 8)) ==> {
                    let name_ok = (nv::scan_found(d, 8, mb) is Some && nv::pair_type_code(
                        d,
                        nv::scan_found(d, 8, mb)->0,
                    ) == 9);
                    &&& !nv::names_within(d, 8, pool_keys()) ==> (r matches Err(
                        PoolDecodeError::UnknownName { .. },
                    ))
                    &&& nv::names_within(d, 8, pool_keys()) ==> {
                        &&& nv::scan_found(d, 8, gb) is None ==> (r matches Err(
                            PoolDecodeError::MissingValue { name },
                        ) && name@ == "guid"@)
                        &&& (pool_req_u64_ok(d, gb) && nv::scan_found(d, 8, mb) is None) ==> (r
                        matches Err(PoolDecodeError::MissingValue { name }) && name@ == "name"@)
                        &&& (pool_req_u64_ok(d, gb) && name_ok && nv::scan_found(d, 8, pb)
                            is None) ==> (r matches Err(PoolDecodeError::MissingValue { name })
                            && name@ == "pool_guid"@)
                        &&& (pool_req_u64_ok(d, gb) && name_ok && pool_req_u64_ok(d, pb)
                            && nv::scan_found(d, 8, sb) is None) ==> (r matches Err(
                            PoolDecodeError::MissingValue { name },
                        ) && name@ == "state"@)
                        &&& (pool_req_u64_ok(d, gb) && name_ok && pool_req_u64_ok(d, pb)
                            && pool_req_u64_ok(d, sb) && pool_req_u64_val(d, sb) > 4) ==> (r
                        matches Err(PoolDecodeError::InvalidState { state }) && state
                            == pool_req_u64_val(d, sb))
                        &&& (pool_req_u64_ok(d, gb) && name_ok && pool_req_u64_ok(d, pb)
                            && pool_req_u64_ok(d, sb) && pool_req_u64_val(d, sb) <= 4
                            && nv::scan_found(d, 8, tb) is None) ==> (r matches Err(
                            PoolDecodeError::MissingValue { name },
                        ) && name@ == "top_guid"@)
                        &&& (pool_req_u64_ok(d, gb) && name_ok && pool_req_u64_ok(d, pb)
                            && pool_req_u64_ok(d, sb) && pool_req_u64_val(d, sb) <= 4
                            && pool_req_u64_ok(d, tb) && nv::scan_found(d, 8, xb) is None) ==> (r
                        matches Err(PoolDecodeError::MissingValue { name }) && name@ == "txg"@)
                        &&& (pool_req_u64_ok(d, gb) && name_ok && pool_req_u64_ok(d, pb)
                            && pool_req_u64_ok(d, sb) && pool_req_u64_val(d, sb) <= 4
                            && pool_req_u64_ok(d, tb) && pool_req_u64_ok(d, xb) && nv::scan_found(
                            d,
                            8,
                            vb,
                        ) is None) ==> (r matches Err(PoolDecodeError::MissingValue { name })
                            && name@ == "version"@)
                        &&& (pool_req_u64_ok(d, gb) && name_ok && pool_req_u64_ok(d, pb)
                            && pool_req_u64_ok(d, sb) && pool_req_u64_val(d, sb) <= 4
                            && pool_req_u64_ok(d, tb) && pool_req_u64_ok(d, xb) && pool_req_u64_ok(
                            d,
                            vb,
                        ) && !(1 <= pool_req_u64_val(d, vb) <= 28 || pool_req_u64_val(d, vb)
                            == 5000)) ==> (r matches Err(
                            PoolDecodeError::UnsupportedVersion { version },
                        ) && version == pool_req_u64_val(d, vb))
                    }
                }
            }),
            ({
                let d = old(decoder).spec_data();
                let gb = "guid".spec_bytes();
                let mb = "name".spec_bytes();
                let pb = "pool_guid".spec_bytes();
                let sb = "state".spec_bytes();
                let tb = "top_guid".spec_bytes();
                let xb = "txg".spec_bytes();
                let vb = "version".spec_bytes();
                let fh = nv::scan_found(d, 8, "pool_health".spec_bytes());
                let fid = nv::scan_found(d, 8, "hostid".spec_bytes());
                let fnm = nv::scan_found(d, 8, "hostname".spec_bytes());
                let fvc = nv::scan_found(d, 8, "vdev_children".spec_bytes());
                let fe = nv::scan_found(d, 8, "errata".spec_bytes());
                let ff = nv::scan_found(d, 8, "features_for_read".spec_bytes());
                let name_ok = (nv::scan_found(d, 8, mb) is Some && nv::pair_type_code(
                    d,
                    nv::scan_found(d, 8, mb)->0,
                ) == 9);
                let health_ok = fh is None || (nv::pair_type_code(d, fh->0) == 9 && (
                nv::pair_str_value(d, fh->0) == "DEGRADED".spec_bytes() || nv::pair_str_value(
                    d,
                    fh->0,
                ) == "FAULTED".spec_bytes() || nv::pair_str_value(d, fh->0)
                    == "ONLINE".spec_bytes()));
                let host_ok = (fid is None && fnm is None) || (fid is Some && nv::pair_type_code(
                    d,
                    fid->0,
                ) == 8 && fnm is Some && nv::pair_type_code(d, fnm->0) == 9);
                let children_ok = fvc is None || nv::pair_type_code(d, fvc->0) == 8;
                let errata_ok = fe is None || nv::pair_type_code(d, fe->0) == 8;
                let features_ok = ff is None || (nv::pair_type_code(d, ff->0) == 19 && {
                    let nd = nv::pair_list_value(d, ff->0);
                    nd.len() >= 8 && nv::scan_to_end(nd, 8) && nv::names_within(
                        nd,
                        8,
                        feature_keys(),
                    ) && features_typed_ok(nd)
                });
                (d.len() >= 8 && nv::scan_to_end(d, 8) && nv::names_within(d, 8, pool_keys())
                    && pool_req_u64_ok(d, gb) && name_ok && pool_req_u64_ok(d, pb)
                    && pool_req_u64_ok(d, sb) && pool_req_u64_val(d, sb) <= 4 && pool_req_u64_ok(
                    d,
                    tb,
                ) && pool_req_u64_ok(d, xb) && pool_req_u64_ok(d, vb) && (1 <= pool_req_u64_val(
                    d,
                    vb,
                ) <= 28 || pool_req_u64_val(d, vb) == 5000) && health_ok && host_ok && children_ok
                    && errata_ok && features_ok) ==> r is Ok
            }),
    {
        decoder.reset();
        match check_pool_keys(decoder) {
            Ok(()) => (),
            Err(e) => {
                return Err(e);
            },
        }
        proof {
            let d = decoder.spec_data();
            if d.len() >= 8 && nv::scan_to_end(d, 8) {
                nv::lemma_scan_to_end_clean(d, 8, "guid".spec_bytes());
                nv::lemma_scan_to_end_clean(d, 8, "name".spec_bytes());
                nv::lemma_scan_to_end_clean(d, 8, "pool_guid".spec_bytes());
                nv::lemma_scan_to_end_clean(d, 8, "state".spec_bytes());
                nv::lemma_scan_to_end_clean(d, 8, "top_guid".spec_bytes());
                nv::lemma_scan_to_end_clean(d, 8, "txg".spec_bytes());
                nv::lemma_scan_to_end_clean(d, 8, "version".spec_bytes());
                nv::lemma_scan_to_end_clean(d, 8, "pool_health".spec_bytes());
                nv::lemma_scan_to_end_clean(d, 8, "hostid".spec_bytes());
                nv::lemma_scan_to_end_clean(d, 8, "hostname".spec_bytes());
                nv::lemma_scan_to_end_clean(d, 8, "vdev_children".spec_bytes());
                nv::lemma_scan_to_end_clean(d, 8, "errata".spec_bytes());
                nv::lemma_scan_to_end_clean(d, 8, "features_for_read".spec_bytes());
            }
        }
        let guid = match require_u64(decoder, "guid") {
            Ok(v) => v,
            Err(e) => {
                return Err(e);
            },
        };
        let name = match find_str(decoder, "name") {
            Ok(Some(v)) => v,
            Ok(None) => {
                return Err(PoolDecodeError::MissingValue { name: "name" });
            },
            Err(e) => {
                return Err(e);
            },
        };
        let pool_guid = match require_u64(decoder, "pool_guid") {
            Ok(v) => v,
            Err(e) => {
                return Err(e);
            },
        };
        let state_number = match require_u64(decoder, "state") {
            Ok(v) => v,
            Err(e) => {
                return Err(e);
            },
        };
        let state = match PoolState::try_from_u64(state_number) {
            Some(v) => v,
            None => {
                return Err(PoolDecodeError::InvalidState { state: state_number });
            },
        };
        let top_guid = match require_u64(decoder, "top_guid") {
            Ok(v) => v,
            Err(e) => {
                return Err(e);
            },
        };
        let txg = match require_u64(decoder, "txg") {
            Ok(v) => v,
            Err(e) => {
                return Err(e);
            },
        };
        let version_number = match require_u64(decoder, "version") {
            Ok(v) => v,
            Err(e) => {
                return Err(e);
            },
        };
        let version = match PoolVersion::try_from_u64(version_number) {
            Some(v) => v,
            None => {
                return Err(PoolDecodeError::UnsupportedVersion { version: version_number });
            },
        };
        proof {
            broadcast use vstd::utf8::encode_utf8_decode_utf8;

            reveal_strlit("DEGRADED");
            reveal_strlit("FAULTED");
            reveal_strlit("ONLINE");
            assert(vstd::utf8::decode_utf8(vstd::utf8::encode_utf8("DEGRADED"@)) == "DEGRADED"@);
            assert(vstd::utf8::decode_utf8(vstd::utf8::encode_utf8("FAULTED"@)) == "FAULTED"@);
            assert(vstd::utf8::decode_utf8(vstd::utf8::encode_utf8("ONLINE"@)) == "ONLINE"@);
        }
        let pool_health = match find_str(decoder, "pool_health") {
            Ok(Some(s)) => match pool_health_from_str(s) {
                Ok(h) => Some(h),
                Err(e) => {
                    return Err(e);
                },
            },
            Ok(None) => None,
            Err(e) => {
                return Err(e);
            },
        };
        let host = match PoolHost::from_decoder(decoder) {
            Ok(v) => v,
            Err(e) => {
                return Err(e);
            },
        };
        let vdev_children = match find_u64(decoder, "vdev_children") {
            Ok(v) => v,
            Err(e) => {
                return Err(e);
            },
        };
        let errata = match find_u64(decoder, "errata") {
            Ok(v) => v,
            Err(e) => {
                return Err(e);
            },
        };
        let features_for_read = match PoolFeaturesForRead::from_decoder(decoder) {
            Ok(v) => v,
            Err(e) => {
                return Err(e);
            },
        };
        Ok(
            Pool {
                guid,
                name,
                pool_guid,
                state,
                top_guid,
                txg,
                version,
                pool_health,
                host,
                vdev_children,
                errata,
                features_for_read,
            },
        )
    }
}

} // verus!
