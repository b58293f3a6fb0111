//! The virtual-device tree read from a pool configuration: the tree's
//! identity keys, a type string selecting the device shape, and the
//! shape's own keys. Only the leaf-disk shape is carried.

use vstd::prelude::*;

use vstd::string::StringSliceAdditionalSpecFns;

use crate::nv;
use crate::nv::{str_bytes_equal, DataType, DecodedDataValue};
use crate::phys::pool::PoolDecodeError;

verus! {

/// The alignment and metaslab keys a device carries together: if the
/// alignment shift is present, the rest must be too.
#[derive(Clone, Copy, Debug, PartialEq, Eq, Structural)]
pub struct VdevAlignmentMetaSlab {
    pub a_shift: u64,
    pub a_size: u64,
    pub meta_slab_array: u64,
    pub meta_slab_shift: u64,
}

/// A failure while projecting the virtual-device tree.
#[derive(Debug)]
pub enum VdevDecodeError {
    /// A rule over several keys is broken.
    InvalidConfiguration { reason: &'static str },
    /// A flag key carries a 64-bit value that is neither zero nor one.
    InvalidU64Bool { name: &'static str, value: u64 },
    /// A required key is absent.
    MissingValue { name: &'static str },
    /// The underlying list decoder failed.
    NvDecodeError { err: nv::DecodeError },
    /// A device key is unknown.
    UnknownName { name: String, full_length: usize },
    /// The device type string is unknown.
    UnknownType { vdev_type: String, full_length: usize },
    /// A key carries a value of the wrong type.
    ValueTypeMismatch { name: &'static str, data_type: DataType },
}

/// Finds a 64-bit unsigned value by name: on a clean scan, the first
/// pair of that name gives its value, another type is a mismatch, and
/// an absent key gives `None`.
fn find_u64(decoder: &mut nv::Decoder, name: &'static str) -> (r: Result<
    Option<u64>,
    VdevDecodeError,
>)
    requires
        old(decoder).wf(),
    ensures
        final(decoder).wf(),
        final(decoder).spec_data() == old(decoder).spec_data(),
        !(r matches Err(VdevDecodeError::UnknownType { .. })),
        ({
            let d = old(decoder).spec_data();
            let nb = name.spec_bytes();
            (d.len() >= 8 && nv::scan_clean(d, 8, nb)) ==> match nv::scan_found(d, 8, nb) {
                Some(po) => if nv::pair_type_code(d, po) == 8 {
                    r == Ok::<Option<u64>, VdevDecodeError>(Some(nv::pair_u64_value(d, po)))
                } else {
                    (r matches Err(VdevDecodeError::ValueTypeMismatch { name: n2, data_type })
                        && n2@ == name@)
                },
                None => r == Ok::<Option<u64>, VdevDecodeError>(Option::<u64>::None),
            }
        }),
{
    let pair = match decoder.find_pair(name) {
        Ok(v) => v,
        Err(err) => {
            return Err(VdevDecodeError::NvDecodeError { err });
        },
    };
    match pair {
        Some(p) => match p.value {
            DecodedDataValue::Uint64(v) => Ok(Some(v)),
            _ => Err(VdevDecodeError::ValueTypeMismatch { name, data_type: p.data_type() }),
        },
        None => Ok(None),
    }
}

/// Finds a string value by name: on a clean scan, the first pair of
/// that name gives its string, another type is a mismatch, and an
/// absent key gives `None`.
fn find_str<'a>(decoder: &mut nv::Decoder<'a>, name: &'static str) -> (r: Result<
    Option<&'a str>,
    VdevDecodeError,
>)
    requires
        old(decoder).wf(),
    ensures
        final(decoder).wf(),
        final(decoder).spec_data() == old(decoder).spec_data(),
        !(r matches Err(VdevDecodeError::UnknownType { .. })),
        ({
            let d = old(decoder).spec_data();
            let nb = name.spec_bytes();
            (d.len() >= 8 && nv::scan_clean(d, 8, nb)) ==> match nv::scan_found(d, 8, nb) {
                Some(po) => if nv::pair_type_code(d, po) == 9 {
                    (r matches Ok(Some(s)) && s.spec_bytes() == nv::pair_str_value(d, po))
                } else {
                    (r matches Err(VdevDecodeError::ValueTypeMismatch { name: n2, data_type })
                        && n2@ == name@)
                },
                None => r == Ok::<Option<&'a str>, VdevDecodeError>(Option::<&'a str>::None),
            }
        }),
{
    let pair = match decoder.find_pair(name) {
        Ok(v) => v,
        Err(err) => {
            return Err(VdevDecodeError::NvDecodeError { err });
        },
    };
    match pair {
        Some(p) => match p.value {
            DecodedDataValue::String(v) => Ok(Some(v)),
            _ => Err(VdevDecodeError::ValueTypeMismatch { name, data_type: p.data_type() }),
        },
        None => Ok(None),
    }
}

/// Finds a required 64-bit unsigned value by name: on a clean scan,
/// an absent key is a missing value, and another type is a mismatch.
fn require_u64(decoder: &mut nv::Decoder, name: &'static str) -> (r: Result<u64, VdevDecodeError>)
    requires
        old(decoder).wf(),
    ensures
        final(decoder).wf(),
        final(decoder).spec_data() == old(decoder).spec_data(),
        !(r matches Err(VdevDecodeError::UnknownType { .. })),
        ({
            let d = old(decoder).spec_data();
            let nb = name.spec_bytes();
            (d.len() >= 8 && nv::scan_clean(d, 8, nb)) ==> match nv::scan_found(d, 8, nb) {
                Some(po) => if nv::pair_type_code(d, po) == 8 {
                    r == Ok::<u64, VdevDecodeError>(nv::pair_u64_value(d, po))
                } else {
                    (r matches Err(VdevDecodeError::ValueTypeMismatch { name: n2, data_type })
                        && n2@ == name@)
                },
                None => r == Err::<u64, VdevDecodeError>((VdevDecodeError::MissingValue { name })),
            }
        }),
{
    match find_u64(decoder, name) {
        Ok(Some(v)) => Ok(v),
        Ok(None) => Err(VdevDecodeError::MissingValue { name }),
        Err(e) => Err(e),
    }
}

impl VdevAlignmentMetaSlab {
    /// Projects the alignment and metaslab keys: the alignment shift
    /// present means all four must be; none present gives `None`; any
    /// of the other three without the shift is rejected.
    pub fn from_decoder(decoder: &mut nv::Decoder) -> (r: Result<
        Option<VdevAlignmentMetaSlab>,
        VdevDecodeError,
    >)
        requires
            old(decoder).wf(),
        ensures
            final(decoder).wf(),
            final(decoder).spec_data() == old(decoder).spec_data(),
        !(r matches Err(VdevDecodeError::UnknownType { .. })),
            ({
                let d = old(decoder).spec_data();
                let shb = "ashift".spec_bytes();
                let szb = "asize".spec_bytes();
                let mab = "metaslab_array".spec_bytes();
                let msb = "metaslab_shift".spec_bytes();
                (d.len() >= 8 && nv::scan_clean(d, 8, shb) && nv::scan_clean(d, 8, szb)
                    && nv::scan_clean(d, 8, mab) && nv::scan_clean(d, 8, msb)) ==> {
                    let fsh = nv::scan_found(d, 8, shb);
                    let fsz = nv::scan_found(d, 8, szb);
                    let fma = nv::scan_found(d, 8, mab);
                    let fms = nv::scan_found(d, 8, msb);
                    &&& (fsh is Some && nv::pair_type_code(d, fsh->0) == 8 && fsz is Some
                        && nv::pair_type_code(d, fsz->0) == 8 && fma is Some && nv::pair_type_code(
                        d,
                        fma->0,
                    ) == 8 && fms is Some && nv::pair_type_code(d, fms->0) == 8) ==> r == Ok::<
                        Option<VdevAlignmentMetaSlab>,
                        VdevDecodeError,
                    >(
                        Some(
                            VdevAlignmentMetaSlab {
                                a_shift: nv::pair_u64_value(d, fsh->0),
                                a_size: nv::pair_u64_value(d, fsz->0),
                                meta_slab_array: nv::pair_u64_value(d, fma->0),
                                meta_slab_shift: nv::pair_u64_value(d, fms->0),
                            },
                        ),
                    )
                    &&& (fsh is None && fsz is None && fma is None && fms is None) ==> r == Ok::<
                        Option<VdevAlignmentMetaSlab>,
                        VdevDecodeError,
                    >(Option::<VdevAlignmentMetaSlab>::None)
                    &&& (fsh is None && (fsz is None || nv::pair_type_code(d, fsz->0) == 8) && (
                    fma is None || nv::pair_type_code(d, fma->0) == 8) && (fms is None
                        || nv::pair_type_code(d, fms->0) == 8) && (fsz is Some || fma is Some
                        || fms is Some)) ==> (r matches Err(
                        VdevDecodeError::InvalidConfiguration { .. },
                    ))
                    &&& (fsh is Some && nv::pair_type_code(d, fsh->0) == 8 && fsz is None) ==> (r
                    matches Err(VdevDecodeError::MissingValue { .. }))
                    &&& (fsh is Some && nv::pair_type_code(d, fsh->0) == 8 && fsz is Some
                        && nv::pair_type_code(d, fsz->0) == 8 && fma is None) ==> (r matches Err(
                        VdevDecodeError::MissingValue { .. },
                    ))
                    &&& (fsh is Some && nv::pair_type_code(d, fsh->0) == 8 && fsz is Some
                        && nv::pair_type_code(d, fsz->0) == 8 && fma is Some && nv::pair_type_code(
                        d,
                        fma->0,
                    ) == 8 && fms is None) ==> (r matches Err(VdevDecodeError::MissingValue { .. }))
                }
            }),
    {
        let a_shift = match find_u64(decoder, "ashift") {
            Ok(v) => v,
            Err(e) => {
                return Err(e);
            },
        };
        match a_shift {
            Some(a_shift) => {
                let a_size = match require_u64(decoder, "asize") {
                    Ok(v) => v,
                    Err(e) => {
                        return Err(e);
                    },
                };
                let meta_slab_array = match require_u64(decoder, "metaslab_array") {
                    Ok(v) => v,
                    Err(e) => {
                        return Err(e);
                    },
                };
                let meta_slab_shift = match require_u64(decoder, "metaslab_shift") {
                    Ok(v) => v,
                    Err(e) => {
                        return Err(e);
                    },
                };
                Ok(Some(VdevAlignmentMetaSlab { a_shift, a_size, meta_slab_array, meta_slab_shift }))
            },
            None => {
                let a_size = match find_u64(decoder, "asize") {
                    Ok(v) => v,
                    Err(e) => {
                        return Err(e);
                    },
                };
                let meta_slab_array = match find_u64(decoder, "metaslab_array") {
                    Ok(v) => v,
                    Err(e) => {
                        return Err(e);
                    },
                };
                let meta_slab_shift = match find_u64(decoder, "metaslab_shift") {
                    Ok(v) => v,
                    Err(e) => {
                        return Err(e);
                    },
                };
                if a_size.is_some() || meta_slab_array.is_some() || meta_slab_shift.is_some() {
                    return Err(
                        VdevDecodeError::InvalidConfiguration {
                            reason: "'ashift' is missing, but 'asize', 'metaslab_array', or 'metaslab_shift' is set",
                        },
                    );
                }
                Ok(None)
            },
        }
    }
}

/// True of the name bytes of a known leaf-disk key.
#[verifier::opaque]
pub open spec fn disk_key_ok(n: Seq<u8>) -> bool {
    ||| n == "id".spec_bytes()
    ||| n == "type".spec_bytes()
    ||| n == "guid".spec_bytes()
    ||| n == "ashift".spec_bytes()
    ||| n == "asize".spec_bytes()
    ||| n == "create_txg".spec_bytes()
    ||| n == "devid".spec_bytes()
    ||| n == "is_log".spec_bytes()
    ||| n == "metaslab_array".spec_bytes()
    ||| n == "metaslab_shift".spec_bytes()
    ||| n == "path".spec_bytes()
    ||| n == "phys_path".spec_bytes()
    ||| n == "whole_disk".spec_bytes()
}

/// The closed set of leaf-disk keys.
pub open spec fn disk_keys() -> Set<Seq<u8>> {
    Set::new(|n: Seq<u8>| disk_key_ok(n))
}

/// True when `name` is a known leaf-disk key.
fn disk_key_known(name: &str) -> (r: bool)
    ensures
        r == disk_keys().contains(name.spec_bytes()),
{
    proof {
        reveal(disk_key_ok);
    }
    str_bytes_equal(name, "id") || str_bytes_equal(name, "type") || str_bytes_equal(name, "guid")
        || str_bytes_equal(name, "ashift") || str_bytes_equal(name, "asize") || str_bytes_equal(
        name,
        "create_txg",
    ) || str_bytes_equal(name, "devid") || str_bytes_equal(name, "is_log") || str_bytes_equal(
        name,
        "metaslab_array",
    ) || str_bytes_equal(name, "metaslab_shift") || str_bytes_equal(name, "path")
        || str_bytes_equal(name, "phys_path") || str_bytes_equal(name, "whole_disk")
}

/// Scans the device list for a key outside the leaf-disk set: a
/// clean scan of known keys passes, an unknown key is rejected.
#[verifier::rlimit(100)]
#[verifier::spinoff_prover]
fn check_disk_keys(fd: &mut nv::Decoder) -> (r: Result<(), VdevDecodeError>)
    requires
        old(fd).wf(),
        old(fd).spec_data().len() >= 8 ==> old(fd).spec_offset() == 8,
    ensures
        final(fd).wf(),
        final(fd).spec_data() == old(fd).spec_data(),
        !(r matches Err(VdevDecodeError::UnknownType { .. })),
        ({
            let d = old(fd).spec_data();
            d.len() >= 8 ==> {
                &&& (nv::scan_to_end(d, 8) && nv::names_within(d, 8, disk_keys())) <==> r
                    == Ok::<(), VdevDecodeError>(())
                &&& (nv::scan_to_end(d, 8) && !nv::names_within(d, 8, disk_keys())) ==> (r
                matches Err(VdevDecodeError::UnknownName { .. }))
            }
        }),
{
    let ghost fdd = fd.spec_data();
    let mut outcome: Result<(), VdevDecodeError> = Ok(());
    loop
        invariant_except_break
            fdd.len() >= 8 ==> nv::scan_to_end(fdd, 8) == nv::scan_to_end(fdd, fd.spec_offset()),
            fdd.len() >= 8 ==> nv::names_within(fdd, 8, disk_keys()) == nv::names_within(
                fdd,
                fd.spec_offset(),
                disk_keys(),
            ),
            outcome == Ok::<(), VdevDecodeError>(()),
        invariant
            fd.wf(),
            fd.spec_data() == fdd,
        ensures
            fd.wf(),
            fd.spec_data() == fdd,
            fdd.len() >= 8 ==> ((nv::scan_to_end(fdd, 8) && nv::names_within(fdd, 8, disk_keys()))
                <==> outcome == Ok::<(), VdevDecodeError>(())),
            fdd.len() >= 8 ==> ((nv::scan_to_end(fdd, 8) && !nv::names_within(
                fdd,
                8,
                disk_keys(),
            )) ==> (outcome matches Err(VdevDecodeError::UnknownName { .. }))),
            !(outcome matches Err(VdevDecodeError::UnknownType { .. })),
        decreases fd.spec_remaining(),
    {
        let ghost co = fd.spec_offset();
        let pname = match fd.next_name() {
            Ok(v) => v,
            Err(err) => {
                proof {
                    nv::lemma_scan_stuck(fdd, co);
                }
                outcome = Err(VdevDecodeError::NvDecodeError { err });
                break ;
            },
        };
        let pname = match pname {
            Some(v) => v,
            None => {
                proof {
                    nv::lemma_scan_terminator(fdd, co, disk_keys());
                }
                break ;
            },
        };
        proof {
            nv::lemma_pair_esz_pos(fdd, co);
            nv::lemma_scan_step(fdd, co, disk_keys());
        }
        if !disk_key_known(pname) {
            outcome = Err(
                VdevDecodeError::UnknownName {
                    name: pname.to_owned(),
                    full_length: pname.len(),
                },
            );
            break ;
        }
    }
    outcome
}

/// A leaf disk device.
#[derive(Clone, Copy, Debug, PartialEq)]
pub struct VdevDisk<'a> {
    pub path: &'a str,
    pub whole_disk: bool,
    pub a_meta_slab: Option<VdevAlignmentMetaSlab>,
    pub create_txg: Option<u64>,
    pub is_log: Option<bool>,
    pub dev_id: Option<&'a str>,
    pub phys_path: Option<&'a str>,
}

impl<'a> VdevDisk<'a> {
    /// Projects a leaf disk out of its device list: unknown keys are
    /// rejected, the path and whole-disk flag are required, and the
    /// rest follow their optional rules.
    pub fn from_decoder(decoder: &mut nv::Decoder<'a>) -> (r: Result<VdevDisk<'a>, VdevDecodeError>)
        requires
            old(decoder).wf(),
        ensures
            final(decoder).wf(),
            final(decoder).spec_data() == old(decoder).spec_data(),
            ({
                let d = old(decoder).spec_data();
                r matches Ok(disk) ==> {
                    let fp = nv::scan_found(d, 8, "path".spec_bytes());
                    let fw = nv::scan_found(d, 8, "whole_disk".spec_bytes());
                    let fl = nv::scan_found(d, 8, "is_log".spec_bytes());
                    let fc = nv::scan_found(d, 8, "create_txg".spec_bytes());
                    &&& (d.len() >= 8 && nv::scan_clean(d, 8, "path".spec_bytes())) ==> (fp
                        is Some && nv::pair_type_code(d, fp->0) == 9 && disk.path.spec_bytes()
                        == nv::pair_str_value(d, fp->0))
                    &&& (d.len() >= 8 && nv::scan_clean(d, 8, "whole_disk".spec_bytes())) ==> (fw
                        is Some && nv::pair_type_code(d, fw->0) == 8 && nv::pair_u64_value(
                        d,
                        fw->0,
                    ) <= 1 && disk.whole_disk == (nv::pair_u64_value(d, fw->0) == 1))
                    &&& (d.len() >= 8 && nv::scan_clean(d, 8, "is_log".spec_bytes()) && fl
                        is None) ==> disk.is_log is None
                    &&& (d.len() >= 8 && nv::scan_clean(d, 8, "is_log".spec_bytes()) && fl is Some
                        && nv::pair_type_code(d, fl->0) == 8) ==> (nv::pair_u64_value(d, fl->0)
                        <= 1 && disk.is_log == Some(nv::pair_u64_value(d, fl->0) == 1))
                    &&& (d.len() >= 8 && nv::scan_clean(d, 8, "create_txg".spec_bytes()) && fc
                        is None) ==> disk.create_txg is None
                    &&& (d.len() >= 8 && nv::scan_clean(d, 8, "create_txg".spec_bytes()) && fc
                        is Some && nv::pair_type_code(d, fc->0) == 8) ==> disk.create_txg == Some(
                        nv::pair_u64_value(d, fc->0),
                    )
                }
            }),
            !(r matches Err(VdevDecodeError::UnknownType { .. })),
            ({
                let d = old(decoder).spec_data();
                let fp = nv::scan_found(d, 8, "path".spec_bytes());
                let fw = nv::scan_found(d, 8, "whole_disk".spec_bytes());
                let fl = nv::scan_found(d, 8, "is_log".spec_bytes());
                (d.len() >= 8 && nv::scan_to_end(d, 8)) ==> {
                    &&& !nv::names_within(d, 8, disk_keys()) ==> (r matches Err(
                        VdevDecodeError::UnknownName { .. },
                    ))
                    &&& (nv::names_within(d, 8, disk_keys()) && fp is None) ==> (r matches Err(
                        VdevDecodeError::MissingValue { name },
                    ) && name@ == "path"@)
                    &&& (nv::names_within(d, 8, disk_keys()) && fp is Some && nv::pair_type_code(
                        d,
                        fp->0,
                    ) == 9 && fw is None) ==> (r matches Err(VdevDecodeError::MissingValue { name })
                        && name@ == "whole_disk"@)
                    &&& (nv::names_within(d, 8, disk_keys()) && fp is Some && nv::pair_type_code(
                        d,
                        fp->0,
                    ) == 9 && fw is Some && nv::pair_type_code(d, fw->0) == 8 && nv::pair_u64_value(
                        d,
                        fw->0,
                    ) > 1) ==> (r matches Err(VdevDecodeError::InvalidU64Bool { name, value })
                        && name@ == "whole_disk"@ && value == nv::pair_u64_value(d, fw->0))
                    &&& (fl is Some && nv::pair_type_code(d, fl->0) == 8 && nv::pair_u64_value(
                        d,
                        fl->0,
                    ) > 1) ==> !(r is Ok)
                }
            }),
    {
        decoder.reset();
        match check_disk_keys(decoder) {
            Ok(()) => (),
            Err(e) => {
                return Err(e);
            },
        }
        proof {
            let d = decoder.spec_data();
            if d.len() >= 8 && nv::scan_to_end(d, 8) {
                nv::lemma_scan_to_end_clean(d, 8, "path".spec_bytes());
                nv::lemma_scan_to_end_clean(d, 8, "whole_disk".spec_bytes());
                nv::lemma_scan_to_end_clean(d, 8, "is_log".spec_bytes());
            }
        }
        let path = match find_str(decoder, "path") {
            Ok(Some(v)) => v,
            Ok(None) => {
                return Err(VdevDecodeError::MissingValue { name: "path" });
            },
            Err(e) => {
                return Err(e);
            },
        };
        let whole_disk_raw = match require_u64(decoder, "whole_disk") {
            Ok(v) => v,
            Err(e) => {
                return Err(e);
            },
        };
        let whole_disk = if whole_disk_raw == 0 {
            false
        } else if whole_disk_raw == 1 {
            true
        } else {
            return Err(
                VdevDecodeError::InvalidU64Bool { name: "whole_disk", value: whole_disk_raw },
            );
        };
        let a_meta_slab = match VdevAlignmentMetaSlab::from_decoder(decoder) {
            Ok(v) => v,
            Err(e) => {
                return Err(e);
            },
        };
        let create_txg = match find_u64(decoder, "create_txg") {
            Ok(v) => v,
            Err(e) => {
                return Err(e);
            },
        };
        let dev_id = match find_str(decoder, "devid") {
            Ok(v) => v,
            Err(e) => {
                return Err(e);
            },
        };
        let is_log = match find_u64(decoder, "is_log") {
            Ok(Some(0)) => Some(false),
            Ok(Some(1)) => Some(true),
            Ok(Some(n)) => {
                return Err(VdevDecodeError::InvalidU64Bool { name: "is_log", value: n });
            },
            Ok(None) => None,
            Err(e) => {
                return Err(e);
            },
        };
        let phys_path = match find_str(decoder, "phys_path") {
            Ok(v) => v,
            Err(e) => {
                return Err(e);
            },
        };
        Ok(VdevDisk { path, whole_disk, a_meta_slab, create_txg, is_log, dev_id, phys_path })
    }
}

/// A virtual device of some shape. Only the leaf disk carries fields;
/// the other shapes are recognised but not projected.
#[derive(Clone, Copy, Debug, PartialEq)]
pub enum Vdev<'a> {
    Disk(VdevDisk<'a>),
    File(),
    Mirror(),
    Missing(),
    RaidZ(),
    Replacing(),
    Root(),
}

/// True of the string bytes of a recognised device type.
pub open spec fn vdev_type_ok(ts: Seq<u8>) -> bool {
    ||| ts == "disk".spec_bytes()
    ||| ts == "file".spec_bytes()
    ||| ts == "mirror".spec_bytes()
    ||| ts == "missing".spec_bytes()
    ||| ts == "raidz".spec_bytes()
    ||| ts == "replacing".spec_bytes()
    ||| ts == "root".spec_bytes()
}

/// The virtual-device tree of a pool configuration.
#[derive(Clone, Copy, Debug, PartialEq)]
pub struct VdevTree<'a> {
    pub id: u64,
    pub guid: u64,
    pub vdev: Vdev<'a>,
}

impl<'a> VdevTree<'a> {
    /// Projects the device tree out of the pool configuration: the
    /// nested tree list is found, its type string selects the shape,
    /// and the identity keys are required. An unknown type string is
    /// rejected; only the disk shape is projected.
    pub fn from_decoder(decoder: &mut nv::Decoder<'a>) -> (r: Result<VdevTree<'a>, VdevDecodeError>)
        requires
            old(decoder).wf(),
        ensures
            final(decoder).wf(),
            ({
                let d = old(decoder).spec_data();
                let fv = nv::scan_found(d, 8, "vdev_tree".spec_bytes());
                &&& (d.len() >= 8 && nv::scan_clean(d, 8, "vdev_tree".spec_bytes()) && fv is None)
                    ==> (r matches Err(VdevDecodeError::MissingValue { .. }))
                &&& r matches Ok(tree) ==> ((d.len() >= 8 && nv::scan_clean(
                    d,
                    8,
                    "vdev_tree".spec_bytes(),
                )) ==> (fv is Some && nv::pair_type_code(d, fv->0) == 19 && {
                    let nd = nv::pair_list_value(d, fv->0);
                    let ft = nv::scan_found(nd, 8, "type".spec_bytes());
                    let fi = nv::scan_found(nd, 8, "id".spec_bytes());
                    let fg = nv::scan_found(nd, 8, "guid".spec_bytes());
                    &&& (nd.len() >= 8 && nv::scan_clean(nd, 8, "type".spec_bytes())) ==> (ft
                        is Some && nv::pair_type_code(nd, ft->0) == 9 && {
                        let ts = nv::pair_str_value(nd, ft->0);
                        &&& (ts == "disk".spec_bytes() <==> tree.vdev is Disk)
                        &&& (ts == "file".spec_bytes() <==> tree.vdev is File)
                        &&& (ts == "mirror".spec_bytes() <==> tree.vdev is Mirror)
                        &&& (ts == "missing".spec_bytes() <==> tree.vdev is Missing)
                        &&& (ts == "raidz".spec_bytes() <==> tree.vdev is RaidZ)
                        &&& (ts == "replacing".spec_bytes() <==> tree.vdev is Replacing)
                        &&& (ts == "root".spec_bytes() <==> tree.vdev is Root)
                    })
                    &&& (nd.len() >= 8 && nv::scan_clean(nd, 8, "id".spec_bytes()) && fi is Some
                        && nv::pair_type_code(nd, fi->0) == 8) ==> tree.id == nv::pair_u64_value(
                        nd,
                        fi->0,
                    )
                    &&& (nd.len() >= 8 && nv::scan_clean(nd, 8, "guid".spec_bytes()) && fg is Some
                        && nv::pair_type_code(nd, fg->0) == 8) ==> tree.guid == nv::pair_u64_value(
                        nd,
                        fg->0,
                    )
                }))
                &&& (d.len() >= 8 && nv::scan_clean(d, 8, "vdev_tree".spec_bytes()) && fv is Some
                    && nv::pair_type_code(d, fv->0) == 19) ==> {
                    let nd = nv::pair_list_value(d, fv->0);
                    let ft = nv::scan_found(nd, 8, "type".spec_bytes());
                    let fi = nv::scan_found(nd, 8, "id".spec_bytes());
                    let fg = nv::scan_found(nd, 8, "guid".spec_bytes());
                    (nd.len() >= 8 && nv::scan_clean(nd, 8, "type".spec_bytes())) ==> {
                        &&& ft is None ==> (r matches Err(VdevDecodeError::MissingValue { name })
                            && name@ == "type"@)
                        &&& (ft is Some && nv::pair_type_code(nd, ft->0) == 9) ==> {
                            let ts = nv::pair_str_value(nd, ft->0);
                            &&& ((r matches Err(VdevDecodeError::UnknownType { .. })) <==> !vdev_type_ok(
                                ts,
                            ))
                            &&& (vdev_type_ok(ts) && ts != "disk".spec_bytes() && nv::scan_clean(
                                nd,
                                8,
                                "id".spec_bytes(),
                            ) && fi is None) ==> (r matches Err(
                                VdevDecodeError::MissingValue { name },
                            ) && name@ == "id"@)
                            &&& (vdev_type_ok(ts) && ts != "disk".spec_bytes() && nv::scan_clean(
                                nd,
                                8,
                                "id".spec_bytes(),
                            ) && fi is Some && nv::pair_type_code(nd, fi->0) == 8 && nv::scan_clean(
                                nd,
                                8,
                                "guid".spec_bytes(),
                            ) && fg is None) ==> (r matches Err(
                                VdevDecodeError::MissingValue { name },
                            ) && name@ == "guid"@)
                        }
                    }
                }
            }),
    {
        let pair = match decoder.find_pair("vdev_tree") {
            Ok(Some(v)) => v,
            Ok(None) => {
                return Err(VdevDecodeError::MissingValue { name: "vdev_tree" });
            },
            Err(err) => {
                return Err(VdevDecodeError::NvDecodeError { err });
            },
        };
        let mut nested = match pair.value {
            DecodedDataValue::NvList(v) => v,
            _ => {
                return Err(
                    VdevDecodeError::ValueTypeMismatch {
                        name: "vdev_tree",
                        data_type: DataType::NvList,
                    },
                );
            },
        };
        let vdev_type = match find_str(&mut nested, "type") {
            Ok(Some(v)) => v,
            Ok(None) => {
                return Err(VdevDecodeError::MissingValue { name: "type" });
            },
            Err(e) => {
                return Err(e);
            },
        };
        proof {
            broadcast use vstd::utf8::encode_utf8_decode_utf8;

            reveal_strlit("disk");
            reveal_strlit("file");
            reveal_strlit("mirror");
            reveal_strlit("missing");
            reveal_strlit("raidz");
            reveal_strlit("replacing");
            reveal_strlit("root");
            assert(vstd::utf8::decode_utf8(vstd::utf8::encode_utf8("disk"@)) == "disk"@);
            assert(vstd::utf8::decode_utf8(vstd::utf8::encode_utf8("file"@)) == "file"@);
            assert(vstd::utf8::decode_utf8(vstd::utf8::encode_utf8("mirror"@)) == "mirror"@);
            assert(vstd::utf8::decode_utf8(vstd::utf8::encode_utf8("missing"@)) == "missing"@);
            assert(vstd::utf8::decode_utf8(vstd::utf8::encode_utf8("raidz"@)) == "raidz"@);
            assert(vstd::utf8::decode_utf8(vstd::utf8::encode_utf8("replacing"@)) == "replacing"@);
            assert(vstd::utf8::decode_utf8(vstd::utf8::encode_utf8("root"@)) == "root"@);
        }
        let vdev = if str_bytes_equal(vdev_type, "disk") {
            match VdevDisk::from_decoder(&mut nested) {
                Ok(v) => Vdev::Disk(v),
                Err(e) => {
                    return Err(e);
                },
            }
        } else if str_bytes_equal(vdev_type, "file") {
            Vdev::File()
        } else if str_bytes_equal(vdev_type, "mirror") {
            Vdev::Mirror()
        } else if str_bytes_equal(vdev_type, "missing") {
            Vdev::Missing()
        } else if str_bytes_equal(vdev_type, "raidz") {
            Vdev::RaidZ()
        } else if str_bytes_equal(vdev_type, "replacing") {
            Vdev::Replacing()
        } else if str_bytes_equal(vdev_type, "root") {
            Vdev::Root()
        } else {
            return Err(
                VdevDecodeError::UnknownType {
                    vdev_type: vdev_type.to_owned(),
                    full_length: vdev_type.len(),
                },
            );
        };
        let id = match require_u64(&mut nested, "id") {
            Ok(v) => v,
            Err(e) => {
                return Err(e);
            },
        };
        let guid = match require_u64(&mut nested, "guid") {
            Ok(v) => v,
            Err(e) => {
                return Err(e);
            },
        };
        Ok(VdevTree { id, guid, vdev })
    }
}

} // verus!
