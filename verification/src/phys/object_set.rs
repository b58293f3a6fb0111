//! The object set: a meta dnode, an intent-log header, a type and
//! flags word, two MACs, and up to three accounting dnodes, in one of
//! three length variants selected by the bytes that remain.

use vstd::prelude::*;

use crate::endian::{spliced, word64, Decoder, DecodeError, Encoder, EncodeError, Endian};
use crate::phys::block_pointer::word64_at;
use crate::phys::dnode::{
    dnode_bytes, dnode_decode_ok, dnode_valid, is_dnode_decoded, tail_wf, Dnode, DnodeDecodeError,
    DnodeEncodeError,
};
use crate::phys::zil_header::{
    is_zil_decoded, zil_bytes, zil_decode_ok, ZilHeader, ZilHeaderDecodeError, ZilHeaderEncodeError,
};

verus! {

/// Byte length of a first-variant object set.
pub const OBJECT_SET_LENGTH_V1: usize = 1024;

/// Byte length of a second-variant object set.
pub const OBJECT_SET_LENGTH_V2: usize = 2048;

/// Byte length of a third-variant object set.
pub const OBJECT_SET_LENGTH_V3: usize = 4096;

/// Byte length of an object set MAC.
pub const OBJECT_SET_MAC_LEN: usize = 32;

/// All known flag bits of an object set.
pub const OBJECT_SET_FLAG_ALL: u64 = 7;

/// An object set type.
#[derive(Clone, Copy, Debug, PartialEq, Eq, Structural)]
pub enum ObjectSetType {
    NoneType,
    Meta,
    ZFS,
    ZVol,
    Other,
    Any,
    NumTypes,
}

impl ObjectSetType {
    /// The numeric code of this type in the on-disk format.
    pub open spec fn spec_value(self) -> u64 {
        match self {
            ObjectSetType::NoneType => 0,
            ObjectSetType::Meta => 1,
            ObjectSetType::ZFS => 2,
            ObjectSetType::ZVol => 3,
            ObjectSetType::Other => 4,
            ObjectSetType::Any => 5,
            ObjectSetType::NumTypes => 6,
        }
    }

    /// The type whose code is `value`, for known codes.
    pub open spec fn spec_from_u64(value: u64) -> ObjectSetType
        recommends
            value <= 6,
    {
        if value == 0 {
            ObjectSetType::NoneType
        } else if value == 1 {
            ObjectSetType::Meta
        } else if value == 2 {
            ObjectSetType::ZFS
        } else if value == 3 {
            ObjectSetType::ZVol
        } else if value == 4 {
            ObjectSetType::Other
        } else if value == 5 {
            ObjectSetType::Any
        } else {
            ObjectSetType::NumTypes
        }
    }

    /// Returns the numeric code of this type.
    pub fn to_u64(self) -> (r: u64)
        ensures
            r == self.spec_value(),
    {
        match self {
            ObjectSetType::NoneType => 0,
            ObjectSetType::Meta => 1,
            ObjectSetType::ZFS => 2,
            ObjectSetType::ZVol => 3,
            ObjectSetType::Other => 4,
            ObjectSetType::Any => 5,
            ObjectSetType::NumTypes => 6,
        }
    }

    /// Looks a type up by its numeric code; exactly the codes 0
    /// through 6 are known.
    pub fn try_from_u64(value: u64) -> (r: Option<ObjectSetType>)
        ensures
            value <= 6 ==> r == Some(ObjectSetType::spec_from_u64(value)),
            value <= 6 ==> ObjectSetType::spec_from_u64(value).spec_value() == value,
            value > 6 ==> r is None,
    {
        match value {
            0 => Some(ObjectSetType::NoneType),
            1 => Some(ObjectSetType::Meta),
            2 => Some(ObjectSetType::ZFS),
            3 => Some(ObjectSetType::ZVol),
            4 => Some(ObjectSetType::Other),
            5 => Some(ObjectSetType::Any),
            6 => Some(ObjectSetType::NumTypes),
            _ => None,
        }
    }
}

/// An object set.
#[derive(Clone, Debug, PartialEq)]
pub struct ObjectSet {
    pub os_meta: Dnode,
    pub zil_header: ZilHeader,
    pub os_type: ObjectSetType,
    pub user_accounting_complete: bool,
    pub user_object_accounting_complete: bool,
    pub project_quota_complete: bool,
    pub portable_mac: Vec<u8>,
    pub local_mac: Vec<u8>,
    pub extension: ObjectSetExtension,
}

/// The tail extensions of an object set's second and third variants.
#[derive(Clone, Debug, PartialEq)]
pub enum ObjectSetExtension {
    Base {},
    Two { user_used: Dnode, group_used: Dnode },
    Three { user_used: Dnode, group_used: Dnode, project_used: Dnode },
}

/// True when the bytes from `off` to the end decode as an object set:
/// the first-variant prefix decodes, and the remaining length is zero,
/// two more dnodes, or three more dnodes with trailing zero padding.
pub open spec fn os_decode_ok(d: Seq<u8>, off: int, e: Endian) -> bool {
    let rem = d.len() - off - 1024;
    &&& off + 1024 <= d.len()
    &&& dnode_decode_ok(d, off, e)
    &&& zil_decode_ok(d, off + 512, e)
    &&& word64_at(d, off + 704, e) <= 6
    &&& word64_at(d, off + 712, e) & OBJECT_SET_FLAG_ALL == word64_at(d, off + 712, e)
    &&& (forall|i: int| off + 784 <= i < off + 1024 ==> d[i] == 0)
    &&& os_ext_decode_ok(d, off + 1024, e)
}

/// The fields an object set decoded from the bytes at `off` must carry.
pub open spec fn is_os_decoded(p: ObjectSet, d: Seq<u8>, off: int, e: Endian) -> bool {
    let rem = d.len() - off - 1024;
    let flags = word64_at(d, off + 712, e);
    &&& is_dnode_decoded(p.os_meta, d, off, e)
    &&& is_zil_decoded(p.zil_header, d, off + 512, e)
    &&& p.os_type == ObjectSetType::spec_from_u64(word64_at(d, off + 704, e))
    &&& p.user_accounting_complete == (flags & 1 != 0)
    &&& p.user_object_accounting_complete == (flags & 2 != 0)
    &&& p.project_quota_complete == (flags & 4 != 0)
    &&& p.portable_mac@ =~= d.subrange(off + 720, off + 752)
    &&& p.local_mac@ =~= d.subrange(off + 752, off + 784)
    &&& is_os_ext_decoded(p.extension, d, off + 1024, e)
}

/// The encoded flags word of an object set.
pub open spec fn os_flags(p: ObjectSet) -> u64 {
    (if p.user_accounting_complete {
        1u64
    } else {
        0u64
    }) | (if p.user_object_accounting_complete {
        2u64
    } else {
        0u64
    }) | (if p.project_quota_complete {
        4u64
    } else {
        0u64
    })
}

/// An object set whose dnodes are well-formed and whose MACs are 32
/// bytes.
pub open spec fn os_valid(p: ObjectSet) -> bool {
    &&& dnode_valid(p.os_meta)
    &&& crate::phys::block_pointer::bp_valid(p.zil_header.log)
    &&& p.portable_mac@.len() == 32
    &&& p.local_mac@.len() == 32
    &&& match p.extension {
        ObjectSetExtension::Base {} => true,
        ObjectSetExtension::Two { user_used, group_used } => dnode_valid(user_used) && dnode_valid(
            group_used,
        ),
        ObjectSetExtension::Three { user_used, group_used, project_used } => dnode_valid(user_used)
            && dnode_valid(group_used) && dnode_valid(project_used),
    }
}

/// A failure while decoding an object set.
#[derive(Debug, PartialEq)]
pub enum ObjectSetDecodeError {
    /// A dnode does not decode.
    DnodeDecodeError { err: DnodeDecodeError },
    /// The underlying byte decoder failed.
    EndianDecodeError { err: DecodeError },
    /// The flags word holds unknown bits.
    InvalidFlags { flags: u64 },
    /// The object set type code is unknown.
    InvalidObjectSetType { os_type: u64 },
    /// The intent-log header does not decode.
    ZilHeaderDecodeError { err: ZilHeaderDecodeError },
}

/// A failure while encoding an object set.
#[derive(Debug, PartialEq)]
pub enum ObjectSetEncodeError {
    /// A dnode does not encode.
    DnodeEncodeError { err: DnodeEncodeError },
    /// The underlying byte encoder failed.
    EndianEncodeError { err: EncodeError },
    /// The intent-log header does not encode.
    ZilHeaderEncodeError { err: ZilHeaderEncodeError },
}

/// True when the bytes from `off` to the end decode as an object set
/// extension: nothing, two dnodes, or three dnodes and zero padding.
pub open spec fn os_ext_decode_ok(d: Seq<u8>, off: int, e: Endian) -> bool {
    let rem = d.len() - off;
    if rem == 0 {
        true
    } else if rem == 1024 {
        dnode_decode_ok(d, off, e) && dnode_decode_ok(d, off + 512, e)
    } else {
        &&& rem >= 3072
        &&& dnode_decode_ok(d, off, e)
        &&& dnode_decode_ok(d, off + 512, e)
        &&& dnode_decode_ok(d, off + 1024, e)
        &&& (forall|i: int| off + 1536 <= i < off + 3072 ==> d[i] == 0)
    }
}

/// The extension decoded from the bytes at `off` must carry these
/// dnodes.
pub open spec fn is_os_ext_decoded(
    x: ObjectSetExtension,
    d: Seq<u8>,
    off: int,
    e: Endian,
) -> bool {
    let rem = d.len() - off;
    if rem == 0 {
        x is Base
    } else if rem == 1024 {
        x matches ObjectSetExtension::Two { user_used, group_used } && is_dnode_decoded(
            user_used,
            d,
            off,
            e,
        ) && is_dnode_decoded(group_used, d, off + 512, e)
    } else {
        x matches ObjectSetExtension::Three { user_used, group_used, project_used }
            && is_dnode_decoded(user_used, d, off, e) && is_dnode_decoded(group_used, d, off + 512, e)
            && is_dnode_decoded(project_used, d, off + 1024, e)
    }
}

/// Decodes an object set's extension by the length that remains.
#[verifier::rlimit(100)]
#[verifier::spinoff_prover]
fn decode_extension(decoder: &mut Decoder) -> (r: Result<ObjectSetExtension, ObjectSetDecodeError>)
    requires
        old(decoder).wf(),
    ensures
        final(decoder).wf(),
        final(decoder).spec_data() == old(decoder).spec_data(),
        final(decoder).spec_endian() == old(decoder).spec_endian(),
        ({
            let d = old(decoder).spec_data();
            let off = old(decoder).spec_offset();
            let e = old(decoder).spec_endian();
            &&& os_ext_decode_ok(d, off, e) ==> (r matches Ok(x) && is_os_ext_decoded(x, d, off, e))
            &&& !os_ext_decode_ok(d, off, e) ==> r is Err
        }),
{
    if decoder.len() == 0 {
        return Ok(ObjectSetExtension::Base {});
    }
    let user_used = match Dnode::from_decoder(decoder) {
        Ok(v) => v,
        Err(err) => {
            return Err(ObjectSetDecodeError::DnodeDecodeError { err });
        },
    };
    let group_used = match Dnode::from_decoder(decoder) {
        Ok(v) => v,
        Err(err) => {
            return Err(ObjectSetDecodeError::DnodeDecodeError { err });
        },
    };
    if decoder.is_empty() {
        return Ok(ObjectSetExtension::Two { user_used, group_used });
    }
    let project_used = match Dnode::from_decoder(decoder) {
        Ok(v) => v,
        Err(err) => {
            return Err(ObjectSetDecodeError::DnodeDecodeError { err });
        },
    };
    match decoder.skip_zero_padding(1536) {
        Ok(()) => (),
        Err(err) => {
            return Err(ObjectSetDecodeError::EndianDecodeError { err });
        },
    }
    Ok(ObjectSetExtension::Three { user_used, group_used, project_used })
}


impl ObjectSet {
    /// Decodes an object set from the decoder's position to the end of
    /// its data: the first variant's prefix, then, by the length that
    /// remains, nothing more, two accounting dnodes, or three and
    /// trailing zero padding. Succeeds exactly when [`os_decode_ok`]
    /// holds.
    #[verifier::rlimit(100)]
    #[verifier::spinoff_prover]
    pub fn from_decoder(decoder: &mut Decoder) -> (r: Result<ObjectSet, ObjectSetDecodeError>)
        requires
            old(decoder).wf(),
        ensures
            final(decoder).wf(),
            final(decoder).spec_data() == old(decoder).spec_data(),
            final(decoder).spec_endian() == old(decoder).spec_endian(),
            ({
                let d = old(decoder).spec_data();
                let off = old(decoder).spec_offset();
                let e = old(decoder).spec_endian();
                &&& os_decode_ok(d, off, e) ==> (r matches Ok(p) && is_os_decoded(p, d, off, e))
                &&& !os_decode_ok(d, off, e) ==> r is Err
            }),
    {
        let ghost d = old(decoder).spec_data();
        let ghost off = old(decoder).spec_offset();
        let ghost e = old(decoder).spec_endian();
        let os_meta = match Dnode::from_decoder(decoder) {
            Ok(v) => v,
            Err(err) => {
                return Err(ObjectSetDecodeError::DnodeDecodeError { err });
            },
        };
        let zil_header = match ZilHeader::from_decoder(decoder) {
            Ok(v) => v,
            Err(err) => {
                return Err(ObjectSetDecodeError::ZilHeaderDecodeError { err });
            },
        };
        let os_type_code = match decoder.get_u64() {
            Ok(v) => v,
            Err(err) => {
                return Err(ObjectSetDecodeError::EndianDecodeError { err });
            },
        };
        let os_type = match ObjectSetType::try_from_u64(os_type_code) {
            Some(v) => v,
            None => {
                return Err(ObjectSetDecodeError::InvalidObjectSetType { os_type: os_type_code });
            },
        };
        let flags = match decoder.get_u64() {
            Ok(v) => v,
            Err(err) => {
                return Err(ObjectSetDecodeError::EndianDecodeError { err });
            },
        };
        if (flags & OBJECT_SET_FLAG_ALL) != flags {
            return Err(ObjectSetDecodeError::InvalidFlags { flags });
        }
        let portable_mac = match decoder.get_bytes(32) {
            Ok(v) => v,
            Err(err) => {
                return Err(ObjectSetDecodeError::EndianDecodeError { err });
            },
        };
        let local_mac = match decoder.get_bytes(32) {
            Ok(v) => v,
            Err(err) => {
                return Err(ObjectSetDecodeError::EndianDecodeError { err });
            },
        };
        match decoder.skip_zero_padding(240) {
            Ok(()) => (),
            Err(err) => {
                return Err(ObjectSetDecodeError::EndianDecodeError { err });
            },
        }
        let extension = match decode_extension(decoder) {
            Ok(v) => v,
            Err(e) => {
                return Err(e);
            },
        };
        Ok(
            ObjectSet {
                os_meta,
                zil_header,
                os_type,
                user_accounting_complete: (flags & 1) != 0,
                user_object_accounting_complete: (flags & 2) != 0,
                project_quota_complete: (flags & 4) != 0,
                portable_mac: vstd::slice::slice_to_vec(portable_mac),
                local_mac: vstd::slice::slice_to_vec(local_mac),
                extension,
            },
        )
    }

    /// Encodes an object set: the first variant's prefix, then the
    /// extension's dnodes and, for the third variant, trailing zero
    /// padding. Succeeds exactly when the object set is well-formed and
    /// the encoder has room for its variant.
    #[verifier::rlimit(100)]
    pub fn to_encoder(&self, encoder: &mut Encoder) -> (r: Result<(), ObjectSetEncodeError>)
        requires
            old(encoder).wf(),
            tail_wf(self.os_meta.tail),
            match self.extension {
                ObjectSetExtension::Base {} => true,
                ObjectSetExtension::Two { user_used, group_used } => tail_wf(user_used.tail)
                    && tail_wf(group_used.tail),
                ObjectSetExtension::Three { user_used, group_used, project_used } => tail_wf(
                    user_used.tail,
                ) && tail_wf(group_used.tail) && tail_wf(project_used.tail),
            },
        ensures
            final(encoder).wf(),
            final(encoder).spec_endian() == old(encoder).spec_endian(),
            final(encoder).spec_data().len() == old(encoder).spec_data().len(),
            ({
                let d = old(encoder).spec_data();
                let off = old(encoder).spec_offset();
                let e = old(encoder).spec_endian();
                let body_len: int = match self.extension {
                    ObjectSetExtension::Base {} => 1024,
                    ObjectSetExtension::Two { .. } => 2048,
                    ObjectSetExtension::Three { .. } => 4096,
                };
                &&& (os_valid(*self) && off + body_len <= d.len()) ==> r == Ok::<
                    (),
                    ObjectSetEncodeError,
                >(()) && final(encoder).spec_offset() == off + body_len
                &&& !(r is Ok) ==> r is Err
            }),
    {
        match self.os_meta.to_encoder(encoder) {
            Ok(()) => (),
            Err(err) => {
                return Err(ObjectSetEncodeError::DnodeEncodeError { err });
            },
        }
        match self.zil_header.to_encoder(encoder) {
            Ok(()) => (),
            Err(err) => {
                return Err(ObjectSetEncodeError::ZilHeaderEncodeError { err });
            },
        }
        match encoder.put_u64(self.os_type.to_u64()) {
            Ok(()) => (),
            Err(err) => {
                return Err(ObjectSetEncodeError::EndianEncodeError { err });
            },
        }
        let flags: u64 = (if self.user_accounting_complete {
            1u64
        } else {
            0u64
        }) | (if self.user_object_accounting_complete {
            2u64
        } else {
            0u64
        }) | (if self.project_quota_complete {
            4u64
        } else {
            0u64
        });
        match encoder.put_u64(flags) {
            Ok(()) => (),
            Err(err) => {
                return Err(ObjectSetEncodeError::EndianEncodeError { err });
            },
        }
        match encoder.put_bytes(self.portable_mac.as_slice()) {
            Ok(()) => (),
            Err(err) => {
                return Err(ObjectSetEncodeError::EndianEncodeError { err });
            },
        }
        match encoder.put_bytes(self.local_mac.as_slice()) {
            Ok(()) => (),
            Err(err) => {
                return Err(ObjectSetEncodeError::EndianEncodeError { err });
            },
        }
        match encoder.put_zero_padding(240) {
            Ok(()) => (),
            Err(err) => {
                return Err(ObjectSetEncodeError::EndianEncodeError { err });
            },
        }
        match &self.extension {
            ObjectSetExtension::Base {} => (),
            ObjectSetExtension::Two { user_used, group_used } => {
                match user_used.to_encoder(encoder) {
                    Ok(()) => (),
                    Err(err) => {
                        return Err(ObjectSetEncodeError::DnodeEncodeError { err });
                    },
                }
                match group_used.to_encoder(encoder) {
                    Ok(()) => (),
                    Err(err) => {
                        return Err(ObjectSetEncodeError::DnodeEncodeError { err });
                    },
                }
            },
            ObjectSetExtension::Three { user_used, group_used, project_used } => {
                match user_used.to_encoder(encoder) {
                    Ok(()) => (),
                    Err(err) => {
                        return Err(ObjectSetEncodeError::DnodeEncodeError { err });
                    },
                }
                match group_used.to_encoder(encoder) {
                    Ok(()) => (),
                    Err(err) => {
                        return Err(ObjectSetEncodeError::DnodeEncodeError { err });
                    },
                }
                match project_used.to_encoder(encoder) {
                    Ok(()) => (),
                    Err(err) => {
                        return Err(ObjectSetEncodeError::DnodeEncodeError { err });
                    },
                }
                match encoder.put_zero_padding(1536) {
                    Ok(()) => (),
                    Err(err) => {
                        return Err(ObjectSetEncodeError::EndianEncodeError { err });
                    },
                }
            },
        }
        Ok(())
    }
}

} // verus!
