//! The DMU object type tag carried by block pointers and dnodes.

use vstd::prelude::*;

verus! {

/// A DMU object type.
#[derive(Clone, Copy, Debug, PartialEq, Eq, Structural)]
pub enum DmuType {
    NoneType,
    ObjectDirectory,
    ObjectArray,
    PackedNvList,
    PackedNvListSize,
    BpObject,
    BpObjectHeader,
    SpaceMapHeader,
    SpaceMap,
    IntentLog,
    Dnode,
    ObjectSet,
    DslDirectory,
    DslDirectoryChildMap,
    DslDsSnapshotMap,
    DslProperties,
    DslDataSet,
    Znode,
    OldAcl,
    PlainFileContents,
    DirectoryContents,
    MasterNode,
    UnlinkedSet,
    Zvol,
    ZvolProperty,
    PlainOther,
    Uint64Other,
    ZapOther,
    ErrorLog,
    SpaHistory,
    SpaHistoryOffsets,
    PoolProperties,
    DslPermissions,
    Acl,
    SysAcl,
    Fuid,
    FuidSize,
    NextClones,
    ScanQueue,
    UserGroupUsed,
    UserGroupQuota,
    UserRefs,
    DdtZap,
    DdtStats,
    SysAttr,
    SysAttrMasterNode,
    SysAttrRegistration,
    SysAttrLayouts,
    ScanXlate,
    Dedup,
    DeadList,
    DeadListHeader,
    Clones,
    BpObjectSubObject,
}

/// An unknown numeric code for [`DmuType`].
#[derive(Debug, PartialEq, Eq, Structural)]
pub enum DmuTypeError {
    /// The code stands for no known value.
    InvalidValue { value: u8 },
}

impl DmuType {
    /// The numeric code of this value in the on-disk format.
    pub open spec fn spec_value(self) -> u8 {
        match self {
            DmuType::NoneType => 0,
            DmuType::ObjectDirectory => 1,
            DmuType::ObjectArray => 2,
            DmuType::PackedNvList => 3,
            DmuType::PackedNvListSize => 4,
            DmuType::BpObject => 5,
            DmuType::BpObjectHeader => 6,
            DmuType::SpaceMapHeader => 7,
            DmuType::SpaceMap => 8,
            DmuType::IntentLog => 9,
            DmuType::Dnode => 10,
            DmuType::ObjectSet => 11,
            DmuType::DslDirectory => 12,
            DmuType::DslDirectoryChildMap => 13,
            DmuType::DslDsSnapshotMap => 14,
            DmuType::DslProperties => 15,
            DmuType::DslDataSet => 16,
            DmuType::Znode => 17,
            DmuType::OldAcl => 18,
            DmuType::PlainFileContents => 19,
            DmuType::DirectoryContents => 20,
            DmuType::MasterNode => 21,
            DmuType::UnlinkedSet => 22,
            DmuType::Zvol => 23,
            DmuType::ZvolProperty => 24,
            DmuType::PlainOther => 25,
            DmuType::Uint64Other => 26,
            DmuType::ZapOther => 27,
            DmuType::ErrorLog => 28,
            DmuType::SpaHistory => 29,
            DmuType::SpaHistoryOffsets => 30,
            DmuType::PoolProperties => 31,
            DmuType::DslPermissions => 32,
            DmuType::Acl => 33,
            DmuType::SysAcl => 34,
            DmuType::Fuid => 35,
            DmuType::FuidSize => 36,
            DmuType::NextClones => 37,
            DmuType::ScanQueue => 38,
            DmuType::UserGroupUsed => 39,
            DmuType::UserGroupQuota => 40,
            DmuType::UserRefs => 41,
            DmuType::DdtZap => 42,
            DmuType::DdtStats => 43,
            DmuType::SysAttr => 44,
            DmuType::SysAttrMasterNode => 45,
            DmuType::SysAttrRegistration => 46,
            DmuType::SysAttrLayouts => 47,
            DmuType::ScanXlate => 48,
            DmuType::Dedup => 49,
            DmuType::DeadList => 50,
            DmuType::DeadListHeader => 51,
            DmuType::Clones => 52,
            DmuType::BpObjectSubObject => 53,
        }
    }

    /// Returns the numeric code of this value.
    pub fn to_u8(self) -> (r: u8)
        ensures
            r == self.spec_value(),
    {
        match self {
            DmuType::NoneType => 0,
            DmuType::ObjectDirectory => 1,
            DmuType::ObjectArray => 2,
            DmuType::PackedNvList => 3,
            DmuType::PackedNvListSize => 4,
            DmuType::BpObject => 5,
            DmuType::BpObjectHeader => 6,
            DmuType::SpaceMapHeader => 7,
            DmuType::SpaceMap => 8,
            DmuType::IntentLog => 9,
            DmuType::Dnode => 10,
            DmuType::ObjectSet => 11,
            DmuType::DslDirectory => 12,
            DmuType::DslDirectoryChildMap => 13,
            DmuType::DslDsSnapshotMap => 14,
            DmuType::DslProperties => 15,
            DmuType::DslDataSet => 16,
            DmuType::Znode => 17,
            DmuType::OldAcl => 18,
            DmuType::PlainFileContents => 19,
            DmuType::DirectoryContents => 20,
            DmuType::MasterNode => 21,
            DmuType::UnlinkedSet => 22,
            DmuType::Zvol => 23,
            DmuType::ZvolProperty => 24,
            DmuType::PlainOther => 25,
            DmuType::Uint64Other => 26,
            DmuType::ZapOther => 27,
            DmuType::ErrorLog => 28,
            DmuType::SpaHistory => 29,
            DmuType::SpaHistoryOffsets => 30,
            DmuType::PoolProperties => 31,
            DmuType::DslPermissions => 32,
            DmuType::Acl => 33,
            DmuType::SysAcl => 34,
            DmuType::Fuid => 35,
            DmuType::FuidSize => 36,
            DmuType::NextClones => 37,
            DmuType::ScanQueue => 38,
            DmuType::UserGroupUsed => 39,
            DmuType::UserGroupQuota => 40,
            DmuType::UserRefs => 41,
            DmuType::DdtZap => 42,
            DmuType::DdtStats => 43,
            DmuType::SysAttr => 44,
            DmuType::SysAttrMasterNode => 45,
            DmuType::SysAttrRegistration => 46,
            DmuType::SysAttrLayouts => 47,
            DmuType::ScanXlate => 48,
            DmuType::Dedup => 49,
            DmuType::DeadList => 50,
            DmuType::DeadListHeader => 51,
            DmuType::Clones => 52,
            DmuType::BpObjectSubObject => 53,
        }
    }

    /// The value whose code is `value`, for known codes.
    pub open spec fn spec_from_u8(value: u8) -> DmuType
        recommends
            value <= 53,
    {
        if value == 0 {
            DmuType::NoneType
        } else if value == 1 {
            DmuType::ObjectDirectory
        } else if value == 2 {
            DmuType::ObjectArray
        } else if value == 3 {
            DmuType::PackedNvList
        } else if value == 4 {
            DmuType::PackedNvListSize
        } else if value == 5 {
            DmuType::BpObject
        } else if value == 6 {
            DmuType::BpObjectHeader
        } else if value == 7 {
            DmuType::SpaceMapHeader
        } else if value == 8 {
            DmuType::SpaceMap
        } else if value == 9 {
            DmuType::IntentLog
        } else if value == 10 {
            DmuType::Dnode
        } else if value == 11 {
            DmuType::ObjectSet
        } else if value == 12 {
            DmuType::DslDirectory
        } else if value == 13 {
            DmuType::DslDirectoryChildMap
        } else if value == 14 {
            DmuType::DslDsSnapshotMap
        } else if value == 15 {
            DmuType::DslProperties
        } else if value == 16 {
            DmuType::DslDataSet
        } else if value == 17 {
            DmuType::Znode
        } else if value == 18 {
            DmuType::OldAcl
        } else if value == 19 {
            DmuType::PlainFileContents
        } else if value == 20 {
            DmuType::DirectoryContents
        } else if value == 21 {
            DmuType::MasterNode
        } else if value == 22 {
            DmuType::UnlinkedSet
        } else if value == 23 {
            DmuType::Zvol
        } else if value == 24 {
            DmuType::ZvolProperty
        } else if value == 25 {
            DmuType::PlainOther
        } else if value == 26 {
            DmuType::Uint64Other
        } else if value == 27 {
            DmuType::ZapOther
        } else if value == 28 {
            DmuType::ErrorLog
        } else if value == 29 {
            DmuType::SpaHistory
        } else if value == 30 {
            DmuType::SpaHistoryOffsets
        } else if value == 31 {
            DmuType::PoolProperties
        } else if value == 32 {
            DmuType::DslPermissions
        } else if value == 33 {
            DmuType::Acl
        } else if value == 34 {
            DmuType::SysAcl
        } else if value == 35 {
            DmuType::Fuid
        } else if value == 36 {
            DmuType::FuidSize
        } else if value == 37 {
            DmuType::NextClones
        } else if value == 38 {
            DmuType::ScanQueue
        } else if value == 39 {
            DmuType::UserGroupUsed
        } else if value == 40 {
            DmuType::UserGroupQuota
        } else if value == 41 {
            DmuType::UserRefs
        } else if value == 42 {
            DmuType::DdtZap
        } else if value == 43 {
            DmuType::DdtStats
        } else if value == 44 {
            DmuType::SysAttr
        } else if value == 45 {
            DmuType::SysAttrMasterNode
        } else if value == 46 {
            DmuType::SysAttrRegistration
        } else if value == 47 {
            DmuType::SysAttrLayouts
        } else if value == 48 {
            DmuType::ScanXlate
        } else if value == 49 {
            DmuType::Dedup
        } else if value == 50 {
            DmuType::DeadList
        } else if value == 51 {
            DmuType::DeadListHeader
        } else if value == 52 {
            DmuType::Clones
        } else {
            DmuType::BpObjectSubObject
        }
    }

    /// Looks a value up by its numeric code; exactly the codes
    /// 0 through 53 are known.
    pub fn try_from_u8(value: u8) -> (r: Result<DmuType, DmuTypeError>)
        ensures
            value <= 53 ==> r == Ok::<DmuType, DmuTypeError>(DmuType::spec_from_u8(value)),
            value <= 53 ==> DmuType::spec_from_u8(value).spec_value() == value,
            value > 53 ==> r == Err::<DmuType, DmuTypeError>((DmuTypeError::InvalidValue { value })),
    {
        match value {
            0 => Ok(DmuType::NoneType),
            1 => Ok(DmuType::ObjectDirectory),
            2 => Ok(DmuType::ObjectArray),
            3 => Ok(DmuType::PackedNvList),
            4 => Ok(DmuType::PackedNvListSize),
            5 => Ok(DmuType::BpObject),
            6 => Ok(DmuType::BpObjectHeader),
            7 => Ok(DmuType::SpaceMapHeader),
            8 => Ok(DmuType::SpaceMap),
            9 => Ok(DmuType::IntentLog),
            10 => Ok(DmuType::Dnode),
            11 => Ok(DmuType::ObjectSet),
            12 => Ok(DmuType::DslDirectory),
            13 => Ok(DmuType::DslDirectoryChildMap),
            14 => Ok(DmuType::DslDsSnapshotMap),
            15 => Ok(DmuType::DslProperties),
            16 => Ok(DmuType::DslDataSet),
            17 => Ok(DmuType::Znode),
            18 => Ok(DmuType::OldAcl),
            19 => Ok(DmuType::PlainFileContents),
            20 => Ok(DmuType::DirectoryContents),
            21 => Ok(DmuType::MasterNode),
            22 => Ok(DmuType::UnlinkedSet),
            23 => Ok(DmuType::Zvol),
            24 => Ok(DmuType::ZvolProperty),
            25 => Ok(DmuType::PlainOther),
            26 => Ok(DmuType::Uint64Other),
            27 => Ok(DmuType::ZapOther),
            28 => Ok(DmuType::ErrorLog),
            29 => Ok(DmuType::SpaHistory),
            30 => Ok(DmuType::SpaHistoryOffsets),
            31 => Ok(DmuType::PoolProperties),
            32 => Ok(DmuType::DslPermissions),
            33 => Ok(DmuType::Acl),
            34 => Ok(DmuType::SysAcl),
            35 => Ok(DmuType::Fuid),
            36 => Ok(DmuType::FuidSize),
            37 => Ok(DmuType::NextClones),
            38 => Ok(DmuType::ScanQueue),
            39 => Ok(DmuType::UserGroupUsed),
            40 => Ok(DmuType::UserGroupQuota),
            41 => Ok(DmuType::UserRefs),
            42 => Ok(DmuType::DdtZap),
            43 => Ok(DmuType::DdtStats),
            44 => Ok(DmuType::SysAttr),
            45 => Ok(DmuType::SysAttrMasterNode),
            46 => Ok(DmuType::SysAttrRegistration),
            47 => Ok(DmuType::SysAttrLayouts),
            48 => Ok(DmuType::ScanXlate),
            49 => Ok(DmuType::Dedup),
            50 => Ok(DmuType::DeadList),
            51 => Ok(DmuType::DeadListHeader),
            52 => Ok(DmuType::Clones),
            53 => Ok(DmuType::BpObjectSubObject),
            _ => Err(DmuTypeError::InvalidValue { value }),
        }
    }
}

} // verus!
