//! Filter-manager types: the pre- and post-operation callback statuses, the
//! file information classes, and the operation registration table that a
//! minifilter hands to `FltRegisterFilter`.
use vstd::prelude::*;

verus! {

/// What a pre-operation callback tells the filter manager.
#[derive(Clone, Copy, Debug, PartialEq, Eq, Structural)]
pub enum FLT_PREOP_CALLBACK_STATUS {
    FLT_PREOP_SUCCESS_WITH_CALLBACK,
    FLT_PREOP_SUCCESS_NO_CALLBACK,
    FLT_PREOP_PENDING,
    FLT_PREOP_DISALLOW_FASTIO,
    FLT_PREOP_COMPLETE,
    FLT_PREOP_SYNCHRONIZE,
    FLT_PREOP_DISALLOW_FSFILTER_IO,
}

/// What a post-operation callback tells the filter manager.
#[derive(Clone, Copy, Debug, PartialEq, Eq, Structural)]
pub enum FLT_POSTOP_CALLBACK_STATUS {
    FLT_POSTOP_FINISHED_PROCESSING,
    FLT_POSTOP_MORE_PROCESSING_REQUIRED,
    FLT_POSTOP_DISALLOW_FSFILTER_IO,
}

/// The class of a file information request (`FILE_INFORMATION_CLASS`); its
/// numeric value is given by `value`.
#[derive(Clone, Copy, Debug, PartialEq, Eq, Structural)]
pub enum FILE_INFORMATION_CLASS {
    FileDirectoryInformation,
    FileFullDirectoryInformation,
    FileBothDirectoryInformation,
    FileBasicInformation,
    FileStandardInformation,
    FileInternalInformation,
    FileEaInformation,
    FileAccessInformation,
    FileNameInformation,
    FileRenameInformation,
    FileLinkInformation,
    FileNamesInformation,
    FileDispositionInformation,
    FilePositionInformation,
    FileFullEaInformation,
    FileModeInformation,
    FileAlignmentInformation,
    FileAllInformation,
    FileAllocationInformation,
    FileEndOfFileInformation,
    FileAlternateNameInformation,
    FileStreamInformation,
    FilePipeInformation,
    FilePipeLocalInformation,
    FilePipeRemoteInformation,
    FileMailslotQueryInformation,
    FileMailslotSetInformation,
    FileCompressionInformation,
    FileObjectIdInformation,
    FileCompletionInformation,
    FileMoveClusterInformation,
    FileQuotaInformation,
    FileReparsePointInformation,
    FileNetworkOpenInformation,
    FileAttributeTagInformation,
    FileTrackingInformation,
    FileIdBothDirectoryInformation,
    FileIdFullDirectoryInformation,
    FileValidDataLengthInformation,
    FileShortNameInformation,
    FileIoCompletionNotificationInformation,
    FileIoStatusBlockRangeInformation,
    FileIoPriorityHintInformation,
    FileSfioReserveInformation,
    FileSfioVolumeInformation,
    FileHardLinkInformation,
    FileProcessIdsUsingFileInformation,
    FileNormalizedNameInformation,
    FileNetworkPhysicalNameInformation,
    FileIdGlobalTxDirectoryInformation,
    FileIsRemoteDeviceInformation,
    FileUnusedInformation,
    FileNumaNodeInformation,
    FileStandardLinkInformation,
    FileRemoteProtocolInformation,
    FileRenameInformationBypassAccessCheck,
    FileLinkInformationBypassAccessCheck,
    FileVolumeNameInformation,
    FileIdInformation,
    FileIdExtdDirectoryInformation,
    FileReplaceCompletionInformation,
    FileHardLinkFullIdInformation,
    FileIdExtdBothDirectoryInformation,
    FileDispositionInformationEx,
    FileRenameInformationEx,
    FileRenameInformationExBypassAccessCheck,
    FileDesiredStorageClassInformation,
    FileStatInformation,
    FileMemoryPartitionInformation,
    FileStatLxInformation,
    FileCaseSensitiveInformation,
    FileLinkInformationEx,
    FileLinkInformationExBypassAccessCheck,
    FileStorageReserveIdInformation,
    FileCaseSensitiveInformationForceAccessCheck,
    FileMaximumInformation,
}

/// The numeric value of a file information class: the classes are numbered
/// from 1 in declaration order.
pub open spec fn file_information_class_value(c: FILE_INFORMATION_CLASS) -> u32 {
    match c {
        FILE_INFORMATION_CLASS::FileDirectoryInformation => 1u32,
        FILE_INFORMATION_CLASS::FileFullDirectoryInformation => 2u32,
        FILE_INFORMATION_CLASS::FileBothDirectoryInformation => 3u32,
        FILE_INFORMATION_CLASS::FileBasicInformation => 4u32,
        FILE_INFORMATION_CLASS::FileStandardInformation => 5u32,
        FILE_INFORMATION_CLASS::FileInternalInformation => 6u32,
        FILE_INFORMATION_CLASS::FileEaInformation => 7u32,
        FILE_INFORMATION_CLASS::FileAccessInformation => 8u32,
        FILE_INFORMATION_CLASS::FileNameInformation => 9u32,
        FILE_INFORMATION_CLASS::FileRenameInformation => 10u32,
        FILE_INFORMATION_CLASS::FileLinkInformation => 11u32,
        FILE_INFORMATION_CLASS::FileNamesInformation => 12u32,
        FILE_INFORMATION_CLASS::FileDispositionInformation => 13u32,
        FILE_INFORMATION_CLASS::FilePositionInformation => 14u32,
        FILE_INFORMATION_CLASS::FileFullEaInformation => 15u32,
        FILE_INFORMATION_CLASS::FileModeInformation => 16u32,
        FILE_INFORMATION_CLASS::FileAlignmentInformation => 17u32,
        FILE_INFORMATION_CLASS::FileAllInformation => 18u32,
        FILE_INFORMATION_CLASS::FileAllocationInformation => 19u32,
        FILE_INFORMATION_CLASS::FileEndOfFileInformation => 20u32,
        FILE_INFORMATION_CLASS::FileAlternateNameInformation => 21u32,
        FILE_INFORMATION_CLASS::FileStreamInformation => 22u32,
        FILE_INFORMATION_CLASS::FilePipeInformation => 23u32,
        FILE_INFORMATION_CLASS::FilePipeLocalInformation => 24u32,
        FILE_INFORMATION_CLASS::FilePipeRemoteInformation => 25u32,
        FILE_INFORMATION_CLASS::FileMailslotQueryInformation => 26u32,
        FILE_INFORMATION_CLASS::FileMailslotSetInformation => 27u32,
        FILE_INFORMATION_CLASS::FileCompressionInformation => 28u32,
        FILE_INFORMATION_CLASS::FileObjectIdInformation => 29u32,
        FILE_INFORMATION_CLASS::FileCompletionInformation => 30u32,
        FILE_INFORMATION_CLASS::FileMoveClusterInformation => 31u32,
        FILE_INFORMATION_CLASS::FileQuotaInformation => 32u32,
        FILE_INFORMATION_CLASS::FileReparsePointInformation => 33u32,
        FILE_INFORMATION_CLASS::FileNetworkOpenInformation => 34u32,
        FILE_INFORMATION_CLASS::FileAttributeTagInformation => 35u32,
        FILE_INFORMATION_CLASS::FileTrackingInformation => 36u32,
        FILE_INFORMATION_CLASS::FileIdBothDirectoryInformation => 37u32,
        FILE_INFORMATION_CLASS::FileIdFullDirectoryInformation => 38u32,
        FILE_INFORMATION_CLASS::FileValidDataLengthInformation => 39u32,
        FILE_INFORMATION_CLASS::FileShortNameInformation => 40u32,
        FILE_INFORMATION_CLASS::FileIoCompletionNotificationInformation => 41u32,
        FILE_INFORMATION_CLASS::FileIoStatusBlockRangeInformation => 42u32,
        FILE_INFORMATION_CLASS::FileIoPriorityHintInformation => 43u32,
        FILE_INFORMATION_CLASS::FileSfioReserveInformation => 44u32,
        FILE_INFORMATION_CLASS::FileSfioVolumeInformation => 45u32,
        FILE_INFORMATION_CLASS::FileHardLinkInformation => 46u32,
        FILE_INFORMATION_CLASS::FileProcessIdsUsingFileInformation => 47u32,
        FILE_INFORMATION_CLASS::FileNormalizedNameInformation => 48u32,
        FILE_INFORMATION_CLASS::FileNetworkPhysicalNameInformation => 49u32,
        FILE_INFORMATION_CLASS::FileIdGlobalTxDirectoryInformation => 50u32,
        FILE_INFORMATION_CLASS::FileIsRemoteDeviceInformation => 51u32,
        FILE_INFORMATION_CLASS::FileUnusedInformation => 52u32,
        FILE_INFORMATION_CLASS::FileNumaNodeInformation => 53u32,
        FILE_INFORMATION_CLASS::FileStandardLinkInformation => 54u32,
        FILE_INFORMATION_CLASS::FileRemoteProtocolInformation => 55u32,
        FILE_INFORMATION_CLASS::FileRenameInformationBypassAccessCheck => 56u32,
        FILE_INFORMATION_CLASS::FileLinkInformationBypassAccessCheck => 57u32,
        FILE_INFORMATION_CLASS::FileVolumeNameInformation => 58u32,
        FILE_INFORMATION_CLASS::FileIdInformation => 59u32,
        FILE_INFORMATION_CLASS::FileIdExtdDirectoryInformation => 60u32,
        FILE_INFORMATION_CLASS::FileReplaceCompletionInformation => 61u32,
        FILE_INFORMATION_CLASS::FileHardLinkFullIdInformation => 62u32,
        FILE_INFORMATION_CLASS::FileIdExtdBothDirectoryInformation => 63u32,
        FILE_INFORMATION_CLASS::FileDispositionInformationEx => 64u32,
        FILE_INFORMATION_CLASS::FileRenameInformationEx => 65u32,
        FILE_INFORMATION_CLASS::FileRenameInformationExBypassAccessCheck => 66u32,
        FILE_INFORMATION_CLASS::FileDesiredStorageClassInformation => 67u32,
        FILE_INFORMATION_CLASS::FileStatInformation => 68u32,
        FILE_INFORMATION_CLASS::FileMemoryPartitionInformation => 69u32,
        FILE_INFORMATION_CLASS::FileStatLxInformation => 70u32,
        FILE_INFORMATION_CLASS::FileCaseSensitiveInformation => 71u32,
        FILE_INFORMATION_CLASS::FileLinkInformationEx => 72u32,
        FILE_INFORMATION_CLASS::FileLinkInformationExBypassAccessCheck => 73u32,
        FILE_INFORMATION_CLASS::FileStorageReserveIdInformation => 74u32,
        FILE_INFORMATION_CLASS::FileCaseSensitiveInformationForceAccessCheck => 75u32,
        FILE_INFORMATION_CLASS::FileMaximumInformation => 76u32,
    }
}

impl FILE_INFORMATION_CLASS {
    /// The numeric value of the class.
    pub fn value(&self) -> (r: u32)
        ensures
            r == file_information_class_value(*self),
            1 <= r <= 76,
    {
        match self {
            FILE_INFORMATION_CLASS::FileDirectoryInformation => 1,
            FILE_INFORMATION_CLASS::FileFullDirectoryInformation => 2,
            FILE_INFORMATION_CLASS::FileBothDirectoryInformation => 3,
            FILE_INFORMATION_CLASS::FileBasicInformation => 4,
            FILE_INFORMATION_CLASS::FileStandardInformation => 5,
            FILE_INFORMATION_CLASS::FileInternalInformation => 6,
            FILE_INFORMATION_CLASS::FileEaInformation => 7,
            FILE_INFORMATION_CLASS::FileAccessInformation => 8,
            FILE_INFORMATION_CLASS::FileNameInformation => 9,
            FILE_INFORMATION_CLASS::FileRenameInformation => 10,
            FILE_INFORMATION_CLASS::FileLinkInformation => 11,
            FILE_INFORMATION_CLASS::FileNamesInformation => 12,
            FILE_INFORMATION_CLASS::FileDispositionInformation => 13,
            FILE_INFORMATION_CLASS::FilePositionInformation => 14,
            FILE_INFORMATION_CLASS::FileFullEaInformation => 15,
            FILE_INFORMATION_CLASS::FileModeInformation => 16,
            FILE_INFORMATION_CLASS::FileAlignmentInformation => 17,
            FILE_INFORMATION_CLASS::FileAllInformation => 18,
            FILE_INFORMATION_CLASS::FileAllocationInformation => 19,
            FILE_INFORMATION_CLASS::FileEndOfFileInformation => 20,
            FILE_INFORMATION_CLASS::FileAlternateNameInformation => 21,
            FILE_INFORMATION_CLASS::FileStreamInformation => 22,
            FILE_INFORMATION_CLASS::FilePipeInformation => 23,
            FILE_INFORMATION_CLASS::FilePipeLocalInformation => 24,
            FILE_INFORMATION_CLASS::FilePipeRemoteInformation => 25,
            FILE_INFORMATION_CLASS::FileMailslotQueryInformation => 26,
            FILE_INFORMATION_CLASS::FileMailslotSetInformation => 27,
            FILE_INFORMATION_CLASS::FileCompressionInformation => 28,
            FILE_INFORMATION_CLASS::FileObjectIdInformation => 29,
            FILE_INFORMATION_CLASS::FileCompletionInformation => 30,
            FILE_INFORMATION_CLASS::FileMoveClusterInformation => 31,
            FILE_INFORMATION_CLASS::FileQuotaInformation => 32,
            FILE_INFORMATION_CLASS::FileReparsePointInformation => 33,
            FILE_INFORMATION_CLASS::FileNetworkOpenInformation => 34,
            FILE_INFORMATION_CLASS::FileAttributeTagInformation => 35,
            FILE_INFORMATION_CLASS::FileTrackingInformation => 36,
            FILE_INFORMATION_CLASS::FileIdBothDirectoryInformation => 37,
            FILE_INFORMATION_CLASS::FileIdFullDirectoryInformation => 38,
            FILE_INFORMATION_CLASS::FileValidDataLengthInformation => 39,
            FILE_INFORMATION_CLASS::FileShortNameInformation => 40,
            FILE_INFORMATION_CLASS::FileIoCompletionNotificationInformation => 41,
            FILE_INFORMATION_CLASS::FileIoStatusBlockRangeInformation => 42,
            FILE_INFORMATION_CLASS::FileIoPriorityHintInformation => 43,
            FILE_INFORMATION_CLASS::FileSfioReserveInformation => 44,
            FILE_INFORMATION_CLASS::FileSfioVolumeInformation => 45,
            FILE_INFORMATION_CLASS::FileHardLinkInformation => 46,
            FILE_INFORMATION_CLASS::FileProcessIdsUsingFileInformation => 47,
            FILE_INFORMATION_CLASS::FileNormalizedNameInformation => 48,
            FILE_INFORMATION_CLASS::FileNetworkPhysicalNameInformation => 49,
            FILE_INFORMATION_CLASS::FileIdGlobalTxDirectoryInformation => 50,
            FILE_INFORMATION_CLASS::FileIsRemoteDeviceInformation => 51,
            FILE_INFORMATION_CLASS::FileUnusedInformation => 52,
            FILE_INFORMATION_CLASS::FileNumaNodeInformation => 53,
            FILE_INFORMATION_CLASS::FileStandardLinkInformation => 54,
            FILE_INFORMATION_CLASS::FileRemoteProtocolInformation => 55,
            FILE_INFORMATION_CLASS::FileRenameInformationBypassAccessCheck => 56,
            FILE_INFORMATION_CLASS::FileLinkInformationBypassAccessCheck => 57,
            FILE_INFORMATION_CLASS::FileVolumeNameInformation => 58,
            FILE_INFORMATION_CLASS::FileIdInformation => 59,
            FILE_INFORMATION_CLASS::FileIdExtdDirectoryInformation => 60,
            FILE_INFORMATION_CLASS::FileReplaceCompletionInformation => 61,
            FILE_INFORMATION_CLASS::FileHardLinkFullIdInformation => 62,
            FILE_INFORMATION_CLASS::FileIdExtdBothDirectoryInformation => 63,
            FILE_INFORMATION_CLASS::FileDispositionInformationEx => 64,
            FILE_INFORMATION_CLASS::FileRenameInformationEx => 65,
            FILE_INFORMATION_CLASS::FileRenameInformationExBypassAccessCheck => 66,
            FILE_INFORMATION_CLASS::FileDesiredStorageClassInformation => 67,
            FILE_INFORMATION_CLASS::FileStatInformation => 68,
            FILE_INFORMATION_CLASS::FileMemoryPartitionInformation => 69,
            FILE_INFORMATION_CLASS::FileStatLxInformation => 70,
            FILE_INFORMATION_CLASS::FileCaseSensitiveInformation => 71,
            FILE_INFORMATION_CLASS::FileLinkInformationEx => 72,
            FILE_INFORMATION_CLASS::FileLinkInformationExBypassAccessCheck => 73,
            FILE_INFORMATION_CLASS::FileStorageReserveIdInformation => 74,
            FILE_INFORMATION_CLASS::FileCaseSensitiveInformationForceAccessCheck => 75,
            FILE_INFORMATION_CLASS::FileMaximumInformation => 76,
        }
    }

    /// The class with the given numeric value, if there is one.
    pub fn from_value(v: u32) -> (r: Option<FILE_INFORMATION_CLASS>)
        ensures
            match r {
                Some(c) => file_information_class_value(c) == v,
                None => v < 1 || v > 76,
            },
    {
        match v {
            1 => Some(FILE_INFORMATION_CLASS::FileDirectoryInformation),
            2 => Some(FILE_INFORMATION_CLASS::FileFullDirectoryInformation),
            3 => Some(FILE_INFORMATION_CLASS::FileBothDirectoryInformation),
            4 => Some(FILE_INFORMATION_CLASS::FileBasicInformation),
            5 => Some(FILE_INFORMATION_CLASS::FileStandardInformation),
            6 => Some(FILE_INFORMATION_CLASS::FileInternalInformation),
            7 => Some(FILE_INFORMATION_CLASS::FileEaInformation),
            8 => Some(FILE_INFORMATION_CLASS::FileAccessInformation),
            9 => Some(FILE_INFORMATION_CLASS::FileNameInformation),
            10 => Some(FILE_INFORMATION_CLASS::FileRenameInformation),
            11 => Some(FILE_INFORMATION_CLASS::FileLinkInformation),
            12 => Some(FILE_INFORMATION_CLASS::FileNamesInformation),
            13 => Some(FILE_INFORMATION_CLASS::FileDispositionInformation),
            14 => Some(FILE_INFORMATION_CLASS::FilePositionInformation),
            15 => Some(FILE_INFORMATION_CLASS::FileFullEaInformation),
            16 => Some(FILE_INFORMATION_CLASS::FileModeInformation),
            17 => Some(FILE_INFORMATION_CLASS::FileAlignmentInformation),
            18 => Some(FILE_INFORMATION_CLASS::FileAllInformation),
            19 => Some(FILE_INFORMATION_CLASS::FileAllocationInformation),
            20 => Some(FILE_INFORMATION_CLASS::FileEndOfFileInformation),
            21 => Some(FILE_INFORMATION_CLASS::FileAlternateNameInformation),
            22 => Some(FILE_INFORMATION_CLASS::FileStreamInformation),
            23 => Some(FILE_INFORMATION_CLASS::FilePipeInformation),
            24 => Some(FILE_INFORMATION_CLASS::FilePipeLocalInformation),
            25 => Some(FILE_INFORMATION_CLASS::FilePipeRemoteInformation),
            26 => Some(FILE_INFORMATION_CLASS::FileMailslotQueryInformation),
            27 => Some(FILE_INFORMATION_CLASS::FileMailslotSetInformation),
            28 => Some(FILE_INFORMATION_CLASS::FileCompressionInformation),
            29 => Some(FILE_INFORMATION_CLASS::FileObjectIdInformation),
            30 => Some(FILE_INFORMATION_CLASS::FileCompletionInformation),
            31 => Some(FILE_INFORMATION_CLASS::FileMoveClusterInformation),
            32 => Some(FILE_INFORMATION_CLASS::FileQuotaInformation),
            33 => Some(FILE_INFORMATION_CLASS::FileReparsePointInformation),
            34 => Some(FILE_INFORMATION_CLASS::FileNetworkOpenInformation),
            35 => Some(FILE_INFORMATION_CLASS::FileAttributeTagInformation),
            36 => Some(FILE_INFORMATION_CLASS::FileTrackingInformation),
            37 => Some(FILE_INFORMATION_CLASS::FileIdBothDirectoryInformation),
            38 => Some(FILE_INFORMATION_CLASS::FileIdFullDirectoryInformation),
            39 => Some(FILE_INFORMATION_CLASS::FileValidDataLengthInformation),
            40 => Some(FILE_INFORMATION_CLASS::FileShortNameInformation),
            41 => Some(FILE_INFORMATION_CLASS::FileIoCompletionNotificationInformation),
            42 => Some(FILE_INFORMATION_CLASS::FileIoStatusBlockRangeInformation),
            43 => Some(FILE_INFORMATION_CLASS::FileIoPriorityHintInformation),
            44 => Some(FILE_INFORMATION_CLASS::FileSfioReserveInformation),
            45 => Some(FILE_INFORMATION_CLASS::FileSfioVolumeInformation),
            46 => Some(FILE_INFORMATION_CLASS::FileHardLinkInformation),
            47 => Some(FILE_INFORMATION_CLASS::FileProcessIdsUsingFileInformation),
            48 => Some(FILE_INFORMATION_CLASS::FileNormalizedNameInformation),
            49 => Some(FILE_INFORMATION_CLASS::FileNetworkPhysicalNameInformation),
            50 => Some(FILE_INFORMATION_CLASS::FileIdGlobalTxDirectoryInformation),
            51 => Some(FILE_INFORMATION_CLASS::FileIsRemoteDeviceInformation),
            52 => Some(FILE_INFORMATION_CLASS::FileUnusedInformation),
            53 => Some(FILE_INFORMATION_CLASS::FileNumaNodeInformation),
            54 => Some(FILE_INFORMATION_CLASS::FileStandardLinkInformation),
            55 => Some(FILE_INFORMATION_CLASS::FileRemoteProtocolInformation),
            56 => Some(FILE_INFORMATION_CLASS::FileRenameInformationBypassAccessCheck),
            57 => Some(FILE_INFORMATION_CLASS::FileLinkInformationBypassAccessCheck),
            58 => Some(FILE_INFORMATION_CLASS::FileVolumeNameInformation),
            59 => Some(FILE_INFORMATION_CLASS::FileIdInformation),
            60 => Some(FILE_INFORMATION_CLASS::FileIdExtdDirectoryInformation),
            61 => Some(FILE_INFORMATION_CLASS::FileReplaceCompletionInformation),
            62 => Some(FILE_INFORMATION_CLASS::FileHardLinkFullIdInformation),
            63 => Some(FILE_INFORMATION_CLASS::FileIdExtdBothDirectoryInformation),
            64 => Some(FILE_INFORMATION_CLASS::FileDispositionInformationEx),
            65 => Some(FILE_INFORMATION_CLASS::FileRenameInformationEx),
            66 => Some(FILE_INFORMATION_CLASS::FileRenameInformationExBypassAccessCheck),
            67 => Some(FILE_INFORMATION_CLASS::FileDesiredStorageClassInformation),
            68 => Some(FILE_INFORMATION_CLASS::FileStatInformation),
            69 => Some(FILE_INFORMATION_CLASS::FileMemoryPartitionInformation),
            70 => Some(FILE_INFORMATION_CLASS::FileStatLxInformation),
            71 => Some(FILE_INFORMATION_CLASS::FileCaseSensitiveInformation),
            72 => Some(FILE_INFORMATION_CLASS::FileLinkInformationEx),
            73 => Some(FILE_INFORMATION_CLASS::FileLinkInformationExBypassAccessCheck),
            74 => Some(FILE_INFORMATION_CLASS::FileStorageReserveIdInformation),
            75 => Some(FILE_INFORMATION_CLASS::FileCaseSensitiveInformationForceAccessCheck),
            76 => Some(FILE_INFORMATION_CLASS::FileMaximumInformation),
            _ => None,
        }
    }
}

/// Distinct classes have distinct values, so reading a class back from its
/// value gives the same class.
pub proof fn lemma_file_information_class_value_injective(a: FILE_INFORMATION_CLASS, b: FILE_INFORMATION_CLASS)
    ensures
        file_information_class_value(a) == file_information_class_value(b) ==> a == b,
{
}

/// Major function code of a create request.
pub const IRP_MJ_CREATE: u8 = 0x00;

/// Major function code of a set-information request.
pub const IRP_MJ_SET_INFORMATION: u8 = 0x06;

/// Major function code that ends an operation registration table.
pub const IRP_MJ_OPERATION_END: u8 = 0x80;

/// Version of the filter registration structure (`FLT_REGISTRATION_VERSION`).
pub const FLT_REGISTRATION_VERSION: u16 = 0x0203;

/// An opaque filter object, as the filter manager lays it out.
pub struct FLT_FILTER {
    pub Filler: [u8; 288],
}

/// The header of a message sent over a filter communication port.
#[derive(Clone, Copy, Debug, PartialEq, Eq, Structural)]
pub struct FILTER_MESSAGE_HEADER {
    pub ReplyLength: u32,
    pub MessageId: u64,
}

/// One entry of a minifilter's operation registration table. Callbacks are
/// held by address; address 0 stands for no callback.
#[derive(Clone, Copy, Debug, PartialEq, Eq, Structural)]
pub struct FLT_OPERATION_REGISTRATION {
    pub MajorFunction: u8,
    pub Flags: u32,
    pub PreOperation: usize,
    pub PostOperation: usize,
    pub Reserved: usize,
}

impl FLT_OPERATION_REGISTRATION {
    /// An entry with every field zero.
    pub fn new() -> (r: Self)
        ensures
            r == (FLT_OPERATION_REGISTRATION { MajorFunction: 0, Flags: 0, PreOperation: 0, PostOperation: 0, Reserved: 0 }),
    {
        FLT_OPERATION_REGISTRATION { MajorFunction: 0, Flags: 0, PreOperation: 0, PostOperation: 0, Reserved: 0 }
    }

    /// The entry with its major function replaced and its reserved field
    /// cleared.
    pub fn set_major_function(&self, major_function: u8) -> (r: Self)
        ensures
            r == (FLT_OPERATION_REGISTRATION { MajorFunction: major_function, Reserved: 0, ..*self }),
    {
        FLT_OPERATION_REGISTRATION {
            MajorFunction: major_function,
            Flags: self.Flags,
            PreOperation: self.PreOperation,
            PostOperation: self.PostOperation,
            Reserved: 0,
        }
    }

    /// The entry with its flags replaced and its reserved field cleared.
    pub fn set_flags(&self, flags: u32) -> (r: Self)
        ensures
            r == (FLT_OPERATION_REGISTRATION { Flags: flags, Reserved: 0, ..*self }),
    {
        FLT_OPERATION_REGISTRATION {
            MajorFunction: self.MajorFunction,
            Flags: flags,
            PreOperation: self.PreOperation,
            PostOperation: self.PostOperation,
            Reserved: 0,
        }
    }

    /// The entry with its pre-operation callback replaced and its reserved
    /// field cleared.
    pub fn set_preop(&self, preop: usize) -> (r: Self)
        ensures
            r == (FLT_OPERATION_REGISTRATION { PreOperation: preop, Reserved: 0, ..*self }),
    {
        FLT_OPERATION_REGISTRATION {
            MajorFunction: self.MajorFunction,
            Flags: self.Flags,
            PreOperation: preop,
            PostOperation: self.PostOperation,
            Reserved: 0,
        }
    }

    /// The entry with its post-operation callback replaced and its reserved
    /// field cleared.
    pub fn set_postop(&self, postop: usize) -> (r: Self)
        ensures
            r == (FLT_OPERATION_REGISTRATION { PostOperation: postop, Reserved: 0, ..*self }),
    {
        FLT_OPERATION_REGISTRATION {
            MajorFunction: self.MajorFunction,
            Flags: self.Flags,
            PreOperation: self.PreOperation,
            PostOperation: postop,
            Reserved: 0,
        }
    }
}

/// The three-entry table both minifilters register: the create
/// pre-operation, the set-information pre-operation, and the end marker.
pub open spec fn spec_callback_table(pre_create: usize, pre_set_information: usize) -> Seq<FLT_OPERATION_REGISTRATION> {
    seq![
        FLT_OPERATION_REGISTRATION { MajorFunction: IRP_MJ_CREATE, Flags: 0, PreOperation: pre_create, PostOperation: 0, Reserved: 0 },
        FLT_OPERATION_REGISTRATION { MajorFunction: IRP_MJ_SET_INFORMATION, Flags: 0, PreOperation: pre_set_information, PostOperation: 0, Reserved: 0 },
        FLT_OPERATION_REGISTRATION { MajorFunction: IRP_MJ_OPERATION_END, Flags: 0, PreOperation: 0, PostOperation: 0, Reserved: 0 },
    ]
}

/// Builds the operation registration table of a minifilter that watches
/// creates and set-information requests.
pub fn callback_table(pre_create: usize, pre_set_information: usize) -> (r: Vec<FLT_OPERATION_REGISTRATION>)
    ensures
        r@ == spec_callback_table(pre_create, pre_set_information),
{
    let mut v: Vec<FLT_OPERATION_REGISTRATION> = Vec::new();
    v.push(FLT_OPERATION_REGISTRATION::new().set_major_function(IRP_MJ_CREATE).set_preop(pre_create));
    v.push(
        FLT_OPERATION_REGISTRATION::new().set_major_function(IRP_MJ_SET_INFORMATION).set_preop(
            pre_set_information,
        ),
    );
    v.push(FLT_OPERATION_REGISTRATION::new().set_major_function(IRP_MJ_OPERATION_END));
    assert(v@ =~= spec_callback_table(pre_create, pre_set_information));
    v
}

} // verus!
