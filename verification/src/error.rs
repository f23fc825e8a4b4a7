//! Error taxonomy of the engine: generic kinds, the numeric XFlash status
//! code space with its severity/domain/case layout, and the textual XML
//! status errors.

use vstd::prelude::*;
use vstd::string::StrSliceExecFns;
use vstd::string::StringExecFns;

verus! {

/// Top-level error of the engine.
#[derive(Debug)]
pub enum Error {
    /// An error carrying an XFlash status code.
    XFlash(XFlashError),
    /// An error reported by the XML DA as a status string.
    Xml(XmlError),
    /// Generic protocol error.
    Protocol(String),
    /// Connection-specific error.
    Connection(String),
    /// Error related to I/O with a connection backend.
    Io(String),
    /// Generic engine error.
    Penumbra(String),
    /// A raw status word together with its context.
    Status { ctx: String, status: u32 },
}

impl Error {
    pub fn io(msg: &str) -> (r: Error)
        ensures
            r matches Error::Io(m) && m@ == msg@,
    {
        Error::Io(msg.to_owned())
    }

    pub fn conn(msg: &str) -> (r: Error)
        ensures
            r matches Error::Connection(m) && m@ == msg@,
    {
        Error::Connection(msg.to_owned())
    }

    pub fn proto(msg: &str) -> (r: Error)
        ensures
            r matches Error::Protocol(m) && m@ == msg@,
    {
        Error::Protocol(msg.to_owned())
    }

    pub fn penumbra(msg: &str) -> (r: Error)
        ensures
            r matches Error::Penumbra(m) && m@ == msg@,
    {
        Error::Penumbra(msg.to_owned())
    }
}

/// The known XFlash status codes; `Unknown` stands for every other value.
#[derive(Debug, Copy, Clone, Eq, PartialEq, Structural)]
pub enum XFlashErrorKind {
    Error,
    Abort,
    UnsupportedCommand,
    UnsupportedCtrlCode,
    ProtocolError,
    ProtocolBufferOverflow,
    InsufficientBuffer,
    UsbScanError,
    InvalidHSession,
    InvalidSession,
    InvalidStage,
    NotImplemented,
    FileNotFound,
    OpenFileError,
    WriteFileError,
    ReadFileError,
    CreateFileErrorOrUnsupportedVersion,
    RomInfoNotFound,
    CustNameNotFound,
    DeviceNotSupported,
    DlForbidden,
    ImgTooLarge,
    PlVerifyFailed,
    ImageVerifyFailed,
    HashOperationFailed,
    HashBindingCheckFailed,
    InvalidBuf,
    BindingHashNotAvailable,
    WriteDataNotAllowed,
    FormatNotAllowed,
    Sv5PubKeyAuthFailed,
    Sv5HashVerifyFailed,
    Sv5RsaOpFailed,
    Sv5RsaVerifyFailed,
    Sv5GfhNotFound,
    Cert1Invalid,
    Cert2Invalid,
    ImghdrInvalid,
    SigSizeInvalid,
    RsaPssOpFailed,
    CertAuthFailed,
    PubKeyAuthMismatchNSize,
    PubKeyAuthMismatchESize,
    PubKeyAuthMismatchN,
    PubKeyAuthMismatchE,
    PubKeyAuthMismatchHash,
    CertObjNotFound,
    CertOidNotFound,
    CertOutOfRange,
    OidDoesntMatch,
    LengthDoesntMatch,
    Asn1UnknownOp,
    OidIndexOutOfRange,
    OidTooLarge,
    PubKeySizeMismatch,
    SwidMismatch,
    HashSizeMismatch,
    ImghdrTypeMismatch,
    ImgTypeMismatch,
    ImghdrHashVerifyFailed,
    ImgHashVerifyFailed,
    AntiRollbackViolation,
    SeccfgNotFound,
    SeccfgMagicIncorrect,
    SeccfgInvalid,
    CipherModeInvalid,
    CipherKeyInvalid,
    CipherDataUnaligned,
    GfhFileInfoNotFound,
    GfhAntiCloneNotFound,
    GfhSecCfgNotFound,
    UnsupportedSourceType,
    CustNameMismatch,
    InvalidAddress,
    CertificateVersionNotSynced,
    SignatureNotSynced,
    ExtAllInOneSignatureRejected,
    ExtAllInOneSignatureMissing,
    CommKeyIsNotSet,
    DevInfoCheckFailed,
    BootimgCountOverflow,
    SignatureNotFound,
    BootimgSpecialHandle,
    RemoteSecurityPolicyDisabled,
    RsaOaepFailed,
    InsufficientBuffer2,
    DaAntiRollbackError,
    GetOtpValueFailed,
    InvalidUnitSize,
    InvalidGroupIdx,
    ImgVersionOverflow,
    OtpTableNotInitialized,
    InvalidPartitionName,
    DaVersionAntiRollbackError,
    InvalidMsgSize,
    SecurityLevelUnsupported,
    SecurityLevelMismatch,
    FaultInjectionError,
    PubKeyHashGroupInvalid,
    SecurityLevelTooLarge,
    SecurityConfigIsFormatted,
    SecurityConfigUnknownError,
    LockstateSeccfgFailed,
    LockstateCustomFailed,
    LockstateInconsistent,
    ScatterFileInvalid,
    DaFileInvalid,
    DaSelectionError,
    PreloaderInvalid,
    EmiHdrInvalid,
    StorageMismatch,
    InvalidParameters,
    InvalidGpt,
    InvalidPmt,
    LayoutChanged,
    InvalidFormatParam,
    UnknownStorageSectionType,
    UnknownScatterField,
    PartitionTblDoesntExist,
    ScatterHwChipIdMismatch,
    SecCertFileNotFound,
    SecAuthFileNotFound,
    SecAuthFileNeeded,
    EmiContainerFileNotFound,
    ScatterFileNotFound,
    XmlFileOpError,
    UnsupportedPageSize,
    EmiInfoLengthOffsetInvalid,
    EmiInfoLengthInvalid,
    UnsupportedOperation,
    ThreadError,
    ChecksumError,
    UnknownSparse,
    UnknownSparseChunkType,
    PartitionNotFound,
    ReadParttblFailed,
    ExceededMaxPartitionNumber,
    UnknownStorageType,
    DramTestFailed,
    ExceedAvailableRange,
    WriteSparseImageFailed,
    MmcError,
    NandError,
    NandInProgress,
    NandTimeout,
    NandBadBlock,
    NandEraseFailed,
    NandPageProgramFailed,
    EmiSettingVersionError,
    UfsError,
    DaOtpNotSupported,
    DaOtpLockFailed,
    EfuseUnknownError,
    EfuseWriteTimeoutWithoutVerify,
    EfuseBlown,
    EfuseRevertBit,
    EfuseBlownPartly,
    EfuseInvalidArgument,
    EfuseValueIsNotZero,
    EfuseBlownIncorrectData,
    EfuseBroken,
    EfuseBlowError,
    EfuseUnlockBpkeyError,
    EfuseCreateListError,
    EfuseWriteRegisterError,
    EfusePaddingTypeMismatch,
    DeviceCtrlException,
    ShutdownCmdException,
    DownloadException,
    UploadException,
    ExtRamException,
    NotifySwitchUsbSpeedException,
    ReadDataException,
    WriteDataException,
    FormatException,
    OtpOperationException,
    SwitchUsbException,
    WriteEfuseException,
    ReadEfuseException,
    BromStartCmdFailed,
    BromGetBbchipHwVerFailed,
    BromCmdSendDaFailed,
    BromCmdJumpDaFailed,
    BromCmdFailed,
    BromStageCallbackFailed,
    DaVersionMismatch,
    DaNotFound,
    DaSectionNotFound,
    DaHashMismatch,
    DaExceedMaxNum,
    Unknown,
}

/// Severity field of an XFlash code: the top two bits.
/// `0` success, `1` info, `2` warning, `3` error.
pub open spec fn spec_severity_of(code: u32) -> u32 {
    code / 0x40000000
}

/// Domain field of an XFlash code: bits 16 to 23.
pub open spec fn spec_domain_of(code: u32) -> u32 {
    (code / 0x10000) % 0x100
}

/// Case field of an XFlash code: the low 16 bits.
pub open spec fn spec_case_of(code: u32) -> u32 {
    code % 0x10000
}

impl XFlashErrorKind {
    /// The numeric status code this kind stands for.
    pub open spec fn spec_code(self) -> u32 {
        match self {
            XFlashErrorKind::Error => 0xC0010001,
            XFlashErrorKind::Abort => 0xC0010002,
            XFlashErrorKind::UnsupportedCommand => 0xC0010003,
            XFlashErrorKind::UnsupportedCtrlCode => 0xC0010004,
            XFlashErrorKind::ProtocolError => 0xC0010005,
            XFlashErrorKind::ProtocolBufferOverflow => 0xC0010006,
            XFlashErrorKind::InsufficientBuffer => 0xC0010007,
            XFlashErrorKind::UsbScanError => 0xC0010008,
            XFlashErrorKind::InvalidHSession => 0xC0010009,
            XFlashErrorKind::InvalidSession => 0xC001000A,
            XFlashErrorKind::InvalidStage => 0xC001000B,
            XFlashErrorKind::NotImplemented => 0xC001000C,
            XFlashErrorKind::FileNotFound => 0xC001000D,
            XFlashErrorKind::OpenFileError => 0xC001000E,
            XFlashErrorKind::WriteFileError => 0xC001000F,
            XFlashErrorKind::ReadFileError => 0xC0010010,
            XFlashErrorKind::CreateFileErrorOrUnsupportedVersion => 0xC0010011,
            XFlashErrorKind::RomInfoNotFound => 0xC0020001,
            XFlashErrorKind::CustNameNotFound => 0xC0020002,
            XFlashErrorKind::DeviceNotSupported => 0xC0020003,
            XFlashErrorKind::DlForbidden => 0xC0020004,
            XFlashErrorKind::ImgTooLarge => 0xC0020005,
            XFlashErrorKind::PlVerifyFailed => 0xC0020006,
            XFlashErrorKind::ImageVerifyFailed => 0xC0020007,
            XFlashErrorKind::HashOperationFailed => 0xC0020008,
            XFlashErrorKind::HashBindingCheckFailed => 0xC0020009,
            XFlashErrorKind::InvalidBuf => 0xC002000A,
            XFlashErrorKind::BindingHashNotAvailable => 0xC002000B,
            XFlashErrorKind::WriteDataNotAllowed => 0xC002000C,
            XFlashErrorKind::FormatNotAllowed => 0xC002000D,
            XFlashErrorKind::Sv5PubKeyAuthFailed => 0xC002000E,
            XFlashErrorKind::Sv5HashVerifyFailed => 0xC002000F,
            XFlashErrorKind::Sv5RsaOpFailed => 0xC0020010,
            XFlashErrorKind::Sv5RsaVerifyFailed => 0xC0020011,
            XFlashErrorKind::Sv5GfhNotFound => 0xC0020012,
            XFlashErrorKind::Cert1Invalid => 0xC0020013,
            XFlashErrorKind::Cert2Invalid => 0xC0020014,
            XFlashErrorKind::ImghdrInvalid => 0xC0020015,
            XFlashErrorKind::SigSizeInvalid => 0xC0020016,
            XFlashErrorKind::RsaPssOpFailed => 0xC0020017,
            XFlashErrorKind::CertAuthFailed => 0xC0020018,
            XFlashErrorKind::PubKeyAuthMismatchNSize => 0xC0020019,
            XFlashErrorKind::PubKeyAuthMismatchESize => 0xC002001A,
            XFlashErrorKind::PubKeyAuthMismatchN => 0xC002001B,
            XFlashErrorKind::PubKeyAuthMismatchE => 0xC002001C,
            XFlashErrorKind::PubKeyAuthMismatchHash => 0xC002001D,
            XFlashErrorKind::CertObjNotFound => 0xC002001E,
            XFlashErrorKind::CertOidNotFound => 0xC002001F,
            XFlashErrorKind::CertOutOfRange => 0xC0020020,
            XFlashErrorKind::OidDoesntMatch => 0xC0020021,
            XFlashErrorKind::LengthDoesntMatch => 0xC0020022,
            XFlashErrorKind::Asn1UnknownOp => 0xC0020023,
            XFlashErrorKind::OidIndexOutOfRange => 0xC0020024,
            XFlashErrorKind::OidTooLarge => 0xC0020025,
            XFlashErrorKind::PubKeySizeMismatch => 0xC0020026,
            XFlashErrorKind::SwidMismatch => 0xC0020027,
            XFlashErrorKind::HashSizeMismatch => 0xC0020028,
            XFlashErrorKind::ImghdrTypeMismatch => 0xC0020029,
            XFlashErrorKind::ImgTypeMismatch => 0xC002002A,
            XFlashErrorKind::ImghdrHashVerifyFailed => 0xC002002B,
            XFlashErrorKind::ImgHashVerifyFailed => 0xC002002C,
            XFlashErrorKind::AntiRollbackViolation => 0xC002002D,
            XFlashErrorKind::SeccfgNotFound => 0xC002002E,
            XFlashErrorKind::SeccfgMagicIncorrect => 0xC002002F,
            XFlashErrorKind::SeccfgInvalid => 0xC0020030,
            XFlashErrorKind::CipherModeInvalid => 0xC0020031,
            XFlashErrorKind::CipherKeyInvalid => 0xC0020032,
            XFlashErrorKind::CipherDataUnaligned => 0xC0020033,
            XFlashErrorKind::GfhFileInfoNotFound => 0xC0020034,
            XFlashErrorKind::GfhAntiCloneNotFound => 0xC0020035,
            XFlashErrorKind::GfhSecCfgNotFound => 0xC0020036,
            XFlashErrorKind::UnsupportedSourceType => 0xC0020037,
            XFlashErrorKind::CustNameMismatch => 0xC0020038,
            XFlashErrorKind::InvalidAddress => 0xC0020039,
            XFlashErrorKind::CertificateVersionNotSynced => 0xC0020040,
            XFlashErrorKind::SignatureNotSynced => 0xC0020041,
            XFlashErrorKind::ExtAllInOneSignatureRejected => 0xC0020042,
            XFlashErrorKind::ExtAllInOneSignatureMissing => 0xC0020043,
            XFlashErrorKind::CommKeyIsNotSet => 0xC0020044,
            XFlashErrorKind::DevInfoCheckFailed => 0xC0020045,
            XFlashErrorKind::BootimgCountOverflow => 0xC0020046,
            XFlashErrorKind::SignatureNotFound => 0xC0020047,
            XFlashErrorKind::BootimgSpecialHandle => 0xC0020048,
            XFlashErrorKind::RemoteSecurityPolicyDisabled => 0xC0020049,
            XFlashErrorKind::RsaOaepFailed => 0xC002004A,
            XFlashErrorKind::InsufficientBuffer2 => 0xC002004B,
            XFlashErrorKind::DaAntiRollbackError => 0xC002004C,
            XFlashErrorKind::GetOtpValueFailed => 0xC002004D,
            XFlashErrorKind::InvalidUnitSize => 0xC002004E,
            XFlashErrorKind::InvalidGroupIdx => 0xC002004F,
            XFlashErrorKind::ImgVersionOverflow => 0xC0020050,
            XFlashErrorKind::OtpTableNotInitialized => 0xC0020051,
            XFlashErrorKind::InvalidPartitionName => 0xC0020052,
            XFlashErrorKind::DaVersionAntiRollbackError => 0xC0020053,
            XFlashErrorKind::InvalidMsgSize => 0xC0020054,
            XFlashErrorKind::SecurityLevelUnsupported => 0xC0020055,
            XFlashErrorKind::SecurityLevelMismatch => 0xC0020056,
            XFlashErrorKind::FaultInjectionError => 0xC0020057,
            XFlashErrorKind::PubKeyHashGroupInvalid => 0xC0020058,
            XFlashErrorKind::SecurityLevelTooLarge => 0xC0020059,
            XFlashErrorKind::SecurityConfigIsFormatted => 0xC002005A,
            XFlashErrorKind::SecurityConfigUnknownError => 0xC002005B,
            XFlashErrorKind::LockstateSeccfgFailed => 0xC002005C,
            XFlashErrorKind::LockstateCustomFailed => 0xC002005D,
            XFlashErrorKind::LockstateInconsistent => 0xC002005E,
            XFlashErrorKind::ScatterFileInvalid => 0xC0030001,
            XFlashErrorKind::DaFileInvalid => 0xC0030002,
            XFlashErrorKind::DaSelectionError => 0xC0030003,
            XFlashErrorKind::PreloaderInvalid => 0xC0030004,
            XFlashErrorKind::EmiHdrInvalid => 0xC0030005,
            XFlashErrorKind::StorageMismatch => 0xC0030006,
            XFlashErrorKind::InvalidParameters => 0xC0030007,
            XFlashErrorKind::InvalidGpt => 0xC0030008,
            XFlashErrorKind::InvalidPmt => 0xC0030009,
            XFlashErrorKind::LayoutChanged => 0xC003000A,
            XFlashErrorKind::InvalidFormatParam => 0xC003000B,
            XFlashErrorKind::UnknownStorageSectionType => 0xC003000C,
            XFlashErrorKind::UnknownScatterField => 0xC003000D,
            XFlashErrorKind::PartitionTblDoesntExist => 0xC003000E,
            XFlashErrorKind::ScatterHwChipIdMismatch => 0xC003000F,
            XFlashErrorKind::SecCertFileNotFound => 0xC0030010,
            XFlashErrorKind::SecAuthFileNotFound => 0xC0030011,
            XFlashErrorKind::SecAuthFileNeeded => 0xC0030012,
            XFlashErrorKind::EmiContainerFileNotFound => 0xC0030013,
            XFlashErrorKind::ScatterFileNotFound => 0xC0030014,
            XFlashErrorKind::XmlFileOpError => 0xC0030015,
            XFlashErrorKind::UnsupportedPageSize => 0xC0030016,
            XFlashErrorKind::EmiInfoLengthOffsetInvalid => 0xC0030017,
            XFlashErrorKind::EmiInfoLengthInvalid => 0xC0030018,
            XFlashErrorKind::UnsupportedOperation => 0xC0040001,
            XFlashErrorKind::ThreadError => 0xC0040002,
            XFlashErrorKind::ChecksumError => 0xC0040003,
            XFlashErrorKind::UnknownSparse => 0xC0040004,
            XFlashErrorKind::UnknownSparseChunkType => 0xC0040005,
            XFlashErrorKind::PartitionNotFound => 0xC0040006,
            XFlashErrorKind::ReadParttblFailed => 0xC0040007,
            XFlashErrorKind::ExceededMaxPartitionNumber => 0xC0040008,
            XFlashErrorKind::UnknownStorageType => 0xC0040009,
            XFlashErrorKind::DramTestFailed => 0xC004000A,
            XFlashErrorKind::ExceedAvailableRange => 0xC004000B,
            XFlashErrorKind::WriteSparseImageFailed => 0xC004000C,
            XFlashErrorKind::MmcError => 0xC0040030,
            XFlashErrorKind::NandError => 0xC0040040,
            XFlashErrorKind::NandInProgress => 0xC0040041,
            XFlashErrorKind::NandTimeout => 0xC0040042,
            XFlashErrorKind::NandBadBlock => 0xC0040043,
            XFlashErrorKind::NandEraseFailed => 0xC0040044,
            XFlashErrorKind::NandPageProgramFailed => 0xC0040045,
            XFlashErrorKind::EmiSettingVersionError => 0xC0040050,
            XFlashErrorKind::UfsError => 0xC0040060,
            XFlashErrorKind::DaOtpNotSupported => 0xC0040100,
            XFlashErrorKind::DaOtpLockFailed => 0xC0040102,
            XFlashErrorKind::EfuseUnknownError => 0xC0040200,
            XFlashErrorKind::EfuseWriteTimeoutWithoutVerify => 0xC0040201,
            XFlashErrorKind::EfuseBlown => 0xC0040202,
            XFlashErrorKind::EfuseRevertBit => 0xC0040203,
            XFlashErrorKind::EfuseBlownPartly => 0xC0040204,
            XFlashErrorKind::EfuseInvalidArgument => 0xC0040205,
            XFlashErrorKind::EfuseValueIsNotZero => 0xC0040206,
            XFlashErrorKind::EfuseBlownIncorrectData => 0xC0040207,
            XFlashErrorKind::EfuseBroken => 0xC0040208,
            XFlashErrorKind::EfuseBlowError => 0xC0040209,
            XFlashErrorKind::EfuseUnlockBpkeyError => 0xC004020A,
            XFlashErrorKind::EfuseCreateListError => 0xC004020B,
            XFlashErrorKind::EfuseWriteRegisterError => 0xC004020C,
            XFlashErrorKind::EfusePaddingTypeMismatch => 0xC004020D,
            XFlashErrorKind::DeviceCtrlException => 0xC0050001,
            XFlashErrorKind::ShutdownCmdException => 0xC0050002,
            XFlashErrorKind::DownloadException => 0xC0050003,
            XFlashErrorKind::UploadException => 0xC0050004,
            XFlashErrorKind::ExtRamException => 0xC0050005,
            XFlashErrorKind::NotifySwitchUsbSpeedException => 0xC0050006,
            XFlashErrorKind::ReadDataException => 0xC0050007,
            XFlashErrorKind::WriteDataException => 0xC0050008,
            XFlashErrorKind::FormatException => 0xC0050009,
            XFlashErrorKind::OtpOperationException => 0xC005000A,
            XFlashErrorKind::SwitchUsbException => 0xC005000B,
            XFlashErrorKind::WriteEfuseException => 0xC005000C,
            XFlashErrorKind::ReadEfuseException => 0xC005000D,
            XFlashErrorKind::BromStartCmdFailed => 0xC0060001,
            XFlashErrorKind::BromGetBbchipHwVerFailed => 0xC0060002,
            XFlashErrorKind::BromCmdSendDaFailed => 0xC0060003,
            XFlashErrorKind::BromCmdJumpDaFailed => 0xC0060004,
            XFlashErrorKind::BromCmdFailed => 0xC0060005,
            XFlashErrorKind::BromStageCallbackFailed => 0xC0060006,
            XFlashErrorKind::DaVersionMismatch => 0xC0070001,
            XFlashErrorKind::DaNotFound => 0xC0070002,
            XFlashErrorKind::DaSectionNotFound => 0xC0070003,
            XFlashErrorKind::DaHashMismatch => 0xC0070004,
            XFlashErrorKind::DaExceedMaxNum => 0xC0070005,
            XFlashErrorKind::Unknown => 0xFFFFFFFF,
        }
    }

    /// The numeric status code this kind stands for.
    pub fn code(self) -> (r: u32)
        ensures
            r == self.spec_code(),
    {
        match self {
            XFlashErrorKind::Error => 0xC0010001,
            XFlashErrorKind::Abort => 0xC0010002,
            XFlashErrorKind::UnsupportedCommand => 0xC0010003,
            XFlashErrorKind::UnsupportedCtrlCode => 0xC0010004,
            XFlashErrorKind::ProtocolError => 0xC0010005,
            XFlashErrorKind::ProtocolBufferOverflow => 0xC0010006,
            XFlashErrorKind::InsufficientBuffer => 0xC0010007,
            XFlashErrorKind::UsbScanError => 0xC0010008,
            XFlashErrorKind::InvalidHSession => 0xC0010009,
            XFlashErrorKind::InvalidSession => 0xC001000A,
            XFlashErrorKind::InvalidStage => 0xC001000B,
            XFlashErrorKind::NotImplemented => 0xC001000C,
            XFlashErrorKind::FileNotFound => 0xC001000D,
            XFlashErrorKind::OpenFileError => 0xC001000E,
            XFlashErrorKind::WriteFileError => 0xC001000F,
            XFlashErrorKind::ReadFileError => 0xC0010010,
            XFlashErrorKind::CreateFileErrorOrUnsupportedVersion => 0xC0010011,
            XFlashErrorKind::RomInfoNotFound => 0xC0020001,
            XFlashErrorKind::CustNameNotFound => 0xC0020002,
            XFlashErrorKind::DeviceNotSupported => 0xC0020003,
            XFlashErrorKind::DlForbidden => 0xC0020004,
            XFlashErrorKind::ImgTooLarge => 0xC0020005,
            XFlashErrorKind::PlVerifyFailed => 0xC0020006,
            XFlashErrorKind::ImageVerifyFailed => 0xC0020007,
            XFlashErrorKind::HashOperationFailed => 0xC0020008,
            XFlashErrorKind::HashBindingCheckFailed => 0xC0020009,
            XFlashErrorKind::InvalidBuf => 0xC002000A,
            XFlashErrorKind::BindingHashNotAvailable => 0xC002000B,
            XFlashErrorKind::WriteDataNotAllowed => 0xC002000C,
            XFlashErrorKind::FormatNotAllowed => 0xC002000D,
            XFlashErrorKind::Sv5PubKeyAuthFailed => 0xC002000E,
            XFlashErrorKind::Sv5HashVerifyFailed => 0xC002000F,
            XFlashErrorKind::Sv5RsaOpFailed => 0xC0020010,
            XFlashErrorKind::Sv5RsaVerifyFailed => 0xC0020011,
            XFlashErrorKind::Sv5GfhNotFound => 0xC0020012,
            XFlashErrorKind::Cert1Invalid => 0xC0020013,
            XFlashErrorKind::Cert2Invalid => 0xC0020014,
            XFlashErrorKind::ImghdrInvalid => 0xC0020015,
            XFlashErrorKind::SigSizeInvalid => 0xC0020016,
            XFlashErrorKind::RsaPssOpFailed => 0xC0020017,
            XFlashErrorKind::CertAuthFailed => 0xC0020018,
            XFlashErrorKind::PubKeyAuthMismatchNSize => 0xC0020019,
            XFlashErrorKind::PubKeyAuthMismatchESize => 0xC002001A,
            XFlashErrorKind::PubKeyAuthMismatchN => 0xC002001B,
            XFlashErrorKind::PubKeyAuthMismatchE => 0xC002001C,
            XFlashErrorKind::PubKeyAuthMismatchHash => 0xC002001D,
            XFlashErrorKind::CertObjNotFound => 0xC002001E,
            XFlashErrorKind::CertOidNotFound => 0xC002001F,
            XFlashErrorKind::CertOutOfRange => 0xC0020020,
            XFlashErrorKind::OidDoesntMatch => 0xC0020021,
            XFlashErrorKind::LengthDoesntMatch => 0xC0020022,
            XFlashErrorKind::Asn1UnknownOp => 0xC0020023,
            XFlashErrorKind::OidIndexOutOfRange => 0xC0020024,
            XFlashErrorKind::OidTooLarge => 0xC0020025,
            XFlashErrorKind::PubKeySizeMismatch => 0xC0020026,
            XFlashErrorKind::SwidMismatch => 0xC0020027,
            XFlashErrorKind::HashSizeMismatch => 0xC0020028,
            XFlashErrorKind::ImghdrTypeMismatch => 0xC0020029,
            XFlashErrorKind::ImgTypeMismatch => 0xC002002A,
            XFlashErrorKind::ImghdrHashVerifyFailed => 0xC002002B,
            XFlashErrorKind::ImgHashVerifyFailed => 0xC002002C,
            XFlashErrorKind::AntiRollbackViolation => 0xC002002D,
            XFlashErrorKind::SeccfgNotFound => 0xC002002E,
            XFlashErrorKind::SeccfgMagicIncorrect => 0xC002002F,
            XFlashErrorKind::SeccfgInvalid => 0xC0020030,
            XFlashErrorKind::CipherModeInvalid => 0xC0020031,
            XFlashErrorKind::CipherKeyInvalid => 0xC0020032,
            XFlashErrorKind::CipherDataUnaligned => 0xC0020033,
            XFlashErrorKind::GfhFileInfoNotFound => 0xC0020034,
            XFlashErrorKind::GfhAntiCloneNotFound => 0xC0020035,
            XFlashErrorKind::GfhSecCfgNotFound => 0xC0020036,
            XFlashErrorKind::UnsupportedSourceType => 0xC0020037,
            XFlashErrorKind::CustNameMismatch => 0xC0020038,
            XFlashErrorKind::InvalidAddress => 0xC0020039,
            XFlashErrorKind::CertificateVersionNotSynced => 0xC0020040,
            XFlashErrorKind::SignatureNotSynced => 0xC0020041,
            XFlashErrorKind::ExtAllInOneSignatureRejected => 0xC0020042,
            XFlashErrorKind::ExtAllInOneSignatureMissing => 0xC0020043,
            XFlashErrorKind::CommKeyIsNotSet => 0xC0020044,
            XFlashErrorKind::DevInfoCheckFailed => 0xC0020045,
            XFlashErrorKind::BootimgCountOverflow => 0xC0020046,
            XFlashErrorKind::SignatureNotFound => 0xC0020047,
            XFlashErrorKind::BootimgSpecialHandle => 0xC0020048,
            XFlashErrorKind::RemoteSecurityPolicyDisabled => 0xC0020049,
            XFlashErrorKind::RsaOaepFailed => 0xC002004A,
            XFlashErrorKind::InsufficientBuffer2 => 0xC002004B,
            XFlashErrorKind::DaAntiRollbackError => 0xC002004C,
            XFlashErrorKind::GetOtpValueFailed => 0xC002004D,
            XFlashErrorKind::InvalidUnitSize => 0xC002004E,
            XFlashErrorKind::InvalidGroupIdx => 0xC002004F,
            XFlashErrorKind::ImgVersionOverflow => 0xC0020050,
            XFlashErrorKind::OtpTableNotInitialized => 0xC0020051,
            XFlashErrorKind::InvalidPartitionName => 0xC0020052,
            XFlashErrorKind::DaVersionAntiRollbackError => 0xC0020053,
            XFlashErrorKind::InvalidMsgSize => 0xC0020054,
            XFlashErrorKind::SecurityLevelUnsupported => 0xC0020055,
            XFlashErrorKind::SecurityLevelMismatch => 0xC0020056,
            XFlashErrorKind::FaultInjectionError => 0xC0020057,
            XFlashErrorKind::PubKeyHashGroupInvalid => 0xC0020058,
            XFlashErrorKind::SecurityLevelTooLarge => 0xC0020059,
            XFlashErrorKind::SecurityConfigIsFormatted => 0xC002005A,
            XFlashErrorKind::SecurityConfigUnknownError => 0xC002005B,
            XFlashErrorKind::LockstateSeccfgFailed => 0xC002005C,
            XFlashErrorKind::LockstateCustomFailed => 0xC002005D,
            XFlashErrorKind::LockstateInconsistent => 0xC002005E,
            XFlashErrorKind::ScatterFileInvalid => 0xC0030001,
            XFlashErrorKind::DaFileInvalid => 0xC0030002,
            XFlashErrorKind::DaSelectionError => 0xC0030003,
            XFlashErrorKind::PreloaderInvalid => 0xC0030004,
            XFlashErrorKind::EmiHdrInvalid => 0xC0030005,
            XFlashErrorKind::StorageMismatch => 0xC0030006,
            XFlashErrorKind::InvalidParameters => 0xC0030007,
            XFlashErrorKind::InvalidGpt => 0xC0030008,
            XFlashErrorKind::InvalidPmt => 0xC0030009,
            XFlashErrorKind::LayoutChanged => 0xC003000A,
            XFlashErrorKind::InvalidFormatParam => 0xC003000B,
            XFlashErrorKind::UnknownStorageSectionType => 0xC003000C,
            XFlashErrorKind::UnknownScatterField => 0xC003000D,
            XFlashErrorKind::PartitionTblDoesntExist => 0xC003000E,
            XFlashErrorKind::ScatterHwChipIdMismatch => 0xC003000F,
            XFlashErrorKind::SecCertFileNotFound => 0xC0030010,
            XFlashErrorKind::SecAuthFileNotFound => 0xC0030011,
            XFlashErrorKind::SecAuthFileNeeded => 0xC0030012,
            XFlashErrorKind::EmiContainerFileNotFound => 0xC0030013,
            XFlashErrorKind::ScatterFileNotFound => 0xC0030014,
            XFlashErrorKind::XmlFileOpError => 0xC0030015,
            XFlashErrorKind::UnsupportedPageSize => 0xC0030016,
            XFlashErrorKind::EmiInfoLengthOffsetInvalid => 0xC0030017,
            XFlashErrorKind::EmiInfoLengthInvalid => 0xC0030018,
            XFlashErrorKind::UnsupportedOperation => 0xC0040001,
            XFlashErrorKind::ThreadError => 0xC0040002,
            XFlashErrorKind::ChecksumError => 0xC0040003,
            XFlashErrorKind::UnknownSparse => 0xC0040004,
            XFlashErrorKind::UnknownSparseChunkType => 0xC0040005,
            XFlashErrorKind::PartitionNotFound => 0xC0040006,
            XFlashErrorKind::ReadParttblFailed => 0xC0040007,
            XFlashErrorKind::ExceededMaxPartitionNumber => 0xC0040008,
            XFlashErrorKind::UnknownStorageType => 0xC0040009,
            XFlashErrorKind::DramTestFailed => 0xC004000A,
            XFlashErrorKind::ExceedAvailableRange => 0xC004000B,
            XFlashErrorKind::WriteSparseImageFailed => 0xC004000C,
            XFlashErrorKind::MmcError => 0xC0040030,
            XFlashErrorKind::NandError => 0xC0040040,
            XFlashErrorKind::NandInProgress => 0xC0040041,
            XFlashErrorKind::NandTimeout => 0xC0040042,
            XFlashErrorKind::NandBadBlock => 0xC0040043,
            XFlashErrorKind::NandEraseFailed => 0xC0040044,
            XFlashErrorKind::NandPageProgramFailed => 0xC0040045,
            XFlashErrorKind::EmiSettingVersionError => 0xC0040050,
            XFlashErrorKind::UfsError => 0xC0040060,
            XFlashErrorKind::DaOtpNotSupported => 0xC0040100,
            XFlashErrorKind::DaOtpLockFailed => 0xC0040102,
            XFlashErrorKind::EfuseUnknownError => 0xC0040200,
            XFlashErrorKind::EfuseWriteTimeoutWithoutVerify => 0xC0040201,
            XFlashErrorKind::EfuseBlown => 0xC0040202,
            XFlashErrorKind::EfuseRevertBit => 0xC0040203,
            XFlashErrorKind::EfuseBlownPartly => 0xC0040204,
            XFlashErrorKind::EfuseInvalidArgument => 0xC0040205,
            XFlashErrorKind::EfuseValueIsNotZero => 0xC0040206,
            XFlashErrorKind::EfuseBlownIncorrectData => 0xC0040207,
            XFlashErrorKind::EfuseBroken => 0xC0040208,
            XFlashErrorKind::EfuseBlowError => 0xC0040209,
            XFlashErrorKind::EfuseUnlockBpkeyError => 0xC004020A,
            XFlashErrorKind::EfuseCreateListError => 0xC004020B,
            XFlashErrorKind::EfuseWriteRegisterError => 0xC004020C,
            XFlashErrorKind::EfusePaddingTypeMismatch => 0xC004020D,
            XFlashErrorKind::DeviceCtrlException => 0xC0050001,
            XFlashErrorKind::ShutdownCmdException => 0xC0050002,
            XFlashErrorKind::DownloadException => 0xC0050003,
            XFlashErrorKind::UploadException => 0xC0050004,
            XFlashErrorKind::ExtRamException => 0xC0050005,
            XFlashErrorKind::NotifySwitchUsbSpeedException => 0xC0050006,
            XFlashErrorKind::ReadDataException => 0xC0050007,
            XFlashErrorKind::WriteDataException => 0xC0050008,
            XFlashErrorKind::FormatException => 0xC0050009,
            XFlashErrorKind::OtpOperationException => 0xC005000A,
            XFlashErrorKind::SwitchUsbException => 0xC005000B,
            XFlashErrorKind::WriteEfuseException => 0xC005000C,
            XFlashErrorKind::ReadEfuseException => 0xC005000D,
            XFlashErrorKind::BromStartCmdFailed => 0xC0060001,
            XFlashErrorKind::BromGetBbchipHwVerFailed => 0xC0060002,
            XFlashErrorKind::BromCmdSendDaFailed => 0xC0060003,
            XFlashErrorKind::BromCmdJumpDaFailed => 0xC0060004,
            XFlashErrorKind::BromCmdFailed => 0xC0060005,
            XFlashErrorKind::BromStageCallbackFailed => 0xC0060006,
            XFlashErrorKind::DaVersionMismatch => 0xC0070001,
            XFlashErrorKind::DaNotFound => 0xC0070002,
            XFlashErrorKind::DaSectionNotFound => 0xC0070003,
            XFlashErrorKind::DaHashMismatch => 0xC0070004,
            XFlashErrorKind::DaExceedMaxNum => 0xC0070005,
            XFlashErrorKind::Unknown => 0xFFFFFFFF,
        }
    }
}

/// The kind a numeric status code decodes to: the matching known kind, or
/// `Unknown` for every other value.
pub open spec fn spec_kind_of_code(code: u32) -> XFlashErrorKind {
    if code == 0xC0010001 {
        XFlashErrorKind::Error
    } else if code == 0xC0010002 {
        XFlashErrorKind::Abort
    } else if code == 0xC0010003 {
        XFlashErrorKind::UnsupportedCommand
    } else if code == 0xC0010004 {
        XFlashErrorKind::UnsupportedCtrlCode
    } else if code == 0xC0010005 {
        XFlashErrorKind::ProtocolError
    } else if code == 0xC0010006 {
        XFlashErrorKind::ProtocolBufferOverflow
    } else if code == 0xC0010007 {
        XFlashErrorKind::InsufficientBuffer
    } else if code == 0xC0010008 {
        XFlashErrorKind::UsbScanError
    } else if code == 0xC0010009 {
        XFlashErrorKind::InvalidHSession
    } else if code == 0xC001000A {
        XFlashErrorKind::InvalidSession
    } else if code == 0xC001000B {
        XFlashErrorKind::InvalidStage
    } else if code == 0xC001000C {
        XFlashErrorKind::NotImplemented
    } else if code == 0xC001000D {
        XFlashErrorKind::FileNotFound
    } else if code == 0xC001000E {
        XFlashErrorKind::OpenFileError
    } else if code == 0xC001000F {
        XFlashErrorKind::WriteFileError
    } else if code == 0xC0010010 {
        XFlashErrorKind::ReadFileError
    } else if code == 0xC0010011 {
        XFlashErrorKind::CreateFileErrorOrUnsupportedVersion
    } else if code == 0xC0020001 {
        XFlashErrorKind::RomInfoNotFound
    } else if code == 0xC0020002 {
        XFlashErrorKind::CustNameNotFound
    } else if code == 0xC0020003 {
        XFlashErrorKind::DeviceNotSupported
    } else if code == 0xC0020004 {
        XFlashErrorKind::DlForbidden
    } else if code == 0xC0020005 {
        XFlashErrorKind::ImgTooLarge
    } else if code == 0xC0020006 {
        XFlashErrorKind::PlVerifyFailed
    } else if code == 0xC0020007 {
        XFlashErrorKind::ImageVerifyFailed
    } else if code == 0xC0020008 {
        XFlashErrorKind::HashOperationFailed
    } else if code == 0xC0020009 {
        XFlashErrorKind::HashBindingCheckFailed
    } else if code == 0xC002000A {
        XFlashErrorKind::InvalidBuf
    } else if code == 0xC002000B {
        XFlashErrorKind::BindingHashNotAvailable
    } else if code == 0xC002000C {
        XFlashErrorKind::WriteDataNotAllowed
    } else if code == 0xC002000D {
        XFlashErrorKind::FormatNotAllowed
    } else if code == 0xC002000E {
        XFlashErrorKind::Sv5PubKeyAuthFailed
    } else if code == 0xC002000F {
        XFlashErrorKind::Sv5HashVerifyFailed
    } else if code == 0xC0020010 {
        XFlashErrorKind::Sv5RsaOpFailed
    } else if code == 0xC0020011 {
        XFlashErrorKind::Sv5RsaVerifyFailed
    } else if code == 0xC0020012 {
        XFlashErrorKind::Sv5GfhNotFound
    } else if code == 0xC0020013 {
        XFlashErrorKind::Cert1Invalid
    } else if code == 0xC0020014 {
        XFlashErrorKind::Cert2Invalid
    } else if code == 0xC0020015 {
        XFlashErrorKind::ImghdrInvalid
    } else if code == 0xC0020016 {
        XFlashErrorKind::SigSizeInvalid
    } else if code == 0xC0020017 {
        XFlashErrorKind::RsaPssOpFailed
    } else if code == 0xC0020018 {
        XFlashErrorKind::CertAuthFailed
    } else if code == 0xC0020019 {
        XFlashErrorKind::PubKeyAuthMismatchNSize
    } else if code == 0xC002001A {
        XFlashErrorKind::PubKeyAuthMismatchESize
    } else if code == 0xC002001B {
        XFlashErrorKind::PubKeyAuthMismatchN
    } else if code == 0xC002001C {
        XFlashErrorKind::PubKeyAuthMismatchE
    } else if code == 0xC002001D {
        XFlashErrorKind::PubKeyAuthMismatchHash
    } else if code == 0xC002001E {
        XFlashErrorKind::CertObjNotFound
    } else if code == 0xC002001F {
        XFlashErrorKind::CertOidNotFound
    } else if code == 0xC0020020 {
        XFlashErrorKind::CertOutOfRange
    } else if code == 0xC0020021 {
        XFlashErrorKind::OidDoesntMatch
    } else if code == 0xC0020022 {
        XFlashErrorKind::LengthDoesntMatch
    } else if code == 0xC0020023 {
        XFlashErrorKind::Asn1UnknownOp
    } else if code == 0xC0020024 {
        XFlashErrorKind::OidIndexOutOfRange
    } else if code == 0xC0020025 {
        XFlashErrorKind::OidTooLarge
    } else if code == 0xC0020026 {
        XFlashErrorKind::PubKeySizeMismatch
    } else if code == 0xC0020027 {
        XFlashErrorKind::SwidMismatch
    } else if code == 0xC0020028 {
        XFlashErrorKind::HashSizeMismatch
    } else if code == 0xC0020029 {
        XFlashErrorKind::ImghdrTypeMismatch
    } else if code == 0xC002002A {
        XFlashErrorKind::ImgTypeMismatch
    } else if code == 0xC002002B {
        XFlashErrorKind::ImghdrHashVerifyFailed
    } else if code == 0xC002002C {
        XFlashErrorKind::ImgHashVerifyFailed
    } else if code == 0xC002002D {
        XFlashErrorKind::AntiRollbackViolation
    } else if code == 0xC002002E {
        XFlashErrorKind::SeccfgNotFound
    } else if code == 0xC002002F {
        XFlashErrorKind::SeccfgMagicIncorrect
    } else if code == 0xC0020030 {
        XFlashErrorKind::SeccfgInvalid
    } else if code == 0xC0020031 {
        XFlashErrorKind::CipherModeInvalid
    } else if code == 0xC0020032 {
        XFlashErrorKind::CipherKeyInvalid
    } else if code == 0xC0020033 {
        XFlashErrorKind::CipherDataUnaligned
    } else if code == 0xC0020034 {
        XFlashErrorKind::GfhFileInfoNotFound
    } else if code == 0xC0020035 {
        XFlashErrorKind::GfhAntiCloneNotFound
    } else if code == 0xC0020036 {
        XFlashErrorKind::GfhSecCfgNotFound
    } else if code == 0xC0020037 {
        XFlashErrorKind::UnsupportedSourceType
    } else if code == 0xC0020038 {
        XFlashErrorKind::CustNameMismatch
    } else if code == 0xC0020039 {
        XFlashErrorKind::InvalidAddress
    } else if code == 0xC0020040 {
        XFlashErrorKind::CertificateVersionNotSynced
    } else if code == 0xC0020041 {
        XFlashErrorKind::SignatureNotSynced
    } else if code == 0xC0020042 {
        XFlashErrorKind::ExtAllInOneSignatureRejected
    } else if code == 0xC0020043 {
        XFlashErrorKind::ExtAllInOneSignatureMissing
    } else if code == 0xC0020044 {
        XFlashErrorKind::CommKeyIsNotSet
    } else if code == 0xC0020045 {
        XFlashErrorKind::DevInfoCheckFailed
    } else if code == 0xC0020046 {
        XFlashErrorKind::BootimgCountOverflow
    } else if code == 0xC0020047 {
        XFlashErrorKind::SignatureNotFound
    } else if code == 0xC0020048 {
        XFlashErrorKind::BootimgSpecialHandle
    } else if code == 0xC0020049 {
        XFlashErrorKind::RemoteSecurityPolicyDisabled
    } else if code == 0xC002004A {
        XFlashErrorKind::RsaOaepFailed
    } else if code == 0xC002004B {
        XFlashErrorKind::InsufficientBuffer2
    } else if code == 0xC002004C {
        XFlashErrorKind::DaAntiRollbackError
    } else if code == 0xC002004D {
        XFlashErrorKind::GetOtpValueFailed
    } else if code == 0xC002004E {
        XFlashErrorKind::InvalidUnitSize
    } else if code == 0xC002004F {
        XFlashErrorKind::InvalidGroupIdx
    } else if code == 0xC0020050 {
        XFlashErrorKind::ImgVersionOverflow
    } else if code == 0xC0020051 {
        XFlashErrorKind::OtpTableNotInitialized
    } else if code == 0xC0020052 {
        XFlashErrorKind::InvalidPartitionName
    } else if code == 0xC0020053 {
        XFlashErrorKind::DaVersionAntiRollbackError
    } else if code == 0xC0020054 {
        XFlashErrorKind::InvalidMsgSize
    } else if code == 0xC0020055 {
        XFlashErrorKind::SecurityLevelUnsupported
    } else if code == 0xC0020056 {
        XFlashErrorKind::SecurityLevelMismatch
    } else if code == 0xC0020057 {
        XFlashErrorKind::FaultInjectionError
    } else if code == 0xC0020058 {
        XFlashErrorKind::PubKeyHashGroupInvalid
    } else if code == 0xC0020059 {
        XFlashErrorKind::SecurityLevelTooLarge
    } else if code == 0xC002005A {
        XFlashErrorKind::SecurityConfigIsFormatted
    } else if code == 0xC002005B {
        XFlashErrorKind::SecurityConfigUnknownError
    } else if code == 0xC002005C {
        XFlashErrorKind::LockstateSeccfgFailed
    } else if code == 0xC002005D {
        XFlashErrorKind::LockstateCustomFailed
    } else if code == 0xC002005E {
        XFlashErrorKind::LockstateInconsistent
    } else if code == 0xC0030001 {
        XFlashErrorKind::ScatterFileInvalid
    } else if code == 0xC0030002 {
        XFlashErrorKind::DaFileInvalid
    } else if code == 0xC0030003 {
        XFlashErrorKind::DaSelectionError
    } else if code == 0xC0030004 {
        XFlashErrorKind::PreloaderInvalid
    } else if code == 0xC0030005 {
        XFlashErrorKind::EmiHdrInvalid
    } else if code == 0xC0030006 {
        XFlashErrorKind::StorageMismatch
    } else if code == 0xC0030007 {
        XFlashErrorKind::InvalidParameters
    } else if code == 0xC0030008 {
        XFlashErrorKind::InvalidGpt
    } else if code == 0xC0030009 {
        XFlashErrorKind::InvalidPmt
    } else if code == 0xC003000A {
        XFlashErrorKind::LayoutChanged
    } else if code == 0xC003000B {
        XFlashErrorKind::InvalidFormatParam
    } else if code == 0xC003000C {
        XFlashErrorKind::UnknownStorageSectionType
    } else if code == 0xC003000D {
        XFlashErrorKind::UnknownScatterField
    } else if code == 0xC003000E {
        XFlashErrorKind::PartitionTblDoesntExist
    } else if code == 0xC003000F {
        XFlashErrorKind::ScatterHwChipIdMismatch
    } else if code == 0xC0030010 {
        XFlashErrorKind::SecCertFileNotFound
    } else if code == 0xC0030011 {
        XFlashErrorKind::SecAuthFileNotFound
    } else if code == 0xC0030012 {
        XFlashErrorKind::SecAuthFileNeeded
    } else if code == 0xC0030013 {
        XFlashErrorKind::EmiContainerFileNotFound
    } else if code == 0xC0030014 {
        XFlashErrorKind::ScatterFileNotFound
    } else if code == 0xC0030015 {
        XFlashErrorKind::XmlFileOpError
    } else if code == 0xC0030016 {
        XFlashErrorKind::UnsupportedPageSize
    } else if code == 0xC0030017 {
        XFlashErrorKind::EmiInfoLengthOffsetInvalid
    } else if code == 0xC0030018 {
        XFlashErrorKind::EmiInfoLengthInvalid
    } else if code == 0xC0040001 {
        XFlashErrorKind::UnsupportedOperation
    } else if code == 0xC0040002 {
        XFlashErrorKind::ThreadError
    } else if code == 0xC0040003 {
        XFlashErrorKind::ChecksumError
    } else if code == 0xC0040004 {
        XFlashErrorKind::UnknownSparse
    } else if code == 0xC0040005 {
        XFlashErrorKind::UnknownSparseChunkType
    } else if code == 0xC0040006 {
        XFlashErrorKind::PartitionNotFound
    } else if code == 0xC0040007 {
        XFlashErrorKind::ReadParttblFailed
    } else if code == 0xC0040008 {
        XFlashErrorKind::ExceededMaxPartitionNumber
    } else if code == 0xC0040009 {
        XFlashErrorKind::UnknownStorageType
    } else if code == 0xC004000A {
        XFlashErrorKind::DramTestFailed
    } else if code == 0xC004000B {
        XFlashErrorKind::ExceedAvailableRange
    } else if code == 0xC004000C {
        XFlashErrorKind::WriteSparseImageFailed
    } else if code == 0xC0040030 {
        XFlashErrorKind::MmcError
    } else if code == 0xC0040040 {
        XFlashErrorKind::NandError
    } else if code == 0xC0040041 {
        XFlashErrorKind::NandInProgress
    } else if code == 0xC0040042 {
        XFlashErrorKind::NandTimeout
    } else if code == 0xC0040043 {
        XFlashErrorKind::NandBadBlock
    } else if code == 0xC0040044 {
        XFlashErrorKind::NandEraseFailed
    } else if code == 0xC0040045 {
        XFlashErrorKind::NandPageProgramFailed
    } else if code == 0xC0040050 {
        XFlashErrorKind::EmiSettingVersionError
    } else if code == 0xC0040060 {
        XFlashErrorKind::UfsError
    } else if code == 0xC0040100 {
        XFlashErrorKind::DaOtpNotSupported
    } else if code == 0xC0040102 {
        XFlashErrorKind::DaOtpLockFailed
    } else if code == 0xC0040200 {
        XFlashErrorKind::EfuseUnknownError
    } else if code == 0xC0040201 {
        XFlashErrorKind::EfuseWriteTimeoutWithoutVerify
    } else if code == 0xC0040202 {
        XFlashErrorKind::EfuseBlown
    } else if code == 0xC0040203 {
        XFlashErrorKind::EfuseRevertBit
    } else if code == 0xC0040204 {
        XFlashErrorKind::EfuseBlownPartly
    } else if code == 0xC0040205 {
        XFlashErrorKind::EfuseInvalidArgument
    } else if code == 0xC0040206 {
        XFlashErrorKind::EfuseValueIsNotZero
    } else if code == 0xC0040207 {
        XFlashErrorKind::EfuseBlownIncorrectData
    } else if code == 0xC0040208 {
        XFlashErrorKind::EfuseBroken
    } else if code == 0xC0040209 {
        XFlashErrorKind::EfuseBlowError
    } else if code == 0xC004020A {
        XFlashErrorKind::EfuseUnlockBpkeyError
    } else if code == 0xC004020B {
        XFlashErrorKind::EfuseCreateListError
    } else if code == 0xC004020C {
        XFlashErrorKind::EfuseWriteRegisterError
    } else if code == 0xC004020D {
        XFlashErrorKind::EfusePaddingTypeMismatch
    } else if code == 0xC0050001 {
        XFlashErrorKind::DeviceCtrlException
    } else if code == 0xC0050002 {
        XFlashErrorKind::ShutdownCmdException
    } else if code == 0xC0050003 {
        XFlashErrorKind::DownloadException
    } else if code == 0xC0050004 {
        XFlashErrorKind::UploadException
    } else if code == 0xC0050005 {
        XFlashErrorKind::ExtRamException
    } else if code == 0xC0050006 {
        XFlashErrorKind::NotifySwitchUsbSpeedException
    } else if code == 0xC0050007 {
        XFlashErrorKind::ReadDataException
    } else if code == 0xC0050008 {
        XFlashErrorKind::WriteDataException
    } else if code == 0xC0050009 {
        XFlashErrorKind::FormatException
    } else if code == 0xC005000A {
        XFlashErrorKind::OtpOperationException
    } else if code == 0xC005000B {
        XFlashErrorKind::SwitchUsbException
    } else if code == 0xC005000C {
        XFlashErrorKind::WriteEfuseException
    } else if code == 0xC005000D {
        XFlashErrorKind::ReadEfuseException
    } else if code == 0xC0060001 {
        XFlashErrorKind::BromStartCmdFailed
    } else if code == 0xC0060002 {
        XFlashErrorKind::BromGetBbchipHwVerFailed
    } else if code == 0xC0060003 {
        XFlashErrorKind::BromCmdSendDaFailed
    } else if code == 0xC0060004 {
        XFlashErrorKind::BromCmdJumpDaFailed
    } else if code == 0xC0060005 {
        XFlashErrorKind::BromCmdFailed
    } else if code == 0xC0060006 {
        XFlashErrorKind::BromStageCallbackFailed
    } else if code == 0xC0070001 {
        XFlashErrorKind::DaVersionMismatch
    } else if code == 0xC0070002 {
        XFlashErrorKind::DaNotFound
    } else if code == 0xC0070003 {
        XFlashErrorKind::DaSectionNotFound
    } else if code == 0xC0070004 {
        XFlashErrorKind::DaHashMismatch
    } else if code == 0xC0070005 {
        XFlashErrorKind::DaExceedMaxNum
    } else {
        XFlashErrorKind::Unknown
    }
}

/// Every known kind decodes back from its own code, its severity field reads
/// "error", and its domain field is one of the eight documented domains.
#[verifier::rlimit(100)]
pub proof fn lemma_xflash_code_layout(k: XFlashErrorKind)
    ensures
        k != XFlashErrorKind::Unknown ==> spec_kind_of_code(k.spec_code()) == k,
        k != XFlashErrorKind::Unknown ==> spec_severity_of(k.spec_code()) == 3,
        k != XFlashErrorKind::Unknown ==> 1 <= spec_domain_of(k.spec_code()) <= 8,
{
    match k {
        XFlashErrorKind::Error => {
            assert(spec_kind_of_code(0xC0010001) == XFlashErrorKind::Error);
        },
        XFlashErrorKind::Abort => {
            assert(spec_kind_of_code(0xC0010002) == XFlashErrorKind::Abort);
        },
        XFlashErrorKind::UnsupportedCommand => {
            assert(spec_kind_of_code(0xC0010003) == XFlashErrorKind::UnsupportedCommand);
        },
        XFlashErrorKind::UnsupportedCtrlCode => {
            assert(spec_kind_of_code(0xC0010004) == XFlashErrorKind::UnsupportedCtrlCode);
        },
        XFlashErrorKind::ProtocolError => {
            assert(spec_kind_of_code(0xC0010005) == XFlashErrorKind::ProtocolError);
        },
        XFlashErrorKind::ProtocolBufferOverflow => {
            assert(spec_kind_of_code(0xC0010006) == XFlashErrorKind::ProtocolBufferOverflow);
        },
        XFlashErrorKind::InsufficientBuffer => {
            assert(spec_kind_of_code(0xC0010007) == XFlashErrorKind::InsufficientBuffer);
        },
        XFlashErrorKind::UsbScanError => {
            assert(spec_kind_of_code(0xC0010008) == XFlashErrorKind::UsbScanError);
        },
        XFlashErrorKind::InvalidHSession => {
            assert(spec_kind_of_code(0xC0010009) == XFlashErrorKind::InvalidHSession);
        },
        XFlashErrorKind::InvalidSession => {
            assert(spec_kind_of_code(0xC001000A) == XFlashErrorKind::InvalidSession);
        },
        XFlashErrorKind::InvalidStage => {
            assert(spec_kind_of_code(0xC001000B) == XFlashErrorKind::InvalidStage);
        },
        XFlashErrorKind::NotImplemented => {
            assert(spec_kind_of_code(0xC001000C) == XFlashErrorKind::NotImplemented);
        },
        XFlashErrorKind::FileNotFound => {
            assert(spec_kind_of_code(0xC001000D) == XFlashErrorKind::FileNotFound);
        },
        XFlashErrorKind::OpenFileError => {
            assert(spec_kind_of_code(0xC001000E) == XFlashErrorKind::OpenFileError);
        },
        XFlashErrorKind::WriteFileError => {
            assert(spec_kind_of_code(0xC001000F) == XFlashErrorKind::WriteFileError);
        },
        XFlashErrorKind::ReadFileError => {
            assert(spec_kind_of_code(0xC0010010) == XFlashErrorKind::ReadFileError);
        },
        XFlashErrorKind::CreateFileErrorOrUnsupportedVersion => {
            assert(spec_kind_of_code(0xC0010011) == XFlashErrorKind::CreateFileErrorOrUnsupportedVersion);
        },
        XFlashErrorKind::RomInfoNotFound => {
            assert(spec_kind_of_code(0xC0020001) == XFlashErrorKind::RomInfoNotFound);
        },
        XFlashErrorKind::CustNameNotFound => {
            assert(spec_kind_of_code(0xC0020002) == XFlashErrorKind::CustNameNotFound);
        },
        XFlashErrorKind::DeviceNotSupported => {
            assert(spec_kind_of_code(0xC0020003) == XFlashErrorKind::DeviceNotSupported);
        },
        XFlashErrorKind::DlForbidden => {
            assert(spec_kind_of_code(0xC0020004) == XFlashErrorKind::DlForbidden);
        },
        XFlashErrorKind::ImgTooLarge => {
            assert(spec_kind_of_code(0xC0020005) == XFlashErrorKind::ImgTooLarge);
        },
        XFlashErrorKind::PlVerifyFailed => {
            assert(spec_kind_of_code(0xC0020006) == XFlashErrorKind::PlVerifyFailed);
        },
        XFlashErrorKind::ImageVerifyFailed => {
            assert(spec_kind_of_code(0xC0020007) == XFlashErrorKind::ImageVerifyFailed);
        },
        XFlashErrorKind::HashOperationFailed => {
            assert(spec_kind_of_code(0xC0020008) == XFlashErrorKind::HashOperationFailed);
        },
        XFlashErrorKind::HashBindingCheckFailed => {
            assert(spec_kind_of_code(0xC0020009) == XFlashErrorKind::HashBindingCheckFailed);
        },
        XFlashErrorKind::InvalidBuf => {
            assert(spec_kind_of_code(0xC002000A) == XFlashErrorKind::InvalidBuf);
        },
        XFlashErrorKind::BindingHashNotAvailable => {
            assert(spec_kind_of_code(0xC002000B) == XFlashErrorKind::BindingHashNotAvailable);
        },
        XFlashErrorKind::WriteDataNotAllowed => {
            assert(spec_kind_of_code(0xC002000C) == XFlashErrorKind::WriteDataNotAllowed);
        },
        XFlashErrorKind::FormatNotAllowed => {
            assert(spec_kind_of_code(0xC002000D) == XFlashErrorKind::FormatNotAllowed);
        },
        XFlashErrorKind::Sv5PubKeyAuthFailed => {
            assert(spec_kind_of_code(0xC002000E) == XFlashErrorKind::Sv5PubKeyAuthFailed);
        },
        XFlashErrorKind::Sv5HashVerifyFailed => {
            assert(spec_kind_of_code(0xC002000F) == XFlashErrorKind::Sv5HashVerifyFailed);
        },
        XFlashErrorKind::Sv5RsaOpFailed => {
            assert(spec_kind_of_code(0xC0020010) == XFlashErrorKind::Sv5RsaOpFailed);
        },
        XFlashErrorKind::Sv5RsaVerifyFailed => {
            assert(spec_kind_of_code(0xC0020011) == XFlashErrorKind::Sv5RsaVerifyFailed);
        },
        XFlashErrorKind::Sv5GfhNotFound => {
            assert(spec_kind_of_code(0xC0020012) == XFlashErrorKind::Sv5GfhNotFound);
        },
        XFlashErrorKind::Cert1Invalid => {
            assert(spec_kind_of_code(0xC0020013) == XFlashErrorKind::Cert1Invalid);
        },
        XFlashErrorKind::Cert2Invalid => {
            assert(spec_kind_of_code(0xC0020014) == XFlashErrorKind::Cert2Invalid);
        },
        XFlashErrorKind::ImghdrInvalid => {
            assert(spec_kind_of_code(0xC0020015) == XFlashErrorKind::ImghdrInvalid);
        },
        XFlashErrorKind::SigSizeInvalid => {
            assert(spec_kind_of_code(0xC0020016) == XFlashErrorKind::SigSizeInvalid);
        },
        XFlashErrorKind::RsaPssOpFailed => {
            assert(spec_kind_of_code(0xC0020017) == XFlashErrorKind::RsaPssOpFailed);
        },
        XFlashErrorKind::CertAuthFailed => {
            assert(spec_kind_of_code(0xC0020018) == XFlashErrorKind::CertAuthFailed);
        },
        XFlashErrorKind::PubKeyAuthMismatchNSize => {
            assert(spec_kind_of_code(0xC0020019) == XFlashErrorKind::PubKeyAuthMismatchNSize);
        },
        XFlashErrorKind::PubKeyAuthMismatchESize => {
            assert(spec_kind_of_code(0xC002001A) == XFlashErrorKind::PubKeyAuthMismatchESize);
        },
        XFlashErrorKind::PubKeyAuthMismatchN => {
            assert(spec_kind_of_code(0xC002001B) == XFlashErrorKind::PubKeyAuthMismatchN);
        },
        XFlashErrorKind::PubKeyAuthMismatchE => {
            assert(spec_kind_of_code(0xC002001C) == XFlashErrorKind::PubKeyAuthMismatchE);
        },
        XFlashErrorKind::PubKeyAuthMismatchHash => {
            assert(spec_kind_of_code(0xC002001D) == XFlashErrorKind::PubKeyAuthMismatchHash);
        },
        XFlashErrorKind::CertObjNotFound => {
            assert(spec_kind_of_code(0xC002001E) == XFlashErrorKind::CertObjNotFound);
        },
        XFlashErrorKind::CertOidNotFound => {
            assert(spec_kind_of_code(0xC002001F) == XFlashErrorKind::CertOidNotFound);
        },
        XFlashErrorKind::CertOutOfRange => {
            assert(spec_kind_of_code(0xC0020020) == XFlashErrorKind::CertOutOfRange);
        },
        XFlashErrorKind::OidDoesntMatch => {
            assert(spec_kind_of_code(0xC0020021) == XFlashErrorKind::OidDoesntMatch);
        },
        XFlashErrorKind::LengthDoesntMatch => {
            assert(spec_kind_of_code(0xC0020022) == XFlashErrorKind::LengthDoesntMatch);
        },
        XFlashErrorKind::Asn1UnknownOp => {
            assert(spec_kind_of_code(0xC0020023) == XFlashErrorKind::Asn1UnknownOp);
        },
        XFlashErrorKind::OidIndexOutOfRange => {
            assert(spec_kind_of_code(0xC0020024) == XFlashErrorKind::OidIndexOutOfRange);
        },
        XFlashErrorKind::OidTooLarge => {
            assert(spec_kind_of_code(0xC0020025) == XFlashErrorKind::OidTooLarge);
        },
        XFlashErrorKind::PubKeySizeMismatch => {
            assert(spec_kind_of_code(0xC0020026) == XFlashErrorKind::PubKeySizeMismatch);
        },
        XFlashErrorKind::SwidMismatch => {
            assert(spec_kind_of_code(0xC0020027) == XFlashErrorKind::SwidMismatch);
        },
        XFlashErrorKind::HashSizeMismatch => {
            assert(spec_kind_of_code(0xC0020028) == XFlashErrorKind::HashSizeMismatch);
        },
        XFlashErrorKind::ImghdrTypeMismatch => {
            assert(spec_kind_of_code(0xC0020029) == XFlashErrorKind::ImghdrTypeMismatch);
        },
        XFlashErrorKind::ImgTypeMismatch => {
            assert(spec_kind_of_code(0xC002002A) == XFlashErrorKind::ImgTypeMismatch);
        },
        XFlashErrorKind::ImghdrHashVerifyFailed => {
            assert(spec_kind_of_code(0xC002002B) == XFlashErrorKind::ImghdrHashVerifyFailed);
        },
        XFlashErrorKind::ImgHashVerifyFailed => {
            assert(spec_kind_of_code(0xC002002C) == XFlashErrorKind::ImgHashVerifyFailed);
        },
        XFlashErrorKind::AntiRollbackViolation => {
            assert(spec_kind_of_code(0xC002002D) == XFlashErrorKind::AntiRollbackViolation);
        },
        XFlashErrorKind::SeccfgNotFound => {
            assert(spec_kind_of_code(0xC002002E) == XFlashErrorKind::SeccfgNotFound);
        },
        XFlashErrorKind::SeccfgMagicIncorrect => {
            assert(spec_kind_of_code(0xC002002F) == XFlashErrorKind::SeccfgMagicIncorrect);
        },
        XFlashErrorKind::SeccfgInvalid => {
            assert(spec_kind_of_code(0xC0020030) == XFlashErrorKind::SeccfgInvalid);
        },
        XFlashErrorKind::CipherModeInvalid => {
            assert(spec_kind_of_code(0xC0020031) == XFlashErrorKind::CipherModeInvalid);
        },
        XFlashErrorKind::CipherKeyInvalid => {
            assert(spec_kind_of_code(0xC0020032) == XFlashErrorKind::CipherKeyInvalid);
        },
        XFlashErrorKind::CipherDataUnaligned => {
            assert(spec_kind_of_code(0xC0020033) == XFlashErrorKind::CipherDataUnaligned);
        },
        XFlashErrorKind::GfhFileInfoNotFound => {
            assert(spec_kind_of_code(0xC0020034) == XFlashErrorKind::GfhFileInfoNotFound);
        },
        XFlashErrorKind::GfhAntiCloneNotFound => {
            assert(spec_kind_of_code(0xC0020035) == XFlashErrorKind::GfhAntiCloneNotFound);
        },
        XFlashErrorKind::GfhSecCfgNotFound => {
            assert(spec_kind_of_code(0xC0020036) == XFlashErrorKind::GfhSecCfgNotFound);
        },
        XFlashErrorKind::UnsupportedSourceType => {
            assert(spec_kind_of_code(0xC0020037) == XFlashErrorKind::UnsupportedSourceType);
        },
        XFlashErrorKind::CustNameMismatch => {
            assert(spec_kind_of_code(0xC0020038) == XFlashErrorKind::CustNameMismatch);
        },
        XFlashErrorKind::InvalidAddress => {
            assert(spec_kind_of_code(0xC0020039) == XFlashErrorKind::InvalidAddress);
        },
        XFlashErrorKind::CertificateVersionNotSynced => {
            assert(spec_kind_of_code(0xC0020040) == XFlashErrorKind::CertificateVersionNotSynced);
        },
        XFlashErrorKind::SignatureNotSynced => {
            assert(spec_kind_of_code(0xC0020041) == XFlashErrorKind::SignatureNotSynced);
        },
        XFlashErrorKind::ExtAllInOneSignatureRejected => {
            assert(spec_kind_of_code(0xC0020042) == XFlashErrorKind::ExtAllInOneSignatureRejected);
        },
        XFlashErrorKind::ExtAllInOneSignatureMissing => {
            assert(spec_kind_of_code(0xC0020043) == XFlashErrorKind::ExtAllInOneSignatureMissing);
        },
        XFlashErrorKind::CommKeyIsNotSet => {
            assert(spec_kind_of_code(0xC0020044) == XFlashErrorKind::CommKeyIsNotSet);
        },
        XFlashErrorKind::DevInfoCheckFailed => {
            assert(spec_kind_of_code(0xC0020045) == XFlashErrorKind::DevInfoCheckFailed);
        },
        XFlashErrorKind::BootimgCountOverflow => {
            assert(spec_kind_of_code(0xC0020046) == XFlashErrorKind::BootimgCountOverflow);
        },
        XFlashErrorKind::SignatureNotFound => {
            assert(spec_kind_of_code(0xC0020047) == XFlashErrorKind::SignatureNotFound);
        },
        XFlashErrorKind::BootimgSpecialHandle => {
            assert(spec_kind_of_code(0xC0020048) == XFlashErrorKind::BootimgSpecialHandle);
        },
        XFlashErrorKind::RemoteSecurityPolicyDisabled => {
            assert(spec_kind_of_code(0xC0020049) == XFlashErrorKind::RemoteSecurityPolicyDisabled);
        },
        XFlashErrorKind::RsaOaepFailed => {
            assert(spec_kind_of_code(0xC002004A) == XFlashErrorKind::RsaOaepFailed);
        },
        XFlashErrorKind::InsufficientBuffer2 => {
            assert(spec_kind_of_code(0xC002004B) == XFlashErrorKind::InsufficientBuffer2);
        },
        XFlashErrorKind::DaAntiRollbackError => {
            assert(spec_kind_of_code(0xC002004C) == XFlashErrorKind::DaAntiRollbackError);
        },
        XFlashErrorKind::GetOtpValueFailed => {
            assert(spec_kind_of_code(0xC002004D) == XFlashErrorKind::GetOtpValueFailed);
        },
        XFlashErrorKind::InvalidUnitSize => {
            assert(spec_kind_of_code(0xC002004E) == XFlashErrorKind::InvalidUnitSize);
        },
        XFlashErrorKind::InvalidGroupIdx => {
            assert(spec_kind_of_code(0xC002004F) == XFlashErrorKind::InvalidGroupIdx);
        },
        XFlashErrorKind::ImgVersionOverflow => {
            assert(spec_kind_of_code(0xC0020050) == XFlashErrorKind::ImgVersionOverflow);
        },
        XFlashErrorKind::OtpTableNotInitialized => {
            assert(spec_kind_of_code(0xC0020051) == XFlashErrorKind::OtpTableNotInitialized);
        },
        XFlashErrorKind::InvalidPartitionName => {
            assert(spec_kind_of_code(0xC0020052) == XFlashErrorKind::InvalidPartitionName);
        },
        XFlashErrorKind::DaVersionAntiRollbackError => {
            assert(spec_kind_of_code(0xC0020053) == XFlashErrorKind::DaVersionAntiRollbackError);
        },
        XFlashErrorKind::InvalidMsgSize => {
            assert(spec_kind_of_code(0xC0020054) == XFlashErrorKind::InvalidMsgSize);
        },
        XFlashErrorKind::SecurityLevelUnsupported => {
            assert(spec_kind_of_code(0xC0020055) == XFlashErrorKind::SecurityLevelUnsupported);
        },
        XFlashErrorKind::SecurityLevelMismatch => {
            assert(spec_kind_of_code(0xC0020056) == XFlashErrorKind::SecurityLevelMismatch);
        },
        XFlashErrorKind::FaultInjectionError => {
            assert(spec_kind_of_code(0xC0020057) == XFlashErrorKind::FaultInjectionError);
        },
        XFlashErrorKind::PubKeyHashGroupInvalid => {
            assert(spec_kind_of_code(0xC0020058) == XFlashErrorKind::PubKeyHashGroupInvalid);
        },
        XFlashErrorKind::SecurityLevelTooLarge => {
            assert(spec_kind_of_code(0xC0020059) == XFlashErrorKind::SecurityLevelTooLarge);
        },
        XFlashErrorKind::SecurityConfigIsFormatted => {
            assert(spec_kind_of_code(0xC002005A) == XFlashErrorKind::SecurityConfigIsFormatted);
        },
        XFlashErrorKind::SecurityConfigUnknownError => {
            assert(spec_kind_of_code(0xC002005B) == XFlashErrorKind::SecurityConfigUnknownError);
        },
        XFlashErrorKind::LockstateSeccfgFailed => {
            assert(spec_kind_of_code(0xC002005C) == XFlashErrorKind::LockstateSeccfgFailed);
        },
        XFlashErrorKind::LockstateCustomFailed => {
            assert(spec_kind_of_code(0xC002005D) == XFlashErrorKind::LockstateCustomFailed);
        },
        XFlashErrorKind::LockstateInconsistent => {
            assert(spec_kind_of_code(0xC002005E) == XFlashErrorKind::LockstateInconsistent);
        },
        XFlashErrorKind::ScatterFileInvalid => {
            assert(spec_kind_of_code(0xC0030001) == XFlashErrorKind::ScatterFileInvalid);
        },
        XFlashErrorKind::DaFileInvalid => {
            assert(spec_kind_of_code(0xC0030002) == XFlashErrorKind::DaFileInvalid);
        },
        XFlashErrorKind::DaSelectionError => {
            assert(spec_kind_of_code(0xC0030003) == XFlashErrorKind::DaSelectionError);
        },
        XFlashErrorKind::PreloaderInvalid => {
            assert(spec_kind_of_code(0xC0030004) == XFlashErrorKind::PreloaderInvalid);
        },
        XFlashErrorKind::EmiHdrInvalid => {
            assert(spec_kind_of_code(0xC0030005) == XFlashErrorKind::EmiHdrInvalid);
        },
        XFlashErrorKind::StorageMismatch => {
            assert(spec_kind_of_code(0xC0030006) == XFlashErrorKind::StorageMismatch);
        },
        XFlashErrorKind::InvalidParameters => {
            assert(spec_kind_of_code(0xC0030007) == XFlashErrorKind::InvalidParameters);
        },
        XFlashErrorKind::InvalidGpt => {
            assert(spec_kind_of_code(0xC0030008) == XFlashErrorKind::InvalidGpt);
        },
        XFlashErrorKind::InvalidPmt => {
            assert(spec_kind_of_code(0xC0030009) == XFlashErrorKind::InvalidPmt);
        },
        XFlashErrorKind::LayoutChanged => {
            assert(spec_kind_of_code(0xC003000A) == XFlashErrorKind::LayoutChanged);
        },
        XFlashErrorKind::InvalidFormatParam => {
            assert(spec_kind_of_code(0xC003000B) == XFlashErrorKind::InvalidFormatParam);
        },
        XFlashErrorKind::UnknownStorageSectionType => {
            assert(spec_kind_of_code(0xC003000C) == XFlashErrorKind::UnknownStorageSectionType);
        },
        XFlashErrorKind::UnknownScatterField => {
            assert(spec_kind_of_code(0xC003000D) == XFlashErrorKind::UnknownScatterField);
        },
        XFlashErrorKind::PartitionTblDoesntExist => {
            assert(spec_kind_of_code(0xC003000E) == XFlashErrorKind::PartitionTblDoesntExist);
        },
        XFlashErrorKind::ScatterHwChipIdMismatch => {
            assert(spec_kind_of_code(0xC003000F) == XFlashErrorKind::ScatterHwChipIdMismatch);
        },
        XFlashErrorKind::SecCertFileNotFound => {
            assert(spec_kind_of_code(0xC0030010) == XFlashErrorKind::SecCertFileNotFound);
        },
        XFlashErrorKind::SecAuthFileNotFound => {
            assert(spec_kind_of_code(0xC0030011) == XFlashErrorKind::SecAuthFileNotFound);
        },
        XFlashErrorKind::SecAuthFileNeeded => {
            assert(spec_kind_of_code(0xC0030012) == XFlashErrorKind::SecAuthFileNeeded);
        },
        XFlashErrorKind::EmiContainerFileNotFound => {
            assert(spec_kind_of_code(0xC0030013) == XFlashErrorKind::EmiContainerFileNotFound);
        },
        XFlashErrorKind::ScatterFileNotFound => {
            assert(spec_kind_of_code(0xC0030014) == XFlashErrorKind::ScatterFileNotFound);
        },
        XFlashErrorKind::XmlFileOpError => {
            assert(spec_kind_of_code(0xC0030015) == XFlashErrorKind::XmlFileOpError);
        },
        XFlashErrorKind::UnsupportedPageSize => {
            assert(spec_kind_of_code(0xC0030016) == XFlashErrorKind::UnsupportedPageSize);
        },
        XFlashErrorKind::EmiInfoLengthOffsetInvalid => {
            assert(spec_kind_of_code(0xC0030017) == XFlashErrorKind::EmiInfoLengthOffsetInvalid);
        },
        XFlashErrorKind::EmiInfoLengthInvalid => {
            assert(spec_kind_of_code(0xC0030018) == XFlashErrorKind::EmiInfoLengthInvalid);
        },
        XFlashErrorKind::UnsupportedOperation => {
            assert(spec_kind_of_code(0xC0040001) == XFlashErrorKind::UnsupportedOperation);
        },
        XFlashErrorKind::ThreadError => {
            assert(spec_kind_of_code(0xC0040002) == XFlashErrorKind::ThreadError);
        },
        XFlashErrorKind::ChecksumError => {
            assert(spec_kind_of_code(0xC0040003) == XFlashErrorKind::ChecksumError);
        },
        XFlashErrorKind::UnknownSparse => {
            assert(spec_kind_of_code(0xC0040004) == XFlashErrorKind::UnknownSparse);
        },
        XFlashErrorKind::UnknownSparseChunkType => {
            assert(spec_kind_of_code(0xC0040005) == XFlashErrorKind::UnknownSparseChunkType);
        },
        XFlashErrorKind::PartitionNotFound => {
            assert(spec_kind_of_code(0xC0040006) == XFlashErrorKind::PartitionNotFound);
        },
        XFlashErrorKind::ReadParttblFailed => {
            assert(spec_kind_of_code(0xC0040007) == XFlashErrorKind::ReadParttblFailed);
        },
        XFlashErrorKind::ExceededMaxPartitionNumber => {
            assert(spec_kind_of_code(0xC0040008) == XFlashErrorKind::ExceededMaxPartitionNumber);
        },
        XFlashErrorKind::UnknownStorageType => {
            assert(spec_kind_of_code(0xC0040009) == XFlashErrorKind::UnknownStorageType);
        },
        XFlashErrorKind::DramTestFailed => {
            assert(spec_kind_of_code(0xC004000A) == XFlashErrorKind::DramTestFailed);
        },
        XFlashErrorKind::ExceedAvailableRange => {
            assert(spec_kind_of_code(0xC004000B) == XFlashErrorKind::ExceedAvailableRange);
        },
        XFlashErrorKind::WriteSparseImageFailed => {
            assert(spec_kind_of_code(0xC004000C) == XFlashErrorKind::WriteSparseImageFailed);
        },
        XFlashErrorKind::MmcError => {
            assert(spec_kind_of_code(0xC0040030) == XFlashErrorKind::MmcError);
        },
        XFlashErrorKind::NandError => {
            assert(spec_kind_of_code(0xC0040040) == XFlashErrorKind::NandError);
        },
        XFlashErrorKind::NandInProgress => {
            assert(spec_kind_of_code(0xC0040041) == XFlashErrorKind::NandInProgress);
        },
        XFlashErrorKind::NandTimeout => {
            assert(spec_kind_of_code(0xC0040042) == XFlashErrorKind::NandTimeout);
        },
        XFlashErrorKind::NandBadBlock => {
            assert(spec_kind_of_code(0xC0040043) == XFlashErrorKind::NandBadBlock);
        },
        XFlashErrorKind::NandEraseFailed => {
            assert(spec_kind_of_code(0xC0040044) == XFlashErrorKind::NandEraseFailed);
        },
        XFlashErrorKind::NandPageProgramFailed => {
            assert(spec_kind_of_code(0xC0040045) == XFlashErrorKind::NandPageProgramFailed);
        },
        XFlashErrorKind::EmiSettingVersionError => {
            assert(spec_kind_of_code(0xC0040050) == XFlashErrorKind::EmiSettingVersionError);
        },
        XFlashErrorKind::UfsError => {
            assert(spec_kind_of_code(0xC0040060) == XFlashErrorKind::UfsError);
        },
        XFlashErrorKind::DaOtpNotSupported => {
            assert(spec_kind_of_code(0xC0040100) == XFlashErrorKind::DaOtpNotSupported);
        },
        XFlashErrorKind::DaOtpLockFailed => {
            assert(spec_kind_of_code(0xC0040102) == XFlashErrorKind::DaOtpLockFailed);
        },
        XFlashErrorKind::EfuseUnknownError => {
            assert(spec_kind_of_code(0xC0040200) == XFlashErrorKind::EfuseUnknownError);
        },
        XFlashErrorKind::EfuseWriteTimeoutWithoutVerify => {
            assert(spec_kind_of_code(0xC0040201) == XFlashErrorKind::EfuseWriteTimeoutWithoutVerify);
        },
        XFlashErrorKind::EfuseBlown => {
            assert(spec_kind_of_code(0xC0040202) == XFlashErrorKind::EfuseBlown);
        },
        XFlashErrorKind::EfuseRevertBit => {
            assert(spec_kind_of_code(0xC0040203) == XFlashErrorKind::EfuseRevertBit);
        },
        XFlashErrorKind::EfuseBlownPartly => {
            assert(spec_kind_of_code(0xC0040204) == XFlashErrorKind::EfuseBlownPartly);
        },
        XFlashErrorKind::EfuseInvalidArgument => {
            assert(spec_kind_of_code(0xC0040205) == XFlashErrorKind::EfuseInvalidArgument);
        },
        XFlashErrorKind::EfuseValueIsNotZero => {
            assert(spec_kind_of_code(0xC0040206) == XFlashErrorKind::EfuseValueIsNotZero);
        },
        XFlashErrorKind::EfuseBlownIncorrectData => {
            assert(spec_kind_of_code(0xC0040207) == XFlashErrorKind::EfuseBlownIncorrectData);
        },
        XFlashErrorKind::EfuseBroken => {
            assert(spec_kind_of_code(0xC0040208) == XFlashErrorKind::EfuseBroken);
        },
        XFlashErrorKind::EfuseBlowError => {
            assert(spec_kind_of_code(0xC0040209) == XFlashErrorKind::EfuseBlowError);
        },
        XFlashErrorKind::EfuseUnlockBpkeyError => {
            assert(spec_kind_of_code(0xC004020A) == XFlashErrorKind::EfuseUnlockBpkeyError);
        },
        XFlashErrorKind::EfuseCreateListError => {
            assert(spec_kind_of_code(0xC004020B) == XFlashErrorKind::EfuseCreateListError);
        },
        XFlashErrorKind::EfuseWriteRegisterError => {
            assert(spec_kind_of_code(0xC004020C) == XFlashErrorKind::EfuseWriteRegisterError);
        },
        XFlashErrorKind::EfusePaddingTypeMismatch => {
            assert(spec_kind_of_code(0xC004020D) == XFlashErrorKind::EfusePaddingTypeMismatch);
        },
        XFlashErrorKind::DeviceCtrlException => {
            assert(spec_kind_of_code(0xC0050001) == XFlashErrorKind::DeviceCtrlException);
        },
        XFlashErrorKind::ShutdownCmdException => {
            assert(spec_kind_of_code(0xC0050002) == XFlashErrorKind::ShutdownCmdException);
        },
        XFlashErrorKind::DownloadException => {
            assert(spec_kind_of_code(0xC0050003) == XFlashErrorKind::DownloadException);
        },
        XFlashErrorKind::UploadException => {
            assert(spec_kind_of_code(0xC0050004) == XFlashErrorKind::UploadException);
        },
        XFlashErrorKind::ExtRamException => {
            assert(spec_kind_of_code(0xC0050005) == XFlashErrorKind::ExtRamException);
        },
        XFlashErrorKind::NotifySwitchUsbSpeedException => {
            assert(spec_kind_of_code(0xC0050006) == XFlashErrorKind::NotifySwitchUsbSpeedException);
        },
        XFlashErrorKind::ReadDataException => {
            assert(spec_kind_of_code(0xC0050007) == XFlashErrorKind::ReadDataException);
        },
        XFlashErrorKind::WriteDataException => {
            assert(spec_kind_of_code(0xC0050008) == XFlashErrorKind::WriteDataException);
        },
        XFlashErrorKind::FormatException => {
            assert(spec_kind_of_code(0xC0050009) == XFlashErrorKind::FormatException);
        },
        XFlashErrorKind::OtpOperationException => {
            assert(spec_kind_of_code(0xC005000A) == XFlashErrorKind::OtpOperationException);
        },
        XFlashErrorKind::SwitchUsbException => {
            assert(spec_kind_of_code(0xC005000B) == XFlashErrorKind::SwitchUsbException);
        },
        XFlashErrorKind::WriteEfuseException => {
            assert(spec_kind_of_code(0xC005000C) == XFlashErrorKind::WriteEfuseException);
        },
        XFlashErrorKind::ReadEfuseException => {
            assert(spec_kind_of_code(0xC005000D) == XFlashErrorKind::ReadEfuseException);
        },
        XFlashErrorKind::BromStartCmdFailed => {
            assert(spec_kind_of_code(0xC0060001) == XFlashErrorKind::BromStartCmdFailed);
        },
        XFlashErrorKind::BromGetBbchipHwVerFailed => {
            assert(spec_kind_of_code(0xC0060002) == XFlashErrorKind::BromGetBbchipHwVerFailed);
        },
        XFlashErrorKind::BromCmdSendDaFailed => {
            assert(spec_kind_of_code(0xC0060003) == XFlashErrorKind::BromCmdSendDaFailed);
        },
        XFlashErrorKind::BromCmdJumpDaFailed => {
            assert(spec_kind_of_code(0xC0060004) == XFlashErrorKind::BromCmdJumpDaFailed);
        },
        XFlashErrorKind::BromCmdFailed => {
            assert(spec_kind_of_code(0xC0060005) == XFlashErrorKind::BromCmdFailed);
        },
        XFlashErrorKind::BromStageCallbackFailed => {
            assert(spec_kind_of_code(0xC0060006) == XFlashErrorKind::BromStageCallbackFailed);
        },
        XFlashErrorKind::DaVersionMismatch => {
            assert(spec_kind_of_code(0xC0070001) == XFlashErrorKind::DaVersionMismatch);
        },
        XFlashErrorKind::DaNotFound => {
            assert(spec_kind_of_code(0xC0070002) == XFlashErrorKind::DaNotFound);
        },
        XFlashErrorKind::DaSectionNotFound => {
            assert(spec_kind_of_code(0xC0070003) == XFlashErrorKind::DaSectionNotFound);
        },
        XFlashErrorKind::DaHashMismatch => {
            assert(spec_kind_of_code(0xC0070004) == XFlashErrorKind::DaHashMismatch);
        },
        XFlashErrorKind::DaExceedMaxNum => {
            assert(spec_kind_of_code(0xC0070005) == XFlashErrorKind::DaExceedMaxNum);
        },
        XFlashErrorKind::Unknown => {},
    }
}

/// An XFlash status code together with the known kind it decodes to.
#[derive(Debug)]
pub struct XFlashError {
    pub kind: XFlashErrorKind,
    pub code: u32,
}

impl XFlashError {
    /// Decodes a raw status code: the kind is the matching known code or
    /// `Unknown`, and the raw value is kept as-is.
    pub fn from_code(code: u32) -> (r: XFlashError)
        ensures
            r.code == code,
            r.kind == spec_kind_of_code(code),
    {
        let kind = kind_of_code(code);
        XFlashError { kind, code }
    }

    /// Severity field of the raw code: the top two bits.
    pub fn severity(&self) -> (r: u32)
        ensures
            r == spec_severity_of(self.code),
    {
        self.code / 0x40000000
    }

    /// Domain field of the raw code: bits 16 to 23.
    pub fn domain(&self) -> (r: u32)
        ensures
            r == spec_domain_of(self.code),
    {
        (self.code / 0x10000) % 0x100
    }

    /// Case field of the raw code: the low 16 bits.
    pub fn case_code(&self) -> (r: u32)
        ensures
            r == spec_case_of(self.code),
    {
        self.code % 0x10000
    }
}

fn kind_of_code(code: u32) -> (r: XFlashErrorKind)
    ensures
        r == spec_kind_of_code(code),
{
    if code == 0xC0010001 {
        XFlashErrorKind::Error
    } else if code == 0xC0010002 {
        XFlashErrorKind::Abort
    } else if code == 0xC0010003 {
        XFlashErrorKind::UnsupportedCommand
    } else if code == 0xC0010004 {
        XFlashErrorKind::UnsupportedCtrlCode
    } else if code == 0xC0010005 {
        XFlashErrorKind::ProtocolError
    } else if code == 0xC0010006 {
        XFlashErrorKind::ProtocolBufferOverflow
    } else if code == 0xC0010007 {
        XFlashErrorKind::InsufficientBuffer
    } else if code == 0xC0010008 {
        XFlashErrorKind::UsbScanError
    } else if code == 0xC0010009 {
        XFlashErrorKind::InvalidHSession
    } else if code == 0xC001000A {
        XFlashErrorKind::InvalidSession
    } else if code == 0xC001000B {
        XFlashErrorKind::InvalidStage
    } else if code == 0xC001000C {
        XFlashErrorKind::NotImplemented
    } else if code == 0xC001000D {
        XFlashErrorKind::FileNotFound
    } else if code == 0xC001000E {
        XFlashErrorKind::OpenFileError
    } else if code == 0xC001000F {
        XFlashErrorKind::WriteFileError
    } else if code == 0xC0010010 {
        XFlashErrorKind::ReadFileError
    } else if code == 0xC0010011 {
        XFlashErrorKind::CreateFileErrorOrUnsupportedVersion
    } else if code == 0xC0020001 {
        XFlashErrorKind::RomInfoNotFound
    } else if code == 0xC0020002 {
        XFlashErrorKind::CustNameNotFound
    } else if code == 0xC0020003 {
        XFlashErrorKind::DeviceNotSupported
    } else if code == 0xC0020004 {
        XFlashErrorKind::DlForbidden
    } else if code == 0xC0020005 {
        XFlashErrorKind::ImgTooLarge
    } else if code == 0xC0020006 {
        XFlashErrorKind::PlVerifyFailed
    } else if code == 0xC0020007 {
        XFlashErrorKind::ImageVerifyFailed
    } else if code == 0xC0020008 {
        XFlashErrorKind::HashOperationFailed
    } else if code == 0xC0020009 {
        XFlashErrorKind::HashBindingCheckFailed
    } else if code == 0xC002000A {
        XFlashErrorKind::InvalidBuf
    } else if code == 0xC002000B {
        XFlashErrorKind::BindingHashNotAvailable
    } else if code == 0xC002000C {
        XFlashErrorKind::WriteDataNotAllowed
    } else if code == 0xC002000D {
        XFlashErrorKind::FormatNotAllowed
    } else if code == 0xC002000E {
        XFlashErrorKind::Sv5PubKeyAuthFailed
    } else if code == 0xC002000F {
        XFlashErrorKind::Sv5HashVerifyFailed
    } else if code == 0xC0020010 {
        XFlashErrorKind::Sv5RsaOpFailed
    } else if code == 0xC0020011 {
        XFlashErrorKind::Sv5RsaVerifyFailed
    } else if code == 0xC0020012 {
        XFlashErrorKind::Sv5GfhNotFound
    } else if code == 0xC0020013 {
        XFlashErrorKind::Cert1Invalid
    } else if code == 0xC0020014 {
        XFlashErrorKind::Cert2Invalid
    } else if code == 0xC0020015 {
        XFlashErrorKind::ImghdrInvalid
    } else if code == 0xC0020016 {
        XFlashErrorKind::SigSizeInvalid
    } else if code == 0xC0020017 {
        XFlashErrorKind::RsaPssOpFailed
    } else if code == 0xC0020018 {
        XFlashErrorKind::CertAuthFailed
    } else if code == 0xC0020019 {
        XFlashErrorKind::PubKeyAuthMismatchNSize
    } else if code == 0xC002001A {
        XFlashErrorKind::PubKeyAuthMismatchESize
    } else if code == 0xC002001B {
        XFlashErrorKind::PubKeyAuthMismatchN
    } else if code == 0xC002001C {
        XFlashErrorKind::PubKeyAuthMismatchE
    } else if code == 0xC002001D {
        XFlashErrorKind::PubKeyAuthMismatchHash
    } else if code == 0xC002001E {
        XFlashErrorKind::CertObjNotFound
    } else if code == 0xC002001F {
        XFlashErrorKind::CertOidNotFound
    } else if code == 0xC0020020 {
        XFlashErrorKind::CertOutOfRange
    } else if code == 0xC0020021 {
        XFlashErrorKind::OidDoesntMatch
    } else if code == 0xC0020022 {
        XFlashErrorKind::LengthDoesntMatch
    } else if code == 0xC0020023 {
        XFlashErrorKind::Asn1UnknownOp
    } else if code == 0xC0020024 {
        XFlashErrorKind::OidIndexOutOfRange
    } else if code == 0xC0020025 {
        XFlashErrorKind::OidTooLarge
    } else if code == 0xC0020026 {
        XFlashErrorKind::PubKeySizeMismatch
    } else if code == 0xC0020027 {
        XFlashErrorKind::SwidMismatch
    } else if code == 0xC0020028 {
        XFlashErrorKind::HashSizeMismatch
    } else if code == 0xC0020029 {
        XFlashErrorKind::ImghdrTypeMismatch
    } else if code == 0xC002002A {
        XFlashErrorKind::ImgTypeMismatch
    } else if code == 0xC002002B {
        XFlashErrorKind::ImghdrHashVerifyFailed
    } else if code == 0xC002002C {
        XFlashErrorKind::ImgHashVerifyFailed
    } else if code == 0xC002002D {
        XFlashErrorKind::AntiRollbackViolation
    } else if code == 0xC002002E {
        XFlashErrorKind::SeccfgNotFound
    } else if code == 0xC002002F {
        XFlashErrorKind::SeccfgMagicIncorrect
    } else if code == 0xC0020030 {
        XFlashErrorKind::SeccfgInvalid
    } else if code == 0xC0020031 {
        XFlashErrorKind::CipherModeInvalid
    } else if code == 0xC0020032 {
        XFlashErrorKind::CipherKeyInvalid
    } else if code == 0xC0020033 {
        XFlashErrorKind::CipherDataUnaligned
    } else if code == 0xC0020034 {
        XFlashErrorKind::GfhFileInfoNotFound
    } else if code == 0xC0020035 {
        XFlashErrorKind::GfhAntiCloneNotFound
    } else if code == 0xC0020036 {
        XFlashErrorKind::GfhSecCfgNotFound
    } else if code == 0xC0020037 {
        XFlashErrorKind::UnsupportedSourceType
    } else if code == 0xC0020038 {
        XFlashErrorKind::CustNameMismatch
    } else if code == 0xC0020039 {
        XFlashErrorKind::InvalidAddress
    } else if code == 0xC0020040 {
        XFlashErrorKind::CertificateVersionNotSynced
    } else if code == 0xC0020041 {
        XFlashErrorKind::SignatureNotSynced
    } else if code == 0xC0020042 {
        XFlashErrorKind::ExtAllInOneSignatureRejected
    } else if code == 0xC0020043 {
        XFlashErrorKind::ExtAllInOneSignatureMissing
    } else if code == 0xC0020044 {
        XFlashErrorKind::CommKeyIsNotSet
    } else if code == 0xC0020045 {
        XFlashErrorKind::DevInfoCheckFailed
    } else if code == 0xC0020046 {
        XFlashErrorKind::BootimgCountOverflow
    } else if code == 0xC0020047 {
        XFlashErrorKind::SignatureNotFound
    } else if code == 0xC0020048 {
        XFlashErrorKind::BootimgSpecialHandle
    } else if code == 0xC0020049 {
        XFlashErrorKind::RemoteSecurityPolicyDisabled
    } else if code == 0xC002004A {
        XFlashErrorKind::RsaOaepFailed
    } else if code == 0xC002004B {
        XFlashErrorKind::InsufficientBuffer2
    } else if code == 0xC002004C {
        XFlashErrorKind::DaAntiRollbackError
    } else if code == 0xC002004D {
        XFlashErrorKind::GetOtpValueFailed
    } else if code == 0xC002004E {
        XFlashErrorKind::InvalidUnitSize
    } else if code == 0xC002004F {
        XFlashErrorKind::InvalidGroupIdx
    } else if code == 0xC0020050 {
        XFlashErrorKind::ImgVersionOverflow
    } else if code == 0xC0020051 {
        XFlashErrorKind::OtpTableNotInitialized
    } else if code == 0xC0020052 {
        XFlashErrorKind::InvalidPartitionName
    } else if code == 0xC0020053 {
        XFlashErrorKind::DaVersionAntiRollbackError
    } else if code == 0xC0020054 {
        XFlashErrorKind::InvalidMsgSize
    } else if code == 0xC0020055 {
        XFlashErrorKind::SecurityLevelUnsupported
    } else if code == 0xC0020056 {
        XFlashErrorKind::SecurityLevelMismatch
    } else if code == 0xC0020057 {
        XFlashErrorKind::FaultInjectionError
    } else if code == 0xC0020058 {
        XFlashErrorKind::PubKeyHashGroupInvalid
    } else if code == 0xC0020059 {
        XFlashErrorKind::SecurityLevelTooLarge
    } else if code == 0xC002005A {
        XFlashErrorKind::SecurityConfigIsFormatted
    } else if code == 0xC002005B {
        XFlashErrorKind::SecurityConfigUnknownError
    } else if code == 0xC002005C {
        XFlashErrorKind::LockstateSeccfgFailed
    } else if code == 0xC002005D {
        XFlashErrorKind::LockstateCustomFailed
    } else if code == 0xC002005E {
        XFlashErrorKind::LockstateInconsistent
    } else if code == 0xC0030001 {
        XFlashErrorKind::ScatterFileInvalid
    } else if code == 0xC0030002 {
        XFlashErrorKind::DaFileInvalid
    } else if code == 0xC0030003 {
        XFlashErrorKind::DaSelectionError
    } else if code == 0xC0030004 {
        XFlashErrorKind::PreloaderInvalid
    } else if code == 0xC0030005 {
        XFlashErrorKind::EmiHdrInvalid
    } else if code == 0xC0030006 {
        XFlashErrorKind::StorageMismatch
    } else if code == 0xC0030007 {
        XFlashErrorKind::InvalidParameters
    } else if code == 0xC0030008 {
        XFlashErrorKind::InvalidGpt
    } else if code == 0xC0030009 {
        XFlashErrorKind::InvalidPmt
    } else if code == 0xC003000A {
        XFlashErrorKind::LayoutChanged
    } else if code == 0xC003000B {
        XFlashErrorKind::InvalidFormatParam
    } else if code == 0xC003000C {
        XFlashErrorKind::UnknownStorageSectionType
    } else if code == 0xC003000D {
        XFlashErrorKind::UnknownScatterField
    } else if code == 0xC003000E {
        XFlashErrorKind::PartitionTblDoesntExist
    } else if code == 0xC003000F {
        XFlashErrorKind::ScatterHwChipIdMismatch
    } else if code == 0xC0030010 {
        XFlashErrorKind::SecCertFileNotFound
    } else if code == 0xC0030011 {
        XFlashErrorKind::SecAuthFileNotFound
    } else if code == 0xC0030012 {
        XFlashErrorKind::SecAuthFileNeeded
    } else if code == 0xC0030013 {
        XFlashErrorKind::EmiContainerFileNotFound
    } else if code == 0xC0030014 {
        XFlashErrorKind::ScatterFileNotFound
    } else if code == 0xC0030015 {
        XFlashErrorKind::XmlFileOpError
    } else if code == 0xC0030016 {
        XFlashErrorKind::UnsupportedPageSize
    } else if code == 0xC0030017 {
        XFlashErrorKind::EmiInfoLengthOffsetInvalid
    } else if code == 0xC0030018 {
        XFlashErrorKind::EmiInfoLengthInvalid
    } else if code == 0xC0040001 {
        XFlashErrorKind::UnsupportedOperation
    } else if code == 0xC0040002 {
        XFlashErrorKind::ThreadError
    } else if code == 0xC0040003 {
        XFlashErrorKind::ChecksumError
    } else if code == 0xC0040004 {
        XFlashErrorKind::UnknownSparse
    } else if code == 0xC0040005 {
        XFlashErrorKind::UnknownSparseChunkType
    } else if code == 0xC0040006 {
        XFlashErrorKind::PartitionNotFound
    } else if code == 0xC0040007 {
        XFlashErrorKind::ReadParttblFailed
    } else if code == 0xC0040008 {
        XFlashErrorKind::ExceededMaxPartitionNumber
    } else if code == 0xC0040009 {
        XFlashErrorKind::UnknownStorageType
    } else if code == 0xC004000A {
        XFlashErrorKind::DramTestFailed
    } else if code == 0xC004000B {
        XFlashErrorKind::ExceedAvailableRange
    } else if code == 0xC004000C {
        XFlashErrorKind::WriteSparseImageFailed
    } else if code == 0xC0040030 {
        XFlashErrorKind::MmcError
    } else if code == 0xC0040040 {
        XFlashErrorKind::NandError
    } else if code == 0xC0040041 {
        XFlashErrorKind::NandInProgress
    } else if code == 0xC0040042 {
        XFlashErrorKind::NandTimeout
    } else if code == 0xC0040043 {
        XFlashErrorKind::NandBadBlock
    } else if code == 0xC0040044 {
        XFlashErrorKind::NandEraseFailed
    } else if code == 0xC0040045 {
        XFlashErrorKind::NandPageProgramFailed
    } else if code == 0xC0040050 {
        XFlashErrorKind::EmiSettingVersionError
    } else if code == 0xC0040060 {
        XFlashErrorKind::UfsError
    } else if code == 0xC0040100 {
        XFlashErrorKind::DaOtpNotSupported
    } else if code == 0xC0040102 {
        XFlashErrorKind::DaOtpLockFailed
    } else if code == 0xC0040200 {
        XFlashErrorKind::EfuseUnknownError
    } else if code == 0xC0040201 {
        XFlashErrorKind::EfuseWriteTimeoutWithoutVerify
    } else if code == 0xC0040202 {
        XFlashErrorKind::EfuseBlown
    } else if code == 0xC0040203 {
        XFlashErrorKind::EfuseRevertBit
    } else if code == 0xC0040204 {
        XFlashErrorKind::EfuseBlownPartly
    } else if code == 0xC0040205 {
        XFlashErrorKind::EfuseInvalidArgument
    } else if code == 0xC0040206 {
        XFlashErrorKind::EfuseValueIsNotZero
    } else if code == 0xC0040207 {
        XFlashErrorKind::EfuseBlownIncorrectData
    } else if code == 0xC0040208 {
        XFlashErrorKind::EfuseBroken
    } else if code == 0xC0040209 {
        XFlashErrorKind::EfuseBlowError
    } else if code == 0xC004020A {
        XFlashErrorKind::EfuseUnlockBpkeyError
    } else if code == 0xC004020B {
        XFlashErrorKind::EfuseCreateListError
    } else if code == 0xC004020C {
        XFlashErrorKind::EfuseWriteRegisterError
    } else if code == 0xC004020D {
        XFlashErrorKind::EfusePaddingTypeMismatch
    } else if code == 0xC0050001 {
        XFlashErrorKind::DeviceCtrlException
    } else if code == 0xC0050002 {
        XFlashErrorKind::ShutdownCmdException
    } else if code == 0xC0050003 {
        XFlashErrorKind::DownloadException
    } else if code == 0xC0050004 {
        XFlashErrorKind::UploadException
    } else if code == 0xC0050005 {
        XFlashErrorKind::ExtRamException
    } else if code == 0xC0050006 {
        XFlashErrorKind::NotifySwitchUsbSpeedException
    } else if code == 0xC0050007 {
        XFlashErrorKind::ReadDataException
    } else if code == 0xC0050008 {
        XFlashErrorKind::WriteDataException
    } else if code == 0xC0050009 {
        XFlashErrorKind::FormatException
    } else if code == 0xC005000A {
        XFlashErrorKind::OtpOperationException
    } else if code == 0xC005000B {
        XFlashErrorKind::SwitchUsbException
    } else if code == 0xC005000C {
        XFlashErrorKind::WriteEfuseException
    } else if code == 0xC005000D {
        XFlashErrorKind::ReadEfuseException
    } else if code == 0xC0060001 {
        XFlashErrorKind::BromStartCmdFailed
    } else if code == 0xC0060002 {
        XFlashErrorKind::BromGetBbchipHwVerFailed
    } else if code == 0xC0060003 {
        XFlashErrorKind::BromCmdSendDaFailed
    } else if code == 0xC0060004 {
        XFlashErrorKind::BromCmdJumpDaFailed
    } else if code == 0xC0060005 {
        XFlashErrorKind::BromCmdFailed
    } else if code == 0xC0060006 {
        XFlashErrorKind::BromStageCallbackFailed
    } else if code == 0xC0070001 {
        XFlashErrorKind::DaVersionMismatch
    } else if code == 0xC0070002 {
        XFlashErrorKind::DaNotFound
    } else if code == 0xC0070003 {
        XFlashErrorKind::DaSectionNotFound
    } else if code == 0xC0070004 {
        XFlashErrorKind::DaHashMismatch
    } else if code == 0xC0070005 {
        XFlashErrorKind::DaExceedMaxNum
    } else {
        XFlashErrorKind::Unknown
    }
}

/// Kind of an XML DA status error.
#[derive(Debug, Copy, Clone, Eq, PartialEq, Structural)]
pub enum XmlErrorKind {
    Unknown,
    UnsupportedCmd,
    Cancel,
}

/// An error reported by the XML DA: the status text and its kind.
#[derive(Debug)]
pub struct XmlError {
    pub message: String,
    pub kind: XmlErrorKind,
}

impl XmlError {
    pub fn new(msg: &str, kind: XmlErrorKind) -> (r: XmlError)
        ensures
            r.message@ == msg@,
            r.kind == kind,
    {
        XmlError { message: msg.to_owned(), kind }
    }
}

/// The text with every trailing NUL character removed.
pub open spec fn trim_nuls(s: Seq<char>) -> Seq<char>
    decreases s.len(),
{
    if s.len() > 0 && s.last() == '\0' {
        trim_nuls(s.drop_last())
    } else {
        s
    }
}

/// The text an XML DA status reply decodes to: the UTF-8 decoding with
/// trailing NULs trimmed, or the fixed marker for invalid UTF-8.
pub open spec fn spec_status_text(resp: Seq<u8>) -> Seq<char> {
    if vstd::utf8::valid_utf8(resp) {
        trim_nuls(vstd::utf8::decode_utf8(resp))
    } else {
        "Invalid UTF-8"@
    }
}

/// Relies on core::str::from_utf8: it succeeds exactly on valid UTF-8, and
/// decodes the bytes to their character sequence.
#[verifier::external_body]
pub(crate) fn utf8_to_string(b: &[u8]) -> (r: Option<String>)
    ensures
        r is Some <==> vstd::utf8::valid_utf8(b@),
        r matches Some(s) ==> s@ == vstd::utf8::decode_utf8(b@),
{
    match core::str::from_utf8(b) {
        Ok(s) => Some(s.to_owned()),
        Err(_) => None,
    }
}

impl XmlError {
    /// Classifies a raw XML DA status reply: `ERR!CANCEL` maps to the
    /// cancel kind, anything else is an unsupported-command error whose
    /// message is the decoded status, preserved as received.
    pub fn from_message(resp: &[u8]) -> (r: XmlError)
        ensures
            spec_status_text(resp@) == "ERR!CANCEL"@ ==> r.message@ == "Cancelled"@ && r.kind
                == XmlErrorKind::Cancel,
            spec_status_text(resp@) != "ERR!CANCEL"@ ==> r.message@ == spec_status_text(resp@)
                && r.kind == XmlErrorKind::UnsupportedCmd,
    {
        let decoded: String = match utf8_to_string(resp) {
            Some(s) => s,
            None => {
                proof {
                    reveal_strlit("Invalid UTF-8");
                    reveal_strlit("ERR!CANCEL");
                }
                return XmlError::new("Invalid UTF-8", XmlErrorKind::UnsupportedCmd);
            },
        };

        let n = decoded.as_str().unicode_len();
        proof {
            assert(decoded@.subrange(0, n as int) =~= decoded@);
        }
        let mut end: usize = n;
        while end > 0 && decoded.as_str().get_char(end - 1) == '\0'
            invariant
                end <= n == decoded@.len(),
                trim_nuls(decoded@) == trim_nuls(decoded@.subrange(0, end as int)),
            decreases end,
        {
            proof {
                let sub = decoded@.subrange(0, end as int);
                assert(sub.last() == decoded@[end - 1]);
                assert(sub.drop_last() =~= decoded@.subrange(0, end - 1));
            }
            end -= 1;
        }
        proof {
            assert(decoded@.subrange(0, n as int) =~= decoded@);
            let sub = decoded@.subrange(0, end as int);
            if end > 0 {
                assert(sub.last() == decoded@[end - 1]);
            }
            assert(trim_nuls(sub) == sub);
        }
        let trimmed = decoded.as_str().substring_char(0, end).to_owned();

        proof {
            reveal_strlit("ERR!CANCEL");
        }
        if trimmed == String::from_str("ERR!CANCEL") {
            XmlError::new("Cancelled", XmlErrorKind::Cancel)
        } else {
            XmlError { message: trimmed, kind: XmlErrorKind::UnsupportedCmd }
        }
    }
}

} // verus!
