//! Failures while reading the package family's containers.

use vstd::prelude::*;

use crate::bytes::ByteOutOfRange;

verus! {

/// The four bytes "SMDH".
pub open spec fn smdh_magic() -> Seq<u8> {
    seq![0x53u8, 0x4D, 0x44, 0x48]
}

/// The four bytes "3DSX".
pub open spec fn n3dsx_magic() -> Seq<u8> {
    seq![0x33u8, 0x44, 0x53, 0x58]
}

/// The four bytes "NCCH".
pub open spec fn ncch_magic() -> Seq<u8> {
    seq![0x4Eu8, 0x43, 0x43, 0x48]
}

/// The four bytes "NCSD".
pub open spec fn ncsd_magic() -> Seq<u8> {
    seq![0x4Eu8, 0x43, 0x53, 0x44]
}

/// A container's magic tag is not where it should be; each variant holds the
/// four bytes found there.
#[derive(Debug, Clone, Copy, PartialEq, Eq)]
pub enum FileMagicNotFound {
    SMDHMagicNotFound([u8; 4]),
    N3DSXMagicNotFound([u8; 4]),
    NCCHMagicNotFound([u8; 4]),
    NCSDMagicNotFound([u8; 4]),
}

impl FileMagicNotFound {
    /// The tag that was expected.
    pub fn expected(&self) -> (m: [u8; 4])
        ensures
            m@ == match self {
                FileMagicNotFound::SMDHMagicNotFound(_) => smdh_magic(),
                FileMagicNotFound::N3DSXMagicNotFound(_) => n3dsx_magic(),
                FileMagicNotFound::NCCHMagicNotFound(_) => ncch_magic(),
                FileMagicNotFound::NCSDMagicNotFound(_) => ncsd_magic(),
            },
    {
        let m = match self {
            FileMagicNotFound::SMDHMagicNotFound(_) => [0x53u8, 0x4D, 0x44, 0x48],
            FileMagicNotFound::N3DSXMagicNotFound(_) => [0x33u8, 0x44, 0x53, 0x58],
            FileMagicNotFound::NCCHMagicNotFound(_) => [0x4Eu8, 0x43, 0x43, 0x48],
            FileMagicNotFound::NCSDMagicNotFound(_) => [0x4Eu8, 0x43, 0x53, 0x44],
        };
        assert(m@ =~= match self {
            FileMagicNotFound::SMDHMagicNotFound(_) => smdh_magic(),
            FileMagicNotFound::N3DSXMagicNotFound(_) => n3dsx_magic(),
            FileMagicNotFound::NCCHMagicNotFound(_) => ncch_magic(),
            FileMagicNotFound::NCSDMagicNotFound(_) => ncsd_magic(),
        });
        m
    }

    /// The four bytes that were found instead.
    pub fn found(&self) -> (m: [u8; 4])
        ensures
            m == match self {
                FileMagicNotFound::SMDHMagicNotFound(f) => *f,
                FileMagicNotFound::N3DSXMagicNotFound(f) => *f,
                FileMagicNotFound::NCCHMagicNotFound(f) => *f,
                FileMagicNotFound::NCSDMagicNotFound(f) => *f,
            },
    {
        match self {
            FileMagicNotFound::SMDHMagicNotFound(f) => *f,
            FileMagicNotFound::N3DSXMagicNotFound(f) => *f,
            FileMagicNotFound::NCCHMagicNotFound(f) => *f,
            FileMagicNotFound::NCSDMagicNotFound(f) => *f,
        }
    }
}

/// Failures inside an embedded-content container (NCCH) and its filesystem.
#[derive(Debug, Clone, Copy, PartialEq, Eq, Structural)]
pub enum CXIParsingError {
    /// The package's title metadata lists no main content.
    NoCXIContent,
    /// The content is encrypted; nothing is decrypted here.
    FileEncrypted,
    /// The crypto-method byte of the container's flags is none of the known values.
    InvalidNCCHCryptoMethodFlags(u8),
    /// The container's filesystem holds no file named "icon".
    ExeFSIconFileNotFound,
}

/// Failures inside an installable package (CIA).
#[derive(Debug, Clone, Copy, PartialEq, Eq, Structural)]
pub enum CIAParsingError {
    /// The icon-metadata size field holds none of the four legal values.
    MetaInvalidSize(u32),
    /// The package has no icon-metadata section and its content gives no icon.
    NoIconAvailable(CXIParsingError),
    /// The title metadata's signature type is unknown.
    SignatureTypeInvalidValue(u32),
    /// A content chunk record's content index is unknown.
    ContentIndexInvalidValue(u16),
}

/// Failures while extracting an icon from the package family.
#[derive(Debug, Clone, Copy, PartialEq, Eq)]
pub enum N3DSParsingError {
    FileMagicNotFound(FileMagicNotFound),
    /// A homebrew executable (3DSX) whose header size, given here, leaves no room
    /// for the extended header that locates the icon.
    N3DSXParsingError3DSXNoExtendedHeader(u16),
    CIAParsingError(CIAParsingError),
    /// A disc image (NCSD) without partitions.
    CCIErrorGettingExecutableContentPartition,
    CXIParsingError(CXIParsingError),
    /// A field lies past the end of the file.
    ByteOutOfRange(ByteOutOfRange),
}

} // verus!
