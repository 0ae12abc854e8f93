//! The embedded-content container (NCCH) and the filesystem inside it (ExeFS).

use vstd::prelude::*;

use crate::bytes::{
    check_range, in_bounds, le32, le32_at, out_of_range, read_bytes4, read_le32, spec_read_bytes4,
    spec_read_le32,
};
use crate::n3ds_errors::{ncch_magic, CXIParsingError, FileMagicNotFound, N3DSParsingError};
use crate::smdh::{is_magic, spec_from_smdh, IconView, SMDHIcon, MAX_POSITION};

verus! {

/// Offset of the magic tag in an NCCH header.
pub const NCCH_MAGIC_OFFSET: u128 = 0x100;

/// Offset of the 8-byte flag block in an NCCH header.
pub const NCCH_FLAGS_OFFSET: u128 = 0x188;

/// Offset of the filesystem's offset field (in media units) in an NCCH header.
pub const NCCH_EXEFS_OFFSET_FIELD: u128 = 0x1A0;

/// Bytes per media unit.
pub const MEDIA_UNIT_SIZE: u64 = 0x200;

/// Size of the file table at the start of the filesystem: ten 16-byte slots.
pub const EXEFS_FILE_HEADERS_SIZE: usize = 0xA0;

/// Size of the filesystem header; file offsets count from its end.
pub const EXEFS_HEADER_SIZE: u128 = 0x200;

/// The crypto method byte of an NCCH header.
#[derive(Debug, Clone, Copy, PartialEq, Eq, Structural)]
pub enum NCCHCryptoMethodFlags {
    Initial,
    KeyY,
    New3DSArm9Loader,
    New3DSArmLoaderChanged,
}

/// The crypto method that a flag byte names.
pub open spec fn spec_crypto_method(value: u8) -> Result<NCCHCryptoMethodFlags, CXIParsingError> {
    if value == 0x00 {
        Ok(NCCHCryptoMethodFlags::Initial)
    } else if value == 0x01 {
        Ok(NCCHCryptoMethodFlags::KeyY)
    } else if value == 0x0A {
        Ok(NCCHCryptoMethodFlags::New3DSArm9Loader)
    } else if value == 0x0B {
        Ok(NCCHCryptoMethodFlags::New3DSArmLoaderChanged)
    } else {
        Err(CXIParsingError::InvalidNCCHCryptoMethodFlags(value))
    }
}

impl TryFrom<u8> for NCCHCryptoMethodFlags {
    type Error = CXIParsingError;

    fn try_from(value: u8) -> (r: Result<NCCHCryptoMethodFlags, CXIParsingError>) {
        match value {
            0x00 => Ok(NCCHCryptoMethodFlags::Initial),
            0x01 => Ok(NCCHCryptoMethodFlags::KeyY),
            0x0A => Ok(NCCHCryptoMethodFlags::New3DSArm9Loader),
            0x0B => Ok(NCCHCryptoMethodFlags::New3DSArmLoaderChanged),
            _ => Err(CXIParsingError::InvalidNCCHCryptoMethodFlags(value)),
        }
    }
}

impl vstd::std_specs::convert::TryFromSpecImpl<u8> for NCCHCryptoMethodFlags {
    open spec fn obeys_try_from_spec() -> bool {
        true
    }

    open spec fn try_from_spec(v: u8) -> Result<NCCHCryptoMethodFlags, CXIParsingError> {
        spec_crypto_method(v)
    }
}

/// The content-type flags of an NCCH header.
#[derive(Debug, Clone, Copy, PartialEq, Eq, Structural)]
pub struct NCCHContentTypeFlags {
    pub bits: u8,
}

/// Data content.
pub const NCCH_CONTENT_DATA: u8 = 0x01;
/// Executable content.
pub const NCCH_CONTENT_EXECUTABLE: u8 = 0x02;
/// System update.
pub const NCCH_CONTENT_SYSTEM_UPDATE: u8 = 0x04;
/// Manual.
pub const NCCH_CONTENT_MANUAL: u8 = 0x08;
/// Trial.
pub const NCCH_CONTENT_TRIAL: u8 = 0x10;
/// Every known content-type flag.
pub const NCCH_CONTENT_ALL: u8 = 0x1F;

impl NCCHContentTypeFlags {
    /// Keeps the known flags of `bits`.
    pub fn from_bits_truncate(bits: u8) -> (f: NCCHContentTypeFlags)
        ensures
            f.bits == bits & NCCH_CONTENT_ALL,
    {
        NCCHContentTypeFlags { bits: bits & NCCH_CONTENT_ALL }
    }

    /// Data without executable code (a CFA).
    pub fn is_cfa(&self) -> (r: bool)
        ensures
            r == (self.bits & NCCH_CONTENT_DATA == NCCH_CONTENT_DATA && self.bits
                & NCCH_CONTENT_EXECUTABLE != NCCH_CONTENT_EXECUTABLE),
    {
        self.bits & NCCH_CONTENT_DATA == NCCH_CONTENT_DATA && self.bits & NCCH_CONTENT_EXECUTABLE
            != NCCH_CONTENT_EXECUTABLE
    }

    /// Executable content (a CXI).
    pub fn is_cxi(&self) -> (r: bool)
        ensures
            r == (self.bits & NCCH_CONTENT_EXECUTABLE == NCCH_CONTENT_EXECUTABLE),
    {
        self.bits & NCCH_CONTENT_EXECUTABLE == NCCH_CONTENT_EXECUTABLE
    }
}

/// The security flags of an NCCH header.
#[derive(Debug, Clone, Copy, PartialEq, Eq, Structural)]
pub struct NCCHSecurityFlags {
    pub bits: u8,
}

/// Fixed crypto key.
pub const NCCH_SECURITY_FIXED_CRYPTO_KEY: u8 = 0x01;
/// No RomFS to mount.
pub const NCCH_SECURITY_NO_MOUNT_ROM_FS: u8 = 0x02;
/// The content is not encrypted.
pub const NCCH_SECURITY_NO_CRYPTO: u8 = 0x04;
/// New key-Y generator.
pub const NCCH_SECURITY_NEW_KEY_Y_GENERATOR: u8 = 0x20;
/// Every known security flag.
pub const NCCH_SECURITY_ALL: u8 = 0x27;

impl NCCHSecurityFlags {
    /// Keeps the known flags of `bits`.
    pub fn from_bits_truncate(bits: u8) -> (f: NCCHSecurityFlags)
        ensures
            f.bits == bits & NCCH_SECURITY_ALL,
    {
        NCCHSecurityFlags { bits: bits & NCCH_SECURITY_ALL }
    }

    pub fn is_not_encrypted(&self) -> (r: bool)
        ensures
            r == (self.bits & NCCH_SECURITY_NO_CRYPTO == NCCH_SECURITY_NO_CRYPTO),
    {
        self.bits & NCCH_SECURITY_NO_CRYPTO == NCCH_SECURITY_NO_CRYPTO
    }
}

/// The flag block of an NCCH header.
#[derive(Debug, Clone, Copy, PartialEq, Eq, Structural)]
pub struct NCCHFlags {
    pub crypto_method: NCCHCryptoMethodFlags,
    pub content_type: NCCHContentTypeFlags,
    pub security: NCCHSecurityFlags,
}

/// The flag block `f` (eight bytes): crypto method in byte 3, content type in
/// byte 5, security flags in byte 7.
pub open spec fn spec_ncch_flags(f: Seq<u8>) -> Result<NCCHFlags, CXIParsingError> {
    match spec_crypto_method(f[3]) {
        Err(e) => Err(e),
        Ok(crypto_method) => Ok(
            NCCHFlags {
                crypto_method,
                content_type: NCCHContentTypeFlags { bits: f[5] & NCCH_CONTENT_ALL },
                security: NCCHSecurityFlags { bits: f[7] & NCCH_SECURITY_ALL },
            },
        ),
    }
}

impl TryFrom<[u8; 8]> for NCCHFlags {
    type Error = CXIParsingError;

    /// Reads the 8-byte flag block; the crypto method must be a known one.
    fn try_from(value: [u8; 8]) -> (r: Result<NCCHFlags, CXIParsingError>) {
        Ok(NCCHFlags {
            crypto_method: NCCHCryptoMethodFlags::try_from(value[3])?,
            content_type: NCCHContentTypeFlags::from_bits_truncate(value[5]),
            security: NCCHSecurityFlags::from_bits_truncate(value[7]),
        })
    }
}

impl vstd::std_specs::convert::TryFromSpecImpl<[u8; 8]> for NCCHFlags {
    open spec fn obeys_try_from_spec() -> bool {
        true
    }

    open spec fn try_from_spec(v: [u8; 8]) -> Result<NCCHFlags, CXIParsingError> {
        spec_ncch_flags(v@)
    }
}

/// A used slot of the filesystem's file table.
#[derive(Debug, Clone, Copy)]
pub struct ExeFSFileHeader {
    pub file_name: [u8; 8],
    pub file_offset: u32,
    pub file_size: u32,
}

/// The slot `s` (16 bytes) is unused: all of it is zero.
pub open spec fn is_empty_slot(s: Seq<u8>) -> bool {
    forall|i: int| 0 <= i < 16 ==> s[i] == 0
}

/// The name field of slot `s` reads "icon": those four bytes, then a NUL.
pub open spec fn names_icon(s: Seq<u8>) -> bool {
    s[0] == 0x69 && s[1] == 0x63 && s[2] == 0x6F && s[3] == 0x6E && s[4] == 0
}

impl ExeFSFileHeader {
    /// Reads a 16-byte slot: name, offset and size; `None` for an unused slot.
    pub fn from_bytes(file_headers_bytes: &[u8]) -> (r: Option<ExeFSFileHeader>)
        requires
            file_headers_bytes@.len() == 16,
        ensures
            r.is_none() <==> is_empty_slot(file_headers_bytes@),
            r matches Some(h) ==> h.file_name@ == file_headers_bytes@.subrange(0, 8) && h.file_offset
                == le32(file_headers_bytes@, 8) && h.file_size == le32(file_headers_bytes@, 12),
    {
        let mut i: usize = 0;
        while i < 16 && file_headers_bytes[i] == 0
            invariant
                i <= 16,
                file_headers_bytes@.len() == 16,
                forall|j: int| 0 <= j < i ==> file_headers_bytes@[j] == 0,
            decreases 16 - i,
        {
            i = i + 1;
        }
        if i == 16 {
            return None;
        }
        let b = file_headers_bytes;
        let file_name = [b[0], b[1], b[2], b[3], b[4], b[5], b[6], b[7]];
        assert(file_name@ =~= file_headers_bytes@.subrange(0, 8));
        Some(ExeFSFileHeader { file_name, file_offset: le32_at(b, 8), file_size: le32_at(b, 12) })
    }

    /// The name: the bytes before the first NUL, or all eight.
    pub fn file_name(&self) -> (name: &[u8])
        ensures
            name@.len() <= 8,
            name@ == self.file_name@.subrange(0, name@.len() as int),
            forall|i: int| 0 <= i < name@.len() ==> name@[i] != 0,
            name@.len() < 8 ==> self.file_name@[name@.len() as int] == 0,
    {
        let mut n: usize = 0;
        while n < 8 && self.file_name[n] != 0
            invariant
                n <= 8,
                forall|i: int| 0 <= i < n ==> self.file_name@[i] != 0,
            decreases 8 - n,
        {
            n = n + 1;
        }
        let name = &self.file_name[0..n];
        name
    }

    pub fn file_offset(&self) -> (o: u32)
        ensures
            o == self.file_offset,
    {
        self.file_offset
    }

    pub fn file_size(&self) -> (s: u32)
        ensures
            s == self.file_size,
    {
        self.file_size
    }
}

/// Is `name` the four bytes "icon"?
fn is_icon_name(name: &[u8]) -> (r: bool)
    ensures
        r == (name@ == seq![0x69u8, 0x63, 0x6F, 0x6E]),
{
    let r = name.len() == 4 && name[0] == 0x69 && name[1] == 0x63 && name[2] == 0x6F && name[3]
        == 0x6E;
    if r {
        assert(name@ =~= seq![0x69u8, 0x63, 0x6F, 0x6E]);
    }
    r
}

/// Slot `k` of the file table that starts at `pos`.
pub open spec fn exefs_slot(data: Seq<u8>, pos: int, k: int) -> Seq<u8> {
    data.subrange(pos + 16 * k, pos + 16 * k + 16)
}

/// The first slot, from `k` on, that is used and names "icon".
pub open spec fn first_icon_slot(data: Seq<u8>, pos: int, k: int) -> Option<int>
    decreases 10 - k,
{
    if k >= 10 {
        None
    } else if !is_empty_slot(exefs_slot(data, pos, k)) && names_icon(exefs_slot(data, pos, k)) {
        Some(k)
    } else {
        first_icon_slot(data, pos, k + 1)
    }
}

/// The filesystem at `pos`: a file table of ten slots; the file named "icon" is an
/// icon-metadata block at its offset past the 0x200-byte header.
pub open spec fn spec_from_exefs(data: Seq<u8>, pos: int) -> Result<IconView, N3DSParsingError> {
    if !in_bounds(data, pos, EXEFS_FILE_HEADERS_SIZE as int) {
        Err(
            N3DSParsingError::ByteOutOfRange(
                out_of_range(data, pos, EXEFS_FILE_HEADERS_SIZE as int),
            ),
        )
    } else {
        match first_icon_slot(data, pos, 0) {
            None => Err(N3DSParsingError::CXIParsingError(CXIParsingError::ExeFSIconFileNotFound)),
            Some(k) => spec_from_smdh(data, pos + EXEFS_HEADER_SIZE + le32(data, pos + 16 * k + 8)),
        }
    }
}

proof fn lemma_no_icon_slot_from(data: Seq<u8>, pos: int, k: int)
    requires
        0 <= k <= 10,
        in_bounds(data, pos, EXEFS_FILE_HEADERS_SIZE as int),
        forall|i: int| pos <= i < pos + EXEFS_FILE_HEADERS_SIZE ==> data[i] == 0,
    ensures
        first_icon_slot(data, pos, k) is None,
    decreases 10 - k,
{
    if k < 10 {
        lemma_no_icon_slot_from(data, pos, k + 1);
        assert(exefs_slot(data, pos, k)[0] == data[pos + 16 * k]);
    }
}

/// A file table whose ten slots are all zero names no file: the filesystem yields
/// no icon, only the report that it has none.
pub proof fn lemma_empty_file_table(data: Seq<u8>, pos: int)
    requires
        in_bounds(data, pos, EXEFS_FILE_HEADERS_SIZE as int),
        forall|i: int| pos <= i < pos + EXEFS_FILE_HEADERS_SIZE ==> data[i] == 0,
    ensures
        spec_from_exefs(data, pos) == Err::<IconView, N3DSParsingError>(
            N3DSParsingError::CXIParsingError(CXIParsingError::ExeFSIconFileNotFound),
        ),
{
    lemma_no_icon_slot_from(data, pos, 0);
}

/// The NCCH container at `pos`: the tag "NCCH" at 0x100, flags at 0x188 that must
/// say the content is not encrypted, and the filesystem's offset (in media units)
/// at 0x1A0, followed by its size.
pub open spec fn spec_from_cxi(data: Seq<u8>, pos: int) -> Result<IconView, N3DSParsingError> {
    match spec_read_bytes4(data, pos + NCCH_MAGIC_OFFSET) {
        Err(e) => Err(N3DSParsingError::ByteOutOfRange(e)),
        Ok(m) => if m@ != ncch_magic() {
            Err(N3DSParsingError::FileMagicNotFound(FileMagicNotFound::NCCHMagicNotFound(m)))
        } else if !in_bounds(data, pos + NCCH_FLAGS_OFFSET, 8) {
            Err(N3DSParsingError::ByteOutOfRange(out_of_range(data, pos + NCCH_FLAGS_OFFSET, 8)))
        } else {
            let f = data.subrange(pos + NCCH_FLAGS_OFFSET, pos + NCCH_FLAGS_OFFSET + 8);
            match spec_ncch_flags(f) {
                Err(e) => Err(N3DSParsingError::CXIParsingError(e)),
                Ok(flags) => if flags.security.bits & NCCH_SECURITY_NO_CRYPTO
                    != NCCH_SECURITY_NO_CRYPTO {
                    Err(N3DSParsingError::CXIParsingError(CXIParsingError::FileEncrypted))
                } else {
                    match spec_read_le32(data, pos + NCCH_EXEFS_OFFSET_FIELD) {
                        Err(e) => Err(N3DSParsingError::ByteOutOfRange(e)),
                        Ok(exefs_offset) => match spec_read_le32(
                            data,
                            pos + NCCH_EXEFS_OFFSET_FIELD + 4,
                        ) {
                            Err(e) => Err(N3DSParsingError::ByteOutOfRange(e)),
                            Ok(_) => spec_from_exefs(
                                data,
                                pos + exefs_offset * MEDIA_UNIT_SIZE,
                            ),
                        },
                    }
                },
            }
        },
    }
}

impl SMDHIcon {
    /// Decodes the icon of the NCCH container that starts at `pos`.
    pub fn from_cxi(data: &[u8], pos: u128) -> (r: Result<SMDHIcon, N3DSParsingError>)
        requires
            pos <= MAX_POSITION,
        ensures
            crate::smdh::smdh_result_view(r) == spec_from_cxi(data@, pos as int),
    {
        let magic = match read_bytes4(data, pos + NCCH_MAGIC_OFFSET) {
            Ok(m) => m,
            Err(e) => return Err(N3DSParsingError::ByteOutOfRange(e)),
        };
        if !is_magic(magic, 0x4E, 0x43, 0x43, 0x48) {
            return Err(
                N3DSParsingError::FileMagicNotFound(FileMagicNotFound::NCCHMagicNotFound(magic)),
            );
        }
        let f = match check_range(data, pos + NCCH_FLAGS_OFFSET, 8) {
            Ok(i) => i,
            Err(e) => return Err(N3DSParsingError::ByteOutOfRange(e)),
        };
        let block = [
            data[f],
            data[f + 1],
            data[f + 2],
            data[f + 3],
            data[f + 4],
            data[f + 5],
            data[f + 6],
            data[f + 7],
        ];
        assert(block@ =~= data@.subrange(pos + NCCH_FLAGS_OFFSET, pos + NCCH_FLAGS_OFFSET + 8));
        let flags = match NCCHFlags::try_from(block) {
            Ok(flags) => flags,
            Err(e) => return Err(N3DSParsingError::CXIParsingError(e)),
        };
        if !flags.security.is_not_encrypted() {
            return Err(N3DSParsingError::CXIParsingError(CXIParsingError::FileEncrypted));
        }
        let exefs_offset = match read_le32(data, pos + NCCH_EXEFS_OFFSET_FIELD) {
            Ok(v) => v,
            Err(e) => return Err(N3DSParsingError::ByteOutOfRange(e)),
        };
        if let Err(e) = read_le32(data, pos + NCCH_EXEFS_OFFSET_FIELD + 4) {
            return Err(N3DSParsingError::ByteOutOfRange(e));
        }
        SMDHIcon::from_exefs(data, pos + exefs_offset as u128 * MEDIA_UNIT_SIZE as u128)
    }

    /// Decodes the icon file of the filesystem that starts at `pos`.
    pub fn from_exefs(data: &[u8], pos: u128) -> (r: Result<SMDHIcon, N3DSParsingError>)
        requires
            pos <= MAX_POSITION,
        ensures
            crate::smdh::smdh_result_view(r) == spec_from_exefs(data@, pos as int),
    {
        let start = match check_range(data, pos, EXEFS_FILE_HEADERS_SIZE) {
            Ok(i) => i,
            Err(e) => return Err(N3DSParsingError::ByteOutOfRange(e)),
        };
        let mut k: usize = 0;
        while k < 10
            invariant
                k <= 10,
                start == pos,
                start + EXEFS_FILE_HEADERS_SIZE <= data@.len() <= usize::MAX,
                first_icon_slot(data@, pos as int, 0) == first_icon_slot(data@, pos as int, k as int),
            decreases 10 - k,
        {
            let slot = &data[start + 16 * k..start + 16 * k + 16];
            assert(slot@ =~= exefs_slot(data@, pos as int, k as int));
            if let Some(header) = ExeFSFileHeader::from_bytes(slot) {
                let name = header.file_name();
                if is_icon_name(name) {
                    assert(names_icon(slot@));
                    return SMDHIcon::from_smdh(
                        data,
                        pos + EXEFS_HEADER_SIZE + header.file_offset() as u128,
                    );
                }
                assert(!names_icon(slot@)) by {
                    if names_icon(slot@) {
                        let n = name@.len() as int;
                        assert(header.file_name@[4] == 0);
                        if n > 4 {
                            assert(name@[4] == header.file_name@[4]);
                        }
                        if n < 4 {
                            assert(header.file_name@[n] == slot@[n]);
                        }
                        assert(n == 4);
                        assert(name@ =~= seq![0x69u8, 0x63, 0x6F, 0x6E]);
                    }
                }
            }
            k = k + 1;
        }
        Err(N3DSParsingError::CXIParsingError(CXIParsingError::ExeFSIconFileNotFound))
    }
}

} // verus!
