//! The installable package (CIA): a header of section sizes, then certificate
//! chain, ticket, title metadata, content and icon metadata, each padded to 64
//! bytes.

use vstd::prelude::*;

use crate::bytes::{
    be16, be32, be64, be16_at, be32_at, be64_at, check_range, in_bounds, out_of_range, read_be16,
    read_be32, read_le32, read_le64, spec_read_be16, spec_read_be32, spec_read_le32,
    spec_read_le64,
};
use crate::cxi::spec_from_cxi;
use crate::n3ds_errors::{CIAParsingError, CXIParsingError, N3DSParsingError};
use crate::smdh::{smdh_result_view, spec_from_smdh, IconView, SMDHIcon, MAX_POSITION};

verus! {

/// Offset of the certificate-chain size, the first of the header's size fields.
pub const CIA_HEADER_CERTIFICATE_CHAIN_SIZE_OFFSET: u128 = 0x08;

/// Size of the package header, which the first section follows.
pub const CIA_HEADER_SIZE: u128 = 0x2040;

/// Sections start at multiples of this.
pub const CIA_PADDING_SIZE: u128 = 0x40;

/// Offset of the icon-metadata block inside the icon-metadata section.
pub const CIA_META_SMDH_OFFSET: u128 = 0x400;

/// Offset of the content count in the title metadata header.
pub const TITLE_METADATA_CONTENT_COUNT_OFFSET: u128 = 0x9E;

/// Offset of the content chunk records from the title metadata header.
pub const CONTENT_CHUNK_RECORDS_OFFSET: u128 = 0x9C4;

/// Size of one content chunk record.
pub const CONTENT_CHUNK_RECORD_SIZE: usize = 0x30;

/// The legal values of the icon-metadata size field.
#[derive(Debug, Clone, Copy, PartialEq, Eq, Structural)]
pub enum CIAMetaSize {
    /// No icon-metadata section (0).
    Absent,
    /// A region-version marker only (8).
    CVerUSA,
    /// A placeholder (0x200).
    Dummy,
    /// A full icon-metadata section (0x3AC0).
    Present,
}

/// The meaning of an icon-metadata size field.
pub open spec fn spec_meta_size(value: u32) -> Result<CIAMetaSize, CIAParsingError> {
    if value == 0 {
        Ok(CIAMetaSize::Absent)
    } else if value == 8 {
        Ok(CIAMetaSize::CVerUSA)
    } else if value == 0x200 {
        Ok(CIAMetaSize::Dummy)
    } else if value == 0x3AC0 {
        Ok(CIAMetaSize::Present)
    } else {
        Err(CIAParsingError::MetaInvalidSize(value))
    }
}

impl TryFrom<u32> for CIAMetaSize {
    type Error = CIAParsingError;

    fn try_from(value: u32) -> (r: Result<CIAMetaSize, CIAParsingError>) {
        match value {
            0 => Ok(CIAMetaSize::Absent),
            8 => Ok(CIAMetaSize::CVerUSA),
            0x200 => Ok(CIAMetaSize::Dummy),
            0x3AC0 => Ok(CIAMetaSize::Present),
            _ => Err(CIAParsingError::MetaInvalidSize(value)),
        }
    }
}

impl vstd::std_specs::convert::TryFromSpecImpl<u32> for CIAMetaSize {
    open spec fn obeys_try_from_spec() -> bool {
        true
    }

    open spec fn try_from_spec(v: u32) -> Result<CIAMetaSize, CIAParsingError> {
        spec_meta_size(v)
    }
}

/// The signature types of the title metadata.
#[derive(Debug, Clone, Copy, PartialEq, Eq, Structural)]
pub enum CIASignatureType {
    Rsa4096Sha1,
    Rsa2048Sha1,
    EllipticCurveWithSHA1,
    Rsa4096Sha256,
    Rsa2048Sha256,
    EcdsaWithSha256,
}

/// The signature type that a big-endian tag names.
pub open spec fn spec_signature_type(value: u32) -> Result<CIASignatureType, CIAParsingError> {
    if value == 0x0001_0000 {
        Ok(CIASignatureType::Rsa4096Sha1)
    } else if value == 0x0001_0001 {
        Ok(CIASignatureType::Rsa2048Sha1)
    } else if value == 0x0001_0002 {
        Ok(CIASignatureType::EllipticCurveWithSHA1)
    } else if value == 0x0001_0003 {
        Ok(CIASignatureType::Rsa4096Sha256)
    } else if value == 0x0001_0004 {
        Ok(CIASignatureType::Rsa2048Sha256)
    } else if value == 0x0001_0005 {
        Ok(CIASignatureType::EcdsaWithSha256)
    } else {
        Err(CIAParsingError::SignatureTypeInvalidValue(value))
    }
}

impl TryFrom<u32> for CIASignatureType {
    type Error = CIAParsingError;

    fn try_from(value: u32) -> (r: Result<CIASignatureType, CIAParsingError>) {
        match value {
            0x0001_0000 => Ok(CIASignatureType::Rsa4096Sha1),
            0x0001_0001 => Ok(CIASignatureType::Rsa2048Sha1),
            0x0001_0002 => Ok(CIASignatureType::EllipticCurveWithSHA1),
            0x0001_0003 => Ok(CIASignatureType::Rsa4096Sha256),
            0x0001_0004 => Ok(CIASignatureType::Rsa2048Sha256),
            0x0001_0005 => Ok(CIASignatureType::EcdsaWithSha256),
            _ => Err(CIAParsingError::SignatureTypeInvalidValue(value)),
        }
    }
}

impl vstd::std_specs::convert::TryFromSpecImpl<u32> for CIASignatureType {
    open spec fn obeys_try_from_spec() -> bool {
        true
    }

    open spec fn try_from_spec(v: u32) -> Result<CIASignatureType, CIAParsingError> {
        spec_signature_type(v)
    }
}

impl CIASignatureType {
    pub open spec fn spec_size(&self) -> usize {
        match self {
            CIASignatureType::Rsa4096Sha1 | CIASignatureType::Rsa4096Sha256 => 0x200,
            CIASignatureType::Rsa2048Sha1 | CIASignatureType::Rsa2048Sha256 => 0x100,
            CIASignatureType::EllipticCurveWithSHA1 | CIASignatureType::EcdsaWithSha256 => 0x3C,
        }
    }

    pub open spec fn spec_padding_size(&self) -> usize {
        match self {
            CIASignatureType::EllipticCurveWithSHA1 | CIASignatureType::EcdsaWithSha256 => 0x40,
            _ => 0x3C,
        }
    }

    /// Size of the signature.
    pub fn size(&self) -> (s: usize)
        ensures
            s == self.spec_size(),
    {
        match self {
            CIASignatureType::Rsa4096Sha1 | CIASignatureType::Rsa4096Sha256 => 0x200,
            CIASignatureType::Rsa2048Sha1 | CIASignatureType::Rsa2048Sha256 => 0x100,
            CIASignatureType::EllipticCurveWithSHA1 | CIASignatureType::EcdsaWithSha256 => 0x3C,
        }
    }

    /// Size of the padding after the signature.
    pub fn padding_size(&self) -> (s: usize)
        ensures
            s == self.spec_padding_size(),
    {
        match self {
            CIASignatureType::Rsa4096Sha1
            | CIASignatureType::Rsa4096Sha256
            | CIASignatureType::Rsa2048Sha1
            | CIASignatureType::Rsa2048Sha256 => 0x3C,
            CIASignatureType::EllipticCurveWithSHA1 | CIASignatureType::EcdsaWithSha256 => 0x40,
        }
    }
}

/// What a content chunk record's content is.
#[derive(Debug, Clone, Copy, PartialEq, Eq, Structural)]
pub enum CIAContentIndex {
    MainContent,
    HomeMenuManual,
    DlpChildContainer,
}

/// The content index that a record's index field names.
pub open spec fn spec_content_index(value: u16) -> Result<CIAContentIndex, CIAParsingError> {
    if value == 0 {
        Ok(CIAContentIndex::MainContent)
    } else if value == 1 {
        Ok(CIAContentIndex::HomeMenuManual)
    } else if value == 2 {
        Ok(CIAContentIndex::DlpChildContainer)
    } else {
        Err(CIAParsingError::ContentIndexInvalidValue(value))
    }
}

impl TryFrom<u16> for CIAContentIndex {
    type Error = CIAParsingError;

    fn try_from(value: u16) -> (r: Result<CIAContentIndex, CIAParsingError>) {
        match value {
            0 => Ok(CIAContentIndex::MainContent),
            1 => Ok(CIAContentIndex::HomeMenuManual),
            2 => Ok(CIAContentIndex::DlpChildContainer),
            _ => Err(CIAParsingError::ContentIndexInvalidValue(value)),
        }
    }
}

impl vstd::std_specs::convert::TryFromSpecImpl<u16> for CIAContentIndex {
    open spec fn obeys_try_from_spec() -> bool {
        true
    }

    open spec fn try_from_spec(v: u16) -> Result<CIAContentIndex, CIAParsingError> {
        spec_content_index(v)
    }
}

/// The content-type flags of a content chunk record.
#[derive(Debug, Clone, Copy, PartialEq, Eq, Structural)]
pub struct CIAContentType {
    pub bits: u16,
}

/// The content is encrypted.
pub const CIA_CONTENT_ENCRYPTED: u16 = 0x0001;
/// Disc content.
pub const CIA_CONTENT_DISC: u16 = 0x0002;
/// CFM content.
pub const CIA_CONTENT_CFM: u16 = 0x0004;
/// Optional content.
pub const CIA_CONTENT_OPTIONAL: u16 = 0x4000;
/// Shared content.
pub const CIA_CONTENT_SHARED: u16 = 0x8000;
/// Every known content-type flag.
pub const CIA_CONTENT_ALL: u16 = 0xC007;

impl CIAContentType {
    /// Keeps the known flags of `bits`.
    pub fn from_bits_truncate(bits: u16) -> (t: CIAContentType)
        ensures
            t.bits == bits & CIA_CONTENT_ALL,
    {
        CIAContentType { bits: bits & CIA_CONTENT_ALL }
    }

    pub open spec fn spec_is_encrypted(&self) -> bool {
        self.bits & CIA_CONTENT_ENCRYPTED == CIA_CONTENT_ENCRYPTED
    }

    pub fn is_encrypted(&self) -> (r: bool)
        ensures
            r == self.spec_is_encrypted(),
    {
        self.bits & CIA_CONTENT_ENCRYPTED == CIA_CONTENT_ENCRYPTED
    }
}

/// A record of the title metadata describing one content.
#[derive(Debug, Clone, Copy)]
pub struct CIAContentChunkRecord {
    pub content_id: u32,
    pub content_index: CIAContentIndex,
    pub content_type: CIAContentType,
    pub content_size: u64,
    /// Kept as read; never checked.
    pub sha256_hash: [u8; 0x20],
}

/// A content chunk record with its hash as a sequence.
pub type ContentChunkRecordView = (u32, CIAContentIndex, CIAContentType, u64, Seq<u8>);

impl View for CIAContentChunkRecord {
    type V = ContentChunkRecordView;

    open spec fn view(&self) -> ContentChunkRecordView {
        (
            self.content_id,
            self.content_index,
            self.content_type,
            self.content_size,
            self.sha256_hash@,
        )
    }
}

/// The record stored in the 0x30 bytes `s`: big-endian id, index, type and size,
/// then the 32-byte hash.
pub open spec fn spec_record_from_bytes(s: Seq<u8>) -> Result<
    ContentChunkRecordView,
    CIAParsingError,
> {
    match spec_content_index(be16(s, 4)) {
        Err(e) => Err(e),
        Ok(content_index) => Ok(
            (
                be32(s, 0),
                content_index,
                CIAContentType { bits: be16(s, 6) & CIA_CONTENT_ALL },
                be64(s, 8),
                s.subrange(0x10, 0x30),
            ),
        ),
    }
}

impl CIAContentChunkRecord {
    /// Reads a 0x30-byte record.
    pub fn from_bytes(content_chunk_record_bytes: &[u8]) -> (r: Result<
        CIAContentChunkRecord,
        CIAParsingError,
    >)
        requires
            content_chunk_record_bytes@.len() == CONTENT_CHUNK_RECORD_SIZE,
        ensures
            match r {
                Ok(rec) => spec_record_from_bytes(content_chunk_record_bytes@) == Ok::<
                    ContentChunkRecordView,
                    CIAParsingError,
                >(rec@),
                Err(e) => spec_record_from_bytes(content_chunk_record_bytes@) == Err::<
                    ContentChunkRecordView,
                    CIAParsingError,
                >(e),
            },
    {
        let b = content_chunk_record_bytes;
        let content_id = be32_at(b, 0);
        let content_index = CIAContentIndex::try_from(be16_at(b, 4))?;
        let content_type = CIAContentType::from_bits_truncate(be16_at(b, 6));
        let content_size = be64_at(b, 8);
        let mut sha256_hash = [0u8; 0x20];
        let mut i: usize = 0;
        while i < 0x20
            invariant
                i <= 0x20,
                b@.len() == CONTENT_CHUNK_RECORD_SIZE,
                forall|j: int| 0 <= j < i ==> sha256_hash@[j] == b@[0x10 + j],
            decreases 0x20 - i,
        {
            sha256_hash[i] = b[0x10 + i];
            i = i + 1;
        }
        assert(sha256_hash@ =~= b@.subrange(0x10, 0x30));
        Ok(CIAContentChunkRecord { content_id, content_index, content_type, content_size, sha256_hash })
    }
}

/// The record whose 0x30 bytes start at `p`.
pub open spec fn spec_record_at(data: Seq<u8>, p: int) -> Result<
    ContentChunkRecordView,
    N3DSParsingError,
> {
    if !in_bounds(data, p, CONTENT_CHUNK_RECORD_SIZE as int) {
        Err(N3DSParsingError::ByteOutOfRange(out_of_range(data, p, CONTENT_CHUNK_RECORD_SIZE as int)))
    } else {
        match spec_record_from_bytes(data.subrange(p, p + CONTENT_CHUNK_RECORD_SIZE)) {
            Err(e) => Err(N3DSParsingError::CIAParsingError(e)),
            Ok(r) => Ok(r),
        }
    }
}

/// The first `n` records of the array at `base`, or the error of the first one
/// that cannot be read.
pub open spec fn spec_records(data: Seq<u8>, base: int, n: nat) -> Result<
    Seq<ContentChunkRecordView>,
    N3DSParsingError,
>
    decreases n,
{
    if n == 0 {
        Ok(Seq::empty())
    } else {
        match spec_records(data, base, (n - 1) as nat) {
            Err(e) => Err(e),
            Ok(s) => match spec_record_at(data, base + CONTENT_CHUNK_RECORD_SIZE * (n - 1)) {
                Err(e) => Err(e),
                Ok(r) => Ok(s.push(r)),
            },
        }
    }
}

proof fn lemma_records_error_persists(data: Seq<u8>, base: int, i: nat, n: nat)
    requires
        i <= n,
        spec_records(data, base, i) is Err,
    ensures
        spec_records(data, base, n) == spec_records(data, base, i),
    decreases n - i,
{
    if i < n {
        lemma_records_error_persists(data, base, i, (n - 1) as nat);
    }
}

/// The title metadata at `pos`: a big-endian signature type, the signature and its
/// padding, then the header with the content count at 0x9E and the records at
/// 0x9C4.
pub open spec fn spec_title_metadata(data: Seq<u8>, pos: int) -> Result<
    Seq<ContentChunkRecordView>,
    N3DSParsingError,
> {
    match spec_read_be32(data, pos) {
        Err(e) => Err(N3DSParsingError::ByteOutOfRange(e)),
        Ok(t) => match spec_signature_type(t) {
            Err(e) => Err(N3DSParsingError::CIAParsingError(e)),
            Ok(sig) => {
                let header = pos + sig.spec_size() + sig.spec_padding_size();
                match spec_read_be16(data, header + TITLE_METADATA_CONTENT_COUNT_OFFSET) {
                    Err(e) => Err(N3DSParsingError::ByteOutOfRange(e)),
                    Ok(count) => spec_records(data, header + CONTENT_CHUNK_RECORDS_OFFSET, count as nat),
                }
            },
        },
    }
}

/// The content chunk records of a package's title metadata.
#[derive(Debug)]
pub struct CIATitleMetadata {
    pub content_chunk_records: Vec<CIAContentChunkRecord>,
}

/// The views of `records`.
pub open spec fn records_view(records: Seq<CIAContentChunkRecord>) -> Seq<ContentChunkRecordView> {
    records.map_values(|r: CIAContentChunkRecord| r@)
}

/// A title metadata result with the records replaced by their views.
pub open spec fn title_metadata_result_view(r: Result<CIATitleMetadata, N3DSParsingError>) -> Result<
    Seq<ContentChunkRecordView>,
    N3DSParsingError,
> {
    match r {
        Ok(t) => Ok(records_view(t.content_chunk_records@)),
        Err(e) => Err(e),
    }
}

impl CIATitleMetadata {
    /// Reads the title metadata that starts at `pos`.
    pub fn from_file(data: &[u8], pos: u128) -> (r: Result<CIATitleMetadata, N3DSParsingError>)
        requires
            pos <= MAX_POSITION,
        ensures
            title_metadata_result_view(r) == spec_title_metadata(data@, pos as int),
    {
        let signature_type = match read_be32(data, pos) {
            Ok(v) => v,
            Err(e) => return Err(N3DSParsingError::ByteOutOfRange(e)),
        };
        let signature_type = match CIASignatureType::try_from(signature_type) {
            Ok(t) => t,
            Err(e) => return Err(N3DSParsingError::CIAParsingError(e)),
        };
        let header_position = pos + signature_type.size() as u128 + signature_type.padding_size() as u128;
        let content_count = match read_be16(
            data,
            header_position + TITLE_METADATA_CONTENT_COUNT_OFFSET,
        ) {
            Ok(v) => v,
            Err(e) => return Err(N3DSParsingError::ByteOutOfRange(e)),
        };
        let base = header_position + CONTENT_CHUNK_RECORDS_OFFSET;
        let ghost gbase = base as int;
        let mut content_chunk_records: Vec<CIAContentChunkRecord> = Vec::new();
        let mut i: u16 = 0;
        assert(records_view(content_chunk_records@) =~= Seq::empty());
        while i < content_count
            invariant
                i <= content_count,
                spec_title_metadata(data@, pos as int) == spec_records(
                    data@,
                    gbase,
                    content_count as nat,
                ),
                base <= MAX_POSITION + 0x1000,
                gbase == base,
                spec_records(data@, gbase, i as nat) == Ok::<
                    Seq<ContentChunkRecordView>,
                    N3DSParsingError,
                >(records_view(content_chunk_records@)),
            decreases content_count - i,
        {
            let p = base + CONTENT_CHUNK_RECORD_SIZE as u128 * i as u128;
            assert(p == gbase + CONTENT_CHUNK_RECORD_SIZE * i);
            let start = match check_range(data, p, CONTENT_CHUNK_RECORD_SIZE) {
                Ok(s) => s,
                Err(e) => {
                    proof {
                        assert(spec_records(data@, gbase, (i + 1) as nat) == Err::<
                            Seq<ContentChunkRecordView>,
                            N3DSParsingError,
                        >(N3DSParsingError::ByteOutOfRange(e)));
                        lemma_records_error_persists(data@, gbase, (i + 1) as nat, content_count as nat);
                    }
                    return Err(N3DSParsingError::ByteOutOfRange(e));
                },
            };
            let bytes = &data[start..start + CONTENT_CHUNK_RECORD_SIZE];
            assert(bytes@ =~= data@.subrange(p as int, p + CONTENT_CHUNK_RECORD_SIZE));
            let record = match CIAContentChunkRecord::from_bytes(bytes) {
                Ok(r) => r,
                Err(e) => {
                    proof {
                        assert(spec_records(data@, gbase, (i + 1) as nat) == Err::<
                            Seq<ContentChunkRecordView>,
                            N3DSParsingError,
                        >(N3DSParsingError::CIAParsingError(e)));
                        lemma_records_error_persists(data@, gbase, (i + 1) as nat, content_count as nat);
                    }
                    return Err(N3DSParsingError::CIAParsingError(e));
                },
            };
            let ghost before = content_chunk_records@;
            assert(spec_record_at(data@, p as int) == Ok::<ContentChunkRecordView, N3DSParsingError>(
                record@,
            ));
            content_chunk_records.push(record);
            assert(records_view(content_chunk_records@) =~= records_view(before).push(record@));
            i = i + 1;
        }
        Ok(CIATitleMetadata { content_chunk_records })
    }

    pub fn content_chunk_records(&self) -> (records: &[CIAContentChunkRecord])
        ensures
            records@ == self.content_chunk_records@,
    {
        self.content_chunk_records.as_slice()
    }
}

/// `n` rounded up to the next multiple of 64.
pub open spec fn padded(n: int) -> int {
    (n + 63) / 64 * 64
}

fn padded_size(n: u64) -> (r: u128)
    ensures
        r == padded(n as int),
{
    (n as u128 + 63) / 64 * 64
}

/// The size fields of a package header.
#[derive(Debug, Clone, Copy, PartialEq, Eq, Structural)]
pub struct CIASectionSizes {
    pub certificate_chain_size: u32,
    pub ticket_size: u32,
    pub tmd_size: u32,
    pub meta_size: CIAMetaSize,
    pub content_size: u64,
}

/// The size fields at 0x08, 0x0C, 0x10, 0x14 (32 bits each) and 0x18 (64 bits),
/// little-endian, read in that order; the icon-metadata size must be legal.
pub open spec fn spec_section_sizes(data: Seq<u8>) -> Result<CIASectionSizes, N3DSParsingError> {
    match spec_read_le32(data, 0x08) {
        Err(e) => Err(N3DSParsingError::ByteOutOfRange(e)),
        Ok(certificate_chain_size) => match spec_read_le32(data, 0x0C) {
            Err(e) => Err(N3DSParsingError::ByteOutOfRange(e)),
            Ok(ticket_size) => match spec_read_le32(data, 0x10) {
                Err(e) => Err(N3DSParsingError::ByteOutOfRange(e)),
                Ok(tmd_size) => match spec_read_le32(data, 0x14) {
                    Err(e) => Err(N3DSParsingError::ByteOutOfRange(e)),
                    Ok(meta_raw) => match spec_meta_size(meta_raw) {
                        Err(e) => Err(N3DSParsingError::CIAParsingError(e)),
                        Ok(meta_size) => match spec_read_le64(data, 0x18) {
                            Err(e) => Err(N3DSParsingError::ByteOutOfRange(e)),
                            Ok(content_size) => Ok(
                                CIASectionSizes {
                                    certificate_chain_size,
                                    ticket_size,
                                    tmd_size,
                                    meta_size,
                                    content_size,
                                },
                            ),
                        },
                    },
                },
            },
        },
    }
}

impl CIASectionSizes {
    /// Where the title metadata starts: after the header, the padded certificate
    /// chain and the padded ticket.
    pub open spec fn spec_tmd_offset(&self) -> int {
        CIA_HEADER_SIZE + padded(self.certificate_chain_size as int) + padded(self.ticket_size as int)
    }

    /// Where the content starts: after the padded title metadata.
    pub open spec fn spec_content_offset(&self) -> int {
        self.spec_tmd_offset() + padded(self.tmd_size as int)
    }

    /// Where the icon-metadata section starts: after the padded content.
    pub open spec fn spec_meta_offset(&self) -> int {
        self.spec_content_offset() + padded(self.content_size as int)
    }

    /// Reads the size fields of the package header at the start of `data`.
    pub fn from_bytes(data: &[u8]) -> (r: Result<CIASectionSizes, N3DSParsingError>)
        ensures
            r == spec_section_sizes(data@),
    {
        let certificate_chain_size = match read_le32(data, CIA_HEADER_CERTIFICATE_CHAIN_SIZE_OFFSET) {
            Ok(v) => v,
            Err(e) => return Err(N3DSParsingError::ByteOutOfRange(e)),
        };
        let ticket_size = match read_le32(data, 0x0C) {
            Ok(v) => v,
            Err(e) => return Err(N3DSParsingError::ByteOutOfRange(e)),
        };
        let tmd_size = match read_le32(data, 0x10) {
            Ok(v) => v,
            Err(e) => return Err(N3DSParsingError::ByteOutOfRange(e)),
        };
        let meta_raw = match read_le32(data, 0x14) {
            Ok(v) => v,
            Err(e) => return Err(N3DSParsingError::ByteOutOfRange(e)),
        };
        let meta_size = match CIAMetaSize::try_from(meta_raw) {
            Ok(m) => m,
            Err(e) => return Err(N3DSParsingError::CIAParsingError(e)),
        };
        let content_size = match read_le64(data, 0x18) {
            Ok(v) => v,
            Err(e) => return Err(N3DSParsingError::ByteOutOfRange(e)),
        };
        Ok(CIASectionSizes { certificate_chain_size, ticket_size, tmd_size, meta_size, content_size })
    }

    /// Where the title metadata starts.
    pub fn tmd_offset(&self) -> (o: u128)
        ensures
            o == self.spec_tmd_offset(),
    {
        CIA_HEADER_SIZE + padded_size(self.certificate_chain_size as u64) + padded_size(
            self.ticket_size as u64,
        )
    }

    /// Where the content starts.
    pub fn content_offset(&self) -> (o: u128)
        ensures
            o == self.spec_content_offset(),
    {
        self.tmd_offset() + padded_size(self.tmd_size as u64)
    }

    /// Where the icon-metadata section starts.
    pub fn meta_offset(&self) -> (o: u128)
        ensures
            o == self.spec_meta_offset(),
    {
        self.content_offset() + padded_size(self.content_size)
    }
}

/// The first record, from `k` on, that describes the main content.
pub open spec fn first_main_content(records: Seq<ContentChunkRecordView>, k: int) -> Option<int>
    decreases records.len() - k,
{
    if k < 0 || k >= records.len() {
        None
    } else if records[k].1 == CIAContentIndex::MainContent {
        Some(k)
    } else {
        first_main_content(records, k + 1)
    }
}

/// The icon-metadata section at `pos`: its icon-metadata block sits at 0x400.
pub open spec fn spec_from_cia_meta(data: Seq<u8>, pos: int) -> Result<IconView, N3DSParsingError> {
    spec_from_smdh(data, pos + CIA_META_SMDH_OFFSET)
}

/// The fallback through the title metadata at `tmd_pos`: its main content, which
/// must not be encrypted, is the NCCH container at `content_offset`. That container
/// being encrypted is reported as the package having no icon; its other failures
/// pass on unchanged.
pub open spec fn spec_from_cia_tmd(data: Seq<u8>, tmd_pos: int, content_offset: int) -> Result<
    IconView,
    N3DSParsingError,
> {
    match spec_title_metadata(data, tmd_pos) {
        Err(e) => Err(e),
        Ok(records) => match first_main_content(records, 0) {
            None => Err(
                N3DSParsingError::CIAParsingError(
                    CIAParsingError::NoIconAvailable(CXIParsingError::NoCXIContent),
                ),
            ),
            Some(k) => if records[k].2.spec_is_encrypted() {
                Err(
                    N3DSParsingError::CIAParsingError(
                        CIAParsingError::NoIconAvailable(CXIParsingError::FileEncrypted),
                    ),
                )
            } else {
                no_icon_from_content(spec_from_cxi(data, content_offset))
            },
        },
    }
}

/// The content's report that it is encrypted, wrapped as the package having no
/// icon; every other result unchanged.
pub open spec fn no_icon_from_content(r: Result<IconView, N3DSParsingError>) -> Result<
    IconView,
    N3DSParsingError,
> {
    match r {
        Err(N3DSParsingError::CXIParsingError(CXIParsingError::FileEncrypted)) => Err(
            N3DSParsingError::CIAParsingError(
                CIAParsingError::NoIconAvailable(CXIParsingError::FileEncrypted),
            ),
        ),
        _ => r,
    }
}

/// The package `data`: its icon-metadata section when the header says one is
/// present, else the main content named by its title metadata.
pub open spec fn spec_from_cia(data: Seq<u8>) -> Result<IconView, N3DSParsingError> {
    match spec_section_sizes(data) {
        Err(e) => Err(e),
        Ok(sizes) => if sizes.meta_size == CIAMetaSize::Present {
            spec_from_cia_meta(data, sizes.spec_meta_offset())
        } else {
            spec_from_cia_tmd(data, sizes.spec_tmd_offset(), sizes.spec_content_offset())
        },
    }
}

impl SMDHIcon {
    /// Decodes the icon of the package `data`.
    pub fn from_cia(data: &[u8]) -> (r: Result<SMDHIcon, N3DSParsingError>)
        ensures
            smdh_result_view(r) == spec_from_cia(data@),
    {
        let sizes = CIASectionSizes::from_bytes(data)?;
        if sizes.meta_size == CIAMetaSize::Present {
            return SMDHIcon::from_cia_meta(data, sizes.meta_offset());
        }
        SMDHIcon::from_cia_tmd(data, sizes.tmd_offset(), sizes.content_offset())
    }

    /// Decodes the icon of the icon-metadata section that starts at `pos`.
    pub fn from_cia_meta(data: &[u8], pos: u128) -> (r: Result<SMDHIcon, N3DSParsingError>)
        requires
            pos + CIA_META_SMDH_OFFSET <= MAX_POSITION,
        ensures
            smdh_result_view(r) == spec_from_cia_meta(data@, pos as int),
    {
        SMDHIcon::from_smdh(data, pos + CIA_META_SMDH_OFFSET)
    }

    /// Decodes the icon of the main content, at `content_offset`, that the title
    /// metadata at `tmd_pos` describes.
    pub fn from_cia_tmd(data: &[u8], tmd_pos: u128, content_offset: u128) -> (r: Result<
        SMDHIcon,
        N3DSParsingError,
    >)
        requires
            tmd_pos <= MAX_POSITION,
            content_offset <= MAX_POSITION,
        ensures
            smdh_result_view(r) == spec_from_cia_tmd(data@, tmd_pos as int, content_offset as int),
    {
        let title_metadata = CIATitleMetadata::from_file(data, tmd_pos)?;
        let records = title_metadata.content_chunk_records();
        let ghost view = records_view(records@);
        let mut k: usize = 0;
        while k < records.len()
            invariant
                k <= records@.len(),
                view == records_view(records@),
                content_offset <= MAX_POSITION,
                spec_title_metadata(data@, tmd_pos as int) == Ok::<
                    Seq<ContentChunkRecordView>,
                    N3DSParsingError,
                >(view),
                first_main_content(view, 0) == first_main_content(view, k as int),
            decreases records@.len() - k,
        {
            if records[k].content_index == CIAContentIndex::MainContent {
                if records[k].content_type.is_encrypted() {
                    return Err(
                        N3DSParsingError::CIAParsingError(
                            CIAParsingError::NoIconAvailable(CXIParsingError::FileEncrypted),
                        ),
                    );
                }
                return match SMDHIcon::from_cxi(data, content_offset) {
                    Err(N3DSParsingError::CXIParsingError(CXIParsingError::FileEncrypted)) => Err(
                        N3DSParsingError::CIAParsingError(
                            CIAParsingError::NoIconAvailable(CXIParsingError::FileEncrypted),
                        ),
                    ),
                    r => r,
                };
            }
            k = k + 1;
        }
        Err(
            N3DSParsingError::CIAParsingError(
                CIAParsingError::NoIconAvailable(CXIParsingError::NoCXIContent),
            ),
        )
    }
}

} // verus!
