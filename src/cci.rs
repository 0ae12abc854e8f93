//! The disc image (NCSD): a partition table whose first entry is an NCCH container.

use vstd::prelude::*;

use crate::bytes::{
    bytes4, check_range, in_bounds, le32, le32_at, out_of_range, read_bytes4, spec_read_bytes4,
};
use crate::cxi::{spec_from_cxi, MEDIA_UNIT_SIZE, NCCH_MAGIC_OFFSET};
use crate::n3ds_errors::{
    n3dsx_magic, ncch_magic, ncsd_magic, smdh_magic, FileMagicNotFound, N3DSParsingError,
};
use crate::smdh::{is_magic, smdh_result_view, spec_from_n3dsx, spec_from_smdh, IconView, SMDHIcon};

verus! {

/// Offset of the magic tag in an NCSD header.
pub const NCSD_MAGIC_OFFSET: u128 = 0x100;

/// Offset of the partition table in an NCSD header.
pub const NCSD_PARTITION_TABLE_OFFSET: u128 = 0x120;

/// Size of the partition table: eight entries of two 32-bit fields.
pub const NCSD_PARTITION_TABLE_SIZE: usize = 0x40;

/// A partition table entry, in bytes.
#[derive(Debug, Clone, Copy, PartialEq, Eq, Structural)]
pub struct CCIPartition {
    pub offset: u64,
    pub length: u64,
}

impl CCIPartition {
    /// Reads an 8-byte entry: offset and length, both in media units.
    pub fn from_bytes(partition_bytes: &[u8]) -> (p: CCIPartition)
        requires
            partition_bytes@.len() == 8,
        ensures
            p.offset == le32(partition_bytes@, 0) * MEDIA_UNIT_SIZE,
            p.length == le32(partition_bytes@, 4) * MEDIA_UNIT_SIZE,
    {
        let offset = le32_at(partition_bytes, 0) as u64;
        let length = le32_at(partition_bytes, 4) as u64;
        CCIPartition { offset: offset * MEDIA_UNIT_SIZE, length: length * MEDIA_UNIT_SIZE }
    }

    pub fn offset(&self) -> (o: u64)
        ensures
            o == self.offset,
    {
        self.offset
    }

    pub fn length(&self) -> (l: u64)
        ensures
            l == self.length,
    {
        self.length
    }
}

/// Byte offset of the first partition of the disc image `data`.
pub open spec fn first_partition_offset(data: Seq<u8>) -> int {
    le32(data, NCSD_PARTITION_TABLE_OFFSET as int) * MEDIA_UNIT_SIZE
}

/// The disc image `data`: the tag "NCSD" at 0x100, the partition table at 0x120,
/// and the NCCH container at the first partition's offset.
pub open spec fn spec_from_cci(data: Seq<u8>) -> Result<IconView, N3DSParsingError> {
    match spec_read_bytes4(data, NCSD_MAGIC_OFFSET as int) {
        Err(e) => Err(N3DSParsingError::ByteOutOfRange(e)),
        Ok(m) => if m@ != ncsd_magic() {
            Err(N3DSParsingError::FileMagicNotFound(FileMagicNotFound::NCSDMagicNotFound(m)))
        } else if !in_bounds(
            data,
            NCSD_PARTITION_TABLE_OFFSET as int,
            NCSD_PARTITION_TABLE_SIZE as int,
        ) {
            Err(
                N3DSParsingError::ByteOutOfRange(
                    out_of_range(
                        data,
                        NCSD_PARTITION_TABLE_OFFSET as int,
                        NCSD_PARTITION_TABLE_SIZE as int,
                    ),
                ),
            )
        } else {
            spec_from_cxi(data, first_partition_offset(data))
        },
    }
}

/// A disc image whose tag and partition table are in place decodes exactly as the
/// NCCH container at its first partition's offset; in particular, when that
/// offset is 0, exactly as the container parser run on the same buffer at 0.
pub proof fn lemma_disc_image_delegates(data: Seq<u8>)
    requires
        in_bounds(data, NCSD_PARTITION_TABLE_OFFSET as int, NCSD_PARTITION_TABLE_SIZE as int),
        data.subrange(NCSD_MAGIC_OFFSET as int, NCSD_MAGIC_OFFSET + 4) == ncsd_magic(),
    ensures
        spec_from_cci(data) == spec_from_cxi(data, first_partition_offset(data)),
        le32(data, NCSD_PARTITION_TABLE_OFFSET as int) == 0 ==> spec_from_cci(data) == spec_from_cxi(
            data,
            0,
        ),
{
    let m = bytes4(data, NCSD_MAGIC_OFFSET as int);
    assert(m@ =~= data.subrange(NCSD_MAGIC_OFFSET as int, NCSD_MAGIC_OFFSET + 4));
}

/// A package parser that finds four bytes other than its tag where the tag
/// belongs fails with the error of that tag, holding those four bytes, whatever
/// else the buffer holds.
pub proof fn lemma_magic_mismatch_reported(data: Seq<u8>, pos: int)
    ensures
        in_bounds(data, pos, 4) && bytes4(data, pos)@ != smdh_magic() ==> spec_from_smdh(data, pos)
            == Err::<IconView, N3DSParsingError>(
            N3DSParsingError::FileMagicNotFound(
                FileMagicNotFound::SMDHMagicNotFound(bytes4(data, pos)),
            ),
        ),
        in_bounds(data, 0, 4) && bytes4(data, 0)@ != n3dsx_magic() ==> spec_from_n3dsx(data)
            == Err::<IconView, N3DSParsingError>(
            N3DSParsingError::FileMagicNotFound(FileMagicNotFound::N3DSXMagicNotFound(bytes4(data, 0))),
        ),
        in_bounds(data, pos + NCCH_MAGIC_OFFSET, 4) && bytes4(data, pos + NCCH_MAGIC_OFFSET)@
            != ncch_magic() ==> spec_from_cxi(data, pos) == Err::<IconView, N3DSParsingError>(
            N3DSParsingError::FileMagicNotFound(
                FileMagicNotFound::NCCHMagicNotFound(bytes4(data, pos + NCCH_MAGIC_OFFSET)),
            ),
        ),
        in_bounds(data, NCSD_MAGIC_OFFSET as int, 4) && bytes4(data, NCSD_MAGIC_OFFSET as int)@
            != ncsd_magic() ==> spec_from_cci(data) == Err::<IconView, N3DSParsingError>(
            N3DSParsingError::FileMagicNotFound(
                FileMagicNotFound::NCSDMagicNotFound(bytes4(data, NCSD_MAGIC_OFFSET as int)),
            ),
        ),
{
}

impl SMDHIcon {
    /// Decodes the icon of the disc image `data`.
    pub fn from_cci(data: &[u8]) -> (r: Result<SMDHIcon, N3DSParsingError>)
        ensures
            smdh_result_view(r) == spec_from_cci(data@),
    {
        let magic = match read_bytes4(data, NCSD_MAGIC_OFFSET) {
            Ok(m) => m,
            Err(e) => return Err(N3DSParsingError::ByteOutOfRange(e)),
        };
        if !is_magic(magic, 0x4E, 0x43, 0x53, 0x44) {
            return Err(
                N3DSParsingError::FileMagicNotFound(FileMagicNotFound::NCSDMagicNotFound(magic)),
            );
        }
        let table = match check_range(data, NCSD_PARTITION_TABLE_OFFSET, NCSD_PARTITION_TABLE_SIZE) {
            Ok(i) => i,
            Err(e) => return Err(N3DSParsingError::ByteOutOfRange(e)),
        };
        let mut partitions: Vec<CCIPartition> = Vec::with_capacity(8);
        let mut k: usize = 0;
        while k < 8
            invariant
                k <= 8,
                table == NCSD_PARTITION_TABLE_OFFSET,
                table + NCSD_PARTITION_TABLE_SIZE <= data@.len(),
                partitions@.len() == k,
                k > 0 ==> partitions@[0].offset == first_partition_offset(data@),
            decreases 8 - k,
        {
            let entry = &data[table + 8 * k..table + 8 * k + 8];
            let partition = CCIPartition::from_bytes(entry);
            assert(k == 0 ==> le32(entry@, 0) == le32(data@, NCSD_PARTITION_TABLE_OFFSET as int));
            partitions.push(partition);
            k = k + 1;
        }
        let first = match partitions.first() {
            Some(p) => *p,
            None => return Err(N3DSParsingError::CCIErrorGettingExecutableContentPartition),
        };
        SMDHIcon::from_cxi(data, first.offset() as u128)
    }
}

} // verus!
