//! Bounds-checked reads of fixed-width fields out of an immutable byte buffer.
//!
//! Positions are absolute byte offsets into the buffer. They are carried as
//! `u128` so that offsets assembled from 32- and 64-bit header fields never wrap.

use vstd::prelude::*;

verus! {

/// A read that would reach past the end of the buffer.
#[derive(Debug, Clone, Copy, PartialEq, Eq, Structural)]
pub struct ByteOutOfRange {
    /// First byte of the attempted read.
    pub start: u128,
    /// Number of bytes the read wanted.
    pub length: usize,
    /// Size of the buffer.
    pub available: usize,
}

/// The bytes `start .. start + len` lie inside `data`.
pub open spec fn in_bounds(data: Seq<u8>, start: int, len: int) -> bool {
    0 <= start && start + len <= data.len()
}

/// The error that a read of `len` bytes at `start` reports.
pub open spec fn out_of_range(data: Seq<u8>, start: int, len: int) -> ByteOutOfRange {
    ByteOutOfRange { start: start as u128, length: len as usize, available: data.len() as usize }
}

/// Little-endian value of the two bytes at `i`.
pub open spec fn le16(s: Seq<u8>, i: int) -> u16 {
    (s[i] + 0x100 * s[i + 1]) as u16
}

/// Little-endian value of the four bytes at `i`.
pub open spec fn le32(s: Seq<u8>, i: int) -> u32 {
    (s[i] + 0x100 * s[i + 1] + 0x1_0000 * s[i + 2] + 0x100_0000 * s[i + 3]) as u32
}

/// Little-endian value of the eight bytes at `i`.
pub open spec fn le64(s: Seq<u8>, i: int) -> u64 {
    (le32(s, i) + 0x1_0000_0000 * le32(s, i + 4)) as u64
}

/// Big-endian value of the two bytes at `i`.
pub open spec fn be16(s: Seq<u8>, i: int) -> u16 {
    (0x100 * s[i] + s[i + 1]) as u16
}

/// Big-endian value of the four bytes at `i`.
pub open spec fn be32(s: Seq<u8>, i: int) -> u32 {
    (0x100_0000 * s[i] + 0x1_0000 * s[i + 1] + 0x100 * s[i + 2] + s[i + 3]) as u32
}

/// Big-endian value of the eight bytes at `i`.
pub open spec fn be64(s: Seq<u8>, i: int) -> u64 {
    (0x1_0000_0000 * be32(s, i) + be32(s, i + 4)) as u64
}

/// Reading a little-endian 16-bit field at `pos`.
pub open spec fn spec_read_le16(data: Seq<u8>, pos: int) -> Result<u16, ByteOutOfRange> {
    if in_bounds(data, pos, 2) {
        Ok(le16(data, pos))
    } else {
        Err(out_of_range(data, pos, 2))
    }
}

/// Reading a little-endian 32-bit field at `pos`.
pub open spec fn spec_read_le32(data: Seq<u8>, pos: int) -> Result<u32, ByteOutOfRange> {
    if in_bounds(data, pos, 4) {
        Ok(le32(data, pos))
    } else {
        Err(out_of_range(data, pos, 4))
    }
}

/// Reading a little-endian 64-bit field at `pos`.
pub open spec fn spec_read_le64(data: Seq<u8>, pos: int) -> Result<u64, ByteOutOfRange> {
    if in_bounds(data, pos, 8) {
        Ok(le64(data, pos))
    } else {
        Err(out_of_range(data, pos, 8))
    }
}

/// Reading a big-endian 16-bit field at `pos`.
pub open spec fn spec_read_be16(data: Seq<u8>, pos: int) -> Result<u16, ByteOutOfRange> {
    if in_bounds(data, pos, 2) {
        Ok(be16(data, pos))
    } else {
        Err(out_of_range(data, pos, 2))
    }
}

/// Reading a big-endian 32-bit field at `pos`.
pub open spec fn spec_read_be32(data: Seq<u8>, pos: int) -> Result<u32, ByteOutOfRange> {
    if in_bounds(data, pos, 4) {
        Ok(be32(data, pos))
    } else {
        Err(out_of_range(data, pos, 4))
    }
}

/// The four bytes at `pos`, as an array.
pub open spec fn bytes4(data: Seq<u8>, pos: int) -> [u8; 4] {
    [data[pos], data[pos + 1], data[pos + 2], data[pos + 3]]
}

/// Reading four raw bytes at `pos`.
pub open spec fn spec_read_bytes4(data: Seq<u8>, pos: int) -> Result<[u8; 4], ByteOutOfRange> {
    if in_bounds(data, pos, 4) {
        Ok(bytes4(data, pos))
    } else {
        Err(out_of_range(data, pos, 4))
    }
}

/// Checks that `len` bytes at `pos` lie inside `data` and returns `pos` as an index.
pub fn check_range(data: &[u8], pos: u128, len: usize) -> (r: Result<usize, ByteOutOfRange>)
    ensures
        r matches Ok(i) ==> i == pos,
        r.is_ok() <==> in_bounds(data@, pos as int, len as int),
        r matches Err(e) ==> e == out_of_range(data@, pos as int, len as int),
        data@.len() <= usize::MAX,
{
    let size = data.len();
    if pos <= size as u128 && (size as u128) - pos >= len as u128 {
        Ok(pos as usize)
    } else {
        Err(ByteOutOfRange { start: pos, length: len, available: size })
    }
}

/// The little-endian 16-bit field at `i`.
pub fn le16_at(s: &[u8], i: usize) -> (v: u16)
    requires
        i + 2 <= s@.len(),
    ensures
        v == le16(s@, i as int),
{
    s[i] as u16 + 0x100 * s[i + 1] as u16
}

/// The little-endian 32-bit field at `i`.
pub fn le32_at(s: &[u8], i: usize) -> (v: u32)
    requires
        i + 4 <= s@.len(),
    ensures
        v == le32(s@, i as int),
{
    s[i] as u32 + 0x100 * s[i + 1] as u32 + 0x1_0000 * s[i + 2] as u32 + 0x100_0000 * s[i + 3] as u32
}

/// The little-endian 64-bit field at `i`.
pub fn le64_at(s: &[u8], i: usize) -> (v: u64)
    requires
        i + 8 <= s@.len(),
    ensures
        v == le64(s@, i as int),
{
    let size = s.len();
    assert(i + 4 < size);
    let lo = le32_at(s, i) as u64;
    let hi = le32_at(s, i + 4) as u64;
    lo + 0x1_0000_0000 * hi
}

/// The big-endian 16-bit field at `i`.
pub fn be16_at(s: &[u8], i: usize) -> (v: u16)
    requires
        i + 2 <= s@.len(),
    ensures
        v == be16(s@, i as int),
{
    0x100 * s[i] as u16 + s[i + 1] as u16
}

/// The big-endian 32-bit field at `i`.
pub fn be32_at(s: &[u8], i: usize) -> (v: u32)
    requires
        i + 4 <= s@.len(),
    ensures
        v == be32(s@, i as int),
{
    0x100_0000 * s[i] as u32 + 0x1_0000 * s[i + 1] as u32 + 0x100 * s[i + 2] as u32 + s[i + 3] as u32
}

/// The big-endian 64-bit field at `i`.
pub fn be64_at(s: &[u8], i: usize) -> (v: u64)
    requires
        i + 8 <= s@.len(),
    ensures
        v == be64(s@, i as int),
{
    let size = s.len();
    assert(i + 4 < size);
    let hi = be32_at(s, i) as u64;
    let lo = be32_at(s, i + 4) as u64;
    0x1_0000_0000 * hi + lo
}

/// Reads the little-endian 16-bit field at `pos`.
pub fn read_le16(data: &[u8], pos: u128) -> (r: Result<u16, ByteOutOfRange>)
    ensures
        r == spec_read_le16(data@, pos as int),
{
    let i = check_range(data, pos, 2)?;
    Ok(le16_at(data, i))
}

/// Reads the little-endian 32-bit field at `pos`.
pub fn read_le32(data: &[u8], pos: u128) -> (r: Result<u32, ByteOutOfRange>)
    ensures
        r == spec_read_le32(data@, pos as int),
{
    let i = check_range(data, pos, 4)?;
    Ok(le32_at(data, i))
}

/// Reads the little-endian 64-bit field at `pos`.
pub fn read_le64(data: &[u8], pos: u128) -> (r: Result<u64, ByteOutOfRange>)
    ensures
        r == spec_read_le64(data@, pos as int),
{
    let i = check_range(data, pos, 8)?;
    Ok(le64_at(data, i))
}

/// Reads the big-endian 16-bit field at `pos`.
pub fn read_be16(data: &[u8], pos: u128) -> (r: Result<u16, ByteOutOfRange>)
    ensures
        r == spec_read_be16(data@, pos as int),
{
    let i = check_range(data, pos, 2)?;
    Ok(be16_at(data, i))
}

/// Reads the big-endian 32-bit field at `pos`.
pub fn read_be32(data: &[u8], pos: u128) -> (r: Result<u32, ByteOutOfRange>)
    ensures
        r == spec_read_be32(data@, pos as int),
{
    let i = check_range(data, pos, 4)?;
    Ok(be32_at(data, i))
}

/// Reads the four bytes at `pos`.
pub fn read_bytes4(data: &[u8], pos: u128) -> (r: Result<[u8; 4], ByteOutOfRange>)
    ensures
        r == spec_read_bytes4(data@, pos as int),
{
    let i = check_range(data, pos, 4)?;
    let a = [data[i], data[i + 1], data[i + 2], data[i + 3]];
    assert(a@ =~= bytes4(data@, pos as int)@);
    Ok(a)
}

} // verus!
