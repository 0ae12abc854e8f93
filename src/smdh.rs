//! The icon-metadata block (SMDH) and the homebrew executable (3DSX) that embeds one.

use vstd::prelude::*;

use crate::bytes::{
    check_range, in_bounds, out_of_range, read_bytes4, read_le16, read_le32, spec_read_bytes4,
    spec_read_le16, spec_read_le32,
};
use crate::icon::{
    decode_large_icon, large_icon_rgba, lemma_large_icon_opaque, DecodedIcon, LARGE_ICON_BYTES,
};
use crate::n3ds_errors::{n3dsx_magic, smdh_magic, FileMagicNotFound, N3DSParsingError};

verus! {

/// Offset of the large icon's pixel data inside an icon-metadata block.
pub const SMDH_LARGE_ICON_OFFSET: u128 = 0x24C0;

/// Offset of the icon-metadata offset field in a 3DSX extended header.
pub const N3DSX_EXTENDED_HEADER_OFFSET: u128 = 0x20;

/// Largest header size of a 3DSX without an extended header.
pub const N3DSX_BASIC_HEADER_SIZE: u16 = 32;

/// Bound on the absolute positions that the parsers start from: far beyond any
/// buffer, and low enough that the offsets added to it never wrap.
pub const MAX_POSITION: u128 = 0x1_0000_0000_0000_0000_0000;

/// The view of a decoded icon.
pub type IconView = (u32, u32, Seq<u8>);

/// Is `found` the tag `b0 b1 b2 b3`?
pub fn is_magic(found: [u8; 4], b0: u8, b1: u8, b2: u8, b3: u8) -> (r: bool)
    ensures
        r == (found@ == seq![b0, b1, b2, b3]),
{
    let r = found[0] == b0 && found[1] == b1 && found[2] == b2 && found[3] == b3;
    if r {
        assert(found@ =~= seq![b0, b1, b2, b3]);
    }
    r
}

/// The icon-metadata block at `pos`: the tag "SMDH", then the large icon's 0x1200
/// bytes at offset 0x24C0.
pub open spec fn spec_from_smdh(data: Seq<u8>, pos: int) -> Result<IconView, N3DSParsingError> {
    match spec_read_bytes4(data, pos) {
        Err(e) => Err(N3DSParsingError::ByteOutOfRange(e)),
        Ok(m) => if m@ != smdh_magic() {
            Err(N3DSParsingError::FileMagicNotFound(FileMagicNotFound::SMDHMagicNotFound(m)))
        } else if !in_bounds(data, pos + SMDH_LARGE_ICON_OFFSET, LARGE_ICON_BYTES as int) {
            Err(
                N3DSParsingError::ByteOutOfRange(
                    out_of_range(data, pos + SMDH_LARGE_ICON_OFFSET, LARGE_ICON_BYTES as int),
                ),
            )
        } else {
            Ok((48u32, 48u32, large_icon_rgba(data, pos + SMDH_LARGE_ICON_OFFSET)))
        },
    }
}

/// Whatever decodes from a well-formed icon-metadata block is 48x48 pixels of four
/// bytes, and every pixel is fully opaque.
pub proof fn lemma_smdh_icon_opaque(data: Seq<u8>, pos: int)
    ensures
        spec_from_smdh(data, pos) matches Ok(v) ==> v.0 == 48 && v.1 == 48 && v.2.len() == 48 * 48
            * 4 && forall|p: int| 0 <= p < 48 * 48 ==> #[trigger] v.2[4 * p + 3] == 0xFF,
{
    lemma_large_icon_opaque(data, pos + SMDH_LARGE_ICON_OFFSET);
}

/// The 3DSX executable at the start of `data`: the tag "3DSX", a header size that
/// leaves room for the extended header, whose first two fields give the
/// icon-metadata block's offset and size.
pub open spec fn spec_from_n3dsx(data: Seq<u8>) -> Result<IconView, N3DSParsingError> {
    match spec_read_bytes4(data, 0) {
        Err(e) => Err(N3DSParsingError::ByteOutOfRange(e)),
        Ok(m) => if m@ != n3dsx_magic() {
            Err(N3DSParsingError::FileMagicNotFound(FileMagicNotFound::N3DSXMagicNotFound(m)))
        } else {
            match spec_read_le16(data, 4) {
                Err(e) => Err(N3DSParsingError::ByteOutOfRange(e)),
                Ok(header_size) => if header_size <= N3DSX_BASIC_HEADER_SIZE {
                    Err(N3DSParsingError::N3DSXParsingError3DSXNoExtendedHeader(header_size))
                } else {
                    match spec_read_le32(data, N3DSX_EXTENDED_HEADER_OFFSET as int) {
                        Err(e) => Err(N3DSParsingError::ByteOutOfRange(e)),
                        Ok(smdh_offset) => match spec_read_le32(
                            data,
                            N3DSX_EXTENDED_HEADER_OFFSET + 4,
                        ) {
                            Err(e) => Err(N3DSParsingError::ByteOutOfRange(e)),
                            Ok(_) => spec_from_smdh(data, smdh_offset as int),
                        },
                    }
                },
            }
        },
    }
}

/// The icon of the package family.
#[derive(Debug)]
pub struct SMDHIcon {
    pub large_icon: DecodedIcon,
}

impl View for SMDHIcon {
    type V = IconView;

    open spec fn view(&self) -> IconView {
        self.large_icon@
    }
}

/// A parse result with the icon replaced by its view.
pub open spec fn smdh_result_view(r: Result<SMDHIcon, N3DSParsingError>) -> Result<
    IconView,
    N3DSParsingError,
> {
    match r {
        Ok(icon) => Ok(icon@),
        Err(e) => Err(e),
    }
}

impl SMDHIcon {
    /// A copy of the 48x48 icon.
    pub fn get_large_icon(&self) -> (icon: DecodedIcon)
        ensures
            icon@ == self@,
    {
        let rgba = self.large_icon.rgba.clone();
        assert(rgba@ =~= self.large_icon.rgba@);
        DecodedIcon { width: self.large_icon.width, height: self.large_icon.height, rgba }
    }

    /// Decodes the icon-metadata block that starts at `pos`.
    pub fn from_smdh(data: &[u8], pos: u128) -> (r: Result<SMDHIcon, N3DSParsingError>)
        requires
            pos <= MAX_POSITION,
        ensures
            smdh_result_view(r) == spec_from_smdh(data@, pos as int),
    {
        let magic = match read_bytes4(data, pos) {
            Ok(m) => m,
            Err(e) => return Err(N3DSParsingError::ByteOutOfRange(e)),
        };
        if !is_magic(magic, 0x53, 0x4D, 0x44, 0x48) {
            return Err(
                N3DSParsingError::FileMagicNotFound(FileMagicNotFound::SMDHMagicNotFound(magic)),
            );
        }
        let start = match check_range(data, pos + SMDH_LARGE_ICON_OFFSET, LARGE_ICON_BYTES) {
            Ok(i) => i,
            Err(e) => return Err(N3DSParsingError::ByteOutOfRange(e)),
        };
        Ok(SMDHIcon { large_icon: decode_large_icon(data, start) })
    }

    /// Decodes the icon of the 3DSX executable `data`.
    pub fn from_n3dsx(data: &[u8]) -> (r: Result<SMDHIcon, N3DSParsingError>)
        ensures
            smdh_result_view(r) == spec_from_n3dsx(data@),
    {
        let magic = match read_bytes4(data, 0) {
            Ok(m) => m,
            Err(e) => return Err(N3DSParsingError::ByteOutOfRange(e)),
        };
        if !is_magic(magic, 0x33, 0x44, 0x53, 0x58) {
            return Err(
                N3DSParsingError::FileMagicNotFound(FileMagicNotFound::N3DSXMagicNotFound(magic)),
            );
        }
        let header_size = match read_le16(data, 4) {
            Ok(v) => v,
            Err(e) => return Err(N3DSParsingError::ByteOutOfRange(e)),
        };
        if header_size <= N3DSX_BASIC_HEADER_SIZE {
            return Err(N3DSParsingError::N3DSXParsingError3DSXNoExtendedHeader(header_size));
        }
        let smdh_offset = match read_le32(data, N3DSX_EXTENDED_HEADER_OFFSET) {
            Ok(v) => v,
            Err(e) => return Err(N3DSParsingError::ByteOutOfRange(e)),
        };
        if let Err(e) = read_le32(data, N3DSX_EXTENDED_HEADER_OFFSET + 4) {
            return Err(N3DSParsingError::ByteOutOfRange(e));
        }
        SMDHIcon::from_smdh(data, smdh_offset as u128)
    }
}

} // verus!
