//! The icon of a handheld cartridge image: a 32x32 picture of 4-bit palette
//! indices in 8x8 tiles, with a 16-colour BGR555 palette, inside the banner that
//! the cartridge header points at.

use vstd::prelude::*;

use crate::bytes::{in_bounds, le16, le32, out_of_range, read_le16, read_le32, spec_read_le32, ByteOutOfRange};
use crate::color::{bgr555_blue, bgr555_green, bgr555_red, Rgb888};
use crate::icon::DecodedIcon;

verus! {

/// Header field holding the banner's offset.
pub const BANNER_OFFSET_FIELD: u128 = 0x068;

/// Bytes of the banner that the static icon needs: version, checksums, tile data
/// and palette.
pub const BANNER_SIZE: usize = 0x240;

/// Offset of the tile data inside the banner.
pub const LOGO_OFFSET: usize = 0x020;

/// Size of the tile data: 32x32 pixels of four bits.
pub const LOGO_SIZE: usize = 0x200;

/// Offset of the palette inside the banner.
pub const PALETTE_OFFSET: usize = 0x220;

/// Size of the palette: 16 colours of two bytes.
pub const PALETTE_SIZE: usize = 0x20;

/// Failures while reading a cartridge banner.
#[derive(Debug, Clone, Copy, PartialEq, Eq, Structural)]
pub enum NDSParsingError {
    /// The banner's version tag is none of the known ones.
    UnknownOrInvalidNDSIconVersion(u16),
    /// A field lies past the end of the file.
    ByteOutOfRange(ByteOutOfRange),
}

/// The banner versions. Only the static icon is decoded, also for `DSi`, whose
/// banner carries an animated icon besides.
#[derive(Debug, Clone, Copy, PartialEq, Eq, Structural)]
pub enum NDSIconVersion {
    V1,
    V2,
    V3,
    DSi,
}

/// The banner version that a version tag names.
pub open spec fn spec_icon_version(value: u16) -> Result<NDSIconVersion, NDSParsingError> {
    if value == 0x0001 {
        Ok(NDSIconVersion::V1)
    } else if value == 0x0002 {
        Ok(NDSIconVersion::V2)
    } else if value == 0x0003 {
        Ok(NDSIconVersion::V3)
    } else if value == 0x0103 {
        Ok(NDSIconVersion::DSi)
    } else {
        Err(NDSParsingError::UnknownOrInvalidNDSIconVersion(value))
    }
}

impl TryFrom<u16> for NDSIconVersion {
    type Error = NDSParsingError;

    fn try_from(value: u16) -> (r: Result<NDSIconVersion, NDSParsingError>) {
        match value {
            0x0001 => Ok(NDSIconVersion::V1),
            0x0002 => Ok(NDSIconVersion::V2),
            0x0003 => Ok(NDSIconVersion::V3),
            0x0103 => Ok(NDSIconVersion::DSi),
            _ => Err(NDSParsingError::UnknownOrInvalidNDSIconVersion(value)),
        }
    }
}

impl vstd::std_specs::convert::TryFromSpecImpl<u16> for NDSIconVersion {
    open spec fn obeys_try_from_spec() -> bool {
        true
    }

    open spec fn try_from_spec(v: u16) -> Result<NDSIconVersion, NDSParsingError> {
        spec_icon_version(v)
    }
}

/// A palette entry with its alpha.
#[derive(Debug, Clone, Copy, PartialEq, Eq, Structural)]
pub struct PaletteColor {
    pub r: u8,
    pub g: u8,
    pub b: u8,
    pub a: u8,
}

impl PaletteColor {
    pub fn new(r: u8, g: u8, b: u8, a: u8) -> (c: PaletteColor)
        ensures
            c == (PaletteColor { r, g, b, a }),
    {
        PaletteColor { r, g, b, a }
    }
}

/// Entry `k` of the palette stored in `raw`: a BGR555 colour, transparent for
/// entry 0 and opaque otherwise.
pub open spec fn palette_entry(raw: Seq<u8>, k: int) -> PaletteColor {
    let c = le16(raw, 2 * k);
    PaletteColor {
        r: bgr555_red(c),
        g: bgr555_green(c),
        b: bgr555_blue(c),
        a: if k == 0 { 0x00 } else { 0xFF },
    }
}

/// The 16 colours of the palette stored in `raw`.
pub open spec fn palette_of(raw: Seq<u8>) -> Seq<PaletteColor> {
    Seq::new(16, |k: int| palette_entry(raw, k))
}

/// Offset, in the tile data, of the byte that holds pixel `(x, y)`: 8x8 tiles in
/// raster order, each eight rows of four bytes.
pub open spec fn logo_byte_offset(x: int, y: int) -> int {
    ((y / 8) * 4 + x / 8) * 32 + (y % 8) * 4 + (x % 8) / 2
}

/// Palette index of pixel `(x, y)`: the low nibble of its byte for an even column,
/// the high nibble for an odd one.
pub open spec fn logo_palette_index(logo: Seq<u8>, x: int, y: int) -> int {
    let byte = logo[logo_byte_offset(x, y)] as int;
    if x % 2 == 0 {
        byte % 16
    } else {
        byte / 16
    }
}

/// Channel `c` (red, green, blue, alpha) of pixel `p`, in raster order.
pub open spec fn cartridge_icon_channel(logo: Seq<u8>, palette: Seq<PaletteColor>, p: int, c: int) -> u8 {
    let color = palette[logo_palette_index(logo, p % 32, p / 32)];
    if c == 0 {
        color.r
    } else if c == 1 {
        color.g
    } else if c == 2 {
        color.b
    } else {
        color.a
    }
}

/// The RGBA bytes of the 32x32 icon drawn from `logo` with `palette`.
pub open spec fn cartridge_icon_rgba(logo: Seq<u8>, palette: Seq<PaletteColor>) -> Seq<u8> {
    Seq::new(32 * 32 * 4, |i: int| cartridge_icon_channel(logo, palette, i / 4, i % 4))
}

/// Decodes the 16 palette colours; entry 0 is the transparent background.
pub fn extract_palette_colors(palette_raw: &[u8]) -> (palette: Vec<PaletteColor>)
    requires
        palette_raw@.len() == PALETTE_SIZE,
    ensures
        palette@ == palette_of(palette_raw@),
{
    let mut palette: Vec<PaletteColor> = Vec::with_capacity(16);
    let mut k: usize = 0;
    while k < 16
        invariant
            k <= 16,
            palette_raw@.len() == PALETTE_SIZE,
            palette@.len() == k,
            forall|j: int| 0 <= j < k ==> palette@[j] == palette_entry(palette_raw@, j),
        decreases 16 - k,
    {
        let c = Rgb888::from_bgr555_bytes([palette_raw[2 * k], palette_raw[2 * k + 1]]);
        let a: u8 = if k == 0 {
            0x00
        } else {
            0xFF
        };
        palette.push(PaletteColor::new(c.r(), c.g(), c.b(), a));
        k = k + 1;
    }
    assert(palette@ =~= palette_of(palette_raw@));
    palette
}

proof fn lemma_logo_addressing(x: u32, y: u32)
    by (bit_vector)
    requires
        x < 32,
        y < 32,
    ensures
        ((y >> 3u32) << 7u32) + ((x >> 3u32) << 5u32) + ((y & 7) << 2u32) + ((x & 7) >> 1u32) == ((y
            / 8) * 4 + x / 8) * 32 + (y % 8) * 4 + (x % 8) / 2,
        ((y / 8) * 4 + x / 8) * 32 + (y % 8) * 4 + (x % 8) / 2 < 0x200,
        (x & 1 == 0) <==> (x % 2 == 0),
{
}

proof fn lemma_nibbles(byte: u8)
    by (bit_vector)
    ensures
        byte & 0x0F == byte % 16,
        byte >> 4u8 == byte / 16,
{
}

/// Draws the 32x32 icon: every tile-data byte gives two neighbouring pixels, low
/// nibble on the left, each nibble an index into the first 16 colours of `palette`.
pub fn generate_nds_icon(logo_data: &[u8], palette: &[PaletteColor]) -> (icon: DecodedIcon)
    requires
        logo_data@.len() == LOGO_SIZE,
        palette@.len() >= 16,
    ensures
        icon@ == (32u32, 32u32, cartridge_icon_rgba(logo_data@, palette@)),
{
    let ghost want = cartridge_icon_rgba(logo_data@, palette@);
    let mut rgba: Vec<u8> = Vec::with_capacity(32 * 32 * 4);
    let mut p: u32 = 0;
    while p < 32 * 32
        invariant
            p <= 32 * 32,
            logo_data@.len() == LOGO_SIZE,
            palette@.len() >= 16,
            want == cartridge_icon_rgba(logo_data@, palette@),
            rgba@.len() == 4 * p,
            forall|i: int| 0 <= i < 4 * p ==> rgba@[i] == want[i],
        decreases 32 * 32 - p,
    {
        let x = p % 32;
        let y = p / 32;
        proof {
            lemma_logo_addressing(x, y);
        }
        let pos = ((y >> 3) << 7) + ((x >> 3) << 5) + ((y & 7) << 2) + ((x & 7) >> 1);
        let byte = logo_data[pos as usize];
        proof {
            lemma_nibbles(byte);
        }
        let index = if x & 1 == 0 {
            byte & 0x0F
        } else {
            byte >> 4
        };
        let color = palette[index as usize];
        proof {
            let q = 4 * p as int;
            assert(q / 4 == p && (q + 1) / 4 == p && (q + 2) / 4 == p && (q + 3) / 4 == p);
            assert(q % 4 == 0 && (q + 1) % 4 == 1 && (q + 2) % 4 == 2 && (q + 3) % 4 == 3);
        }
        rgba.push(color.r);
        rgba.push(color.g);
        rgba.push(color.b);
        rgba.push(color.a);
        p = p + 1;
    }
    assert(rgba@ =~= want);
    DecodedIcon { width: 32, height: 32, rgba }
}

/// Every pixel of a cartridge icon is transparent exactly where its palette index
/// is 0, and opaque elsewhere; the icon has 32x32 pixels of four bytes.
pub proof fn lemma_cartridge_icon_alpha(logo: Seq<u8>, palette_raw: Seq<u8>)
    requires
        logo.len() == LOGO_SIZE,
    ensures
        cartridge_icon_rgba(logo, palette_of(palette_raw)).len() == 32 * 32 * 4,
        forall|p: int|
            0 <= p < 32 * 32 ==> #[trigger] cartridge_icon_rgba(logo, palette_of(palette_raw))[4 * p
                + 3] == if logo_palette_index(logo, p % 32, p / 32) == 0 {
                0x00u8
            } else {
                0xFFu8
            },
{
    assert forall|p: int| 0 <= p < 32 * 32 implies #[trigger] cartridge_icon_rgba(
        logo,
        palette_of(palette_raw),
    )[4 * p + 3] == if logo_palette_index(logo, p % 32, p / 32) == 0 {
        0x00u8
    } else {
        0xFFu8
    } by {
        assert((4 * p + 3) / 4 == p && (4 * p + 3) % 4 == 3);
        let k = logo_palette_index(logo, p % 32, p / 32);
        assert(0 <= k < 16);
    }
}

/// The cartridge banner: its version tag and the decoded static icon.
#[derive(Debug)]
pub struct NDSBannerDetails {
    pub icon_version: NDSIconVersion,
    pub icon: DecodedIcon,
}

impl View for NDSBannerDetails {
    type V = (NDSIconVersion, (u32, u32, Seq<u8>));

    open spec fn view(&self) -> (NDSIconVersion, (u32, u32, Seq<u8>)) {
        (self.icon_version, self.icon@)
    }
}

impl NDSBannerDetails {
    pub fn new(icon_version: NDSIconVersion, icon: DecodedIcon) -> (d: NDSBannerDetails)
        ensures
            d@ == (icon_version, icon@),
    {
        NDSBannerDetails { icon_version, icon }
    }

    pub fn get_icon_version(&self) -> (v: NDSIconVersion)
        ensures
            v == self.icon_version,
    {
        self.icon_version
    }

    pub fn get_icon(&self) -> (icon: DecodedIcon)
        ensures
            icon@ == self.icon@,
    {
        let rgba = self.icon.rgba.clone();
        assert(rgba@ =~= self.icon.rgba@);
        DecodedIcon { width: self.icon.width, height: self.icon.height, rgba }
    }
}

/// What reading the banner of the cartridge image `data` gives: the banner
/// offset at 0x068, then 0x240 banner bytes there, whose version tag must be known.
pub open spec fn spec_extract_nds_banner(data: Seq<u8>) -> Result<
    (NDSIconVersion, (u32, u32, Seq<u8>)),
    NDSParsingError,
> {
    match spec_read_le32(data, BANNER_OFFSET_FIELD as int) {
        Err(e) => Err(NDSParsingError::ByteOutOfRange(e)),
        Ok(offset) => {
            let b = offset as int;
            if !in_bounds(data, b, BANNER_SIZE as int) {
                Err(NDSParsingError::ByteOutOfRange(out_of_range(data, b, BANNER_SIZE as int)))
            } else {
                match spec_icon_version(le16(data, b)) {
                    Err(e) => Err(e),
                    Ok(v) => Ok(
                        (
                            v,
                            (
                                32u32,
                                32u32,
                                cartridge_icon_rgba(
                                    data.subrange(b + LOGO_OFFSET, b + LOGO_OFFSET + LOGO_SIZE),
                                    palette_of(
                                        data.subrange(
                                            b + PALETTE_OFFSET,
                                            b + PALETTE_OFFSET + PALETTE_SIZE,
                                        ),
                                    ),
                                ),
                            ),
                        ),
                    ),
                }
            }
        },
    }
}

/// Whatever decodes from a cartridge banner is 32x32 pixels of four bytes; a pixel
/// is transparent exactly where its palette index in the banner's tile data is 0,
/// and opaque elsewhere.
pub proof fn lemma_banner_icon_alpha(data: Seq<u8>)
    ensures
        spec_extract_nds_banner(data) matches Ok(v) ==> {
            let b = le32(data, BANNER_OFFSET_FIELD as int) as int;
            let logo = data.subrange(b + LOGO_OFFSET, b + LOGO_OFFSET + LOGO_SIZE);
            &&& v.1.0 == 32 && v.1.1 == 32
            &&& v.1.2.len() == 32 * 32 * 4
            &&& forall|p: int|
                0 <= p < 32 * 32 ==> #[trigger] v.1.2[4 * p + 3] == if logo_palette_index(
                    logo,
                    p % 32,
                    p / 32,
                ) == 0 {
                    0x00u8
                } else {
                    0xFFu8
                }
        },
{
    if spec_extract_nds_banner(data) is Ok {
        let b = le32(data, BANNER_OFFSET_FIELD as int) as int;
        lemma_cartridge_icon_alpha(
            data.subrange(b + LOGO_OFFSET, b + LOGO_OFFSET + LOGO_SIZE),
            data.subrange(b + PALETTE_OFFSET, b + PALETTE_OFFSET + PALETTE_SIZE),
        );
    }
}

/// A banner result with the details replaced by their view.
pub open spec fn banner_result_view(r: Result<NDSBannerDetails, NDSParsingError>) -> Result<
    (NDSIconVersion, (u32, u32, Seq<u8>)),
    NDSParsingError,
> {
    match r {
        Ok(d) => Ok(d@),
        Err(e) => Err(e),
    }
}

/// Reads the banner of the cartridge image `data` and decodes its static icon.
pub fn extract_nds_banner(data: &[u8]) -> (r: Result<NDSBannerDetails, NDSParsingError>)
    ensures
        banner_result_view(r) == spec_extract_nds_banner(data@),
{
    let banner_offset = match read_le32(data, BANNER_OFFSET_FIELD) {
        Ok(v) => v,
        Err(e) => return Err(NDSParsingError::ByteOutOfRange(e)),
    };
    let start = match crate::bytes::check_range(data, banner_offset as u128, BANNER_SIZE) {
        Ok(i) => i,
        Err(e) => return Err(NDSParsingError::ByteOutOfRange(e)),
    };
    let version_raw = match read_le16(data, start as u128) {
        Ok(v) => v,
        Err(e) => return Err(NDSParsingError::ByteOutOfRange(e)),
    };
    let icon_version = NDSIconVersion::try_from(version_raw)?;
    let logo = &data[start + LOGO_OFFSET..start + LOGO_OFFSET + LOGO_SIZE];
    let palette = extract_palette_colors(
        &data[start + PALETTE_OFFSET..start + PALETTE_OFFSET + PALETTE_SIZE],
    );
    let icon = generate_nds_icon(logo, palette.as_slice());
    Ok(NDSBannerDetails::new(icon_version, icon))
}

} // verus!
