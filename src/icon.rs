//! The decoded icon and the tile layout of the 48x48 package icon.

use vstd::prelude::*;

use crate::bytes::le16;
use crate::color::{rgb565_blue, rgb565_green, rgb565_red, Rgb888};

verus! {

/// Side of the large package icon, in pixels.
pub const LARGE_ICON_SIDE: usize = 48;

/// Size in bytes of the large package icon's pixel data.
pub const LARGE_ICON_BYTES: usize = 0x1200;

/// A square icon as rows of 8-bit RGBA pixels, top row first.
#[derive(Debug)]
pub struct DecodedIcon {
    pub width: u32,
    pub height: u32,
    /// Four bytes (red, green, blue, alpha) per pixel, row by row.
    pub rgba: Vec<u8>,
}

impl View for DecodedIcon {
    type V = (u32, u32, Seq<u8>);

    open spec fn view(&self) -> (u32, u32, Seq<u8>) {
        (self.width, self.height, self.rgba@)
    }
}

impl DecodedIcon {
    pub fn width(&self) -> (w: u32)
        ensures
            w == self.width,
    {
        self.width
    }

    pub fn height(&self) -> (h: u32)
        ensures
            h == self.height,
    {
        self.height
    }

    /// The RGBA bytes, row by row.
    pub fn rgba(&self) -> (s: &[u8])
        ensures
            s@ == self.rgba@,
    {
        self.rgba.as_slice()
    }
}

/// A parse result with the icon replaced by its view.
pub open spec fn icon_result_view<E>(r: Result<DecodedIcon, E>) -> Result<(u32, u32, Seq<u8>), E> {
    match r {
        Ok(icon) => Ok(icon@),
        Err(e) => Err(e),
    }
}

/// Position, in the large icon's flat colour array, of the colour of pixel `(x, y)`:
/// 8x8 tiles in raster order, the pixels of a tile in Morton (bit-interleaved) order.
pub open spec fn large_icon_source_index(x: u32, y: u32) -> u32 {
    ((((((y >> 3) * 6 + (x >> 3)) as u32) << 6u32) + ((x & 1) | ((y & 1) << 1u32) | ((x & 2) << 1u32)
        | ((y & 2) << 2u32) | ((x & 4) << 2u32) | ((y & 4) << 3u32))) as u32)
}

/// Column of the pixel whose colour stands at `i` in the flat colour array.
pub open spec fn large_icon_pixel_x(i: u32) -> u32 {
    (((i >> 6u32) % 6) * 8 + ((i & 1) | ((i >> 1u32) & 2) | ((i >> 2u32) & 4))) as u32
}

/// Row of the pixel whose colour stands at `i` in the flat colour array.
pub open spec fn large_icon_pixel_y(i: u32) -> u32 {
    (((i >> 6u32) / 6) * 8 + (((i >> 1u32) & 1) | ((i >> 2u32) & 2) | ((i >> 3u32) & 4))) as u32
}

/// The tile layout of the large icon is a bijection between the 48x48 pixels and
/// the 2304 positions of the colour array: every pixel maps into the array, and
/// the map has a two-sided inverse, so no two pixels share a position and no
/// position is left over.
pub proof fn lemma_large_icon_index_bijective()
    by (bit_vector)
    ensures
        forall|x: u32, y: u32|
            x < 48 && y < 48 ==> large_icon_source_index(x, y) < 2304 && large_icon_pixel_x(
                large_icon_source_index(x, y),
            ) == x && large_icon_pixel_y(large_icon_source_index(x, y)) == y,
        forall|i: u32|
            i < 2304 ==> large_icon_pixel_x(i) < 48 && large_icon_pixel_y(i) < 48
                && large_icon_source_index(large_icon_pixel_x(i), large_icon_pixel_y(i)) == i,
{
}

/// Channel `c` (red, green, blue, alpha) of pixel `p`, in raster order, of the large
/// icon whose pixel data starts at `pos`: an opaque RGB565 colour.
pub open spec fn large_icon_channel(data: Seq<u8>, pos: int, p: int, c: int) -> u8 {
    let raw = le16(data, pos + 2 * large_icon_source_index((p % 48) as u32, (p / 48) as u32));
    if c == 0 {
        rgb565_red(raw)
    } else if c == 1 {
        rgb565_green(raw)
    } else if c == 2 {
        rgb565_blue(raw)
    } else {
        0xFF
    }
}

/// The RGBA bytes of the large icon whose pixel data starts at `pos`.
pub open spec fn large_icon_rgba(data: Seq<u8>, pos: int) -> Seq<u8> {
    Seq::new(48 * 48 * 4, |i: int| large_icon_channel(data, pos, i / 4, i % 4))
}

/// Every icon decoded from package pixel data has 48x48 pixels of four bytes, and
/// every pixel is fully opaque.
pub proof fn lemma_large_icon_opaque(data: Seq<u8>, pos: int)
    ensures
        large_icon_rgba(data, pos).len() == 48 * 48 * 4,
        forall|p: int| 0 <= p < 48 * 48 ==> #[trigger] large_icon_rgba(data, pos)[4 * p + 3] == 0xFF,
{
    assert forall|p: int| 0 <= p < 48 * 48 implies #[trigger] large_icon_rgba(data, pos)[4 * p + 3]
        == 0xFF by {
        assert((4 * p + 3) % 4 == 3);
    }
}

fn source_index(x: u32, y: u32) -> (i: u32)
    requires
        x < 48,
        y < 48,
    ensures
        i == large_icon_source_index(x, y),
        i < 2304,
{
    proof {
        lemma_large_icon_index_bijective();
        assert(large_icon_source_index(x, y) < 2304);
        assert(x >> 3u32 < 6 && y >> 3u32 < 6 && (((y >> 3u32) * 6 + (x >> 3u32)) as u32) << 6u32
            < 2304 && ((x & 1) | ((y & 1) << 1u32) | ((x & 2) << 1u32) | ((y & 2) << 2u32) | ((x & 4)
            << 2u32) | ((y & 4) << 3u32)) < 64) by (bit_vector)
            requires
                x < 48,
                y < 48,
        ;
    }
    let tile = (y >> 3) * 6 + (x >> 3);
    (tile << 6) + ((x & 1) | ((y & 1) << 1) | ((x & 2) << 1) | ((y & 2) << 2) | ((x & 4) << 2) | ((
    y & 4) << 3))
}

/// Decodes the 48x48 icon whose RGB565 pixel data (0x1200 bytes, in 8x8 Morton
/// tiles) starts at `pos`.
pub fn decode_large_icon(data: &[u8], pos: usize) -> (icon: DecodedIcon)
    requires
        pos + LARGE_ICON_BYTES <= data@.len(),
    ensures
        icon@ == (48u32, 48u32, large_icon_rgba(data@, pos as int)),
{
    let ghost want = large_icon_rgba(data@, pos as int);
    let mut rgba: Vec<u8> = Vec::with_capacity(48 * 48 * 4);
    let mut p: usize = 0;
    let size = data.len();
    while p < 48 * 48
        invariant
            p <= 48 * 48,
            size == data@.len(),
            pos + LARGE_ICON_BYTES <= data@.len(),
            want == large_icon_rgba(data@, pos as int),
            rgba@.len() == 4 * p,
            forall|i: int| 0 <= i < 4 * p ==> rgba@[i] == want[i],
        decreases 48 * 48 - p,
    {
        let x = (p % 48) as u32;
        let y = (p / 48) as u32;
        let k = source_index(x, y) as usize;
        let c = Rgb888::from_rgb565_bytes([data[pos + 2 * k], data[pos + 2 * k + 1]]);
        proof {
            let q = 4 * p as int;
            assert(q / 4 == p && (q + 1) / 4 == p && (q + 2) / 4 == p && (q + 3) / 4 == p);
            assert(q % 4 == 0 && (q + 1) % 4 == 1 && (q + 2) % 4 == 2 && (q + 3) % 4 == 3);
        }
        rgba.push(c.r);
        rgba.push(c.g);
        rgba.push(c.b);
        rgba.push(0xFF);
        p = p + 1;
    }
    assert(rgba@ =~= want);
    DecodedIcon { width: 48, height: 48, rgba }
}

} // verus!
