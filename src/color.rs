//! Packed 16-bit colour encodings and their expansion to 8-bit channels.

use vstd::prelude::*;

verus! {

/// Red channel of a BGR555 colour: bits 0..5, scaled to 8 bits.
pub open spec fn bgr555_red(raw: u16) -> u8 {
    ((raw as int % 32) * 8) as u8
}

/// Green channel of a BGR555 colour: bits 5..10, scaled to 8 bits.
pub open spec fn bgr555_green(raw: u16) -> u8 {
    ((raw as int / 32 % 32) * 8) as u8
}

/// Blue channel of a BGR555 colour: bits 10..15, scaled to 8 bits.
pub open spec fn bgr555_blue(raw: u16) -> u8 {
    ((raw as int / 1024 % 32) * 8) as u8
}

/// Red channel of an RGB565 colour: bits 11..16, scaled to 8 bits.
pub open spec fn rgb565_red(raw: u16) -> u8 {
    ((raw as int / 2048) * 8) as u8
}

/// Green channel of an RGB565 colour: bits 5..11, scaled to 8 bits.
pub open spec fn rgb565_green(raw: u16) -> u8 {
    ((raw as int / 32 % 64) * 4) as u8
}

/// Blue channel of an RGB565 colour: bits 0..5, scaled to 8 bits.
pub open spec fn rgb565_blue(raw: u16) -> u8 {
    ((raw as int % 32) * 8) as u8
}

/// Little-endian 16-bit value of two bytes.
pub open spec fn le_u16(lo: u8, hi: u8) -> u16 {
    (lo as int + 256 * hi as int) as u16
}

proof fn lemma_bgr555_fields(raw: u16)
    by (bit_vector)
    ensures
        ((raw & 0x001F) as u8) * 8 == (raw % 32) * 8,
        ((raw & 0x001F) as u8) < 32,
        (((raw & 0x03E0) >> 5) as u8) * 8 == (raw / 32 % 32) * 8,
        (((raw & 0x03E0) >> 5) as u8) < 32,
        (((raw & 0x7C00) >> 10) as u8) * 8 == (raw / 1024 % 32) * 8,
        (((raw & 0x7C00) >> 10) as u8) < 32,
{
}

proof fn lemma_rgb565_fields(raw: u16)
    by (bit_vector)
    ensures
        (((raw & 0xF800) >> 11) as u8) * 8 == (raw / 2048) * 8,
        (((raw & 0xF800) >> 11) as u8) < 32,
        (((raw & 0x07E0) >> 5) as u8) * 4 == (raw / 32 % 64) * 4,
        (((raw & 0x07E0) >> 5) as u8) < 64,
        ((raw & 0x001F) as u8) * 8 == (raw % 32) * 8,
        ((raw & 0x001F) as u8) < 32,
{
}

proof fn lemma_rgb555_fields(raw: u16)
    by (bit_vector)
    ensures
        (raw & 0x001F) << 3 == (raw % 32) * 8,
        (raw & 0x03E0) >> 2 == (raw / 32 % 32) * 8,
        (raw & 0x7C00) >> 7 == (raw / 1024 % 32) * 8,
{
}

/// Every channel that a packed colour expands to has its unused low bits clear:
/// five-bit channels come out as multiples of 8, the six-bit RGB565 green as a
/// multiple of 4.
pub proof fn lemma_decoded_channels_aligned(raw: u16)
    ensures
        bgr555_red(raw) % 8 == 0,
        bgr555_green(raw) % 8 == 0,
        bgr555_blue(raw) % 8 == 0,
        rgb565_red(raw) % 8 == 0,
        rgb565_green(raw) % 4 == 0,
        rgb565_blue(raw) % 8 == 0,
{
}

/// A BGR555 colour (blue in the high bits, red in the low bits) expanded to
/// 8-bit red, green and blue.
#[derive(Debug, Clone, Copy, PartialEq, Eq, Structural)]
pub struct Bgr555(pub u8, pub u8, pub u8);

impl From<u16> for Bgr555 {
    fn from(color_bytes: u16) -> (c: Bgr555) {
        proof {
            lemma_bgr555_fields(color_bytes);
        }
        let blue_value = ((color_bytes & 0x7C00) >> 10) as u8;
        let green_value = ((color_bytes & 0x03E0) >> 5) as u8;
        let red_value = (color_bytes & 0x001F) as u8;
        Bgr555(red_value * 8, green_value * 8, blue_value * 8)
    }
}

impl vstd::std_specs::convert::FromSpecImpl<u16> for Bgr555 {
    open spec fn obeys_from_spec() -> bool {
        true
    }

    open spec fn from_spec(v: u16) -> Bgr555 {
        Bgr555(bgr555_red(v), bgr555_green(v), bgr555_blue(v))
    }
}

impl From<[u8; 2]> for Bgr555 {
    /// Decodes a little-endian BGR555 colour.
    fn from(value: [u8; 2]) -> (c: Bgr555) {
        Bgr555::from(value[0] as u16 + 0x100 * value[1] as u16)
    }
}

impl vstd::std_specs::convert::FromSpecImpl<[u8; 2]> for Bgr555 {
    open spec fn obeys_from_spec() -> bool {
        true
    }

    open spec fn from_spec(v: [u8; 2]) -> Bgr555 {
        let raw = le_u16(v[0], v[1]);
        Bgr555(bgr555_red(raw), bgr555_green(raw), bgr555_blue(raw))
    }
}

impl Bgr555 {
    pub fn r(&self) -> (r: u8)
        ensures
            r == self.0,
    {
        self.0
    }

    pub fn g(&self) -> (g: u8)
        ensures
            g == self.1,
    {
        self.1
    }

    pub fn b(&self) -> (b: u8)
        ensures
            b == self.2,
    {
        self.2
    }
}

/// A colour with red in the low five bits and blue in bits 10..15, expanded to
/// 8-bit red, green and blue.
#[derive(Debug, Clone, Copy, PartialEq, Eq, Structural)]
pub struct Rgb555(pub u8, pub u8, pub u8);

impl From<u16> for Rgb555 {
    fn from(color_bytes: u16) -> (c: Rgb555) {
        proof {
            lemma_rgb555_fields(color_bytes);
        }
        let r = ((color_bytes & 0x001F) << 3) as u8;
        let g = ((color_bytes & 0x03E0) >> 2) as u8;
        let b = ((color_bytes & 0x7C00) >> 7) as u8;
        Rgb555(r, g, b)
    }
}

impl vstd::std_specs::convert::FromSpecImpl<u16> for Rgb555 {
    open spec fn obeys_from_spec() -> bool {
        true
    }

    open spec fn from_spec(v: u16) -> Rgb555 {
        Rgb555(bgr555_red(v), bgr555_green(v), bgr555_blue(v))
    }
}

impl Rgb555 {
    pub fn r(&self) -> (r: u8)
        ensures
            r == self.0,
    {
        self.0
    }

    pub fn g(&self) -> (g: u8)
        ensures
            g == self.1,
    {
        self.1
    }

    pub fn b(&self) -> (b: u8)
        ensures
            b == self.2,
    {
        self.2
    }
}

/// An RGB565 colour (red in the high five bits, six bits of green) expanded to
/// 8-bit red, green and blue.
#[derive(Debug, Clone, Copy, PartialEq, Eq, Structural)]
pub struct Rgb565(pub u8, pub u8, pub u8);

impl From<u16> for Rgb565 {
    fn from(color_bytes: u16) -> (c: Rgb565) {
        proof {
            lemma_rgb565_fields(color_bytes);
        }
        let red_value = ((color_bytes & 0xF800) >> 11) as u8;
        let green_value = ((color_bytes & 0x07E0) >> 5) as u8;
        let blue_value = (color_bytes & 0x001F) as u8;
        Rgb565(red_value * 8, green_value * 4, blue_value * 8)
    }
}

impl vstd::std_specs::convert::FromSpecImpl<u16> for Rgb565 {
    open spec fn obeys_from_spec() -> bool {
        true
    }

    open spec fn from_spec(v: u16) -> Rgb565 {
        Rgb565(rgb565_red(v), rgb565_green(v), rgb565_blue(v))
    }
}

impl From<[u8; 2]> for Rgb565 {
    /// Decodes a little-endian RGB565 colour.
    fn from(value: [u8; 2]) -> (c: Rgb565) {
        Rgb565::from(value[0] as u16 + 0x100 * value[1] as u16)
    }
}

impl vstd::std_specs::convert::FromSpecImpl<[u8; 2]> for Rgb565 {
    open spec fn obeys_from_spec() -> bool {
        true
    }

    open spec fn from_spec(v: [u8; 2]) -> Rgb565 {
        let raw = le_u16(v[0], v[1]);
        Rgb565(rgb565_red(raw), rgb565_green(raw), rgb565_blue(raw))
    }
}

impl Rgb565 {
    pub fn r(&self) -> (r: u8)
        ensures
            r == self.0,
    {
        self.0
    }

    pub fn g(&self) -> (g: u8)
        ensures
            g == self.1,
    {
        self.1
    }

    pub fn b(&self) -> (b: u8)
        ensures
            b == self.2,
    {
        self.2
    }
}

/// A colour with 8-bit red, green and blue channels.
#[derive(Debug, Clone, Copy, PartialEq, Eq, Structural)]
pub struct Rgb888 {
    pub r: u8,
    pub g: u8,
    pub b: u8,
}

impl From<Bgr555> for Rgb888 {
    fn from(value: Bgr555) -> (c: Rgb888) {
        Rgb888 { r: value.r(), g: value.g(), b: value.b() }
    }
}

impl vstd::std_specs::convert::FromSpecImpl<Bgr555> for Rgb888 {
    open spec fn obeys_from_spec() -> bool {
        true
    }

    open spec fn from_spec(v: Bgr555) -> Rgb888 {
        Rgb888 { r: v.0, g: v.1, b: v.2 }
    }
}

impl From<Rgb565> for Rgb888 {
    fn from(value: Rgb565) -> (c: Rgb888) {
        Rgb888 { r: value.r(), g: value.g(), b: value.b() }
    }
}

impl vstd::std_specs::convert::FromSpecImpl<Rgb565> for Rgb888 {
    open spec fn obeys_from_spec() -> bool {
        true
    }

    open spec fn from_spec(v: Rgb565) -> Rgb888 {
        Rgb888 { r: v.0, g: v.1, b: v.2 }
    }
}

impl Rgb888 {
    /// Decodes a little-endian BGR555 colour.
    pub fn from_bgr555_bytes(bytes: [u8; 2]) -> (c: Rgb888)
        ensures
            c.r == bgr555_red(le_u16(bytes[0], bytes[1])),
            c.g == bgr555_green(le_u16(bytes[0], bytes[1])),
            c.b == bgr555_blue(le_u16(bytes[0], bytes[1])),
    {
        Rgb888::from(Bgr555::from(bytes))
    }

    /// Decodes a little-endian RGB565 colour.
    pub fn from_rgb565_bytes(bytes: [u8; 2]) -> (c: Rgb888)
        ensures
            c.r == rgb565_red(le_u16(bytes[0], bytes[1])),
            c.g == rgb565_green(le_u16(bytes[0], bytes[1])),
            c.b == rgb565_blue(le_u16(bytes[0], bytes[1])),
    {
        Rgb888::from(Rgb565::from(bytes))
    }

    pub fn r(&self) -> (r: u8)
        ensures
            r == self.r,
    {
        self.r
    }

    pub fn g(&self) -> (g: u8)
        ensures
            g == self.g,
    {
        self.g
    }

    pub fn b(&self) -> (b: u8)
        ensures
            b == self.b,
    {
        self.b
    }
}

} // verus!
