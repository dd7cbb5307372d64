//! Colors as four 8-bit channels, and their packed 32-bit form.

use vstd::prelude::*;

verus! {

/// An RGBA color whose channels are whole steps of 1/255.
#[derive(Clone, Copy, Debug, PartialEq, Eq, Structural)]
pub struct Rgba8 {
    /// The red channel.
    pub r: u8,
    /// The green channel.
    pub g: u8,
    /// The blue channel.
    pub b: u8,
    /// The alpha channel; 255 is fully opaque.
    pub a: u8,
}

/// The byte at position `i` (0 is the most significant) of `x`.
pub open spec fn be_byte(x: u32, i: int) -> u8 {
    if i == 0 {
        (x / 0x100_0000) as u8
    } else if i == 1 {
        ((x / 0x1_0000) % 0x100) as u8
    } else if i == 2 {
        ((x / 0x100) % 0x100) as u8
    } else {
        (x % 0x100) as u8
    }
}

/// The value whose big-endian bytes are `r`, `g`, `b`, `a`.
pub open spec fn pack_be(r: u8, g: u8, b: u8, a: u8) -> u32 {
    (r * 0x100_0000 + g * 0x1_0000 + b * 0x100 + a) as u32
}

proof fn lemma_be_bytes(x: u32)
    ensures
        ((x >> 24u32) & 0xff) == x / 0x100_0000,
        ((x >> 16u32) & 0xff) == (x / 0x1_0000) % 0x100,
        ((x >> 8u32) & 0xff) == (x / 0x100) % 0x100,
        (x & 0xff) == x % 0x100,
{
    assert(((x >> 24u32) & 0xff) == x / 0x100_0000) by (bit_vector);
    assert(((x >> 16u32) & 0xff) == (x / 0x1_0000) % 0x100) by (bit_vector);
    assert(((x >> 8u32) & 0xff) == (x / 0x100) % 0x100) by (bit_vector);
    assert((x & 0xff) == x % 0x100) by (bit_vector);
}

proof fn lemma_pack(r: u8, g: u8, b: u8, a: u8)
    ensures
        ((r as u32) << 24u32) | ((g as u32) << 16u32) | ((b as u32) << 8u32) | (a as u32)
            == r * 0x100_0000 + g * 0x1_0000 + b * 0x100 + a,
{
    assert(((r as u32) << 24u32) | ((g as u32) << 16u32) | ((b as u32) << 8u32) | (a as u32)
        == r * 0x100_0000 + g * 0x1_0000 + b * 0x100 + a) by (bit_vector);
}

/// The color whose channels are the big-endian bytes of `0xRRGGBBAA`.
pub open spec fn rgba_from_u32(hex: u32) -> Rgba8 {
    Rgba8 { r: be_byte(hex, 0), g: be_byte(hex, 1), b: be_byte(hex, 2), a: be_byte(hex, 3) }
}

/// The opaque color whose channels are the low three bytes of `0x__RRGGBB`.
pub open spec fn rgb_from_u32(hex: u32) -> Rgba8 {
    Rgba8 { r: be_byte(hex, 1), g: be_byte(hex, 2), b: be_byte(hex, 3), a: 0xff }
}

impl Rgba8 {
    /// The color packed as `0xRRGGBBAA`.
    pub open spec fn packed(self) -> u32 {
        pack_be(self.r, self.g, self.b, self.a)
    }

    /// Creates a color from its four channels.
    pub fn new(r: u8, g: u8, b: u8, a: u8) -> (c: Rgba8)
        ensures
            c == (Rgba8 { r, g, b, a }),
    {
        Rgba8 { r, g, b, a }
    }

    /// Reads a color from `0xRRGGBBAA`.
    pub fn from_rgba_u32(hex: u32) -> (c: Rgba8)
        ensures
            c == rgba_from_u32(hex),
    {
        proof {
            lemma_be_bytes(hex);
        }
        Rgba8 {
            r: ((hex >> 24u32) & 0xff) as u8,
            g: ((hex >> 16u32) & 0xff) as u8,
            b: ((hex >> 8u32) & 0xff) as u8,
            a: (hex & 0xff) as u8,
        }
    }

    /// Reads an opaque color from `0x__RRGGBB`; the top byte is ignored.
    pub fn from_rgb_u32(hex: u32) -> (c: Rgba8)
        ensures
            c == rgb_from_u32(hex),
    {
        proof {
            lemma_be_bytes(hex);
        }
        Rgba8 {
            r: ((hex >> 16u32) & 0xff) as u8,
            g: ((hex >> 8u32) & 0xff) as u8,
            b: (hex & 0xff) as u8,
            a: 0xff,
        }
    }

    /// Packs the color as `0xRRGGBBAA`.
    pub fn to_u32(&self) -> (x: u32)
        ensures
            x == self.packed(),
    {
        proof {
            lemma_pack(self.r, self.g, self.b, self.a);
        }
        ((self.r as u32) << 24u32) | ((self.g as u32) << 16u32) | ((self.b as u32) << 8u32) | (self.a as u32)
    }
}

/// Unpacking a packed color gives the color back.
pub proof fn lemma_unpack_packed(c: Rgba8)
    ensures
        rgba_from_u32(c.packed()) == c,
{
    let (r, g, b, a) = (c.r, c.g, c.b, c.a);
    lemma_pack(r, g, b, a);
    let x: u32 = ((r as u32) << 24u32) | ((g as u32) << 16u32) | ((b as u32) << 8u32) | (a as u32);
    lemma_be_bytes(x);
    assert(((x >> 24u32) & 0xff) == r && ((x >> 16u32) & 0xff) == g && ((x >> 8u32) & 0xff) == b
        && (x & 0xff) == a) by (bit_vector)
        requires
            x == ((r as u32) << 24u32) | ((g as u32) << 16u32) | ((b as u32) << 8u32) | (a as u32),
    ;
}

/// Packing the color read from a value gives the value back.
pub proof fn lemma_pack_unpacked(x: u32)
    ensures
        rgba_from_u32(x).packed() == x,
{
    let c = rgba_from_u32(x);
    lemma_be_bytes(x);
    lemma_pack(c.r, c.g, c.b, c.a);
    assert((((x >> 24u32) & 0xff) << 24u32) | (((x >> 16u32) & 0xff) << 16u32) | (((x >> 8u32)
        & 0xff) << 8u32) | (x & 0xff) == x) by (bit_vector);
}

/// `rgb(x)` is `rgba` of `x` shifted up one byte with an opaque alpha byte.
pub proof fn lemma_rgb_is_opaque_rgba(x: u32)
    ensures
        rgb_from_u32(x) == rgba_from_u32(((x * 0x100) % 0x1_0000_0000 + 0xff) as u32),
{
    let y: u32 = ((x * 0x100) % 0x1_0000_0000 + 0xff) as u32;
    lemma_be_bytes(x);
    lemma_be_bytes(y);
    assert(y == ((x << 8u32) | 0xff)) by (bit_vector)
        requires
            y == ((x * 0x100) % 0x1_0000_0000 + 0xff) as u32,
    ;
    assert(((y >> 24u32) & 0xff) == ((x >> 16u32) & 0xff) && ((y >> 16u32) & 0xff) == ((x >> 8u32)
        & 0xff) && ((y >> 8u32) & 0xff) == (x & 0xff) && (y & 0xff) == 0xff) by (bit_vector)
        requires
            y == ((x << 8u32) | 0xff),
    ;
}

/// A color space for color interpolation.
#[derive(Clone, Copy, Debug, PartialEq, Eq, Structural)]
pub enum ColorSpace {
    /// The sRGB color space.
    Srgb,
    /// The Oklab color space.
    Oklab,
}

impl Default for ColorSpace {
    fn default() -> (s: ColorSpace)
        ensures
            s == ColorSpace::Srgb,
    {
        ColorSpace::Srgb
    }
}

impl ColorSpace {
    /// The name under which the color space is shown.
    pub open spec fn spec_name(self) -> Seq<char> {
        match self {
            ColorSpace::Srgb => "sRGB"@,
            ColorSpace::Oklab => "Oklab"@,
        }
    }

    /// The name under which the color space is shown: `sRGB` or `Oklab`.
    pub fn to_string(&self) -> (s: String)
        ensures
            s@ == self.spec_name(),
    {
        match self {
            ColorSpace::Srgb => String::from_str("sRGB"),
            ColorSpace::Oklab => String::from_str("Oklab"),
        }
    }
}

} // verus!
