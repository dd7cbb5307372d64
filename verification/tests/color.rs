use gpui_embed::color::{ColorSpace, Rgba8};

#[test]
fn rgba_u32_reads_big_endian_channels() {
    let c = Rgba8::from_rgba_u32(0xff0099ff);
    assert_eq!(c, Rgba8::new(0xff, 0x00, 0x99, 0xff));
    let c = Rgba8::from_rgba_u32(0x12345678);
    assert_eq!((c.r, c.g, c.b, c.a), (0x12, 0x34, 0x56, 0x78));
}

#[test]
fn rgb_u32_ignores_top_byte_and_is_opaque() {
    let c = Rgba8::from_rgb_u32(0x12dc2626);
    assert_eq!(c, Rgba8::new(0xdc, 0x26, 0x26, 0xff));
    assert_eq!(Rgba8::from_rgb_u32(0xdc2626), c);
}

#[test]
fn rgb_is_rgba_of_shifted_value() {
    for x in [0u32, 0xdc2626, 0xffffffff, 0x12345678, 0x00ff00] {
        assert_eq!(Rgba8::from_rgb_u32(x), Rgba8::from_rgba_u32((x << 8) | 0xff));
    }
}

#[test]
fn packed_value_round_trips() {
    let c = Rgba8::new(0x12, 0x34, 0x56, 0x78);
    assert_eq!(c.to_u32(), 0x12345678);
    assert_eq!(Rgba8::from_rgba_u32(c.to_u32()), c);
    for x in [0u32, 1, 0x80000000, 0xdeadbeef, u32::MAX] {
        assert_eq!(Rgba8::from_rgba_u32(x).to_u32(), x);
    }
}

#[test]
fn color_space_defaults_to_srgb_and_is_named() {
    assert_eq!(ColorSpace::default(), ColorSpace::Srgb);
    assert_eq!(ColorSpace::Srgb.to_string(), "sRGB");
    assert_eq!(ColorSpace::Oklab.to_string(), "Oklab");
}
