use gpui_embed::color::Rgba8;
use gpui_embed::component::{destructive_color, Button, ButtonVariant, Root, ThemeColors};

#[test]
fn default_variant_is_secondary() {
    assert_eq!(ButtonVariant::default(), ButtonVariant::Secondary);
}

#[test]
fn light_palette() {
    let t = ThemeColors::light();
    assert_eq!(t.background, Rgba8::new(0xf8, 0xfa, 0xfc, 0xff));
    assert_eq!(t.primary, Rgba8::new(0x25, 0x63, 0xeb, 0xff));
    assert_eq!(t.ring, Rgba8::new(0x60, 0xa5, 0xfa, 0xff));
    assert_eq!(destructive_color(), Rgba8::new(0xdc, 0x26, 0x26, 0xff));
}

#[test]
fn tokens_map_theme_colors() {
    let t = ThemeColors::light();
    let tokens = t.color_tokens(destructive_color());
    assert_eq!(tokens.accent, t.secondary);
    assert_eq!(tokens.accent_foreground, t.secondary_foreground);
    assert_eq!(tokens.destructive, Rgba8::new(0xdc, 0x26, 0x26, 0xff));
    assert_eq!(tokens.destructive_foreground, t.primary_foreground);
    assert_eq!(tokens.input, t.border);
    assert_eq!(tokens.ring, t.ring);
    assert_eq!(tokens.background, t.background);
}

#[test]
fn button_builders() {
    let b = Button::new("save");
    assert_eq!(b.variant(), ButtonVariant::Secondary);
    assert!(!b.is_disabled());
    let b = b.primary().disabled(true);
    assert_eq!(b.variant(), ButtonVariant::Primary);
    assert!(b.is_disabled());
    let b = b.with_variant(ButtonVariant::Secondary).disabled(false);
    assert_eq!(b.variant(), ButtonVariant::Secondary);
    assert!(!b.is_disabled());
    assert_eq!(*b.base(), "save");
}

#[test]
fn button_colors_follow_variant() {
    let t = ThemeColors::light();
    assert_eq!(Button::new(()).surface_colors(&t), (t.secondary, t.secondary_foreground));
    assert_eq!(Button::new(()).primary().surface_colors(&t), (t.primary, t.primary_foreground));
}

#[test]
fn root_hosts_view_with_default_style() {
    let mut root: Root<&str, Vec<u8>> = Root::new("view");
    assert_eq!(*root.view(), "view");
    assert!(root.style().is_empty());
    root.style().push(3);
    assert_eq!(root.style(), &vec![3]);
    assert_eq!(*root.view(), "view");
}
