//! The component facade: the semantic theme, the tokens it hands to the
//! behavior layer, the button model and the root view.

use vstd::prelude::*;

use crate::color::{rgb_from_u32, Rgba8};

verus! {

/// The visual treatment applied to a button.
#[derive(Clone, Copy, Debug, PartialEq, Eq, Structural)]
pub enum ButtonVariant {
    /// A neutral surface button.
    Secondary,
    /// The primary application action.
    Primary,
}

impl Default for ButtonVariant {
    fn default() -> (v: ButtonVariant)
        ensures
            v == ButtonVariant::Secondary,
    {
        ButtonVariant::Secondary
    }
}

/// The colors of the compact semantic theme.
#[derive(Clone, Copy, Debug, PartialEq, Eq)]
pub struct ThemeColors<C> {
    pub background: C,
    pub foreground: C,
    pub surface: C,
    pub surface_foreground: C,
    pub primary: C,
    pub primary_foreground: C,
    pub secondary: C,
    pub secondary_foreground: C,
    pub muted: C,
    pub muted_foreground: C,
    pub border: C,
    pub ring: C,
}

/// The color tokens of the behavior layer.
#[derive(Clone, Copy, Debug, PartialEq, Eq)]
pub struct ColorTokens<C> {
    pub background: C,
    pub foreground: C,
    pub surface: C,
    pub surface_foreground: C,
    pub primary: C,
    pub primary_foreground: C,
    pub secondary: C,
    pub secondary_foreground: C,
    pub muted: C,
    pub muted_foreground: C,
    pub accent: C,
    pub accent_foreground: C,
    pub destructive: C,
    pub destructive_foreground: C,
    pub border: C,
    pub input: C,
    pub ring: C,
}

/// The destructive color of the behavior layer, `#dc2626`.
pub fn destructive_color() -> (c: Rgba8)
    ensures
        c == rgb_from_u32(0xdc2626),
{
    Rgba8::from_rgb_u32(0xdc2626)
}

impl ThemeColors<Rgba8> {
    /// The default light palette.
    pub fn light() -> (t: ThemeColors<Rgba8>)
        ensures
            t == (ThemeColors {
                background: rgb_from_u32(0xf8fafc),
                foreground: rgb_from_u32(0x0f172a),
                surface: rgb_from_u32(0xffffff),
                surface_foreground: rgb_from_u32(0x0f172a),
                primary: rgb_from_u32(0x2563eb),
                primary_foreground: rgb_from_u32(0xffffff),
                secondary: rgb_from_u32(0xe2e8f0),
                secondary_foreground: rgb_from_u32(0x1e293b),
                muted: rgb_from_u32(0xf1f5f9),
                muted_foreground: rgb_from_u32(0x64748b),
                border: rgb_from_u32(0xcbd5e1),
                ring: rgb_from_u32(0x60a5fa),
            }),
    {
        ThemeColors {
            background: Rgba8::from_rgb_u32(0xf8fafc),
            foreground: Rgba8::from_rgb_u32(0x0f172a),
            surface: Rgba8::from_rgb_u32(0xffffff),
            surface_foreground: Rgba8::from_rgb_u32(0x0f172a),
            primary: Rgba8::from_rgb_u32(0x2563eb),
            primary_foreground: Rgba8::from_rgb_u32(0xffffff),
            secondary: Rgba8::from_rgb_u32(0xe2e8f0),
            secondary_foreground: Rgba8::from_rgb_u32(0x1e293b),
            muted: Rgba8::from_rgb_u32(0xf1f5f9),
            muted_foreground: Rgba8::from_rgb_u32(0x64748b),
            border: Rgba8::from_rgb_u32(0xcbd5e1),
            ring: Rgba8::from_rgb_u32(0x60a5fa),
        }
    }
}

impl<C: Copy> ThemeColors<C> {
    /// The tokens that the theme installs in the behavior layer: accents
    /// follow the secondary colors, the destructive foreground and the input
    /// border follow the primary foreground and the border.
    pub fn color_tokens(&self, destructive: C) -> (t: ColorTokens<C>)
        ensures
            t == (ColorTokens {
                background: self.background,
                foreground: self.foreground,
                surface: self.surface,
                surface_foreground: self.surface_foreground,
                primary: self.primary,
                primary_foreground: self.primary_foreground,
                secondary: self.secondary,
                secondary_foreground: self.secondary_foreground,
                muted: self.muted,
                muted_foreground: self.muted_foreground,
                accent: self.secondary,
                accent_foreground: self.secondary_foreground,
                destructive,
                destructive_foreground: self.primary_foreground,
                border: self.border,
                input: self.border,
                ring: self.ring,
            }),
    {
        ColorTokens {
            background: self.background,
            foreground: self.foreground,
            surface: self.surface,
            surface_foreground: self.surface_foreground,
            primary: self.primary,
            primary_foreground: self.primary_foreground,
            secondary: self.secondary,
            secondary_foreground: self.secondary_foreground,
            muted: self.muted,
            muted_foreground: self.muted_foreground,
            accent: self.secondary,
            accent_foreground: self.secondary_foreground,
            destructive,
            destructive_foreground: self.primary_foreground,
            border: self.border,
            input: self.border,
            ring: self.ring,
        }
    }
}

impl ButtonVariant {
    /// The background and foreground colors of a button of this variant.
    pub open spec fn spec_surface<C>(self, theme: ThemeColors<C>) -> (C, C) {
        match self {
            ButtonVariant::Primary => (theme.primary, theme.primary_foreground),
            ButtonVariant::Secondary => (theme.secondary, theme.secondary_foreground),
        }
    }

    /// The background and foreground colors of a button of this variant:
    /// the primary pair for a primary button, the secondary pair otherwise.
    pub fn surface_colors<C: Copy>(&self, theme: &ThemeColors<C>) -> (c: (C, C))
        ensures
            c == self.spec_surface(*theme),
    {
        match self {
            ButtonVariant::Primary => (theme.primary, theme.primary_foreground),
            ButtonVariant::Secondary => (theme.secondary, theme.secondary_foreground),
        }
    }
}

/// A button: the interaction element it wraps, its variant, and whether it
/// accepts activation.
pub struct Button<B> {
    base: B,
    variant: ButtonVariant,
    disabled: bool,
}

impl<B> Button<B> {
    /// The wrapped interaction element.
    pub closed spec fn spec_base(&self) -> B {
        self.base
    }

    /// The button's variant.
    pub closed spec fn spec_variant(&self) -> ButtonVariant {
        self.variant
    }

    /// Whether activation is refused.
    pub closed spec fn spec_disabled(&self) -> bool {
        self.disabled
    }

    /// An enabled secondary button around `base`.
    pub fn new(base: B) -> (b: Button<B>)
        ensures
            b.spec_base() == base,
            b.spec_variant() == ButtonVariant::Secondary,
            !b.spec_disabled(),
    {
        Button { base, variant: ButtonVariant::Secondary, disabled: false }
    }

    /// Applies the primary action treatment.
    pub fn primary(self) -> (b: Button<B>)
        ensures
            b.spec_base() == self.spec_base(),
            b.spec_variant() == ButtonVariant::Primary,
            b.spec_disabled() == self.spec_disabled(),
    {
        Button { variant: ButtonVariant::Primary, ..self }
    }

    /// Applies an explicit variant.
    pub fn with_variant(self, variant: ButtonVariant) -> (b: Button<B>)
        ensures
            b.spec_base() == self.spec_base(),
            b.spec_variant() == variant,
            b.spec_disabled() == self.spec_disabled(),
    {
        Button { variant, ..self }
    }

    /// Sets whether the button refuses pointer and keyboard activation.
    pub fn disabled(self, disabled: bool) -> (b: Button<B>)
        ensures
            b.spec_base() == self.spec_base(),
            b.spec_variant() == self.spec_variant(),
            b.spec_disabled() == disabled,
    {
        Button { disabled, ..self }
    }

    /// The button's variant.
    pub fn variant(&self) -> (v: ButtonVariant)
        ensures
            v == self.spec_variant(),
    {
        self.variant
    }

    /// Whether activation is refused.
    pub fn is_disabled(&self) -> (d: bool)
        ensures
            d == self.spec_disabled(),
    {
        self.disabled
    }

    /// The wrapped interaction element.
    pub fn base(&self) -> (b: &B)
        ensures
            *b == self.spec_base(),
    {
        &self.base
    }

    /// The background and foreground colors the button is drawn with.
    pub fn surface_colors<C: Copy>(&self, theme: &ThemeColors<C>) -> (c: (C, C))
        ensures
            c == self.spec_variant().spec_surface(*theme),
    {
        self.variant.surface_colors(theme)
    }
}

/// The first view hosted by a component window: the view and the style
/// refinement applied around it.
pub struct Root<V, S> {
    style: S,
    view: V,
}

impl<V, S> Root<V, S> {
    /// The hosted view.
    pub closed spec fn spec_view(&self) -> V {
        self.view
    }

    /// The style refinement applied around the view.
    pub closed spec fn spec_style(&self) -> S {
        self.style
    }

    /// The hosted view.
    pub fn view(&self) -> (v: &V)
        ensures
            *v == self.spec_view(),
    {
        &self.view
    }

    /// The style refinement, for the styling builders to refine.
    pub fn style(&mut self) -> (s: &mut S)
        ensures
            *s == old(self).spec_style(),
            final(self).spec_view() == old(self).spec_view(),
            final(self).spec_style() == *final(s),
    {
        &mut self.style
    }
}

impl<V, S: Default> Root<V, S> {
    /// Hosts `view` with an empty style refinement.
    pub fn new(view: V) -> (r: Root<V, S>)
        ensures
            r.spec_view() == view,
            call_ensures(S::default, (), r.spec_style()),
    {
        Root { style: S::default(), view }
    }
}

/// A primary button is drawn in the theme's primary pair and a secondary
/// button in its secondary pair, whatever the theme's other colors are.
pub proof fn lemma_button_colors_pair_with_variant<C>(theme: ThemeColors<C>)
    ensures
        ButtonVariant::Primary.spec_surface(theme) == (theme.primary, theme.primary_foreground),
        ButtonVariant::Secondary.spec_surface(theme) == (
            theme.secondary,
            theme.secondary_foreground,
        ),
{
}

} // verus!
