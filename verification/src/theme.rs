//! Color themes: the standard system, dark and light themes, and six
//! Japanese-inspired palettes (three light, three dark).

use vstd::prelude::*;

verus! {

/// A color theme of the user interface.
#[derive(Debug, Clone, Copy, PartialEq, Eq, Structural)]
pub enum Theme {
    /// Follows the operating system's light or dark preference.
    System,
    Dark,
    Light,
    /// 桜: pale sakura pink.
    Sakura,
    /// 泉: pale spring-water blue with young-grass green.
    Izumi,
    /// 蒼: Japanese indigo and navy.
    Ao,
    /// 夜桜: deep night with subdued sakura pink.
    Yozakura,
    /// 夜の泉: dark water blue with restrained young-grass green.
    YoruNoIzumi,
    /// 深い蒼: deep indigo and navy.
    FukaiAo,
}

impl Default for Theme {
    fn default() -> (r: Self)
        ensures
            r == Theme::System,
    {
        Theme::System
    }
}

/// Whether `theme` is dark, light, or (for the system theme) undecided.
pub open spec fn spec_is_dark(theme: Theme) -> Option<bool> {
    match theme {
        Theme::System => None,
        Theme::Dark | Theme::Yozakura | Theme::YoruNoIzumi | Theme::FukaiAo => Some(true),
        Theme::Light | Theme::Sakura | Theme::Izumi | Theme::Ao => Some(false),
    }
}

/// A color given by its red, green and blue components.
#[derive(Debug, Clone, Copy, PartialEq, Eq, Structural)]
pub struct Rgb {
    pub r: u8,
    pub g: u8,
    pub b: u8,
}

/// The standard visuals that a palette starts from.
#[derive(Debug, Clone, Copy, PartialEq, Eq, Structural)]
pub enum BaseVisuals {
    Dark,
    Light,
}

/// The colors that a Japanese palette puts over its base visuals.
#[derive(Debug, Clone, Copy, PartialEq, Eq, Structural)]
pub struct PaletteColors {
    pub background: Rgb,
    pub panel: Rgb,
    pub accent: Rgb,
    /// The text color of non-interactive widgets, where the palette sets one.
    pub text: Option<Rgb>,
}

/// What a theme paints: standard visuals, with a palette's colors over them.
#[derive(Debug, Clone, Copy, PartialEq, Eq, Structural)]
pub struct Palette {
    pub base: BaseVisuals,
    pub colors: Option<PaletteColors>,
}

/// The color with components `r`, `g`, `b`.
pub open spec fn rgb(r: u8, g: u8, b: u8) -> Rgb {
    Rgb { r, g, b }
}

/// The palette that `theme` paints when the system prefers dark visuals
/// exactly when `system_dark` holds.
pub open spec fn spec_palette(theme: Theme, system_dark: bool) -> Palette {
    match theme {
        Theme::System => Palette {
            base: if system_dark { BaseVisuals::Dark } else { BaseVisuals::Light },
            colors: None,
        },
        Theme::Dark => Palette { base: BaseVisuals::Dark, colors: None },
        Theme::Light => Palette { base: BaseVisuals::Light, colors: None },
        Theme::Sakura => Palette {
            base: BaseVisuals::Light,
            colors: Some(
                PaletteColors {
                    background: rgb(255, 238, 242),
                    panel: rgb(255, 246, 248),
                    accent: rgb(220, 112, 140),
                    text: None,
                },
            ),
        },
        Theme::Izumi => Palette {
            base: BaseVisuals::Light,
            colors: Some(
                PaletteColors {
                    background: rgb(232, 247, 250),
                    panel: rgb(242, 251, 247),
                    accent: rgb(112, 166, 108),
                    text: None,
                },
            ),
        },
        Theme::Ao => Palette {
            base: BaseVisuals::Light,
            colors: Some(
                PaletteColors {
                    background: rgb(230, 237, 245),
                    panel: rgb(238, 243, 249),
                    accent: rgb(32, 72, 112),
                    text: Some(rgb(20, 45, 72)),
                },
            ),
        },
        Theme::Yozakura => Palette {
            base: BaseVisuals::Dark,
            colors: Some(
                PaletteColors {
                    background: rgb(28, 22, 30),
                    panel: rgb(39, 29, 40),
                    accent: rgb(214, 105, 145),
                    text: None,
                },
            ),
        },
        Theme::YoruNoIzumi => Palette {
            base: BaseVisuals::Dark,
            colors: Some(
                PaletteColors {
                    background: rgb(17, 32, 38),
                    panel: rgb(22, 43, 47),
                    accent: rgb(104, 166, 119),
                    text: None,
                },
            ),
        },
        Theme::FukaiAo => Palette {
            base: BaseVisuals::Dark,
            colors: Some(
                PaletteColors {
                    background: rgb(12, 25, 43),
                    panel: rgb(17, 35, 58),
                    accent: rgb(72, 124, 174),
                    text: None,
                },
            ),
        },
    }
}

fn colors(background: Rgb, panel: Rgb, accent: Rgb, text: Option<Rgb>) -> (r: Option<PaletteColors>)
    ensures
        r == Some(PaletteColors { background, panel, accent, text }),
{
    Some(PaletteColors { background, panel, accent, text })
}

impl Theme {
    /// `Some(true)` for a dark theme, `Some(false)` for a light one, and
    /// `None` for the system theme.
    pub fn is_dark(self) -> (r: Option<bool>)
        ensures
            r == spec_is_dark(self),
    {
        match self {
            Theme::System => None,
            Theme::Dark | Theme::Yozakura | Theme::YoruNoIzumi | Theme::FukaiAo => Some(true),
            Theme::Light | Theme::Sakura | Theme::Izumi | Theme::Ao => Some(false),
        }
    }

    /// Whether the theme shows dark visuals, when the system prefers dark
    /// visuals exactly when `system_dark` holds.
    pub fn effective_dark(self, system_dark: bool) -> (r: bool)
        ensures
            r == match spec_is_dark(self) {
                Some(dark) => dark,
                None => system_dark,
            },
    {
        match self.is_dark() {
            Some(dark) => dark,
            None => system_dark,
        }
    }

    /// The palette the theme paints, when the system prefers dark visuals
    /// exactly when `system_dark` holds.
    pub fn palette(self, system_dark: bool) -> (r: Palette)
        ensures
            r == spec_palette(self, system_dark),
    {
        match self {
            Theme::System => Palette {
                base: if system_dark { BaseVisuals::Dark } else { BaseVisuals::Light },
                colors: None,
            },
            Theme::Dark => Palette { base: BaseVisuals::Dark, colors: None },
            Theme::Light => Palette { base: BaseVisuals::Light, colors: None },
            Theme::Sakura => Palette {
                base: BaseVisuals::Light,
                colors: colors(
                    Rgb { r: 255, g: 238, b: 242 },
                    Rgb { r: 255, g: 246, b: 248 },
                    Rgb { r: 220, g: 112, b: 140 },
                    None,
                ),
            },
            Theme::Izumi => Palette {
                base: BaseVisuals::Light,
                colors: colors(
                    Rgb { r: 232, g: 247, b: 250 },
                    Rgb { r: 242, g: 251, b: 247 },
                    Rgb { r: 112, g: 166, b: 108 },
                    None,
                ),
            },
            Theme::Ao => Palette {
                base: BaseVisuals::Light,
                colors: colors(
                    Rgb { r: 230, g: 237, b: 245 },
                    Rgb { r: 238, g: 243, b: 249 },
                    Rgb { r: 32, g: 72, b: 112 },
                    Some(Rgb { r: 20, g: 45, b: 72 }),
                ),
            },
            Theme::Yozakura => Palette {
                base: BaseVisuals::Dark,
                colors: colors(
                    Rgb { r: 28, g: 22, b: 30 },
                    Rgb { r: 39, g: 29, b: 40 },
                    Rgb { r: 214, g: 105, b: 145 },
                    None,
                ),
            },
            Theme::YoruNoIzumi => Palette {
                base: BaseVisuals::Dark,
                colors: colors(
                    Rgb { r: 17, g: 32, b: 38 },
                    Rgb { r: 22, g: 43, b: 47 },
                    Rgb { r: 104, g: 166, b: 119 },
                    None,
                ),
            },
            Theme::FukaiAo => Palette {
                base: BaseVisuals::Dark,
                colors: colors(
                    Rgb { r: 12, g: 25, b: 43 },
                    Rgb { r: 17, g: 35, b: 58 },
                    Rgb { r: 72, g: 124, b: 174 },
                    None,
                ),
            },
        }
    }
}

/// Handles a click on the settings entry of `clicked`: it becomes the
/// current theme; the result tells whether the theme changed.
pub fn select_theme(current: &mut Theme, clicked: Theme) -> (changed: bool)
    ensures
        *final(current) == clicked,
        changed == (*old(current) != clicked),
{
    let changed = *current != clicked;
    *current = clicked;
    changed
}

/// The brightness of `c`: the sum of its components.
pub open spec fn brightness(c: Rgb) -> int {
    c.r + c.g + c.b
}

/// A theme's darkness agrees with its own colors: a theme with a palette is
/// dark exactly when its panel and background colors are dark (their
/// brightness is below half the maximum), and light exactly when both are
/// light. The standard dark theme is dark, the standard light theme light,
/// and the system theme follows the system.
pub proof fn law_darkness_matches_colors(theme: Theme, system_dark: bool)
    ensures
        spec_palette(theme, system_dark).colors matches Some(c) ==> {
            &&& spec_is_dark(theme) == Some(brightness(c.panel) < 383)
            &&& spec_is_dark(theme) == Some(brightness(c.background) < 383)
            &&& (spec_palette(theme, system_dark).base == BaseVisuals::Dark) == (brightness(c.panel) < 383)
        },
        theme == Theme::Dark ==> spec_is_dark(theme) == Some(true),
        theme == Theme::Light ==> spec_is_dark(theme) == Some(false),
        theme == Theme::System ==> spec_is_dark(theme) is None && spec_palette(theme, system_dark).base == if system_dark {
            BaseVisuals::Dark
        } else {
            BaseVisuals::Light
        },
{
}

/// A theme paints dark base visuals exactly when it shows dark visuals.
pub proof fn law_palette_matches_darkness(theme: Theme, system_dark: bool)
    ensures
        (spec_palette(theme, system_dark).base == BaseVisuals::Dark) == match spec_is_dark(theme) {
            Some(dark) => dark,
            None => system_dark,
        },
{
}

/// Only the system theme depends on the system's preference.
pub proof fn law_only_system_theme_follows_system(theme: Theme)
    requires
        theme != Theme::System,
    ensures
        spec_palette(theme, true) == spec_palette(theme, false),
{
}

} // verus!
