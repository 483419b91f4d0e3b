//! The app's colors: Radix-style twelve-step scales in a light and a dark
//! variant, picked by the theme. Colors are `0xRRGGBB` values.

use vstd::prelude::*;

pub mod bg;
pub mod border;
pub mod button;
pub mod icon;
pub mod interaction;
pub mod status;
pub mod surface;
pub mod text;

verus! {
pub const GRAY_LIGHT: [u32; 12] = [0xFCFCFC, 0xF9F9F9, 0xF0F0F0, 0xE8E8E8, 0xE0E0E0, 0xD9D9D9, 0xCECECE, 0xBBBBBB, 0x8D8D8D, 0x838383, 0x646464, 0x202020];
pub const GRAY_DARK: [u32; 12] = [0x111111, 0x191919, 0x222222, 0x2A2A2A, 0x313131, 0x3A3A3A, 0x484848, 0x606060, 0x6E6E6E, 0x7B7B7B, 0xB4B4B4, 0xEEEEEE];

pub const RED_LIGHT: [u32; 12] = [0xFFFCFC, 0xFFF7F7, 0xFEEBEC, 0xFFDBDC, 0xFFCDCE, 0xFDBDBE, 0xF4A9AA, 0xEB8E90, 0xE5484D, 0xDC3E42, 0xCE2C31, 0x641723];
pub const RED_DARK: [u32; 12] = [0x191111, 0x201314, 0x3B1219, 0x500F1C, 0x611623, 0x72232D, 0x8C333A, 0xB54548, 0xE5484D, 0xEC5D5E, 0xFF9592, 0xFFD1D9];

pub const GREEN_LIGHT: [u32; 12] = [0xFBFEFC, 0xF4FBF6, 0xE6F6EB, 0xD6F1DF, 0xC4E8D1, 0xADDDC0, 0x8ECEAA, 0x5BB98B, 0x30A46C, 0x2B9A66, 0x218358, 0x193B2D];
pub const GREEN_DARK: [u32; 12] = [0x0E1512, 0x121B17, 0x132D21, 0x113B29, 0x174933, 0x20573E, 0x28684A, 0x2F7C57, 0x30A46C, 0x3CB179, 0x4CC38A, 0xB1F1CB];

pub const BLUE_LIGHT: [u32; 12] = [0xFBFDFF, 0xF4FAFF, 0xE6F4FE, 0xD5EFFF, 0xC2E5FF, 0xACD8FC, 0x8EC8F6, 0x5EB1EF, 0x0090FF, 0x0588F0, 0x0D74CE, 0x113264];
pub const BLUE_DARK: [u32; 12] = [0x0D1520, 0x111927, 0x0D2847, 0x003362, 0x004074, 0x104D87, 0x205D9E, 0x2870BD, 0x0090FF, 0x3B9EFF, 0x70B8FF, 0xC2E6FF];

pub const VIOLET_LIGHT: [u32; 12] = [0xFDFCFE, 0xFAF8FF, 0xF4F0FE, 0xEBE4FF, 0xE1D9FF, 0xD4CAFE, 0xC2B5F5, 0xAA99EC, 0x6E56CF, 0x654DC4, 0x6550B9, 0x2F265F];
pub const VIOLET_DARK: [u32; 12] = [0x14121F, 0x1B1525, 0x291F43, 0x33255B, 0x3C2E69, 0x473876, 0x56468B, 0x6958AD, 0x6E56CF, 0x7D66D9, 0xBAA7FF, 0xE2DDFE];

pub const AMBER_LIGHT: [u32; 12] = [0xFEFDFB, 0xFEFBE9, 0xFFF7C2, 0xFFEE9C, 0xFBE577, 0xF3D673, 0xE9C162, 0xE2A336, 0xFFC53D, 0xFFBA18, 0xAB6400, 0x4F3422];
pub const AMBER_DARK: [u32; 12] = [0x16120C, 0x1D180F, 0x302008, 0x3F2700, 0x4D3000, 0x5C3D05, 0x714F19, 0x8F6424, 0xFFC53D, 0xFFD60A, 0xFFCA16, 0xFFE7B3];

/// White.
pub const WHITE: u32 = 0xFFFFFF;

/// The index in a scale of step `n` (steps count from 1; out-of-range steps
/// are clamped to the first and the last).
pub open spec fn step_index(n: usize) -> int {
    if n <= 1 {
        0
    } else if n >= 12 {
        11
    } else {
        n - 1
    }
}

/// Step `n` of a scale, light or dark.
pub open spec fn step_of(light: [u32; 12], dark: [u32; 12], n: usize, dark_mode: bool) -> u32 {
    if dark_mode {
        dark@[step_index(n)]
    } else {
        light@[step_index(n)]
    }
}

/// Step `n` of a scale in the variant of `theme`.
pub fn step(light: &[u32; 12], dark: &[u32; 12], n: usize, theme: Option<Theme>) -> (c: u32)
    ensures
        c == step_of(*light, *dark, n, is_dark_spec(theme)),
{
    let i: usize = if n <= 1 {
        0
    } else if n >= 12 {
        11
    } else {
        n - 1
    };
    if is_dark(theme) {
        dark[i]
    } else {
        light[i]
    }
}

/// Step `n` of the gray scale.
pub open spec fn gray_at(n: usize, dark_mode: bool) -> u32 {
    step_of(GRAY_LIGHT, GRAY_DARK, n, dark_mode)
}

/// Step `n` of the gray scale in the theme's variant.
pub fn gray(n: usize, theme: Option<Theme>) -> (c: u32)
    ensures
        c == gray_at(n, is_dark_spec(theme)),
{
    step(&GRAY_LIGHT, &GRAY_DARK, n, theme)
}

/// Step `n` of the red scale.
pub open spec fn red_at(n: usize, dark_mode: bool) -> u32 {
    step_of(RED_LIGHT, RED_DARK, n, dark_mode)
}

/// Step `n` of the red scale in the theme's variant.
pub fn red(n: usize, theme: Option<Theme>) -> (c: u32)
    ensures
        c == red_at(n, is_dark_spec(theme)),
{
    step(&RED_LIGHT, &RED_DARK, n, theme)
}

/// Step `n` of the green scale.
pub open spec fn green_at(n: usize, dark_mode: bool) -> u32 {
    step_of(GREEN_LIGHT, GREEN_DARK, n, dark_mode)
}

/// Step `n` of the green scale in the theme's variant.
pub fn green(n: usize, theme: Option<Theme>) -> (c: u32)
    ensures
        c == green_at(n, is_dark_spec(theme)),
{
    step(&GREEN_LIGHT, &GREEN_DARK, n, theme)
}

/// Step `n` of the blue scale.
pub open spec fn blue_at(n: usize, dark_mode: bool) -> u32 {
    step_of(BLUE_LIGHT, BLUE_DARK, n, dark_mode)
}

/// Step `n` of the blue scale in the theme's variant.
pub fn blue(n: usize, theme: Option<Theme>) -> (c: u32)
    ensures
        c == blue_at(n, is_dark_spec(theme)),
{
    step(&BLUE_LIGHT, &BLUE_DARK, n, theme)
}

/// Step `n` of the violet scale.
pub open spec fn violet_at(n: usize, dark_mode: bool) -> u32 {
    step_of(VIOLET_LIGHT, VIOLET_DARK, n, dark_mode)
}

/// Step `n` of the violet scale in the theme's variant.
pub fn violet(n: usize, theme: Option<Theme>) -> (c: u32)
    ensures
        c == violet_at(n, is_dark_spec(theme)),
{
    step(&VIOLET_LIGHT, &VIOLET_DARK, n, theme)
}

/// Step `n` of the amber scale.
pub open spec fn amber_at(n: usize, dark_mode: bool) -> u32 {
    step_of(AMBER_LIGHT, AMBER_DARK, n, dark_mode)
}

/// Step `n` of the amber scale in the theme's variant.
pub fn amber(n: usize, theme: Option<Theme>) -> (c: u32)
    ensures
        c == amber_at(n, is_dark_spec(theme)),
{
    step(&AMBER_LIGHT, &AMBER_DARK, n, theme)
}

pub fn white() -> (c: u32)
    ensures
        c == WHITE,
{
    WHITE
}

/// The user's choice of theme.
#[derive(Debug, Clone, Copy, PartialEq, Eq)]
pub enum ThemePreference {
    System,
    Light,
    Dark,
}

impl Default for ThemePreference {
    fn default() -> (p: Self)
        ensures
            p == ThemePreference::System,
    {
        ThemePreference::System
    }
}

impl ThemePreference {
    /// The id stored in the preferences and used by the settings control.
    pub open spec fn id_spec(self) -> Seq<char> {
        match self {
            ThemePreference::System => "system"@,
            ThemePreference::Light => "light"@,
            ThemePreference::Dark => "dark"@,
        }
    }

    pub fn as_id(self) -> (id: &'static str)
        ensures
            id@ == self.id_spec(),
    {
        match self {
            Self::System => "system",
            Self::Light => "light",
            Self::Dark => "dark",
        }
    }

    /// The preference with id `id`; an unknown id means `System`.
    pub open spec fn from_id_spec(id: Seq<char>) -> ThemePreference {
        if id == "light"@ {
            ThemePreference::Light
        } else if id == "dark"@ {
            ThemePreference::Dark
        } else {
            ThemePreference::System
        }
    }

    pub fn from_id(id: &str) -> (p: Self)
        ensures
            p == Self::from_id_spec(id@),
    {
        proof {
            reveal_strlit("light");
            reveal_strlit("dark");
        }
        let id = String::from_str(id);
        if id == String::from_str("light") {
            Self::Light
        } else if id == String::from_str("dark") {
            Self::Dark
        } else {
            Self::System
        }
    }
}

/// Reading back the id of a preference gives the preference.
pub proof fn law_theme_id_round_trip(p: ThemePreference)
    ensures
        ThemePreference::from_id_spec(p.id_spec()) == p,
{
    reveal_strlit("system");
    reveal_strlit("light");
    reveal_strlit("dark");
    assert("system"@.len() != "light"@.len());
    assert("system"@.len() != "dark"@.len());
    assert("light"@[0] != "dark"@[0]);
}

/// The app's theme: the user's preference and whether the system is dark.
#[derive(Debug, Clone, Copy, PartialEq, Eq)]
pub struct Theme {
    pub preference: ThemePreference,
    pub system_dark: bool,
}

impl Theme {
    pub open spec fn is_dark_spec(self) -> bool {
        match self.preference {
            ThemePreference::System => self.system_dark,
            ThemePreference::Light => false,
            ThemePreference::Dark => true,
        }
    }

    /// Dark when the user chose dark, or chose the system's and it is dark.
    pub fn is_dark(&self) -> (b: bool)
        ensures
            b == self.is_dark_spec(),
    {
        match self.preference {
            ThemePreference::System => self.system_dark,
            ThemePreference::Light => false,
            ThemePreference::Dark => true,
        }
    }
}

/// Whether colors are dark for the installed theme (light when none is).
pub open spec fn is_dark_spec(theme: Option<Theme>) -> bool {
    match theme {
        Some(t) => t.is_dark_spec(),
        None => false,
    }
}

pub fn is_dark(theme: Option<Theme>) -> (b: bool)
    ensures
        b == is_dark_spec(theme),
{
    match theme {
        Some(t) => t.is_dark(),
        None => false,
    }
}

/// The appearance a window reports.
#[derive(Debug, Clone, Copy, PartialEq, Eq)]
pub enum Appearance {
    Light,
    VibrantLight,
    Dark,
    VibrantDark,
}

pub open spec fn appearance_is_dark_spec(a: Appearance) -> bool {
    a == Appearance::Dark || a == Appearance::VibrantDark
}

pub fn appearance_is_dark(appearance: Appearance) -> (b: bool)
    ensures
        b == appearance_is_dark_spec(appearance),
{
    match appearance {
        Appearance::Dark | Appearance::VibrantDark => true,
        _ => false,
    }
}

/// The theme to install at start: the stored preference and the window's
/// appearance.
pub fn init_theme(preference: ThemePreference, appearance: Appearance) -> (t: Theme)
    ensures
        t.preference == preference,
        t.system_dark == appearance_is_dark_spec(appearance),
{
    Theme { preference, system_dark: appearance_is_dark(appearance) }
}

/// After the system appearance changed: the theme to install, or `None` when
/// there is no theme or it already follows this appearance.
pub fn sync_system_appearance(current: Option<Theme>, appearance: Appearance) -> (next: Option<Theme>)
    ensures
        match current {
            None => next is None,
            Some(t) => if t.system_dark == appearance_is_dark_spec(appearance) {
                next is None
            } else {
                next == Some(Theme { system_dark: appearance_is_dark_spec(appearance), ..t })
            },
        },
{
    let system_dark = appearance_is_dark(appearance);
    match current {
        None => None,
        Some(theme) => {
            if theme.system_dark == system_dark {
                None
            } else {
                Some(Theme { preference: theme.preference, system_dark })
            }
        },
    }
}

/// The theme after the user picks `preference`; whether the system is dark is
/// kept (false when there was no theme).
pub fn set_preference(preference: ThemePreference, current: Option<Theme>) -> (t: Theme)
    ensures
        t.preference == preference,
        t.system_dark == match current {
            Some(c) => c.system_dark,
            None => false,
        },
{
    let system_dark = match current {
        Some(t) => t.system_dark,
        None => false,
    };
    Theme { preference, system_dark }
}

/// The preference of the installed theme (`System` when none is).
pub fn preference(current: Option<Theme>) -> (p: ThemePreference)
    ensures
        p == match current {
            Some(t) => t.preference,
            None => ThemePreference::System,
        },
{
    match current {
        Some(t) => t.preference,
        None => ThemePreference::System,
    }
}

/// Picking a preference decides darkness alone for light and dark, and
/// follows the system for `System`.
pub proof fn law_preference_decides_darkness(preference: ThemePreference, current: Option<Theme>, t: Theme)
    requires
        t.preference == preference,
        t.system_dark == match current {
            Some(c) => c.system_dark,
            None => false,
        },
    ensures
        preference == ThemePreference::Dark ==> t.is_dark_spec(),
        preference == ThemePreference::Light ==> !t.is_dark_spec(),
        preference == ThemePreference::System ==> t.is_dark_spec() == t.system_dark,
{
}

} // verus!
