//! Theme selection for the GUI: which of the four palettes to apply, from
//! the environment overrides and the desktop's preferences. Reading the
//! environment, asking `gsettings` and reading `kdeglobals` are the GUI's
//! I/O; copying colours into the toolkit's globals is its UI code.

use vstd::prelude::*;
use crate::grub::trim_chars;
use crate::lines::{split_std_lines, std_lines, views};
use crate::text::{chars_eq, chars_of, contains_exec, contains_seq, starts_with_exec, starts_with_seq, lowercase_text, to_lowercase};
use crate::grub::trim;

verus! {

/// One of the four colour palettes.
#[derive(Clone, Copy, PartialEq, Eq, Debug, Structural)]
pub enum Palette {
    Dark,
    Light,
    HcDark,
    HcLight,
}

/// The palette for the two axes: high contrast or not, light or dark.
pub open spec fn palette_for(high_contrast: bool, light: bool) -> Palette {
    if high_contrast {
        if light {
            Palette::HcLight
        } else {
            Palette::HcDark
        }
    } else {
        if light {
            Palette::Light
        } else {
            Palette::Dark
        }
    }
}

/// What applying a palette does to the design tokens: copy every colour
/// from the palette's global, and set the two flags the components read.
#[derive(Clone, Copy, PartialEq, Eq, Debug, Structural)]
pub struct TokenUpdate {
    /// The palette whose colours are copied.
    pub source: Palette,
    /// The palette is a high-contrast one.
    pub high_contrast: bool,
    /// The palette is a light one.
    pub light: bool,
}

/// The token update that applies `palette`.
pub fn apply(palette: Palette) -> (u: TokenUpdate)
    ensures
        u.source == palette,
        u.high_contrast == (palette == Palette::HcDark || palette == Palette::HcLight),
        u.light == (palette == Palette::Light || palette == Palette::HcLight),
        palette_for(u.high_contrast, u.light) == palette,
{
    let high_contrast = match palette {
        Palette::HcDark | Palette::HcLight => true,
        _ => false,
    };
    let light = match palette {
        Palette::Light | Palette::HcLight => true,
        _ => false,
    };
    TokenUpdate { source: palette, high_contrast, light }
}

/// What the GUI found in its environment.
#[derive(Clone, Debug)]
pub struct ThemeEnvironment {
    /// `BOOTCONTROL_HIGH_CONTRAST`, when set.
    pub high_contrast_var: Option<String>,
    /// KDE's colour scheme is a high-contrast one.
    pub kde_high_contrast: bool,
    /// `BOOTCONTROL_THEME`, when set.
    pub theme_var: Option<String>,
    /// The desktop prefers a light theme.
    pub system_prefers_light: bool,
}

/// The palette the environment asks for: high contrast when
/// `BOOTCONTROL_HIGH_CONTRAST=1` or KDE uses a high-contrast scheme; light
/// or dark as `BOOTCONTROL_THEME` says (`light`/`dark`), otherwise as the
/// desktop prefers.
pub open spec fn environment_palette(env: ThemeEnvironment) -> Palette {
    let hc = (env.high_contrast_var matches Some(v) && v@ == "1"@) || env.kde_high_contrast;
    let light = match env.theme_var {
        Some(t) => if t@ == "light"@ {
            true
        } else if t@ == "dark"@ {
            false
        } else {
            env.system_prefers_light
        },
        None => env.system_prefers_light,
    };
    palette_for(hc, light)
}

fn is_text(s: &String, t: &str) -> (r: bool)
    ensures
        r == (s@ == t@),
{
    let a = chars_of(s.as_str());
    let b = chars_of(t);
    chars_eq(a.as_slice(), b.as_slice())
}

/// Resolve the palette from the environment.
pub fn resolve_from_environment(env: &ThemeEnvironment) -> (p: Palette)
    ensures
        p == environment_palette(*env),
{
    let hc = match &env.high_contrast_var {
        Some(v) => is_text(v, "1"),
        None => false,
    } || env.kde_high_contrast;
    let light = match &env.theme_var {
        Some(t) => if is_text(t, "light") {
            true
        } else if is_text(t, "dark") {
            false
        } else {
            env.system_prefers_light
        },
        None => env.system_prefers_light,
    };
    if hc {
        if light {
            Palette::HcLight
        } else {
            Palette::HcDark
        }
    } else {
        if light {
            Palette::Light
        } else {
            Palette::Dark
        }
    }
}

/// Whether GNOME prefers a light theme, from the output of
/// `gsettings get org.gnome.desktop.interface color-scheme` (`None` when it
/// failed): light unless the scheme is `prefer-dark`; dark when the probe
/// failed.
pub fn system_prefers_light(color_scheme: Option<&str>) -> (r: bool)
    ensures
        r == match color_scheme {
            Some(s) => !contains_seq(s@, "prefer-dark"@),
            None => false,
        },
{
    match color_scheme {
        Some(s) => {
            let c = chars_of(s);
            let n = chars_of("prefer-dark");
            !contains_exec(c.as_slice(), n.as_slice())
        },
        None => false,
    }
}

/// Whether GNOME disabled animations, from the output of
/// `gsettings get org.gnome.desktop.interface enable-animations` (`None`
/// when it failed): the trimmed output is `false`.
pub fn gnome_animations_disabled(enable_animations: Option<&str>) -> (r: bool)
    ensures
        r == match enable_animations {
            Some(s) => trim(s@) == "false"@,
            None => false,
        },
{
    match enable_animations {
        Some(s) => {
            let c = chars_of(s);
            let t = trim_chars(c.as_slice());
            let f = chars_of("false");
            chars_eq(t.as_slice(), f.as_slice())
        },
        None => false,
    }
}

/// A `kdeglobals` line that selects a high-contrast colour scheme.
pub open spec fn high_contrast_line(l: Seq<char>) -> bool {
    let lc = lowercase_text(l);
    starts_with_seq(lc, "colorscheme="@) && contains_seq(lc, "high"@) && contains_seq(lc, "contrast"@)
}

/// Some line of a `kdeglobals` text selects a high-contrast scheme.
pub open spec fn kde_high_contrast_text(c: Seq<char>) -> bool {
    exists|i: int| 0 <= i < std_lines(c).len() && high_contrast_line(#[trigger] std_lines(c)[i])
}

/// Whether KDE uses a high-contrast colour scheme, from the text of
/// `~/.config/kdeglobals` (`None` when unreadable): some line, lowercased,
/// starts with `colorscheme=` and mentions both `high` and `contrast`.
pub fn kde_high_contrast_active(kdeglobals: Option<&str>) -> (r: bool)
    ensures
        r == match kdeglobals {
            Some(c) => kde_high_contrast_text(c@),
            None => false,
        },
{
    match kdeglobals {
        None => false,
        Some(c) => {
            let lines = split_std_lines(c);
            let ghost ls = views(lines@);
            let p = chars_of("colorscheme=");
            let h = chars_of("high");
            let k = chars_of("contrast");
            let mut i: usize = 0;
            while i < lines.len()
                invariant
                    i <= lines@.len(),
                    ls == views(lines@),
                    ls == std_lines(c@),
                    kdeglobals == Some(c),
                    p@ == "colorscheme="@,
                    h@ == "high"@,
                    k@ == "contrast"@,
                    forall|j: int| 0 <= j < i ==> !high_contrast_line(#[trigger] ls[j]),
                decreases lines@.len() - i,
            {
                let lc = to_lowercase(lines[i].as_str());
                let lcc = chars_of(lc.as_str());
                assert(lines@[i as int]@ == ls[i as int]);
                if starts_with_exec(lcc.as_slice(), p.as_slice()) && contains_exec(lcc.as_slice(), h.as_slice())
                    && contains_exec(lcc.as_slice(), k.as_slice()) {
                    assert(high_contrast_line(std_lines(c@)[i as int]));
                    assert(kde_high_contrast_text(c@));
                    return true;
                }
                i = i + 1;
            }
            assert(!kde_high_contrast_text(c@));
            false
        },
    }
}

} // verus!
