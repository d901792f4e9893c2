use vstd::prelude::*;

verus! {

/// An abstract terminal color, as produced by the host UI framework.
///
/// The sixteen named colors are resolved through the active theme's
/// palette, `Rgb` passes through unchanged, `Indexed` addresses the
/// 256-color table, and `Reset` resolves to the theme's role-specific
/// default.
#[derive(Clone, Copy, PartialEq, Eq, Structural, Debug)]
pub enum TermColor {
    /// The theme's default for the role at hand.
    Reset,
    /// Palette black.
    Black,
    /// Palette red.
    Red,
    /// Palette green.
    Green,
    /// Palette yellow.
    Yellow,
    /// Palette blue.
    Blue,
    /// Palette magenta.
    Magenta,
    /// Palette cyan.
    Cyan,
    /// Palette white (often rendered light gray).
    Gray,
    /// Palette bright black.
    DarkGray,
    /// Palette bright red.
    LightRed,
    /// Palette bright green.
    LightGreen,
    /// Palette bright yellow.
    LightYellow,
    /// Palette bright blue.
    LightBlue,
    /// Palette bright magenta.
    LightMagenta,
    /// Palette bright cyan.
    LightCyan,
    /// Palette bright white.
    White,
    /// A direct device color, passed through unchanged.
    Rgb(u8, u8, u8),
    /// An entry of the 256-color table.
    Indexed(u8),
}

/// Whether a color is applied as text ink or as cell background.
#[derive(Clone, Copy, PartialEq, Eq, Structural, Debug)]
pub enum ColorRole {
    /// Text ink.
    Foreground,
    /// Cell background.
    Background,
}

/// A concrete device pixel color.
#[derive(Clone, Copy, PartialEq, Eq, Structural, Debug)]
pub struct Rgb {
    /// Red component.
    pub r: u8,
    /// Green component.
    pub g: u8,
    /// Blue component.
    pub b: u8,
}

impl Rgb {
    /// Builds a concrete color from its three components.
    pub fn new(r: u8, g: u8, b: u8) -> (c: Rgb)
        ensures
            c == (Rgb { r, g, b }),
    {
        Rgb { r, g, b }
    }
}

/// A total, pure mapping from abstract colors to device colors: the
/// sixteen palette entries plus a role-specific default for `Reset`.
#[derive(Clone, Copy, PartialEq, Eq, Structural, Debug)]
pub struct ColorTheme {
    /// What `Reset` means for text ink.
    pub reset_fg: Rgb,
    /// What `Reset` means for cell backgrounds.
    pub reset_bg: Rgb,
    /// Palette entry 0.
    pub black: Rgb,
    /// Palette entry 1.
    pub red: Rgb,
    /// Palette entry 2.
    pub green: Rgb,
    /// Palette entry 3.
    pub yellow: Rgb,
    /// Palette entry 4.
    pub blue: Rgb,
    /// Palette entry 5.
    pub magenta: Rgb,
    /// Palette entry 6.
    pub cyan: Rgb,
    /// Palette entry 7.
    pub gray: Rgb,
    /// Palette entry 8.
    pub dark_gray: Rgb,
    /// Palette entry 9.
    pub light_red: Rgb,
    /// Palette entry 10.
    pub light_green: Rgb,
    /// Palette entry 11.
    pub light_yellow: Rgb,
    /// Palette entry 12.
    pub light_blue: Rgb,
    /// Palette entry 13.
    pub light_magenta: Rgb,
    /// Palette entry 14.
    pub light_cyan: Rgb,
    /// Palette entry 15.
    pub white: Rgb,
}

/// The palette entry for an index below 16, in ANSI order.
pub open spec fn spec_palette_entry(theme: ColorTheme, i: int) -> Rgb {
    if i == 0 {
        theme.black
    } else if i == 1 {
        theme.red
    } else if i == 2 {
        theme.green
    } else if i == 3 {
        theme.yellow
    } else if i == 4 {
        theme.blue
    } else if i == 5 {
        theme.magenta
    } else if i == 6 {
        theme.cyan
    } else if i == 7 {
        theme.gray
    } else if i == 8 {
        theme.dark_gray
    } else if i == 9 {
        theme.light_red
    } else if i == 10 {
        theme.light_green
    } else if i == 11 {
        theme.light_yellow
    } else if i == 12 {
        theme.light_blue
    } else if i == 13 {
        theme.light_magenta
    } else if i == 14 {
        theme.light_cyan
    } else {
        theme.white
    }
}

/// One component of the 6-level color cube: 0 stays 0, the other
/// levels step 95, 135, 175, 215, 255.
pub open spec fn spec_cube_component(level: int) -> int {
    if level == 0 {
        0
    } else {
        55 + 40 * level
    }
}

/// The entry of the 256-color table for an index: the first sixteen
/// come from the theme's palette, 16 to 231 form a 6x6x6 color cube,
/// and 232 to 255 form a 24-step grayscale ramp.
pub open spec fn spec_indexed_color(theme: ColorTheme, i: int) -> Rgb {
    if i < 16 {
        spec_palette_entry(theme, i)
    } else if i < 232 {
        Rgb {
            r: spec_cube_component((i - 16) / 36) as u8,
            g: spec_cube_component(((i - 16) % 36) / 6) as u8,
            b: spec_cube_component((i - 16) % 6) as u8,
        }
    } else {
        Rgb { r: (8 + 10 * (i - 232)) as u8, g: (8 + 10 * (i - 232)) as u8, b: (8 + 10 * (i - 232)) as u8 }
    }
}

/// The color mapper: what an abstract color means for a role under a
/// theme. Total and referentially transparent: it depends on nothing
/// but its three arguments.
pub open spec fn spec_resolve_color(color: TermColor, role: ColorRole, theme: ColorTheme) -> Rgb {
    match color {
        TermColor::Reset => match role {
            ColorRole::Foreground => theme.reset_fg,
            ColorRole::Background => theme.reset_bg,
        },
        TermColor::Black => theme.black,
        TermColor::Red => theme.red,
        TermColor::Green => theme.green,
        TermColor::Yellow => theme.yellow,
        TermColor::Blue => theme.blue,
        TermColor::Magenta => theme.magenta,
        TermColor::Cyan => theme.cyan,
        TermColor::Gray => theme.gray,
        TermColor::DarkGray => theme.dark_gray,
        TermColor::LightRed => theme.light_red,
        TermColor::LightGreen => theme.light_green,
        TermColor::LightYellow => theme.light_yellow,
        TermColor::LightBlue => theme.light_blue,
        TermColor::LightMagenta => theme.light_magenta,
        TermColor::LightCyan => theme.light_cyan,
        TermColor::White => theme.white,
        TermColor::Rgb(r, g, b) => Rgb { r, g, b },
        TermColor::Indexed(i) => spec_indexed_color(theme, i as int),
    }
}

/// Resolves an abstract color for a role under a theme.
pub fn resolve_color(color: TermColor, role: ColorRole, theme: &ColorTheme) -> (c: Rgb)
    ensures
        c == spec_resolve_color(color, role, *theme),
{
    match color {
        TermColor::Reset => match role {
            ColorRole::Foreground => theme.reset_fg,
            ColorRole::Background => theme.reset_bg,
        },
        TermColor::Black => theme.black,
        TermColor::Red => theme.red,
        TermColor::Green => theme.green,
        TermColor::Yellow => theme.yellow,
        TermColor::Blue => theme.blue,
        TermColor::Magenta => theme.magenta,
        TermColor::Cyan => theme.cyan,
        TermColor::Gray => theme.gray,
        TermColor::DarkGray => theme.dark_gray,
        TermColor::LightRed => theme.light_red,
        TermColor::LightGreen => theme.light_green,
        TermColor::LightYellow => theme.light_yellow,
        TermColor::LightBlue => theme.light_blue,
        TermColor::LightMagenta => theme.light_magenta,
        TermColor::LightCyan => theme.light_cyan,
        TermColor::White => theme.white,
        TermColor::Rgb(r, g, b) => Rgb { r, g, b },
        TermColor::Indexed(i) => indexed_color(theme, i),
    }
}

/// Looks up an entry of the 256-color table.
pub fn indexed_color(theme: &ColorTheme, i: u8) -> (c: Rgb)
    ensures
        c == spec_indexed_color(*theme, i as int),
{
    if i < 16 {
        palette_entry(theme, i)
    } else if i < 232 {
        let n: u8 = i - 16;
        let rl: u8 = n / 36;
        let gl: u8 = (n % 36) / 6;
        let bl: u8 = n % 6;
        assert(rl < 6 && gl < 6 && bl < 6);
        Rgb { r: cube_component(rl), g: cube_component(gl), b: cube_component(bl) }
    } else {
        let v: u8 = 8 + 10 * (i - 232);
        Rgb { r: v, g: v, b: v }
    }
}

/// One component of the 6-level color cube.
fn cube_component(level: u8) -> (v: u8)
    requires
        level < 6,
    ensures
        v == spec_cube_component(level as int),
{
    if level == 0 {
        0
    } else {
        55 + 40 * level
    }
}

/// The palette entry for an index below 16, in ANSI order.
fn palette_entry(theme: &ColorTheme, i: u8) -> (c: Rgb)
    requires
        i < 16,
    ensures
        c == spec_palette_entry(*theme, i as int),
{
    if i == 0 {
        theme.black
    } else if i == 1 {
        theme.red
    } else if i == 2 {
        theme.green
    } else if i == 3 {
        theme.yellow
    } else if i == 4 {
        theme.blue
    } else if i == 5 {
        theme.magenta
    } else if i == 6 {
        theme.cyan
    } else if i == 7 {
        theme.gray
    } else if i == 8 {
        theme.dark_gray
    } else if i == 9 {
        theme.light_red
    } else if i == 10 {
        theme.light_green
    } else if i == 11 {
        theme.light_yellow
    } else if i == 12 {
        theme.light_blue
    } else if i == 13 {
        theme.light_magenta
    } else if i == 14 {
        theme.light_cyan
    } else {
        theme.white
    }
}

/// The built-in theme: white ink on a black background, with the
/// common xterm palette values.
pub open spec fn spec_default_theme() -> ColorTheme {
    ColorTheme {
        reset_fg: Rgb { r: 255, g: 255, b: 255 },
        reset_bg: Rgb { r: 0, g: 0, b: 0 },
        black: Rgb { r: 0, g: 0, b: 0 },
        red: Rgb { r: 205, g: 0, b: 0 },
        green: Rgb { r: 0, g: 205, b: 0 },
        yellow: Rgb { r: 205, g: 205, b: 0 },
        blue: Rgb { r: 0, g: 0, b: 238 },
        magenta: Rgb { r: 205, g: 0, b: 205 },
        cyan: Rgb { r: 0, g: 205, b: 205 },
        gray: Rgb { r: 229, g: 229, b: 229 },
        dark_gray: Rgb { r: 127, g: 127, b: 127 },
        light_red: Rgb { r: 255, g: 0, b: 0 },
        light_green: Rgb { r: 0, g: 255, b: 0 },
        light_yellow: Rgb { r: 255, g: 255, b: 0 },
        light_blue: Rgb { r: 92, g: 92, b: 255 },
        light_magenta: Rgb { r: 255, g: 0, b: 255 },
        light_cyan: Rgb { r: 0, g: 255, b: 255 },
        white: Rgb { r: 255, g: 255, b: 255 },
    }
}

impl Default for ColorTheme {
    /// The built-in theme.
    fn default() -> (t: ColorTheme)
        ensures
            t == spec_default_theme(),
    {
        ColorTheme {
            reset_fg: Rgb { r: 255, g: 255, b: 255 },
            reset_bg: Rgb { r: 0, g: 0, b: 0 },
            black: Rgb { r: 0, g: 0, b: 0 },
            red: Rgb { r: 205, g: 0, b: 0 },
            green: Rgb { r: 0, g: 205, b: 0 },
            yellow: Rgb { r: 205, g: 205, b: 0 },
            blue: Rgb { r: 0, g: 0, b: 238 },
            magenta: Rgb { r: 205, g: 0, b: 205 },
            cyan: Rgb { r: 0, g: 205, b: 205 },
            gray: Rgb { r: 229, g: 229, b: 229 },
            dark_gray: Rgb { r: 127, g: 127, b: 127 },
            light_red: Rgb { r: 255, g: 0, b: 0 },
            light_green: Rgb { r: 0, g: 255, b: 0 },
            light_yellow: Rgb { r: 255, g: 255, b: 0 },
            light_blue: Rgb { r: 92, g: 92, b: 255 },
            light_magenta: Rgb { r: 255, g: 0, b: 255 },
            light_cyan: Rgb { r: 0, g: 255, b: 255 },
            white: Rgb { r: 255, g: 255, b: 255 },
        }
    }
}

/// Law: a theme with distinct role defaults gives `Reset` distinct
/// meanings as ink and as background.
pub proof fn lemma_reset_roles_distinct(theme: ColorTheme)
    requires
        theme.reset_fg != theme.reset_bg,
    ensures
        spec_resolve_color(TermColor::Reset, ColorRole::Foreground, theme)
            != spec_resolve_color(TermColor::Reset, ColorRole::Background, theme),
{
}

} // verus!
