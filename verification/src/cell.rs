use vstd::prelude::*;
use crate::color::{ColorRole, ColorTheme, Rgb, TermColor, spec_resolve_color, resolve_color};

verus! {

/// The style modifiers a cell may carry. Bold, italic, underline and
/// strikethrough are honoured; dim, blink, reverse and hidden are
/// documented no-ops of this renderer.
#[derive(Clone, Copy, PartialEq, Eq, Structural, Debug)]
pub struct StyleModifiers {
    /// Prefer the bold font variant.
    pub bold: bool,
    /// Dimmed text: a documented no-op.
    pub dim: bool,
    /// Prefer the italic font variant.
    pub italic: bool,
    /// Draw an underline decoration.
    pub underlined: bool,
    /// Slow blink: a documented no-op.
    pub slow_blink: bool,
    /// Rapid blink: a documented no-op.
    pub rapid_blink: bool,
    /// Reverse video: a documented no-op.
    pub reversed: bool,
    /// Hidden text: a documented no-op.
    pub hidden: bool,
    /// Draw a strikethrough decoration.
    pub crossed_out: bool,
}

/// The modifier set with every modifier off.
pub open spec fn spec_no_modifiers() -> StyleModifiers {
    StyleModifiers {
        bold: false,
        dim: false,
        italic: false,
        underlined: false,
        slow_blink: false,
        rapid_blink: false,
        reversed: false,
        hidden: false,
        crossed_out: false,
    }
}

impl Default for StyleModifiers {
    /// Every modifier off.
    fn default() -> (m: StyleModifiers)
        ensures
            m == spec_no_modifiers(),
    {
        StyleModifiers {
            bold: false,
            dim: false,
            italic: false,
            underlined: false,
            slow_blink: false,
            rapid_blink: false,
            reversed: false,
            hidden: false,
            crossed_out: false,
        }
    }
}

/// One grid position's content as handed over by the host UI
/// framework: a glyph, its colors and its style modifiers. The
/// renderer only reads it.
#[derive(Clone, Debug)]
pub struct TermCell {
    /// The code points rendered as a single grid unit.
    pub symbol: String,
    /// Text ink color.
    pub fg: TermColor,
    /// Cell background color.
    pub bg: TermColor,
    /// Color of the underline decoration; `Reset` means: use the
    /// resolved foreground.
    pub underline_color: TermColor,
    /// The cell's style modifiers.
    pub modifiers: StyleModifiers,
}

/// The mathematical content of a [`TermCell`].
#[verifier::ext_equal]
pub struct TermCellView {
    /// The glyph's code points.
    pub symbol: Seq<char>,
    /// Text ink color.
    pub fg: TermColor,
    /// Cell background color.
    pub bg: TermColor,
    /// Color of the underline decoration.
    pub underline_color: TermColor,
    /// The cell's style modifiers.
    pub modifiers: StyleModifiers,
}

impl View for TermCell {
    type V = TermCellView;

    open spec fn view(&self) -> TermCellView {
        TermCellView {
            symbol: self.symbol@,
            fg: self.fg,
            bg: self.bg,
            underline_color: self.underline_color,
            modifiers: self.modifiers,
        }
    }
}

impl TermCell {
    /// A cell showing `symbol` in the theme's default colors, with no
    /// modifiers.
    pub fn new(symbol: String) -> (c: TermCell)
        ensures
            c@.symbol == symbol@,
            c@.fg == TermColor::Reset,
            c@.bg == TermColor::Reset,
            c@.underline_color == TermColor::Reset,
            c@.modifiers == spec_no_modifiers(),
    {
        TermCell {
            symbol,
            fg: TermColor::Reset,
            bg: TermColor::Reset,
            underline_color: TermColor::Reset,
            modifiers: StyleModifiers::default(),
        }
    }
}

/// Which of the up to three configured fonts a cell is drawn with.
#[derive(Clone, Copy, PartialEq, Eq, Structural, Debug)]
pub enum FontChoice {
    /// The mandatory regular font.
    Regular,
    /// The optional bold font.
    Bold,
    /// The optional italic font.
    Italic,
}

/// A cell's fully resolved appearance: font variant, concrete colors
/// and decorations.
#[derive(Clone, Copy, Debug)]
pub struct ResolvedStyle {
    /// The font variant the glyph is drawn with.
    pub font: FontChoice,
    /// Concrete ink color.
    pub fg: Rgb,
    /// Concrete background color.
    pub bg: Rgb,
    /// Concrete underline color, when the underline decoration is on.
    pub underline: Option<Rgb>,
    /// Whether the strikethrough decoration is on.
    pub strikethrough: bool,
}

/// The font variant a modifier set selects. Starting from the regular
/// font, bold substitutes the bold variant when one is configured,
/// then italic substitutes the italic variant when one is configured,
/// so italic wins when both modifiers are set and both variants
/// exist; a missing variant keeps the current choice.
pub open spec fn spec_font_choice(m: StyleModifiers, has_bold: bool, has_italic: bool) -> FontChoice {
    if m.italic && has_italic {
        FontChoice::Italic
    } else if m.bold && has_bold {
        FontChoice::Bold
    } else {
        FontChoice::Regular
    }
}

/// The fixed per-cell style resolution: font variant per the modifier
/// set, both cell colors through the color mapper, an underline
/// decoration if the underline modifier is set (colored by the cell's
/// underline color when that is not `Reset`, else by the resolved
/// foreground), and a strikethrough decoration if that modifier is
/// set. The remaining modifiers change nothing.
pub open spec fn spec_resolve_style(
    cell: TermCellView,
    theme: ColorTheme,
    has_bold: bool,
    has_italic: bool,
) -> ResolvedStyle {
    let fg = spec_resolve_color(cell.fg, ColorRole::Foreground, theme);
    ResolvedStyle {
        font: spec_font_choice(cell.modifiers, has_bold, has_italic),
        fg,
        bg: spec_resolve_color(cell.bg, ColorRole::Background, theme),
        underline: if cell.modifiers.underlined {
            if cell.underline_color != TermColor::Reset {
                Some(spec_resolve_color(cell.underline_color, ColorRole::Foreground, theme))
            } else {
                Some(fg)
            }
        } else {
            None
        },
        strikethrough: cell.modifiers.crossed_out,
    }
}

/// Law: dim, the two blink speeds, reverse and hidden are documented
/// no-ops of this renderer: two cells that differ only in those
/// modifiers resolve to the same appearance.
pub proof fn lemma_unsupported_modifiers_are_no_ops(
    a: TermCellView,
    b: TermCellView,
    theme: ColorTheme,
    has_bold: bool,
    has_italic: bool,
)
    requires
        a.symbol == b.symbol,
        a.fg == b.fg,
        a.bg == b.bg,
        a.underline_color == b.underline_color,
        a.modifiers.bold == b.modifiers.bold,
        a.modifiers.italic == b.modifiers.italic,
        a.modifiers.underlined == b.modifiers.underlined,
        a.modifiers.crossed_out == b.modifiers.crossed_out,
    ensures
        spec_resolve_style(a, theme, has_bold, has_italic) == spec_resolve_style(
            b,
            theme,
            has_bold,
            has_italic,
        ),
{
}

/// Resolves a cell's appearance under a theme, given which font
/// variants are configured.
pub fn resolve_style(cell: &TermCell, theme: &ColorTheme, has_bold: bool, has_italic: bool) -> (r:
    ResolvedStyle)
    ensures
        r == spec_resolve_style(cell@, *theme, has_bold, has_italic),
{
    let fg = resolve_color(cell.fg, ColorRole::Foreground, theme);
    let font = if cell.modifiers.italic && has_italic {
        FontChoice::Italic
    } else if cell.modifiers.bold && has_bold {
        FontChoice::Bold
    } else {
        FontChoice::Regular
    };
    let underline = if cell.modifiers.underlined {
        if cell.underline_color != TermColor::Reset {
            Some(resolve_color(cell.underline_color, ColorRole::Foreground, theme))
        } else {
            Some(fg)
        }
    } else {
        None
    };
    ResolvedStyle {
        font,
        fg,
        bg: resolve_color(cell.bg, ColorRole::Background, theme),
        underline,
        strikethrough: cell.modifiers.crossed_out,
    }
}

} // verus!
