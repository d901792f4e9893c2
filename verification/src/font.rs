use vstd::prelude::*;
use embedded_graphics::mono_font::MonoFont;

verus! {

#[verifier::external_type_specification]
#[verifier::external_body]
/// A monospace bitmap font of the graphics library, carried through
/// opaquely: the renderer never looks inside it, it only hands it to
/// the rasterizer.
pub struct ExMonoFont<'a>(MonoFont<'a>);

/// A configured font: its glyph bitmap source, opaque to the
/// renderer, together with the character cell metrics the layout and
/// positioning logic works with.
#[derive(Clone, Copy)]
pub struct FontDescriptor {
    /// The glyph bitmap source, used only by the rasterizer.
    pub glyphs: &'static MonoFont<'static>,
    /// Width in pixels of one character cell.
    pub char_width: u16,
    /// Height in pixels of one character cell.
    pub char_height: u16,
}

/// The character cell of a font, in pixels: width, then height. A
/// fixed function of the font value alone.
pub uninterp spec fn char_size_of(f: MonoFont<'static>) -> (int, int);

/// The font's spacing and decoration rows, in pixels: character
/// spacing, underline offset and height, strikethrough offset and
/// height. A fixed function of the font value alone.
pub uninterp spec fn deco_metrics_of(f: MonoFont<'static>) -> (int, int, int, int, int);

impl FontDescriptor {
    /// A descriptor is well formed when its character cell has a
    /// positive extent on both axes.
    pub open spec fn wf(self) -> bool {
        self.char_width >= 1 && self.char_height >= 1
    }

    /// The descriptor's metrics are the font's own, and every pixel
    /// metric of the font fits the pixel coordinate range. The glyph
    /// rasterizer advances its pen by these amounts, so with them
    /// bounded its position arithmetic cannot leave that range.
    pub open spec fn tame(self) -> bool {
        &&& char_size_of(*self.glyphs) == (self.char_width as int, self.char_height as int)
        &&& 0 <= deco_metrics_of(*self.glyphs).0 <= 0xffff
        &&& 0 <= deco_metrics_of(*self.glyphs).1 <= 0xffff
        &&& 0 <= deco_metrics_of(*self.glyphs).2 <= 0xffff
        &&& 0 <= deco_metrics_of(*self.glyphs).3 <= 0xffff
        &&& 0 <= deco_metrics_of(*self.glyphs).4 <= 0xffff
    }

    /// Builds a descriptor from a font of the graphics library,
    /// taking the character cell metrics from the font itself.
    /// Returns `None` exactly when the font reports a character cell
    /// that is empty on some axis, or any pixel metric too large to
    /// address in pixel coordinates.
    pub fn from_font(glyphs: &'static MonoFont<'static>) -> (r: Option<FontDescriptor>)
        ensures
            r is Some <==> {
                &&& 1 <= char_size_of(*glyphs).0 <= 0xffff
                &&& 1 <= char_size_of(*glyphs).1 <= 0xffff
                &&& 0 <= deco_metrics_of(*glyphs).0 <= 0xffff
                &&& 0 <= deco_metrics_of(*glyphs).1 <= 0xffff
                &&& 0 <= deco_metrics_of(*glyphs).2 <= 0xffff
                &&& 0 <= deco_metrics_of(*glyphs).3 <= 0xffff
                &&& 0 <= deco_metrics_of(*glyphs).4 <= 0xffff
            },
            r matches Some(d) ==> {
                &&& d.wf()
                &&& d.tame()
                &&& d.glyphs == glyphs
                &&& d.char_width as int == char_size_of(*glyphs).0
                &&& d.char_height as int == char_size_of(*glyphs).1
            },
    {
        let (w, h) = font_character_size(glyphs);
        let (sp, uo, uh, so, sh) = font_deco_metrics(glyphs);
        if 1 <= w && w <= 0xffff && 1 <= h && h <= 0xffff && sp <= 0xffff && uo <= 0xffff && uh
            <= 0xffff && so <= 0xffff && sh <= 0xffff {
            Some(FontDescriptor { glyphs, char_width: w as u16, char_height: h as u16 })
        } else {
            None
        }
    }
}

/// Relies on `MonoFont`'s `character_size` field: the pixel size of
/// one character cell of the font, a pure read of the font value.
#[verifier::external_body]
fn font_character_size(f: &'static MonoFont<'static>) -> (r: (u32, u32))
    ensures
        (r.0 as int, r.1 as int) == char_size_of(*f),
{
    (f.character_size.width, f.character_size.height)
}

/// Relies on `MonoFont`'s `character_spacing`, `underline` and
/// `strikethrough` fields: the font's spacing and decoration rows,
/// pure reads of the font value.
#[verifier::external_body]
fn font_deco_metrics(f: &'static MonoFont<'static>) -> (r: (u32, u32, u32, u32, u32))
    ensures
        (r.0 as int, r.1 as int, r.2 as int, r.3 as int, r.4 as int) == deco_metrics_of(*f),
{
    (
        f.character_spacing,
        f.underline.offset,
        f.underline.height,
        f.strikethrough.offset,
        f.strikethrough.height,
    )
}

/// Relies on `embedded_graphics`'s built-in `FONT_6X10`: a monospace
/// font whose character cell is 6 by 10 pixels, with no character
/// spacing, a one-pixel underline on row 9 and a one-pixel
/// strikethrough on row 5.
#[verifier::external_body]
pub(crate) fn builtin_font() -> (r: FontDescriptor)
    ensures
        r.char_width == 6,
        r.char_height == 10,
        char_size_of(*r.glyphs) == (6int, 10int),
        deco_metrics_of(*r.glyphs) == (0int, 9int, 1int, 5int, 1int),
{
    FontDescriptor {
        glyphs: &embedded_graphics::mono_font::ascii::FONT_6X10,
        char_width: 6,
        char_height: 10,
    }
}

} // verus!
