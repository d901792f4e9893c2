use vstd::prelude::*;
use crate::cell::FontChoice;
use crate::color::Rgb;
use crate::error::{DrawFault, FlushError};
use crate::font::FontDescriptor;

verus! {

/// The most code points one glyph operation may carry. The glyph
/// rasterizer advances a 32-bit pen position per code point, so a
/// bound on the glyph keeps that arithmetic in range; any real grid
/// cell's glyph is far below it.
pub const GLYPH_LEN_LIMIT: usize = 0x2000;

/// One fully resolved glyph draw operation: a glyph, its absolute
/// pixel position (top-baseline anchor), the font it is drawn with,
/// and its resolved colors and decorations.
pub struct GlyphOp {
    /// The code points drawn as one grid unit.
    pub glyph: String,
    /// Horizontal pixel position of the glyph's origin.
    pub x: u16,
    /// Vertical pixel position of the glyph's origin.
    pub y: u16,
    /// Which configured font variant was selected.
    pub font_choice: FontChoice,
    /// The selected font.
    pub font: FontDescriptor,
    /// Concrete ink color.
    pub fg: Rgb,
    /// Concrete background color.
    pub bg: Rgb,
    /// Concrete underline color, when the underline decoration is on.
    pub underline: Option<Rgb>,
    /// Whether the strikethrough decoration is on.
    pub strikethrough: bool,
}

/// The mathematical content of a [`GlyphOp`]: the glyph's code
/// points, its position, the selected variant with its cell metrics,
/// and the resolved colors and decorations.
#[verifier::ext_equal]
pub struct GlyphOpView {
    /// The glyph's code points.
    pub glyph: Seq<char>,
    /// Horizontal pixel position.
    pub x: int,
    /// Vertical pixel position.
    pub y: int,
    /// Which configured font variant was selected.
    pub font_choice: FontChoice,
    /// Character cell width of the selected font.
    pub char_width: int,
    /// Character cell height of the selected font.
    pub char_height: int,
    /// Concrete ink color.
    pub fg: Rgb,
    /// Concrete background color.
    pub bg: Rgb,
    /// Concrete underline color, when the underline decoration is on.
    pub underline: Option<Rgb>,
    /// Whether the strikethrough decoration is on.
    pub strikethrough: bool,
}

impl GlyphOp {
    /// The operation stays within the rasterizer's pixel coordinate
    /// range: a bounded glyph drawn with a font whose metrics are the
    /// descriptor's own and fit that range.
    pub open spec fn tame(self) -> bool {
        &&& self.glyph@.len() <= GLYPH_LEN_LIMIT
        &&& self.font.tame()
    }
}

impl View for GlyphOp {
    type V = GlyphOpView;

    open spec fn view(&self) -> GlyphOpView {
        GlyphOpView {
            glyph: self.glyph@,
            x: self.x as int,
            y: self.y as int,
            font_choice: self.font_choice,
            char_width: self.font.char_width as int,
            char_height: self.font.char_height as int,
            fg: self.fg,
            bg: self.bg,
            underline: self.underline,
            strikethrough: self.strikethrough,
        }
    }
}

/// One operation a display surface accepts: a positioned styled
/// glyph, or a fill of the whole surface with one color.
#[verifier::ext_equal]
pub enum SurfaceOp {
    /// A positioned styled glyph.
    Glyph(GlyphOpView),
    /// A fill of the whole surface.
    Fill(Rgb),
}

/// The capability a display must offer to be drawn on by the
/// renderer: pixel-level drawing of text glyphs, full-surface fills,
/// and an explicit flush that hands the composed content to the
/// physical device.
///
/// The surface is modelled by the operations it accepts: `pending()`
/// holds the operations accepted since the last flush, `committed()`
/// everything handed to the device by earlier flushes. A flush moves
/// the pending operations to the committed content; with nothing
/// pending it is a legal no-op. An operation that fails is not
/// accepted: the model is unchanged, though already written pixels of
/// the surface may remain.
pub trait BufferedDisplay: Sized {
    /// The operations accepted since the last flush. Bindings that
    /// track their accepted operations override this; the default
    /// models a display about which nothing is stated.
    open spec fn pending(&self) -> Seq<SurfaceOp> {
        Seq::empty()
    }

    /// The content handed to the device by the flushes so far.
    /// Bindings that track their accepted operations override this.
    open spec fn committed(&self) -> Seq<SurfaceOp> {
        Seq::empty()
    }

    /// The fixed pixel size of the surface: width, then height.
    open spec fn size_spec(&self) -> (int, int) {
        (0, 0)
    }

    /// Validity of the binding's own state. Bindings whose model is
    /// tied to an underlying store override this; every operation
    /// preserves it.
    open spec fn binding_wf(&self) -> bool {
        true
    }

    /// The color of the drawable surface's pixel at a coordinate.
    /// Bindings with observable pixels override this.
    open spec fn pixel_at(&self, x: int, y: int) -> Rgb {
        Rgb { r: 0, g: 0, b: 0 }
    }

    /// The pixel size of the surface, which never changes.
    fn pixel_size(&self) -> (r: (u16, u16))
        ensures
            (r.0 as int, r.1 as int) == self.size_spec(),
    ;

    /// Rasterizes one styled glyph onto the surface. Callers hand
    /// over tame operations only: the rasterizer's pen arithmetic is
    /// bounded by the glyph's length and the font's metrics.
    fn draw_glyph(&mut self, op: GlyphOp) -> (r: Result<(), DrawFault>)
        requires
            op.tame(),
        ensures
            final(self).size_spec() == old(self).size_spec(),
            final(self).binding_wf() == old(self).binding_wf(),
            final(self).committed() == old(self).committed(),
            r is Ok ==> final(self).pending() == old(self).pending().push(
                SurfaceOp::Glyph(op@),
            ),
            r is Err ==> final(self).pending() == old(self).pending(),
    ;

    /// Fills the whole surface with one color: on success, every
    /// pixel of a valid binding holds that color.
    fn fill(&mut self, color: Rgb) -> (r: Result<(), DrawFault>)
        ensures
            final(self).size_spec() == old(self).size_spec(),
            final(self).binding_wf() == old(self).binding_wf(),
            final(self).committed() == old(self).committed(),
            r is Ok ==> final(self).pending() == old(self).pending().push(SurfaceOp::Fill(color)),
            r is Err ==> final(self).pending() == old(self).pending(),
            old(self).binding_wf() && r is Ok ==> forall|x: int, y: int|
                0 <= x < old(self).size_spec().0 && 0 <= y < old(self).size_spec().1 ==> final(self).pixel_at(x, y) == color,
    ;

    /// Hands the composed content to the physical device. Flushing
    /// pushes the drawable surface's pixels out; it never alters
    /// them.
    fn flush(&mut self) -> (r: Result<(), FlushError>)
        ensures
            final(self).size_spec() == old(self).size_spec(),
            final(self).binding_wf() == old(self).binding_wf(),
            r is Ok ==> final(self).committed() == old(self).committed() + old(self).pending(),
            r is Ok ==> final(self).pending() == Seq::<SurfaceOp>::empty(),
            r is Err ==> final(self).committed() == old(self).committed(),
            r is Err ==> final(self).pending() == old(self).pending(),
            forall|x: int, y: int| final(self).pixel_at(x, y) == old(self).pixel_at(x, y),
    ;
}

/// Law: a flush with nothing pending leaves the committed device
/// content exactly as it was — calling flush with zero draws since
/// the previous flush is a legal no-op.
pub proof fn lemma_flush_without_draws(committed: Seq<SurfaceOp>, pending: Seq<SurfaceOp>)
    requires
        pending == Seq::<SurfaceOp>::empty(),
    ensures
        committed + pending == committed,
{
    assert(committed + pending =~= committed);
}

} // verus!
