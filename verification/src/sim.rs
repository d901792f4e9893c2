use vstd::prelude::*;
use embedded_graphics::draw_target::DrawTarget;
use embedded_graphics::geometry::{OriginDimensions, Point, Size};
use embedded_graphics::mono_font::MonoTextStyleBuilder;
use embedded_graphics::pixelcolor::{Rgb888, RgbColor};
use embedded_graphics::text::{Baseline, Text};
use embedded_graphics::Drawable;
use embedded_graphics_simulator::SimulatorDisplay;
use crate::color::Rgb;
use crate::error::{DrawFault, FlushError};
use crate::surface::{BufferedDisplay, GlyphOp, SurfaceOp};

verus! {

#[verifier::external_type_specification]
#[verifier::external_body]
/// The 24-bit device color of the graphics library, carried through
/// opaquely.
pub struct ExRgb888(Rgb888);

#[verifier::external_type_specification]
#[verifier::external_body]
#[verifier::reject_recursive_types(C)]
/// The in-memory display of the simulator crate, carried through
/// opaquely: a pixel store addressed by point, with a fixed size.
pub struct ExSimulatorDisplay<C>(SimulatorDisplay<C>);

/// The fixed pixel size of a simulator display: width, then height.
pub uninterp spec fn sim_size(d: SimulatorDisplay<Rgb888>) -> (int, int);

/// The pixel contents of a simulator display, by coordinate.
pub uninterp spec fn sim_pixels(d: SimulatorDisplay<Rgb888>) -> Map<(int, int), Rgb>;

/// Relies on `SimulatorDisplay::with_default_color`: a display of the
/// given size with every pixel set to the given color.
#[verifier::external_body]
pub(crate) fn sim_new(width: u16, height: u16, color: Rgb) -> (d: SimulatorDisplay<Rgb888>)
    ensures
        sim_size(d) == (width as int, height as int),
        forall|x: int, y: int|
            0 <= x < width && 0 <= y < height ==> sim_pixels(d)[(x, y)] == color,
{
    SimulatorDisplay::with_default_color(
        Size::new(width as u32, height as u32),
        Rgb888::new(color.r, color.g, color.b),
    )
}

/// Relies on `SimulatorDisplay::get_pixel`: the color of the pixel at
/// a point inside the display; a point outside makes it panic, so
/// such points are excluded.
#[verifier::external_body]
pub(crate) fn sim_get_pixel(d: &SimulatorDisplay<Rgb888>, x: u16, y: u16) -> (c: Rgb)
    requires
        (x as int) < sim_size(*d).0,
        (y as int) < sim_size(*d).1,
    ensures
        c == sim_pixels(*d)[(x as int, y as int)],
{
    let p = d.get_pixel(Point::new(x as i32, y as i32));
    Rgb { r: p.r(), g: p.g(), b: p.b() }
}

/// Relies on `OriginDimensions::size` for `SimulatorDisplay`: the
/// stored pixel size of the display.
#[verifier::external_body]
pub(crate) fn sim_dimensions(d: &SimulatorDisplay<Rgb888>) -> (r: (u32, u32))
    ensures
        (r.0 as int, r.1 as int) == sim_size(*d),
{
    let s = d.size();
    (s.width, s.height)
}

/// Relies on `DrawTarget::clear` for `SimulatorDisplay`: sets every
/// pixel of the display to the color; the display's error type is
/// uninhabited, so the fill cannot fail, and the size never changes.
#[verifier::external_body]
pub(crate) fn sim_fill(d: &mut SimulatorDisplay<Rgb888>, color: Rgb)
    ensures
        sim_size(*final(d)) == sim_size(*old(d)),
        forall|x: int, y: int|
            0 <= x < sim_size(*old(d)).0 && 0 <= y < sim_size(*old(d)).1 ==> sim_pixels(
                *final(d),
            )[(x, y)] == color,
{
    let _ = d.clear(Rgb888::new(color.r, color.g, color.b));
}

/// Relies on `Text::with_baseline` and `MonoTextStyleBuilder`:
/// rasterizes the styled glyph onto the display, top-baseline
/// anchored at the operation's position. The display's error type is
/// uninhabited and out-of-bounds pixels are skipped, so no error
/// comes back and the display's size never changes. The renderer
/// advances a 32-bit pen position by the font's character width and
/// spacing per code point, so only tame operations are accepted; it
/// is also relied on that the font's glyph mapping addresses glyphs
/// within the font's image, as the library's own fonts do.
#[verifier::external_body]
pub(crate) fn sim_draw_glyph(d: &mut SimulatorDisplay<Rgb888>, op: &GlyphOp)
    requires
        op.tame(),
    ensures
        sim_size(*final(d)) == sim_size(*old(d)),
{
    let mut style = MonoTextStyleBuilder::new().font(op.font.glyphs).text_color(
        Rgb888::new(op.fg.r, op.fg.g, op.fg.b),
    ).background_color(Rgb888::new(op.bg.r, op.bg.g, op.bg.b));
    if let Some(u) = op.underline {
        style = style.underline_with_color(Rgb888::new(u.r, u.g, u.b));
    }
    if op.strikethrough {
        style = style.strikethrough();
    }
    let position = Point::new(op.x as i32, op.y as i32);
    let _ = Text::with_baseline(op.glyph.as_str(), position, style.build(), Baseline::Top).draw(d);
}

/// A display binding that draws directly into a simulator display:
/// glyphs and fills are rasterized straight into the simulator's
/// pixel store, and flush has nothing left to push.
pub struct SimulatorBackendDisplay {
    sim: SimulatorDisplay<Rgb888>,
    width: u16,
    height: u16,
    log: Ghost<Seq<SurfaceOp>>,
    shown: Ghost<Seq<SurfaceOp>>,
}

impl SimulatorBackendDisplay {
    /// A fresh simulator surface of the given size with every pixel
    /// set to the background color, with nothing drawn and nothing
    /// committed.
    pub fn new(width: u16, height: u16, background: Rgb) -> (d: SimulatorBackendDisplay)
        ensures
            d.binding_wf(),
            d.pending() == Seq::<SurfaceOp>::empty(),
            d.committed() == Seq::<SurfaceOp>::empty(),
            d.size_spec() == (width as int, height as int),
            forall|x: int, y: int|
                0 <= x < width && 0 <= y < height ==> d.pixel_at(x, y) == background,
    {
        SimulatorBackendDisplay {
            sim: sim_new(width, height, background),
            width,
            height,
            log: Ghost(Seq::empty()),
            shown: Ghost(Seq::empty()),
        }
    }

    /// Reads one pixel of the surface.
    pub fn get_pixel(&self, x: u16, y: u16) -> (c: Rgb)
        requires
            self.binding_wf(),
            (x as int) < self.size_spec().0,
            (y as int) < self.size_spec().1,
        ensures
            c == self.pixel_at(x as int, y as int),
    {
        sim_get_pixel(&self.sim, x, y)
    }

    /// The simulator display itself, for presentation by a window or
    /// an image writer.
    pub fn simulator(&self) -> &SimulatorDisplay<Rgb888> {
        &self.sim
    }
}

impl BufferedDisplay for SimulatorBackendDisplay {
    closed spec fn pending(&self) -> Seq<SurfaceOp> {
        self.log@
    }

    closed spec fn committed(&self) -> Seq<SurfaceOp> {
        self.shown@
    }

    closed spec fn size_spec(&self) -> (int, int) {
        (self.width as int, self.height as int)
    }

    /// The recorded size matches the simulator display's own.
    closed spec fn binding_wf(&self) -> bool {
        sim_size(self.sim) == (self.width as int, self.height as int)
    }

    closed spec fn pixel_at(&self, x: int, y: int) -> Rgb {
        sim_pixels(self.sim)[(x, y)]
    }

    fn pixel_size(&self) -> (r: (u16, u16)) {
        (self.width, self.height)
    }

    /// The simulator surface accepts every tame glyph.
    fn draw_glyph(&mut self, op: GlyphOp) -> (r: Result<(), DrawFault>)
        ensures
            r is Ok,
    {
        sim_draw_glyph(&mut self.sim, &op);
        self.log = Ghost(self.log@.push(SurfaceOp::Glyph(op@)));
        Ok(())
    }

    /// The simulator surface accepts every fill.
    fn fill(&mut self, color: Rgb) -> (r: Result<(), DrawFault>)
        ensures
            r is Ok,
    {
        sim_fill(&mut self.sim, color);
        self.log = Ghost(self.log@.push(SurfaceOp::Fill(color)));
        Ok(())
    }

    /// Flushing a simulator surface always succeeds: the drawn
    /// pixels already are the shown pixels.
    fn flush(&mut self) -> (r: Result<(), FlushError>)
        ensures
            r is Ok,
    {
        self.shown = Ghost(self.shown@ + self.log@);
        self.log = Ghost(Seq::empty());
        Ok(())
    }
}

} // verus!
