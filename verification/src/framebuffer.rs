use vstd::prelude::*;
use embedded_graphics::pixelcolor::Rgb888;
use embedded_graphics_simulator::SimulatorDisplay;
use crate::color::Rgb;
use crate::error::{DrawFault, FlushError};
use crate::sim::{sim_dimensions, sim_draw_glyph, sim_fill, sim_get_pixel, sim_new, sim_pixels, sim_size};
use crate::surface::{BufferedDisplay, GlyphOp, SurfaceOp};

verus! {

/// Bounds of a row-major index: a coordinate inside a `width` by
/// `height` grid addresses a flat element before `width * height`.
proof fn lemma_row_major_index(width: int, height: int, x: int, y: int)
    by (nonlinear_arith)
    requires
        0 <= x < width,
        0 <= y < height,
    ensures
        0 <= y * width + x < width * height,
{
}

/// Row-major addressing is injective: two coordinates with the same
/// flat index are the same coordinate.
proof fn lemma_row_major_injective(width: int, x1: int, y1: int, x2: int, y2: int)
    by (nonlinear_arith)
    requires
        0 <= x1 < width,
        0 <= x2 < width,
        y1 >= 0,
        y2 >= 0,
        y1 * width + x1 == y2 * width + x2,
    ensures
        x1 == x2,
        y1 == y2,
{
}

/// An owned pixel store mirroring the display surface: a row-major
/// array sized exactly to the surface's bounding box at construction,
/// filled by full clears and by the flush-time copy of the composed
/// frame, and read out for the device's bulk write.
pub struct FrameBuffer {
    width: u16,
    height: u16,
    pixels: Vec<Rgb>,
}

impl FrameBuffer {
    /// Validity: the store holds exactly one pixel per coordinate of
    /// the bounding box captured at construction.
    pub closed spec fn wf(self) -> bool {
        self.pixels@.len() == self.width as int * self.height as int
    }

    /// Width in pixels.
    pub closed spec fn width_spec(self) -> int {
        self.width as int
    }

    /// Height in pixels.
    pub closed spec fn height_spec(self) -> int {
        self.height as int
    }

    /// The stored color of the pixel at a coordinate.
    pub closed spec fn pixel_spec(self, x: int, y: int) -> Rgb {
        self.pixels@[y * self.width as int + x]
    }

    /// Allocates a buffer for a `width` by `height` surface with
    /// every pixel set to `color`.
    pub fn new(width: u16, height: u16, color: Rgb) -> (fb: FrameBuffer)
        ensures
            fb.wf(),
            fb.width_spec() == width,
            fb.height_spec() == height,
            forall|x: int, y: int|
                0 <= x < width && 0 <= y < height ==> fb.pixel_spec(x, y) == color,
    {
        proof {
            assert((width as int) * (height as int) < 0x1_0000_0000) by (nonlinear_arith)
                requires
                    width <= 0xffff,
                    height <= 0xffff,
            ;
        }
        let n: usize = (width as usize) * (height as usize);
        let mut pixels: Vec<Rgb> = Vec::new();
        while pixels.len() < n
            invariant
                pixels@.len() <= n,
                forall|i: int| 0 <= i < pixels@.len() ==> pixels@[i] == color,
            decreases n - pixels@.len(),
        {
            pixels.push(color);
        }
        let fb = FrameBuffer { width, height, pixels };
        proof {
            assert forall|x: int, y: int|
                0 <= x < width && 0 <= y < height implies fb.pixel_spec(x, y) == color by {
                lemma_row_major_index(width as int, height as int, x, y);
            }
        }
        fb
    }

    /// Resets every pixel to `color`.
    pub fn fill(&mut self, color: Rgb)
        requires
            old(self).wf(),
        ensures
            final(self).wf(),
            final(self).width_spec() == old(self).width_spec(),
            final(self).height_spec() == old(self).height_spec(),
            forall|x: int, y: int|
                0 <= x < old(self).width_spec() && 0 <= y < old(self).height_spec() ==> final(self).pixel_spec(x, y) == color,
    {
        let ghost orig = *self;
        let n: usize = self.pixels.len();
        let mut i: usize = 0;
        while i < n
            invariant
                self.width == orig.width,
                self.height == orig.height,
                self.pixels@.len() == n,
                n == orig.width as int * orig.height as int,
                i <= n,
                forall|j: int| 0 <= j < i ==> self.pixels@[j] == color,
            decreases n - i,
        {
            self.pixels[i] = color;
            i = i + 1;
        }
        proof {
            assert forall|x: int, y: int|
                0 <= x < orig.width as int && 0 <= y < orig.height as int implies self.pixel_spec(
                x,
                y,
            ) == color by {
                lemma_row_major_index(orig.width as int, orig.height as int, x, y);
            }
        }
    }

    /// Writes one pixel.
    pub fn set_pixel(&mut self, x: u16, y: u16, color: Rgb)
        requires
            old(self).wf(),
            (x as int) < old(self).width_spec(),
            (y as int) < old(self).height_spec(),
        ensures
            final(self).wf(),
            final(self).width_spec() == old(self).width_spec(),
            final(self).height_spec() == old(self).height_spec(),
            final(self).pixel_spec(x as int, y as int) == color,
            forall|i: int, j: int|
                0 <= i < old(self).width_spec() && 0 <= j < old(self).height_spec() && !(i == x
                    as int && j == y as int) ==> final(self).pixel_spec(i, j) == old(self).pixel_spec(i, j),
    {
        proof {
            lemma_row_major_index(self.width as int, self.height as int, x as int, y as int);
            assert((self.width as int) * (self.height as int) <= 0xffff * 0xffff)
                by (nonlinear_arith)
                requires
                    self.width <= 0xffff,
                    self.height <= 0xffff,
            ;
        }
        let idx: usize = (y as usize) * (self.width as usize) + (x as usize);
        self.pixels[idx] = color;
        proof {
            assert forall|i: int, j: int|
                0 <= i < old(self).width_spec() && 0 <= j < old(self).height_spec() && !(i == x
                    as int && j == y as int) implies self.pixel_spec(i, j) == old(self).pixel_spec(i, j) by {
                lemma_row_major_index(self.width as int, self.height as int, i, j);
                if j * self.width as int + i == y as int * self.width as int + x as int {
                    lemma_row_major_injective(self.width as int, i, j, x as int, y as int);
                }
            }
        }
    }

    /// Reads one pixel.
    pub fn get_pixel(&self, x: u16, y: u16) -> (c: Rgb)
        requires
            self.wf(),
            (x as int) < self.width_spec(),
            (y as int) < self.height_spec(),
        ensures
            c == self.pixel_spec(x as int, y as int),
    {
        proof {
            lemma_row_major_index(self.width as int, self.height as int, x as int, y as int);
            assert((self.width as int) * (self.height as int) <= 0xffff * 0xffff)
                by (nonlinear_arith)
                requires
                    self.width <= 0xffff,
                    self.height <= 0xffff,
            ;
        }
        let idx: usize = (y as usize) * (self.width as usize) + (x as usize);
        self.pixels[idx]
    }

    /// Width in pixels.
    pub fn width(&self) -> (w: u16)
        ensures
            w as int == self.width_spec(),
    {
        self.width
    }

    /// Height in pixels.
    pub fn height(&self) -> (h: u16)
        ensures
            h as int == self.height_spec(),
    {
        self.height
    }

    /// Whether the store holds exactly one pixel per coordinate of
    /// its bounding box.
    pub fn is_wf(&self) -> (b: bool)
        ensures
            b == self.wf(),
    {
        proof {
            assert((self.width as int) * (self.height as int) < 0x1_0000_0000)
                by (nonlinear_arith)
                requires
                    self.width <= 0xffff,
                    self.height <= 0xffff,
            ;
        }
        self.pixels.len() == (self.width as usize) * (self.height as usize)
    }

    /// The full pixel contents in row-major order, for the device's
    /// bulk-write primitive.
    pub fn pixel_data(&self) -> (v: &Vec<Rgb>)
        requires
            self.wf(),
        ensures
            v@.len() == self.width_spec() * self.height_spec(),
            forall|x: int, y: int|
                0 <= x < self.width_spec() && 0 <= y < self.height_spec() ==> v@[y
                    * self.width_spec() + x] == self.pixel_spec(x, y),
    {
        &self.pixels
    }
}

/// A display binding with an owned frame buffer: glyphs and fills
/// compose a full frame in memory, and each flush copies the entire
/// composed frame into the owned pixel store exactly once, where the
/// device's bulk-write primitive reads it.
pub struct FramebufferDisplay {
    sim: SimulatorDisplay<Rgb888>,
    frame: FrameBuffer,
    width: u16,
    height: u16,
    log: Ghost<Seq<SurfaceOp>>,
    shown: Ghost<Seq<SurfaceOp>>,
}

impl FramebufferDisplay {
    /// The owned pixel store as last synchronized by a flush.
    pub closed spec fn frame_spec(self) -> FrameBuffer {
        self.frame
    }

    /// A fresh buffered surface of the given size, with surface and
    /// owned buffer both set to the background color.
    pub fn new(width: u16, height: u16, background: Rgb) -> (d: FramebufferDisplay)
        ensures
            d.binding_wf(),
            d.pending() == Seq::<SurfaceOp>::empty(),
            d.committed() == Seq::<SurfaceOp>::empty(),
            d.size_spec() == (width as int, height as int),
            forall|x: int, y: int|
                0 <= x < width && 0 <= y < height ==> d.pixel_at(x, y) == background,
            forall|x: int, y: int|
                0 <= x < width && 0 <= y < height ==> d.frame_spec().pixel_spec(x, y)
                    == background,
    {
        FramebufferDisplay {
            sim: sim_new(width, height, background),
            frame: FrameBuffer::new(width, height, background),
            width,
            height,
            log: Ghost(Seq::empty()),
            shown: Ghost(Seq::empty()),
        }
    }

    /// Reads one pixel of the composed surface.
    pub fn get_pixel(&self, x: u16, y: u16) -> (c: Rgb)
        requires
            self.binding_wf(),
            (x as int) < self.size_spec().0,
            (y as int) < self.size_spec().1,
        ensures
            c == self.pixel_at(x as int, y as int),
    {
        sim_get_pixel(&self.sim, x, y)
    }

    /// The owned frame buffer, as filled by the latest flush.
    pub fn frame(&self) -> (fb: &FrameBuffer)
        requires
            self.binding_wf(),
        ensures
            *fb == self.frame_spec(),
            fb.wf(),
            fb.width_spec() == self.size_spec().0,
            fb.height_spec() == self.size_spec().1,
    {
        &self.frame
    }

    /// Copies the entire composed frame into the owned pixel store:
    /// on a valid binding, the store afterwards holds exactly the
    /// surface's pixels. The copy runs only once the store's own
    /// bookkeeping has been checked against the surface; otherwise
    /// the store is left untouched.
    fn sync_frame(&mut self)
        ensures
            final(self).sim == old(self).sim,
            final(self).width == old(self).width,
            final(self).height == old(self).height,
            final(self).log == old(self).log,
            final(self).shown == old(self).shown,
            final(self).binding_wf() == old(self).binding_wf(),
            old(self).binding_wf() ==> forall|x: int, y: int|
                0 <= x < old(self).width as int && 0 <= y < old(self).height as int ==> final(self).frame.pixel_spec(x, y) == sim_pixels(old(self).sim)[(x, y)],
    {
        if !self.frame.is_wf() {
            return ;
        }
        let (sim_w, sim_h) = sim_dimensions(&self.sim);
        let sized_right = self.frame.width() == self.width && self.frame.height() == self.height
            && sim_w == self.width as u32 && sim_h == self.height as u32;
        if !sized_right {
            return ;
        }
        let ghost orig = *self;
        let mut y: u16 = 0;
        while y < self.height
            invariant
                orig.binding_wf(),
                self.sim == orig.sim,
                self.width == orig.width,
                self.height == orig.height,
                self.log == orig.log,
                self.shown == orig.shown,
                self.frame.wf(),
                self.frame.width_spec() == orig.width as int,
                self.frame.height_spec() == orig.height as int,
                y <= self.height,
                forall|i: int, j: int|
                    0 <= i < orig.width as int && 0 <= j < y as int ==> self.frame.pixel_spec(
                        i,
                        j,
                    ) == sim_pixels(orig.sim)[(i, j)],
            decreases self.height as int - y as int,
        {
            let mut x: u16 = 0;
            while x < self.width
                invariant
                    orig.binding_wf(),
                    self.sim == orig.sim,
                    self.width == orig.width,
                    self.height == orig.height,
                    self.log == orig.log,
                    self.shown == orig.shown,
                    self.frame.wf(),
                    self.frame.width_spec() == orig.width as int,
                    self.frame.height_spec() == orig.height as int,
                    x <= self.width,
                    y < self.height,
                    forall|i: int, j: int|
                        0 <= i < orig.width as int && 0 <= j < y as int ==> self.frame.pixel_spec(
                            i,
                            j,
                        ) == sim_pixels(orig.sim)[(i, j)],
                    forall|i: int|
                        0 <= i < x as int ==> self.frame.pixel_spec(i, y as int) == sim_pixels(
                            orig.sim,
                        )[(i, y as int)],
                decreases self.width as int - x as int,
            {
                let c = sim_get_pixel(&self.sim, x, y);
                self.frame.set_pixel(x, y, c);
                x = x + 1;
            }
            y = y + 1;
        }
    }
}

impl BufferedDisplay for FramebufferDisplay {
    closed spec fn pending(&self) -> Seq<SurfaceOp> {
        self.log@
    }

    closed spec fn committed(&self) -> Seq<SurfaceOp> {
        self.shown@
    }

    closed spec fn size_spec(&self) -> (int, int) {
        (self.width as int, self.height as int)
    }

    /// The recorded size matches both the composed surface's and the
    /// owned store's.
    closed spec fn binding_wf(&self) -> bool {
        &&& sim_size(self.sim) == (self.width as int, self.height as int)
        &&& self.frame.wf()
        &&& self.frame.width_spec() == self.width as int
        &&& self.frame.height_spec() == self.height as int
    }

    closed spec fn pixel_at(&self, x: int, y: int) -> Rgb {
        sim_pixels(self.sim)[(x, y)]
    }

    fn pixel_size(&self) -> (r: (u16, u16)) {
        (self.width, self.height)
    }

    /// The buffered surface accepts every tame glyph.
    fn draw_glyph(&mut self, op: GlyphOp) -> (r: Result<(), DrawFault>)
        ensures
            r is Ok,
    {
        sim_draw_glyph(&mut self.sim, &op);
        self.log = Ghost(self.log@.push(SurfaceOp::Glyph(op@)));
        Ok(())
    }

    /// The buffered surface accepts every fill.
    fn fill(&mut self, color: Rgb) -> (r: Result<(), DrawFault>)
        ensures
            r is Ok,
    {
        sim_fill(&mut self.sim, color);
        self.log = Ghost(self.log@.push(SurfaceOp::Fill(color)));
        Ok(())
    }

    /// Beyond the hand-off itself: a flush fills the owned store with
    /// the composed frame, pixel for pixel.
    fn flush(&mut self) -> (r: Result<(), FlushError>)
        ensures
            r is Ok,
            old(self).binding_wf() ==> forall|x: int, y: int|
                0 <= x < old(self).size_spec().0 && 0 <= y < old(self).size_spec().1 ==> final(self).frame_spec().pixel_spec(x, y) == final(self).pixel_at(x, y),
    {
        self.sync_frame();
        self.shown = Ghost(self.shown@ + self.log@);
        self.log = Ghost(Seq::empty());
        Ok(())
    }
}

} // verus!
