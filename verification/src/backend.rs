use vstd::prelude::*;
use vstd::arithmetic::div_mod::lemma_fundamental_div_mod;
use crate::cell::{FontChoice, TermCell, TermCellView, spec_resolve_style, resolve_style};
use crate::color::{ColorRole, ColorTheme, TermColor, spec_resolve_color, resolve_color, spec_default_theme};
use crate::error::{ClearKind, Error};
use crate::font::{FontDescriptor, builtin_font};
use crate::layout::{TerminalAlignment, TerminalLayout};
use crate::surface::{BufferedDisplay, GlyphOp, GlyphOpView, SurfaceOp, GLYPH_LEN_LIMIT};

verus! {

/// Everything the backend is configured with at construction: the
/// mandatory regular font, the optional bold and italic variants, the
/// two alignment policies and the color theme.
pub struct EmbeddedBackendConfig {
    /// Regular font; mandatory, and the fallback for every cell.
    pub font_regular: FontDescriptor,
    /// Optional bold font variant.
    pub font_bold: Option<FontDescriptor>,
    /// Optional italic font variant.
    pub font_italic: Option<FontDescriptor>,
    /// How the grid is aligned vertically when the display height is
    /// not an exact multiple of the character height.
    pub vertical_alignment: TerminalAlignment,
    /// How the grid is aligned horizontally when the display width is
    /// not an exact multiple of the character width.
    pub horizontal_alignment: TerminalAlignment,
    /// The active color theme.
    pub color_theme: ColorTheme,
}

impl Default for EmbeddedBackendConfig {
    /// The built-in font, no bold or italic variant, alignment with
    /// the start of both axes, and the built-in theme.
    fn default() -> (c: EmbeddedBackendConfig)
        ensures
            c.font_regular.wf(),
            c.font_regular.tame(),
            c.font_regular.char_width == 6,
            c.font_regular.char_height == 10,
            c.font_bold is None,
            c.font_italic is None,
            c.vertical_alignment is Start,
            c.horizontal_alignment is Start,
            c.color_theme == spec_default_theme(),
    {
        EmbeddedBackendConfig {
            font_regular: builtin_font(),
            font_bold: None,
            font_italic: None,
            vertical_alignment: TerminalAlignment::Start,
            horizontal_alignment: TerminalAlignment::Start,
            color_theme: ColorTheme::default(),
        }
    }
}

/// The pixel size and grid size of the rendering surface, both fixed
/// at construction.
#[derive(Clone, Copy, PartialEq, Eq, Structural, Debug)]
pub struct TerminalWindowSize {
    /// Whole character columns on the surface.
    pub columns: u16,
    /// Whole character rows on the surface.
    pub rows: u16,
    /// Surface width in pixels.
    pub pixel_width: u16,
    /// Surface height in pixels.
    pub pixel_height: u16,
}

/// The rendering backend: it owns the display binding, resolves each
/// changed cell to a positioned styled glyph and issues the draw
/// operations, fills on clear, and triggers the device hand-off on
/// flush. Grid size, pixel size and alignment offset are computed
/// once at construction and never change.
pub struct EmbeddedBackend<B: BufferedDisplay> {
    /// The display binding chosen at construction.
    pub display: B,
    /// Regular font; mandatory, and the fallback for every cell.
    pub font_regular: FontDescriptor,
    /// Optional bold font variant.
    pub font_bold: Option<FontDescriptor>,
    /// Optional italic font variant.
    pub font_italic: Option<FontDescriptor>,
    /// The active color theme.
    pub theme: ColorTheme,
    /// Grid dimensions and alignment offset.
    pub layout: TerminalLayout,
    /// Surface width in pixels.
    pub pixel_width: u16,
    /// Surface height in pixels.
    pub pixel_height: u16,
}

impl<B: BufferedDisplay> EmbeddedBackend<B> {
    /// Validity of the backend state: well-formed fonts, the display
    /// size the backend was built against, grid dimensions that are
    /// the quotients of surface size by character cell, and an
    /// alignment offset within the leftover pixels.
    pub open spec fn wf(self) -> bool {
        &&& self.font_regular.wf()
        &&& self.font_regular.tame()
        &&& (self.font_bold matches Some(f) ==> f.wf() && f.tame())
        &&& (self.font_italic matches Some(f) ==> f.wf() && f.tame())
        &&& self.display.size_spec() == (self.pixel_width as int, self.pixel_height as int)
        &&& self.layout.columns as int == self.pixel_width as int
            / self.font_regular.char_width as int
        &&& self.layout.rows as int == self.pixel_height as int
            / self.font_regular.char_height as int
        &&& self.layout.offset_x as int <= self.pixel_width as int
            % self.font_regular.char_width as int
        &&& self.layout.offset_y as int <= self.pixel_height as int
            % self.font_regular.char_height as int
    }

    /// The configuration half of the state: everything but the
    /// display binding's own evolution.
    pub open spec fn same_config(a: Self, b: Self) -> bool {
        &&& a.font_regular == b.font_regular
        &&& a.font_bold == b.font_bold
        &&& a.font_italic == b.font_italic
        &&& a.theme == b.theme
        &&& a.layout == b.layout
        &&& a.pixel_width == b.pixel_width
        &&& a.pixel_height == b.pixel_height
    }

    /// The font a choice selects; a missing variant falls back to the
    /// regular font.
    pub open spec fn spec_chosen_font(self, choice: FontChoice) -> FontDescriptor {
        match choice {
            FontChoice::Regular => self.font_regular,
            FontChoice::Bold => match self.font_bold {
                Some(f) => f,
                None => self.font_regular,
            },
            FontChoice::Italic => match self.font_italic {
                Some(f) => f,
                None => self.font_regular,
            },
        }
    }

    /// The glyph draw operation a cell at a grid position resolves
    /// to: pixel position from the grid coordinates, the regular
    /// font's cell metrics and the alignment offset, and appearance
    /// from the fixed style resolution.
    pub open spec fn spec_cell_op(self, col: u16, row: u16, cell: TermCellView) -> GlyphOpView {
        let style = spec_resolve_style(
            cell,
            self.theme,
            self.font_bold is Some,
            self.font_italic is Some,
        );
        let font = self.spec_chosen_font(style.font);
        GlyphOpView {
            glyph: cell.symbol,
            x: col as int * self.font_regular.char_width as int + self.layout.offset_x as int,
            y: row as int * self.font_regular.char_height as int + self.layout.offset_y as int,
            font_choice: style.font,
            char_width: font.char_width as int,
            char_height: font.char_height as int,
            fg: style.fg,
            bg: style.bg,
            underline: style.underline,
            strikethrough: style.strikethrough,
        }
    }

    /// The surface operations one draw call with these cells issues,
    /// in order.
    pub open spec fn spec_ops_of(self, cells: Seq<(u16, u16, TermCell)>) -> Seq<SurfaceOp> {
        cells.map_values(
            |t: (u16, u16, TermCell)| SurfaceOp::Glyph(self.spec_cell_op(t.0, t.1, t.2@)),
        )
    }

    /// Creates a backend over a display binding: derives the grid and
    /// the alignment offset from the display's pixel size and the
    /// regular font, then clears the display to the theme's
    /// background default so that buffered and unbuffered displays
    /// start with the same look.
    pub fn new(display: B, config: EmbeddedBackendConfig) -> (r: Result<EmbeddedBackend<B>, Error>)
        requires
            config.font_regular.wf(),
            config.font_regular.tame(),
            config.font_bold matches Some(f) ==> f.wf() && f.tame(),
            config.font_italic matches Some(f) ==> f.wf() && f.tame(),
        ensures
            r matches Ok(b) ==> {
                &&& b.wf()
                &&& b.pixel_width as int == display.size_spec().0
                &&& b.pixel_height as int == display.size_spec().1
                &&& b.font_regular == config.font_regular
                &&& b.font_bold == config.font_bold
                &&& b.font_italic == config.font_italic
                &&& b.theme == config.color_theme
                &&& b.layout == TerminalLayout::spec_of(
                    display.size_spec().0,
                    display.size_spec().1,
                    config.font_regular.char_width as int,
                    config.font_regular.char_height as int,
                    config.horizontal_alignment,
                    config.vertical_alignment,
                )
                &&& b.display.committed() == display.committed()
                &&& b.display.pending() == display.pending().push(
                    SurfaceOp::Fill(
                        spec_resolve_color(
                            TermColor::Reset,
                            ColorRole::Background,
                            config.color_theme,
                        ),
                    ),
                )
                &&& b.display.binding_wf() == display.binding_wf()
                &&& config.font_regular.char_width as int > display.size_spec().0
                    ==> b.layout.columns == 0
                &&& config.font_regular.char_height as int > display.size_spec().1
                    ==> b.layout.rows == 0
            },
            r matches Ok(b) && display.binding_wf() ==> forall|x: int, y: int|
                0 <= x < display.size_spec().0 && 0 <= y < display.size_spec().1 ==> (
                r->Ok_0).display.pixel_at(x, y) == spec_resolve_color(
                    TermColor::Reset,
                    ColorRole::Background,
                    config.color_theme,
                ),
            r matches Err(e) ==> e is DrawError,
    {
        let (pixel_width, pixel_height) = display.pixel_size();
        let layout = TerminalLayout::compute(
            pixel_width,
            pixel_height,
            config.font_regular.char_width,
            config.font_regular.char_height,
            config.horizontal_alignment,
            config.vertical_alignment,
        );
        let mut backend = EmbeddedBackend {
            display,
            font_regular: config.font_regular,
            font_bold: config.font_bold,
            font_italic: config.font_italic,
            theme: config.color_theme,
            layout,
            pixel_width,
            pixel_height,
        };
        proof {
            crate::layout::lemma_grid_dimensions(
                pixel_width as int,
                config.font_regular.char_width as int,
            );
            crate::layout::lemma_grid_dimensions(
                pixel_height as int,
                config.font_regular.char_height as int,
            );
        }
        match backend.clear() {
            Ok(()) => Ok(backend),
            Err(_) => Err(Error::DrawError),
        }
    }

    /// Resolves one cell to its glyph draw operation.
    fn make_op(&self, col: u16, row: u16, cell: &TermCell) -> (op: GlyphOp)
        requires
            self.wf(),
            col < self.layout.columns,
            row < self.layout.rows,
            cell@.symbol.len() <= GLYPH_LEN_LIMIT,
        ensures
            op@ == self.spec_cell_op(col, row, cell@),
            op.tame(),
    {
        proof {
            Self::lemma_position_in_surface(
                col as int,
                self.layout.columns as int,
                self.font_regular.char_width as int,
                self.layout.offset_x as int,
                self.pixel_width as int,
            );
            Self::lemma_position_in_surface(
                row as int,
                self.layout.rows as int,
                self.font_regular.char_height as int,
                self.layout.offset_y as int,
                self.pixel_height as int,
            );
        }
        let style = resolve_style(cell, &self.theme, self.font_bold.is_some(), self.font_italic.is_some());
        let font = match style.font {
            FontChoice::Regular => self.font_regular,
            FontChoice::Bold => match self.font_bold {
                Some(f) => f,
                None => self.font_regular,
            },
            FontChoice::Italic => match self.font_italic {
                Some(f) => f,
                None => self.font_regular,
            },
        };
        GlyphOp {
            glyph: cell.symbol.clone(),
            x: col * self.font_regular.char_width + self.layout.offset_x,
            y: row * self.font_regular.char_height + self.layout.offset_y,
            font_choice: style.font,
            font,
            fg: style.fg,
            bg: style.bg,
            underline: style.underline,
            strikethrough: style.strikethrough,
        }
    }

    /// A cell within the grid starts strictly inside the surface: its
    /// pixel position leaves room for one whole character cell.
    proof fn lemma_position_in_surface(coord: int, extent: int, cell: int, offset: int, pixels: int)
        requires
            0 <= coord < extent,
            cell >= 1,
            extent == pixels / cell,
            0 <= offset <= pixels % cell,
            0 <= pixels,
        ensures
            coord * cell + offset + cell <= pixels,
    {
        lemma_fundamental_div_mod(pixels, cell);
        assert(coord * cell + cell <= extent * cell) by (nonlinear_arith)
            requires
                coord < extent,
                cell >= 1,
        ;
    }

    /// Draws the changed cells: each is resolved to a positioned
    /// styled glyph and rasterized into the active surface, in order.
    /// A rasterization failure is surfaced immediately as a draw
    /// error; cells already written stay written.
    pub fn draw(&mut self, cells: &Vec<(u16, u16, TermCell)>) -> (r: Result<(), Error>)
        requires
            old(self).wf(),
            forall|i: int|
                0 <= i < cells@.len() ==> (#[trigger] cells@[i]).0 < old(self).layout.columns
                    && cells@[i].1 < old(self).layout.rows && cells@[i].2@.symbol.len()
                    <= GLYPH_LEN_LIMIT,
        ensures
            final(self).wf(),
            Self::same_config(*final(self), *old(self)),
            final(self).display.binding_wf() == old(self).display.binding_wf(),
            final(self).display.committed() == old(self).display.committed(),
            r is Ok ==> final(self).display.pending() == old(self).display.pending() + old(self).spec_ops_of(cells@),
            r matches Err(e) ==> e is DrawError,
            r is Err ==> exists|k: int|
                0 <= k < cells@.len() && final(self).display.pending() == old(self).display.pending() + old(self).spec_ops_of(cells@.take(k)),
            cells@.len() == 0 ==> *final(self) == *old(self) && (forall|x: int, y: int|
                final(self).display.pixel_at(x, y) == old(self).display.pixel_at(x, y)),
    {
        let ghost orig = *self;
        let mut i: usize = 0;
        while i < cells.len()
            invariant
                orig == *old(self),
                i == 0 ==> *self == orig,
                self.wf(),
                Self::same_config(*self, orig),
                orig.wf(),
                i <= cells@.len(),
                forall|j: int|
                    0 <= j < cells@.len() ==> (#[trigger] cells@[j]).0 < orig.layout.columns
                        && cells@[j].1 < orig.layout.rows && cells@[j].2@.symbol.len()
                        <= GLYPH_LEN_LIMIT,
                self.display.binding_wf() == orig.display.binding_wf(),
                self.display.committed() == orig.display.committed(),
                self.display.pending() == orig.display.pending() + orig.spec_ops_of(
                    cells@.take(i as int),
                ),
            decreases cells@.len() - i,
        {
            let t = &cells[i];
            let op = self.make_op(t.0, t.1, &t.2);
            let ghost pending_before = self.display.pending();
            match self.display.draw_glyph(op) {
                Ok(()) => {
                    proof {
                        let f = |t: (u16, u16, TermCell)|
                            SurfaceOp::Glyph(orig.spec_cell_op(t.0, t.1, t.2@));
                        cells@.lemma_map_take_succ(f, i as int);
                        assert(self.display.pending() =~= orig.display.pending()
                            + orig.spec_ops_of(cells@.take(i as int + 1)));
                    }
                    i = i + 1;
                },
                Err(_) => {
                    proof {
                        let k = i as int;
                        assert(0 <= k < cells@.len() && self.display.pending()
                            == orig.display.pending() + orig.spec_ops_of(cells@.take(k)));
                    }
                    return Err(Error::DrawError);
                },
            }
        }
        proof {
            assert(cells@.take(cells@.len() as int) =~= cells@);
        }
        Ok(())
    }

    /// Fills the active surface with the theme's background default:
    /// the meaning of a full clear.
    pub fn clear(&mut self) -> (r: Result<(), Error>)
        requires
            old(self).wf(),
        ensures
            final(self).wf(),
            Self::same_config(*final(self), *old(self)),
            final(self).display.binding_wf() == old(self).display.binding_wf(),
            final(self).display.committed() == old(self).display.committed(),
            r is Ok ==> final(self).display.pending() == old(self).display.pending().push(
                SurfaceOp::Fill(
                    spec_resolve_color(TermColor::Reset, ColorRole::Background, old(self).theme),
                ),
            ),
            old(self).display.binding_wf() && r is Ok ==> forall|x: int, y: int|
                0 <= x < old(self).display.size_spec().0 && 0 <= y < old(
                    self,
                ).display.size_spec().1 ==> final(self).display.pixel_at(x, y)
                    == spec_resolve_color(TermColor::Reset, ColorRole::Background, old(self).theme),
            r is Err ==> final(self).display.pending() == old(self).display.pending(),
            r matches Err(e) ==> e is DrawError,
    {
        let color = resolve_color(TermColor::Reset, ColorRole::Background, &self.theme);
        match self.display.fill(color) {
            Ok(()) => Ok(()),
            Err(_) => Err(Error::DrawError),
        }
    }

    /// Clears a region: only `All` is supported and delegates to
    /// [`Self::clear`]; every other kind fails with an unsupported
    /// clear kind error carrying the requested kind, because this
    /// renderer has no cursor, and leaves the surface untouched.
    pub fn clear_region(&mut self, kind: ClearKind) -> (r: Result<(), Error>)
        requires
            old(self).wf(),
        ensures
            final(self).wf(),
            Self::same_config(*final(self), *old(self)),
            final(self).display.binding_wf() == old(self).display.binding_wf(),
            final(self).display.committed() == old(self).display.committed(),
            kind is All && old(self).display.binding_wf() && r is Ok ==> forall|x: int, y: int|
                0 <= x < old(self).display.size_spec().0 && 0 <= y < old(
                    self,
                ).display.size_spec().1 ==> final(self).display.pixel_at(x, y)
                    == spec_resolve_color(TermColor::Reset, ColorRole::Background, old(self).theme),
            kind is All ==> {
                &&& r is Ok ==> final(self).display.pending() == old(self).display.pending().push(
                    SurfaceOp::Fill(
                        spec_resolve_color(
                            TermColor::Reset,
                            ColorRole::Background,
                            old(self).theme,
                        ),
                    ),
                )
                &&& (r is Err ==> final(self).display.pending() == old(self).display.pending())
                &&& (r matches Err(e) ==> e is DrawError)
            },
            !(kind is All) ==> *final(self) == *old(self) && (r matches Err(e)
                && e == Error::ClearTypeUnsupported(kind)),
    {
        match kind {
            ClearKind::All => self.clear(),
            _ => Err(Error::ClearTypeUnsupported(kind)),
        }
    }

    /// The grid size computed at construction: columns, then rows.
    pub fn size(&self) -> (r: Result<(u16, u16), Error>)
        ensures
            r is Ok,
            r matches Ok(s) ==> s == (self.layout.columns, self.layout.rows),
    {
        Ok((self.layout.columns, self.layout.rows))
    }

    /// The grid size and pixel size computed at construction; the
    /// same values for every call over the backend's lifetime.
    pub fn window_size(&mut self) -> (r: Result<TerminalWindowSize, Error>)
        ensures
            *final(self) == *old(self),
            r is Ok,
            r matches Ok(w) ==> w == (TerminalWindowSize {
                columns: old(self).layout.columns,
                rows: old(self).layout.rows,
                pixel_width: old(self).pixel_width,
                pixel_height: old(self).pixel_height,
            }),
    {
        Ok(
            TerminalWindowSize {
                columns: self.layout.columns,
                rows: self.layout.rows,
                pixel_width: self.pixel_width,
                pixel_height: self.pixel_height,
            },
        )
    }

    /// Cursor rendering is out of scope: accepted as a no-op that
    /// always succeeds.
    pub fn hide_cursor(&mut self) -> (r: Result<(), Error>)
        ensures
            *final(self) == *old(self),
            r is Ok,
    {
        Ok(())
    }

    /// Cursor rendering is out of scope: accepted as a no-op that
    /// always succeeds.
    pub fn show_cursor(&mut self) -> (r: Result<(), Error>)
        ensures
            *final(self) == *old(self),
            r is Ok,
    {
        Ok(())
    }

    /// There is no cursor: always the origin.
    pub fn get_cursor_position(&mut self) -> (r: Result<(u16, u16), Error>)
        ensures
            *final(self) == *old(self),
            r is Ok,
            r matches Ok(p) ==> p == (0u16, 0u16),
    {
        Ok((0, 0))
    }

    /// There is no cursor: accepted as a no-op that always succeeds.
    pub fn set_cursor_position(&mut self, _position: (u16, u16)) -> (r: Result<(), Error>)
        ensures
            *final(self) == *old(self),
            r is Ok,
    {
        Ok(())
    }

    /// Hands the composed content to the physical device through the
    /// display binding. With nothing drawn since the previous flush
    /// this is a legal no-op: the committed device content is
    /// unchanged.
    pub fn flush(&mut self) -> (r: Result<(), Error>)
        requires
            old(self).wf(),
        ensures
            final(self).wf(),
            Self::same_config(*final(self), *old(self)),
            final(self).display.binding_wf() == old(self).display.binding_wf(),
            forall|x: int, y: int|
                final(self).display.pixel_at(x, y) == old(self).display.pixel_at(x, y),
            r is Ok ==> final(self).display.committed() == old(self).display.committed() + old(self).display.pending(),
            r is Ok ==> final(self).display.pending() == Seq::<SurfaceOp>::empty(),
            r is Ok && old(self).display.pending() == Seq::<SurfaceOp>::empty() ==> final(self).display.committed() == old(self).display.committed(),
            r is Err ==> final(self).display.committed() == old(self).display.committed(),
            r is Err ==> final(self).display.pending() == old(self).display.pending(),
            r matches Err(e) ==> e is Flush,
    {
        proof {
            if old(self).display.pending() == Seq::<SurfaceOp>::empty() {
                crate::surface::lemma_flush_without_draws(
                    old(self).display.committed(),
                    old(self).display.pending(),
                );
            }
        }
        match self.display.flush() {
            Ok(()) => Ok(()),
            Err(e) => Err(Error::Flush(e)),
        }
    }

    /// Law: composing a frame in several draw calls issues exactly
    /// the operations of one draw call with the concatenated cells:
    /// the same visible content reaches the surface either way.
    pub proof fn lemma_draw_batching(
        self,
        cells1: Seq<(u16, u16, TermCell)>,
        cells2: Seq<(u16, u16, TermCell)>,
    )
        ensures
            self.spec_ops_of(cells1 + cells2) == self.spec_ops_of(cells1) + self.spec_ops_of(
                cells2,
            ),
    {
        assert(self.spec_ops_of(cells1 + cells2) =~= self.spec_ops_of(cells1) + self.spec_ops_of(
            cells2,
        ));
    }
}

} // verus!
