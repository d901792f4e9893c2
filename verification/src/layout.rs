use vstd::prelude::*;

verus! {

/// How leftover pixels on an axis are distributed when the surface is
/// not an exact multiple of the character cell on that axis.
#[derive(Clone, Copy, PartialEq, Eq, Structural, Debug)]
pub enum TerminalAlignment {
    /// Alignment with the start of the terminal: left or top.
    Start,
    /// Best effort alignment with the center of the terminal.
    Center,
    /// Alignment with the end of the terminal: right or bottom.
    End,
}

/// The grid dimensions and sub-cell alignment offset derived from a
/// pixel surface and a monospace character cell. Computed once at
/// construction and immutable afterwards.
#[derive(Clone, Copy, PartialEq, Eq, Structural, Debug)]
pub struct TerminalLayout {
    /// Whole character columns that fit on the surface.
    pub columns: u16,
    /// Whole character rows that fit on the surface.
    pub rows: u16,
    /// Horizontal pixel offset of the grid's origin.
    pub offset_x: u16,
    /// Vertical pixel offset of the grid's origin.
    pub offset_y: u16,
}

/// How many whole character cells fit along an axis: truncating
/// division. A character cell larger than the surface yields zero.
pub open spec fn spec_grid_extent(pixels: int, cell: int) -> int {
    pixels / cell
}

/// The pixel offset an alignment policy assigns on one axis, given
/// the leftover pixels on that axis: `Start` takes none, `Center`
/// half (rounded down), `End` all of them.
pub open spec fn spec_axis_offset(alignment: TerminalAlignment, leftover: int) -> int {
    match alignment {
        TerminalAlignment::Start => 0,
        TerminalAlignment::Center => leftover / 2,
        TerminalAlignment::End => leftover,
    }
}

impl TerminalLayout {
    /// The layout of a `pixel_width` by `pixel_height` surface for a
    /// character cell of `char_width` by `char_height` pixels under
    /// the two alignment policies.
    pub open spec fn spec_of(
        pixel_width: int,
        pixel_height: int,
        char_width: int,
        char_height: int,
        horizontal: TerminalAlignment,
        vertical: TerminalAlignment,
    ) -> TerminalLayout {
        TerminalLayout {
            columns: spec_grid_extent(pixel_width, char_width) as u16,
            rows: spec_grid_extent(pixel_height, char_height) as u16,
            offset_x: spec_axis_offset(horizontal, pixel_width % char_width) as u16,
            offset_y: spec_axis_offset(vertical, pixel_height % char_height) as u16,
        }
    }

    /// Derives the grid dimensions and the alignment offset.
    pub fn compute(
        pixel_width: u16,
        pixel_height: u16,
        char_width: u16,
        char_height: u16,
        horizontal: TerminalAlignment,
        vertical: TerminalAlignment,
    ) -> (r: TerminalLayout)
        requires
            char_width > 0,
            char_height > 0,
        ensures
            r == TerminalLayout::spec_of(
                pixel_width as int,
                pixel_height as int,
                char_width as int,
                char_height as int,
                horizontal,
                vertical,
            ),
            r.columns == pixel_width as int / char_width as int,
            r.rows == pixel_height as int / char_height as int,
            r.offset_x < char_width,
            r.offset_y < char_height,
            r.offset_x <= pixel_width as int % char_width as int,
            r.offset_y <= pixel_height as int % char_height as int,
    {
        let extra_x: u16 = pixel_width % char_width;
        let extra_y: u16 = pixel_height % char_height;
        let offset_x: u16 = match horizontal {
            TerminalAlignment::Start => 0,
            TerminalAlignment::Center => extra_x / 2,
            TerminalAlignment::End => extra_x,
        };
        let offset_y: u16 = match vertical {
            TerminalAlignment::Start => 0,
            TerminalAlignment::Center => extra_y / 2,
            TerminalAlignment::End => extra_y,
        };
        TerminalLayout {
            columns: pixel_width / char_width,
            rows: pixel_height / char_height,
            offset_x,
            offset_y,
        }
    }
}

/// Law: the grid dimensions are the truncating quotients of surface
/// size by cell size, and a cell wider or taller than the surface
/// legally yields zero columns or rows.
pub proof fn lemma_grid_dimensions(pixels: int, cell: int)
    requires
        pixels >= 0,
        cell > 0,
    ensures
        spec_grid_extent(pixels, cell) == pixels / cell,
        cell > pixels ==> spec_grid_extent(pixels, cell) == 0,
        spec_grid_extent(pixels, cell) * cell <= pixels,
{
    assert(cell > pixels ==> pixels / cell == 0) by (nonlinear_arith)
        requires
            pixels >= 0,
            cell > 0,
    ;
    assert((pixels / cell) * cell <= pixels) by (nonlinear_arith)
        requires
            pixels >= 0,
            cell > 0,
    ;
}

/// Law: every alignment policy keeps the offset within the character
/// cell on its axis, and `Start` always produces zero.
pub proof fn lemma_offset_bounds(alignment: TerminalAlignment, pixels: int, cell: int)
    requires
        pixels >= 0,
        cell > 0,
    ensures
        0 <= spec_axis_offset(alignment, pixels % cell) < cell,
        alignment is Start ==> spec_axis_offset(alignment, pixels % cell) == 0,
        spec_axis_offset(alignment, pixels % cell) <= pixels % cell,
{
    assert(0 <= pixels % cell < cell) by (nonlinear_arith)
        requires
            pixels >= 0,
            cell > 0,
    ;
}

} // verus!
