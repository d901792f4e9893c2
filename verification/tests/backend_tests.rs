use embedded_graphics::mono_font::ascii::FONT_6X10;
use mousefood::backend::{EmbeddedBackend, EmbeddedBackendConfig};
use mousefood::cell::TermCell;
use mousefood::color::{ColorTheme, Rgb};
use mousefood::error::{ClearKind, DrawFault, Error, FlushError};
use mousefood::font::FontDescriptor;
use mousefood::layout::TerminalAlignment;
use mousefood::sim::SimulatorBackendDisplay;
use mousefood::surface::{BufferedDisplay, GlyphOp};

fn config_6x10() -> EmbeddedBackendConfig {
    EmbeddedBackendConfig {
        font_regular: FontDescriptor::from_font(&FONT_6X10).unwrap(),
        font_bold: None,
        font_italic: None,
        vertical_alignment: TerminalAlignment::Start,
        horizontal_alignment: TerminalAlignment::Start,
        color_theme: ColorTheme::default(),
    }
}

fn sim_backend(
    width: u16,
    height: u16,
) -> EmbeddedBackend<SimulatorBackendDisplay> {
    let display = SimulatorBackendDisplay::new(width, height, Rgb::new(0, 0, 0));
    EmbeddedBackend::new(display, config_6x10()).unwrap()
}

#[test]
fn size_reports_the_grid_computed_at_construction() {
    let backend = sim_backend(128, 64);
    let (columns, rows) = backend.size().unwrap();
    assert_eq!(columns, 21);
    assert_eq!(rows, 6);
}

#[test]
fn window_size_is_stable_across_repeated_calls() {
    let mut backend = sim_backend(120, 60);
    let first = backend.window_size().unwrap();
    assert_eq!(first.columns, 20);
    assert_eq!(first.rows, 6);
    assert_eq!(first.pixel_width, 120);
    assert_eq!(first.pixel_height, 60);
    let second = backend.window_size().unwrap();
    let third = backend.window_size().unwrap();
    assert_eq!(first, second);
    assert_eq!(first, third);
}

#[test]
fn clear_region_all_behaves_like_clear() {
    let mut backend = sim_backend(60, 40);
    let mut cells = Vec::new();
    cells.push((0u16, 0u16, TermCell::new("@".to_string())));
    backend.draw(&cells).unwrap();
    backend.clear_region(ClearKind::All).unwrap();
    backend.flush().unwrap();
    // Everything is back to the theme's background default.
    for y in 0..40u16 {
        for x in 0..60u16 {
            assert_eq!(backend.display.get_pixel(x, y), Rgb::new(0, 0, 0));
        }
    }
}

#[test]
fn unsupported_clear_kinds_fail_with_the_requested_kind() {
    let mut backend = sim_backend(60, 40);
    let kinds = [
        ClearKind::AfterCursor,
        ClearKind::BeforeCursor,
        ClearKind::CurrentLine,
        ClearKind::UntilNewLine,
    ];
    for kind in kinds {
        match backend.clear_region(kind) {
            Err(Error::ClearTypeUnsupported(k)) => assert_eq!(k, kind),
            other => panic!("expected ClearTypeUnsupported, got {:?}", other),
        }
    }
}

#[test]
fn flush_with_zero_draws_changes_nothing_on_the_surface() {
    let mut backend = sim_backend(60, 40);
    backend.flush().unwrap();
    let mut before = Vec::new();
    for y in 0..40u16 {
        for x in 0..60u16 {
            before.push(backend.display.get_pixel(x, y));
        }
    }
    // No draw since the previous flush: a legal no-op.
    backend.flush().unwrap();
    let mut i = 0;
    for y in 0..40u16 {
        for x in 0..60u16 {
            assert_eq!(backend.display.get_pixel(x, y), before[i]);
            i += 1;
        }
    }
}

#[test]
fn cursor_operations_are_accepted_no_ops() {
    let mut backend = sim_backend(60, 40);
    backend.hide_cursor().unwrap();
    backend.show_cursor().unwrap();
    backend.set_cursor_position((5, 7)).unwrap();
    assert_eq!(backend.get_cursor_position().unwrap(), (0, 0));
}

struct FlakyDisplay {
    fail_draw: bool,
    fail_fill: bool,
    fail_flush: bool,
}

impl BufferedDisplay for FlakyDisplay {
    fn pixel_size(&self) -> (u16, u16) {
        (60, 40)
    }

    fn draw_glyph(&mut self, _op: GlyphOp) -> Result<(), DrawFault> {
        if self.fail_draw {
            Err(DrawFault)
        } else {
            Ok(())
        }
    }

    fn fill(&mut self, _color: Rgb) -> Result<(), DrawFault> {
        if self.fail_fill {
            Err(DrawFault)
        } else {
            Ok(())
        }
    }

    fn flush(&mut self) -> Result<(), FlushError> {
        if self.fail_flush {
            Err(FlushError("output device became unavailable".to_string()))
        } else {
            Ok(())
        }
    }
}

#[test]
fn a_failing_initial_clear_surfaces_as_a_draw_error() {
    let display = FlakyDisplay { fail_draw: false, fail_fill: true, fail_flush: false };
    let result = EmbeddedBackend::new(display, config_6x10());
    assert!(matches!(result, Err(Error::DrawError)));
}

#[test]
fn a_failing_rasterization_surfaces_as_a_draw_error() {
    let display = FlakyDisplay { fail_draw: true, fail_fill: false, fail_flush: false };
    let mut backend = EmbeddedBackend::new(display, config_6x10()).unwrap();
    let mut cells = Vec::new();
    cells.push((0u16, 0u16, TermCell::new("x".to_string())));
    assert!(matches!(backend.draw(&cells), Err(Error::DrawError)));
}

#[test]
fn a_failing_device_flush_surfaces_as_a_flush_error() {
    let display = FlakyDisplay { fail_draw: false, fail_fill: false, fail_flush: true };
    let mut backend = EmbeddedBackend::new(display, config_6x10()).unwrap();
    match backend.flush() {
        Err(Error::Flush(FlushError(message))) => {
            assert_eq!(message, "output device became unavailable");
        }
        other => panic!("expected Flush error, got {:?}", other),
    }
}

struct CountingDisplay {
    drawn: usize,
}

impl BufferedDisplay for CountingDisplay {
    fn pixel_size(&self) -> (u16, u16) {
        (60, 40)
    }

    fn draw_glyph(&mut self, _op: GlyphOp) -> Result<(), DrawFault> {
        if self.drawn >= 1 {
            Err(DrawFault)
        } else {
            self.drawn += 1;
            Ok(())
        }
    }

    fn fill(&mut self, _color: Rgb) -> Result<(), DrawFault> {
        Ok(())
    }

    fn flush(&mut self) -> Result<(), FlushError> {
        Ok(())
    }
}

#[test]
fn a_draw_failure_keeps_the_cells_already_written() {
    // A draw failure does not roll back cells already written: the
    // second cell fails, the first stays.
    let display = CountingDisplay { drawn: 0 };
    let mut backend = EmbeddedBackend::new(display, config_6x10()).unwrap();
    let mut cells = Vec::new();
    cells.push((0u16, 0u16, TermCell::new("a".to_string())));
    cells.push((1u16, 0u16, TermCell::new("b".to_string())));
    assert!(matches!(backend.draw(&cells), Err(Error::DrawError)));
    assert_eq!(backend.display.drawn, 1);
}

#[test]
fn drawing_with_reset_colors_uses_the_theme_defaults() {
    let mut backend = sim_backend(60, 40);
    let mut cells = Vec::new();
    cells.push((0u16, 0u16, TermCell::new(" ".to_string())));
    backend.draw(&cells).unwrap();
    backend.flush().unwrap();
    // A space glyph paints the cell with the background default.
    assert_eq!(backend.display.get_pixel(0, 0), Rgb::new(0, 0, 0));
}
