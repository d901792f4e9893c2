use embedded_graphics::mono_font::ascii::FONT_6X10;
use mousefood::backend::{EmbeddedBackend, EmbeddedBackendConfig};
use mousefood::cell::TermCell;
use mousefood::color::{ColorTheme, Rgb, TermColor};
use mousefood::font::FontDescriptor;
use mousefood::framebuffer::{FrameBuffer, FramebufferDisplay};
use mousefood::layout::TerminalAlignment;

fn config_6x10() -> EmbeddedBackendConfig {
    EmbeddedBackendConfig {
        font_regular: FontDescriptor::from_font(&FONT_6X10).unwrap(),
        font_bold: None,
        font_italic: None,
        vertical_alignment: TerminalAlignment::Start,
        horizontal_alignment: TerminalAlignment::Start,
        color_theme: ColorTheme::default(),
    }
}

#[test]
fn a_fresh_buffer_holds_the_fill_color_everywhere() {
    let fb = FrameBuffer::new(10, 5, Rgb::new(7, 8, 9));
    for y in 0..5u16 {
        for x in 0..10u16 {
            assert_eq!(fb.get_pixel(x, y), Rgb::new(7, 8, 9));
        }
    }
}

#[test]
fn fill_resets_every_pixel() {
    let mut fb = FrameBuffer::new(4, 3, Rgb::new(0, 0, 0));
    fb.set_pixel(2, 1, Rgb::new(1, 2, 3));
    fb.fill(Rgb::new(9, 9, 9));
    for y in 0..3u16 {
        for x in 0..4u16 {
            assert_eq!(fb.get_pixel(x, y), Rgb::new(9, 9, 9));
        }
    }
}

#[test]
fn set_pixel_changes_exactly_one_pixel() {
    let mut fb = FrameBuffer::new(4, 3, Rgb::new(0, 0, 0));
    fb.set_pixel(1, 2, Rgb::new(5, 6, 7));
    for y in 0..3u16 {
        for x in 0..4u16 {
            let expected = if x == 1 && y == 2 { Rgb::new(5, 6, 7) } else { Rgb::new(0, 0, 0) };
            assert_eq!(fb.get_pixel(x, y), expected);
        }
    }
}

#[test]
fn pixel_data_is_row_major() {
    let mut fb = FrameBuffer::new(3, 2, Rgb::new(0, 0, 0));
    fb.set_pixel(2, 1, Rgb::new(4, 5, 6));
    let data = fb.pixel_data();
    assert_eq!(data.len(), 6);
    assert_eq!(data[1 * 3 + 2], Rgb::new(4, 5, 6));
    assert_eq!(data[0], Rgb::new(0, 0, 0));
}

#[test]
fn the_owned_buffer_is_written_only_at_flush() {
    let display = FramebufferDisplay::new(60, 40, Rgb::new(0, 0, 0));
    let mut backend = EmbeddedBackend::new(display, config_6x10()).unwrap();
    let mut c = TermCell::new("A".to_string());
    c.fg = TermColor::White;
    let mut cells = Vec::new();
    cells.push((0u16, 0u16, c));
    backend.draw(&cells).unwrap();
    // Before a flush, the composed surface has the glyph but the
    // owned buffer still holds the construction-time contents.
    let mut lit_on_surface = 0;
    for y in 0..40u16 {
        for x in 0..60u16 {
            if backend.display.get_pixel(x, y) == Rgb::new(255, 255, 255) {
                lit_on_surface += 1;
            }
            assert_eq!(backend.display.frame().get_pixel(x, y), Rgb::new(0, 0, 0));
        }
    }
    assert!(lit_on_surface > 0);
}

#[test]
fn flush_copies_the_whole_composed_frame_into_the_buffer() {
    let display = FramebufferDisplay::new(60, 40, Rgb::new(0, 0, 0));
    let mut backend = EmbeddedBackend::new(display, config_6x10()).unwrap();
    let mut c = TermCell::new("A".to_string());
    c.fg = TermColor::LightYellow;
    c.bg = TermColor::Blue;
    let mut cells = Vec::new();
    cells.push((2u16, 1u16, c));
    backend.draw(&cells).unwrap();
    backend.flush().unwrap();
    for y in 0..40u16 {
        for x in 0..60u16 {
            assert_eq!(
                backend.display.frame().get_pixel(x, y),
                backend.display.get_pixel(x, y),
                "at ({x}, {y})"
            );
        }
    }
}

#[test]
fn flushing_a_buffered_display_without_draws_is_a_no_op() {
    let display = FramebufferDisplay::new(30, 20, Rgb::new(0, 0, 0));
    let mut backend = EmbeddedBackend::new(display, config_6x10()).unwrap();
    backend.flush().unwrap();
    let mut before = Vec::new();
    for y in 0..20u16 {
        for x in 0..30u16 {
            before.push((backend.display.get_pixel(x, y), backend.display.frame().get_pixel(x, y)));
        }
    }
    backend.flush().unwrap();
    let mut i = 0;
    for y in 0..20u16 {
        for x in 0..30u16 {
            assert_eq!(backend.display.get_pixel(x, y), before[i].0);
            assert_eq!(backend.display.frame().get_pixel(x, y), before[i].1);
            i += 1;
        }
    }
}
