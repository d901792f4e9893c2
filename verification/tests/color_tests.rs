use mousefood::color::{resolve_color, ColorRole, ColorTheme, Rgb, TermColor};

#[test]
fn reset_resolves_per_role_and_roles_differ() {
    let theme = ColorTheme::default();
    let fg = resolve_color(TermColor::Reset, ColorRole::Foreground, &theme);
    let bg = resolve_color(TermColor::Reset, ColorRole::Background, &theme);
    assert_eq!(fg, Rgb::new(255, 255, 255));
    assert_eq!(bg, Rgb::new(0, 0, 0));
    assert_ne!(fg, bg);
}

#[test]
fn named_colors_come_from_the_palette() {
    let theme = ColorTheme::default();
    let red = resolve_color(TermColor::Red, ColorRole::Foreground, &theme);
    assert_eq!(red, Rgb::new(205, 0, 0));
    let gray = resolve_color(TermColor::Gray, ColorRole::Background, &theme);
    assert_eq!(gray, Rgb::new(229, 229, 229));
    let light_blue = resolve_color(TermColor::LightBlue, ColorRole::Foreground, &theme);
    assert_eq!(light_blue, Rgb::new(92, 92, 255));
}

#[test]
fn direct_rgb_passes_through_unchanged() {
    let theme = ColorTheme::default();
    let c = resolve_color(TermColor::Rgb(12, 34, 56), ColorRole::Background, &theme);
    assert_eq!(c, Rgb::new(12, 34, 56));
}

#[test]
fn indexed_below_sixteen_uses_the_palette() {
    let theme = ColorTheme::default();
    let c = resolve_color(TermColor::Indexed(1), ColorRole::Foreground, &theme);
    assert_eq!(c, Rgb::new(205, 0, 0));
    let w = resolve_color(TermColor::Indexed(15), ColorRole::Foreground, &theme);
    assert_eq!(w, Rgb::new(255, 255, 255));
}

#[test]
fn indexed_cube_entries_follow_the_level_formula() {
    let theme = ColorTheme::default();
    // 16 is the cube's origin: black.
    assert_eq!(
        resolve_color(TermColor::Indexed(16), ColorRole::Foreground, &theme),
        Rgb::new(0, 0, 0)
    );
    // 196 = 16 + 5*36: pure full red.
    assert_eq!(
        resolve_color(TermColor::Indexed(196), ColorRole::Foreground, &theme),
        Rgb::new(255, 0, 0)
    );
    // 231 is the cube's last entry: white.
    assert_eq!(
        resolve_color(TermColor::Indexed(231), ColorRole::Foreground, &theme),
        Rgb::new(255, 255, 255)
    );
    // 110 = 16 + 2*36 + 3*6 + 4.
    assert_eq!(
        resolve_color(TermColor::Indexed(110), ColorRole::Foreground, &theme),
        Rgb::new(135, 175, 215)
    );
}

#[test]
fn indexed_grayscale_ramp_steps_by_ten() {
    let theme = ColorTheme::default();
    assert_eq!(
        resolve_color(TermColor::Indexed(232), ColorRole::Foreground, &theme),
        Rgb::new(8, 8, 8)
    );
    assert_eq!(
        resolve_color(TermColor::Indexed(255), ColorRole::Background, &theme),
        Rgb::new(238, 238, 238)
    );
}

#[test]
fn the_mapper_is_referentially_transparent() {
    let theme = ColorTheme::default();
    let a = resolve_color(TermColor::Indexed(42), ColorRole::Foreground, &theme);
    let _ = resolve_color(TermColor::Blue, ColorRole::Background, &theme);
    let b = resolve_color(TermColor::Indexed(42), ColorRole::Foreground, &theme);
    assert_eq!(a, b);
}
