use mousefood::layout::{TerminalAlignment, TerminalLayout};

#[test]
fn grid_is_quotient_of_surface_by_cell() {
    let l = TerminalLayout::compute(
        128,
        64,
        6,
        8,
        TerminalAlignment::Start,
        TerminalAlignment::Start,
    );
    assert_eq!(l.columns, 21);
    assert_eq!(l.rows, 8);
    assert_eq!(l.offset_x, 0);
    assert_eq!(l.offset_y, 0);
}

#[test]
fn cell_larger_than_surface_yields_zero_not_an_error() {
    let l = TerminalLayout::compute(
        4,
        6,
        6,
        8,
        TerminalAlignment::Start,
        TerminalAlignment::Start,
    );
    assert_eq!(l.columns, 0);
    assert_eq!(l.rows, 0);
    assert_eq!(l.offset_x, 0);
    assert_eq!(l.offset_y, 0);
}

#[test]
fn center_takes_half_the_leftover_and_end_takes_all() {
    // 130 % 6 == 4 leftover columns of pixels, 65 % 8 == 1 leftover row.
    let l = TerminalLayout::compute(
        130,
        65,
        6,
        8,
        TerminalAlignment::Center,
        TerminalAlignment::End,
    );
    assert_eq!(l.columns, 21);
    assert_eq!(l.rows, 8);
    assert_eq!(l.offset_x, 2);
    assert_eq!(l.offset_y, 1);
}

#[test]
fn every_policy_keeps_the_offset_inside_the_cell() {
    let policies = [
        TerminalAlignment::Start,
        TerminalAlignment::Center,
        TerminalAlignment::End,
    ];
    for h in policies {
        for v in policies {
            let l = TerminalLayout::compute(131, 67, 6, 8, h, v);
            assert!(l.offset_x < 6);
            assert!(l.offset_y < 8);
            if matches!(h, TerminalAlignment::Start) {
                assert_eq!(l.offset_x, 0);
            }
            if matches!(v, TerminalAlignment::Start) {
                assert_eq!(l.offset_y, 0);
            }
        }
    }
}

#[test]
fn odd_leftover_centering_leaves_the_stray_pixel_on_the_right() {
    // 133 % 6 == 1: centering an odd leftover rounds down to 0.
    let l = TerminalLayout::compute(
        133,
        64,
        6,
        8,
        TerminalAlignment::Center,
        TerminalAlignment::Start,
    );
    assert_eq!(l.offset_x, 0);
}
