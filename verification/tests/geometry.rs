use window_rescue::geometry::{areas, display_permyriad, is_near_top_left, Rect, ScreenBounds};

fn screen() -> ScreenBounds {
    ScreenBounds { width: 1920, height: 1080 }
}

#[test]
fn full_screen_rect_is_fully_displayed() {
    let rect = Rect { left: 0, top: 0, right: 1920, bottom: 1080 };
    assert_eq!(display_permyriad(&rect, &screen()), 10000);
}

#[test]
fn rect_inside_screen_is_fully_displayed() {
    let rect = Rect { left: 100, top: 100, right: 200, bottom: 250 };
    assert_eq!(display_permyriad(&rect, &screen()), 10000);
}

#[test]
fn rect_entirely_outside_screen_displays_nothing() {
    let rect = Rect { left: -500, top: -500, right: -100, bottom: -100 };
    assert_eq!(display_permyriad(&rect, &screen()), 0);
    let (overlap, _) = areas(&rect, &screen());
    assert_eq!(overlap, 0);
}

#[test]
fn zero_width_rect_displays_nothing() {
    let rect = Rect { left: 10, top: 10, right: 10, bottom: 50 };
    assert_eq!(display_permyriad(&rect, &screen()), 0);
}

#[test]
fn malformed_rect_displays_nothing() {
    let rect = Rect { left: 100, top: 100, right: 50, bottom: 400 };
    assert_eq!(display_permyriad(&rect, &screen()), 0);
}

#[test]
fn thousand_square_rect_overlap_equals_original() {
    let rect = Rect { left: 0, top: 0, right: 1000, bottom: 1000 };
    let (overlap, original) = areas(&rect, &screen());
    assert_eq!(overlap, 1_000_000);
    assert_eq!(original, 1_000_000);
    assert_eq!(display_permyriad(&rect, &screen()), 10000);
}

#[test]
fn bottom_right_corner_rect_is_four_percent_displayed() {
    let rect = Rect { left: 1800, top: 1000, right: 2400, bottom: 1400 };
    let (overlap, original) = areas(&rect, &screen());
    assert_eq!(overlap, 9600);
    assert_eq!(original, 240_000);
    assert_eq!(display_permyriad(&rect, &screen()), 400);
}

#[test]
fn near_top_left_within_bound() {
    let rect = Rect { left: 0, top: 0, right: 500, bottom: 500 };
    assert!(is_near_top_left(&rect, 100));
}

#[test]
fn near_top_left_rejects_shifted_rect() {
    let rect = Rect { left: 150, top: 0, right: 650, bottom: 500 };
    assert!(!is_near_top_left(&rect, 100));
}

#[test]
fn near_top_left_rejects_negative_corner() {
    let rect = Rect { left: -5, top: 20, right: 300, bottom: 300 };
    assert!(!is_near_top_left(&rect, 100));
}
