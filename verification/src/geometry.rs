//! Window and screen rectangles, and the display-percent computation: the
//! fraction of a window's own area that overlaps the visible screen.

use vstd::prelude::*;
use vstd::arithmetic::div_mod::{
    lemma_div_is_ordered,
    lemma_div_multiples_vanish,
    lemma_div_pos_is_pos,
};

verus! {

/// A window rectangle in screen pixel coordinates.
///
/// A rectangle read back from the operating system normally satisfies
/// `right >= left` and `bottom >= top`, but malformed values must be handled
/// gracefully: a rectangle with non-positive area counts as not displayed,
/// never as an error.
#[derive(Clone, Copy, Debug, PartialEq, Eq, Structural)]
pub struct Rect {
    pub left: i32,
    pub top: i32,
    pub right: i32,
    pub bottom: i32,
}

/// The visible screen area: the rectangle spanning from the origin to
/// `(width, height)`. Non-positive sizes are tolerated and simply leave no
/// window visible.
#[derive(Clone, Copy, Debug, PartialEq, Eq, Structural)]
pub struct ScreenBounds {
    pub width: i32,
    pub height: i32,
}

/// The display fraction is reported in permyriad, that is hundredths of a
/// percent: 10000 stands for a fully displayed window.
pub const PERMYRIAD_SCALE: u32 = 10000;

/// Area of the rectangle itself; zero or negative when the rectangle is
/// degenerate or malformed.
pub open spec fn original_area(r: Rect) -> int {
    (r.right - r.left) * (r.bottom - r.top)
}

/// Width of the part of `r` that lies on the screen; non-positive when the
/// rectangle is entirely left or right of it.
pub open spec fn clipped_width(r: Rect, s: ScreenBounds) -> int {
    (if r.right <= s.width {
        r.right as int
    } else {
        s.width as int
    }) - (if r.left >= 0 {
        r.left as int
    } else {
        0
    })
}

/// Height of the part of `r` that lies on the screen; non-positive when the
/// rectangle is entirely above or below it.
pub open spec fn clipped_height(r: Rect, s: ScreenBounds) -> int {
    (if r.bottom <= s.height {
        r.bottom as int
    } else {
        s.height as int
    }) - (if r.top >= 0 {
        r.top as int
    } else {
        0
    })
}

/// Area of the part of `r` that lies on the screen; zero when the clipped
/// region is empty.
pub open spec fn overlap_area(r: Rect, s: ScreenBounds) -> int {
    if clipped_width(r, s) > 0 && clipped_height(r, s) > 0 {
        clipped_width(r, s) * clipped_height(r, s)
    } else {
        0
    }
}

/// The display fraction in permyriad, rounded down: the overlap area divided
/// by the rectangle's own area, with an empty overlap or a degenerate
/// rectangle counting as not displayed at all.
pub open spec fn display_permyriad_of(r: Rect, s: ScreenBounds) -> int {
    if overlap_area(r, s) <= 0 || original_area(r) <= 0 {
        0
    } else {
        overlap_area(r, s) * PERMYRIAD_SCALE / original_area(r)
    }
}

/// The overlap never exceeds the rectangle's own area: clipping can only
/// shrink each side.
pub proof fn lemma_overlap_at_most_original(r: Rect, s: ScreenBounds)
    ensures
        0 <= overlap_area(r, s),
        overlap_area(r, s) > 0 ==> overlap_area(r, s) <= original_area(r),
        overlap_area(r, s) <= 0x4000_0000_0000_0000,
{
    let cw = clipped_width(r, s);
    let ch = clipped_height(r, s);
    let ow = r.right - r.left;
    let oh = r.bottom - r.top;
    if cw > 0 && ch > 0 {
        assert(cw <= ow && ch <= oh);
        assert(cw * ch <= ow * oh) by (nonlinear_arith)
            requires
                0 < cw <= ow,
                0 < ch <= oh,
        ;
        assert(cw * ch <= 0x4000_0000_0000_0000) by (nonlinear_arith)
            requires
                0 < cw <= 0x8000_0000,
                0 < ch <= 0x8000_0000,
        ;
        assert(cw * ch > 0) by (nonlinear_arith)
            requires
                0 < cw,
                0 < ch,
        ;
    }
}

/// The display fraction always lands in the unit interval: between zero and
/// one whole window, whatever the rectangle and screen values are.
pub proof fn lemma_display_permyriad_bounds(r: Rect, s: ScreenBounds)
    ensures
        0 <= display_permyriad_of(r, s) <= PERMYRIAD_SCALE,
{
    let ov = overlap_area(r, s);
    let orig = original_area(r);
    lemma_overlap_at_most_original(r, s);
    if ov > 0 && orig > 0 {
        assert(ov * PERMYRIAD_SCALE >= 0) by (nonlinear_arith)
            requires
                ov > 0,
        ;
        lemma_div_pos_is_pos(ov * PERMYRIAD_SCALE, orig);
        lemma_div_is_ordered(ov * PERMYRIAD_SCALE, orig * PERMYRIAD_SCALE, orig);
        lemma_div_multiples_vanish(PERMYRIAD_SCALE as int, orig);
        assert(orig * PERMYRIAD_SCALE == orig * (PERMYRIAD_SCALE as int));
    }
}

/// A well-formed rectangle that lies fully inside the screen overlaps the
/// screen in exactly its own area, so it is either fully displayed or
/// degenerate with no area at all.
pub proof fn lemma_fully_inside_fully_displayed(r: Rect, s: ScreenBounds)
    requires
        0 <= r.left <= r.right <= s.width,
        0 <= r.top <= r.bottom <= s.height,
    ensures
        original_area(r) > 0 ==> overlap_area(r, s) == original_area(r),
        original_area(r) > 0 ==> display_permyriad_of(r, s) == PERMYRIAD_SCALE,
        original_area(r) <= 0 ==> display_permyriad_of(r, s) == 0,
{
    let ow = r.right - r.left;
    let oh = r.bottom - r.top;
    assert(clipped_width(r, s) == ow);
    assert(clipped_height(r, s) == oh);
    if original_area(r) > 0 {
        assert(ow > 0 && oh > 0) by (nonlinear_arith)
            requires
                ow >= 0,
                oh >= 0,
                ow * oh > 0,
        ;
        lemma_div_multiples_vanish(PERMYRIAD_SCALE as int, original_area(r));
        assert(original_area(r) * PERMYRIAD_SCALE == original_area(r) * (
        PERMYRIAD_SCALE as int));
    }
}

/// A rectangle that lies entirely off the screen (beyond any one of its four
/// edges) has no displayed part.
pub proof fn lemma_outside_screen_not_displayed(r: Rect, s: ScreenBounds)
    requires
        r.right <= 0 || r.bottom <= 0 || r.left >= s.width || r.top >= s.height,
    ensures
        overlap_area(r, s) == 0,
        display_permyriad_of(r, s) == 0,
{
}

/// A degenerate or malformed rectangle counts as not displayed, whatever the
/// screen size: the fraction is defined as zero rather than dividing by a
/// non-positive area.
pub proof fn lemma_degenerate_rect_not_displayed(r: Rect, s: ScreenBounds)
    requires
        original_area(r) <= 0,
    ensures
        display_permyriad_of(r, s) == 0,
{
}

/// The overlap area and the rectangle's own area, in that order, computed
/// exactly in wide integers.
pub fn areas(rect: &Rect, screen: &ScreenBounds) -> (a: (i128, i128))
    ensures
        a.0 == overlap_area(*rect, *screen),
        a.1 == original_area(*rect),
{
    proof {
        lemma_overlap_at_most_original(*rect, *screen);
    }
    let x_min: i128 = if rect.left >= 0 {
        rect.left as i128
    } else {
        0
    };
    let y_min: i128 = if rect.top >= 0 {
        rect.top as i128
    } else {
        0
    };
    let x_max: i128 = if rect.right <= screen.width {
        rect.right as i128
    } else {
        screen.width as i128
    };
    let y_max: i128 = if rect.bottom <= screen.height {
        rect.bottom as i128
    } else {
        screen.height as i128
    };
    let original_w: i128 = rect.right as i128 - rect.left as i128;
    let original_h: i128 = rect.bottom as i128 - rect.top as i128;
    proof {
        assert(original_w * original_h == original_area(*rect));
        assert(-0x1_0000_0000_0000_0000 <= original_w * original_h
            <= 0x1_0000_0000_0000_0000) by (nonlinear_arith)
            requires
                -0x1_0000_0000 <= original_w <= 0x1_0000_0000,
                -0x1_0000_0000 <= original_h <= 0x1_0000_0000,
        ;
    }
    let original: i128 = original_w * original_h;
    if x_min >= x_max || y_min >= y_max {
        (0, original)
    } else {
        ((x_max - x_min) * (y_max - y_min), original)
    }
}

/// The display fraction of `rect` on `screen` in permyriad, rounded down:
/// `PERMYRIAD_SCALE` means fully displayed, zero means not displayed at all.
pub fn display_permyriad(rect: &Rect, screen: &ScreenBounds) -> (p: u32)
    ensures
        p == display_permyriad_of(*rect, *screen),
        p <= PERMYRIAD_SCALE,
{
    proof {
        lemma_overlap_at_most_original(*rect, *screen);
        lemma_display_permyriad_bounds(*rect, *screen);
    }
    let (overlap, original) = areas(rect, screen);
    if overlap <= 0 || original <= 0 {
        return 0;
    }
    let numerator: u128 = (overlap as u128) * (PERMYRIAD_SCALE as u128);
    let quotient: u128 = numerator / (original as u128);
    proof {
        assert(numerator == overlap_area(*rect, *screen) * PERMYRIAD_SCALE);
        assert(quotient == display_permyriad_of(*rect, *screen));
    }
    quotient as u32
}

/// True when the rectangle's top-left corner lies within `bound` pixels of
/// the screen origin in both axes.
pub open spec fn near_top_left(r: Rect, bound: i32) -> bool {
    0 <= r.left <= bound && 0 <= r.top <= bound
}

/// True when the window is anchored near the screen origin: both `left` and
/// `top` lie in `[0, bound]`. Such windows are deliberately docked there and
/// are exempt from remediation.
pub fn is_near_top_left(rect: &Rect, bound: i32) -> (b: bool)
    ensures
        b == near_top_left(*rect, bound),
{
    rect.left >= 0 && rect.left <= bound && rect.top >= 0 && rect.top <= bound
}

} // verus!
