//! The window remediation policy: a pure decision over one window's
//! snapshot, deciding whether the window is left alone and why, or which
//! corrective action it gets.

use vstd::prelude::*;
use crate::geometry::{
    Rect,
    ScreenBounds,
    display_permyriad,
    display_permyriad_of,
    is_near_top_left,
    lemma_display_permyriad_bounds,
    lemma_overlap_at_most_original,
    near_top_left,
    original_area,
    overlap_area,
    areas,
};

verus! {

/// A window's top-left corner must lie within this many pixels of the screen
/// origin, in both axes, for the window to count as deliberately anchored
/// there and be exempt from remediation.
pub const TOP_LEFT_BOUND: i32 = 100;

/// A window whose display fraction exceeds `VISIBLE_CUTOFF_NUMERATOR /
/// VISIBLE_CUTOFF_DENOMINATOR` of its own area is left where it is.
pub const VISIBLE_CUTOFF_NUMERATOR: i128 = 1;

/// See `VISIBLE_CUTOFF_NUMERATOR`.
pub const VISIBLE_CUTOFF_DENOMINATOR: i128 = 2;

/// The Windows result code for "access denied", which warrants a hint to
/// re-run with elevated privileges.
pub const ACCESS_DENIED_CODE: u32 = 0x8007_0005;

/// An opaque identifier for a top-level window, valid for one desktop
/// session. Only equality is meaningful; the number carries no order.
#[derive(Clone, Copy, Debug, PartialEq, Eq, Structural)]
pub struct WindowId {
    pub raw: u64,
}

/// Everything the policy reads of one window, gathered once per scan.
#[derive(Clone, Debug)]
pub struct WindowSnapshot {
    pub id: WindowId,
    pub title: String,
    pub is_visible: bool,
    pub is_minimized: bool,
    pub is_maximized: bool,
    pub rect: Rect,
}

/// Why a window is left untouched.
#[derive(Clone, Copy, Debug, PartialEq, Eq, Structural)]
pub enum SkipReason {
    /// Hidden windows are not user-facing and must not be touched.
    NotVisible,
    /// A minimized window's rectangle is not meaningful input.
    Minimized,
    /// An empty title marks helper windows that are not real application
    /// windows.
    EmptyTitle,
    /// Already docked near the origin, deliberately or by an earlier run.
    AnchoredNearOrigin,
    /// The majority of the window is on screen; nothing to fix.
    SufficientlyVisible,
}

/// Which corrective move an eligible window gets. The two variants differ
/// only in whether the window's size is restated explicitly.
#[derive(Clone, Copy, Debug, PartialEq, Eq, Structural)]
pub enum RemediationStrategy {
    /// Move the window to the screen origin and leave its size alone.
    MoveToOrigin,
    /// Move the window to the screen origin and re-apply its current width
    /// and height.
    MoveAndResizeToOrigin,
}

/// The concrete placement to request from the window system.
#[derive(Clone, Copy, Debug, PartialEq, Eq, Structural)]
pub enum RepositionCommand {
    /// Place the top-left corner at `(x, y)`; keep the current size.
    Move { x: i32, y: i32 },
    /// Place the top-left corner at `(x, y)` with the given size.
    MoveResize { x: i32, y: i32, width: i32, height: i32 },
}

/// The full action for one remediation-eligible window.
#[derive(Clone, Copy, Debug, PartialEq, Eq, Structural)]
pub struct RemediationPlan {
    /// A maximized window must be restored before it can be moved.
    pub restore_first: bool,
    /// The placement to request.
    pub command: RepositionCommand,
    /// The window's display fraction in permyriad, for the log line.
    pub display_permyriad: u32,
}

/// The policy's verdict on one window.
#[derive(Clone, Copy, Debug, PartialEq, Eq, Structural)]
pub enum Decision {
    /// Leave the window alone, for the given reason.
    Skip(SkipReason),
    /// Restore if needed, then reposition, then log.
    Remediate(RemediationPlan),
}

/// True when more than `VISIBLE_CUTOFF_NUMERATOR / VISIBLE_CUTOFF_DENOMINATOR`
/// of the window's own area lies on the screen. A window with no overlap or
/// a degenerate rectangle is never sufficiently visible.
pub open spec fn sufficiently_visible(r: Rect, s: ScreenBounds) -> bool {
    overlap_area(r, s) > 0 && overlap_area(r, s) * VISIBLE_CUTOFF_DENOMINATOR
        > original_area(r) * VISIBLE_CUTOFF_NUMERATOR
}

/// Exact check of `sufficiently_visible`, in integer arithmetic.
pub fn is_sufficiently_visible(rect: &Rect, screen: &ScreenBounds) -> (b: bool)
    ensures
        b == sufficiently_visible(*rect, *screen),
{
    proof {
        lemma_overlap_at_most_original(*rect, *screen);
    }
    let (overlap, original) = areas(rect, screen);
    overlap > 0 && overlap * VISIBLE_CUTOFF_DENOMINATOR > original * VISIBLE_CUTOFF_NUMERATOR
}

/// A window dimension clamped to what a placement request can carry:
/// negative sizes of malformed rectangles collapse to zero.
pub open spec fn clamped_dimension(d: int) -> int {
    if d <= 0 {
        0
    } else if d > i32::MAX {
        i32::MAX as int
    } else {
        d
    }
}

/// The placement a given strategy requests for a window whose rectangle is
/// `r`: the origin, either keeping the current size or restating it.
pub open spec fn spec_reposition_command(strategy: RemediationStrategy, r: Rect)
    -> RepositionCommand {
    match strategy {
        RemediationStrategy::MoveToOrigin => RepositionCommand::Move { x: 0, y: 0 },
        RemediationStrategy::MoveAndResizeToOrigin => RepositionCommand::MoveResize {
            x: 0,
            y: 0,
            width: clamped_dimension(r.right - r.left) as i32,
            height: clamped_dimension(r.bottom - r.top) as i32,
        },
    }
}

/// Build the placement request of `spec_reposition_command`.
pub fn reposition_command(strategy: RemediationStrategy, rect: &Rect) -> (c: RepositionCommand)
    ensures
        c == spec_reposition_command(strategy, *rect),
{
    match strategy {
        RemediationStrategy::MoveToOrigin => RepositionCommand::Move { x: 0, y: 0 },
        RemediationStrategy::MoveAndResizeToOrigin => {
            let w: i64 = rect.right as i64 - rect.left as i64;
            let h: i64 = rect.bottom as i64 - rect.top as i64;
            let width: i32 = if w <= 0 {
                0
            } else if w > i32::MAX as i64 {
                i32::MAX
            } else {
                w as i32
            };
            let height: i32 = if h <= 0 {
                0
            } else if h > i32::MAX as i64 {
                i32::MAX
            } else {
                h as i32
            };
            RepositionCommand::MoveResize { x: 0, y: 0, width, height }
        },
    }
}

/// The policy itself: the linear chain of gates a window passes through, in
/// order, with the first matching gate deciding. A window that passes every
/// gate is remediation-eligible and gets a restore-if-maximized flag, a
/// placement request, and its display fraction for the log.
pub open spec fn spec_classify(
    snap: WindowSnapshot,
    screen: ScreenBounds,
    strategy: RemediationStrategy,
) -> Decision {
    if !snap.is_visible {
        Decision::Skip(SkipReason::NotVisible)
    } else if snap.is_minimized {
        Decision::Skip(SkipReason::Minimized)
    } else if snap.title@.len() == 0 {
        Decision::Skip(SkipReason::EmptyTitle)
    } else if near_top_left(snap.rect, TOP_LEFT_BOUND) {
        Decision::Skip(SkipReason::AnchoredNearOrigin)
    } else if sufficiently_visible(snap.rect, screen) {
        Decision::Skip(SkipReason::SufficientlyVisible)
    } else {
        Decision::Remediate(RemediationPlan {
            restore_first: snap.is_maximized,
            command: spec_reposition_command(strategy, snap.rect),
            display_permyriad: display_permyriad_of(snap.rect, screen) as u32,
        })
    }
}

/// Decide one window. The decision is exactly `spec_classify` of the
/// snapshot: no gate is re-ordered and no window is visited twice.
pub fn classify(
    snap: &WindowSnapshot,
    screen: &ScreenBounds,
    strategy: RemediationStrategy,
) -> (d: Decision)
    ensures
        d == spec_classify(*snap, *screen, strategy),
{
    if !snap.is_visible {
        return Decision::Skip(SkipReason::NotVisible);
    }
    if snap.is_minimized {
        return Decision::Skip(SkipReason::Minimized);
    }
    if snap.title.as_str().is_empty() {
        return Decision::Skip(SkipReason::EmptyTitle);
    }
    if is_near_top_left(&snap.rect, TOP_LEFT_BOUND) {
        return Decision::Skip(SkipReason::AnchoredNearOrigin);
    }
    if is_sufficiently_visible(&snap.rect, screen) {
        return Decision::Skip(SkipReason::SufficientlyVisible);
    }
    proof {
        lemma_display_permyriad_bounds(snap.rect, *screen);
    }
    let permyriad = display_permyriad(&snap.rect, screen);
    Decision::Remediate(RemediationPlan {
        restore_first: snap.is_maximized,
        command: reposition_command(strategy, &snap.rect),
        display_permyriad: permyriad,
    })
}

/// Decide every window of one scan, in enumeration order. Each decision is a
/// function of that window's own snapshot alone, so a failure while carrying
/// out one window's action can never change what is decided for the windows
/// after it.
pub fn plan_scan(
    snaps: &Vec<WindowSnapshot>,
    screen: &ScreenBounds,
    strategy: RemediationStrategy,
) -> (ds: Vec<Decision>)
    ensures
        ds@.len() == snaps@.len(),
        forall|i: int|
            0 <= i < snaps@.len() ==> ds@[i] == spec_classify(snaps@[i], *screen, strategy),
{
    let mut ds: Vec<Decision> = Vec::new();
    let mut idx: usize = 0;
    while idx < snaps.len()
        invariant
            idx <= snaps@.len(),
            ds@.len() == idx,
            forall|i: int|
                0 <= i < idx ==> ds@[i] == spec_classify(snaps@[i], *screen, strategy),
        decreases snaps@.len() - idx,
    {
        let d = classify(&snaps[idx], screen, strategy);
        ds.push(d);
        idx = idx + 1;
    }
    ds
}

/// Split a permyriad value into whole percent and hundredths of a percent,
/// for the two-decimal percent of the log line: 400 becomes (4, 0), printed
/// as "4.00%".
pub fn percent_parts(permyriad: u32) -> (parts: (u32, u32))
    ensures
        parts.0 == permyriad / 100,
        parts.1 == permyriad % 100,
        parts.1 < 100,
{
    (permyriad / 100, permyriad % 100)
}

/// True exactly for the "access denied" result code `ACCESS_DENIED_CODE`.
/// The caller then hints that the run may need elevated privileges.
pub fn is_access_denied(code: u32) -> (b: bool)
    ensures
        b == (code == ACCESS_DENIED_CODE),
{
    code == ACCESS_DENIED_CODE
}

} // verus!
