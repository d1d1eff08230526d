//! Rectangles in screen coordinates and the centering calculation.
//!
//! A window is described by two rectangles. The *visible* frame is what the
//! user sees on screen. The *logical* frame is what the window manager moves
//! and hit-tests. The offset between their top-left corners is the padding.
//! A move is requested in logical coordinates, so the padding is added back
//! after the visible frame has been centered in the monitor's work area.

use vstd::prelude::*;

verus! {

/// A rectangle over the unbounded integers: the mathematical value of a
/// [`Rect`], and of a rectangle that was moved without regard to machine
/// limits.
pub struct Frame {
    pub left: int,
    pub top: int,
    pub right: int,
    pub bottom: int,
}

impl Frame {
    pub open spec fn width(self) -> int {
        self.right - self.left
    }

    pub open spec fn height(self) -> int {
        self.bottom - self.top
    }

    /// The same rectangle moved by `(dx, dy)`; its size is unchanged.
    pub open spec fn shifted(self, dx: int, dy: int) -> Frame {
        Frame {
            left: self.left + dx,
            top: self.top + dy,
            right: self.right + dx,
            bottom: self.bottom + dy,
        }
    }

    /// Twice the horizontal coordinate of the centre, which is an integer
    /// even where the centre itself falls between two pixels.
    pub open spec fn doubled_center_x(self) -> int {
        self.left + self.right
    }

    /// Twice the vertical coordinate of the centre.
    pub open spec fn doubled_center_y(self) -> int {
        self.top + self.bottom
    }

    /// The horizontal coordinate of the centre in whole pixels: the left
    /// edge plus half the width, rounded toward zero.
    pub open spec fn center_x(self) -> int {
        self.left + half_toward_zero(self.width())
    }

    /// The vertical coordinate of the centre in whole pixels.
    pub open spec fn center_y(self) -> int {
        self.top + half_toward_zero(self.height())
    }
}

/// Four integer edges in screen coordinates.
#[derive(Clone, Copy, Debug, PartialEq, Eq, Structural)]
pub struct Rect {
    pub left: i32,
    pub top: i32,
    pub right: i32,
    pub bottom: i32,
}

impl View for Rect {
    type V = Frame;

    open spec fn view(&self) -> Frame {
        Frame {
            left: self.left as int,
            top: self.top as int,
            right: self.right as int,
            bottom: self.bottom as int,
        }
    }
}

/// A top-left corner in the coordinate space of the logical frame.
#[derive(Clone, Copy, Debug, PartialEq, Eq, Structural)]
pub struct Point {
    pub x: i32,
    pub y: i32,
}

/// Half of `d`, rounded toward zero.
pub open spec fn half_toward_zero(d: int) -> int {
    if d >= 0 {
        d / 2
    } else {
        -((-d) / 2)
    }
}

/// The centering rule along one axis. `work_low..work_high` is the extent of
/// the work area, `visible_low..visible_high` that of the visible frame, and
/// `logical_low` the near edge of the logical frame. The visible extent is
/// centered in the work area; the padding `logical_low - visible_low` is then
/// added, which turns the result into a coordinate of the logical frame.
pub open spec fn centered_along(
    work_low: int,
    work_high: int,
    visible_low: int,
    visible_high: int,
    logical_low: int,
) -> int {
    work_low + half_toward_zero((work_high - work_low) - (visible_high - visible_low)) + (
    logical_low - visible_low)
}

/// The horizontal coordinate to which the logical frame is moved.
pub open spec fn centered_x(work: Frame, visible: Frame, logical: Frame) -> int {
    centered_along(work.left, work.right, visible.left, visible.right, logical.left)
}

/// The vertical coordinate to which the logical frame is moved.
pub open spec fn centered_y(work: Frame, visible: Frame, logical: Frame) -> int {
    centered_along(work.top, work.bottom, visible.top, visible.bottom, logical.top)
}

/// Where a rectangle lands when it is centered in the work area by its own
/// edges, with no padding taken into account.
pub open spec fn naive_center(work: Frame, rect: Frame) -> (int, int) {
    (
        work.left + half_toward_zero(work.width() - rect.width()),
        work.top + half_toward_zero(work.height() - rect.height()),
    )
}

/// Whether the target corner can be written as a pair of `i32`, which is
/// what a move takes.
pub open spec fn target_representable(work: Frame, visible: Frame, logical: Frame) -> bool {
    &&& i32::MIN <= centered_x(work, visible, logical) <= i32::MAX
    &&& i32::MIN <= centered_y(work, visible, logical) <= i32::MAX
}

/// The centering rule along one axis, computed in 64 bits so that no
/// intermediate value can overflow.
fn center_along(
    work_low: i32,
    work_high: i32,
    visible_low: i32,
    visible_high: i32,
    logical_low: i32,
) -> (c: i64)
    ensures
        c == centered_along(
            work_low as int,
            work_high as int,
            visible_low as int,
            visible_high as int,
            logical_low as int,
        ),
{
    let work_extent: i64 = work_high as i64 - work_low as i64;
    let visible_extent: i64 = visible_high as i64 - visible_low as i64;
    let padding: i64 = logical_low as i64 - visible_low as i64;
    let slack: i64 = work_extent - visible_extent;
    work_low as i64 + slack / 2 + padding
}

/// Computes the corner to which the logical frame must move so that the
/// visible frame is centered in the work area, or `None` where that corner
/// lies outside the `i32` range. Nothing is clamped: a window larger than
/// the work area gets a corner to the left of or above it.
pub fn checked_center_position(work: Rect, visible: Rect, logical: Rect) -> (target: Option<Point>)
    ensures
        target is Some <==> target_representable(work@, visible@, logical@),
        target matches Some(p) ==> p.x == centered_x(work@, visible@, logical@) && p.y
            == centered_y(work@, visible@, logical@),
{
    let x: i64 = center_along(work.left, work.right, visible.left, visible.right, logical.left);
    let y: i64 = center_along(work.top, work.bottom, visible.top, visible.bottom, logical.top);
    if x < i32::MIN as i64 || x > i32::MAX as i64 || y < i32::MIN as i64 || y > i32::MAX as i64 {
        None
    } else {
        Some(Point { x: x as i32, y: y as i32 })
    }
}

/// Computes the corner to which the logical frame must move so that the
/// visible frame is centered in the work area.
pub fn center_position(work: Rect, visible: Rect, logical: Rect) -> (target: Point)
    requires
        target_representable(work@, visible@, logical@),
    ensures
        target.x == centered_x(work@, visible@, logical@),
        target.y == centered_y(work@, visible@, logical@),
{
    let x: i64 = center_along(work.left, work.right, visible.left, visible.right, logical.left);
    let y: i64 = center_along(work.top, work.bottom, visible.top, visible.bottom, logical.top);
    Point { x: x as i32, y: y as i32 }
}

/// Moving the logical frame to the computed corner puts the visible frame in
/// the middle of the work area. The move shifts both frames by the same
/// amount. Afterwards the centres of the visible frame and of the work area,
/// counted in whole pixels, are at most one pixel apart along each axis.
/// More exactly, their doubled centres differ by at most one, and coincide
/// where the slack between the two extents is even.
pub proof fn lemma_moved_frame_is_centered(work: Frame, visible: Frame, logical: Frame)
    ensures
        ({
            let dx = centered_x(work, visible, logical) - logical.left;
            let dy = centered_y(work, visible, logical) - logical.top;
            let moved = visible.shifted(dx, dy);
            &&& -1 <= moved.center_x() - work.center_x() <= 1
            &&& -1 <= moved.center_y() - work.center_y() <= 1
            &&& -1 <= moved.doubled_center_x() - work.doubled_center_x() <= 1
            &&& -1 <= moved.doubled_center_y() - work.doubled_center_y() <= 1
            &&& (work.width() - visible.width()) % 2 == 0 ==> moved.doubled_center_x()
                == work.doubled_center_x()
            &&& (work.height() - visible.height()) % 2 == 0 ==> moved.doubled_center_y()
                == work.doubled_center_y()
        }),
{
}

/// The target depends on where the window currently is only through its
/// padding: shifting both frames by the same amount leaves it unchanged.
pub proof fn lemma_target_ignores_position(
    work: Frame,
    visible: Frame,
    logical: Frame,
    dx: int,
    dy: int,
)
    ensures
        centered_x(work, visible.shifted(dx, dy), logical.shifted(dx, dy)) == centered_x(
            work,
            visible,
            logical,
        ),
        centered_y(work, visible.shifted(dx, dy), logical.shifted(dx, dy)) == centered_y(
            work,
            visible,
            logical,
        ),
{
}

/// Centering is idempotent. Once the logical frame sits at the computed
/// corner, computing again from the moved frames gives that same corner.
pub proof fn lemma_centering_is_idempotent(work: Frame, visible: Frame, logical: Frame)
    ensures
        ({
            let x = centered_x(work, visible, logical);
            let y = centered_y(work, visible, logical);
            let moved_visible = visible.shifted(x - logical.left, y - logical.top);
            let moved_logical = logical.shifted(x - logical.left, y - logical.top);
            &&& moved_logical.left == x
            &&& moved_logical.top == y
            &&& centered_x(work, moved_visible, moved_logical) == x
            &&& centered_y(work, moved_visible, moved_logical) == y
        }),
{
    let dx = centered_x(work, visible, logical) - logical.left;
    let dy = centered_y(work, visible, logical) - logical.top;
    lemma_target_ignores_position(work, visible, logical, dx, dy);
}

/// With no padding, that is with the logical frame equal to the visible
/// frame, the target is where the logical frame lands when it is centered by
/// its own edges.
pub proof fn lemma_no_padding_is_naive_center(work: Frame, frame: Frame)
    ensures
        (centered_x(work, frame, frame), centered_y(work, frame, frame)) == naive_center(
            work,
            frame,
        ),
{
}

} // verus!
