use center_window::geometry::{center_position, checked_center_position, Point, Rect};

fn rect(left: i32, top: i32, right: i32, bottom: i32) -> Rect {
    Rect { left, top, right, bottom }
}

fn moved(r: Rect, dx: i32, dy: i32) -> Rect {
    rect(r.left + dx, r.top + dy, r.right + dx, r.bottom + dy)
}

const FULL_HD: Rect = Rect { left: 0, top: 0, right: 1920, bottom: 1080 };

#[test]
fn window_without_padding_on_full_hd() {
    let frame = rect(100, 50, 900, 650);
    assert_eq!(center_position(FULL_HD, frame, frame), Point { x: 560, y: 240 });
}

#[test]
fn window_with_padding_of_seven_on_full_hd() {
    let visible = rect(10, 20, 610, 620);
    let logical = rect(17, 27, 603, 613);
    assert_eq!(center_position(FULL_HD, visible, logical), Point { x: 667, y: 247 });
}

#[test]
fn padding_is_logical_minus_visible() {
    let visible = rect(0, 0, 600, 600);
    let inset = rect(7, 7, 593, 593);
    let outset = rect(-7, -7, 607, 607);
    assert_eq!(center_position(FULL_HD, visible, inset), Point { x: 667, y: 247 });
    assert_eq!(center_position(FULL_HD, visible, outset), Point { x: 653, y: 233 });
}

#[test]
fn size_is_taken_from_the_visible_frame() {
    let visible = rect(0, 0, 800, 600);
    let logical = rect(0, 0, 10, 10);
    assert_eq!(center_position(FULL_HD, visible, logical), Point { x: 560, y: 240 });
}

#[test]
fn work_area_offset_is_added() {
    let work = rect(1920, 40, 3840, 1080);
    let frame = rect(0, 0, 800, 600);
    assert_eq!(center_position(work, frame, frame), Point { x: 2480, y: 260 });
}

#[test]
fn odd_slack_rounds_toward_zero() {
    let work = rect(0, 0, 101, 11);
    let frame = rect(0, 0, 98, 4);
    assert_eq!(center_position(work, frame, frame), Point { x: 1, y: 3 });
}

#[test]
fn oversized_window_gets_negative_corner() {
    let work = rect(0, 0, 100, 100);
    let frame = rect(0, 0, 103, 107);
    assert_eq!(center_position(work, frame, frame), Point { x: -1, y: -3 });
}

#[test]
fn oversized_window_is_not_clamped() {
    let frame = rect(0, 0, 2920, 2080);
    assert_eq!(center_position(FULL_HD, frame, frame), Point { x: -500, y: -500 });
}

#[test]
fn centering_twice_gives_the_same_corner() {
    let visible = rect(33, 44, 700, 501);
    let logical = rect(40, 44, 693, 494);
    let first = center_position(FULL_HD, visible, logical);
    let dx: i32 = first.x - logical.left;
    let dy: i32 = first.y - logical.top;
    let second = center_position(FULL_HD, moved(visible, dx, dy), moved(logical, dx, dy));
    assert_eq!(first, Point { x: 633, y: 311 });
    assert_eq!(second, first);
}

#[test]
fn moved_visible_frame_is_centered_within_a_pixel() {
    let work = rect(0, 40, 1921, 1080);
    let visible = rect(5, 5, 805, 610);
    let logical = rect(12, 5, 798, 603);
    let target = center_position(work, visible, logical);
    let after = moved(visible, target.x - logical.left, target.y - logical.top);
    let off_x: i32 = (after.left + after.right) - (work.left + work.right);
    let off_y: i32 = (after.top + after.bottom) - (work.top + work.bottom);
    assert_eq!(off_x, -1);
    assert_eq!(off_y, -1);
}

#[test]
fn even_slack_centers_exactly() {
    let visible = rect(300, 300, 1100, 900);
    let logical = rect(308, 300, 1092, 892);
    let target = center_position(FULL_HD, visible, logical);
    let after = moved(visible, target.x - logical.left, target.y - logical.top);
    assert_eq!(after, rect(560, 240, 1360, 840));
}

#[test]
fn checked_agrees_with_unchecked() {
    let visible = rect(10, 20, 610, 620);
    let logical = rect(17, 27, 603, 613);
    assert_eq!(
        checked_center_position(FULL_HD, visible, logical),
        Some(center_position(FULL_HD, visible, logical))
    );
}

#[test]
fn checked_survives_extreme_edges() {
    let work = rect(i32::MIN, i32::MIN, i32::MAX, i32::MAX);
    let frame = rect(i32::MAX, i32::MAX, i32::MIN, i32::MIN);
    assert_eq!(
        checked_center_position(work, frame, frame),
        Some(Point { x: i32::MAX, y: i32::MAX })
    );
    let small = rect(0, 0, 1, 1);
    assert_eq!(
        checked_center_position(work, small, small),
        Some(Point { x: -1, y: -1 })
    );
}

#[test]
fn checked_rejects_corner_outside_i32() {
    let work = rect(i32::MAX - 10, 0, i32::MAX, 10);
    let visible = rect(0, 0, 4, 4);
    let logical = rect(100, 0, 104, 4);
    assert_eq!(checked_center_position(work, visible, logical), None);
    let near = rect(4, 0, 8, 4);
    assert_eq!(
        checked_center_position(work, visible, near),
        Some(Point { x: i32::MAX - 3, y: 3 })
    );
}

#[test]
fn without_padding_the_logical_frame_is_centered_by_its_own_edges() {
    let work = rect(-1280, 30, 0, 1054);
    let frame = rect(-700, 900, -59, 1377);
    let naive_x: i32 = work.left + ((work.right - work.left) - (frame.right - frame.left)) / 2;
    let naive_y: i32 = work.top + ((work.bottom - work.top) - (frame.bottom - frame.top)) / 2;
    assert_eq!(center_position(work, frame, frame), Point { x: naive_x, y: naive_y });
    assert_eq!(center_position(work, frame, frame), Point { x: -961, y: 303 });
}
