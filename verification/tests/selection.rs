use mintshot::selection::{bounding_box, SelectionRect};

fn rect(x: u32, y: u32, w: u32, h: u32) -> SelectionRect {
    SelectionRect {
        x,
        y,
        width: w,
        height: h,
    }
}

#[test]
fn from_points_handles_left_to_right_drag() {
    let r = SelectionRect::from_points(10, 20, 110, 220);
    assert_eq!((r.x, r.y, r.width, r.height), (10, 20, 100, 200));
}

#[test]
fn from_points_handles_right_to_left_drag() {
    // Same rectangle as above, dragged the other way.
    let r = SelectionRect::from_points(110, 220, 10, 20);
    assert_eq!((r.x, r.y, r.width, r.height), (10, 20, 100, 200));
}

#[test]
fn from_points_clamps_negative_origin_to_zero() {
    // Drag starting off the top-left edge: origin floors at 0, but the
    // size is still measured between the two real points.
    let r = SelectionRect::from_points(-50, -60, 50, 60);
    assert_eq!((r.x, r.y, r.width, r.height), (0, 0, 100, 120));
}

#[test]
fn from_points_of_single_click_has_no_area() {
    let r = SelectionRect::from_points(100, 100, 100, 100);
    assert_eq!((r.width, r.height), (0, 0));
    assert!(!r.is_valid());
}

#[test]
fn is_valid_requires_two_pixels_per_axis() {
    assert!(!rect(0, 0, 1, 100).is_valid());
    assert!(!rect(0, 0, 100, 1).is_valid());
    assert!(rect(0, 0, 2, 2).is_valid());
}

#[test]
fn clamped_to_truncates_selection_running_off_screen() {
    let r = rect(100, 100, 500, 500).clamped_to(300, 300);
    assert_eq!((r.x, r.y, r.width, r.height), (100, 100, 200, 200));
}

#[test]
fn clamped_to_never_extends_past_the_last_pixel() {
    let r = rect(1000, 1000, 50, 50).clamped_to(300, 300);
    // Origin pins to the last pixel, leaving a 1x1 (invalid) remainder.
    assert_eq!((r.x, r.y, r.width, r.height), (299, 299, 1, 1));
    assert!(!r.is_valid());
}

#[test]
fn clamped_to_leaves_full_screen_selection_intact() {
    let r = rect(0, 0, 1920, 1080).clamped_to(1920, 1080);
    assert_eq!((r.x, r.y, r.width, r.height), (0, 0, 1920, 1080));
}

#[test]
fn clamped_to_is_idempotent() {
    let once = rect(250, 250, 400, 400).clamped_to(300, 300);
    let twice = once.clamped_to(300, 300);
    assert_eq!(
        (once.x, once.y, once.width, once.height),
        (twice.x, twice.y, twice.width, twice.height)
    );
}

#[test]
fn bounding_box_of_single_screen_is_that_screen() {
    assert_eq!(
        bounding_box(&[(0, 0, 1920, 1080)]),
        Some((0, 0, 1920, 1080))
    );
}

#[test]
fn bounding_box_of_empty_input_is_none() {
    assert_eq!(bounding_box(&[]), None);
}

#[test]
fn bounding_box_spans_side_by_side_monitors() {
    // 1920x1080 primary with a 2560x1440 monitor to its right.
    let screens = [(0, 0, 1920, 1080), (1920, 0, 2560, 1440)];
    assert_eq!(bounding_box(&screens), Some((0, 0, 4480, 1440)));
}

#[test]
fn bounding_box_handles_negative_origin() {
    // Secondary monitor placed LEFT of and ABOVE the primary one.
    let screens = [(-1920, -200, 1920, 1080), (0, 0, 1920, 1080)];
    assert_eq!(bounding_box(&screens), Some((-1920, -200, 3840, 1280)));
}

#[test]
fn bounding_box_handles_stacked_monitors() {
    let screens = [(0, 0, 1920, 1080), (0, 1080, 1920, 1080)];
    assert_eq!(bounding_box(&screens), Some((0, 0, 1920, 2160)));
}

#[test]
fn bounding_box_covers_disjoint_gap() {
    // Monitors not touching: the box still spans the empty gap between
    // them, which is what an overlay window needs.
    let screens = [(0, 0, 800, 600), (2000, 1500, 800, 600)];
    assert_eq!(bounding_box(&screens), Some((0, 0, 2800, 2100)));
}

#[test]
fn drag_direction_does_not_change_the_selection() {
    for &(x1, y1, x2, y2) in &[(5, 7, -3, 40), (-100, 0, 100, 0), (1, 1, 1, 9)] {
        let a = SelectionRect::from_points(x1, y1, x2, y2);
        let b = SelectionRect::from_points(x2, y2, x1, y1);
        assert_eq!((a.x, a.y, a.width, a.height), (b.x, b.y, b.width, b.height));
    }
}

#[test]
fn from_points_measures_extreme_drags_without_overflow() {
    let r = SelectionRect::from_points(i32::MIN, i32::MIN, i32::MAX, i32::MAX);
    assert_eq!((r.x, r.y, r.width, r.height), (0, 0, u32::MAX, u32::MAX));
}

#[test]
fn clamped_to_an_empty_screen_has_no_area() {
    let r = rect(10, 10, 50, 50).clamped_to(0, 0);
    assert_eq!((r.x, r.y, r.width, r.height), (0, 0, 0, 0));
}

#[test]
fn bounding_box_contains_every_screen_and_touches_its_edges() {
    let screens = [(-300, 40, 200, 100), (500, -20, 100, 60), (10, 10, 5, 500)];
    let (bx, by, bw, bh) = bounding_box(&screens).unwrap();
    assert_eq!((bx, by, bw, bh), (-300, -20, 900, 530));
    for &(x, y, w, h) in &screens {
        assert!(bx <= x && by <= y);
        assert!(x + w as i32 <= bx + bw as i32 && y + h as i32 <= by + bh as i32);
    }
}

#[test]
fn bounding_box_ignores_the_order_of_the_screens() {
    let a = [(0, 0, 2560, 1440), (-1920, 200, 1920, 1080), (2560, -300, 1080, 1920)];
    let b = [(2560, -300, 1080, 1920), (0, 0, 2560, 1440), (-1920, 200, 1920, 1080)];
    assert_eq!(bounding_box(&a), bounding_box(&b));
    assert_eq!(bounding_box(&a), Some((-1920, -300, 5560, 1920)));
}

#[test]
fn bounding_box_of_joined_lists_is_box_of_their_boxes() {
    let left = [(-1920, 200, 1920, 1080), (0, 0, 2560, 1440)];
    let right = [(2560, -300, 1080, 1920)];
    let joined: Vec<(i32, i32, u32, u32)> = left.iter().chain(right.iter()).copied().collect();
    let boxes = [bounding_box(&left).unwrap(), bounding_box(&right).unwrap()];
    assert_eq!(bounding_box(&joined), bounding_box(&boxes));
}
