use backdrop::rect::{trim_oob_rects, Rect};

fn rect(l: isize, t: isize, r: isize, b: isize) -> Rect {
    Rect { left: l, top: t, right: r, bottom: b }
}

#[test]
fn trim_fully_inside_is_unchanged() {
    let src = rect(2, 3, 12, 13);
    let out = trim_oob_rects(&src, 40, 40, 5, 6).unwrap();
    assert_eq!(out, (rect(2, 3, 12, 13), 5, 6));
}

#[test]
fn trim_clips_left_and_top() {
    let src = rect(0, 0, 10, 10);
    let (s, x, y) = trim_oob_rects(&src, 20, 20, -3, -4).unwrap();
    assert_eq!(s, rect(3, 4, 10, 10));
    assert_eq!((x, y), (0, 0));
}

#[test]
fn trim_clips_right_and_bottom() {
    let src = rect(0, 0, 10, 10);
    let (s, x, y) = trim_oob_rects(&src, 20, 20, 15, 14).unwrap();
    assert_eq!(s, rect(0, 0, 5, 6));
    assert_eq!((x, y), (15, 14));
}

#[test]
fn trim_rejects_fully_off_canvas() {
    let src = rect(0, 0, 10, 10);
    assert!(trim_oob_rects(&src, 20, 20, 20, 0).is_none()); // beyond the right edge
    assert!(trim_oob_rects(&src, 20, 20, 0, 20).is_none()); // beyond the bottom edge
    assert!(trim_oob_rects(&src, 20, 20, -10, 0).is_none()); // exactly past the left edge
    assert!(trim_oob_rects(&src, 20, 20, 0, -10).is_none()); // exactly past the top edge
}

#[test]
fn trim_rejects_empty_source() {
    assert!(trim_oob_rects(&rect(5, 5, 5, 10), 20, 20, 0, 0).is_none());
    assert!(trim_oob_rects(&rect(5, 5, 10, 5), 20, 20, 0, 0).is_none());
}

#[test]
fn trim_rejects_empty_destination() {
    assert!(trim_oob_rects(&rect(0, 0, 4, 4), 0, 20, -1, 0).is_none());
}

#[test]
fn trim_keeps_alignment() {
    // the trimmed source moves by exactly the amount the corner moved
    let src = rect(10, 20, 30, 40);
    let (s, x, y) = trim_oob_rects(&src, 100, 100, -7, -9).unwrap();
    assert_eq!(x - s.left, -7 - src.left);
    assert_eq!(y - s.top, -9 - src.top);
}
