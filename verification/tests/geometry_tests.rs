use platformer::geometry::{intersect, overlap_x, Rect};

fn rect(x: i64, y: i64, w: u64, h: u64) -> Rect {
    Rect { x, y, w, h }
}

#[test]
fn overlap_x_when_ranges_cross() {
    assert!(overlap_x(rect(0, 0, 100, 10), rect(60, 500, 100, 10)));
    assert!(overlap_x(rect(60, 500, 100, 10), rect(0, 0, 100, 10)));
}

#[test]
fn overlap_x_ignores_height() {
    assert!(overlap_x(rect(0, -1_000_000, 100, 0), rect(10, 1_000_000, 100, 0)));
}

#[test]
fn overlap_x_false_when_edges_touch() {
    assert!(!overlap_x(rect(0, 0, 100, 10), rect(100, 0, 100, 10)));
    assert!(!overlap_x(rect(100, 0, 100, 10), rect(0, 0, 100, 10)));
}

#[test]
fn overlap_x_true_one_past_touching() {
    assert!(overlap_x(rect(0, 0, 100, 10), rect(99, 0, 100, 10)));
    assert!(overlap_x(rect(99, 0, 100, 10), rect(0, 0, 100, 10)));
}

#[test]
fn overlap_x_false_when_apart() {
    assert!(!overlap_x(rect(-500, 0, 100, 10), rect(500, 0, 100, 10)));
    assert!(!overlap_x(rect(500, 0, 100, 10), rect(-500, 0, 100, 10)));
}

#[test]
fn overlap_x_contained_rectangle() {
    assert!(overlap_x(rect(0, 0, 1_000, 10), rect(10, 0, 2, 10)));
    assert!(overlap_x(rect(10, 0, 2, 10), rect(0, 0, 1_000, 10)));
}

#[test]
fn overlap_x_takes_odd_widths_exactly() {
    // Three wide at 0 and at 2: they share 0.5..1.5.
    assert!(overlap_x(rect(0, 0, 3, 10), rect(2, 0, 3, 10)));
    assert!(overlap_x(rect(2, 0, 3, 10), rect(0, 0, 3, 10)));
    // Three wide at 0 and at 3: they touch at 1.5.
    assert!(!overlap_x(rect(0, 0, 3, 10), rect(3, 0, 3, 10)));
    assert!(!overlap_x(rect(3, 0, 3, 10), rect(0, 0, 3, 10)));
    // 101 wide at 0 reaches 50.5; at 100 it begins at 49.5, at 101 at 50.5.
    assert!(overlap_x(rect(0, 0, 101, 10), rect(100, 0, 101, 10)));
    assert!(!overlap_x(rect(0, 0, 101, 10), rect(101, 0, 101, 10)));
    // An odd and an even width: 3 wide at 0 reaches 1.5, 2 wide at 2
    // begins at 1, 2 wide at 3 begins at 2.
    assert!(overlap_x(rect(0, 0, 3, 10), rect(2, 0, 2, 10)));
    assert!(!overlap_x(rect(0, 0, 3, 10), rect(3, 0, 2, 10)));
}

#[test]
fn a_rectangle_with_a_width_overlaps_itself() {
    assert!(overlap_x(rect(7, 0, 1, 0), rect(7, 0, 1, 0)));
    assert!(overlap_x(rect(7, 0, 2, 0), rect(7, 0, 2, 0)));
    assert!(overlap_x(rect(i64::MIN, 0, 1, 0), rect(i64::MIN, 0, 1, 0)));
    assert!(!overlap_x(rect(7, 0, 0, 5), rect(7, 0, 0, 5)));
    assert!(intersect(&rect(7, -3, 1, 1), &rect(7, -3, 1, 1)));
    assert!(!intersect(&rect(7, -3, 1, 0), &rect(7, -3, 1, 0)));
    assert!(!intersect(&rect(7, -3, 0, 1), &rect(7, -3, 0, 1)));
}

#[test]
fn intersect_takes_odd_extents_exactly() {
    // Three by three at (0, 0) and at (2, 2): they share a square of side 1.
    assert!(intersect(&rect(0, 0, 3, 3), &rect(2, 2, 3, 3)));
    assert!(!intersect(&rect(0, 0, 3, 3), &rect(3, 2, 3, 3)));
    assert!(!intersect(&rect(0, 0, 3, 3), &rect(2, 3, 3, 3)));
    assert!(!intersect(&rect(0, 0, 3, 3), &rect(2, -3, 3, 3)));
    assert!(intersect(&rect(0, 0, 3, 3), &rect(-2, -2, 3, 3)));
}

#[test]
fn overlap_x_zero_width() {
    assert!(!overlap_x(rect(0, 0, 0, 0), rect(0, 0, 0, 0)));
    assert!(overlap_x(rect(0, 0, 0, 0), rect(0, 0, 2, 0)));
}

#[test]
fn overlap_x_at_the_ends_of_the_range() {
    assert!(!overlap_x(rect(i64::MIN, 0, u64::MAX, 1), rect(i64::MAX, 0, 2, 1)));
    assert!(overlap_x(rect(i64::MAX, 0, u64::MAX, 1), rect(i64::MAX, 0, u64::MAX, 1)));
    // The first reaches down to half a thousandth above i64::MIN; the
    // second ends one thousandth above it, the third where the first begins.
    assert!(overlap_x(rect(0, 0, u64::MAX, 1), rect(i64::MIN, 0, 2, 1)));
    assert!(!overlap_x(rect(0, 0, u64::MAX, 1), rect(i64::MIN, 0, 1, 1)));
    assert!(!overlap_x(rect(0, 0, u64::MAX, 1), rect(i64::MIN, 0, 0, 1)));
}

#[test]
fn intersect_when_both_axes_cross() {
    assert!(intersect(&rect(0, 0, 100, 100), &rect(60, 60, 100, 100)));
    assert!(intersect(&rect(60, 60, 100, 100), &rect(0, 0, 100, 100)));
}

#[test]
fn intersect_false_when_only_one_axis_crosses() {
    assert!(!intersect(&rect(0, 0, 100, 100), &rect(60, 500, 100, 100)));
    assert!(!intersect(&rect(0, 0, 100, 100), &rect(500, 60, 100, 100)));
}

#[test]
fn intersect_false_when_edges_touch() {
    assert!(!intersect(&rect(0, 0, 100, 100), &rect(100, 0, 100, 100)));
    assert!(!intersect(&rect(0, 0, 100, 100), &rect(-100, 0, 100, 100)));
    assert!(!intersect(&rect(0, 0, 100, 100), &rect(0, 100, 100, 100)));
    assert!(!intersect(&rect(0, 0, 100, 100), &rect(0, -100, 100, 100)));
    assert!(!intersect(&rect(0, 0, 100, 100), &rect(100, 100, 100, 100)));
}

#[test]
fn intersect_true_one_past_touching() {
    assert!(intersect(&rect(0, 0, 100, 100), &rect(99, 99, 100, 100)));
    assert!(intersect(&rect(0, 0, 100, 100), &rect(-99, -99, 100, 100)));
}

#[test]
fn intersect_implies_overlap_x() {
    let a: Rect = rect(10, 20, 30, 40);
    let b: Rect = rect(25, 30, 10, 10);
    assert!(intersect(&a, &b));
    assert!(overlap_x(a, b));
}

#[test]
fn doubled_edges_of_a_rectangle() {
    // Spans -60.5..40.5 by 2.5..11.5.
    let r: Rect = rect(-10, 7, 101, 9);
    assert_eq!(r.doubled_left(), -121);
    assert_eq!(r.doubled_right(), 81);
    assert_eq!(r.doubled_bottom(), 5);
    assert_eq!(r.doubled_top(), 23);
    let far: Rect = rect(i64::MIN, i64::MAX, u64::MAX, u64::MAX);
    assert_eq!(far.doubled_left(), -(1i128 << 64) - (u64::MAX as i128));
    assert_eq!(far.doubled_top(), 2 * (i64::MAX as i128) + (u64::MAX as i128));
}
