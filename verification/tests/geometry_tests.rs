use xfwl4::geometry::{saturating_add, Point, Rect, Size};

#[test]
fn rect_contains_is_half_open() {
    let r = Rect::new(10, 10, 5, 5);
    assert!(r.contains(Point::new(10, 10)));
    assert!(r.contains(Point::new(14, 14)));
    assert!(!r.contains(Point::new(15, 10)));
    assert!(!r.contains(Point::new(9, 12)));
}

#[test]
fn touching_rects_do_not_overlap() {
    let a = Rect::new(0, 0, 10, 10);
    let b = Rect::new(10, 0, 10, 10);
    assert!(!a.overlaps(&b));
    assert_eq!(a.intersection(&b), None);
}

#[test]
fn intersection_of_overlapping_rects() {
    let a = Rect::new(0, 0, 10, 10);
    let b = Rect::new(5, 3, 10, 10);
    assert_eq!(a.intersection(&b), Some(Rect::new(5, 3, 5, 7)));
}

#[test]
fn size_is_empty_when_a_side_is_zero() {
    assert!(Size::new(0, 5).is_empty());
    assert!(!Size::new(1, 5).is_empty());
    assert!(Rect::zero().is_empty());
}

#[test]
fn saturating_add_saturates() {
    assert_eq!(saturating_add(i32::MAX, 1), i32::MAX);
    assert_eq!(saturating_add(i32::MIN, -1), i32::MIN);
    assert_eq!(saturating_add(3, 4), 7);
}
