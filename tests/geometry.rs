use azul_css::background::{DirectionCorner, DirectionCorners};
use azul_css::geometry::{LayoutPoint, LayoutRect, LayoutSize};

fn rect(x: isize, y: isize, w: isize, h: isize) -> LayoutRect {
    LayoutRect::new(LayoutPoint::new(x, y), LayoutSize::new(w, h))
}

#[test]
fn contains_is_half_open() {
    let r = rect(0, 0, 10, 10);
    assert!(r.contains(&LayoutPoint::new(9, 9)));
    assert!(!r.contains(&LayoutPoint::new(10, 10)));
    assert!(r.contains(&LayoutPoint::new(0, 0)));
    assert!(!r.contains(&LayoutPoint::new(-1, 5)));
    assert!(!r.contains(&LayoutPoint::new(5, 10)));
}

#[test]
fn hit_test_misses_edges() {
    let r = rect(0, 0, 10, 10);
    assert_eq!(r.hit_test(&LayoutPoint::new(10, 10)), None);
    assert_eq!(r.hit_test(&LayoutPoint::new(5, 5)), Some(LayoutPoint::new(5, 5)));
    assert_eq!(r.hit_test(&LayoutPoint::new(0, 5)), None);
    assert_eq!(r.hit_test(&LayoutPoint::new(5, 0)), None);
    assert_eq!(r.hit_test(&LayoutPoint::new(1, 9)), Some(LayoutPoint::new(1, 9)));
}

#[test]
fn hit_test_returns_offset_from_origin() {
    let r = rect(100, 50, 20, 20);
    assert_eq!(r.hit_test(&LayoutPoint::new(105, 61)), Some(LayoutPoint::new(5, 11)));
}

#[test]
fn union_of_two_overlapping_rects() {
    let u = LayoutRect::union(&[rect(0, 0, 10, 10), rect(5, 5, 10, 10)]).unwrap();
    assert_eq!(u.origin, LayoutPoint::new(0, 0));
    assert_eq!(u.size, LayoutSize::new(15, 15));
}

#[test]
fn union_of_nothing_is_none() {
    assert_eq!(LayoutRect::union(&[]), None);
}

#[test]
fn union_of_one_rect_is_that_rect() {
    assert_eq!(LayoutRect::union(&[rect(3, 4, 5, 6)]), Some(rect(3, 4, 5, 6)));
}

#[test]
fn union_encloses_rects_in_any_order() {
    let u = LayoutRect::union(&[rect(5, 5, 10, 10), rect(0, 0, 1, 1)]).unwrap();
    assert_eq!(u, rect(0, 0, 15, 15));
    let v = LayoutRect::union(&[rect(-5, 20, 2, 2), rect(10, -3, 4, 1), rect(0, 0, 1, 1)]).unwrap();
    assert_eq!(v, rect(-5, -3, 19, 25));
}

#[test]
fn scroll_rect_encloses_parent_and_children() {
    let parent = rect(0, 0, 100, 100);
    assert_eq!(parent.get_scroll_rect(&[]), None);
    let s = parent.get_scroll_rect(&[rect(50, 50, 100, 20), rect(-10, 10, 5, 5)]).unwrap();
    assert_eq!(s, rect(-10, 0, 160, 100));
}

#[test]
fn contains_rect_is_inclusive() {
    let a = rect(0, 0, 10, 10);
    assert!(a.contains_rect(&rect(0, 0, 10, 10)));
    assert!(a.contains_rect(&rect(2, 2, 3, 3)));
    assert!(!a.contains_rect(&rect(2, 2, 9, 3)));
    assert!(!a.contains_rect(&rect(-1, 0, 5, 5)));
}

#[test]
fn rect_edges() {
    let r = rect(3, 4, 10, 20);
    assert_eq!(r.min_x(), 3);
    assert_eq!(r.max_x(), 13);
    assert_eq!(r.min_y(), 4);
    assert_eq!(r.max_y(), 24);
    assert_eq!(LayoutRect::zero(), rect(0, 0, 0, 0));
    assert_eq!(LayoutPoint::zero(), LayoutPoint::new(0, 0));
    assert_eq!(LayoutSize::zero(), LayoutSize::new(0, 0));
}

#[test]
fn corner_opposites() {
    assert_eq!(DirectionCorner::TopLeft.opposite(), DirectionCorner::BottomRight);
    assert_eq!(DirectionCorner::Right.opposite(), DirectionCorner::Left);
    assert_eq!(DirectionCorner::Top.opposite(), DirectionCorner::Bottom);
    assert_eq!(DirectionCorner::BottomLeft.opposite(), DirectionCorner::TopRight);
}

#[test]
fn corner_combinations() {
    assert_eq!(DirectionCorner::Right.combine(&DirectionCorner::Top), Some(DirectionCorner::TopRight));
    assert_eq!(DirectionCorner::Top.combine(&DirectionCorner::Right), Some(DirectionCorner::TopRight));
    assert_eq!(DirectionCorner::Bottom.combine(&DirectionCorner::Left), Some(DirectionCorner::BottomLeft));
    assert_eq!(DirectionCorner::Left.combine(&DirectionCorner::Right), None);
    assert_eq!(DirectionCorner::Top.combine(&DirectionCorner::Bottom), None);
    assert_eq!(DirectionCorner::Top.combine(&DirectionCorner::Top), None);
    assert_eq!(DirectionCorner::TopLeft.combine(&DirectionCorner::Right), None);
}

#[test]
fn corner_points() {
    let r = rect(7, 7, 10, 5);
    assert_eq!(DirectionCorner::Right.to_point(&r), LayoutPoint::new(10, 2));
    assert_eq!(DirectionCorner::Left.to_point(&r), LayoutPoint::new(0, 2));
    assert_eq!(DirectionCorner::Top.to_point(&r), LayoutPoint::new(5, 0));
    assert_eq!(DirectionCorner::Bottom.to_point(&r), LayoutPoint::new(5, 5));
    assert_eq!(DirectionCorner::BottomRight.to_point(&r), LayoutPoint::new(10, 5));
    assert_eq!(DirectionCorner::TopLeft.to_point(&r), LayoutPoint::new(0, 0));
    let odd = rect(0, 0, -7, -3);
    assert_eq!(DirectionCorner::Bottom.to_point(&odd), LayoutPoint::new(-3, -3));
}

#[test]
fn gradient_points_from_corners() {
    let r = rect(0, 0, 10, 10);
    let d = DirectionCorners { from: DirectionCorner::TopLeft, to: DirectionCorner::BottomRight };
    assert_eq!(d.to_points(&r), (LayoutPoint::new(0, 0), LayoutPoint::new(10, 10)));
}

#[test]
fn textual_forms() {
    assert_eq!(LayoutPoint::new(-3, 42).to_string(), "(-3, 42)");
    assert_eq!(LayoutSize::new(10, 20).to_string(), "10x20");
    assert_eq!(rect(0, 0, 10, 10).to_string(), "10x10 @ (0, 0)");
    assert_eq!(rect(5, -7, 100, 0).to_string(), "100x0 @ (5, -7)");
    assert_eq!(LayoutPoint::new(isize::MIN, isize::MAX).to_string(), format!("({}, {})", isize::MIN, isize::MAX));
}
