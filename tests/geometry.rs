use shooter::geometry::Rectangle;

fn rect(x: i64, y: i64, w: i64, h: i64) -> Rectangle {
    Rectangle { x, y, w, h }
}

#[test]
fn rectangle_overlaps_itself() {
    let r = rect(10, 20, 30, 40);
    assert!(r.overlaps(r));
}

#[test]
fn rectangle_shifted_by_its_width_does_not_overlap() {
    let r = rect(10, 20, 30, 40);
    assert!(!r.overlaps(rect(40, 20, 30, 40)));
    assert!(!r.overlaps(rect(-20, 20, 30, 40)));
    assert!(r.overlaps(rect(39, 20, 30, 40)));
}

#[test]
fn touching_edges_do_not_overlap() {
    let a = rect(0, 0, 10, 10);
    assert!(!a.overlaps(rect(10, 0, 10, 10)));
    assert!(!a.overlaps(rect(0, 10, 10, 10)));
    assert!(a.overlaps(rect(9, 9, 10, 10)));
}

#[test]
fn zero_sized_rectangle_does_not_overlap_itself() {
    let r = rect(5, 5, 0, 10);
    assert!(!r.overlaps(r));
}

#[test]
fn contains_is_inclusive() {
    let outer = rect(0, 0, 100, 50);
    assert!(outer.contains(rect(0, 0, 100, 50)));
    assert!(outer.contains(rect(10, 10, 5, 5)));
    assert!(!outer.contains(rect(96, 10, 5, 5)));
    assert!(!outer.contains(rect(-1, 10, 5, 5)));
    assert!(!outer.contains(rect(10, 46, 5, 5)));
}

#[test]
fn move_inside_clamps_each_axis() {
    let bounds = rect(0, 100, 800, 60);
    let moved = rect(-30, 0, 43, 39).move_inside(bounds).unwrap();
    assert_eq!(moved, rect(0, 100, 43, 39));
    let moved = rect(790, 300, 43, 39).move_inside(bounds).unwrap();
    assert_eq!(moved, rect(757, 121, 43, 39));
    let moved = rect(200, 110, 43, 39).move_inside(bounds).unwrap();
    assert_eq!(moved, rect(200, 110, 43, 39));
    assert!(bounds.contains(moved));
}

#[test]
fn move_inside_is_idempotent() {
    let bounds = rect(0, 541, 800, 60);
    let once = rect(790, 581, 43, 39).move_inside(bounds).unwrap();
    let twice = once.move_inside(bounds).unwrap();
    assert_eq!(once, twice);
    assert!(bounds.contains(once));
}

#[test]
fn move_inside_fails_when_too_large() {
    let bounds = rect(0, 0, 40, 40);
    assert_eq!(rect(0, 0, 41, 10).move_inside(bounds), None);
    assert_eq!(rect(0, 0, 10, 41).move_inside(bounds), None);
    assert_eq!(rect(3, 3, 40, 40).move_inside(bounds), Some(rect(0, 0, 40, 40)));
}

#[test]
fn center_and_center_at() {
    let r = rect(100, 100, 20, 20);
    assert_eq!(r.center(), (110, 110));
    let e = Rectangle::with_size(96, 96).center_at((110, 110));
    assert_eq!(e, rect(62, 62, 96, 96));
    assert_eq!(e.center(), (110, 110));
}
