use editor_objects::geometry::Pt2D;

fn pt(x: u64, y: u64) -> Pt2D {
    Pt2D { x, y }
}

#[test]
fn center_of_triangle_is_componentwise_average() {
    let pts = vec![pt(0, 0), pt(10, 20), pt(20, 10)];
    assert_eq!(Pt2D::center(&pts), pt(10, 10));
}

#[test]
fn center_of_single_point_is_that_point() {
    let pts = vec![pt(7, 9)];
    assert_eq!(Pt2D::center(&pts), pt(7, 9));
}

#[test]
fn center_rounds_down() {
    let pts = vec![pt(0, 0), pt(1, 1)];
    assert_eq!(Pt2D::center(&pts), pt(0, 0));
    let pts = vec![pt(1, 3), pt(2, 4)];
    assert_eq!(Pt2D::center(&pts), pt(1, 3));
}

#[test]
fn center_handles_large_coordinates() {
    let pts = vec![pt(u64::MAX, u64::MAX), pt(u64::MAX, u64::MAX)];
    assert_eq!(Pt2D::center(&pts), pt(u64::MAX, u64::MAX));
    let pts = vec![pt(u64::MAX, 0), pt(0, u64::MAX), pt(0, 0)];
    assert_eq!(Pt2D::center(&pts), pt(u64::MAX / 3, u64::MAX / 3));
}
