//! Tests of the box overlap test and its side classification.

use pong_core::geom::{test_overlap, Side, Vec2};

fn v(x: i64, y: i64) -> Vec2 {
    Vec2 { x, y }
}

#[test]
fn disjoint_boxes_return_none() {
    // Far apart on both axes.
    assert_eq!(test_overlap(v(0, 0), v(5, 5), v(100, 100), v(5, 5)), None);
    // Separated on the x axis only.
    assert_eq!(test_overlap(v(-20, 0), v(5, 5), v(0, 0), v(10, 10)), None);
    // Separated on the y axis only.
    assert_eq!(test_overlap(v(0, 40), v(5, 5), v(0, 0), v(10, 10)), None);
}

#[test]
fn touching_edges_do_not_overlap() {
    // Boxes sharing a face: the overlap is open, so no collision.
    assert_eq!(test_overlap(v(-15, 0), v(5, 5), v(0, 0), v(10, 10)), None);
    assert_eq!(test_overlap(v(0, 15), v(5, 5), v(0, 0), v(10, 10)), None);
}

#[test]
fn contained_box_is_inside() {
    // A strictly inside B.
    assert_eq!(
        test_overlap(v(1, -2), v(3, 3), v(0, 0), v(10, 10)),
        Some(Side::Inside)
    );
    // B strictly inside A.
    assert_eq!(
        test_overlap(v(0, 0), v(10, 10), v(1, -2), v(3, 3)),
        Some(Side::Inside)
    );
    // Identical boxes straddle no face either.
    assert_eq!(
        test_overlap(v(0, 0), v(10, 10), v(0, 0), v(10, 10)),
        Some(Side::Inside)
    );
}

#[test]
fn strikes_left_face() {
    assert_eq!(
        test_overlap(v(-12, 0), v(3, 3), v(0, 0), v(10, 10)),
        Some(Side::Left)
    );
}

#[test]
fn strikes_right_face() {
    assert_eq!(
        test_overlap(v(12, 0), v(3, 3), v(0, 0), v(10, 10)),
        Some(Side::Right)
    );
}

#[test]
fn strikes_top_face() {
    assert_eq!(
        test_overlap(v(0, 12), v(3, 3), v(0, 0), v(10, 10)),
        Some(Side::Top)
    );
}

#[test]
fn strikes_bottom_face() {
    assert_eq!(
        test_overlap(v(0, -12), v(3, 3), v(0, 0), v(10, 10)),
        Some(Side::Bottom)
    );
}

#[test]
fn shallower_axis_wins() {
    // Penetration 2 on x (left face), 1 on y (bottom face): y is
    // shallower, so Bottom is reported.
    assert_eq!(
        test_overlap(v(-11, -12), v(3, 3), v(0, 0), v(10, 10)),
        Some(Side::Bottom)
    );
    // The mirror case: 1 on x, 2 on y gives Left.
    assert_eq!(
        test_overlap(v(-12, -11), v(3, 3), v(0, 0), v(10, 10)),
        Some(Side::Left)
    );
}

#[test]
fn equal_depth_tie_prefers_horizontal() {
    // Penetration 1 on both axes: the horizontal side wins the tie.
    assert_eq!(
        test_overlap(v(-12, -12), v(3, 3), v(0, 0), v(10, 10)),
        Some(Side::Left)
    );
}

#[test]
fn overlap_test_is_deterministic() {
    let a = test_overlap(v(-12, 0), v(3, 3), v(0, 0), v(10, 10));
    let b = test_overlap(v(-12, 0), v(3, 3), v(0, 0), v(10, 10));
    assert_eq!(a, b);
}
