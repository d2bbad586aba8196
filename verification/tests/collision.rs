use jungle::rect::{collide_aabb, Rect};

fn rect(x: i64, y: i64, half_w: i64, half_h: i64) -> Rect {
    Rect { x, y, half_w, half_h }
}

#[test]
fn disjoint_rectangles_return_none() {
    // Two 10 by 10 rectangles whose centers are 100 units apart.
    let a = rect(0, 0, 5, 5);
    let b = rect(100, 0, 5, 5);
    assert_eq!(collide_aabb(&a, &b), None);
}

#[test]
fn touching_edges_return_none_horizontally() {
    // Right edge of `a` exactly meets the left edge of `b`: gap = 0.
    let a = rect(0, 0, 5, 5);
    let b = rect(10, 0, 5, 5);
    assert_eq!(collide_aabb(&a, &b), None);
    assert_eq!(collide_aabb(&b, &a), None);
}

#[test]
fn touching_edges_return_none_vertically() {
    // Top edge of `a` exactly meets the bottom edge of `b`.
    let a = rect(0, 0, 5, 5);
    let b = rect(0, 10, 5, 5);
    assert_eq!(collide_aabb(&a, &b), None);
    assert_eq!(collide_aabb(&b, &a), None);
}

#[test]
fn overlap_returns_exact_penetration() {
    // a sits 3 left of and 5 below b; spans overlap by 17 and 15.
    let a = rect(0, 0, 10, 15);
    let b = rect(3, 5, 10, 5);
    assert_eq!(collide_aabb(&a, &b), Some((17, 15)));
}

#[test]
fn overlap_penetration_sign_picks_side() {
    // a on the right of b: positive horizontal penetration.
    let a = rect(3, 0, 10, 15);
    let b = rect(0, 0, 10, 5);
    let (h, v) = collide_aabb(&a, &b).unwrap();
    assert_eq!(h, -17);
    assert_eq!(v, -20);
    let (h_back, v_back) = collide_aabb(&b, &a).unwrap();
    assert_eq!(h_back, 17);
    assert_eq!(v_back, -20);
}

#[test]
fn overlap_detection_is_symmetric() {
    let cases = [
        (rect(0, 0, 5, 5), rect(100, 0, 5, 5)),
        (rect(0, 0, 5, 5), rect(9, 0, 5, 5)),
        (rect(2, -3, 7, 4), rect(-1, 1, 3, 2)),
        (rect(0, 0, 5, 5), rect(10, 0, 5, 5)),
    ];
    for (a, b) in cases {
        assert_eq!(collide_aabb(&a, &b).is_some(), collide_aabb(&b, &a).is_some());
    }
}

#[test]
fn penetration_separates_horizontally() {
    let a = rect(2, -3, 7, 4);
    let b = rect(-1, 1, 3, 2);
    let (h, _) = collide_aabb(&a, &b).unwrap();
    let moved = rect(a.x - h, a.y, a.half_w, a.half_h);
    assert_eq!(collide_aabb(&moved, &b), None);
}

#[test]
fn penetration_separates_vertically() {
    let a = rect(2, -3, 7, 4);
    let b = rect(-1, 1, 3, 2);
    let (_, v) = collide_aabb(&a, &b).unwrap();
    let moved = rect(a.x, a.y - v, a.half_w, a.half_h);
    assert_eq!(collide_aabb(&moved, &b), None);
}

#[test]
fn point_inside_block_collides() {
    // A zero-size rectangle strictly inside a block still counts.
    let a = rect(1, 1, 0, 0);
    let b = rect(0, 0, 5, 5);
    assert!(collide_aabb(&a, &b).is_some());
}
