use shopping_sim::geom::Vec2i;
use shopping_sim::spatial::nearest;

fn positions(points: &[(i64, i64)]) -> Vec<Vec2i> {
    let mut v: Vec<Vec2i> = Vec::new();
    for &(x, y) in points {
        v.push(Vec2i::new(x, y));
    }
    v
}

#[test]
fn nearest_orders_by_squared_distance() {
    let pos = Vec2i::new(0, 0);
    let shelves = positions(&[(0, 600), (0, 350), (0, 100), (0, -150), (0, -400)]);
    let r = nearest(&pos, &shelves, 5);
    // distances squared: 360000, 122500, 10000, 22500, 160000
    assert_eq!(r, vec![2, 3, 1, 4, 0]);
}

#[test]
fn nearest_truncates_to_k() {
    let pos = Vec2i::new(0, 0);
    let shelves = positions(&[(0, 600), (0, 350), (0, 100), (0, -150), (0, -400)]);
    let r = nearest(&pos, &shelves, 2);
    assert_eq!(r, vec![2, 3]);
}

#[test]
fn nearest_with_fewer_shelves_than_k() {
    let pos = Vec2i::new(10, 10);
    let shelves = positions(&[(100, 0), (0, 0)]);
    let r = nearest(&pos, &shelves, 5);
    assert_eq!(r, vec![1, 0]);
}

#[test]
fn nearest_breaks_ties_by_enumeration_order() {
    let pos = Vec2i::new(0, 0);
    // all four at the same squared distance 100
    let shelves = positions(&[(10, 0), (0, 10), (-10, 0), (0, -10)]);
    let r = nearest(&pos, &shelves, 3);
    assert_eq!(r, vec![0, 1, 2]);
}

#[test]
fn nearest_of_empty_shelf_set_is_empty() {
    let pos = Vec2i::new(0, 0);
    let shelves: Vec<Vec2i> = Vec::new();
    let r = nearest(&pos, &shelves, 5);
    assert!(r.is_empty());
}

#[test]
fn nearest_is_deterministic_across_repeated_calls() {
    let pos = Vec2i::new(37, -95);
    let shelves = positions(&[
        (0, 600),
        (0, 350),
        (0, 100),
        (0, -150),
        (0, -400),
        (250, 250),
        (-250, -250),
    ]);
    let first = nearest(&pos, &shelves, 5);
    for _ in 0..100 {
        let again = nearest(&pos, &shelves, 5);
        assert_eq!(again, first);
    }
}

#[test]
fn dist_sq_is_exact() {
    let a = Vec2i::new(3, 4);
    let b = Vec2i::new(0, 0);
    assert_eq!(a.dist_sq(&b), 25);
    let c = Vec2i::new(-300, 100);
    let d = Vec2i::new(300, -100);
    assert_eq!(c.dist_sq(&d), 600 * 600 + 200 * 200);
}
