use batch2d::geom::{clip_x, clip_y, rect_corners, Rotation, FP_ONE};
use batch2d::types::{Point, Rect};

#[test]
fn zero_rotation_matches_unit_turn() {
    // Continuity at the fast-path boundary: the axis-aligned path equals the
    // general formula with cosine one and sine zero, corner for corner.
    let rects = [
        Rect::new(0, 0, 10, 20),
        Rect::new(-5, 7, 100, 1),
        Rect::new(300, 200, 0, 0),
        Rect::new(-1000, -1000, 2000, 2000),
    ];
    let origins = [Point::new(0, 0), Point::new(3, -4), Point::new(-50, 60)];
    for r in rects.iter() {
        for o in origins.iter() {
            let fast = rect_corners(*r, *o, Rotation::Zero);
            let general = rect_corners(*r, *o, Rotation::Turn { cos: FP_ONE, sin: 0 });
            assert_eq!(fast, general);
        }
    }
}

#[test]
fn axis_aligned_corners() {
    let c = rect_corners(Rect::new(10, 0, 10, 10), Point::new(0, 0), Rotation::Zero);
    assert_eq!(c.x1, 10 * FP_ONE);
    assert_eq!(c.y1, 0);
    assert_eq!(c.x2, 20 * FP_ONE);
    assert_eq!(c.y2, 0);
    assert_eq!(c.x3, 10 * FP_ONE);
    assert_eq!(c.y3, 10 * FP_ONE);
    assert_eq!(c.x4, 20 * FP_ONE);
    assert_eq!(c.y4, 10 * FP_ONE);
}

#[test]
fn quarter_turn_corners() {
    // A 90-degree rotation (cos 0, sin 1) about the rectangle's own corner
    // maps the top-right corner (w, 0) onto (0, w).
    let c = rect_corners(
        Rect::new(0, 0, 10, 20),
        Point::new(0, 0),
        Rotation::Turn { cos: 0, sin: FP_ONE },
    );
    assert_eq!((c.x1, c.y1), (0, 0));
    assert_eq!((c.x2, c.y2), (0, 10 * FP_ONE));
    assert_eq!((c.x3, c.y3), (-20 * FP_ONE, 0));
    assert_eq!((c.x4, c.y4), (-20 * FP_ONE, 10 * FP_ONE));
}

#[test]
fn rotation_origin_shifts_pivot() {
    // Rotating about (5, 5) with the identity turn only translates by the
    // origin: the fast path does the same.
    let c = rect_corners(Rect::new(100, 50, 10, 10), Point::new(5, 5), Rotation::Zero);
    assert_eq!(c.x1, 95 * FP_ONE);
    assert_eq!(c.y1, 45 * FP_ONE);
}

#[test]
fn clip_values_are_exact_fractions() {
    // x' = 2x/W - 1 exactly: pixel 10 on an 800-wide viewport is -0.975.
    let f = clip_x(10 * FP_ONE, 800);
    assert_eq!(f.num, -51118080);
    assert_eq!(f.den, 52428800);
    assert!((f.num as f64 / f.den as f64 - (10.0 * 2.0 / 800.0 - 1.0)).abs() < 1e-12);

    // y is flipped: pixel 0 is the top, clip +1.
    let top = clip_y(0, 600);
    assert_eq!(top.num, top.den);
    let bottom = clip_y(600 * FP_ONE, 600);
    assert_eq!(bottom.num, -bottom.den);
    let mid = clip_y(300 * FP_ONE, 600);
    assert_eq!(mid.num, 0);
}
