//! Exact geometry transform: pixel-space rectangles to clip-space corners.
//!
//! All positions are computed in *subpixel* units, a fixed-point format with
//! [`FP_ONE`] units per pixel, so that rotation by a precomputed
//! cosine/sine pair and the clip-space mapping are exact integer arithmetic.
//! A clip-space coordinate is an exact fraction [`Frac`]: for a subpixel
//! position `s` on a viewport axis of `d` pixels, the clip value is
//! `(2*s - d*FP_ONE) / (d*FP_ONE)` on the x axis (y is flipped, because pixel
//! space is y-down while clip space is y-up).

use vstd::prelude::*;

use crate::types::{Point, Rect, point_in_bounds, rect_in_bounds, COORD_LIMIT};

verus! {

/// Number of subpixel units per pixel (a 16.16 fixed-point scale).
pub const FP_ONE: i64 = 65536;

/// Largest subpixel magnitude a transformed corner can reach, given
/// [`COORD_LIMIT`]-bounded inputs and a well-formed rotation.
pub const SUB_LIMIT: i64 = 8 * COORD_LIMIT * FP_ONE;

/// An exact fraction with a positive denominator.  Clip-space positions and
/// texture coordinates are carried as `Frac`s so that no precision is lost
/// before the unverified GPU driver converts them to floating point.
#[derive(Clone, Copy, Debug, PartialEq, Eq, Structural)]
pub struct Frac {
    pub num: i64,
    pub den: i64,
}

/// A rotation around an origin point, either the axis-aligned fast path or a
/// precomputed cosine/sine pair in units of [`FP_ONE`].
#[derive(Clone, Copy, Debug, PartialEq, Eq, Structural)]
pub enum Rotation {
    /// No rotation: corners are computed without any trigonometry.
    Zero,
    /// Rotation whose cosine and sine, scaled by [`FP_ONE`], are given.
    Turn { cos: i64, sin: i64 },
}

/// A cosine/sine pair never exceeds one in magnitude.
pub open spec fn rotation_wf(rot: Rotation) -> bool {
    match rot {
        Rotation::Zero => true,
        Rotation::Turn { cos, sin } => {
            &&& -FP_ONE <= cos <= FP_ONE
            &&& -FP_ONE <= sin <= FP_ONE
        },
    }
}

/// Subpixel x position of the rectangle corner at offset `(ox, oy)` from the
/// rectangle's top-left, rotated about `origin`.
pub open spec fn sub_x(rect: Rect, origin: Point, rot: Rotation, ox: int, oy: int) -> int {
    let u = ox - origin.x;
    let v = oy - origin.y;
    match rot {
        Rotation::Zero => (rect.x + u) * FP_ONE,
        Rotation::Turn { cos, sin } => rect.x * FP_ONE + u * cos - v * sin,
    }
}

/// Subpixel y position of the rectangle corner at offset `(ox, oy)` from the
/// rectangle's top-left, rotated about `origin`.
pub open spec fn sub_y(rect: Rect, origin: Point, rot: Rotation, ox: int, oy: int) -> int {
    let u = ox - origin.x;
    let v = oy - origin.y;
    match rot {
        Rotation::Zero => (rect.y + v) * FP_ONE,
        Rotation::Turn { cos, sin } => rect.y * FP_ONE + u * sin + v * cos,
    }
}

/// Clip-space x numerator for subpixel position `s` on a viewport `d` pixels
/// wide; the denominator is `d * FP_ONE`.
pub open spec fn clip_x_num(s: int, d: int) -> int {
    2 * s - d * FP_ONE
}

/// Clip-space y numerator for subpixel position `s` on a viewport `d` pixels
/// tall; y is flipped, and the denominator is `d * FP_ONE`.
pub open spec fn clip_y_num(s: int, d: int) -> int {
    d * FP_ONE - 2 * s
}

/// The clip-space x coordinate of subpixel position `s` on a `d`-pixel axis.
pub open spec fn clip_x_frac(s: int, d: int) -> Frac {
    Frac { num: clip_x_num(s, d) as i64, den: (d * FP_ONE) as i64 }
}

/// The clip-space y coordinate of subpixel position `s` on a `d`-pixel axis.
pub open spec fn clip_y_frac(s: int, d: int) -> Frac {
    Frac { num: clip_y_num(s, d) as i64, den: (d * FP_ONE) as i64 }
}

/// The four corner positions of a transformed rectangle, in subpixel units.
/// Corner 1 is the rectangle's top-left, 2 its top-right, 3 its bottom-left
/// and 4 its bottom-right (before rotation).
#[derive(Clone, Copy, Debug, PartialEq, Eq, Structural)]
pub struct SubCorners {
    pub x1: i64,
    pub y1: i64,
    pub x2: i64,
    pub y2: i64,
    pub x3: i64,
    pub y3: i64,
    pub x4: i64,
    pub y4: i64,
}

/// Product of a coordinate difference and a rotation coefficient; the bounds
/// keep the caller's sums far below `i64` overflow.
fn mul_coeff(a: i64, b: i64) -> (r: i64)
    requires
        -2 * COORD_LIMIT <= a <= 2 * COORD_LIMIT,
        -FP_ONE <= b <= FP_ONE,
    ensures
        r == a * b,
        -2 * COORD_LIMIT * FP_ONE <= r <= 2 * COORD_LIMIT * FP_ONE,
{
    proof {
        assert(-2 * COORD_LIMIT * FP_ONE <= a * b <= 2 * COORD_LIMIT * FP_ONE)
            by (nonlinear_arith)
            requires
                -2 * COORD_LIMIT <= a <= 2 * COORD_LIMIT,
                -FP_ONE <= b <= FP_ONE,
        ;
    }
    a * b
}

/// Transform a rectangle's four corners: translate by `-origin`, rotate,
/// translate back to the rectangle's position.  The axis-aligned fast path
/// and the general path agree exactly when the rotation is the identity
/// (see [`lemma_zero_rotation_matches_unit_turn`]).
pub fn rect_corners(rect: Rect, origin: Point, rot: Rotation) -> (c: SubCorners)
    requires
        rect_in_bounds(rect),
        point_in_bounds(origin),
        rotation_wf(rot),
    ensures
        c.x1 == sub_x(rect, origin, rot, 0, 0),
        c.y1 == sub_y(rect, origin, rot, 0, 0),
        c.x2 == sub_x(rect, origin, rot, rect.width as int, 0),
        c.y2 == sub_y(rect, origin, rot, rect.width as int, 0),
        c.x3 == sub_x(rect, origin, rot, 0, rect.height as int),
        c.y3 == sub_y(rect, origin, rot, 0, rect.height as int),
        c.x4 == sub_x(rect, origin, rot, rect.width as int, rect.height as int),
        c.y4 == sub_y(rect, origin, rot, rect.width as int, rect.height as int),
        -SUB_LIMIT <= c.x1 <= SUB_LIMIT,
        -SUB_LIMIT <= c.y1 <= SUB_LIMIT,
        -SUB_LIMIT <= c.x2 <= SUB_LIMIT,
        -SUB_LIMIT <= c.y2 <= SUB_LIMIT,
        -SUB_LIMIT <= c.x3 <= SUB_LIMIT,
        -SUB_LIMIT <= c.y3 <= SUB_LIMIT,
        -SUB_LIMIT <= c.x4 <= SUB_LIMIT,
        -SUB_LIMIT <= c.y4 <= SUB_LIMIT,
{
    let dx = -origin.x;
    let dy = -origin.y;
    match rot {
        Rotation::Zero => {
            let x = (rect.x + dx) * FP_ONE;
            let y = (rect.y + dy) * FP_ONE;
            let xw = (rect.x + dx + rect.width) * FP_ONE;
            let yh = (rect.y + dy + rect.height) * FP_ONE;
            SubCorners { x1: x, y1: y, x2: xw, y2: y, x3: x, y3: yh, x4: xw, y4: yh }
        },
        Rotation::Turn { cos, sin } => {
            let xs = rect.x * FP_ONE;
            let ys = rect.y * FP_ONE;
            let uw = dx + rect.width;
            let vh = dy + rect.height;
            SubCorners {
                x1: xs + mul_coeff(dx, cos) - mul_coeff(dy, sin),
                y1: ys + mul_coeff(dx, sin) + mul_coeff(dy, cos),
                x2: xs + mul_coeff(uw, cos) - mul_coeff(dy, sin),
                y2: ys + mul_coeff(uw, sin) + mul_coeff(dy, cos),
                x3: xs + mul_coeff(dx, cos) - mul_coeff(vh, sin),
                y3: ys + mul_coeff(dx, sin) + mul_coeff(vh, cos),
                x4: xs + mul_coeff(uw, cos) - mul_coeff(vh, sin),
                y4: ys + mul_coeff(uw, sin) + mul_coeff(vh, cos),
            }
        },
    }
}

/// Clip-space x coordinate of subpixel position `s` on a viewport `d` pixels
/// wide.
pub fn clip_x(s: i64, d: u32) -> (f: Frac)
    requires
        -SUB_LIMIT <= s <= SUB_LIMIT,
        0 < d <= COORD_LIMIT,
    ensures
        f == clip_x_frac(s as int, d as int),
        f.den > 0,
{
    Frac { num: 2 * s - (d as i64) * FP_ONE, den: (d as i64) * FP_ONE }
}

/// Clip-space y coordinate of subpixel position `s` on a viewport `d` pixels
/// tall.
pub fn clip_y(s: i64, d: u32) -> (f: Frac)
    requires
        -SUB_LIMIT <= s <= SUB_LIMIT,
        0 < d <= COORD_LIMIT,
    ensures
        f == clip_y_frac(s as int, d as int),
        f.den > 0,
{
    Frac { num: (d as i64) * FP_ONE - 2 * s, den: (d as i64) * FP_ONE }
}

/// Continuity at the fast-path boundary: for every corner offset, the
/// axis-aligned fast path produces exactly the positions that the general
/// rotation formula produces for the identity rotation (cosine [`FP_ONE`],
/// sine zero).
pub proof fn lemma_zero_rotation_matches_unit_turn(rect: Rect, origin: Point, ox: int, oy: int)
    ensures
        sub_x(rect, origin, Rotation::Zero, ox, oy) == sub_x(
            rect,
            origin,
            Rotation::Turn { cos: FP_ONE, sin: 0 },
            ox,
            oy,
        ),
        sub_y(rect, origin, Rotation::Zero, ox, oy) == sub_y(
            rect,
            origin,
            Rotation::Turn { cos: FP_ONE, sin: 0 },
            ox,
            oy,
        ),
{
}

} // verus!
