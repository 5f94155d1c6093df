//! Bounding shapes and the intersection test between them.
//!
//! Every test is inclusive: shapes that only touch are colliding.
use vstd::prelude::*;

verus! {

/// A point of the world, in micropixels; `y` grows upwards.
#[derive(Clone, Copy, Debug, PartialEq, Eq, Structural)]
pub struct Position {
    pub x: i64,
    pub y: i64,
}

/// A shape descriptor, without a position. Extents are in micropixels.
#[derive(Clone, Copy, Debug, PartialEq, Eq, Structural)]
pub enum Shape {
    Rectangle { half_width: u32, half_height: u32 },
    Circle { radius: u32 },
}

/// A shape placed at a center: an axis-aligned box or a circle.
#[derive(Clone, Copy, Debug, PartialEq, Eq, Structural)]
pub enum Collider {
    Rectangle { center: Position, half_width: u32, half_height: u32 },
    Circle { center: Position, radius: u32 },
}

pub open spec fn abs(v: int) -> int {
    if v < 0 {
        -v
    } else {
        v
    }
}

pub open spec fn clamp(v: int, lo: int, hi: int) -> int {
    if v < lo {
        lo
    } else if v > hi {
        hi
    } else {
        v
    }
}

/// Squared euclidean distance between two points.
pub open spec fn dist_sq(ax: int, ay: int, bx: int, by: int) -> int {
    (ax - bx) * (ax - bx) + (ay - by) * (ay - by)
}

/// Two circles meet when the distance of their centers is at most the sum of
/// their radii.
pub open spec fn circles_meet(a: Position, ra: int, b: Position, rb: int) -> bool {
    dist_sq(a.x as int, a.y as int, b.x as int, b.y as int) <= (ra + rb) * (ra + rb)
}

/// Two boxes meet when their extents overlap on both axes.
pub open spec fn boxes_meet(a: Position, aw: int, ah: int, b: Position, bw: int, bh: int) -> bool {
    abs(a.x - b.x) <= aw + bw && abs(a.y - b.y) <= ah + bh
}

/// A circle meets a box when the point of the box closest to the circle's
/// center lies within the radius.
pub open spec fn circle_meets_box(c: Position, r: int, b: Position, bw: int, bh: int) -> bool {
    let px = clamp(c.x as int, b.x - bw, b.x + bw);
    let py = clamp(c.y as int, b.y - bh, b.y + bh);
    dist_sq(c.x as int, c.y as int, px, py) <= r * r
}

/// Whether two colliders share at least one point.
pub open spec fn intersects(a: Collider, b: Collider) -> bool {
    match (a, b) {
        (
            Collider::Rectangle { center: ca, half_width: wa, half_height: ha },
            Collider::Rectangle { center: cb, half_width: wb, half_height: hb },
        ) => boxes_meet(ca, wa as int, ha as int, cb, wb as int, hb as int),
        (
            Collider::Rectangle { center: cb, half_width: w, half_height: h },
            Collider::Circle { center: cc, radius: r },
        ) => circle_meets_box(cc, r as int, cb, w as int, h as int),
        (
            Collider::Circle { center: cc, radius: r },
            Collider::Rectangle { center: cb, half_width: w, half_height: h },
        ) => circle_meets_box(cc, r as int, cb, w as int, h as int),
        (
            Collider::Circle { center: ca, radius: ra },
            Collider::Circle { center: cb, radius: rb },
        ) => circles_meet(ca, ra as int, cb, rb as int),
    }
}

/// The collider of a shape placed at a center.
pub open spec fn placed(s: Shape, center: Position) -> Collider {
    match s {
        Shape::Rectangle { half_width, half_height } => Collider::Rectangle {
            center,
            half_width,
            half_height,
        },
        Shape::Circle { radius } => Collider::Circle { center, radius },
    }
}

impl Shape {
    /// Places this shape at `center`.
    pub fn to_collider(&self, center: Position) -> (r: Collider)
        ensures
            r == placed(*self, center),
    {
        match *self {
            Shape::Rectangle { half_width, half_height } => Collider::Rectangle {
                center,
                half_width,
                half_height,
            },
            Shape::Circle { radius } => Collider::Circle { center, radius },
        }
    }
}

fn abs_diff(a: i64, b: i64) -> (r: u64)
    ensures
        r == abs(a - b),
{
    if a >= b {
        (a as i128 - b as i128) as u64
    } else {
        (b as i128 - a as i128) as u64
    }
}

/// Whether the offset `(dx, dy)` is at most `r` long.
fn within_radius(dx: u64, dy: u64, r: u64) -> (res: bool)
    requires
        r <= 2 * u32::MAX,
    ensures
        res == (dx * dx + dy * dy <= r * r),
{
    if dx > r || dy > r {
        assert(dx * dx + dy * dy > r * r) by (nonlinear_arith)
            requires
                dx > r || dy > r,
        ;
        false
    } else {
        assert(dx * dx <= r * r && dy * dy <= r * r) by (nonlinear_arith)
            requires
                dx <= r && dy <= r,
        ;
        assert(r * r <= 4 * (u32::MAX as int) * (u32::MAX as int)) by (nonlinear_arith)
            requires
                r <= 2 * u32::MAX,
        ;
        let (dx, dy, r) = (dx as u128, dy as u128, r as u128);
        dx * dx + dy * dy <= r * r
    }
}

fn boxes_overlap(
    a: Position,
    aw: u32,
    ah: u32,
    b: Position,
    bw: u32,
    bh: u32,
) -> (r: bool)
    ensures
        r == boxes_meet(a, aw as int, ah as int, b, bw as int, bh as int),
{
    abs_diff(a.x, b.x) <= aw as u64 + bw as u64 && abs_diff(a.y, b.y) <= ah as u64 + bh as u64
}

fn circle_overlaps_box(c: Position, r: u32, b: Position, bw: u32, bh: u32) -> (res: bool)
    ensures
        res == circle_meets_box(c, r as int, b, bw as int, bh as int),
{
    let lo_x = (b.x as i128 - bw as i128);
    let hi_x = (b.x as i128 + bw as i128);
    let lo_y = (b.y as i128 - bh as i128);
    let hi_y = (b.y as i128 + bh as i128);
    let px: i128 = if (c.x as i128) < lo_x {
        lo_x
    } else if (c.x as i128) > hi_x {
        hi_x
    } else {
        c.x as i128
    };
    let py: i128 = if (c.y as i128) < lo_y {
        lo_y
    } else if (c.y as i128) > hi_y {
        hi_y
    } else {
        c.y as i128
    };
    let ex = c.x as i128 - px;
    let ey = c.y as i128 - py;
    assert(abs(ex as int) <= u64::MAX && abs(ey as int) <= u64::MAX);
    let dx: u64 = if ex < 0 {
        (-ex) as u64
    } else {
        ex as u64
    };
    let dy: u64 = if ey < 0 {
        (-ey) as u64
    } else {
        ey as u64
    };
    assert((dx * dx) == ex * ex && dy * dy == ey * ey) by (nonlinear_arith)
        requires
            dx == abs(ex as int),
            dy == abs(ey as int),
    ;
    within_radius(dx, dy, r as u64)
}

impl Collider {
    /// Whether this collider and `other` share at least one point.
    pub fn collides(&self, other: &Collider) -> (r: bool)
        ensures
            r == intersects(*self, *other),
    {
        match (*self, *other) {
            (
                Collider::Rectangle { center: ca, half_width: wa, half_height: ha },
                Collider::Rectangle { center: cb, half_width: wb, half_height: hb },
            ) => boxes_overlap(ca, wa, ha, cb, wb, hb),
            (
                Collider::Rectangle { center: cb, half_width: w, half_height: h },
                Collider::Circle { center: cc, radius: r },
            ) => circle_overlaps_box(cc, r, cb, w, h),
            (
                Collider::Circle { center: cc, radius: r },
                Collider::Rectangle { center: cb, half_width: w, half_height: h },
            ) => circle_overlaps_box(cc, r, cb, w, h),
            (
                Collider::Circle { center: ca, radius: ra },
                Collider::Circle { center: cb, radius: rb },
            ) => {
                let dx = abs_diff(ca.x, cb.x);
                let dy = abs_diff(ca.y, cb.y);
                assert(dist_sq(ca.x as int, ca.y as int, cb.x as int, cb.y as int) == dx * dx + dy
                    * dy) by (nonlinear_arith)
                    requires
                        dx == abs(ca.x - cb.x),
                        dy == abs(ca.y - cb.y),
                ;
                within_radius(dx, dy, ra as u64 + rb as u64)
            },
        }
    }
}

/// Intersection does not depend on the order of the two colliders.
pub proof fn lemma_intersects_symmetric(a: Collider, b: Collider)
    ensures
        intersects(a, b) == intersects(b, a),
{
    match (a, b) {
        (
            Collider::Rectangle { center: ca, half_width: wa, half_height: ha },
            Collider::Rectangle { center: cb, half_width: wb, half_height: hb },
        ) => {
            assert(abs(ca.x - cb.x) == abs(cb.x - ca.x));
            assert(abs(ca.y - cb.y) == abs(cb.y - ca.y));
        },
        (Collider::Circle { center: ca, radius: ra }, Collider::Circle { center: cb, radius: rb }) => {
            assert(dist_sq(ca.x as int, ca.y as int, cb.x as int, cb.y as int) == dist_sq(
                cb.x as int,
                cb.y as int,
                ca.x as int,
                ca.y as int,
            )) by (nonlinear_arith);
        },
        _ => {},
    }
}

/// Two circles of radii `r1` and `r2` whose centers are `d` apart collide
/// exactly when `d <= r1 + r2`; in particular circles that only touch
/// collide.
pub proof fn lemma_circles_collide_iff_close(c1: Position, r1: u32, c2: Position, r2: u32, d: nat)
    requires
        d * d == dist_sq(c1.x as int, c1.y as int, c2.x as int, c2.y as int),
    ensures
        intersects(
            Collider::Circle { center: c1, radius: r1 },
            Collider::Circle { center: c2, radius: r2 },
        ) <==> d <= r1 + r2,
{
    let s = r1 + r2;
    if d <= s {
        assert(d * d <= s * s) by (nonlinear_arith)
            requires
                d <= s,
                0 <= d,
        ;
    } else {
        assert(d * d > s * s) by (nonlinear_arith)
            requires
                d > s,
                0 <= s,
        ;
    }
}

} // verus!
