//! The player's bird: gravity, flapping and the playable band.
use vstd::prelude::*;

use crate::collision::{clamp, intersects, Collider, Position, Shape};
use crate::ground::{ground_collider, Ground};
use crate::pipe::{pipe_collider, Pipe};
use crate::{HALF_HEIGHT, PIXEL, PIXEL_PER_SECOND};

verus! {

/// Vertical velocity, in millipixels per second; positive is upwards.
#[derive(Clone, Copy, Debug, PartialEq, Eq, Structural)]
pub struct Velocity(pub i64);

/// The bird: where it is and how fast it rises or falls.
#[derive(Clone, Copy, Debug, PartialEq, Eq, Structural)]
pub struct Bird {
    pub position: Position,
    pub velocity: Velocity,
}

/// Upward velocity set by a flap.
pub const FLAP_FORCE: i64 = 300 * PIXEL_PER_SECOND;

/// Gravity, in pixels per second squared: the velocity lost per millisecond,
/// in millipixels per second.
pub const GRAVITY_COEF: i64 = 1800;

/// Velocity, in millipixels per second, that tilts the bird by one
/// millidegree.
pub const VEL_TO_ANGLE_RATIO: i64 = 8;

/// Radius of the bird's circular hitbox.
pub const HITBOX_SIZE: u32 = 10_000_000;

/// Lowest height of the bird's center: its hitbox rests on the ground.
pub const MIN_Y: i64 = -HALF_HEIGHT + 10 * PIXEL + Ground::LEVEL;

/// Highest height of the bird's center: slightly above the top of the screen.
pub const MAX_Y: i64 = HALF_HEIGHT + 2 * 10 * PIXEL;

/// Horizontal position of the bird, fixed for the whole round: a quarter of
/// the screen's width left of the center.
pub const SPAWN_X: i64 = -45 * PIXEL;

/// Largest tilt, in millidegrees, either way.
pub const MAX_ANGLE: i64 = 90_000;

/// The value of `v` brought into the range of `i64`.
pub open spec fn saturate(v: int) -> int {
    clamp(v, i64::MIN as int, i64::MAX as int)
}

/// Velocity after one tick of `dt` milliseconds: a flap sets it to the flap
/// force, otherwise gravity pulls it down.
pub open spec fn velocity_after(v: i64, flap: bool, dt: u32) -> i64 {
    if flap {
        FLAP_FORCE
    } else {
        saturate(v - GRAVITY_COEF * dt) as i64
    }
}

/// Height after moving at velocity `v` for `dt` milliseconds, kept in the
/// playable band.
pub open spec fn height_after(y: i64, v: i64, dt: u32) -> i64 {
    clamp(y + v * dt, MIN_Y as int, MAX_Y as int) as i64
}

/// The bird after one tick of `dt` milliseconds.
pub open spec fn bird_after(b: Bird, flap: bool, dt: u32) -> Bird {
    let v = velocity_after(b.velocity.0, flap, dt);
    Bird {
        position: Position { x: b.position.x, y: height_after(b.position.y, v, dt) },
        velocity: Velocity(v),
    }
}

/// The bird as it appears at the start of a round.
pub open spec fn spawned_bird() -> Bird {
    Bird { position: Position { x: SPAWN_X, y: 0 }, velocity: Velocity(0) }
}

/// Tilt in millidegrees for a velocity: one millidegree per
/// [`VEL_TO_ANGLE_RATIO`], rounded towards zero, at most [`MAX_ANGLE`] either way.
pub open spec fn angle_of(v: int) -> int {
    let c = clamp(v, -MAX_ANGLE * VEL_TO_ANGLE_RATIO, MAX_ANGLE * VEL_TO_ANGLE_RATIO);
    if c >= 0 {
        c / VEL_TO_ANGLE_RATIO as int
    } else {
        -((-c) / VEL_TO_ANGLE_RATIO as int)
    }
}

pub open spec fn bird_collider(b: Bird) -> Collider {
    Collider::Circle { center: b.position, radius: HITBOX_SIZE }
}

impl Bird {
    /// The bird at the start of a round: at rest, halfway up the screen.
    pub fn spawn() -> (r: Bird)
        ensures
            r == spawned_bird(),
    {
        Bird { position: Position { x: SPAWN_X, y: 0 }, velocity: Velocity(0) }
    }

    /// The bird's hitbox shape.
    pub fn shape() -> (r: Shape)
        ensures
            r == (Shape::Circle { radius: HITBOX_SIZE }),
    {
        Shape::Circle { radius: HITBOX_SIZE }
    }

    /// The bird's hitbox at its current position.
    pub fn collider(&self) -> (r: Collider)
        ensures
            r == bird_collider(*self),
    {
        Collider::Circle { center: self.position, radius: HITBOX_SIZE }
    }

    /// Advances the bird by `dt` milliseconds. A flap sets the velocity to
    /// [`FLAP_FORCE`]; otherwise gravity lowers it by `GRAVITY_COEF * dt`.
    /// The height then moves by `velocity * dt` and is kept within
    /// `[MIN_Y, MAX_Y]`.
    pub fn update(&mut self, flap: bool, dt: u32)
        ensures
            *final(self) == bird_after(*old(self), flap, dt),
            MIN_Y <= final(self).position.y <= MAX_Y,
    {
        let v: i64 = if flap {
            FLAP_FORCE
        } else {
            assert(0 <= GRAVITY_COEF * dt <= GRAVITY_COEF * u32::MAX) by (nonlinear_arith)
                requires
                    0 <= dt <= u32::MAX,
            ;
            let w: i128 = self.velocity.0 as i128 - GRAVITY_COEF as i128 * dt as i128;
            if w < i64::MIN as i128 {
                i64::MIN
            } else if w > i64::MAX as i128 {
                i64::MAX
            } else {
                w as i64
            }
        };
        assert(-(0x8000_0000_0000_0000 as int) * (u32::MAX as int) <= v * dt <= (
        0x8000_0000_0000_0000 as int) * (u32::MAX as int)) by (nonlinear_arith)
            requires
                i64::MIN <= v <= i64::MAX,
                0 <= dt <= u32::MAX,
        ;
        let y: i128 = self.position.y as i128 + v as i128 * dt as i128;
        let y: i64 = if y < MIN_Y as i128 {
            MIN_Y
        } else if y > MAX_Y as i128 {
            MAX_Y
        } else {
            y as i64
        };
        self.position.y = y;
        self.velocity = Velocity(v);
    }

    /// Presentation-only tilt of the bird, in millidegrees: see [`angle_of`].
    pub fn rotation(&self) -> (r: i64)
        ensures
            r == angle_of(self.velocity.0 as int),
            -MAX_ANGLE <= r <= MAX_ANGLE,
    {
        let limit: i64 = MAX_ANGLE * VEL_TO_ANGLE_RATIO;
        let v = self.velocity.0;
        let c: i64 = if v < -limit {
            -limit
        } else if v > limit {
            limit
        } else {
            v
        };
        if c >= 0 {
            c / VEL_TO_ANGLE_RATIO
        } else {
            -((-c) / VEL_TO_ANGLE_RATIO)
        }
    }
}

/// Whether the bird touches the ground or one of the pipes.
pub open spec fn hits_obstacle(b: Bird, pipes: Seq<Pipe>) -> bool {
    intersects(bird_collider(b), ground_collider()) || exists|i: int|
        0 <= i < pipes.len() && #[trigger] intersects(bird_collider(b), pipe_collider(pipes[i]))
}

/// Whether the bird collides with the ground or with any pipe. The search
/// stops at the first obstacle hit.
pub fn detect_collisions(bird: &Bird, pipes: &Vec<Pipe>) -> (r: bool)
    ensures
        r == hits_obstacle(*bird, pipes@),
{
    let b = bird.collider();
    if b.collides(&Ground::collider()) {
        return true;
    }
    let mut i: usize = 0;
    while i < pipes.len()
        invariant
            0 <= i <= pipes.len(),
            b == bird_collider(*bird),
            !intersects(b, ground_collider()),
            forall|j: int| 0 <= j < i ==> !#[trigger] intersects(b, pipe_collider(pipes@[j])),
        decreases pipes.len() - i,
    {
        if b.collides(&pipes[i].collider()) {
            return true;
        }
        i += 1;
    }
    false
}

/// Whatever the duration of a tick and whether the bird flaps, its height
/// afterwards lies in the playable band.
pub proof fn lemma_bird_stays_in_band(b: Bird, flap: bool, dt: u32)
    ensures
        MIN_Y <= bird_after(b, flap, dt).position.y <= MAX_Y,
{
}

} // verus!
