//! The ground: a static obstacle along the bottom of the screen.
use vstd::prelude::*;

use crate::collision::{Collider, Position, Shape};
use crate::{GAME_SPEED, HALF_WIDTH, PIXEL};

verus! {

/// The ground strip at the bottom of the screen.
#[derive(Clone, Copy, Debug, PartialEq, Eq, Structural)]
pub struct Ground;

impl Ground {
    /// Height of the ground strip.
    pub const LEVEL: i64 = 50 * PIXEL;

    /// Width of one repeating segment of the ground's texture.
    pub const SEGMENT_WIDTH: i64 = 18 * PIXEL;

    /// Half the width of the ground strip: it is two screens wide.
    pub const HALF_WIDTH: u32 = 180_000_000;

    /// Half the height of the ground strip.
    pub const HALF_HEIGHT: u32 = 25_000_000;

    /// Where the ground strip is centered: its left edge lies one screen
    /// left of the center.
    pub const CENTER_X: i64 = HALF_WIDTH;

    /// Its top lies [`Ground::LEVEL`] above the bottom of the screen.
    pub const CENTER_Y: i64 = -155 * PIXEL;
}

/// The ground's hitbox.
pub open spec fn ground_collider() -> Collider {
    Collider::Rectangle {
        center: Position { x: Ground::CENTER_X, y: Ground::CENTER_Y },
        half_width: Ground::HALF_WIDTH,
        half_height: Ground::HALF_HEIGHT,
    }
}

/// Horizontal offset of the ground's texture after scrolling for `dt`
/// milliseconds: it moves left with the game and, once it reaches the left
/// edge of the screen, jumps back to one texture segment left of the center.
pub open spec fn ground_scrolled(x: i64, dt: u32) -> i64 {
    let moved = x - GAME_SPEED * dt;
    if moved <= -HALF_WIDTH {
        (-Ground::SEGMENT_WIDTH) as i64
    } else {
        moved as i64
    }
}

impl Ground {
    /// The ground's hitbox shape.
    pub fn shape() -> (r: Shape)
        ensures
            r == (Shape::Rectangle {
                half_width: Ground::HALF_WIDTH,
                half_height: Ground::HALF_HEIGHT,
            }),
    {
        Shape::Rectangle { half_width: Ground::HALF_WIDTH, half_height: Ground::HALF_HEIGHT }
    }

    /// The ground's hitbox, placed.
    pub fn collider() -> (r: Collider)
        ensures
            r == ground_collider(),
    {
        Collider::Rectangle {
            center: Position { x: Ground::CENTER_X, y: Ground::CENTER_Y },
            half_width: Ground::HALF_WIDTH,
            half_height: Ground::HALF_HEIGHT,
        }
    }

    /// Scrolls the ground's texture offset `x` by `dt` milliseconds.
    pub fn scroll(x: i64, dt: u32) -> (r: i64)
        ensures
            r == ground_scrolled(x, dt),
    {
        assert(0 <= GAME_SPEED * dt <= GAME_SPEED * u32::MAX) by (nonlinear_arith)
            requires
                0 <= dt <= u32::MAX,
        ;
        let moved: i128 = x as i128 - GAME_SPEED as i128 * dt as i128;
        if moved <= -HALF_WIDTH as i128 {
            -Ground::SEGMENT_WIDTH
        } else {
            moved as i64
        }
    }
}

} // verus!
