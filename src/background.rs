//! The scrolling backdrop; it has no effect on the game.
use vstd::prelude::*;

use crate::{HALF_WIDTH, PIXEL};

verus! {

/// The backdrop behind everything else.
#[derive(Clone, Copy, Debug, PartialEq, Eq, Structural)]
pub struct Background;

impl Background {
    /// The backdrop scrolls at a third of the game's speed, rounded down:
    /// `GAME_SPEED / 3`.
    pub const SCROLL_SPEED: i64 = 33_333;

    /// Where the backdrop's left edge starts: the left edge of the screen.
    pub const START_X: i64 = -HALF_WIDTH;

    /// Once its left edge reaches this line, the backdrop's texture would no
    /// longer cover the screen, so it jumps back to [`Background::START_X`].
    pub const WRAP_X: i64 = HALF_WIDTH - 276 * PIXEL;
}

/// The backdrop's left edge after scrolling for `dt` milliseconds.
pub open spec fn background_scrolled(x: i64, dt: u32) -> i64 {
    let moved = x - Background::SCROLL_SPEED * dt;
    if moved <= Background::WRAP_X {
        Background::START_X
    } else {
        moved as i64
    }
}

impl Background {
    /// Scrolls the backdrop's left edge `x` by `dt` milliseconds.
    pub fn scroll(x: i64, dt: u32) -> (r: i64)
        ensures
            r == background_scrolled(x, dt),
    {
        assert(0 <= Background::SCROLL_SPEED * dt <= Background::SCROLL_SPEED * u32::MAX)
            by (nonlinear_arith)
            requires
                0 <= dt <= u32::MAX,
        ;
        let moved: i128 = x as i128 - Background::SCROLL_SPEED as i128 * dt as i128;
        if moved <= Background::WRAP_X as i128 {
            Background::START_X
        } else {
            moved as i64
        }
    }
}

} // verus!
