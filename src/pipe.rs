//! Obstacles: pairs of pipes that spawn on a timer, scroll left and leave.
use vstd::arithmetic::div_mod::lemma_fundamental_div_mod_converse;
use vstd::prelude::*;

use rand::Rng;

use crate::collision::{Collider, Position, Shape};
use crate::{GAME_SPEED, HALF_WIDTH, PIXEL};

verus! {

/// One pipe. Pipes come in pairs: an upper and a lower one, with a gap
/// between them; the lower one carries the pair's checkpoint until the bird
/// passes it.
#[derive(Clone, Copy, Debug, PartialEq, Eq, Structural)]
pub struct Pipe {
    pub position: Position,
    pub upper: bool,
    pub checkpoint: bool,
}

impl Pipe {
    /// Width of a pipe's hitbox.
    pub const WIDTH: u32 = 17_000_000;

    /// Height of a pipe's hitbox.
    pub const HEIGHT: u32 = 142_000_000;

    /// Half extents of a pipe's hitbox.
    pub const HALF_WIDTH: u32 = 8_500_000;

    pub const HALF_HEIGHT: u32 = 71_000_000;

    /// Vertical space between the two pipes of a pair.
    pub const VERTICAL_GAP: i64 = 35 * PIXEL;

    /// Largest distance of a pair's midpoint from the screen's center line.
    pub const SPAWN_POINT_MID_DISTANCE: i64 = 50 * PIXEL;

    /// Time between two spawns, in milliseconds.
    pub const RESPAWN_COOLDOWN: u32 = 2000;

    /// Distance of each pipe's center from its pair's midpoint:
    /// `(VERTICAL_GAP + HEIGHT) / 2`.
    pub const PAIR_OFFSET: i64 = 88_500_000;

    /// Where new pipes appear: one pipe width right of the screen.
    pub const SPAWN_X: i64 = HALF_WIDTH + 17 * PIXEL;

    /// Pipes at or left of this line are off screen and removed.
    pub const DESPAWN_X: i64 = -HALF_WIDTH - 17 * PIXEL;
}

/// The pipe's hitbox.
pub open spec fn pipe_collider(p: Pipe) -> Collider {
    Collider::Rectangle {
        center: p.position,
        half_width: Pipe::HALF_WIDTH,
        half_height: Pipe::HALF_HEIGHT,
    }
}

/// The upper pipe of a pair around `mid`.
pub open spec fn upper_pipe(mid: i64) -> Pipe {
    Pipe {
        position: Position { x: Pipe::SPAWN_X, y: (mid + Pipe::PAIR_OFFSET) as i64 },
        upper: true,
        checkpoint: false,
    }
}

/// The lower pipe of a pair around `mid`, which holds the checkpoint.
pub open spec fn lower_pipe(mid: i64) -> Pipe {
    Pipe {
        position: Position { x: Pipe::SPAWN_X, y: (mid - Pipe::PAIR_OFFSET) as i64 },
        upper: false,
        checkpoint: true,
    }
}

/// Whether `mid` is a midpoint a pair may spawn around.
pub open spec fn valid_midpoint(mid: i64) -> bool {
    -Pipe::SPAWN_POINT_MID_DISTANCE <= mid <= Pipe::SPAWN_POINT_MID_DISTANCE
}

/// The pipe after scrolling left for `dt` milliseconds (stopping at the
/// smallest `i64`).
pub open spec fn pipe_moved(p: Pipe, dt: u32) -> Pipe {
    let x = p.position.x - GAME_SPEED * dt;
    Pipe {
        position: Position {
            x: (if x < i64::MIN { i64::MIN as int } else { x }) as i64,
            y: p.position.y,
        },
        ..p
    }
}

/// All pipes scrolled left for `dt` milliseconds.
pub open spec fn pipes_moved(s: Seq<Pipe>, dt: u32) -> Seq<Pipe> {
    Seq::new(s.len(), |i: int| pipe_moved(s[i], dt))
}

/// Whether a pipe is still (partly) on screen.
pub open spec fn on_screen(p: Pipe) -> bool {
    p.position.x > Pipe::DESPAWN_X
}

/// The pipes that are still on screen, in their order.
pub open spec fn pipes_kept(s: Seq<Pipe>) -> Seq<Pipe> {
    s.filter(|p: Pipe| on_screen(p))
}

impl Pipe {
    /// A pipe's hitbox shape.
    pub fn shape() -> (r: Shape)
        ensures
            r == (Shape::Rectangle { half_width: Pipe::HALF_WIDTH, half_height: Pipe::HALF_HEIGHT }),
    {
        Shape::Rectangle { half_width: Pipe::HALF_WIDTH, half_height: Pipe::HALF_HEIGHT }
    }

    /// The pipe's hitbox at its position.
    pub fn collider(&self) -> (r: Collider)
        ensures
            r == pipe_collider(*self),
    {
        Collider::Rectangle {
            center: self.position,
            half_width: Pipe::HALF_WIDTH,
            half_height: Pipe::HALF_HEIGHT,
        }
    }
}

/// Adds a pair of pipes around the midpoint `mid` at the right edge: the
/// upper one first, then the lower one with the checkpoint.
pub fn spawn_pipes(pipes: &mut Vec<Pipe>, mid: i64)
    requires
        valid_midpoint(mid),
    ensures
        final(pipes)@ == old(pipes)@.push(upper_pipe(mid)).push(lower_pipe(mid)),
{
    pipes.push(
        Pipe {
            position: Position { x: Pipe::SPAWN_X, y: mid + Pipe::PAIR_OFFSET },
            upper: true,
            checkpoint: false,
        },
    );
    pipes.push(
        Pipe {
            position: Position { x: Pipe::SPAWN_X, y: mid - Pipe::PAIR_OFFSET },
            upper: false,
            checkpoint: true,
        },
    );
}

/// Relies on rand's `Rng::gen_range` on `thread_rng()`: a value of the
/// inclusive range `lo..=hi`, which must not be empty (it panics otherwise).
#[verifier::external_body]
fn random_in_range(lo: i64, hi: i64) -> (r: i64)
    requires
        lo <= hi,
    ensures
        lo <= r <= hi,
{
    rand::thread_rng().gen_range(lo..=hi)
}

/// Draws a midpoint for a new pair, uniformly within
/// [`Pipe::SPAWN_POINT_MID_DISTANCE`] of the center line.
pub fn random_midpoint() -> (r: i64)
    ensures
        valid_midpoint(r),
{
    random_in_range(-Pipe::SPAWN_POINT_MID_DISTANCE, Pipe::SPAWN_POINT_MID_DISTANCE)
}

/// Adds a pair of pipes around a randomly drawn midpoint.
pub fn spawn_pipes_randomly(pipes: &mut Vec<Pipe>)
    ensures
        exists|mid: i64|
            valid_midpoint(mid) && final(pipes)@ == old(pipes)@.push(upper_pipe(mid)).push(
                lower_pipe(mid),
            ),
{
    let mid = random_midpoint();
    spawn_pipes(pipes, mid);
}

/// Scrolls every pipe left by `GAME_SPEED * dt`.
pub fn update_pipes(pipes: &mut Vec<Pipe>, dt: u32)
    ensures
        final(pipes)@ == pipes_moved(old(pipes)@, dt),
{
    assert(0 <= GAME_SPEED * dt <= GAME_SPEED * u32::MAX) by (nonlinear_arith)
        requires
            0 <= dt <= u32::MAX,
    ;
    let step: i128 = GAME_SPEED as i128 * dt as i128;
    let n = pipes.len();
    let mut i: usize = 0;
    while i < n
        invariant
            n == pipes.len() == old(pipes)@.len(),
            0 <= i <= n,
            step == GAME_SPEED * dt,
            0 <= step <= GAME_SPEED * u32::MAX,
            forall|j: int| 0 <= j < i ==> pipes@[j] == pipe_moved(old(pipes)@[j], dt),
            forall|j: int| i <= j < n ==> pipes@[j] == old(pipes)@[j],
        decreases n - i,
    {
        let mut p = pipes[i];
        let x: i128 = p.position.x as i128 - step;
        p.position.x = if x < i64::MIN as i128 {
            i64::MIN
        } else {
            x as i64
        };
        pipes.set(i, p);
        i += 1;
    }
    assert(pipes@ =~= pipes_moved(old(pipes)@, dt));
}

/// Removes the pipes that have left the screen, keeping the order of the
/// others.
pub fn despawn_out_of_bounds_pipes(pipes: &mut Vec<Pipe>)
    ensures
        final(pipes)@ == pipes_kept(old(pipes)@),
{
    let mut kept: Vec<Pipe> = Vec::new();
    let n = pipes.len();
    let mut i: usize = 0;
    while i < n
        invariant
            n == pipes.len(),
            0 <= i <= n,
            kept@ == pipes_kept(pipes@.subrange(0, i as int)),
        decreases n - i,
    {
        let p = pipes[i];
        proof {
            assert(pipes@.subrange(0, i + 1) =~= pipes@.subrange(0, i as int).push(p));
            pipes@.subrange(0, i as int).lemma_filter_push(p, |p: Pipe| on_screen(p));
        }
        if p.position.x > Pipe::DESPAWN_X {
            kept.push(p);
        }
        i += 1;
    }
    assert(pipes@.subrange(0, n as int) =~= pipes@);
    *pipes = kept;
}

/// Repeating countdown that paces the spawning of pipe pairs.
///
/// Times are in milliseconds. `finished` tells whether the last tick
/// completed a period.
#[derive(Clone, Copy, Debug, PartialEq, Eq, Structural)]
pub struct PipeSpawnTimer {
    pub period: u32,
    pub elapsed: u32,
    pub finished: bool,
}

/// One tick of a repeating timer of duration `period` that has run for
/// `elapsed`: the new elapsed time and whether the tick completed a period.
/// A tick that reaches the period reports it once, however many periods it
/// spans, and keeps what is left over modulo the period.
pub open spec fn timer_tick(period: u32, elapsed: u32, delta: u32) -> (u32, bool) {
    let total = elapsed + delta;
    if total < period {
        (total as u32, false)
    } else if period == 0 {
        (0, true)
    } else {
        ((total % (period as int)) as u32, true)
    }
}

/// Relies on bevy's `Timer::tick` for a repeating timer: the elapsed time
/// grows by `delta`; when it reaches the duration the timer is finished and
/// the elapsed time is kept modulo the duration (zero for a zero duration).
#[verifier::external_body]
fn repeating_tick(period: u32, elapsed: u32, delta: u32) -> (r: (u32, bool))
    ensures
        r == timer_tick(period, elapsed, delta),
{
    let mut timer = bevy::time::Timer::new(
        std::time::Duration::from_millis(period as u64),
        bevy::time::TimerMode::Repeating,
    );
    timer.set_elapsed(std::time::Duration::from_millis(elapsed as u64));
    timer.tick(std::time::Duration::from_millis(delta as u64));
    (timer.elapsed().as_millis() as u32, timer.finished())
}

impl PipeSpawnTimer {
    /// A timer with the given period, in milliseconds, that has not run yet.
    pub fn from_period(period: u32) -> (r: PipeSpawnTimer)
        ensures
            r == (PipeSpawnTimer { period, elapsed: 0, finished: false }),
    {
        PipeSpawnTimer { period, elapsed: 0, finished: false }
    }

    /// Sets the elapsed time back to zero.
    pub fn reset(&mut self)
        ensures
            *final(self) == (PipeSpawnTimer { period: old(self).period, elapsed: 0, finished: false }),
    {
        self.elapsed = 0;
        self.finished = false;
    }

    /// Advances the timer by `dt` milliseconds; returns whether this tick
    /// completed a period.
    pub fn tick(&mut self, dt: u32) -> (r: bool)
        ensures
            (final(self).elapsed, final(self).finished) == timer_tick(
                old(self).period,
                old(self).elapsed,
                dt,
            ),
            final(self).period == old(self).period,
            r == final(self).finished,
    {
        let (elapsed, finished) = repeating_tick(self.period, self.elapsed, dt);
        self.elapsed = elapsed;
        self.finished = finished;
        finished
    }

    /// Whether a tick of `dt` milliseconds would complete a period.
    pub fn finishes_after(&self, dt: u32) -> (r: bool)
        ensures
            r == timer_tick(self.period, self.elapsed, dt).1,
    {
        self.elapsed as u64 + dt as u64 >= self.period as u64
    }
}

/// The elapsed time and the number of completed periods after running ticks
/// of the durations `dts`, in order.
pub open spec fn timer_run(period: u32, elapsed: u32, dts: Seq<u32>) -> (u32, nat)
    decreases dts.len(),
{
    if dts.len() == 0 {
        (elapsed, 0)
    } else {
        let (e, n) = timer_run(period, elapsed, dts.drop_last());
        let (e2, finished) = timer_tick(period, e, dts.last());
        (e2, if finished { n + 1 } else { n })
    }
}

/// Sum of the durations.
pub open spec fn total_time(dts: Seq<u32>) -> nat
    decreases dts.len(),
{
    if dts.len() == 0 {
        0
    } else {
        (total_time(dts.drop_last()) + dts.last()) as nat
    }
}

/// A repeating timer reports a finished tick exactly once per period: over
/// ticks that each last at most one period, the number of finished ticks is
/// the number of whole periods that have run, and the elapsed time is what
/// is left over.
pub proof fn lemma_timer_finishes_once_per_period(period: u32, elapsed: u32, dts: Seq<u32>)
    requires
        elapsed < period,
        forall|i: int| 0 <= i < dts.len() ==> dts[i] <= period,
    ensures
        timer_run(period, elapsed, dts).1 == (elapsed + total_time(dts)) / (period as int),
        timer_run(period, elapsed, dts).0 == (elapsed + total_time(dts)) % (period as int),
    decreases dts.len(),
{
    let p = period as int;
    if dts.len() == 0 {
        lemma_fundamental_div_mod_converse(elapsed as int, p, 0, elapsed as int);
    } else {
        let prefix = dts.drop_last();
        lemma_timer_finishes_once_per_period(period, elapsed, prefix);
        let (e, n) = timer_run(period, elapsed, prefix);
        let t = elapsed + total_time(prefix);
        let d = dts.last() as int;
        assert(t == n * p + e) by {
            vstd::arithmetic::div_mod::lemma_fundamental_div_mod(t, p);
        }
        if e + d < p {
            assert(t + d == n * p + (e + d));
            lemma_fundamental_div_mod_converse(t + d, p, n as int, e + d);
        } else {
            assert(t + d == (n + 1) * p + (e + d - p)) by (nonlinear_arith)
                requires
                    t == n * p + e,
            ;
            lemma_fundamental_div_mod_converse(e + d, p, 1, e + d - p);
            lemma_fundamental_div_mod_converse(t + d, p, n + 1 as int, e + d - p);
        }
    }
}

} // verus!
