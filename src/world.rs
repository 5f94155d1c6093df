//! One round of play: the whole simulation state and its fixed tick.
use vstd::prelude::*;

use crate::bird::{bird_after, detect_collisions, hits_obstacle, spawned_bird, Bird};
use crate::checkpoint::{checkpoints_cleared, passed_count, update_checkpoints};
use crate::pipe::{
    despawn_out_of_bounds_pipes, lower_pipe, pipes_kept, pipes_moved, random_midpoint,
    spawn_pipes, timer_tick, update_pipes, upper_pipe, valid_midpoint, Pipe, PipeSpawnTimer,
};
use crate::score::{saturating_sum, Score};
use crate::state::{flap_requested, next_state, FlapTrigger, GameState, Input};

verus! {

/// Everything the simulation owns.
pub struct World {
    pub state: GameState,
    pub flap_trigger: FlapTrigger,
    pub bird: Bird,
    pub pipes: Vec<Pipe>,
    pub spawn_timer: PipeSpawnTimer,
    pub score: Score,
}

/// The simulation state as a mathematical value.
pub struct WorldView {
    pub state: GameState,
    pub flap_trigger: FlapTrigger,
    pub bird: Bird,
    pub pipes: Seq<Pipe>,
    pub spawn_timer: PipeSpawnTimer,
    pub score: Score,
}

impl View for World {
    type V = WorldView;

    open spec fn view(&self) -> WorldView {
        WorldView {
            state: self.state,
            flap_trigger: self.flap_trigger,
            bird: self.bird,
            pipes: self.pipes@,
            spawn_timer: self.spawn_timer,
            score: self.score,
        }
    }
}

/// The world at the start of a round: the bird respawned, no pipes, the
/// spawn timer and the score back to zero.
pub open spec fn round_started(w: WorldView) -> WorldView {
    WorldView {
        state: GameState::Going,
        bird: spawned_bird(),
        pipes: Seq::empty(),
        spawn_timer: PipeSpawnTimer { period: w.spawn_timer.period, elapsed: 0, finished: false },
        score: Score(0),
        ..w
    }
}

/// The pipes after the spawn and scroll phases of a running tick.
pub open spec fn pipes_advanced(w: WorldView, dt: u32, mid: i64) -> Seq<Pipe> {
    let spawned = if timer_tick(w.spawn_timer.period, w.spawn_timer.elapsed, dt).1 {
        w.pipes.push(upper_pipe(mid)).push(lower_pipe(mid))
    } else {
        w.pipes
    };
    pipes_kept(pipes_moved(spawned, dt))
}

/// One tick of a running round, in order: the bird moves; the spawn timer
/// ticks and, if it completed a period, a pair spawns around `mid`; the pipes
/// scroll and those off screen leave; then collisions and checkpoints are
/// judged on the new positions, and the state changes last.
pub open spec fn simulated(w: WorldView, input: Input, dt: u32, mid: i64) -> WorldView {
    let bird = bird_after(w.bird, flap_requested(w.flap_trigger, input), dt);
    let (elapsed, finished) = timer_tick(w.spawn_timer.period, w.spawn_timer.elapsed, dt);
    let pipes = pipes_advanced(w, dt, mid);
    let bird_x = bird.position.x;
    WorldView {
        state: next_state(w.state, input, hits_obstacle(bird, pipes)),
        bird,
        pipes: checkpoints_cleared(bird_x, pipes),
        spawn_timer: PipeSpawnTimer { period: w.spawn_timer.period, elapsed, finished },
        score: Score(saturating_sum(w.score.0 as int, passed_count(bird_x, pipes) as int)),
        ..w
    }
}

/// The world after one tick of `dt` milliseconds with the given input; `mid`
/// is the midpoint of the pair that spawns during the tick, if one does.
/// Only a running round simulates; in the other states the tick only
/// applies the state change, and starting a round from `Idle` or `GameOver`
/// resets it.
pub open spec fn stepped(w: WorldView, input: Input, dt: u32, mid: i64) -> WorldView {
    match w.state {
        GameState::Going => simulated(w, input, dt, mid),
        GameState::Paused => WorldView { state: next_state(w.state, input, false), ..w },
        _ => if input.primary_just_pressed {
            round_started(w)
        } else {
            w
        },
    }
}

impl World {
    /// A world waiting for its first round, with the bird flapping as
    /// `flap_trigger` says.
    pub fn new(flap_trigger: FlapTrigger) -> (r: World)
        ensures
            r@ == (WorldView {
                state: GameState::Idle,
                flap_trigger,
                bird: spawned_bird(),
                pipes: Seq::empty(),
                spawn_timer: PipeSpawnTimer {
                    period: Pipe::RESPAWN_COOLDOWN,
                    elapsed: 0,
                    finished: false,
                },
                score: Score(0),
            }),
    {
        World {
            state: GameState::Idle,
            flap_trigger,
            bird: Bird::spawn(),
            pipes: Vec::new(),
            spawn_timer: PipeSpawnTimer::from_period(Pipe::RESPAWN_COOLDOWN),
            score: Score::new(),
        }
    }

    /// Starts a fresh round: see [`round_started`].
    pub fn start_round(&mut self)
        ensures
            final(self)@ == round_started(old(self)@),
    {
        self.state = GameState::Going;
        self.bird = Bird::spawn();
        self.pipes.clear();
        self.spawn_timer.reset();
        self.score.reset();
        assert(self.pipes@ =~= Seq::<Pipe>::empty());
    }

    /// Advances the world by one tick of `dt` milliseconds: see [`stepped`].
    /// `mid` is the midpoint of the pair spawned during the tick, if any.
    pub fn step(&mut self, input: Input, dt: u32, mid: i64)
        requires
            valid_midpoint(mid),
        ensures
            final(self)@ == stepped(old(self)@, input, dt, mid),
    {
        match self.state {
            GameState::Going => {
                let flap = self.flap_trigger.flaps(input);
                self.bird.update(flap, dt);
                if self.spawn_timer.tick(dt) {
                    spawn_pipes(&mut self.pipes, mid);
                }
                update_pipes(&mut self.pipes, dt);
                despawn_out_of_bounds_pipes(&mut self.pipes);
                let collided = detect_collisions(&self.bird, &self.pipes);
                let passed = update_checkpoints(self.bird.position.x, &mut self.pipes);
                self.score.increment(passed);
                self.state = self.state.next(input, collided);
            },
            GameState::Paused => {
                self.state = self.state.next(input, false);
            },
            _ => {
                if input.primary_just_pressed {
                    self.start_round();
                }
            },
        }
    }

    /// Advances the world by one tick of `dt` milliseconds, drawing the
    /// midpoint of a pair at random when one spawns.
    pub fn tick(&mut self, input: Input, dt: u32)
        ensures
            exists|mid: i64|
                valid_midpoint(mid) && final(self)@ == stepped(old(self)@, input, dt, mid),
    {
        let mid: i64 = if self.state.is_going() && self.spawn_timer.finishes_after(dt) {
            random_midpoint()
        } else {
            0
        };
        self.step(input, dt, mid);
        assert(valid_midpoint(mid) && self@ == stepped(old(self)@, input, dt, mid));
    }
}

/// The score only changes by growing, except when a new round starts.
pub proof fn lemma_score_never_decreases(w: WorldView, input: Input, dt: u32, mid: i64)
    requires
        !(w.state == GameState::Idle || w.state == GameState::GameOver)
            || !input.primary_just_pressed,
    ensures
        stepped(w, input, dt, mid).score.0 >= w.score.0,
{
}

/// Starting a round, from `Idle` or after a game over, leaves the score at
/// zero, no pipes, the spawn timer at zero elapsed time, and the bird at its
/// spawn position and at rest.
pub proof fn lemma_round_reset(w: WorldView, input: Input, dt: u32, mid: i64)
    requires
        w.state == GameState::Idle || w.state == GameState::GameOver,
        input.primary_just_pressed,
    ensures
        stepped(w, input, dt, mid).state == GameState::Going,
        stepped(w, input, dt, mid).score.0 == 0,
        stepped(w, input, dt, mid).pipes.len() == 0,
        stepped(w, input, dt, mid).spawn_timer.elapsed == 0,
        !stepped(w, input, dt, mid).spawn_timer.finished,
        stepped(w, input, dt, mid).bird == spawned_bird(),
{
}

} // verus!
