use floppy_burp::bird::{Bird, Velocity, SPAWN_X};
use floppy_burp::collision::Position;
use floppy_burp::pipe::{Pipe, PipeSpawnTimer};
use floppy_burp::score::Score;
use floppy_burp::state::{FlapTrigger, GameState, Input};
use floppy_burp::world::World;
use floppy_burp::{PIXEL, PIXEL_PER_SECOND};

const NOTHING: Input =
    Input { primary_pressed: false, primary_just_pressed: false, secondary_just_pressed: false };
const PRESS: Input =
    Input { primary_pressed: true, primary_just_pressed: true, secondary_just_pressed: false };
const HOLD: Input =
    Input { primary_pressed: true, primary_just_pressed: false, secondary_just_pressed: false };
const PAUSE: Input =
    Input { primary_pressed: false, primary_just_pressed: false, secondary_just_pressed: true };

fn going_world() -> World {
    let mut w = World::new(FlapTrigger::Held);
    w.step(PRESS, 16, 0);
    assert_eq!(w.state, GameState::Going);
    w
}

fn high_pipe(x: i64) -> Pipe {
    Pipe { position: Position { x, y: 150 * PIXEL }, upper: false, checkpoint: true }
}

#[test]
fn new_world_is_idle_and_empty() {
    let w = World::new(FlapTrigger::Held);
    assert_eq!(w.state, GameState::Idle);
    assert_eq!(w.bird, Bird::spawn());
    assert!(w.pipes.is_empty());
    assert_eq!(w.spawn_timer, PipeSpawnTimer::from_period(2000));
    assert_eq!(w.score, Score(0));
}

#[test]
fn idle_world_ignores_time_and_other_inputs() {
    let mut w = World::new(FlapTrigger::Held);
    w.step(NOTHING, 5000, 0);
    w.step(HOLD, 5000, 0);
    w.step(PAUSE, 5000, 0);
    assert_eq!(w.state, GameState::Idle);
    assert_eq!(w.bird, Bird::spawn());
    assert!(w.pipes.is_empty());
    assert_eq!(w.spawn_timer.elapsed, 0);
}

#[test]
fn primary_input_starts_the_round() {
    let mut w = World::new(FlapTrigger::Held);
    w.tick(PRESS, 16);
    assert_eq!(w.state, GameState::Going);
    assert_eq!(w.bird, Bird::spawn());
    assert!(w.pipes.is_empty());
}

#[test]
fn restart_after_game_over_resets_the_round() {
    let mut w = going_world();
    w.state = GameState::GameOver;
    w.score = Score(7);
    w.bird = Bird { position: Position { x: SPAWN_X, y: -100 * PIXEL }, velocity: Velocity(-5) };
    w.pipes = vec![high_pipe(0), high_pipe(50 * PIXEL)];
    w.spawn_timer.elapsed = 1234;
    w.spawn_timer.finished = true;
    w.step(NOTHING, 16, 0);
    assert_eq!(w.state, GameState::GameOver);
    assert_eq!(w.score, Score(7));
    w.step(PRESS, 16, 0);
    assert_eq!(w.state, GameState::Going);
    assert_eq!(w.score, Score(0));
    assert!(w.pipes.is_empty());
    assert_eq!(w.spawn_timer, PipeSpawnTimer { period: 2000, elapsed: 0, finished: false });
    assert_eq!(w.bird, Bird::spawn());
}

#[test]
fn pause_freezes_and_resume_keeps_the_round() {
    let mut w = going_world();
    w.pipes = vec![high_pipe(30 * PIXEL)];
    w.score = Score(2);
    w.step(NOTHING, 100, 0);
    w.step(PAUSE, 100, 0);
    assert_eq!(w.state, GameState::Paused);
    let bird = w.bird;
    let pipes = w.pipes.clone();
    let timer = w.spawn_timer;
    w.step(HOLD, 500, 0);
    w.step(PAUSE, 500, 0);
    assert_eq!(w.state, GameState::Paused);
    assert_eq!(w.bird, bird);
    assert_eq!(w.pipes, pipes);
    assert_eq!(w.spawn_timer, timer);
    w.step(PRESS, 500, 0);
    assert_eq!(w.state, GameState::Going);
    assert_eq!(w.bird, bird);
    assert_eq!(w.pipes, pipes);
    assert_eq!(w.score, Score(2));
}

#[test]
fn falling_to_the_ground_ends_the_round() {
    let mut w = going_world();
    let mut ticks = 0;
    while w.state == GameState::Going {
        w.step(NOTHING, 16, 0);
        ticks += 1;
        assert!(ticks < 1000);
    }
    assert_eq!(w.state, GameState::GameOver);
    // the game over state ignores further time
    let frozen = w.bird;
    w.step(HOLD, 16, 0);
    assert_eq!(w.bird, frozen);
}

#[test]
fn flying_into_a_pipe_ends_the_round() {
    let mut w = going_world();
    w.pipes = vec![Pipe {
        position: Position { x: SPAWN_X + 20 * PIXEL, y: 0 },
        upper: true,
        checkpoint: false,
    }];
    w.step(HOLD, 10, 0);
    assert_eq!(w.state, GameState::Going);
    w.step(HOLD, 50, 0);
    assert_eq!(w.state, GameState::GameOver);
}

#[test]
fn collision_wins_over_pause() {
    let mut w = going_world();
    w.bird.position.y = -119 * PIXEL;
    w.step(PAUSE, 100, 0);
    assert_eq!(w.state, GameState::GameOver);
}

#[test]
fn crossing_a_checkpoint_on_two_ticks_scores_once() {
    let mut w = going_world();
    w.pipes = vec![high_pipe(SPAWN_X + PIXEL / 2)];
    w.step(HOLD, 10, 0);
    assert_eq!(w.pipes[0].position.x, SPAWN_X - PIXEL / 2);
    assert_eq!(w.score, Score(1));
    assert!(!w.pipes[0].checkpoint);
    w.step(HOLD, 10, 0);
    assert_eq!(w.score, Score(1));
    assert_eq!(w.state, GameState::Going);
}

#[test]
fn spawn_timer_adds_a_pair_every_period() {
    let mut w = going_world();
    for _ in 0..199 {
        w.step(HOLD, 10, 0);
        w.bird.position.y = 0;
    }
    assert!(w.pipes.is_empty());
    w.step(HOLD, 10, 30 * PIXEL);
    w.bird.position.y = 0;
    assert_eq!(w.pipes.len(), 2);
    // spawned and scrolled within the same tick
    let x = Pipe::SPAWN_X - 1_000_000;
    assert_eq!(w.pipes[0].position, Position { x, y: 30 * PIXEL + Pipe::PAIR_OFFSET });
    assert_eq!(w.pipes[1].position, Position { x, y: 30 * PIXEL - Pipe::PAIR_OFFSET });
    assert!(w.pipes[1].checkpoint);
    assert_eq!(w.spawn_timer.elapsed, 0);
}

#[test]
fn held_flap_keeps_flapping() {
    let mut w = going_world();
    w.step(HOLD, 10, 0);
    assert_eq!(w.bird.velocity.0, 300 * PIXEL_PER_SECOND);
    w.step(HOLD, 10, 0);
    assert_eq!(w.bird.velocity.0, 300 * PIXEL_PER_SECOND);
    assert_eq!(w.bird.position.y, 6 * PIXEL);
}

#[test]
fn just_pressed_flap_flaps_once_per_press() {
    let mut w = World::new(FlapTrigger::JustPressed);
    w.step(PRESS, 10, 0);
    w.step(PRESS, 10, 0);
    assert_eq!(w.bird.velocity.0, 300 * PIXEL_PER_SECOND);
    w.step(HOLD, 10, 0);
    assert_eq!(w.bird.velocity.0, 300 * PIXEL_PER_SECOND - 18_000);
}
