use floppy_burp::checkpoint::update_checkpoints;
use floppy_burp::collision::Position;
use floppy_burp::pipe::{
    despawn_out_of_bounds_pipes, random_midpoint, spawn_pipes, spawn_pipes_randomly,
    update_pipes, Pipe, PipeSpawnTimer,
};
use floppy_burp::score::Score;
use floppy_burp::PIXEL;

fn pipe_at(x: i64, checkpoint: bool) -> Pipe {
    Pipe { position: Position { x, y: 0 }, upper: !checkpoint, checkpoint }
}

#[test]
fn pipe_scrolls_left_at_game_speed() {
    let mut pipes = vec![pipe_at(100 * PIXEL, true)];
    update_pipes(&mut pipes, 200);
    assert_eq!(pipes[0].position.x, 80 * PIXEL);
    assert_eq!(pipes[0].position.y, 0);
    assert!(pipes[0].checkpoint);
}

#[test]
fn pipe_is_removed_once_past_the_left_edge() {
    let threshold = -(90 * PIXEL + 17 * PIXEL);
    assert_eq!(Pipe::DESPAWN_X, threshold);
    let mut pipes = vec![
        pipe_at(threshold + 1, true),
        pipe_at(threshold, false),
        pipe_at(threshold - 5 * PIXEL, true),
        pipe_at(0, false),
    ];
    despawn_out_of_bounds_pipes(&mut pipes);
    assert_eq!(pipes, vec![pipe_at(threshold + 1, true), pipe_at(0, false)]);
    // moving by one more micropixel takes the first one out too
    update_pipes(&mut pipes, 0);
    assert_eq!(pipes.len(), 2);
    pipes[0].position.x -= 1;
    despawn_out_of_bounds_pipes(&mut pipes);
    assert_eq!(pipes, vec![pipe_at(0, false)]);
}

#[test]
fn moving_and_despawning_nothing_is_harmless() {
    let mut pipes: Vec<Pipe> = Vec::new();
    update_pipes(&mut pipes, 1000);
    despawn_out_of_bounds_pipes(&mut pipes);
    assert_eq!(update_checkpoints(0, &mut pipes), 0);
    assert!(pipes.is_empty());
}

#[test]
fn pair_spawns_around_midpoint_with_checkpoint_below() {
    let mut pipes = Vec::new();
    spawn_pipes(&mut pipes, 20 * PIXEL);
    assert_eq!(pipes.len(), 2);
    let spawn_x = 107 * PIXEL;
    assert_eq!(
        pipes[0],
        Pipe {
            position: Position { x: spawn_x, y: 20 * PIXEL + 88_500_000 },
            upper: true,
            checkpoint: false,
        }
    );
    assert_eq!(
        pipes[1],
        Pipe {
            position: Position { x: spawn_x, y: 20 * PIXEL - 88_500_000 },
            upper: false,
            checkpoint: true,
        }
    );
    // the gap between the pair is the vertical gap
    let gap = (pipes[0].position.y - Pipe::HALF_HEIGHT as i64)
        - (pipes[1].position.y + Pipe::HALF_HEIGHT as i64);
    assert_eq!(gap, Pipe::VERTICAL_GAP);
}

#[test]
fn random_midpoints_stay_in_the_band() {
    for _ in 0..1000 {
        let mid = random_midpoint();
        assert!(-50 * PIXEL <= mid && mid <= 50 * PIXEL);
    }
    let mut pipes = vec![pipe_at(0, false)];
    spawn_pipes_randomly(&mut pipes);
    assert_eq!(pipes.len(), 3);
    assert_eq!(pipes[1].position.x, Pipe::SPAWN_X);
    assert_eq!(pipes[1].position.y - pipes[2].position.y, 2 * Pipe::PAIR_OFFSET);
    assert!(pipes[2].checkpoint && !pipes[1].checkpoint);
}

#[test]
fn timer_finishes_once_per_period() {
    let mut t = PipeSpawnTimer::from_period(2000);
    let mut finished = 0;
    for _ in 0..10 {
        if t.tick(500) {
            finished += 1;
        }
    }
    // 5000 ms: two whole periods, 1000 ms left over
    assert_eq!(finished, 2);
    assert_eq!(t.elapsed, 1000);
    assert!(!t.finished);
    assert!(!t.tick(999));
    assert!(t.tick(1));
    assert_eq!(t.elapsed, 0);
    assert!(t.finished);
}

#[test]
fn timer_overshoot_reports_once_and_keeps_remainder() {
    let mut t = PipeSpawnTimer::from_period(2000);
    assert!(t.finishes_after(4500));
    assert!(t.tick(4500));
    assert_eq!(t.elapsed, 500);
    assert!(!t.finishes_after(1499));
    assert!(!t.tick(1499));
    assert_eq!(t.elapsed, 1999);
}

#[test]
fn timer_reset_goes_back_to_zero() {
    let mut t = PipeSpawnTimer::from_period(2000);
    t.tick(2000);
    t.tick(700);
    t.reset();
    assert_eq!(t, PipeSpawnTimer { period: 2000, elapsed: 0, finished: false });
}

#[test]
fn zero_period_timer_finishes_every_tick() {
    let mut t = PipeSpawnTimer::from_period(0);
    assert!(t.tick(0));
    assert!(t.tick(17));
    assert_eq!(t.elapsed, 0);
}

#[test]
fn checkpoint_fires_once_over_two_passes() {
    let mut pipes = vec![pipe_at(-46 * PIXEL, true), pipe_at(-46 * PIXEL, false), pipe_at(0, true)];
    let bird_x = -45 * PIXEL;
    assert_eq!(update_checkpoints(bird_x, &mut pipes), 1);
    assert!(!pipes[0].checkpoint);
    assert!(pipes[2].checkpoint);
    update_pipes(&mut pipes, 10);
    assert_eq!(update_checkpoints(bird_x, &mut pipes), 0);
    // the bird at the same place as the checkpoint has not passed it
    assert_eq!(pipes[2].position.x, -PIXEL);
    assert_eq!(update_checkpoints(-PIXEL, &mut pipes), 0);
    assert_eq!(update_checkpoints(-PIXEL + 1, &mut pipes), 1);
    assert_eq!(update_checkpoints(i64::MAX, &mut pipes), 0);
}

#[test]
fn score_counts_and_saturates() {
    let mut s = Score::new();
    s.increment(0);
    assert_eq!(s.value(), 0);
    s.increment(3);
    assert_eq!(s.value(), 3);
    let mut high = Score(u32::MAX - 1);
    high.increment(5);
    assert_eq!(high.value(), u32::MAX);
    high.increment(1);
    assert_eq!(high.value(), u32::MAX);
    high.reset();
    assert_eq!(high, Score(0));
}
