use std::collections::VecDeque;

use flappy_bird::geom::PipePair;
use flappy_bird::sim::GameSim;
use flappy_bird::sim::GameState;
use flappy_bird::GAP_CENTER_MAX;
use flappy_bird::GAP_CENTER_MIN;
use flappy_bird::GRAVITY;
use flappy_bird::JUMP_VELOCITY;
use flappy_bird::PIPE_SPEED;
use flappy_bird::SCREEN_HEIGHT;
use flappy_bird::SCREEN_WIDTH;
use flappy_bird::SPAWN_DISTANCE;

fn playing_state(pipes: Vec<PipePair>) -> GameSim {
    GameSim {
        game_state: GameState::Playing,
        player_pos: SCREEN_HEIGHT / 2,
        player_vel: 0,
        pipes: VecDeque::from(pipes),
        score: 0,
        passed_pipe: false,
    }
}

#[test]
fn initial_state_fields() {
    let s = GameSim::new();
    assert_eq!(s.game_state, GameState::Playing);
    assert_eq!(s.player_pos, SCREEN_HEIGHT / 2);
    assert_eq!(s.player_vel, 0);
    assert!(s.pipes.is_empty());
    assert_eq!(s.score, 0);
    assert!(!s.passed_pipe);
}

#[test]
fn falls_until_game_over_and_then_freezes() {
    // Scenario: no jumps ever.  The position strictly increases tick by tick
    // until it leaves the screen, the state flips to GameOver, and nothing
    // moves afterwards.
    let mut s = GameSim::new();
    let mut prev = s.player_pos;
    let mut ticks = 0;
    while matches!(s.game_state, GameState::Playing) {
        s.advance_with_gap(false, 3000);
        assert!(s.player_pos > prev, "position must strictly increase while falling");
        prev = s.player_pos;
        ticks += 1;
        assert!(ticks < 1000, "the fall must end");
    }
    assert!(s.player_pos > SCREEN_HEIGHT);
    let frozen_pos = s.player_pos;
    let frozen_score = s.score;
    for _ in 0..5 {
        s.advance_with_gap(false, 3000);
        assert_eq!(s.player_pos, frozen_pos);
        assert_eq!(s.score, frozen_score);
        assert_eq!(s.game_state, GameState::GameOver);
    }
}

#[test]
fn jump_overwrites_velocity_after_gravity() {
    // Scenario: one jump from the start state.  Gravity is applied first (the
    // position still moves down by one gravity step), then the jump impulse
    // overwrites the velocity exactly.
    let mut s = GameSim::new();
    let start = s.player_pos;
    s.advance_with_gap(true, 3000);
    assert_eq!(s.player_vel, JUMP_VELOCITY);
    assert_eq!(s.player_pos, start + GRAVITY);
    // The next tick moves by the jump velocity with gravity re-applied.
    let before = s.player_pos;
    s.advance_with_gap(false, 3000);
    assert_eq!(s.player_vel, JUMP_VELOCITY + GRAVITY);
    assert_eq!(s.player_pos, before + JUMP_VELOCITY + GRAVITY);
}

#[test]
fn overlapping_front_pair_ends_the_round() {
    // Scenario: the front pair is placed so that, after this tick's move, it
    // overlaps the player's square.  The very next tick must end the round.
    let mut s = playing_state(vec![PipePair { x: 2020, gap_center: GAP_CENTER_MIN }]);
    s.advance_with_gap(false, 3000);
    assert_eq!(s.game_state, GameState::GameOver);
}

#[test]
fn jump_in_game_over_resets_everything() {
    // Scenario: from GameOver, a jump request restores every field.
    let mut s = GameSim {
        game_state: GameState::GameOver,
        player_pos: 7777,
        player_vel: 444,
        pipes: VecDeque::from(vec![PipePair { x: 2400, gap_center: 2000 }]),
        score: 9,
        passed_pipe: true,
    };
    s.advance_with_gap(true, 3000);
    assert_eq!(s.game_state, GameState::Playing);
    assert_eq!(s.player_pos, SCREEN_HEIGHT / 2);
    assert_eq!(s.player_vel, 0);
    assert!(s.pipes.is_empty());
    assert_eq!(s.score, 0);
    assert!(!s.passed_pipe);
}

#[test]
fn replayed_inputs_reproduce_the_trajectory() {
    // Determinism: two simulations fed the same inputs agree exactly.
    let inputs = [false, false, true, false, true, true, false, false, false, true];
    let mut a = GameSim::new();
    let mut b = GameSim::new();
    for (i, &jump) in inputs.iter().enumerate() {
        let gap = GAP_CENTER_MIN + (i as i32 * 700) % (GAP_CENTER_MAX - GAP_CENTER_MIN);
        a.advance_with_gap(jump, gap);
        b.advance_with_gap(jump, gap);
        assert_eq!(a, b);
    }
}

#[test]
fn front_pair_scores_exactly_once() {
    // Scoring idempotence: the pair scores on the tick it crosses the
    // player's horizontal position and never again while it stays in front.
    // The player hovers inside the pair's gap by jumping near its lower edge.
    let mut s = playing_state(vec![PipePair { x: 2020, gap_center: 3000 }]);
    s.advance_with_gap(false, 4500);
    // Front pair now at x == 2000: not yet past the player's centre.
    assert_eq!(s.score, 0);
    assert!(!s.passed_pipe);
    s.advance_with_gap(false, 4500);
    // Front pair at x == 1980: crossed, scored, flagged.
    assert_eq!(s.score, 1);
    assert!(s.passed_pipe);
    let mut front_retired = false;
    for _ in 0..200 {
        let jump = s.player_pos >= 3400;
        s.advance_with_gap(jump, 4500);
        assert_eq!(s.game_state, GameState::Playing);
        assert_eq!(s.score, 1, "a pair must score at most once");
        if s.pipes[0].gap_center == 4500 {
            // The scored pair has left the screen; its flag went with it.
            front_retired = true;
            assert!(!s.passed_pipe);
            break;
        }
        assert!(s.passed_pipe);
    }
    assert!(front_retired);
}

#[test]
fn pairs_are_dequeued_in_spawn_order() {
    // Queue monotonicity: the front pair retires first; the pair spawned
    // after it becomes the new front; the scored flag clears on the pop.
    let mut s = playing_state(vec![
        PipePair { x: -580, gap_center: 4000 },
        PipePair { x: SCREEN_WIDTH, gap_center: 4500 },
    ]);
    s.passed_pipe = true;
    s.advance_with_gap(false, 3000);
    // Front moved to -600: still on the retirement line, still queued.
    assert_eq!(s.pipes.len(), 2);
    assert_eq!(s.pipes[0].gap_center, 4000);
    s.advance_with_gap(false, 3000);
    // Front moved past the line: dequeued, flag cleared, newer pair in front.
    assert_eq!(s.pipes.len(), 1);
    assert_eq!(s.pipes[0].gap_center, 4500);
    assert!(!s.passed_pipe);
}

#[test]
fn spawn_spacing_is_exact() {
    // Spawn spacing: the newest pair triggers the next spawn on the first
    // tick strictly past the threshold, so the gap between the two pairs'
    // positions is the spawn distance plus one tick's movement.
    let mut s = playing_state(vec![PipePair {
        x: SCREEN_WIDTH - SPAWN_DISTANCE,
        gap_center: 3000,
    }]);
    s.advance_with_gap(false, 2000);
    assert_eq!(s.pipes.len(), 2);
    assert_eq!(s.pipes[0].x, SCREEN_WIDTH - SPAWN_DISTANCE - PIPE_SPEED);
    assert_eq!(s.pipes[1].x, SCREEN_WIDTH);
    assert_eq!(s.pipes[1].x - s.pipes[0].x, SPAWN_DISTANCE + PIPE_SPEED);
    assert_eq!(s.pipes[1].gap_center, 2000);
}

#[test]
fn first_pair_spawns_on_an_empty_queue() {
    let mut s = GameSim::new();
    s.advance_with_gap(false, 1234);
    assert_eq!(s.pipes.len(), 1);
    assert_eq!(s.pipes[0].x, SCREEN_WIDTH);
    assert_eq!(s.pipes[0].gap_center, 1234);
    // No second pair is due while the first has not scrolled far enough.
    s.advance_with_gap(false, 4321);
    assert_eq!(s.pipes.len(), 1);
}

#[test]
fn sampled_gap_centers_stay_in_the_band() {
    // Drives the random-gap path: every spawned pair must take its gap centre
    // from the half-open spawnable band.
    for _ in 0..40 {
        let mut s = GameSim::new();
        s.advance(false);
        assert_eq!(s.pipes.len(), 1);
        let gap = s.pipes[0].gap_center;
        assert!((GAP_CENTER_MIN..GAP_CENTER_MAX).contains(&gap));
    }
}

#[test]
fn jump_key_while_playing_sets_the_impulse() {
    let mut s = GameSim::new();
    s.on_jump_pressed();
    assert_eq!(s.game_state, GameState::Playing);
    assert_eq!(s.player_vel, JUMP_VELOCITY);
    assert_eq!(s.player_pos, SCREEN_HEIGHT / 2);
}

#[test]
fn jump_key_after_game_over_resets() {
    let mut s = GameSim::new();
    s.player_pos = 2;
    s.game_state = GameState::GameOver;
    s.score = 3;
    s.on_jump_pressed();
    assert_eq!(s.game_state, GameState::Playing);
    assert_eq!(s.score, 0);
    assert_eq!(s.player_pos, SCREEN_HEIGHT / 2);
}
