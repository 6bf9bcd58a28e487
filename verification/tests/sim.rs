use gridgame::constants::MS_PER_UPDATE;
use gridgame::game_state::{GameState, Phase};
use gridgame::piece::Piece;
use gridgame::sim_loop::{SimLoop, linear_tween};

#[test]
fn frame_drains_whole_steps_and_keeps_the_remainder() {
    let mut sl = SimLoop::new();
    let mut g = GameState::new();
    let picked = sl.frame(&mut g, 40);
    assert_eq!(picked, 0);
    assert_eq!(sl.lag_ms, 8);
    assert_eq!(g.game_timer(), 2 * MS_PER_UPDATE);
    let _ = sl.frame(&mut g, 10);
    assert_eq!(sl.lag_ms, 2);
    assert_eq!(g.game_timer(), 3 * MS_PER_UPDATE);
}

#[test]
fn frame_with_too_little_time_runs_no_step() {
    let mut sl = SimLoop::new();
    let mut g = GameState::new();
    let picked = sl.frame(&mut g, 15);
    assert_eq!(picked, 0);
    assert_eq!(sl.lag_ms, 15);
    assert_eq!(g.game_timer(), 0);
}

#[test]
fn frame_resolves_an_overlap_within_its_first_step() {
    let mut sl = SimLoop::new();
    let mut g = GameState::new();
    g.enemies.push(Piece::new(50, 60)); // overlaps the player's box
    let picked = sl.frame(&mut g, 32);
    assert_eq!(picked, 0);
    assert_eq!(g.phase, Phase::PlayerLost);
    // The loss is stamped with the clock of the step that found it.
    assert_eq!(g.game_over_at_ms, Some(MS_PER_UPDATE));
    assert_eq!(g.game_timer(), 2 * MS_PER_UPDATE);
    assert_eq!(g.ms_since_dead(), MS_PER_UPDATE);
}

#[test]
fn frame_keeps_ticking_the_clock_after_a_loss() {
    let mut sl = SimLoop::new();
    let mut g = GameState::new();
    g.game_over();
    let picked = sl.frame(&mut g, 160);
    assert_eq!(picked, 0);
    assert_eq!(g.phase, Phase::PlayerLost);
    assert_eq!(g.score, 0);
    assert_eq!(g.game_timer(), 160);
    assert_eq!(g.ms_since_dead(), 160);
}

#[test]
fn tween_ramps_linearly_and_then_holds() {
    assert_eq!(linear_tween(0, 0, 190, 1000), 0);
    assert_eq!(linear_tween(500, 0, 190, 1000), 95);
    assert_eq!(linear_tween(999, 0, 190, 1000), 189);
    assert_eq!(linear_tween(1000, 0, 190, 1000), 190);
    assert_eq!(linear_tween(5000, 0, 190, 1000), 190);
}

#[test]
fn tween_clips_into_a_byte() {
    assert_eq!(linear_tween(999, 200, 255, 1000), 255);
    assert_eq!(linear_tween(10, 250, 100, 1000), 251);
}
