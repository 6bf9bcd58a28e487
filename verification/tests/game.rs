use gridgame::constants::{
    MIN_SPAWN_DIST, MS_PER_UPDATE, NUM_ENEMIES, NUM_TREASURES, PIECE_SIZE, PLAYAREA_X,
    PLAYAREA_Y, PLAYER_SPAWN_X, PLAYER_SPAWN_Y,
};
use gridgame::game_state::{Entity, GameState, Phase};
use gridgame::geom::{Vec2i, sqdist_exec};
use gridgame::piece::Piece;

#[test]
fn new_game_starts_fresh() {
    let g = GameState::new();
    assert_eq!(g.level, 1);
    assert_eq!(g.score, 0);
    assert_eq!(g.player.pos, Vec2i { x: PLAYER_SPAWN_X, y: PLAYER_SPAWN_Y });
    assert!(g.enemies.is_empty());
    assert!(g.treasures.is_empty());
    assert_eq!(g.phase, Phase::Playing);
    assert_eq!(g.game_timer(), 0);
    assert_eq!(g.ms_since_dead(), 0);
}

#[test]
fn entity_at_square_reports_player_enemy_treasure_nothing() {
    let mut g = GameState::new();
    g.enemies.push(Piece::new(200, 200));
    g.treasures.push(Piece::new(300, 300));
    assert_eq!(
        g.entity_at_square(Vec2i { x: PLAYER_SPAWN_X, y: PLAYER_SPAWN_Y }),
        Entity::Player
    );
    assert_eq!(g.entity_at_square(Vec2i { x: 200, y: 200 }), Entity::Enemy);
    assert_eq!(g.entity_at_square(Vec2i { x: 300, y: 300 }), Entity::Treasure);
    assert_eq!(g.entity_at_square(Vec2i { x: 201, y: 200 }), Entity::Nothing);
}

#[test]
fn moving_onto_an_enemy_square_loses_without_moving() {
    let mut g = GameState::new();
    g.enemies.push(Piece::new(PLAYER_SPAWN_X + 1, PLAYER_SPAWN_Y));
    let picked = g.move_player(Vec2i { x: 1, y: 0 });
    assert!(!picked);
    assert_eq!(g.phase, Phase::PlayerLost);
    assert_eq!(g.player.pos, Vec2i { x: PLAYER_SPAWN_X, y: PLAYER_SPAWN_Y });
    assert_eq!(g.score, 0);
    assert_eq!(g.enemies.len(), 1);
}

#[test]
fn moving_onto_a_treasure_square_scores_and_moves() {
    let mut g = GameState::new();
    g.treasures.push(Piece::new(PLAYER_SPAWN_X, PLAYER_SPAWN_Y + 100));
    let picked = g.move_player(Vec2i { x: 0, y: 100 });
    assert!(picked);
    assert_eq!(g.score, 1);
    assert!(g.treasures.is_empty());
    assert_eq!(g.player.pos, Vec2i { x: PLAYER_SPAWN_X, y: PLAYER_SPAWN_Y + 100 });
    assert_eq!(g.phase, Phase::Playing);
}

#[test]
fn stacked_treasures_are_picked_one_at_a_time() {
    let mut g = GameState::new();
    let spot = Vec2i { x: PLAYER_SPAWN_X + 50, y: PLAYER_SPAWN_Y };
    g.treasures.push(Piece::new(spot.x, spot.y));
    g.treasures.push(Piece::new(spot.x, spot.y));
    let picked = g.move_player(Vec2i { x: 50, y: 0 });
    assert!(picked);
    assert_eq!(g.score, 1);
    assert_eq!(g.treasures.len(), 1);
    assert_eq!(g.treasures[0].pos, spot);
}

#[test]
fn out_of_bounds_move_requests_are_silently_rejected() {
    let mut g = GameState::new();
    let picked = g.move_player(Vec2i { x: -1000, y: 0 });
    assert!(!picked);
    assert_eq!(g.player.pos, Vec2i { x: PLAYER_SPAWN_X, y: PLAYER_SPAWN_Y });
    assert_eq!(g.phase, Phase::Playing);
    assert_eq!(g.score, 0);
}

#[test]
fn collision_pass_scores_every_overlapping_treasure_once() {
    let mut g = GameState::new();
    // Both overlap the player's box without sharing its exact square.
    g.treasures.push(Piece::new(PLAYER_SPAWN_X + 40, PLAYER_SPAWN_Y + 10));
    g.treasures.push(Piece::new(PLAYER_SPAWN_X - 20, PLAYER_SPAWN_Y + 30));
    let picked = g.do_collision_detection();
    assert_eq!(picked, 2);
    assert_eq!(g.score, 2);
    assert!(g.treasures.is_empty());
    assert_eq!(g.phase, Phase::Playing);
}

#[test]
fn collision_pass_keeps_treasures_that_miss() {
    let mut g = GameState::new();
    g.treasures.push(Piece::new(600, 400));
    g.treasures.push(Piece::new(PLAYER_SPAWN_X + 30, PLAYER_SPAWN_Y));
    let picked = g.do_collision_detection();
    assert_eq!(picked, 1);
    assert_eq!(g.score, 1);
    assert_eq!(g.treasures.len(), 1);
    assert_eq!(g.treasures[0].pos, Vec2i { x: 600, y: 400 });
}

#[test]
fn collision_pass_with_an_overlapping_enemy_loses() {
    let mut g = GameState::new();
    g.enemies.push(Piece::new(PLAYER_SPAWN_X + 50, PLAYER_SPAWN_Y + 50));
    let picked = g.do_collision_detection();
    assert_eq!(picked, 0);
    assert_eq!(g.phase, Phase::PlayerLost);
    assert_eq!(g.enemies.len(), 1);
    assert_eq!(g.score, 0);
}

#[test]
fn update_resolves_collisions_after_integration() {
    let mut g = GameState::new();
    g.treasures.push(Piece::new(PLAYER_SPAWN_X + 40, PLAYER_SPAWN_Y + 10));
    g.treasures.push(Piece::new(600, 400));
    let picked = g.update();
    assert_eq!(picked, 1);
    assert_eq!(g.score, 1);
    assert_eq!(g.treasures.len(), 1);
    assert_eq!(g.game_timer(), MS_PER_UPDATE);
}

#[test]
fn update_integrates_the_player_velocity() {
    let mut g = GameState::new();
    g.player.vel = Vec2i { x: 2, y: -3 };
    g.update();
    assert_eq!(
        g.player.pos,
        Vec2i { x: PLAYER_SPAWN_X + 2, y: PLAYER_SPAWN_Y - 3 }
    );
}

#[test]
fn game_over_is_final_until_reset() {
    let mut g = GameState::new();
    g.enemies.push(Piece::new(500, 300));
    g.treasures.push(Piece::new(700, 100));
    g.score = 3;
    g.game_over();
    assert_eq!(g.phase, Phase::PlayerLost);
    let enemies_before: Vec<Vec2i> = g.enemies.iter().map(|e| e.pos).collect();
    let picked = g.update();
    assert_eq!(picked, 0);
    let _ = g.move_player(Vec2i { x: 1, y: 0 });
    g.move_enemies();
    assert_eq!(g.phase, Phase::PlayerLost);
    assert_eq!(g.score, 3);
    assert_eq!(g.treasures.len(), 1);
    assert_eq!(g.treasures[0].pos, Vec2i { x: 700, y: 100 });
    let enemies_after: Vec<Vec2i> = g.enemies.iter().map(|e| e.pos).collect();
    assert_eq!(enemies_before, enemies_after);
    assert_eq!(g.player.pos, Vec2i { x: PLAYER_SPAWN_X, y: PLAYER_SPAWN_Y });
    // Only the clock moved on, so the game-over fade can progress.
    assert_eq!(g.game_timer(), MS_PER_UPDATE);
    assert_eq!(g.ms_since_dead(), MS_PER_UPDATE);
}

#[test]
fn reset_restores_a_fresh_playing_state() {
    let mut g = GameState::new();
    g.enemies.push(Piece::new(500, 300));
    g.treasures.push(Piece::new(700, 100));
    g.score = 7;
    g.level = 9;
    g.player.vel = Vec2i { x: 2, y: 0 };
    for _ in 0..10 {
        g.update();
    }
    g.game_over();
    g.reset();
    assert_eq!(g.score, 0);
    assert_eq!(g.level, 1);
    assert!(g.enemies.is_empty());
    assert!(g.treasures.is_empty());
    assert_eq!(g.player.pos, Vec2i { x: PLAYER_SPAWN_X, y: PLAYER_SPAWN_Y });
    assert_eq!(g.player.vel, Vec2i { x: 0, y: 0 });
    assert_eq!(g.phase, Phase::Playing);
    assert_eq!(g.game_timer(), 0);
    assert_eq!(g.ms_since_dead(), 0);
    assert_eq!(g.last_moved_enemies, 0);
    assert_eq!(g.last_placed_treasure, 0);
    assert_eq!(g.last_enemy_spawn, 0);
}

#[test]
fn direction_onto_an_empty_square_is_committed() {
    let mut g = GameState::new();
    g.enemies.push(Piece::new(300, 300));
    g.apply_enemy_direction(0, Vec2i { x: 1, y: 0 });
    assert_eq!(g.enemies[0].vel, Vec2i { x: 1, y: 0 });
    assert_eq!(g.enemies[0].pos, Vec2i { x: 300, y: 300 });
    assert_eq!(g.phase, Phase::Playing);
}

#[test]
fn direction_onto_an_occupied_square_is_suppressed() {
    let mut g = GameState::new();
    g.enemies.push(Piece::new(300, 300));
    g.enemies.push(Piece::new(300, 301));
    g.treasures.push(Piece::new(299, 300));
    g.apply_enemy_direction(0, Vec2i { x: 0, y: 1 });
    assert_eq!(g.enemies[0].vel, Vec2i { x: 0, y: 0 });
    g.apply_enemy_direction(0, Vec2i { x: -1, y: 0 });
    assert_eq!(g.enemies[0].vel, Vec2i { x: 0, y: 0 });
    assert_eq!(g.phase, Phase::Playing);
}

#[test]
fn direction_onto_the_player_square_loses() {
    let mut g = GameState::new();
    g.enemies.push(Piece::new(PLAYER_SPAWN_X, PLAYER_SPAWN_Y + 1));
    g.apply_enemy_direction(0, Vec2i { x: 0, y: -1 });
    assert_eq!(g.phase, Phase::PlayerLost);
    assert_eq!(g.enemies[0].vel, Vec2i { x: 0, y: 0 });
    assert_eq!(g.ms_since_dead(), 0);
}

#[test]
fn update_integrates_enemy_velocities() {
    let mut g = GameState::new();
    let mut e = Piece::new(500, 300);
    e.vel = Vec2i { x: 1, y: -2 };
    g.enemies.push(e);
    g.update();
    assert_eq!(g.enemies[0].pos, Vec2i { x: 501, y: 298 });
    assert_eq!(g.enemies[0].vel, Vec2i { x: 1, y: -2 });
}

#[test]
fn update_reports_every_pickup_it_scores() {
    let mut g = GameState::new();
    g.treasures.push(Piece::new(PLAYER_SPAWN_X + 20, PLAYER_SPAWN_Y + 20));
    g.treasures.push(Piece::new(PLAYER_SPAWN_X - 10, PLAYER_SPAWN_Y));
    let picked = g.update();
    assert_eq!(picked, 2);
    assert_eq!(g.score, 2);
    assert!(g.treasures.is_empty());
}

#[test]
fn spawning_follows_the_throttles_and_caps() {
    let mut g = GameState::new();
    let mut steps: u64 = 0;
    // Run one second of simulated time: the enemy throttle first fires
    // at the first step past 1000 ms, the treasure throttle not yet.
    while (steps + 1) * MS_PER_UPDATE < 1000 {
        g.update();
        steps += 1;
        assert!(g.enemies.is_empty());
        assert!(g.treasures.is_empty());
    }
    while g.game_timer() < 1008 {
        g.update();
    }
    assert_eq!(g.enemies.len(), 1);
    assert!(g.treasures.is_empty());
    let enemy_spawn_pos = g.enemies[0].pos;
    assert!(enemy_spawn_pos.x >= 0 && enemy_spawn_pos.x + PIECE_SIZE <= PLAYAREA_X);
    assert!(enemy_spawn_pos.y >= 0 && enemy_spawn_pos.y + PIECE_SIZE <= PLAYAREA_Y);
    let player_spawn = Vec2i { x: PLAYER_SPAWN_X, y: PLAYER_SPAWN_Y };
    assert!(
        sqdist_exec(&enemy_spawn_pos, &player_spawn)
            > (MIN_SPAWN_DIST as i64) * (MIN_SPAWN_DIST as i64)
    );
    // At two seconds the first treasure appears; the second enemy is
    // still throttled (its interval restarted around 1008 ms).
    while g.game_timer() < 2000 {
        g.update();
        assert!(g.enemies.len() <= NUM_ENEMIES);
        assert!(g.treasures.len() <= NUM_TREASURES);
    }
    assert_eq!(g.enemies.len(), 1);
    assert_eq!(g.treasures.len(), 1);
    let treasure_pos = g.treasures[0].pos;
    assert!(
        sqdist_exec(&treasure_pos, &player_spawn)
            > (MIN_SPAWN_DIST as i64) * (MIN_SPAWN_DIST as i64)
    );
    // Much later both populations sit at their caps, never beyond.
    while g.game_timer() < 20_000 {
        g.update();
        assert!(g.enemies.len() <= NUM_ENEMIES);
        assert!(g.treasures.len() <= NUM_TREASURES);
        if g.phase == Phase::PlayerLost {
            return; // a roaming enemy may reach the idle player
        }
    }
    assert_eq!(g.enemies.len(), NUM_ENEMIES);
}
