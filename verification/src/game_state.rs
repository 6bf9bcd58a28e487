//! The game state: the player, the enemy and treasure populations, the
//! score and level counters, the phase machine, and the simulated
//! clock with its spawn/move throttles.
//!
//! All times are milliseconds of simulated time, advanced only by
//! [`GameState::update`]; there is no hidden global timer. Randomness
//! enters only through spawn locations and enemy directions.

use vstd::prelude::*;
use crate::constants::{
    PLAYAREA_X, PLAYAREA_Y, PIECE_SIZE, NUM_ENEMIES, NUM_TREASURES, MS_PER_UPDATE,
    ENEMY_MOVE_INTERVAL_MS, TREASURE_SPAWN_INTERVAL_MS, ENEMY_SPAWN_INTERVAL_MS,
    MIN_SPAWN_DIST, SPAWN_TRIES, PLAYER_SPAWN_X, PLAYER_SPAWN_Y,
};
use crate::geom::{Vec2i, Aabb, overlaps, overlaps_exec, sqdist, sqdist_exec};
use crate::piece::Piece;
use crate::rng::random_below;
use crate::spatial::{query_overlaps, contains_idx};

verus! {

/// The coarse game phase, gating which update and input logic runs.
#[derive(Clone, Copy, PartialEq, Eq, Structural, Debug)]
pub enum Phase {
    Playing,
    PlayerLost,
}

/// What occupies a given square, as reported by
/// [`GameState::entity_at_square`].
#[derive(Clone, Copy, PartialEq, Eq, Structural, Debug)]
pub enum Entity {
    Player,
    Enemy,
    Treasure,
    Nothing,
}

#[derive(Debug)]
pub struct GameState {
    pub level: u32,
    pub score: u32,
    pub player: Piece,
    pub enemies: Vec<Piece>,
    pub treasures: Vec<Piece>,
    pub phase: Phase,
    /// Simulated milliseconds since the game (or the last reset) started.
    pub elapsed_ms: u64,
    /// The simulated time at which the player lost, while `phase` is
    /// `PlayerLost`.
    pub game_over_at_ms: Option<u64>,
    /// Throttle timestamp: when the enemies' directions were last re-rolled.
    pub last_moved_enemies: u64,
    /// Throttle timestamp: when a treasure was last spawned.
    pub last_placed_treasure: u64,
    /// Throttle timestamp: when an enemy was last spawned.
    pub last_enemy_spawn: u64,
}

impl GameState {
    /// Every piece sits inside the playfield at the standard size, the
    /// populations respect their caps, the phase agrees with the
    /// game-over timestamp, and no throttle timestamp lies in the
    /// future.
    pub open spec fn wf(self) -> bool {
        &&& self.player.wf()
        &&& self.player.size == (Vec2i { x: PIECE_SIZE, y: PIECE_SIZE })
        &&& forall|i: int| 0 <= i < self.enemies@.len()
            ==> (#[trigger] self.enemies@[i]).wf()
                && self.enemies@[i].size == (Vec2i { x: PIECE_SIZE, y: PIECE_SIZE })
        &&& forall|i: int| 0 <= i < self.treasures@.len()
            ==> (#[trigger] self.treasures@[i]).wf()
                && self.treasures@[i].size == (Vec2i { x: PIECE_SIZE, y: PIECE_SIZE })
        &&& self.enemies@.len() <= NUM_ENEMIES
        &&& self.treasures@.len() <= NUM_TREASURES
        &&& (self.phase is PlayerLost <==> self.game_over_at_ms is Some)
        &&& (self.game_over_at_ms matches Some(t) ==> t <= self.elapsed_ms)
        &&& self.last_moved_enemies <= self.elapsed_ms
        &&& self.last_placed_treasure <= self.elapsed_ms
        &&& self.last_enemy_spawn <= self.elapsed_ms
    }

    /// The box the player currently occupies.
    pub open spec fn player_box(self) -> Aabb {
        self.player.spec_bounding_box()
    }

    /// Whether some enemy's box overlaps the player's.
    pub open spec fn enemy_overlaps_player(self) -> bool {
        exists|i: int| 0 <= i < self.enemies@.len()
            && overlaps(self.player_box(), self.enemies@[i].spec_bounding_box())
    }

    /// What occupies the exact square `(x, y)`: the player first, then
    /// enemies, then treasures.
    pub open spec fn spec_entity_at(self, x: int, y: int) -> Entity {
        if self.player.pos.x == x && self.player.pos.y == y {
            Entity::Player
        } else if exists|i: int| 0 <= i < self.enemies@.len()
            && (#[trigger] self.enemies@[i]).pos.x == x && self.enemies@[i].pos.y == y {
            Entity::Enemy
        } else if exists|i: int| 0 <= i < self.treasures@.len()
            && (#[trigger] self.treasures@[i]).pos.x == x && self.treasures@[i].pos.y == y {
            Entity::Treasure
        } else {
            Entity::Nothing
        }
    }

    /// A fresh game: playing, empty field, player at its spawn point,
    /// clock and throttles at zero.
    pub fn new() -> (s: GameState)
        ensures
            s.wf(),
            s.level == 1,
            s.score == 0,
            s.player.pos == (Vec2i { x: PLAYER_SPAWN_X, y: PLAYER_SPAWN_Y }),
            s.player.vel == (Vec2i { x: 0, y: 0 }),
            s.player.size == (Vec2i { x: PIECE_SIZE, y: PIECE_SIZE }),
            s.enemies@.len() == 0,
            s.treasures@.len() == 0,
            s.phase == Phase::Playing,
            s.elapsed_ms == 0,
            s.game_over_at_ms is None,
            s.last_moved_enemies == 0,
            s.last_placed_treasure == 0,
            s.last_enemy_spawn == 0,
    {
        GameState {
            level: 1,
            score: 0,
            player: Piece::new(PLAYER_SPAWN_X, PLAYER_SPAWN_Y),
            enemies: Vec::new(),
            treasures: Vec::new(),
            phase: Phase::Playing,
            elapsed_ms: 0,
            game_over_at_ms: None,
            last_moved_enemies: 0,
            last_placed_treasure: 0,
            last_enemy_spawn: 0,
        }
    }

    /// Enter the `PlayerLost` phase, remembering when the player died.
    pub fn game_over(&mut self)
        requires
            old(self).wf(),
        ensures
            final(self).wf(),
            final(self).phase == Phase::PlayerLost,
            final(self).game_over_at_ms == Some(old(self).elapsed_ms),
            final(self).level == old(self).level,
            final(self).score == old(self).score,
            final(self).player == old(self).player,
            final(self).enemies == old(self).enemies,
            final(self).treasures == old(self).treasures,
            final(self).elapsed_ms == old(self).elapsed_ms,
            final(self).last_moved_enemies == old(self).last_moved_enemies,
            final(self).last_placed_treasure == old(self).last_placed_treasure,
            final(self).last_enemy_spawn == old(self).last_enemy_spawn,
    {
        self.phase = Phase::PlayerLost;
        self.game_over_at_ms = Some(self.elapsed_ms);
    }

    /// Simulated milliseconds since the player lost; zero while playing.
    pub fn ms_since_dead(&self) -> (t: u64)
        requires
            self.wf(),
        ensures
            self.game_over_at_ms matches Some(d) ==> t == self.elapsed_ms - d,
            self.game_over_at_ms is None ==> t == 0,
    {
        match self.game_over_at_ms {
            Some(d) => self.elapsed_ms - d,
            None => 0,
        }
    }

    /// The simulated clock, in milliseconds since the game started.
    pub fn game_timer(&self) -> (t: u64)
        ensures
            t == self.elapsed_ms,
    {
        self.elapsed_ms
    }

    /// Return to a fresh playing state: field cleared, counters and
    /// clocks restarted, player back at its spawn point and standing
    /// still.
    pub fn reset(&mut self)
        requires
            old(self).wf(),
        ensures
            final(self).wf(),
            final(self).level == 1,
            final(self).score == 0,
            final(self).player.pos == (Vec2i { x: PLAYER_SPAWN_X, y: PLAYER_SPAWN_Y }),
            final(self).player.vel == (Vec2i { x: 0, y: 0 }),
            final(self).player.size == old(self).player.size,
            final(self).enemies@.len() == 0,
            final(self).treasures@.len() == 0,
            final(self).phase == Phase::Playing,
            final(self).elapsed_ms == 0,
            final(self).game_over_at_ms is None,
            final(self).last_moved_enemies == 0,
            final(self).last_placed_treasure == 0,
            final(self).last_enemy_spawn == 0,
    {
        self.enemies.clear();
        self.treasures.clear();
        self.score = 0;
        self.level = 1;
        self.player.pos = Vec2i { x: PLAYER_SPAWN_X, y: PLAYER_SPAWN_Y };
        self.player.vel = Vec2i { x: 0, y: 0 };
        self.phase = Phase::Playing;
        self.elapsed_ms = 0;
        self.game_over_at_ms = None;
        self.last_placed_treasure = 0;
        self.last_moved_enemies = 0;
        self.last_enemy_spawn = 0;
    }

    /// What occupies the exact square `pos`, exact against
    /// [`GameState::spec_entity_at`].
    pub fn entity_at_square(&self, pos: Vec2i) -> (e: Entity)
        ensures
            e == self.spec_entity_at(pos.x as int, pos.y as int),
    {
        if self.player.pos.x == pos.x && self.player.pos.y == pos.y {
            return Entity::Player;
        }
        let ne = self.enemies.len();
        for i in 0..ne
            invariant
                ne == self.enemies@.len(),
                !(self.player.pos.x == pos.x && self.player.pos.y == pos.y),
                forall|j: int| 0 <= j < i
                    ==> !((#[trigger] self.enemies@[j]).pos.x == pos.x
                        && self.enemies@[j].pos.y == pos.y),
        {
            if self.enemies[i].pos.x == pos.x && self.enemies[i].pos.y == pos.y {
                assert(self.enemies@[i as int].pos.x == pos.x as int
                    && self.enemies@[i as int].pos.y == pos.y as int);
                return Entity::Enemy;
            }
        }
        let nt = self.treasures.len();
        for i in 0..nt
            invariant
                nt == self.treasures@.len(),
                !(self.player.pos.x == pos.x && self.player.pos.y == pos.y),
                forall|j: int| 0 <= j < self.enemies@.len()
                    ==> !((#[trigger] self.enemies@[j]).pos.x == pos.x
                        && self.enemies@[j].pos.y == pos.y),
                forall|j: int| 0 <= j < i
                    ==> !((#[trigger] self.treasures@[j]).pos.x == pos.x
                        && self.treasures@[j].pos.y == pos.y),
        {
            if self.treasures[i].pos.x == pos.x && self.treasures[i].pos.y == pos.y {
                assert(self.treasures@[i as int].pos.x == pos.x as int
                    && self.treasures@[i as int].pos.y == pos.y as int);
                return Entity::Treasure;
            }
        }
        Entity::Nothing
    }

    /// What occupies the square `(tx, ty)` given in 64-bit coordinates,
    /// so a caller may ask about targets that lie outside the
    /// playfield: nothing well-formed stands there.
    fn entity_at_target(&self, tx: i64, ty: i64) -> (e: Entity)
        requires
            self.wf(),
        ensures
            e == self.spec_entity_at(tx as int, ty as int),
    {
        if 0 <= tx && tx <= PLAYAREA_X as i64 && 0 <= ty && ty <= PLAYAREA_Y as i64 {
            self.entity_at_square(Vec2i { x: tx as i32, y: ty as i32 })
        } else {
            proof {
                assert forall|i: int| 0 <= i < self.enemies@.len()
                    implies !((#[trigger] self.enemies@[i]).pos.x == tx as int
                        && self.enemies@[i].pos.y == ty as int) by {
                    assert(self.enemies@[i].wf());
                }
                assert forall|i: int| 0 <= i < self.treasures@.len()
                    implies !((#[trigger] self.treasures@[i]).pos.x == tx as int
                        && self.treasures@[i].pos.y == ty as int) by {
                    assert(self.treasures@[i].wf());
                }
            }
            Entity::Nothing
        }
    }

    /// The index of the first treasure standing exactly at `t`.
    fn first_treasure_index(&self, t: Vec2i) -> (r: usize)
        requires
            exists|i: int| 0 <= i < self.treasures@.len()
                && (#[trigger] self.treasures@[i]).pos.x == t.x
                && self.treasures@[i].pos.y == t.y,
        ensures
            r < self.treasures@.len(),
            self.treasures@[r as int].pos.x == t.x,
            self.treasures@[r as int].pos.y == t.y,
            forall|k: int| 0 <= k < r
                ==> !((#[trigger] self.treasures@[k]).pos.x == t.x
                    && self.treasures@[k].pos.y == t.y),
    {
        let nt = self.treasures.len();
        for i in 0..nt
            invariant
                nt == self.treasures@.len(),
                exists|j: int| 0 <= j < self.treasures@.len()
                    && (#[trigger] self.treasures@[j]).pos.x == t.x
                    && self.treasures@[j].pos.y == t.y,
                forall|k: int| 0 <= k < i
                    ==> !((#[trigger] self.treasures@[k]).pos.x == t.x
                        && self.treasures@[k].pos.y == t.y),
        {
            if self.treasures[i].pos.x == t.x && self.treasures[i].pos.y == t.y {
                return i;
            }
        }
        proof {
            let j = choose|j: int| 0 <= j < self.treasures@.len()
                && (#[trigger] self.treasures@[j]).pos.x == t.x
                && self.treasures@[j].pos.y == t.y;
            assert(false);
        }
        0
    }

    /// Handle a discrete move request for the player, only heeded while
    /// playing. Stepping onto an enemy's square loses the game and
    /// leaves the player where it was; stepping onto a treasure's
    /// square scores it, removes that one treasure, and moves; any
    /// other in-bounds move is applied, and an out-of-bounds move is
    /// silently rejected. Returns whether a treasure was picked up, so
    /// the caller can play the pickup sound.
    pub fn move_player(&mut self, chg: Vec2i) -> (picked: bool)
        requires
            old(self).wf(),
            old(self).score < u32::MAX,
        ensures
            final(self).wf(),
            old(self).phase != Phase::Playing ==> *final(self) == *old(self) && !picked,
            old(self).phase == Phase::Playing ==> ({
                let tx = old(self).player.pos.x + chg.x;
                let ty = old(self).player.pos.y + chg.y;
                let ent = old(self).spec_entity_at(tx, ty);
                &&& final(self).level == old(self).level
                &&& final(self).elapsed_ms == old(self).elapsed_ms
                &&& final(self).last_moved_enemies == old(self).last_moved_enemies
                &&& final(self).last_placed_treasure == old(self).last_placed_treasure
                &&& final(self).last_enemy_spawn == old(self).last_enemy_spawn
                &&& final(self).enemies == old(self).enemies
                &&& picked == (ent == Entity::Treasure)
                &&& (ent == Entity::Enemy ==> {
                    &&& final(self).phase == Phase::PlayerLost
                    &&& final(self).game_over_at_ms == Some(old(self).elapsed_ms)
                    &&& final(self).player == old(self).player
                    &&& final(self).score == old(self).score
                    &&& final(self).treasures == old(self).treasures
                })
                &&& (ent != Entity::Enemy ==> {
                    &&& final(self).phase == old(self).phase
                    &&& final(self).game_over_at_ms == old(self).game_over_at_ms
                    &&& final(self).player.vel == old(self).player.vel
                    &&& final(self).player.size == old(self).player.size
                    &&& (old(self).player.move_allowed(chg)
                        ==> final(self).player.pos.x == tx && final(self).player.pos.y == ty)
                    &&& (!old(self).player.move_allowed(chg)
                        ==> final(self).player.pos == old(self).player.pos)
                })
                &&& (ent == Entity::Treasure ==> {
                    &&& final(self).score == old(self).score + 1
                    &&& exists|j: int| 0 <= j < old(self).treasures@.len()
                        && (#[trigger] old(self).treasures@[j]).pos.x == tx
                        && old(self).treasures@[j].pos.y == ty
                        && (forall|k: int| 0 <= k < j
                            ==> !((#[trigger] old(self).treasures@[k]).pos.x == tx
                                && old(self).treasures@[k].pos.y == ty))
                        && final(self).treasures@ == old(self).treasures@.remove(j)
                })
                &&& (ent != Entity::Treasure && ent != Entity::Enemy ==> {
                    &&& final(self).score == old(self).score
                    &&& final(self).treasures == old(self).treasures
                })
            }),
    {
        if self.phase != Phase::Playing {
            return false;
        }
        let tx: i64 = self.player.pos.x as i64 + chg.x as i64;
        let ty: i64 = self.player.pos.y as i64 + chg.y as i64;
        match self.entity_at_target(tx, ty) {
            Entity::Enemy => {
                self.game_over();
                false
            }
            Entity::Treasure => {
                proof {
                    let j = choose|j: int| 0 <= j < self.treasures@.len()
                        && (#[trigger] self.treasures@[j]).pos.x == tx as int
                        && self.treasures@[j].pos.y == ty as int;
                    assert(self.treasures@[j].wf());
                }
                let t = Vec2i { x: tx as i32, y: ty as i32 };
                let j = self.first_treasure_index(t);
                self.score = self.score + 1;
                self.treasures.remove(j);
                self.player.move_by(chg);
                true
            }
            _ => {
                self.player.move_by(chg);
                false
            }
        }
    }

    /// No enemy or treasure overlaps a standard-size piece placed at `p`.
    pub open spec fn spec_location_free(self, p: Vec2i) -> bool {
        &&& forall|i: int| 0 <= i < self.enemies@.len()
            ==> !overlaps(piece_box_at(p), (#[trigger] self.enemies@[i]).spec_bounding_box())
        &&& forall|i: int| 0 <= i < self.treasures@.len()
            ==> !overlaps(piece_box_at(p), (#[trigger] self.treasures@[i]).spec_bounding_box())
    }

    /// Executable check, exact against [`GameState::spec_location_free`].
    fn location_free(&self, p: Vec2i) -> (r: bool)
        requires
            self.wf(),
            0 <= p.x,
            p.x + PIECE_SIZE <= PLAYAREA_X,
            0 <= p.y,
            p.y + PIECE_SIZE <= PLAYAREA_Y,
        ensures
            r == self.spec_location_free(p),
    {
        let pb = Aabb {
            min: p,
            max: Vec2i { x: p.x + PIECE_SIZE, y: p.y + PIECE_SIZE },
        };
        let ne = self.enemies.len();
        for i in 0..ne
            invariant
                ne == self.enemies@.len(),
                self.wf(),
                pb == piece_box_at(p),
                forall|j: int| 0 <= j < i
                    ==> !overlaps(piece_box_at(p),
                        (#[trigger] self.enemies@[j]).spec_bounding_box()),
        {
            let eb = self.enemies[i].bounding_box();
            if overlaps_exec(&pb, &eb) {
                return false;
            }
        }
        let nt = self.treasures.len();
        for i in 0..nt
            invariant
                nt == self.treasures@.len(),
                self.wf(),
                pb == piece_box_at(p),
                forall|j: int| 0 <= j < self.enemies@.len()
                    ==> !overlaps(piece_box_at(p),
                        (#[trigger] self.enemies@[j]).spec_bounding_box()),
                forall|j: int| 0 <= j < i
                    ==> !overlaps(piece_box_at(p),
                        (#[trigger] self.treasures@[j]).spec_bounding_box()),
        {
            let tb = self.treasures[i].bounding_box();
            if overlaps_exec(&pb, &tb) {
                return false;
            }
        }
        true
    }

    /// Sample up to [`SPAWN_TRIES`] random locations and return the
    /// first that keeps a standard-size piece inside the playfield,
    /// farther than [`MIN_SPAWN_DIST`] from the player, and clear of
    /// every existing enemy and treasure. Fails soft with `None` when
    /// no sample qualifies, so a caller skips spawning this step.
    fn random_free_location(&self) -> (r: Option<Vec2i>)
        requires
            self.wf(),
        ensures
            r matches Some(p) ==> {
                &&& 0 <= p.x
                &&& p.x + PIECE_SIZE <= PLAYAREA_X
                &&& 0 <= p.y
                &&& p.y + PIECE_SIZE <= PLAYAREA_Y
                &&& sqdist(p, self.player.pos) > MIN_SPAWN_DIST * MIN_SPAWN_DIST
                &&& self.spec_location_free(p)
            },
    {
        let mut tries: usize = 0;
        while tries < SPAWN_TRIES
            invariant
                self.wf(),
            decreases SPAWN_TRIES - tries,
        {
            let x = random_below((PLAYAREA_X - PIECE_SIZE + 1) as u32) as i32;
            let y = random_below((PLAYAREA_Y - PIECE_SIZE + 1) as u32) as i32;
            let p = Vec2i { x, y };
            let d = sqdist_exec(&p, &self.player.pos);
            if d > (MIN_SPAWN_DIST as i64) * (MIN_SPAWN_DIST as i64)
                && self.location_free(p) {
                return Some(p);
            }
            tries = tries + 1;
        }
        None
    }

    /// One fixed simulation step: advance the simulated clock by
    /// [`MS_PER_UPDATE`] and, while playing, re-roll enemy directions
    /// and spawn enemies and treasures as their throttles allow,
    /// integrate every piece's velocity, then resolve collisions
    /// against the player. After a loss only the clock keeps running,
    /// so the game-over fade can progress; everything else waits for
    /// [`GameState::reset`]. Returns how many treasures were picked up
    /// this step, so the caller can play the pickup sound.
    pub fn update(&mut self) -> (picked: u32)
        requires
            old(self).wf(),
            old(self).score + NUM_TREASURES <= u32::MAX,
            old(self).elapsed_ms + MS_PER_UPDATE <= u64::MAX,
        ensures
            final(self).wf(),
            final(self).elapsed_ms == old(self).elapsed_ms + MS_PER_UPDATE,
            old(self).phase != Phase::Playing ==> ({
                &&& picked == 0
                &&& final(self).level == old(self).level
                &&& final(self).score == old(self).score
                &&& final(self).player == old(self).player
                &&& final(self).enemies == old(self).enemies
                &&& final(self).treasures == old(self).treasures
                &&& final(self).phase == old(self).phase
                &&& final(self).game_over_at_ms == old(self).game_over_at_ms
                &&& final(self).last_moved_enemies == old(self).last_moved_enemies
                &&& final(self).last_placed_treasure == old(self).last_placed_treasure
                &&& final(self).last_enemy_spawn == old(self).last_enemy_spawn
            }),
            old(self).phase == Phase::Playing ==> ({
                let now = old(self).elapsed_ms + MS_PER_UPDATE;
                let base = integrated_all(old(self).treasures@);
                &&& final(self).level == old(self).level
                &&& final(self).score == old(self).score + picked
                &&& picked <= NUM_TREASURES
                &&& final(self).player == old(self).player.spec_integrated()
                &&& (final(self).phase == Phase::Playing
                    ==> final(self).game_over_at_ms == old(self).game_over_at_ms
                        && !final(self).enemy_overlaps_player())
                &&& (final(self).phase == Phase::PlayerLost
                    ==> final(self).game_over_at_ms == Some(now as u64))
                &&& (now - old(self).last_moved_enemies >= ENEMY_MOVE_INTERVAL_MS
                    ==> final(self).last_moved_enemies == now)
                &&& (now - old(self).last_moved_enemies < ENEMY_MOVE_INTERVAL_MS
                    ==> final(self).last_moved_enemies == old(self).last_moved_enemies
                        && (forall|i: int| 0 <= i < old(self).enemies@.len()
                            ==> (#[trigger] final(self).enemies@[i]).vel
                                == old(self).enemies@[i].vel))
                &&& old(self).enemies@.len() <= final(self).enemies@.len()
                    <= old(self).enemies@.len() + 1
                &&& forall|i: int| 0 <= i < old(self).enemies@.len()
                    ==> (#[trigger] final(self).enemies@[i]).size
                        == old(self).enemies@[i].size
                &&& forall|i: int| 0 <= i < old(self).enemies@.len()
                    ==> #[trigger] final(self).enemies@[i] == (Piece {
                        pos: old(self).enemies@[i].pos,
                        vel: final(self).enemies@[i].vel,
                        size: old(self).enemies@[i].size,
                    }).spec_integrated()
                &&& ((now - old(self).last_enemy_spawn < ENEMY_SPAWN_INTERVAL_MS
                        || old(self).enemies@.len() >= NUM_ENEMIES)
                    ==> final(self).enemies@.len() == old(self).enemies@.len())
                &&& (final(self).enemies@.len() == old(self).enemies@.len() + 1
                    ==> final(self).last_enemy_spawn == now
                        && now - old(self).last_enemy_spawn >= ENEMY_SPAWN_INTERVAL_MS
                        && sqdist(final(self).enemies@.last().pos, old(self).player.pos)
                            > MIN_SPAWN_DIST * MIN_SPAWN_DIST)
                &&& (final(self).enemies@.len() == old(self).enemies@.len()
                    ==> final(self).last_enemy_spawn == old(self).last_enemy_spawn)
                &&& (final(self).last_placed_treasure == old(self).last_placed_treasure
                    || final(self).last_placed_treasure == now)
                &&& ((now - old(self).last_placed_treasure < TREASURE_SPAWN_INTERVAL_MS
                        || old(self).treasures@.len() >= NUM_TREASURES)
                    ==> final(self).last_placed_treasure == old(self).last_placed_treasure)
                &&& (final(self).last_placed_treasure == old(self).last_placed_treasure
                    ==> final(self).treasures@
                        == missed_treasures(base, final(self).player_box())
                        && picked == base.len() - final(self).treasures@.len())
                &&& (final(self).last_placed_treasure == now
                    ==> now - old(self).last_placed_treasure >= TREASURE_SPAWN_INTERVAL_MS
                        && old(self).treasures@.len() < NUM_TREASURES
                        && picked == base.len() + 1 - final(self).treasures@.len()
                        && (exists|t: Piece| t.wf()
                            && t.size == (Vec2i { x: PIECE_SIZE, y: PIECE_SIZE })
                            && t.vel == (Vec2i { x: 0, y: 0 })
                            && sqdist(t.pos, old(self).player.pos)
                                > MIN_SPAWN_DIST * MIN_SPAWN_DIST
                            && final(self).treasures@ == #[trigger] missed_treasures(
                                base.push(t),
                                final(self).player_box(),
                            )))
            }),
    {
        self.elapsed_ms = self.elapsed_ms + MS_PER_UPDATE;
        if self.phase != Phase::Playing {
            return 0;
        }
        let now = self.elapsed_ms;

        if now - self.last_moved_enemies >= ENEMY_MOVE_INTERVAL_MS {
            self.move_enemies();
            self.last_moved_enemies = now;
        }

        let ghost spawned_treasure: bool;
        if now - self.last_placed_treasure >= TREASURE_SPAWN_INTERVAL_MS
            && self.treasures.len() < NUM_TREASURES {
            match self.random_free_location() {
                Some(p) => {
                    self.treasures.push(Piece::new(p.x, p.y));
                    self.last_placed_treasure = now;
                    proof {
                        spawned_treasure = true;
                    }
                }
                None => {
                    proof {
                        spawned_treasure = false;
                    }
                }
            }
        } else {
            proof {
                spawned_treasure = false;
            }
        }

        if now - self.last_enemy_spawn >= ENEMY_SPAWN_INTERVAL_MS
            && self.enemies.len() < NUM_ENEMIES {
            match self.random_free_location() {
                Some(p) => {
                    self.enemies.push(Piece::new(p.x, p.y));
                    self.last_enemy_spawn = now;
                }
                None => {}
            }
        }

        let ghost mid = *self;
        Piece::integrate_all(&mut self.enemies);
        self.player.update();
        Piece::integrate_all(&mut self.treasures);

        proof {
            assert(self.enemies@ =~= integrated_all(mid.enemies@));
            assert(self.treasures@ =~= integrated_all(mid.treasures@));
            let base = integrated_all(old(self).treasures@);
            if spawned_treasure {
                let t = mid.treasures@.last();
                assert(t.spec_integrated() == t);
                assert(mid.treasures@.drop_last() =~= old(self).treasures@);
                assert(self.treasures@ =~= base.push(t));
            } else {
                assert(self.treasures@ =~= base);
            }
        }

        let picked = self.do_collision_detection();
        proof {
            let base = integrated_all(old(self).treasures@);
            if spawned_treasure {
                let t = mid.treasures@.last();
                assert(t.wf());
                assert(t.size == (Vec2i { x: PIECE_SIZE, y: PIECE_SIZE }));
                assert(t.vel == (Vec2i { x: 0, y: 0 }));
                assert(sqdist(t.pos, old(self).player.pos)
                    > MIN_SPAWN_DIST * MIN_SPAWN_DIST);
                assert(self.treasures@
                    == missed_treasures(base.push(t), self.player_box()));
            }
        }
        picked
    }

    /// One collision-resolution pass: rebuild the broad-phase index
    /// from every enemy and treasure box and query it against the
    /// player's box. Any overlapping enemy loses the game; every
    /// distinct overlapping treasure scores exactly one point and is
    /// removed, decided over the snapshot of matched identities so
    /// simultaneous pickups cannot skip or double-count an entry.
    /// Returns how many treasures were picked up, so the caller can
    /// play the pickup sound.
    pub fn do_collision_detection(&mut self) -> (picked: u32)
        requires
            old(self).wf(),
            old(self).score + NUM_TREASURES <= u32::MAX,
        ensures
            final(self).wf(),
            final(self).player == old(self).player,
            final(self).enemies == old(self).enemies,
            final(self).level == old(self).level,
            final(self).elapsed_ms == old(self).elapsed_ms,
            final(self).last_moved_enemies == old(self).last_moved_enemies,
            final(self).last_placed_treasure == old(self).last_placed_treasure,
            final(self).last_enemy_spawn == old(self).last_enemy_spawn,
            old(self).enemy_overlaps_player() ==> final(self).phase == Phase::PlayerLost
                && final(self).game_over_at_ms == Some(old(self).elapsed_ms),
            !old(self).enemy_overlaps_player() ==> final(self).phase == old(self).phase
                && final(self).game_over_at_ms == old(self).game_over_at_ms,
            final(self).treasures@
                == missed_treasures(old(self).treasures@, old(self).player_box()),
            final(self).score == old(self).score + picked,
            picked == old(self).treasures@.len() - final(self).treasures@.len(),
            picked <= NUM_TREASURES,
    {
        let ghost pbox = old(self).player_box();
        let pb = self.player.bounding_box();
        let ne = self.enemies.len();
        let nt = self.treasures.len();
        let mut boxes: Vec<Aabb> = Vec::new();
        for i in 0..ne
            invariant
                self == old(self),
                ne == self.enemies@.len(),
                boxes@.len() == i,
                forall|j: int| 0 <= j < i
                    ==> boxes@[j] == (#[trigger] self.enemies@[j]).spec_bounding_box(),
                self.wf(),
        {
            let eb = self.enemies[i].bounding_box();
            boxes.push(eb);
        }
        for i in 0..nt
            invariant
                self == old(self),
                ne == self.enemies@.len(),
                nt == self.treasures@.len(),
                boxes@.len() == ne + i,
                forall|j: int| 0 <= j < ne
                    ==> boxes@[j] == (#[trigger] self.enemies@[j]).spec_bounding_box(),
                forall|j: int| 0 <= j < i
                    ==> boxes@[ne + j] == (#[trigger] self.treasures@[j]).spec_bounding_box(),
                self.wf(),
        {
            let tb = self.treasures[i].bounding_box();
            boxes.push(tb);
        }
        let hits = query_overlaps(&pb, &boxes);

        let mut enemy_hit = false;
        let nh = hits.len();
        for k in 0..nh
            invariant
                nh == hits@.len(),
                enemy_hit == exists|k2: int| 0 <= k2 < k && #[trigger] hits@[k2] < ne,
        {
            if hits[k] < ne {
                enemy_hit = true;
            }
        }
        proof {
            if enemy_hit {
                let k2 = choose|k2: int| 0 <= k2 < nh && #[trigger] hits@[k2] < ne;
                assert(overlaps(pbox, self.enemies@[hits@[k2] as int].spec_bounding_box()));
                assert(self.enemy_overlaps_player());
            } else {
                assert forall|i: int| 0 <= i < ne
                    implies !overlaps(pbox, (#[trigger] self.enemies@[i]).spec_bounding_box())
                by {
                    if overlaps(pbox, self.enemies@[i].spec_bounding_box()) {
                        assert(overlaps(pbox, boxes@[i]));
                        assert(hits@.contains(i as usize));
                        let k2 = choose|k2: int| 0 <= k2 < hits@.len()
                            && hits@[k2] == i as usize;
                    }
                }
                assert(!self.enemy_overlaps_player());
            }
        }
        if enemy_hit {
            self.game_over();
        }

        let mut kept: Vec<Piece> = Vec::new();
        let mut picked: u32 = 0;
        for j in 0..nt
            invariant
                nt == self.treasures@.len(),
                self.treasures == old(self).treasures,
                ne == self.enemies@.len(),
                boxes@.len() == ne + nt,
                forall|j2: int| 0 <= j2 < nt
                    ==> boxes@[ne + j2]
                        == (#[trigger] self.treasures@[j2]).spec_bounding_box(),
                forall|k: int| 0 <= k < hits@.len()
                    ==> #[trigger] hits@[k] < boxes@.len()
                        && overlaps(pbox, boxes@[hits@[k] as int]),
                forall|i: int| 0 <= i < boxes@.len() && overlaps(pbox, #[trigger] boxes@[i])
                    ==> hits@.contains(i as usize),
                kept@ == missed_treasures(self.treasures@.subrange(0, j as int), pbox),
                picked == j - kept@.len(),
                kept@.len() <= j,
                forall|k: int| 0 <= k < kept@.len()
                    ==> (#[trigger] kept@[k]).wf()
                        && kept@[k].size == (Vec2i { x: PIECE_SIZE, y: PIECE_SIZE }),
                self.wf(),
        {
            proof {
                let ts = self.treasures@;
                assert(ts.subrange(0, j + 1).drop_last() =~= ts.subrange(0, j as int));
                assert(ts.subrange(0, j + 1).last() == ts[j as int]);
            }
            if contains_idx(&hits, ne + j) {
                proof {
                    let k2 = choose|k2: int| 0 <= k2 < hits@.len()
                        && hits@[k2] == (ne + j) as usize;
                    assert(overlaps(pbox, boxes@[ne + j]));
                }
                picked = picked + 1;
            } else {
                proof {
                    if overlaps(pbox, self.treasures@[j as int].spec_bounding_box()) {
                        assert(overlaps(pbox, boxes@[ne + j]));
                        assert(hits@.contains((ne + j) as usize));
                    }
                }
                let t = self.treasures[j];
                kept.push(t);
            }
        }
        proof {
            assert(self.treasures@.subrange(0, nt as int) =~= self.treasures@);
        }
        self.score = self.score + picked;
        self.treasures = kept;
        picked
    }

    /// One of the four axis-aligned unit directions, chosen uniformly.
    fn random_movement(&self) -> (d: Vec2i)
        ensures
            is_unit_dir(d),
    {
        let r = random_below(4);
        if r == 0 {
            Vec2i { x: 0, y: -1 }
        } else if r == 1 {
            Vec2i { x: 0, y: 1 }
        } else if r == 2 {
            Vec2i { x: -1, y: 0 }
        } else {
            Vec2i { x: 1, y: 0 }
        }
    }

    /// Decide one enemy's re-roll given the drawn direction `dir`: a
    /// destination square holding the player loses the game, an empty
    /// one commits the direction as the enemy's velocity, and one
    /// occupied by another enemy or a treasure suppresses the move, so
    /// the velocity stands unchanged this round. Positions change only
    /// later, by integration.
    pub fn apply_enemy_direction(&mut self, i: usize, dir: Vec2i)
        requires
            old(self).wf(),
            i < old(self).enemies@.len(),
            is_unit_dir(dir),
        ensures
            final(self).wf(),
            final(self).score == old(self).score,
            final(self).level == old(self).level,
            final(self).treasures == old(self).treasures,
            final(self).player == old(self).player,
            final(self).elapsed_ms == old(self).elapsed_ms,
            final(self).last_moved_enemies == old(self).last_moved_enemies,
            final(self).last_placed_treasure == old(self).last_placed_treasure,
            final(self).last_enemy_spawn == old(self).last_enemy_spawn,
            final(self).enemies@.len() == old(self).enemies@.len(),
            forall|j: int| 0 <= j < old(self).enemies@.len() && j != i
                ==> #[trigger] final(self).enemies@[j] == old(self).enemies@[j],
            final(self).enemies@[i as int].pos == old(self).enemies@[i as int].pos,
            final(self).enemies@[i as int].size == old(self).enemies@[i as int].size,
            ({
                let dx = old(self).enemies@[i as int].pos.x + dir.x;
                let dy = old(self).enemies@[i as int].pos.y + dir.y;
                let ent = old(self).spec_entity_at(dx, dy);
                &&& (ent == Entity::Player ==> {
                    &&& final(self).phase == Phase::PlayerLost
                    &&& final(self).game_over_at_ms == Some(old(self).elapsed_ms)
                    &&& final(self).enemies@[i as int].vel
                        == old(self).enemies@[i as int].vel
                })
                &&& (ent == Entity::Nothing ==> {
                    &&& final(self).enemies@[i as int].vel == dir
                    &&& final(self).phase == old(self).phase
                    &&& final(self).game_over_at_ms == old(self).game_over_at_ms
                })
                &&& (ent != Entity::Player && ent != Entity::Nothing ==> {
                    &&& final(self).enemies@[i as int].vel
                        == old(self).enemies@[i as int].vel
                    &&& final(self).phase == old(self).phase
                    &&& final(self).game_over_at_ms == old(self).game_over_at_ms
                })
            }),
    {
        let tx = self.enemies[i].pos.x + dir.x;
        let ty = self.enemies[i].pos.y + dir.y;
        match self.entity_at_square(Vec2i { x: tx, y: ty }) {
            Entity::Player => {
                self.game_over();
            }
            Entity::Nothing => {
                let mut e = self.enemies[i];
                e.vel = dir;
                self.enemies[i] = e;
            }
            _ => {}
        }
    }

    /// Re-roll every enemy's direction, in insertion order, deciding
    /// each through [`GameState::apply_enemy_direction`]. Positions
    /// never change during this pass, so occupancy is judged over the
    /// state the pass began in.
    pub fn move_enemies(&mut self)
        requires
            old(self).wf(),
        ensures
            final(self).wf(),
            old(self).phase != Phase::Playing ==> *final(self) == *old(self),
            final(self).score == old(self).score,
            final(self).level == old(self).level,
            final(self).treasures == old(self).treasures,
            final(self).player == old(self).player,
            final(self).elapsed_ms == old(self).elapsed_ms,
            final(self).last_moved_enemies == old(self).last_moved_enemies,
            final(self).last_placed_treasure == old(self).last_placed_treasure,
            final(self).last_enemy_spawn == old(self).last_enemy_spawn,
            final(self).enemies@.len() == old(self).enemies@.len(),
            forall|i: int| 0 <= i < old(self).enemies@.len()
                ==> (#[trigger] final(self).enemies@[i]).pos == old(self).enemies@[i].pos
                    && final(self).enemies@[i].size == old(self).enemies@[i].size
                    && (final(self).enemies@[i].vel == old(self).enemies@[i].vel
                        || is_unit_dir(final(self).enemies@[i].vel)),
            forall|i: int| 0 <= i < old(self).enemies@.len()
                && (#[trigger] final(self).enemies@[i]).vel != old(self).enemies@[i].vel
                ==> is_unit_dir(final(self).enemies@[i].vel)
                    && old(self).spec_entity_at(
                        old(self).enemies@[i].pos.x + final(self).enemies@[i].vel.x,
                        old(self).enemies@[i].pos.y + final(self).enemies@[i].vel.y,
                    ) == Entity::Nothing,
            old(self).phase == Phase::Playing ==> {
                &&& (final(self).phase == Phase::Playing
                    ==> final(self).game_over_at_ms == old(self).game_over_at_ms)
                &&& (final(self).phase == Phase::PlayerLost ==> {
                    &&& final(self).game_over_at_ms == Some(old(self).elapsed_ms)
                    &&& exists|i: int| 0 <= i < old(self).enemies@.len()
                        && unit_step_away(
                            (#[trigger] old(self).enemies@[i]).pos,
                            old(self).player.pos,
                        )
                })
            },
    {
        if self.phase != Phase::Playing {
            return;
        }
        let n = self.enemies.len();
        for i in 0..n
            invariant
                self.wf(),
                n == self.enemies@.len(),
                old(self).enemies@.len() == n,
                self.player == old(self).player,
                self.score == old(self).score,
                self.level == old(self).level,
                self.treasures == old(self).treasures,
                self.elapsed_ms == old(self).elapsed_ms,
                self.last_moved_enemies == old(self).last_moved_enemies,
                self.last_placed_treasure == old(self).last_placed_treasure,
                self.last_enemy_spawn == old(self).last_enemy_spawn,
                forall|j: int| 0 <= j < n
                    ==> (#[trigger] self.enemies@[j]).pos == old(self).enemies@[j].pos
                        && self.enemies@[j].size == old(self).enemies@[j].size
                        && (self.enemies@[j].vel == old(self).enemies@[j].vel
                            || is_unit_dir(self.enemies@[j].vel)),
                forall|j: int| 0 <= j < n
                    && (#[trigger] self.enemies@[j]).vel != old(self).enemies@[j].vel
                    ==> is_unit_dir(self.enemies@[j].vel)
                        && old(self).spec_entity_at(
                            old(self).enemies@[j].pos.x + self.enemies@[j].vel.x,
                            old(self).enemies@[j].pos.y + self.enemies@[j].vel.y,
                        ) == Entity::Nothing,
                old(self).phase == Phase::Playing,
                self.phase == Phase::Playing
                    ==> self.game_over_at_ms == old(self).game_over_at_ms,
                self.phase == Phase::PlayerLost ==> {
                    &&& self.game_over_at_ms == Some(old(self).elapsed_ms)
                    &&& exists|k: int| 0 <= k < old(self).enemies@.len()
                        && unit_step_away(
                            (#[trigger] old(self).enemies@[k]).pos,
                            old(self).player.pos,
                        )
                },
        {
            let dir = self.random_movement();
            let ghost before = *self;
            self.apply_enemy_direction(i, dir);
            proof {
                let k = i as int;
                let dx = before.enemies@[k].pos.x + dir.x;
                let dy = before.enemies@[k].pos.y + dir.y;
                lemma_entity_at_same_positions(before, *old(self), dx, dy);
                if before.spec_entity_at(dx, dy) == Entity::Player {
                    assert(unit_step_away(
                        old(self).enemies@[k].pos,
                        old(self).player.pos,
                    ));
                }
            }
        }
    }
}

/// Two states whose player, enemies and treasures stand at the same
/// positions agree on what occupies any square.
proof fn lemma_entity_at_same_positions(a: GameState, b: GameState, x: int, y: int)
    requires
        a.player.pos == b.player.pos,
        a.enemies@.len() == b.enemies@.len(),
        forall|i: int| 0 <= i < a.enemies@.len()
            ==> (#[trigger] a.enemies@[i]).pos == b.enemies@[i].pos,
        a.treasures@.len() == b.treasures@.len(),
        forall|i: int| 0 <= i < a.treasures@.len()
            ==> (#[trigger] a.treasures@[i]).pos == b.treasures@[i].pos,
    ensures
        a.spec_entity_at(x, y) == b.spec_entity_at(x, y),
{
    if exists|i: int| 0 <= i < a.enemies@.len()
        && (#[trigger] a.enemies@[i]).pos.x == x && a.enemies@[i].pos.y == y {
        let i = choose|i: int| 0 <= i < a.enemies@.len()
            && (#[trigger] a.enemies@[i]).pos.x == x && a.enemies@[i].pos.y == y;
        assert(b.enemies@[i].pos.x == x && b.enemies@[i].pos.y == y);
    }
    if exists|i: int| 0 <= i < b.enemies@.len()
        && (#[trigger] b.enemies@[i]).pos.x == x && b.enemies@[i].pos.y == y {
        let i = choose|i: int| 0 <= i < b.enemies@.len()
            && (#[trigger] b.enemies@[i]).pos.x == x && b.enemies@[i].pos.y == y;
        assert(a.enemies@[i].pos.x == x && a.enemies@[i].pos.y == y);
    }
    if exists|i: int| 0 <= i < a.treasures@.len()
        && (#[trigger] a.treasures@[i]).pos.x == x && a.treasures@[i].pos.y == y {
        let i = choose|i: int| 0 <= i < a.treasures@.len()
            && (#[trigger] a.treasures@[i]).pos.x == x && a.treasures@[i].pos.y == y;
        assert(b.treasures@[i].pos.x == x && b.treasures@[i].pos.y == y);
    }
    if exists|i: int| 0 <= i < b.treasures@.len()
        && (#[trigger] b.treasures@[i]).pos.x == x && b.treasures@[i].pos.y == y {
        let i = choose|i: int| 0 <= i < b.treasures@.len()
            && (#[trigger] b.treasures@[i]).pos.x == x && b.treasures@[i].pos.y == y;
        assert(a.treasures@[i].pos.x == x && a.treasures@[i].pos.y == y);
    }
}

/// Every piece of `ts`, one integration step later, in order.
pub open spec fn integrated_all(ts: Seq<Piece>) -> Seq<Piece> {
    ts.map_values(|p: Piece| p.spec_integrated())
}

/// The treasures of `ts` that do not overlap `pb`, in their original
/// order: what survives one collision pass.
pub open spec fn missed_treasures(ts: Seq<Piece>, pb: Aabb) -> Seq<Piece>
    decreases ts.len(),
{
    if ts.len() == 0 {
        Seq::empty()
    } else {
        let pre = missed_treasures(ts.drop_last(), pb);
        if overlaps(pb, ts.last().spec_bounding_box()) {
            pre
        } else {
            pre.push(ts.last())
        }
    }
}

/// The box a standard-size piece would occupy at `p`.
pub open spec fn piece_box_at(p: Vec2i) -> Aabb {
    Aabb {
        min: p,
        max: Vec2i { x: (p.x + PIECE_SIZE) as i32, y: (p.y + PIECE_SIZE) as i32 },
    }
}

/// Whether `q` is exactly one unit step (up, down, left or right)
/// away from `p`.
pub open spec fn unit_step_away(p: Vec2i, q: Vec2i) -> bool {
    ||| (q.x == p.x && q.y == p.y - 1)
    ||| (q.x == p.x && q.y == p.y + 1)
    ||| (q.x == p.x - 1 && q.y == p.y)
    ||| (q.x == p.x + 1 && q.y == p.y)
}

/// One of the four axis-aligned unit directions.
pub open spec fn is_unit_dir(d: Vec2i) -> bool {
    ||| d == (Vec2i { x: 0, y: -1i32 })
    ||| d == (Vec2i { x: 0, y: 1 })
    ||| d == (Vec2i { x: -1i32, y: 0 })
    ||| d == (Vec2i { x: 1, y: 0 })
}

/// The population caps hold in every well-formed state: spawning never
/// pushes `enemies` past `NUM_ENEMIES` nor `treasures` past
/// `NUM_TREASURES`, and every operation of this module preserves
/// well-formedness.
pub proof fn lemma_spawn_caps(s: GameState)
    requires
        s.wf(),
    ensures
        s.enemies@.len() <= NUM_ENEMIES,
        s.treasures@.len() <= NUM_TREASURES,
{
}

} // verus!
