//! The fixed-timestep driver: real elapsed time accumulates in a lag
//! counter and is drained in steps of [`MS_PER_UPDATE`]; whatever is
//! left over stays below one step and is handed to rendering as the
//! interpolation lag. Also the interpolation helper used for the
//! game-over fade.

use vstd::prelude::*;
use vstd::arithmetic::div_mod::{
    lemma_div_is_ordered, lemma_fundamental_div_mod, lemma_fundamental_div_mod_converse,
    lemma_mod_bound,
};
use crate::constants::{MS_PER_UPDATE, NUM_TREASURES};
use crate::game_state::{GameState, Phase};

verus! {

/// Accumulated real time not yet simulated, always less than one step.
#[derive(Clone, Copy, PartialEq, Eq, Structural, Debug)]
pub struct SimLoop {
    pub lag_ms: u64,
}

impl SimLoop {
    /// The lag never reaches a whole step.
    pub open spec fn wf(self) -> bool {
        self.lag_ms < MS_PER_UPDATE
    }

    pub fn new() -> (s: SimLoop)
        ensures
            s.wf(),
            s.lag_ms == 0,
    {
        SimLoop { lag_ms: 0 }
    }

    /// Drive one rendered frame: add `elapsed_ms` of real time to the
    /// lag, run one fixed simulation step per whole [`MS_PER_UPDATE`]
    /// accumulated, and keep the remainder for render interpolation.
    /// Returns the total number of treasures picked up across the
    /// steps, so the caller can play the pickup sound.
    pub fn frame(&mut self, state: &mut GameState, elapsed_ms: u64) -> (picked: u32)
        requires
            old(self).wf(),
            old(state).wf(),
            old(self).lag_ms + elapsed_ms <= u64::MAX,
            old(state).elapsed_ms + old(self).lag_ms + elapsed_ms <= u64::MAX,
            old(state).score
                + NUM_TREASURES * ((old(self).lag_ms + elapsed_ms) / (MS_PER_UPDATE as int))
                <= u32::MAX,
        ensures
            final(self).wf(),
            final(state).wf(),
            final(self).lag_ms == (old(self).lag_ms + elapsed_ms) % (MS_PER_UPDATE as int),
            final(state).score == old(state).score + picked,
            final(state).level == old(state).level,
            old(state).phase == Phase::PlayerLost ==> picked == 0
                && final(state).phase == old(state).phase
                && final(state).player == old(state).player
                && final(state).enemies == old(state).enemies
                && final(state).treasures == old(state).treasures
                && final(state).game_over_at_ms == old(state).game_over_at_ms,
            final(state).elapsed_ms == old(state).elapsed_ms
                + MS_PER_UPDATE * ((old(self).lag_ms + elapsed_ms) / (MS_PER_UPDATE as int)),
            old(self).lag_ms + elapsed_ms >= MS_PER_UPDATE
                && final(state).phase == Phase::Playing
                ==> !final(state).enemy_overlaps_player(),
            old(state).phase == Phase::Playing && final(state).phase == Phase::PlayerLost
                ==> (final(state).game_over_at_ms matches Some(t)
                    && old(state).elapsed_ms < t <= final(state).elapsed_ms),
    {
        let total: u64 = self.lag_ms + elapsed_ms;
        let mut lag: u64 = total;
        let mut picked: u32 = 0;
        let ghost mut steps_done: int = 0;
        while lag >= MS_PER_UPDATE
            invariant
                state.wf(),
                lag + MS_PER_UPDATE * steps_done == total,
                0 <= steps_done <= (total as int) / (MS_PER_UPDATE as int),
                state.score == old(state).score + picked,
                state.level == old(state).level,
                state.score + NUM_TREASURES * ((total as int) / (MS_PER_UPDATE as int) - steps_done)
                    <= u32::MAX,
                old(state).phase == Phase::PlayerLost ==> picked == 0
                    && state.phase == old(state).phase
                    && state.player == old(state).player
                    && state.enemies == old(state).enemies
                    && state.treasures == old(state).treasures
                    && state.game_over_at_ms == old(state).game_over_at_ms,
                state.elapsed_ms + lag <= u64::MAX,
                state.elapsed_ms == old(state).elapsed_ms + MS_PER_UPDATE * steps_done,
                steps_done >= 1 && state.phase == Phase::Playing
                    ==> !state.enemy_overlaps_player(),
                old(state).phase == Phase::Playing && state.phase == Phase::PlayerLost
                    ==> (state.game_over_at_ms matches Some(t)
                        && old(state).elapsed_ms < t <= state.elapsed_ms),
            decreases lag,
        {
            proof {
                if steps_done == (total as int) / (MS_PER_UPDATE as int) {
                    lemma_fundamental_div_mod(total as int, MS_PER_UPDATE as int);
                    lemma_mod_bound(total as int, MS_PER_UPDATE as int);
                    assert(false);
                }
            }
            let p = state.update();
            picked = picked + p;
            lag = lag - MS_PER_UPDATE;
            proof {
                steps_done = steps_done + 1;
            }
        }
        proof {
            lemma_fundamental_div_mod_converse(
                total as int,
                MS_PER_UPDATE as int,
                steps_done,
                lag as int,
            );
            if total >= MS_PER_UPDATE {
                lemma_div_is_ordered(MS_PER_UPDATE as int, total as int, MS_PER_UPDATE as int);
            }
        }
        self.lag_ms = lag;
        picked
    }
}

/// Linear interpolation from `b` towards `b + c` over `d` milliseconds,
/// clipped into a byte: the alpha ramp of the game-over fade. For
/// `t < d` the value is `b + c * t / d` (capped at 255); from `d`
/// onwards it stays at `c`.
pub fn linear_tween(t: i32, b: u8, c: u8, d: i32) -> (r: u8)
    requires
        0 <= t,
        0 < d,
    ensures
        t >= d ==> r == c,
        t < d ==> ({
            let v = b as int + (c as int) * (t as int) / (d as int);
            &&& (v <= 255 ==> r == v)
            &&& (v > 255 ==> r == 255)
        }),
{
    if t < d {
        proof {
            assert(0 <= (c as int) * (t as int) <= 255 * (t as int)) by (nonlinear_arith)
                requires
                    0 <= t,
                    0 <= c <= 255,
            ;
            assert(0 <= (c as int) * (t as int) / (d as int) <= (c as int) * (t as int))
                by (nonlinear_arith)
                requires
                    0 < d,
                    0 <= (c as int) * (t as int),
            ;
        }
        let v: i64 = b as i64 + c as i64 * t as i64 / d as i64;
        if v > 255 {
            255
        } else {
            v as u8
        }
    } else {
        c
    }
}

} // verus!
