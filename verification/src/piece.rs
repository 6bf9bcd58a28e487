//! A piece is any movable or static rectangular token on the playfield:
//! the player, an enemy or a treasure. It carries a position (top-left
//! corner), a velocity in units per simulation step, and a size.

use vstd::prelude::*;
use crate::constants::{PLAYAREA_X, PLAYAREA_Y, PIECE_SIZE};
use crate::geom::{Vec2i, Aabb};

verus! {

#[derive(Clone, Copy, PartialEq, Eq, Structural, Debug)]
pub struct Piece {
    /// Top-left corner, in playfield units.
    pub pos: Vec2i,
    /// Displacement added on every simulation step.
    pub vel: Vec2i,
    /// Width and height of the piece's bounding box.
    pub size: Vec2i,
}

/// Clamp `v` into `[lo, hi]` (spec-level; `lo <= hi` is assumed by use).
pub open spec fn clamped(v: int, lo: int, hi: int) -> int {
    if v < lo {
        lo
    } else if v > hi {
        hi
    } else {
        v
    }
}

impl Piece {
    /// The piece sits wholly inside the playfield and has a sensible size.
    pub open spec fn wf(self) -> bool {
        &&& 0 <= self.size.x <= PLAYAREA_X
        &&& 0 <= self.size.y <= PLAYAREA_Y
        &&& 0 <= self.pos.x
        &&& self.pos.x + self.size.x <= PLAYAREA_X
        &&& 0 <= self.pos.y
        &&& self.pos.y + self.size.y <= PLAYAREA_Y
    }

    /// Whether translating by `chg` keeps the whole bounding box inside
    /// `[0, PLAYAREA_X] x [0, PLAYAREA_Y]`.
    pub open spec fn move_allowed(self, chg: Vec2i) -> bool {
        &&& 0 <= self.pos.x + chg.x
        &&& self.pos.x + chg.x + self.size.x <= PLAYAREA_X
        &&& 0 <= self.pos.y + chg.y
        &&& self.pos.y + chg.y + self.size.y <= PLAYAREA_Y
    }

    /// The axis-aligned box `[pos, pos + size)` the piece occupies.
    pub open spec fn spec_bounding_box(self) -> Aabb {
        Aabb {
            min: self.pos,
            max: Vec2i {
                x: (self.pos.x + self.size.x) as i32,
                y: (self.pos.y + self.size.y) as i32,
            },
        }
    }

    /// A fresh, motionless piece of the standard size at `(x, y)`.
    pub fn new(x: i32, y: i32) -> (p: Piece)
        requires
            0 <= x,
            x + PIECE_SIZE <= PLAYAREA_X,
            0 <= y,
            y + PIECE_SIZE <= PLAYAREA_Y,
        ensures
            p.wf(),
            p.pos == (Vec2i { x, y }),
            p.vel == (Vec2i { x: 0, y: 0 }),
            p.size == (Vec2i { x: PIECE_SIZE, y: PIECE_SIZE }),
    {
        Piece {
            pos: Vec2i { x, y },
            vel: Vec2i { x: 0, y: 0 },
            size: Vec2i { x: PIECE_SIZE, y: PIECE_SIZE },
        }
    }

    /// Attempt to translate the piece by `chg`. The move commits and
    /// returns true exactly when the translated bounding box stays
    /// inside the playfield; otherwise nothing changes and the attempt
    /// is reported false.
    pub fn move_by(&mut self, chg: Vec2i) -> (moved: bool)
        requires
            old(self).wf(),
        ensures
            final(self).wf(),
            moved == old(self).move_allowed(chg),
            moved ==> final(self).pos.x == old(self).pos.x + chg.x
                && final(self).pos.y == old(self).pos.y + chg.y,
            !moved ==> *final(self) == *old(self),
            final(self).vel == old(self).vel,
            final(self).size == old(self).size,
    {
        let tx: i64 = self.pos.x as i64 + chg.x as i64;
        let ty: i64 = self.pos.y as i64 + chg.y as i64;
        if tx < 0 || ty < 0 || tx + self.size.x as i64 > PLAYAREA_X as i64
            || ty + self.size.y as i64 > PLAYAREA_Y as i64 {
            false
        } else {
            self.pos = Vec2i { x: tx as i32, y: ty as i32 };
            true
        }
    }

    /// The piece one integration step later: velocity added to the
    /// position, each coordinate clamped to the playfield.
    pub open spec fn spec_integrated(self) -> Piece {
        Piece {
            pos: Vec2i {
                x: clamped(self.pos.x + self.vel.x, 0, PLAYAREA_X - self.size.x) as i32,
                y: clamped(self.pos.y + self.vel.y, 0, PLAYAREA_Y - self.size.y) as i32,
            },
            vel: self.vel,
            size: self.size,
        }
    }

    /// One step of velocity integration: add the velocity to the
    /// position, clamping each coordinate so the piece never leaves the
    /// playfield. Clamping here keeps the in-bounds invariant along
    /// both movement paths, where `move_by` rejects instead.
    pub fn update(&mut self)
        requires
            old(self).wf(),
        ensures
            final(self).wf(),
            *final(self) == old(self).spec_integrated(),
            final(self).pos.x == clamped(
                old(self).pos.x + old(self).vel.x,
                0,
                PLAYAREA_X - old(self).size.x,
            ),
            final(self).pos.y == clamped(
                old(self).pos.y + old(self).vel.y,
                0,
                PLAYAREA_Y - old(self).size.y,
            ),
            final(self).vel == old(self).vel,
            final(self).size == old(self).size,
    {
        let nx: i64 = self.pos.x as i64 + self.vel.x as i64;
        let ny: i64 = self.pos.y as i64 + self.vel.y as i64;
        let hx: i64 = PLAYAREA_X as i64 - self.size.x as i64;
        let hy: i64 = PLAYAREA_Y as i64 - self.size.y as i64;
        let cx: i64 = if nx < 0 { 0 } else if nx > hx { hx } else { nx };
        let cy: i64 = if ny < 0 { 0 } else if ny > hy { hy } else { ny };
        self.pos = Vec2i { x: cx as i32, y: cy as i32 };
    }

    /// Integrate every piece in `v` one step, in place.
    pub fn integrate_all(v: &mut Vec<Piece>)
        requires
            forall|i: int| 0 <= i < old(v)@.len() ==> (#[trigger] old(v)@[i]).wf(),
        ensures
            final(v)@.len() == old(v)@.len(),
            forall|i: int| 0 <= i < old(v)@.len()
                ==> #[trigger] final(v)@[i] == old(v)@[i].spec_integrated(),
            forall|i: int| 0 <= i < final(v)@.len() ==> (#[trigger] final(v)@[i]).wf(),
    {
        let n = v.len();
        for i in 0..n
            invariant
                n == v@.len(),
                old(v)@.len() == n,
                forall|j: int| 0 <= j < i
                    ==> #[trigger] v@[j] == old(v)@[j].spec_integrated(),
                forall|j: int| i <= j < n ==> #[trigger] v@[j] == old(v)@[j],
                forall|j: int| 0 <= j < n ==> (#[trigger] old(v)@[j]).wf(),
                forall|j: int| 0 <= j < i ==> (#[trigger] v@[j]).wf(),
        {
            let mut p = v[i];
            p.update();
            v[i] = p;
        }
    }

    /// The occupied box, for collision queries.
    pub fn bounding_box(&self) -> (bb: Aabb)
        requires
            self.wf(),
        ensures
            bb == self.spec_bounding_box(),
    {
        Aabb {
            min: self.pos,
            max: Vec2i { x: self.pos.x + self.size.x, y: self.pos.y + self.size.y },
        }
    }
}

} // verus!
