use gridgame::constants::{PIECE_SIZE, PLAYAREA_X, PLAYAREA_Y};
use gridgame::geom::{Aabb, Vec2i, overlaps_exec, sqdist_exec};
use gridgame::piece::Piece;

#[test]
fn move_by_commits_in_bounds_moves() {
    let mut p = Piece::new(0, 0);
    assert!(p.move_by(Vec2i { x: 10, y: 20 }));
    assert_eq!(p.pos, Vec2i { x: 10, y: 20 });
    assert_eq!(p.vel, Vec2i { x: 0, y: 0 });
    assert_eq!(p.size, Vec2i { x: PIECE_SIZE, y: PIECE_SIZE });
}

#[test]
fn move_by_rejects_negative_coordinates() {
    let mut p = Piece::new(5, 5);
    assert!(!p.move_by(Vec2i { x: -6, y: 0 }));
    assert_eq!(p.pos, Vec2i { x: 5, y: 5 });
    assert!(!p.move_by(Vec2i { x: 0, y: -6 }));
    assert_eq!(p.pos, Vec2i { x: 5, y: 5 });
}

#[test]
fn move_by_rejects_when_box_exits_playfield() {
    let mut p = Piece::new(0, 0);
    // The far corner may reach exactly the playfield edge, not beyond.
    assert!(p.move_by(Vec2i { x: PLAYAREA_X - PIECE_SIZE, y: PLAYAREA_Y - PIECE_SIZE }));
    assert_eq!(p.pos, Vec2i { x: PLAYAREA_X - PIECE_SIZE, y: PLAYAREA_Y - PIECE_SIZE });
    assert!(!p.move_by(Vec2i { x: 1, y: 0 }));
    assert!(!p.move_by(Vec2i { x: 0, y: 1 }));
    assert_eq!(p.pos, Vec2i { x: PLAYAREA_X - PIECE_SIZE, y: PLAYAREA_Y - PIECE_SIZE });
}

#[test]
fn integration_adds_velocity() {
    let mut p = Piece::new(100, 100);
    p.vel = Vec2i { x: 3, y: -2 };
    p.update();
    assert_eq!(p.pos, Vec2i { x: 103, y: 98 });
    assert_eq!(p.vel, Vec2i { x: 3, y: -2 });
}

#[test]
fn integration_clamps_at_the_playfield_edge() {
    let mut p = Piece::new(1, 0);
    p.vel = Vec2i { x: -5, y: 7 };
    p.update();
    assert_eq!(p.pos, Vec2i { x: 0, y: 7 });
    let mut q = Piece::new(PLAYAREA_X - PIECE_SIZE, 10);
    q.vel = Vec2i { x: 9, y: 0 };
    q.update();
    assert_eq!(q.pos, Vec2i { x: PLAYAREA_X - PIECE_SIZE, y: 10 });
}

#[test]
fn bounding_box_spans_pos_to_pos_plus_size() {
    let p = Piece::new(30, 40);
    let bb = p.bounding_box();
    assert_eq!(bb.min, Vec2i { x: 30, y: 40 });
    assert_eq!(bb.max, Vec2i { x: 30 + PIECE_SIZE, y: 40 + PIECE_SIZE });
}

#[test]
fn boxes_touching_along_an_edge_do_not_overlap() {
    let a = Aabb { min: Vec2i { x: 0, y: 0 }, max: Vec2i { x: 96, y: 96 } };
    let b = Aabb { min: Vec2i { x: 96, y: 0 }, max: Vec2i { x: 192, y: 96 } };
    let c = Aabb { min: Vec2i { x: 95, y: 95 }, max: Vec2i { x: 191, y: 191 } };
    assert!(!overlaps_exec(&a, &b));
    assert!(overlaps_exec(&a, &c));
    assert!(overlaps_exec(&c, &a));
}

#[test]
fn squared_distance_is_exact() {
    let p = Vec2i { x: 3, y: 4 };
    let q = Vec2i { x: 0, y: 0 };
    assert_eq!(sqdist_exec(&p, &q), 25);
    assert_eq!(sqdist_exec(&q, &p), 25);
    assert_eq!(sqdist_exec(&p, &p), 0);
}
