use gridgame::geom::{Aabb, Vec2i};
use gridgame::spatial::{contains_idx, query_overlaps};

fn boxed(x: i32, y: i32) -> Aabb {
    Aabb { min: Vec2i { x, y }, max: Vec2i { x: x + 96, y: y + 96 } }
}

#[test]
fn query_reports_exactly_the_overlapping_candidates() {
    let query = boxed(100, 100);
    let candidates = vec![
        boxed(100, 100), // same box: overlaps
        boxed(500, 500), // far away: no
        boxed(150, 150), // diagonal overlap: yes
        boxed(196, 100), // touching on the right edge: no
        boxed(100, 101), // one unit down: yes
    ];
    let hits = query_overlaps(&query, &candidates);
    assert_eq!(hits, vec![0, 2, 4]);
}

#[test]
fn query_result_is_insertion_order_independent() {
    let query = boxed(100, 100);
    let a = boxed(120, 120);
    let b = boxed(700, 50);
    let c = boxed(30, 30);
    let one = vec![a, b, c];
    let two = vec![c, a, b];
    let hits_one = query_overlaps(&query, &one);
    let hits_two = query_overlaps(&query, &two);
    let boxes_one: Vec<Aabb> = hits_one.iter().map(|&i| one[i]).collect();
    let boxes_two: Vec<Aabb> = hits_two.iter().map(|&i| two[i]).collect();
    assert_eq!(boxes_one, vec![a, c]);
    assert_eq!(boxes_two, vec![c, a]);
}

#[test]
fn query_on_no_candidates_finds_nothing() {
    let query = boxed(0, 0);
    let hits = query_overlaps(&query, &Vec::new());
    assert!(hits.is_empty());
}

#[test]
fn contains_idx_finds_members_only() {
    let hits = vec![1usize, 3, 5];
    assert!(contains_idx(&hits, 3));
    assert!(!contains_idx(&hits, 2));
    assert!(!contains_idx(&hits, 0));
}
