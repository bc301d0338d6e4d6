use flappy_core::collision::{check, DeathCause};
use flappy_core::pipes::{move_pipes, spawn_pair, Pipe};
use flappy_core::score::{update_score, Index, Score, ScoreImg};

#[test]
fn display_slots_pick_their_digit() {
    let digits = Score(123).get_img_index();
    assert_eq!(ScoreImg(Index::Hundreds).glyph_index(digits), 1);
    assert_eq!(ScoreImg(Index::Tens).glyph_index(digits), 2);
    assert_eq!(ScoreImg(Index::Units).glyph_index(digits), 3);
}

#[test]
fn digits_decompose_exactly() {
    assert_eq!(Score(0).get_img_index(), [0, 0, 0]);
    assert_eq!(Score(7).get_img_index(), [0, 0, 7]);
    assert_eq!(Score(42).get_img_index(), [0, 4, 2]);
    assert_eq!(Score(123).get_img_index(), [1, 2, 3]);
    assert_eq!(Score(999).get_img_index(), [9, 9, 9]);
    assert_eq!(Score(1000).get_img_index(), [0, 0, 0]);
}

#[test]
fn digits_recompose_to_score() {
    for s in 0..1000usize {
        let d = Score(s).get_img_index();
        assert_eq!(d[0] * 100 + d[1] * 10 + d[2], s);
    }
}

#[test]
fn out_of_bounds_boundaries() {
    let none: Vec<Pipe> = Vec::new();
    // 245 units up: dead; 244: alive (exclusive bound)
    assert_eq!(check(-72_000, 245_000, &none), Some(DeathCause::OutOfBounds));
    assert_eq!(check(-72_000, 244_000, &none), None);
    assert_eq!(check(-72_000, -132_000, &none), None);
    assert_eq!(check(-72_000, -132_001, &none), Some(DeathCause::OutOfBounds));
}

#[test]
fn overlap_boundaries() {
    let bx: i64 = -72_000;
    let by: i64 = 0;
    // obstacle 42 units right and 171 up of the body: overlap, dead
    let hit = vec![Pipe { x: bx + 42_000, y: by + 171_000, check: false }];
    assert_eq!(check(bx, by, &hit), Some(DeathCause::PipeHit));
    // 43 units away horizontally: boundary is exclusive, alive
    let near_x = vec![Pipe { x: bx + 43_000, y: by + 171_000, check: false }];
    assert_eq!(check(bx, by, &near_x), None);
    // 172 units away vertically: alive
    let near_y = vec![Pipe { x: bx + 42_000, y: by + 172_000, check: false }];
    assert_eq!(check(bx, by, &near_y), None);
}

#[test]
fn bounds_cause_wins_over_overlap() {
    let both = vec![Pipe { x: -72_000, y: 245_000, check: false }];
    assert_eq!(check(-72_000, 245_000, &both), Some(DeathCause::OutOfBounds));
}

#[test]
fn pass_scores_once() {
    let mut score = Score(0);
    let mut pipes = vec![
        // the pair's upper obstacle, already past the body's lane: scores
        Pipe { x: -73_000, y: 250_000, check: false },
        // its lower partner never scores (below the height threshold)
        Pipe { x: -73_000, y: -220_000, check: false },
    ];
    let digits = update_score(&mut score, &mut pipes);
    assert_eq!(score.0, 1);
    assert_eq!(digits, [0, 0, 1]);
    assert!(pipes[0].check);
    assert!(!pipes[1].check);
    // the marked obstacle is not counted again
    let digits2 = update_score(&mut score, &mut pipes);
    assert_eq!(score.0, 1);
    assert_eq!(digits2, [0, 0, 1]);
}

#[test]
fn pass_line_is_exclusive() {
    let mut score = Score(0);
    let mut at_line = vec![Pipe { x: -72_000, y: 250_000, check: false }];
    update_score(&mut score, &mut at_line);
    assert_eq!(score.0, 0);
    let mut past_line = vec![Pipe { x: -72_001, y: 250_000, check: false }];
    update_score(&mut score, &mut past_line);
    assert_eq!(score.0, 1);
}

#[test]
fn pair_scrolls_and_despawns() {
    let mut pipes: Vec<Pipe> = Vec::new();
    spawn_pair(&mut pipes, 300);
    assert_eq!(pipes.len(), 2);
    assert_eq!(pipes[0].x, 171_000);
    assert_eq!(pipes[0].y, 300_000);
    assert_eq!(pipes[1].x, 171_000);
    assert_eq!(pipes[1].y, -170_000);
    // scrolling at -85 units/s, 20 ms per tick: 1.7 units per tick
    for k in 1..=201i64 {
        move_pipes(&mut pipes, 20);
        assert_eq!(pipes.len(), 2);
        assert_eq!(pipes[0].x, 171_000 - 1_700 * k);
    }
    // x = -170.7: not yet past the despawn line
    assert_eq!(pipes[0].x, -170_700);
    // the tick that carries the pair past x = -171 removes it, about
    // (171 - (-171)) / 85 = 4.02 s after spawn
    move_pipes(&mut pipes, 20);
    assert_eq!(pipes.len(), 0);
}

#[test]
fn pair_members_tell_apart() {
    let mut pipes: Vec<Pipe> = Vec::new();
    spawn_pair(&mut pipes, 232);
    assert!(pipes[0].is_upper());
    assert!(!pipes[1].is_upper());
}
