use flappy_core::pipes::Pipe;
use flappy_core::world::{GameState, UiImgType, World};

#[test]
fn initial_world_shows_cover() {
    let w = World::new();
    assert_eq!(w.state, GameState::MainMenu);
    assert_eq!(w.score.0, 0);
    assert!(w.pipes.is_empty());
    assert!(w.cover_visible);
    assert!(!w.game_over_visible);
    assert!(!w.score_visible);
    assert_eq!(w.bird.x, -162_000);
    assert_eq!(w.bird.y, 100_000);
    assert!(w.ui_img_visible(UiImgType::CoverImg));
    assert!(!w.ui_img_visible(UiImgType::GameOverImg));
}

#[test]
fn menu_waits_and_animates() {
    let mut w = World::new();
    for _ in 0..5 {
        let out = w.tick(100, false);
        assert!(!out.play_flap);
        assert!(!out.play_death);
    }
    assert_eq!(w.state, GameState::MainMenu);
    // the frame cycle runs even on the menu; nothing else moves
    assert_eq!(w.bird.frame_index, 2);
    assert_eq!(w.bird.y, 100_000);
    assert_eq!(w.pipe_timer_ms, 0);
}

#[test]
fn click_starts_game() {
    let mut w = World::new();
    let out = w.tick(16, true);
    assert_eq!(w.state, GameState::InGame);
    assert_eq!(w.bird.x, -72_000);
    assert_eq!(w.bird.y, 100_000);
    assert!(w.score_visible);
    assert!(!w.cover_visible);
    assert!(!w.game_over_visible);
    // the starting click is not yet a flap
    assert!(!out.play_flap);
}

#[test]
fn spawn_fires_at_two_seconds() {
    let mut w = World::new();
    w.tick(100, true);
    assert_eq!(w.state, GameState::InGame);
    // click every 0.6 s to hold the body inside the playable band
    for c in 1..=19u32 {
        let clicked = c % 6 == 1;
        let out = w.tick(100, clicked);
        assert_eq!(out.play_flap, clicked);
        assert_eq!(w.state, GameState::InGame);
        assert!(w.pipes.is_empty());
    }
    // the 2.0 s spawn timer fires on the 20th playing tick: one pair,
    // spawned on the right edge and already scrolled by this tick
    w.tick(100, false);
    assert_eq!(w.state, GameState::InGame);
    assert_eq!(w.pipes.len(), 2);
    assert_eq!(w.pipes[0].x, 162_500);
    assert_eq!(w.pipes[1].x, 162_500);
    assert!(w.pipes[0].y >= 232_000 && w.pipes[0].y <= 350_000);
    assert_eq!(w.pipes[1].y, w.pipes[0].y - 470_000);
    assert!(!w.pipes[0].check && !w.pipes[1].check);
}

#[test]
fn falling_out_of_bounds_ends_game() {
    let mut w = World::new();
    w.tick(100, true);
    // from 100 units up, falling at 150 units/s: out of bounds (< -132)
    // on the 16th playing tick
    for _ in 1..=15u32 {
        let out = w.tick(100, false);
        assert_eq!(w.state, GameState::InGame);
        assert!(!out.play_death);
    }
    let out = w.tick(100, false);
    assert!(out.play_death);
    assert_eq!(w.state, GameState::GameOver);
    assert_eq!(w.bird.y, -140_000);
    assert!(w.game_over_visible);
    assert!(!w.cover_visible);
    assert!(w.score_visible);
}

#[test]
fn game_over_resets_after_three_seconds() {
    let mut w = World::new();
    w.tick(100, true);
    for _ in 1..=16u32 {
        w.tick(100, false);
    }
    assert_eq!(w.state, GameState::GameOver);
    let spawn_timer_at_death: u32 = w.pipe_timer_ms;
    // pretend some points were earned before dying
    w.score.0 = 7;
    // clicks are ignored while the game-over screen stands
    for _ in 1..=29u32 {
        let out = w.tick(100, true);
        assert_eq!(w.state, GameState::GameOver);
        assert!(!out.play_flap);
    }
    // the one-shot 3.0 s timer fires: back to the menu, world cleared
    let out = w.tick(100, false);
    assert_eq!(w.state, GameState::MainMenu);
    assert_eq!(w.score.0, 0);
    assert_eq!(out.digits, [0, 0, 0]);
    assert!(w.pipes.is_empty());
    assert!(w.cover_visible);
    assert!(!w.game_over_visible);
    assert!(!w.score_visible);
    assert_eq!(w.bird.x, -162_000);
    assert_eq!(w.bird.y, 100_000);
    assert_eq!(w.reset_timer_ms, 0);
    // the spawn timer is not ticked while dead, nor reset by the menu
    assert_eq!(w.pipe_timer_ms, spawn_timer_at_death);
}

#[test]
fn pass_through_scores_through_tick() {
    let mut w = World::new();
    w.tick(100, true);
    // seed a pair just ahead of the scoring line whose gap the body is in
    w.pipes = vec![
        Pipe { x: -71_900, y: 330_000, check: false },
        Pipe { x: -71_900, y: -140_000, check: false },
    ];
    let out = w.tick(100, false);
    assert_eq!(w.state, GameState::InGame);
    assert!(!out.play_death);
    assert_eq!(w.score.0, 1);
    assert_eq!(out.digits, [0, 0, 1]);
    assert!(w.pipes[0].check);
    assert!(!w.pipes[1].check);
    // the same pair is never counted twice
    let out2 = w.tick(100, false);
    assert_eq!(w.score.0, 1);
    assert_eq!(out2.digits, [0, 0, 1]);
}

#[test]
fn score_never_decreases_while_playing() {
    let mut w = World::new();
    let mut c: u32 = 0;
    let mut prev_score: usize = 0;
    for _ in 0..2_000u32 {
        let clicked = match w.state {
            GameState::MainMenu => true,
            GameState::InGame => c % 6 == 1,
            GameState::GameOver => false,
        };
        let was_playing = w.state == GameState::InGame;
        if was_playing {
            c += 1;
        } else {
            c = 0;
        }
        w.tick(100, clicked);
        if was_playing && w.state == GameState::InGame {
            assert!(w.score.0 >= prev_score);
        }
        prev_score = w.score.0;
    }
}

#[test]
fn spawn_gaps_stay_apart() {
    let mut w = World::new();
    let mut c: u32 = 0;
    let mut prev_upper: Option<i64> = None;
    let mut spawns: u32 = 0;
    for _ in 0..30_000u32 {
        let clicked = match w.state {
            GameState::MainMenu => true,
            GameState::InGame => c % 6 == 1,
            GameState::GameOver => false,
        };
        if w.state == GameState::InGame {
            c += 1;
        } else {
            c = 0;
        }
        w.tick(100, clicked);
        let n = w.pipes.len();
        // a pair spawned this tick sits exactly one tick of scroll in
        if n >= 2 && w.pipes[n - 1].x == 162_500 {
            let upper_units: i64 = w.pipes[n - 2].y / 1000;
            assert!((232..=350).contains(&upper_units));
            if let Some(p) = prev_upper {
                assert!((upper_units - p).abs() >= 30);
            }
            prev_upper = Some(upper_units);
            spawns += 1;
        }
    }
    assert!(spawns >= 20);
}
