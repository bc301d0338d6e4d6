use crate::collision::{check, death, out_of_bounds, DeathCause};
use crate::pipes::{
    gaps_ok, iabs, lower_pipe, move_pipes, pick_upper_y, pipes_wf, spawn_pair, scrolled,
    upper_pipe, upper_y_ok, Pipe, MIN_GAP_DELTA, PIPE_SPAWN_MS, UPPER_Y_MAX, UPPER_Y_MIN,
};
use crate::player::{
    elapsed_step, mode_step, y_step, MoveState, RedBird,
};
use crate::score::{marked, new_points, score_plus, update_score, Score};
use vstd::prelude::*;

verus! {

/// How long the game-over screen stands before the lifecycle returns to
/// the menu, in milliseconds.
pub const RESET_MS: u32 = 3000;

/// The body's lane while on the menu, in milli-units.
pub const MENU_X: i64 = -162_000;

/// The body's lane while playing (and where it stays after death), in
/// milli-units.
pub const PLAY_X: i64 = -72_000;

/// The body's height right after a lifecycle transition positions it, in
/// milli-units.
pub const START_Y: i64 = 100_000;

/// The game lifecycle. Exactly one state is current; transitions are the
/// only mutator.
#[derive(Debug, Default, Hash, PartialEq, Eq, Structural, Clone, Copy)]
pub enum GameState {
    #[default]
    MainMenu,
    InGame,
    GameOver,
}

/// The two full-screen overlay images the lifecycle toggles.
#[derive(Debug, PartialEq, Eq, Structural, Clone, Copy)]
pub enum UiImgType {
    CoverImg,
    GameOverImg,
}

/// What one tick hands back to the host: audio triggers and the score
/// digits to display.
#[derive(Debug, Clone, Copy)]
pub struct TickOutput {
    pub play_flap: bool,
    pub play_death: bool,
    pub digits: [usize; 3],
}

/// The body's velocity regime entering this tick's integration: a click
/// impulse re-arms the ascend timer.
pub open spec fn bird_mode_in(b: RedBird, clicked: bool) -> MoveState {
    if clicked {
        MoveState::Fly
    } else {
        b.move_state
    }
}

/// The ascend timer entering this tick's integration.
pub open spec fn bird_elapsed_in(b: RedBird, clicked: bool) -> int {
    if clicked {
        0
    } else {
        b.fly_elapsed_ms as int
    }
}

/// The height recorded in an optional previous-spawn value, in units.
pub open spec fn last_height(o: Option<i64>) -> i64 {
    match o {
        Option::Some(v) => v,
        Option::None => 0,
    }
}

/// Both obstacles of a pair spawned at height `uy` (units), upper first.
pub open spec fn pair_seq(uy: i64) -> Seq<Pipe> {
    seq![upper_pipe(uy), lower_pipe(uy)]
}

/// The whole simulation: the authoritative lifecycle state, the body, the
/// live obstacles, the score, the two timers, the previous spawn height,
/// and the overlay/score display visibility the host should show. The
/// ghost `upper_ys` records every spawn height ever drawn, oldest first.
pub struct World {
    pub state: GameState,
    pub bird: RedBird,
    pub pipes: Vec<Pipe>,
    pub score: Score,
    pub pipe_timer_ms: u32,
    pub reset_timer_ms: u32,
    pub last_upper_y: Option<i64>,
    pub cover_visible: bool,
    pub game_over_visible: bool,
    pub score_visible: bool,
    pub upper_ys: Ghost<Seq<int>>,
}

impl World {
    /// The reachable-world invariant: every constructor establishes it and
    /// every tick preserves it.
    pub open spec fn wf(self) -> bool {
        &&& self.bird.wf()
        &&& self.pipe_timer_ms < PIPE_SPAWN_MS
        &&& self.state is GameOver ==> self.reset_timer_ms < RESET_MS
        &&& !(self.state is GameOver) ==> self.reset_timer_ms == 0
        &&& pipes_wf(self.pipes@)
        &&& match self.last_upper_y {
            Option::Some(v) => UPPER_Y_MIN <= v <= UPPER_Y_MAX && self.upper_ys@.len() > 0
                && self.upper_ys@.last() == v as int,
            Option::None => self.upper_ys@.len() == 0,
        }
        &&& gaps_ok(self.upper_ys@)
        &&& self.state is MainMenu ==> {
            &&& self.pipes@.len() == 0
            &&& self.score.0 == 0
            &&& self.bird.x == MENU_X
            &&& self.cover_visible && !self.game_over_visible && !self.score_visible
        }
        &&& self.state is InGame ==> {
            &&& self.bird.x == PLAY_X
            &&& !out_of_bounds(self.bird.y as int)
            &&& !self.cover_visible && !self.game_over_visible && self.score_visible
        }
        &&& self.state is GameOver ==> {
            &&& self.bird.x == PLAY_X
            &&& !self.cover_visible && self.game_over_visible && self.score_visible
        }
    }

    /// The obstacle-spawn timer completes during a playing tick of `dt`.
    pub open spec fn spawn_fires(self, dt: u32) -> bool {
        self.state is InGame && self.pipe_timer_ms + dt >= PIPE_SPAWN_MS
    }

    /// The one-shot reset timer completes during a game-over tick of `dt`.
    pub open spec fn reset_fires(self, dt: u32) -> bool {
        self.state is GameOver && self.reset_timer_ms + dt >= RESET_MS
    }

    /// The body's height after this tick's integration, in milli-units.
    pub open spec fn bird_y_next(self, dt: u32, clicked: bool) -> int {
        y_step(
            bird_mode_in(self.bird, clicked),
            bird_elapsed_in(self.bird, clicked),
            self.bird.y as int,
            dt as int,
        )
    }

    /// The live obstacle set this tick's collision check and scoring see:
    /// the pair spawned this tick (if the timer fired, at height `drawn`)
    /// appended, then everything scrolled and despawned.
    pub open spec fn pipes_seen(self, dt: u32, drawn: Option<i64>) -> Seq<Pipe> {
        if self.spawn_fires(dt) {
            scrolled(self.pipes@ + pair_seq(last_height(drawn)), dt)
        } else {
            scrolled(self.pipes@, dt)
        }
    }

    /// This playing tick's death verdict, after integration and scrolling.
    pub open spec fn dies(self, dt: u32, clicked: bool, drawn: Option<i64>) -> bool {
        death(self.pipes_seen(dt, drawn), PLAY_X as int, self.bird_y_next(dt, clicked))
    }

    /// A fresh world: the lifecycle starts on the main menu with the
    /// menu's entry effects applied — body parked on the menu lane, no
    /// live obstacles, zero score, cover shown, both timers idle.
    pub fn new() -> (w: World)
        ensures
            w.wf(),
            w.state is MainMenu,
            w.score.0 == 0,
            w.pipes@.len() == 0,
            w.pipe_timer_ms == 0,
            w.reset_timer_ms == 0,
            w.last_upper_y is None,
            w.upper_ys@.len() == 0,
            w.bird == (RedBird {
                x: MENU_X,
                y: START_Y,
                move_state: MoveState::Fall,
                fly_elapsed_ms: 0,
                frame_index: 0,
                frame_timer_ms: 0,
            }),
            w.cover_visible && !w.game_over_visible && !w.score_visible,
    {
        let mut bird = RedBird::new();
        bird.reset(MENU_X, START_Y);
        World {
            state: GameState::MainMenu,
            bird,
            pipes: Vec::new(),
            score: Score(0),
            pipe_timer_ms: 0,
            reset_timer_ms: 0,
            last_upper_y: None,
            cover_visible: true,
            game_over_visible: false,
            score_visible: false,
            upper_ys: Ghost(Seq::empty()),
        }
    }

    /// Whether the given overlay image is currently shown.
    pub fn ui_img_visible(&self, which: UiImgType) -> (v: bool)
        ensures
            v == match which {
                UiImgType::CoverImg => self.cover_visible,
                UiImgType::GameOverImg => self.game_over_visible,
            },
    {
        match which {
            UiImgType::CoverImg => self.cover_visible,
            UiImgType::GameOverImg => self.game_over_visible,
        }
    }

    /// Apply the entry effects of the state just entered. Entering the
    /// menu resets everything: body to the menu lane, obstacles cleared,
    /// score zeroed, reset timer re-armed, cover shown. Entering play
    /// repositions the body on the playing lane and shows the score
    /// display. Entering game-over only swaps the overlays; the world is
    /// left as it died.
    pub fn handle_state_change(&mut self)
        ensures
            final(self).state == old(self).state,
            final(self).pipe_timer_ms == old(self).pipe_timer_ms,
            final(self).last_upper_y == old(self).last_upper_y,
            final(self).upper_ys@ == old(self).upper_ys@,
            final(self).bird.frame_index == old(self).bird.frame_index,
            final(self).bird.frame_timer_ms == old(self).bird.frame_timer_ms,
            old(self).state is MainMenu ==> {
                &&& final(self).reset_timer_ms == 0
                &&& final(self).pipes@.len() == 0
                &&& final(self).score.0 == 0
                &&& !final(self).score_visible
                &&& final(self).bird.x == MENU_X && final(self).bird.y == START_Y
                &&& final(self).bird.move_state is Fall && final(self).bird.fly_elapsed_ms == 0
                &&& final(self).cover_visible && !final(self).game_over_visible
            },
            old(self).state is InGame ==> {
                &&& final(self).reset_timer_ms == old(self).reset_timer_ms
                &&& final(self).pipes@ == old(self).pipes@
                &&& final(self).score == old(self).score
                &&& final(self).score_visible
                &&& final(self).bird.x == PLAY_X && final(self).bird.y == START_Y
                &&& final(self).bird.move_state is Fall && final(self).bird.fly_elapsed_ms == 0
                &&& !final(self).cover_visible && !final(self).game_over_visible
            },
            old(self).state is GameOver ==> {
                &&& final(self).reset_timer_ms == old(self).reset_timer_ms
                &&& final(self).pipes@ == old(self).pipes@
                &&& final(self).score == old(self).score
                &&& final(self).score_visible == old(self).score_visible
                &&& final(self).bird == old(self).bird
                &&& !final(self).cover_visible && final(self).game_over_visible
            },
            old(self).bird.wf() ==> final(self).bird.wf(),
            pipes_wf(old(self).pipes@) ==> pipes_wf(final(self).pipes@),
    {
        match self.state {
            GameState::MainMenu => {
                self.reset_timer_ms = 0;
                self.pipes.clear();
                self.score_visible = false;
                self.score = Score(0);
                self.bird.reset(MENU_X, START_Y);
                self.cover_visible = true;
                self.game_over_visible = false;
            },
            GameState::InGame => {
                self.score_visible = true;
                self.bird.reset(PLAY_X, START_Y);
                self.cover_visible = false;
                self.game_over_visible = false;
            },
            GameState::GameOver => {
                self.cover_visible = false;
                self.game_over_visible = true;
            },
        }
    }

    /// Advance the whole simulation by one tick: `dt` milliseconds have
    /// elapsed and `clicked` says whether the primary click was just
    /// pressed. The display animation always runs. On the menu, a click
    /// starts play. While playing, the body integrates, the obstacle field
    /// spawns and scrolls, then collision is judged and passes are scored,
    /// and a death moves the lifecycle to game-over. On game-over, the
    /// reset timer runs the lifecycle back to the menu, clearing the
    /// world. Returns the audio triggers and the score digits to display.
    pub fn tick(&mut self, dt: u32, clicked: bool) -> (out: TickOutput)
        requires
            old(self).wf(),
        ensures
            final(self).wf(),
            out.digits[0] == (final(self).score.0 / 100) % 10,
            out.digits[1] == (final(self).score.0 / 10) % 10,
            out.digits[2] == final(self).score.0 % 10,
            final(self).bird.frame_timer_ms == old(self).bird.frame_timer_after(dt),
            final(self).bird.frame_index == old(self).bird.frame_index_after(dt),
            old(self).state is MainMenu ==> {
                &&& final(self).state == if clicked {
                    GameState::InGame
                } else {
                    GameState::MainMenu
                }
                &&& clicked ==> final(self).bird.x == PLAY_X && final(self).bird.y == START_Y
                    && final(self).bird.move_state is Fall && final(self).bird.fly_elapsed_ms == 0
                &&& !clicked ==> final(self).bird.x == MENU_X && final(self).bird.y == old(self).bird.y && final(self).bird.move_state == old(self).bird.move_state && final(self).bird.fly_elapsed_ms == old(self).bird.fly_elapsed_ms
                &&& final(self).pipes@ == old(self).pipes@
                &&& final(self).score == old(self).score
                &&& final(self).pipe_timer_ms == old(self).pipe_timer_ms
                &&& final(self).reset_timer_ms == 0
                &&& final(self).last_upper_y == old(self).last_upper_y
                &&& final(self).upper_ys@ == old(self).upper_ys@
                &&& !out.play_flap && !out.play_death
            },
            old(self).state is InGame ==> {
                &&& out.play_flap == clicked
                &&& out.play_death == old(self).dies(dt, clicked, final(self).last_upper_y)
                &&& final(self).state == if old(self).dies(dt, clicked, final(self).last_upper_y) {
                    GameState::GameOver
                } else {
                    GameState::InGame
                }
                &&& final(self).bird.x == PLAY_X
                &&& final(self).bird.y == old(self).bird_y_next(dt, clicked)
                &&& final(self).bird.move_state == mode_step(
                    bird_mode_in(old(self).bird, clicked),
                    bird_elapsed_in(old(self).bird, clicked),
                    dt as int,
                )
                &&& final(self).bird.fly_elapsed_ms == elapsed_step(
                    bird_mode_in(old(self).bird, clicked),
                    bird_elapsed_in(old(self).bird, clicked),
                    dt as int,
                )
                &&& final(self).pipe_timer_ms as int == if old(self).spawn_fires(dt) {
                    (old(self).pipe_timer_ms + dt) % (PIPE_SPAWN_MS as int)
                } else {
                    old(self).pipe_timer_ms + dt
                }
                &&& old(self).spawn_fires(dt) ==> {
                    &&& final(self).last_upper_y is Some
                    &&& upper_y_ok(
                        last_height(final(self).last_upper_y) as int,
                        old(self).last_upper_y,
                    )
                    &&& final(self).upper_ys@ == old(self).upper_ys@.push(
                        last_height(final(self).last_upper_y) as int,
                    )
                }
                &&& !old(self).spawn_fires(dt) ==> final(self).last_upper_y == old(self).last_upper_y && final(self).upper_ys@ == old(self).upper_ys@
                &&& final(self).pipes@ == marked(
                    old(self).pipes_seen(dt, final(self).last_upper_y),
                )
                &&& final(self).score.0 as int == score_plus(
                    old(self).score.0 as int,
                    new_points(old(self).pipes_seen(dt, final(self).last_upper_y)) as int,
                )
                &&& final(self).score.0 >= old(self).score.0
                &&& final(self).reset_timer_ms == 0
                &&& old(self).dies(dt, clicked, final(self).last_upper_y) ==> !final(self).cover_visible && final(self).game_over_visible && final(self).score_visible
                &&& !old(self).dies(dt, clicked, final(self).last_upper_y) ==> final(self).cover_visible == old(self).cover_visible && final(self).game_over_visible == old(self).game_over_visible && final(self).score_visible == old(self).score_visible
            },
            old(self).state is GameOver ==> {
                &&& final(self).state == if old(self).reset_fires(dt) {
                    GameState::MainMenu
                } else {
                    GameState::GameOver
                }
                &&& old(self).reset_fires(dt) ==> {
                    &&& final(self).pipes@.len() == 0
                    &&& final(self).score.0 == 0
                    &&& final(self).reset_timer_ms == 0
                    &&& final(self).bird.x == MENU_X && final(self).bird.y == START_Y
                    &&& final(self).bird.move_state is Fall
                    &&& final(self).bird.fly_elapsed_ms == 0
                    &&& final(self).cover_visible && !final(self).game_over_visible && !final(self).score_visible
                }
                &&& !old(self).reset_fires(dt) ==> {
                    &&& final(self).pipes@ == old(self).pipes@
                    &&& final(self).score == old(self).score
                    &&& final(self).reset_timer_ms == old(self).reset_timer_ms + dt
                    &&& final(self).bird.x == old(self).bird.x && final(self).bird.y == old(self).bird.y
                    &&& final(self).bird.move_state == old(self).bird.move_state
                    &&& final(self).bird.fly_elapsed_ms == old(self).bird.fly_elapsed_ms
                    &&& !final(self).cover_visible && final(self).game_over_visible && final(self).score_visible
                }
                &&& final(self).pipe_timer_ms == old(self).pipe_timer_ms
                &&& final(self).last_upper_y == old(self).last_upper_y
                &&& final(self).upper_ys@ == old(self).upper_ys@
                &&& !out.play_flap && !out.play_death
            },
    {
        self.bird.tick_animation(dt);
        let mut play_flap = false;
        let mut play_death = false;
        match self.state {
            GameState::MainMenu => {
                if clicked {
                    self.state = GameState::InGame;
                    self.handle_state_change();
                }
            },
            GameState::InGame => {
                if clicked {
                    self.bird.activate_ascend();
                    play_flap = true;
                }
                self.bird.integrate(dt);
                let total: u64 = self.pipe_timer_ms as u64 + dt as u64;
                if total >= PIPE_SPAWN_MS as u64 {
                    self.pipe_timer_ms = (total % PIPE_SPAWN_MS as u64) as u32;
                    let uy = pick_upper_y(self.last_upper_y);
                    proof {
                        let s = self.upper_ys@;
                        let s2 = s.push(uy as int);
                        assert forall|i: int|
                            1 <= i < s2.len() implies iabs(#[trigger] s2[i] - s2[i - 1])
                            >= MIN_GAP_DELTA by {
                            if i < s.len() {
                                assert(s2[i] == s[i]);
                                assert(s2[i - 1] == s[i - 1]);
                            } else {
                                assert(s2[i] == uy as int);
                                assert(s2[i - 1] == s.last());
                            }
                        }
                    }
                    self.last_upper_y = Some(uy);
                    self.upper_ys = Ghost(self.upper_ys@.push(uy as int));
                    spawn_pair(&mut self.pipes, uy);
                } else {
                    self.pipe_timer_ms = total as u32;
                }
                move_pipes(&mut self.pipes, dt);
                let verdict: Option<DeathCause> = check(self.bird.x, self.bird.y, &self.pipes);
                let _ = update_score(&mut self.score, &mut self.pipes);
                if verdict.is_some() {
                    play_death = true;
                    self.state = GameState::GameOver;
                    self.handle_state_change();
                }
            },
            GameState::GameOver => {
                let total: u64 = self.reset_timer_ms as u64 + dt as u64;
                if total >= RESET_MS as u64 {
                    self.state = GameState::MainMenu;
                    self.handle_state_change();
                } else {
                    self.reset_timer_ms = total as u32;
                }
            },
        }
        let digits = self.score.get_img_index();
        TickOutput { play_flap, play_death, digits }
    }
}

/// Obstacle gap law: in any reachable world, every two consecutive spawn
/// heights ever drawn differ by at least the minimum delta.
pub proof fn lemma_spawn_gap_history(w: World)
    requires
        w.wf(),
    ensures
        gaps_ok(w.upper_ys@),
{
}

/// Menu score law: whenever the lifecycle sits on the main menu, the score
/// is exactly zero and no obstacles are live.
pub proof fn lemma_menu_reset(w: World)
    requires
        w.wf(),
        w.state is MainMenu,
    ensures
        w.score.0 == 0,
        w.pipes@.len() == 0,
{
}

} // verus!
