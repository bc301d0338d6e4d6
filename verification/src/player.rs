use vstd::prelude::*;

verus! {

/// Upward velocity while ascending, in units per second
/// (equivalently, milli-units per millisecond).
pub const UP_SPEED: i64 = 300;

/// Downward velocity while falling, in units per second.
pub const GRAVITY_SPEED: i64 = -150;

/// How long one click-impulse keeps the body ascending, in milliseconds.
pub const FLY_TIME_MS: u32 = 300;

/// How long each animation frame is shown, in milliseconds.
pub const FRAME_TIME_MS: u32 = 100;

/// Bound on the body's vertical position that well-formed states keep,
/// in milli-units. Wide enough that a single tick's travel never leaves it
/// when starting from the alive band.
pub const Y_LIMIT: i64 = 2_000_000_000_000;

/// Bound on the vertical position under which one integration step is free
/// of overflow and lands inside `Y_LIMIT`, in milli-units.
pub const Y_STEP_LIMIT: i64 = 300_000_000_000;

/// The body's two velocity regimes.
#[derive(Debug, PartialEq, Eq, Structural, Clone, Copy, Default)]
pub enum MoveState {
    #[default]
    Fall,
    Fly,
}

/// The controlled body: a fixed lane `x`, a mutable height `y` (both in
/// milli-units), the velocity regime with its ascend timer, and the
/// display-animation frame cycle.
#[derive(Debug, PartialEq, Eq, Structural, Clone, Copy)]
pub struct RedBird {
    pub x: i64,
    pub y: i64,
    pub move_state: MoveState,
    pub fly_elapsed_ms: u32,
    pub frame_index: usize,
    pub frame_timer_ms: u32,
}

/// Vertical velocity of a regime, in milli-units per millisecond times one.
pub open spec fn speed_of(m: MoveState) -> int {
    match m {
        MoveState::Fall => GRAVITY_SPEED as int,
        MoveState::Fly => UP_SPEED as int,
    }
}

/// The regime after one tick of `dt`: ascending reverts to falling once the
/// ascend timer completes.
pub open spec fn mode_step(m: MoveState, e: int, dt: int) -> MoveState {
    if m is Fly && e + dt >= FLY_TIME_MS {
        MoveState::Fall
    } else {
        m
    }
}

/// The ascend timer after one tick of `dt`: it advances only while
/// ascending and is capped at its duration.
pub open spec fn elapsed_step(m: MoveState, e: int, dt: int) -> int {
    if m is Fly {
        if e + dt >= FLY_TIME_MS {
            FLY_TIME_MS as int
        } else {
            e + dt
        }
    } else {
        e
    }
}

/// The height after one tick of `dt`: the whole tick travels at the
/// velocity of the regime the tick ends in.
pub open spec fn y_step(m: MoveState, e: int, y: int, dt: int) -> int {
    y + speed_of(mode_step(m, e, dt)) * dt
}

/// The height after a run of ticks `dts`, starting from regime `m` with
/// ascend timer `e` and height `y`.
pub open spec fn run_y(m: MoveState, e: int, y: int, dts: Seq<int>) -> int
    decreases dts.len(),
{
    if dts.len() == 0 {
        y
    } else {
        run_y(
            mode_step(m, e, dts[0]),
            elapsed_step(m, e, dts[0]),
            y_step(m, e, y, dts[0]),
            dts.drop_first(),
        )
    }
}

/// The regime after a run of ticks `dts`.
pub open spec fn run_mode(m: MoveState, e: int, dts: Seq<int>) -> MoveState
    decreases dts.len(),
{
    if dts.len() == 0 {
        m
    } else {
        run_mode(mode_step(m, e, dts[0]), elapsed_step(m, e, dts[0]), dts.drop_first())
    }
}

/// Total duration of a run of ticks, in milliseconds.
pub open spec fn dts_total(dts: Seq<int>) -> int
    decreases dts.len(),
{
    if dts.len() == 0 {
        0
    } else {
        dts[0] + dts_total(dts.drop_first())
    }
}

impl RedBird {
    /// Internal invariant: the ascend timer is short of its duration while
    /// ascending, the animation cycle is inside its three frames and its
    /// period, and the height is inside the wide world band.
    pub open spec fn wf(self) -> bool {
        &&& self.move_state is Fly ==> self.fly_elapsed_ms < FLY_TIME_MS
        &&& self.frame_index <= 2
        &&& self.frame_timer_ms < FRAME_TIME_MS
        &&& -Y_LIMIT <= self.y <= Y_LIMIT
    }

    pub open spec fn mode_after(self, dt: u32) -> MoveState {
        mode_step(self.move_state, self.fly_elapsed_ms as int, dt as int)
    }

    pub open spec fn fly_elapsed_after(self, dt: u32) -> int {
        elapsed_step(self.move_state, self.fly_elapsed_ms as int, dt as int)
    }

    pub open spec fn y_after(self, dt: u32) -> int {
        y_step(self.move_state, self.fly_elapsed_ms as int, self.y as int, dt as int)
    }

    /// Whether the animation timer completes during a tick of `dt`.
    pub open spec fn frame_fires(self, dt: u32) -> bool {
        self.frame_timer_ms + dt >= FRAME_TIME_MS
    }

    pub open spec fn frame_timer_after(self, dt: u32) -> int {
        if self.frame_fires(dt) {
            (self.frame_timer_ms + dt) % (FRAME_TIME_MS as int)
        } else {
            self.frame_timer_ms + dt
        }
    }

    pub open spec fn frame_index_after(self, dt: u32) -> int {
        if self.frame_fires(dt) {
            if self.frame_index < 2 {
                self.frame_index + 1
            } else {
                0
            }
        } else {
            self.frame_index as int
        }
    }

    /// A fresh body, before any lifecycle transition has positioned it.
    pub fn new() -> (b: RedBird)
        ensures
            b == (RedBird {
                x: 0,
                y: 0,
                move_state: MoveState::Fall,
                fly_elapsed_ms: 0,
                frame_index: 0,
                frame_timer_ms: 0,
            }),
            b.wf(),
    {
        RedBird {
            x: 0,
            y: 0,
            move_state: MoveState::Fall,
            fly_elapsed_ms: 0,
            frame_index: 0,
            frame_timer_ms: 0,
        }
    }

    /// Advance the ascend timer, revert to falling once it completes, and
    /// apply this tick's vertical velocity to the height.
    pub fn integrate(&mut self, dt: u32)
        requires
            -Y_STEP_LIMIT <= old(self).y <= Y_STEP_LIMIT,
        ensures
            final(self).move_state == old(self).mode_after(dt),
            final(self).fly_elapsed_ms == old(self).fly_elapsed_after(dt),
            final(self).y == old(self).y_after(dt),
            -Y_LIMIT < final(self).y < Y_LIMIT,
            final(self).x == old(self).x,
            final(self).frame_index == old(self).frame_index,
            final(self).frame_timer_ms == old(self).frame_timer_ms,
            old(self).wf() ==> final(self).wf(),
    {
        if self.move_state == MoveState::Fly {
            let total: u64 = self.fly_elapsed_ms as u64 + dt as u64;
            if total >= FLY_TIME_MS as u64 {
                self.move_state = MoveState::Fall;
                self.fly_elapsed_ms = FLY_TIME_MS;
            } else {
                self.fly_elapsed_ms = total as u32;
            }
        }
        let dtw: i64 = dt as i64;
        let delta: i64 = match self.move_state {
            MoveState::Fall => (-150) * dtw,
            MoveState::Fly => 300 * dtw,
        };
        proof {
            assert(delta == speed_of(self.move_state) * (dt as int));
        }
        self.y = self.y + delta;
    }

    /// Advance the always-running three-frame display cycle: when the frame
    /// timer completes it wraps and the frame index steps through 0, 1, 2.
    pub fn tick_animation(&mut self, dt: u32)
        ensures
            final(self).frame_timer_ms == old(self).frame_timer_after(dt),
            final(self).frame_index == old(self).frame_index_after(dt),
            final(self).x == old(self).x,
            final(self).y == old(self).y,
            final(self).move_state == old(self).move_state,
            final(self).fly_elapsed_ms == old(self).fly_elapsed_ms,
            old(self).wf() ==> final(self).wf(),
    {
        let total: u64 = self.frame_timer_ms as u64 + dt as u64;
        if total >= FRAME_TIME_MS as u64 {
            self.frame_timer_ms = (total % FRAME_TIME_MS as u64) as u32;
            self.frame_index = if self.frame_index < 2 {
                self.frame_index + 1
            } else {
                0
            };
        } else {
            self.frame_timer_ms = total as u32;
        }
    }

    /// A click impulse: restart the ascend timer and switch to ascending.
    pub fn activate_ascend(&mut self)
        ensures
            final(self).move_state is Fly,
            final(self).fly_elapsed_ms == 0,
            final(self).x == old(self).x,
            final(self).y == old(self).y,
            final(self).frame_index == old(self).frame_index,
            final(self).frame_timer_ms == old(self).frame_timer_ms,
            old(self).wf() ==> final(self).wf(),
    {
        self.fly_elapsed_ms = 0;
        self.move_state = MoveState::Fly;
    }

    /// Reposition the body for a lifecycle transition: place it on lane `x`
    /// at height `y`, falling, with the ascend timer cleared.
    pub fn reset(&mut self, x: i64, y: i64)
        requires
            -Y_LIMIT <= y <= Y_LIMIT,
        ensures
            final(self).x == x,
            final(self).y == y,
            final(self).move_state is Fall,
            final(self).fly_elapsed_ms == 0,
            final(self).frame_index == old(self).frame_index,
            final(self).frame_timer_ms == old(self).frame_timer_ms,
            old(self).wf() ==> final(self).wf(),
    {
        self.x = x;
        self.y = y;
        self.move_state = MoveState::Fall;
        self.fly_elapsed_ms = 0;
    }

    /// The display rotation is discrete: nose-down an eighth turn while
    /// falling, level while ascending.
    pub fn rotated_down(&self) -> (r: bool)
        ensures
            r == (self.move_state is Fall),
    {
        self.move_state == MoveState::Fall
    }
}

/// While falling, every tick keeps the body falling, and no run of
/// non-negative ticks ever raises the height.
pub proof fn lemma_falling_never_rises(e: int, y: int, dts: Seq<int>)
    requires
        forall|i: int| 0 <= i < dts.len() ==> dts[i] >= 0,
    ensures
        run_y(MoveState::Fall, e, y, dts) <= y,
    decreases dts.len(),
{
    if dts.len() > 0 {
        assert(forall|i: int|
            0 <= i < dts.drop_first().len() ==> dts.drop_first()[i] == dts[i + 1]);
        let y2 = y_step(MoveState::Fall, e, y, dts[0]);
        assert(mode_step(MoveState::Fall, e, dts[0]) is Fall);
        assert(y2 == y + (-150) * dts[0]);
        lemma_falling_never_rises(e, y2, dts.drop_first());
    }
}

/// While falling, repeated integration strictly and monotonically lowers
/// the height: any non-empty run of positive ticks ends strictly below the
/// starting height, and the mode never leaves `Fall`.
pub proof fn lemma_falling_descends(e: int, y: int, dts: Seq<int>)
    requires
        dts.len() > 0,
        forall|i: int| 0 <= i < dts.len() ==> dts[i] > 0,
    ensures
        run_y(MoveState::Fall, e, y, dts) < y,
    decreases dts.len(),
{
    let y2 = y_step(MoveState::Fall, e, y, dts[0]);
    assert(mode_step(MoveState::Fall, e, dts[0]) is Fall);
    assert(y2 == y + (-150) * dts[0]);
    assert(y2 < y);
    if dts.len() == 1 {
        assert(run_y(MoveState::Fall, e, y2, dts.drop_first()) == y2);
    } else {
        assert(forall|i: int|
            0 <= i < dts.drop_first().len() ==> dts.drop_first()[i] == dts[i + 1]);
        lemma_falling_descends(e, y2, dts.drop_first());
    }
}

proof fn lemma_positive_total(dts: Seq<int>)
    requires
        forall|i: int| 0 <= i < dts.len() ==> dts[i] > 0,
    ensures
        dts_total(dts) >= 0,
    decreases dts.len(),
{
    if dts.len() > 0 {
        assert(forall|i: int|
            0 <= i < dts.drop_first().len() ==> dts.drop_first()[i] == dts[i + 1]);
        lemma_positive_total(dts.drop_first());
    }
}

/// While ascending, repeated integration strictly and monotonically raises
/// the height as long as the ascend timer stays short of its duration: a
/// non-empty run of positive ticks whose total leaves the timer short ends
/// strictly above the starting height, still ascending.
pub proof fn lemma_ascending_run(e: int, y: int, dts: Seq<int>)
    requires
        0 <= e,
        dts.len() > 0,
        forall|i: int| 0 <= i < dts.len() ==> dts[i] > 0,
        e + dts_total(dts) < FLY_TIME_MS,
    ensures
        run_mode(MoveState::Fly, e, dts) is Fly,
        run_y(MoveState::Fly, e, y, dts) > y,
    decreases dts.len(),
{
    let rest = dts.drop_first();
    assert(forall|i: int| 0 <= i < rest.len() ==> rest[i] == dts[i + 1]);
    lemma_positive_total(rest);
    let d0 = dts[0];
    assert(e + d0 < FLY_TIME_MS);
    assert(mode_step(MoveState::Fly, e, d0) is Fly);
    let e2 = elapsed_step(MoveState::Fly, e, d0);
    let y2 = y_step(MoveState::Fly, e, y, d0);
    assert(y2 == y + 300 * d0);
    if rest.len() > 0 {
        lemma_ascending_run(e2, y2, rest);
    }
}

/// While ascending, a positive tick that leaves the ascend timer short of
/// its duration keeps the body ascending and strictly raises the height;
/// a tick that completes the timer reverts the mode to falling.
pub proof fn lemma_ascending_rises(e: int, y: int, dt: int)
    requires
        dt > 0,
    ensures
        e + dt < FLY_TIME_MS ==> mode_step(MoveState::Fly, e, dt) is Fly
            && y_step(MoveState::Fly, e, y, dt) > y,
        e + dt >= FLY_TIME_MS ==> mode_step(MoveState::Fly, e, dt) is Fall,
{
    if e + dt < FLY_TIME_MS {
        assert(mode_step(MoveState::Fly, e, dt) is Fly);
        assert(y_step(MoveState::Fly, e, y, dt) == y + 300 * dt);
    }
}

} // verus!
