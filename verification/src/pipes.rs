use rand::Rng;
use vstd::prelude::*;

verus! {

/// Obstacle scroll velocity, in units per second.
pub const PIPE_SPEED: i64 = -85;

/// Time between obstacle spawns, in milliseconds.
pub const PIPE_SPAWN_MS: u32 = 2000;

/// Horizontal position where a pair spawns, in milli-units.
pub const PIPE_SPAWN_X: i64 = 171_000;

/// Horizontal position below which an obstacle despawns, in milli-units.
pub const PIPE_DESPAWN_X: i64 = -171_000;

/// Vertical distance between the upper and lower obstacle of one pair,
/// in milli-units.
pub const PIPE_GAP: i64 = 470_000;

/// Bounds of the randomized upper-obstacle height, in units.
pub const UPPER_Y_MIN: i64 = 232;

pub const UPPER_Y_MAX: i64 = 350;

/// Minimum difference between consecutive spawns' upper heights, in units.
pub const MIN_GAP_DELTA: i64 = 30;

/// Vertical band that holds every spawned obstacle, in milli-units.
pub const PIPE_Y_LOW: i64 = -238_000;

pub const PIPE_Y_HIGH: i64 = 350_000;

/// One obstacle: a scrolling `x`, a `y` fixed after spawn (both in
/// milli-units), and whether it has been counted for score.
#[derive(Debug, Default, PartialEq, Eq, Structural, Clone, Copy)]
pub struct Pipe {
    pub x: i64,
    pub y: i64,
    pub check: bool,
}

impl Pipe {
    /// Whether this obstacle is its pair's upper, display-inverted member
    /// (the one a renderer shows rotated a half turn, and the one whose
    /// pass is scored): always the member at or above the random band's
    /// floor.
    pub fn is_upper(&self) -> (r: bool)
        ensures
            r == (self.y >= UPPER_Y_MIN * 1000),
    {
        self.y >= UPPER_Y_MIN * 1000
    }
}

/// Magnitude of an integer.
pub open spec fn iabs(x: int) -> int {
    if x < 0 {
        -x
    } else {
        x
    }
}

/// A live obstacle stays inside the horizontal scroll corridor — never
/// past the despawn line — and the vertical spawn band.
pub open spec fn pipe_wf(p: Pipe) -> bool {
    &&& PIPE_DESPAWN_X <= p.x <= PIPE_SPAWN_X
    &&& PIPE_Y_LOW <= p.y <= PIPE_Y_HIGH
}

pub open spec fn pipes_wf(ps: Seq<Pipe>) -> bool {
    forall|i: int| 0 <= i < ps.len() ==> pipe_wf(#[trigger] ps[i])
}

/// One obstacle after a tick of `dt`: scrolled left by the tick's travel.
pub open spec fn pipe_moved(p: Pipe, dt: u32) -> Pipe {
    Pipe { x: (p.x - 85 * (dt as int)) as i64, y: p.y, check: p.check }
}

/// The live set after a tick of `dt`: every obstacle scrolls left by the
/// tick's travel, and one whose scrolled `x` lies past the despawn line is
/// removed that same tick.
pub open spec fn scrolled(ps: Seq<Pipe>, dt: u32) -> Seq<Pipe>
    decreases ps.len(),
{
    if ps.len() == 0 {
        Seq::<Pipe>::empty()
    } else {
        let front = scrolled(ps.drop_last(), dt);
        let p = pipe_moved(ps.last(), dt);
        if p.x < PIPE_DESPAWN_X {
            front
        } else {
            front.push(p)
        }
    }
}

/// The upper (display-inverted) obstacle of a pair spawned at height `uy`
/// (units).
pub open spec fn upper_pipe(uy: i64) -> Pipe {
    Pipe { x: PIPE_SPAWN_X, y: (uy * 1000) as i64, check: false }
}

/// The lower obstacle of the same pair, a fixed gap below the upper one.
pub open spec fn lower_pipe(uy: i64) -> Pipe {
    Pipe { x: PIPE_SPAWN_X, y: (uy * 1000 - PIPE_GAP) as i64, check: false }
}

/// An admissible upper height for the next spawn, given the previous
/// spawn's height: inside the random band and, when a previous spawn
/// exists, at least the minimum delta away from it.
pub open spec fn upper_y_ok(uy: int, last: Option<i64>) -> bool {
    &&& UPPER_Y_MIN <= uy <= UPPER_Y_MAX
    &&& match last {
        Option::Some(v) => iabs(uy - v) >= MIN_GAP_DELTA,
        Option::None => true,
    }
}

/// Every pair of consecutive spawn heights (units) differs by at least the
/// minimum delta.
pub open spec fn gaps_ok(ys: Seq<int>) -> bool {
    forall|i: int| 1 <= i < ys.len() ==> iabs(#[trigger] ys[i] - ys[i - 1]) >= MIN_GAP_DELTA
}

/// Relies on rand: `thread_rng` hands out the thread-local generator and
/// `Rng::gen_range` returns a value inside the given non-empty inclusive
/// range. Nothing more is assumed of the draw.
#[verifier::external_body]
fn draw_upper_y() -> (r: i64)
    ensures
        UPPER_Y_MIN <= r <= UPPER_Y_MAX,
{
    rand::thread_rng().gen_range(232..=350)
}

/// Draw the upper height for the next spawn: redraw while the candidate
/// sits closer than the minimum delta to the previous spawn's height.
/// The redraws are bounded so the loop provably terminates; when the bound
/// runs out, the far end of the band is taken, which is always admissible
/// (each redraw misses with probability below one half, so the fallback is
/// unreached in practice).
pub fn pick_upper_y(last: Option<i64>) -> (r: i64)
    requires
        match last {
            Option::Some(v) => UPPER_Y_MIN <= v <= UPPER_Y_MAX,
            Option::None => true,
        },
    ensures
        upper_y_ok(r as int, last),
{
    let mut tries: u32 = 0;
    while tries < 1000
        invariant
            match last {
                Option::Some(v) => UPPER_Y_MIN <= v <= UPPER_Y_MAX,
                Option::None => true,
            },
        decreases 1000 - tries,
    {
        let y = draw_upper_y();
        match last {
            Option::None => {
                return y;
            },
            Option::Some(v) => {
                let d: i64 = if y >= v {
                    y - v
                } else {
                    v - y
                };
                if d >= MIN_GAP_DELTA {
                    return y;
                }
            },
        }
        tries = tries + 1;
    }
    match last {
        Option::None => UPPER_Y_MIN,
        Option::Some(v) => if v >= 291 {
            UPPER_Y_MIN
        } else {
            UPPER_Y_MAX
        },
    }
}

/// Append one freshly spawned pair at the spawn line: the upper obstacle
/// at the drawn height, the lower one a fixed gap below, neither counted.
pub fn spawn_pair(pipes: &mut Vec<Pipe>, upper_y: i64)
    requires
        UPPER_Y_MIN <= upper_y <= UPPER_Y_MAX,
    ensures
        final(pipes)@ == old(pipes)@ + seq![upper_pipe(upper_y), lower_pipe(upper_y)],
        pipes_wf(old(pipes)@) ==> pipes_wf(final(pipes)@),
{
    pipes.push(Pipe { x: PIPE_SPAWN_X, y: upper_y * 1000, check: false });
    pipes.push(Pipe { x: PIPE_SPAWN_X, y: upper_y * 1000 - PIPE_GAP, check: false });
    proof {
        assert(pipes@ =~= old(pipes)@ + seq![upper_pipe(upper_y), lower_pipe(upper_y)]);
    }
}

/// Scroll every live obstacle left by this tick's travel, removing each
/// one whose scrolled position lies past the despawn line.
pub fn move_pipes(pipes: &mut Vec<Pipe>, dt: u32)
    requires
        pipes_wf(old(pipes)@),
    ensures
        final(pipes)@ == scrolled(old(pipes)@, dt),
        pipes_wf(final(pipes)@),
{
    let ghost orig = pipes@;
    let mut out: Vec<Pipe> = Vec::new();
    let mut i: usize = 0;
    while i < pipes.len()
        invariant
            i <= pipes@.len(),
            pipes@ == orig,
            pipes_wf(orig),
            out@ == scrolled(orig.subrange(0, i as int), dt),
            pipes_wf(out@),
        decreases pipes@.len() - i,
    {
        let p = pipes[i];
        let np = Pipe { x: p.x - 85 * (dt as i64), y: p.y, check: p.check };
        if np.x >= PIPE_DESPAWN_X {
            out.push(np);
        }
        proof {
            let pre = orig.subrange(0, (i + 1) as int);
            assert(pre.drop_last() =~= orig.subrange(0, i as int));
            assert(pre.last() == orig[i as int]);
        }
        i = i + 1;
    }
    proof {
        assert(orig.subrange(0, orig.len() as int) =~= orig);
    }
    *pipes = out;
}

} // verus!
