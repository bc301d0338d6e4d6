use crate::pipes::{iabs, pipe_wf, pipes_wf, Pipe};
use crate::player::Y_LIMIT;
use vstd::prelude::*;

verus! {

/// Height above which the body is out of bounds, in milli-units.
pub const DEATH_Y_HIGH: i64 = 244_000;

/// Height below which the body is out of bounds, in milli-units.
pub const DEATH_Y_LOW: i64 = -132_000;

/// Horizontal half-extent of the body/obstacle bounding-box overlap,
/// in milli-units (exclusive).
pub const HIT_DX: i64 = 43_000;

/// Vertical half-extent of the overlap, in milli-units (exclusive).
pub const HIT_DY: i64 = 172_000;

/// Why the body died. Any cause ends the game the same way.
#[derive(Debug, PartialEq, Eq, Structural, Clone, Copy)]
pub enum DeathCause {
    OutOfBounds,
    PipeHit,
}

/// The body's height has left the playable band.
pub open spec fn out_of_bounds(by: int) -> bool {
    by > DEATH_Y_HIGH || by < DEATH_Y_LOW
}

/// The body's bounding box overlaps this obstacle's (both exclusive).
pub open spec fn pipe_overlaps(p: Pipe, bx: int, by: int) -> bool {
    iabs(p.x - bx) < HIT_DX && iabs(p.y - by) < HIT_DY
}

/// Some live obstacle overlaps the body.
pub open spec fn hits_any(ps: Seq<Pipe>, bx: int, by: int) -> bool {
    exists|i: int| 0 <= i < ps.len() && pipe_overlaps(#[trigger] ps[i], bx, by)
}

/// The death condition: out of bounds, or overlapping some obstacle.
pub open spec fn death(ps: Seq<Pipe>, bx: int, by: int) -> bool {
    out_of_bounds(by) || hits_any(ps, bx, by)
}

/// Check the per-tick death conditions against the body at `(bx, by)`
/// (milli-units): the bounds first, then each obstacle. Returns the first
/// matching cause; `None` exactly when the body stays alive.
pub fn check(bx: i64, by: i64, pipes: &Vec<Pipe>) -> (r: Option<DeathCause>)
    requires
        pipes_wf(pipes@),
        -Y_LIMIT <= bx <= Y_LIMIT,
        -Y_LIMIT <= by <= Y_LIMIT,
    ensures
        r is Some <==> death(pipes@, bx as int, by as int),
        r == Some(DeathCause::OutOfBounds) <==> out_of_bounds(by as int),
        r == Some(DeathCause::PipeHit) <==> !out_of_bounds(by as int) && hits_any(
            pipes@,
            bx as int,
            by as int,
        ),
{
    if by > DEATH_Y_HIGH || by < DEATH_Y_LOW {
        return Some(DeathCause::OutOfBounds);
    }
    let mut i: usize = 0;
    while i < pipes.len()
        invariant
            i <= pipes@.len(),
            !out_of_bounds(by as int),
            pipes_wf(pipes@),
            -Y_LIMIT <= bx <= Y_LIMIT,
            -Y_LIMIT <= by <= Y_LIMIT,
            forall|j: int| 0 <= j < i ==> !pipe_overlaps(#[trigger] pipes@[j], bx as int, by as int),
        decreases pipes@.len() - i,
    {
        let p = pipes[i];
        let dx: i64 = if p.x >= bx {
            p.x - bx
        } else {
            bx - p.x
        };
        let dy: i64 = if p.y >= by {
            p.y - by
        } else {
            by - p.y
        };
        if dx < HIT_DX && dy < HIT_DY {
            proof {
                assert(pipe_overlaps(pipes@[i as int], bx as int, by as int));
            }
            return Some(DeathCause::PipeHit);
        }
        i = i + 1;
    }
    None
}

} // verus!
