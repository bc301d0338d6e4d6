use crate::pipes::{pipes_wf, Pipe};
use vstd::arithmetic::div_mod::{lemma_mod_breakdown, lemma_small_mod};
use vstd::prelude::*;

verus! {

/// Horizontal position behind which an obstacle counts as passed (the
/// body's in-game lane), in milli-units.
pub const SCORE_X: i64 = -72_000;

/// Height at and above which an obstacle is its pair's scoring member
/// (always the upper one), in milli-units.
pub const SCORE_Y_MIN: i64 = 232_000;

/// This obstacle passes the scoring line this tick and was not counted yet.
pub open spec fn pipe_scores(p: Pipe) -> bool {
    p.x < SCORE_X && p.y >= SCORE_Y_MIN && !p.check
}

/// The obstacle with its pass recorded, so it is only counted once.
pub open spec fn mark_one(p: Pipe) -> Pipe {
    if pipe_scores(p) {
        Pipe { check: true, ..p }
    } else {
        p
    }
}

/// The live set with every newly passed obstacle marked as counted.
pub open spec fn marked(ps: Seq<Pipe>) -> Seq<Pipe>
    decreases ps.len(),
{
    if ps.len() == 0 {
        Seq::<Pipe>::empty()
    } else {
        marked(ps.drop_last()).push(mark_one(ps.last()))
    }
}

/// How many obstacles newly pass the scoring line this tick.
pub open spec fn new_points(ps: Seq<Pipe>) -> nat
    decreases ps.len(),
{
    if ps.len() == 0 {
        0
    } else {
        new_points(ps.drop_last()) + if pipe_scores(ps.last()) {
            1 as nat
        } else {
            0 as nat
        }
    }
}

/// The score counter raised by `k` points, capped at the counter's maximum.
pub open spec fn score_plus(s: int, k: int) -> int {
    if s + k <= usize::MAX {
        s + k
    } else {
        usize::MAX as int
    }
}

/// The running score: how many obstacle pairs the body has passed.
#[derive(Debug, Default, Clone, Copy, PartialEq, Eq, Structural)]
pub struct Score(pub usize);

/// Which of the three digit positions a display slot shows.
#[derive(Debug, PartialEq, Eq, Structural, Clone, Copy)]
pub enum Index {
    Units,
    Tens,
    Hundreds,
}

/// A display slot for one score digit.
pub struct ScoreImg(pub Index);

impl ScoreImg {
    /// Which glyph (0..=9) of a digit decomposition this slot displays.
    pub fn glyph_index(&self, digits: [usize; 3]) -> (g: usize)
        ensures
            g == match self.0 {
                Index::Hundreds => digits[0],
                Index::Tens => digits[1],
                Index::Units => digits[2],
            },
    {
        match self.0 {
            Index::Hundreds => digits[0],
            Index::Tens => digits[1],
            Index::Units => digits[2],
        }
    }
}

impl Score {
    /// Decompose the score into `[hundreds, tens, units]` digit glyph
    /// indices, each in `0..=9`. The three digits recompose to the score
    /// modulo 1000, and exactly to the score while it is at most 999.
    pub fn get_img_index(&self) -> (r: [usize; 3])
        ensures
            r[0] == (self.0 / 100) % 10,
            r[1] == (self.0 / 10) % 10,
            r[2] == self.0 % 10,
            r[0] <= 9 && r[1] <= 9 && r[2] <= 9,
            r[0] * 100 + r[1] * 10 + r[2] == self.0 % 1000,
            self.0 <= 999 ==> r[0] * 100 + r[1] * 10 + r[2] == self.0,
    {
        let units = self.0 % 10;
        let tens = (self.0 / 10) % 10;
        let hundreds = (self.0 / 100) % 10;
        proof {
            lemma_mod_breakdown(self.0 as int, 100, 10);
            lemma_mod_breakdown(self.0 as int, 10, 10);
            if self.0 <= 999 {
                lemma_small_mod(self.0 as nat, 1000);
            }
        }
        [hundreds, tens, units]
    }
}

/// Award one point for each obstacle that newly passed the scoring line,
/// marking it so a pass is counted only once, and hand back the fresh
/// three-digit decomposition for display (recomputed whether or not the
/// score changed).
pub fn update_score(score: &mut Score, pipes: &mut Vec<Pipe>) -> (digits: [usize; 3])
    ensures
        final(pipes)@ == marked(old(pipes)@),
        final(score).0 as int == score_plus(old(score).0 as int, new_points(old(pipes)@) as int),
        final(score).0 >= old(score).0,
        pipes_wf(old(pipes)@) ==> pipes_wf(final(pipes)@),
        digits[0] == (final(score).0 / 100) % 10,
        digits[1] == (final(score).0 / 10) % 10,
        digits[2] == final(score).0 % 10,
{
    let ghost orig = pipes@;
    let ghost s0 = score.0;
    let mut out: Vec<Pipe> = Vec::new();
    let mut i: usize = 0;
    while i < pipes.len()
        invariant
            i <= pipes@.len(),
            pipes@ == orig,
            out@ == marked(orig.subrange(0, i as int)),
            score.0 as int == score_plus(s0 as int, new_points(orig.subrange(0, i as int)) as int),
            score.0 >= s0,
            pipes_wf(orig) ==> pipes_wf(out@),
        decreases pipes@.len() - i,
    {
        let p = pipes[i];
        if p.x < SCORE_X && p.y >= SCORE_Y_MIN && !p.check {
            out.push(Pipe { x: p.x, y: p.y, check: true });
            if score.0 < usize::MAX {
                score.0 = score.0 + 1;
            }
        } else {
            out.push(p);
        }
        proof {
            let pre = orig.subrange(0, (i + 1) as int);
            assert(pre.drop_last() =~= orig.subrange(0, i as int));
            assert(pre.last() == orig[i as int]);
        }
        i = i + 1;
    }
    proof {
        assert(orig.subrange(0, orig.len() as int) =~= orig);
    }
    *pipes = out;
    score.get_img_index()
}

} // verus!
