//! The playfield: notes fall down their lanes toward the hit line, are hit
//! when their lane's key is pressed inside the hit band, and are missed once
//! they fall past the bottom.
//!
//! Heights are in micropixels (millionths of a pixel) above the centre of the
//! screen, so that a fall over a frame time given in microseconds is exact.

use crate::lane::Column;
use crate::score::{
    combo_after_hits, combo_after_misses, lemma_hits_bounded, score_after_hits,
    score_after_misses, Scoreboard, MAX_COMBO,
};
use vstd::prelude::*;

verus! {

/// Micropixels in a pixel.
pub const MICROS_PER_PIXEL: i64 = 1_000_000;

/// Height at which a new note appears, above the top of the screen.
pub const SPAWN_Y: i64 = 400_000_000;

/// A note at or below this height can be hit.
pub const HIT_Y: i64 = -280_000_000;

/// A note below this height is missed.
pub const MISS_Y: i64 = -350_000_000;

/// How far a note falls in a microsecond, in micropixels: 150 pixels a second.
pub const FALL_SPEED: i64 = 150;

/// The lowest height a note can reach: one frame of the longest length below
/// the miss line.
pub const LOWEST_Y: i64 = MISS_Y - FALL_SPEED * 4294967295;

/// Height of the crosshairs that mark the hit line, in pixels.
pub const HIT_LINE_PX: i32 = -305;

/// A falling note.
#[derive(Clone, Copy, PartialEq, Eq, Structural, Debug)]
pub struct Target {
    /// Tells this note apart from every other note of its playfield.
    pub id: u64,
    pub column: Column,
    /// Height in micropixels.
    pub y: i64,
}

/// Whether a note has fallen past the bottom.
pub open spec fn is_missed(t: Target) -> bool {
    t.y < MISS_Y
}

/// `is_missed` as a predicate on notes.
pub open spec fn missed_pred() -> spec_fn(Target) -> bool {
    |t: Target| is_missed(t)
}

/// Notes that stay on the field after a frame.
pub open spec fn kept_pred() -> spec_fn(Target) -> bool {
    |t: Target| !is_missed(t)
}

/// The note after falling for `dt` microseconds.
pub open spec fn fallen(t: Target, dt: u32) -> Target {
    Target { y: (t.y - FALL_SPEED * dt) as i64, ..t }
}

/// `fallen` over `dt` as a function on notes.
pub open spec fn fall_fn(dt: u32) -> spec_fn(Target) -> Target {
    |t: Target| fallen(t, dt)
}

/// Whether pressing the key of `column` hits the note: it is in that lane and
/// at or below the top of the hit band.
pub open spec fn is_hit_by(t: Target, column: Column) -> bool {
    t.column == column && t.y <= HIT_Y
}

/// `is_hit_by` for `column` as a predicate on notes.
pub open spec fn hit_pred(column: Column) -> spec_fn(Target) -> bool {
    |t: Target| is_hit_by(t, column)
}

/// Notes that the key of `column` leaves on the field.
pub open spec fn unhit_pred(column: Column) -> spec_fn(Target) -> bool {
    |t: Target| !is_hit_by(t, column)
}

/// The notes on screen and the scoreboard of a game.
pub struct Playfield {
    /// The notes, oldest first.
    pub targets: Vec<Target>,
    /// The id the next note gets.
    pub next_id: u64,
    pub scoreboard: Scoreboard,
}


impl Playfield {
    /// Every note has a height between `LOWEST_Y` and `SPAWN_Y` and an id
    /// below `next_id`, ids grow from older notes to newer ones, and the
    /// scoreboard is well formed.
    pub open spec fn wf(&self) -> bool {
        &&& self.scoreboard.wf()
        &&& forall|i: int|
            #![trigger self.targets@[i]]
            0 <= i < self.targets@.len() ==> {
                &&& self.targets@[i].id < self.next_id
                &&& LOWEST_Y <= self.targets@[i].y <= SPAWN_Y
            }
        &&& forall|i: int, j: int|
            0 <= i < j < self.targets@.len() ==> #[trigger] self.targets@[i].id
                < #[trigger] self.targets@[j].id
    }

    /// An empty playfield with a fresh scoreboard.
    pub fn new() -> (r: Playfield)
        ensures
            r.wf(),
            r.targets@.len() == 0,
            r.next_id == 0,
            r.scoreboard.score == 0,
            r.scoreboard.combo == 0,
    {
        Playfield { targets: Vec::new(), next_id: 0, scoreboard: Scoreboard::new() }
    }

    /// Whether another note can be given an id.
    pub fn can_spawn(&self) -> (r: bool)
        ensures
            r == (self.next_id < u64::MAX),
    {
        self.next_id < u64::MAX
    }

    /// Whether one hit or one miss for each note on the field keeps the score
    /// within `i32`.
    pub fn has_score_room(&self) -> (r: bool)
        requires
            self.wf(),
        ensures
            r == self.scoreboard.has_room_for(self.targets@.len()),
    {
        let n = self.targets.len();
        if n > 715_827_882 {
            false
        } else {
            let k = n as i64;
            let s = self.scoreboard.score as i64;
            s - k >= i32::MIN as i64 && s + 5 * k <= i32::MAX as i64
        }
    }

    /// Takes every note off the field; the scoreboard and the ids already
    /// given stay.
    pub fn clear_notes(&mut self)
        requires
            old(self).wf(),
        ensures
            final(self).wf(),
            final(self).targets@.len() == 0,
            final(self).next_id == old(self).next_id,
            final(self).scoreboard == old(self).scoreboard,
    {
        self.targets = Vec::new();
    }

    /// Adds a new note at the top of `column`, with the next id, and returns
    /// it.
    pub fn spawn(&mut self, column: Column) -> (t: Target)
        requires
            old(self).wf(),
            old(self).next_id < u64::MAX,
        ensures
            final(self).wf(),
            t == (Target { id: old(self).next_id, column, y: SPAWN_Y }),
            final(self).targets@ == old(self).targets@.push(t),
            final(self).next_id == old(self).next_id + 1,
            final(self).scoreboard == old(self).scoreboard,
    {
        let t = Target { id: self.next_id, column, y: SPAWN_Y };
        self.targets.push(t);
        self.next_id = self.next_id + 1;
        t
    }

    /// Adds a new note at the top of a lane picked at random, and returns it.
    pub fn spawn_random(&mut self) -> (t: Target)
        requires
            old(self).wf(),
            old(self).next_id < u64::MAX,
        ensures
            final(self).wf(),
            t.id == old(self).next_id,
            t.y == SPAWN_Y,
            final(self).targets@ == old(self).targets@.push(t),
            final(self).next_id == old(self).next_id + 1,
            final(self).scoreboard == old(self).scoreboard,
    {
        let column = Column::random();
        self.spawn(column)
    }

    /// Lets `dt` microseconds pass. Each note that was already below the miss
    /// line leaves the field and counts as a miss; every other note falls by
    /// `FALL_SPEED * dt`. Returns the missed notes, oldest first.
    pub fn advance(&mut self, dt: u32) -> (missed: Vec<Target>)
        requires
            old(self).wf(),
            old(self).scoreboard.score - old(self).targets@.len() >= i32::MIN,
        ensures
            final(self).wf(),
            missed@ == old(self).targets@.filter(missed_pred()),
            final(self).targets@ == old(self).targets@.filter(kept_pred()).map_values(fall_fn(dt)),
            final(self).scoreboard.score == score_after_misses(
                old(self).scoreboard.score as int,
                missed@.len(),
            ),
            final(self).scoreboard.combo == combo_after_misses(
                old(self).scoreboard.combo as int,
                missed@.len(),
            ),
            final(self).next_id == old(self).next_id,
    {
        let ghost old_t = self.targets@;
        let ghost s0 = self.scoreboard;
        let n = self.targets.len();
        let mut kept: Vec<Target> = Vec::new();
        let mut missed: Vec<Target> = Vec::new();
        let mut i: usize = 0;
        while i < n
            invariant
                n == old_t.len(),
                self.targets@ == old_t,
                self.next_id == old(self).next_id,
                old(self).wf(),
                old(self).targets@ == old_t,
                old(self).scoreboard == s0,
                s0.score - n >= i32::MIN,
                0 <= i <= n,
                kept@ == old_t.subrange(0, i as int).filter(kept_pred()).map_values(fall_fn(dt)),
                missed@ == old_t.subrange(0, i as int).filter(missed_pred()),
                missed@.len() <= i,
                self.scoreboard.score == score_after_misses(s0.score as int, missed@.len()),
                self.scoreboard.combo == combo_after_misses(s0.combo as int, missed@.len()),
                self.scoreboard.wf(),
                forall|k: int|
                    #![trigger kept@[k]]
                    0 <= k < kept@.len() ==> {
                        &&& kept@[k].id < self.next_id
                        &&& LOWEST_Y <= kept@[k].y <= SPAWN_Y
                    },
                forall|k: int, j: int|
                    0 <= k < kept@.len() && i <= j < n ==> #[trigger] kept@[k].id
                        < #[trigger] old_t[j].id,
                forall|k: int, l: int|
                    0 <= k < l < kept@.len() ==> #[trigger] kept@[k].id < #[trigger] kept@[l].id,
            decreases n - i,
        {
            let t = self.targets[i];
            let ghost pre = old_t.subrange(0, i as int);
            let ghost cur = old_t.subrange(0, i as int + 1);
            proof {
                reveal(Seq::filter);
                assert(cur.drop_last() =~= pre);
            }
            assert(cur.last() == t);
            if t.y < MISS_Y {
                missed.push(t);
                self.scoreboard.miss();
            } else {
                let f = Target { id: t.id, column: t.column, y: t.y - FALL_SPEED * (dt as i64) };
                assert(f == fallen(t, dt));
                proof {
                    let base = pre.filter(kept_pred());
                    assert(base.push(t).map_values(fall_fn(dt)) =~= base.map_values(
                        fall_fn(dt),
                    ).push(f));
                }
                kept.push(f);
            }
            i = i + 1;
        }
        assert(old_t.subrange(0, n as int) =~= old_t);
        self.targets = kept;
        missed
    }

    /// Plays the key of `column`: every note of that lane at or below the top
    /// of the hit band leaves the field and counts as a hit, one after the
    /// other. Returns the hit notes, oldest first.
    pub fn shoot(&mut self, column: Column) -> (hit: Vec<Target>)
        requires
            old(self).wf(),
            old(self).scoreboard.score + MAX_COMBO * old(self).targets@.len() <= i32::MAX,
        ensures
            final(self).wf(),
            hit@ == old(self).targets@.filter(hit_pred(column)),
            final(self).targets@ == old(self).targets@.filter(unhit_pred(column)),
            final(self).scoreboard.score == score_after_hits(
                old(self).scoreboard.score as int,
                old(self).scoreboard.combo as int,
                hit@.len(),
            ),
            final(self).scoreboard.combo == combo_after_hits(
                old(self).scoreboard.combo as int,
                hit@.len(),
            ),
            final(self).next_id == old(self).next_id,
    {
        let ghost old_t = self.targets@;
        let ghost s0 = self.scoreboard;
        let n = self.targets.len();
        let mut left: Vec<Target> = Vec::new();
        let mut hit: Vec<Target> = Vec::new();
        let mut i: usize = 0;
        while i < n
            invariant
                n == old_t.len(),
                self.targets@ == old_t,
                self.next_id == old(self).next_id,
                old(self).wf(),
                old(self).targets@ == old_t,
                old(self).scoreboard == s0,
                s0.score + MAX_COMBO * n <= i32::MAX,
                s0.wf(),
                self.scoreboard.wf(),
                0 <= i <= n,
                left@ == old_t.subrange(0, i as int).filter(unhit_pred(column)),
                hit@ == old_t.subrange(0, i as int).filter(hit_pred(column)),
                hit@.len() <= i,
                self.scoreboard.score == score_after_hits(
                    s0.score as int,
                    s0.combo as int,
                    hit@.len(),
                ),
                self.scoreboard.combo == combo_after_hits(s0.combo as int, hit@.len()),
                forall|k: int|
                    #![trigger left@[k]]
                    0 <= k < left@.len() ==> {
                        &&& left@[k].id < self.next_id
                        &&& LOWEST_Y <= left@[k].y <= SPAWN_Y
                    },
                forall|k: int, j: int|
                    0 <= k < left@.len() && i <= j < n ==> #[trigger] left@[k].id
                        < #[trigger] old_t[j].id,
                forall|k: int, l: int|
                    0 <= k < l < left@.len() ==> #[trigger] left@[k].id < #[trigger] left@[l].id,
            decreases n - i,
        {
            let t = self.targets[i];
            let ghost pre = old_t.subrange(0, i as int);
            let ghost cur = old_t.subrange(0, i as int + 1);
            proof {
                reveal(Seq::filter);
                assert(cur.drop_last() =~= pre);
            }
            assert(cur.last() == t);
            if t.column == column && t.y <= HIT_Y {
                proof {
                    lemma_hits_bounded(s0.score as int, s0.combo as int, hit@.len() + 1);
                    lemma_hits_bounded(s0.score as int, s0.combo as int, hit@.len());
                }
                hit.push(t);
                self.scoreboard.hit();
            } else {
                left.push(t);
            }
            i = i + 1;
        }
        assert(old_t.subrange(0, n as int) =~= old_t);
        self.targets = left;
        hit
    }
}

} // verus!
