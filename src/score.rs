//! The scoreboard: points, and the combo that rewards consecutive hits.

use vstd::prelude::*;

verus! {

/// The highest combo a run of hits can build.
pub const MAX_COMBO: i32 = 5;

/// Points and the current combo.
pub struct Scoreboard {
    pub score: i32,
    pub combo: i32,
}

/// The combo after one more hit: it grows by one up to `MAX_COMBO`.
pub open spec fn combo_after_hit(combo: int) -> int {
    if combo < MAX_COMBO {
        combo + 1
    } else {
        combo
    }
}

/// The combo after `k` hits in a row.
pub open spec fn combo_after_hits(combo: int, k: nat) -> int
    decreases k,
{
    if k == 0 {
        combo
    } else {
        combo_after_hit(combo_after_hits(combo, (k - 1) as nat))
    }
}

/// The score after `k` hits in a row: each hit adds the combo it leaves.
pub open spec fn score_after_hits(score: int, combo: int, k: nat) -> int
    decreases k,
{
    if k == 0 {
        score
    } else {
        score_after_hits(score, combo, (k - 1) as nat) + combo_after_hits(combo, k)
    }
}

/// The combo after `k` misses: any miss clears it.
pub open spec fn combo_after_misses(combo: int, k: nat) -> int {
    if k == 0 {
        combo
    } else {
        0
    }
}

/// The score after `k` misses: each one costs a point.
pub open spec fn score_after_misses(score: int, k: nat) -> int {
    score - k
}

/// The decimal digit `d` as a character.
pub open spec fn digit_char(d: nat) -> char
    recommends
        d < 10,
{
    seq!['0', '1', '2', '3', '4', '5', '6', '7', '8', '9'][d as int]
}

/// The decimal digits of `n`, most significant first, with no leading zero.
pub open spec fn decimal_digits(n: nat) -> Seq<char>
    decreases n,
{
    if n < 10 {
        seq![digit_char(n)]
    } else {
        decimal_digits(n / 10).push(digit_char(n % 10))
    }
}

/// An integer written in decimal, with a leading `-` when it is negative.
pub open spec fn decimal_text(n: int) -> Seq<char> {
    if n < 0 {
        seq!['-'] + decimal_digits((-n) as nat)
    } else {
        decimal_digits(n as nat)
    }
}

/// Relies on the `Display` impl of `i32` (through `ToString::to_string`): it
/// writes the number in decimal, with a `-` before a negative one.
#[verifier::external_body]
fn i32_text(n: i32) -> (r: String)
    ensures
        r@ == decimal_text(n as int),
{
    n.to_string()
}

/// Hits keep the combo within `0..=MAX_COMBO` and add between one and
/// `MAX_COMBO` points each.
pub proof fn lemma_hits_bounded(score: int, combo: int, k: nat)
    requires
        0 <= combo <= MAX_COMBO,
    ensures
        0 <= combo_after_hits(combo, k) <= MAX_COMBO,
        k > 0 ==> 1 <= combo_after_hits(combo, k),
        score + k <= score_after_hits(score, combo, k) <= score + MAX_COMBO * k,
    decreases k,
{
    if k > 0 {
        lemma_hits_bounded(score, combo, (k - 1) as nat);
    }
}

impl Scoreboard {
    /// The combo lies within `0..=MAX_COMBO`.
    pub open spec fn wf(&self) -> bool {
        0 <= self.combo <= MAX_COMBO
    }

    /// A scoreboard with no points and no combo.
    pub fn new() -> (r: Scoreboard)
        ensures
            r.score == 0,
            r.combo == 0,
            r.wf(),
    {
        Scoreboard { score: 0, combo: 0 }
    }

    /// Whether `k` more hits and `k` more misses all keep the score within
    /// `i32`.
    pub open spec fn has_room_for(&self, k: nat) -> bool {
        &&& self.score - k >= i32::MIN
        &&& self.score + MAX_COMBO * k <= i32::MAX
    }

    /// Records a hit: the combo grows by one up to `MAX_COMBO`, then the score
    /// grows by the new combo.
    pub fn hit(&mut self)
        requires
            i32::MIN <= old(self).score + combo_after_hit(old(self).combo as int) <= i32::MAX,
        ensures
            final(self).combo == combo_after_hit(old(self).combo as int),
            final(self).score == old(self).score + final(self).combo,
            old(self).wf() ==> final(self).wf(),
    {
        if self.combo < MAX_COMBO {
            self.combo = self.combo + 1;
        }
        self.score = self.score + self.combo;
    }

    /// Records a miss: the combo is cleared, then the score drops by the
    /// cleared combo plus one, which is one point.
    pub fn miss(&mut self)
        requires
            old(self).score > i32::MIN,
        ensures
            final(self).combo == 0,
            final(self).score == old(self).score - 1,
            final(self).wf(),
    {
        self.combo = 0;
        self.score = self.score - (self.combo + 1);
    }

    /// The score as shown on screen: the number in decimal.
    pub fn score_text(&self) -> (r: String)
        ensures
            r@ == decimal_text(self.score as int),
    {
        i32_text(self.score)
    }
}

impl Default for Scoreboard {
    fn default() -> (r: Scoreboard)
        ensures
            r.score == 0,
            r.combo == 0,
    {
        Scoreboard::new()
    }
}

} // verus!
