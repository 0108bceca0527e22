//! The four lanes that notes fall through, and the keys that play them.

use rand::Rng;
use vstd::prelude::*;

verus! {

/// One of the four lanes, from left to right.
#[derive(Clone, Copy, PartialEq, Eq, Structural, Debug)]
pub enum Column {
    Yellow,
    Red,
    Blue,
    Green,
}

/// Position of a lane, counted from the left, starting at 0.
pub open spec fn lane_index(c: Column) -> nat {
    match c {
        Column::Yellow => 0,
        Column::Red => 1,
        Column::Blue => 2,
        Column::Green => 3,
    }
}

/// The lane that a roll of a four-sided die picks: 0 to 2 pick the first
/// three lanes, anything else the last.
pub open spec fn lane_of_roll(n: u32) -> Column {
    if n == 0 {
        Column::Yellow
    } else if n == 1 {
        Column::Red
    } else if n == 2 {
        Column::Blue
    } else {
        Column::Green
    }
}

/// The lane that a key plays: `a`/`h`, `s`/`j`, `d`/`k` and `f`/`l` play the
/// lanes from left to right; any other key plays none.
pub open spec fn lane_of_key(key: char) -> Option<Column> {
    if key == 'a' || key == 'h' {
        Some(Column::Yellow)
    } else if key == 's' || key == 'j' {
        Some(Column::Red)
    } else if key == 'd' || key == 'k' {
        Some(Column::Blue)
    } else if key == 'f' || key == 'l' {
        Some(Column::Green)
    } else {
        None
    }
}

/// Horizontal centre of a lane in pixels: lanes are 90 pixels apart and
/// centred on 0.
pub open spec fn lane_centre(c: Column) -> int {
    90 * lane_index(c) - 135
}

/// Relies on rand's `thread_rng` and `Rng::gen_range`: a draw from `0..hi`
/// lies in that range (the range is not empty, so the call does not panic).
#[verifier::external_body]
fn draw_below(hi: u32) -> (r: u32)
    requires
        hi > 0,
    ensures
        r < hi,
{
    rand::thread_rng().gen_range(0..hi)
}

impl Column {
    /// Position of the lane counted from the left.
    pub fn index(&self) -> (r: usize)
        ensures
            r == lane_index(*self),
            r < 4,
    {
        match self {
            Column::Yellow => 0,
            Column::Red => 1,
            Column::Blue => 2,
            Column::Green => 3,
        }
    }

    /// The lane picked by a die roll `n`.
    pub fn from_roll(n: u32) -> (r: Column)
        ensures
            r == lane_of_roll(n),
            n < 4 ==> lane_index(r) == n,
    {
        if n == 0 {
            Column::Yellow
        } else if n == 1 {
            Column::Red
        } else if n == 2 {
            Column::Blue
        } else {
            Column::Green
        }
    }

    /// A lane picked at random, each of the four with the same chance.
    pub fn random() -> (r: Column)
        ensures
            exists|n: u32| n < 4 && r == lane_of_roll(n),
    {
        let n = draw_below(4);
        Column::from_roll(n)
    }

    /// The lane that `key` plays, if any.
    pub fn for_key(key: char) -> (r: Option<Column>)
        ensures
            r == lane_of_key(key),
    {
        if key == 'a' || key == 'h' {
            Some(Column::Yellow)
        } else if key == 's' || key == 'j' {
            Some(Column::Red)
        } else if key == 'd' || key == 'k' {
            Some(Column::Blue)
        } else if key == 'f' || key == 'l' {
            Some(Column::Green)
        } else {
            None
        }
    }

    /// Horizontal centre of the lane in pixels.
    pub fn centre_x(&self) -> (r: i32)
        ensures
            r == lane_centre(*self),
    {
        let i = self.index() as i32;
        90 * i - 135
    }
}

} // verus!
