//! What the situation picture of a game in progress shows: which bases are
//! occupied and how many ball, strike and out lights are on. The drawing
//! itself works in floating-point canvas coordinates and stays with the
//! terminal front end.

use vstd::prelude::*;
use crate::model::GameSummary;

verus! {

/// The lights and bases of the situation picture.
pub struct SituationCounts {
    pub balls: usize,
    pub strikes: usize,
    pub outs: usize,
    pub on_first: bool,
    pub on_second: bool,
    pub on_third: bool,
}

/// `min(value or 0, cap)`.
pub open spec fn capped(o: Option<u64>, cap: nat) -> nat {
    let v: nat = match o {
        Some(v) => v as nat,
        None => 0,
    };
    if v < cap {
        v
    } else {
        cap
    }
}

fn capped_count(o: Option<u64>, cap: u64) -> (r: usize)
    requires
        cap <= 4,
    ensures
        r as nat == capped(o, cap as nat),
{
    let v = match o {
        Some(v) => v,
        None => 0,
    };
    let c = if v < cap {
        v
    } else {
        cap
    };
    c as usize
}

/// The counts shown for a game: at most four balls, three strikes and three
/// outs, unknown ones as zero; bases empty when unknown.
pub fn situation_counts(game: &GameSummary) -> (r: SituationCounts)
    ensures
        r.balls as nat == capped(game.balls, 4),
        r.strikes as nat == capped(game.strikes, 3),
        r.outs as nat == capped(game.outs, 3),
        r.on_first == (game.bases matches Some(b) && b.on_first),
        r.on_second == (game.bases matches Some(b) && b.on_second),
        r.on_third == (game.bases matches Some(b) && b.on_third),
{
    let (on_first, on_second, on_third) = match &game.bases {
        Some(b) => (b.on_first, b.on_second, b.on_third),
        None => (false, false, false),
    };
    SituationCounts {
        balls: capped_count(game.balls, 4),
        strikes: capped_count(game.strikes, 3),
        outs: capped_count(game.outs, 3),
        on_first,
        on_second,
        on_third,
    }
}

/// Whether light `i` of a row of `max` lights is on when `filled` of them
/// should be: the leading `min(filled, max)` lights are on.
pub fn dot_is_on(i: usize, max: usize, filled: usize) -> (r: bool)
    ensures
        r == (i < filled && i < max),
{
    let filled = if filled < max {
        filled
    } else {
        max
    };
    i < filled
}

} // verus!
