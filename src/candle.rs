use vstd::prelude::*;
use crate::bar::Bar;

verus! {

/// The bias under which contained bars are merged into a candle.
#[derive(Clone, Copy, Debug, PartialEq, Eq, Structural)]
pub enum Direction {
    Up,
    Down,
    Unknown,
}

/// A bar after containment merging; it may stand for many raw bars.
#[derive(Clone, Copy, Debug, PartialEq, Eq, Structural)]
pub struct Candle {
    pub index: u64,
    pub direction: Direction,
    pub bar: Bar,
}

/// Direction of `current` relative to the candle before it: `Up` on a
/// strictly higher high, otherwise `Down` on a strictly lower low, otherwise
/// (equal or inner range) `Up`.
pub open spec fn direction_of(prior: Candle, current: Candle) -> Direction {
    if current.bar.high > prior.bar.high {
        Direction::Up
    } else if current.bar.low < prior.bar.low {
        Direction::Down
    } else {
        Direction::Up
    }
}

/// Whether one of the two ranges encloses the other.
pub open spec fn contained(a: Bar, b: Bar) -> bool {
    a.spec_encloses(&b) || b.spec_encloses(&a)
}

pub open spec fn max(a: i64, b: i64) -> i64 {
    if a >= b { a } else { b }
}

pub open spec fn min(a: i64, b: i64) -> i64 {
    if a <= b { a } else { b }
}

/// The envelope of a candle after absorbing `bar` under `direction`:
/// upward (and `Unknown`) keeps the higher high and the higher low,
/// downward keeps the lower high and the lower low. Only the range changes.
pub open spec fn merged_bar(direction: Direction, current: Bar, bar: Bar) -> Bar {
    match direction {
        Direction::Down => Bar { high: min(current.high, bar.high), low: min(current.low, bar.low), ..current },
        _ => Bar { high: max(current.high, bar.high), low: max(current.low, bar.low), ..current },
    }
}

/// The candle after an attempt to merge `bar` into it: unchanged when the
/// ranges are not contained in one another.
pub open spec fn merged_candle(direction: Direction, current: Candle, bar: Bar) -> Candle {
    if contained(current.bar, bar) {
        Candle { direction, bar: merged_bar(direction, current.bar, bar), ..current }
    } else {
        current
    }
}

fn max_i64(a: i64, b: i64) -> (r: i64)
    ensures
        r == max(a, b),
{
    if a >= b { a } else { b }
}

fn min_i64(a: i64, b: i64) -> (r: i64)
    ensures
        r == min(a, b),
{
    if a <= b { a } else { b }
}

impl Candle {
    /// A fresh candle of direction `Unknown` whose envelope is `bar`.
    pub fn from_bar(index: u64, bar: &Bar) -> (r: Candle)
        ensures
            r == (Candle { index, direction: Direction::Unknown, bar: *bar }),
    {
        Candle { index, direction: Direction::Unknown, bar: *bar }
    }

    /// The direction of `current` relative to `prior`; see [`direction_of`].
    pub fn check_direction(prior: &Candle, current: &Candle) -> (r: Direction)
        ensures
            r == direction_of(*prior, *current),
    {
        if current.bar.high > prior.bar.high {
            Direction::Up
        } else if current.bar.low < prior.bar.low {
            Direction::Down
        } else {
            Direction::Up
        }
    }

    /// Merges `bar` into `current` when one range contains the other, and
    /// then returns true; otherwise leaves `current` as it was and returns
    /// false, and the caller starts a new candle.
    pub fn merge(direction: Direction, current: &mut Candle, bar: &Bar) -> (r: bool)
        ensures
            r == contained(old(current).bar, *bar),
            *final(current) == merged_candle(direction, *old(current), *bar),
    {
        if !(current.bar.encloses(bar) || bar.encloses(&current.bar)) {
            return false;
        }
        match direction {
            Direction::Down => {
                current.bar.high = min_i64(current.bar.high, bar.high);
                current.bar.low = min_i64(current.bar.low, bar.low);
            },
            _ => {
                current.bar.high = max_i64(current.bar.high, bar.high);
                current.bar.low = max_i64(current.bar.low, bar.low);
            },
        }
        current.direction = direction;
        true
    }
}

/// After a merge, the candle's high is one of the two highs and its low one
/// of the two lows: the higher of each under an upward (or unknown)
/// direction, the lower of each under a downward one. The range never moves
/// outside what the two bars span, and only the range and the direction
/// change.
pub proof fn lemma_merge_envelope(direction: Direction, current: Candle, bar: Bar)
    requires
        contained(current.bar, bar),
    ensures
        ({
            let m = merged_candle(direction, current, bar);
            &&& m.index == current.index
            &&& m.direction == direction
            &&& m.bar.time == current.bar.time
            &&& m.bar.high == current.bar.high || m.bar.high == bar.high
            &&& m.bar.low == current.bar.low || m.bar.low == bar.low
            &&& direction != Direction::Down ==> m.bar.high == max(current.bar.high, bar.high)
                && m.bar.low == max(current.bar.low, bar.low)
            &&& direction == Direction::Down ==> m.bar.high == min(current.bar.high, bar.high)
                && m.bar.low == min(current.bar.low, bar.low)
        }),
{
}

} // verus!
