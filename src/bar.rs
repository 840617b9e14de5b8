use vstd::prelude::*;

verus! {

/// One raw price observation.
///
/// Prices are fixed-point integers (for example, units of 1e-5 of the quote
/// currency); `time` is an epoch timestamp in milliseconds.
#[derive(Clone, Copy, Debug, PartialEq, Eq, Structural)]
pub struct Bar {
    pub time: i64,
    pub open: i64,
    pub high: i64,
    pub low: i64,
    pub close: i64,
}

impl Bar {
    pub fn new(time: i64, open: i64, high: i64, low: i64, close: i64) -> (r: Bar)
        ensures
            r == (Bar { time, open, high, low, close }),
    {
        Bar { time, open, high, low, close }
    }

    /// True when the range `[low, high]` of `self` encloses that of `other`.
    pub open spec fn spec_encloses(&self, other: &Bar) -> bool {
        self.high >= other.high && self.low <= other.low
    }

    /// Whether the range of `self` encloses the range of `other`.
    pub fn encloses(&self, other: &Bar) -> (r: bool)
        ensures
            r == self.spec_encloses(other),
    {
        self.high >= other.high && self.low <= other.low
    }
}

} // verus!
