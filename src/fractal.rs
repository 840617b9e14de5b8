use vstd::prelude::*;
use crate::candle::Candle;

verus! {

#[derive(Clone, Copy, Debug, PartialEq, Eq, Structural)]
pub enum FractalType {
    Top,
    Bottom,
}

/// A turning point found on three consecutive settled candles.
#[derive(Clone, Copy, Debug, PartialEq, Eq, Structural)]
pub struct Fractal {
    pub time: i64,
    pub price: i64,
    pub fractal_type: FractalType,
}

/// The middle candle's high is strictly above both neighbours' highs.
pub open spec fn is_top(k1: Candle, k2: Candle, k3: Candle) -> bool {
    k2.bar.high > k1.bar.high && k2.bar.high > k3.bar.high
}

/// The middle candle's low is strictly below both neighbours' lows.
pub open spec fn is_bottom(k1: Candle, k2: Candle, k3: Candle) -> bool {
    k2.bar.low < k1.bar.low && k2.bar.low < k3.bar.low
}

/// The fractal formed by three chronologically ordered candles: a top or a
/// bottom at the middle candle when exactly one of the two tests holds,
/// and none when neither or both hold.
pub open spec fn fractal_of(k1: Candle, k2: Candle, k3: Candle) -> Option<Fractal> {
    if is_top(k1, k2, k3) && !is_bottom(k1, k2, k3) {
        Some(Fractal { time: k2.bar.time, price: k2.bar.high, fractal_type: FractalType::Top })
    } else if is_bottom(k1, k2, k3) && !is_top(k1, k2, k3) {
        Some(Fractal { time: k2.bar.time, price: k2.bar.low, fractal_type: FractalType::Bottom })
    } else {
        None
    }
}

impl Fractal {
    pub fn new(time: i64, price: i64, fractal_type: FractalType) -> (r: Fractal)
        ensures
            r == (Fractal { time, price, fractal_type }),
    {
        Fractal { time, price, fractal_type }
    }

    pub fn time(&self) -> (r: i64)
        ensures
            r == self.time,
    {
        self.time
    }

    pub fn price(&self) -> (r: i64)
        ensures
            r == self.price,
    {
        self.price
    }

    pub fn fractal_type(&self) -> (r: FractalType)
        ensures
            r == self.fractal_type,
    {
        self.fractal_type
    }

    /// Classifies three consecutive candles; see [`fractal_of`].
    pub fn check_fractal(k1: &Candle, k2: &Candle, k3: &Candle) -> (r: Option<Fractal>)
        ensures
            r == fractal_of(*k1, *k2, *k3),
    {
        let top = k2.bar.high > k1.bar.high && k2.bar.high > k3.bar.high;
        let bottom = k2.bar.low < k1.bar.low && k2.bar.low < k3.bar.low;
        if top && !bottom {
            Some(Fractal { time: k2.bar.time, price: k2.bar.high, fractal_type: FractalType::Top })
        } else if bottom && !top {
            Some(
                Fractal { time: k2.bar.time, price: k2.bar.low, fractal_type: FractalType::Bottom },
            )
        } else {
            None
        }
    }
}

} // verus!
