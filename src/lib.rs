//! Incremental containment merging of price bars and detection of
//! top / bottom fractals over the merged candles.
pub mod bar;
pub mod candle;
pub mod fractal;
pub mod fractal_detector;
pub mod ringbuffer;
