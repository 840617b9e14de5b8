use chan_fractal::bar::Bar;
use chan_fractal::fractal::{Fractal, FractalType};
use chan_fractal::fractal_detector::{detect_fractals, FractalDetector};

fn bar(time: i64, high: i64, low: i64) -> Bar {
    Bar::new(time, low, high, low, high)
}

/// A fixed stream with merges in both directions, a top and a bottom.
fn fixture() -> Vec<Bar> {
    vec![
        bar(1, 100, 90),
        bar(2, 105, 95),
        bar(3, 104, 97),
        bar(4, 110, 100),
        bar(5, 108, 96),
        bar(6, 107, 97),
        bar(7, 103, 92),
        bar(8, 106, 94),
        bar(9, 109, 98),
        bar(10, 108, 99),
        bar(11, 112, 101),
    ]
}

struct Fx {
    time: i64,
    ftype: FractalType,
    price: i64,
}

fn reference_fx() -> Vec<Fx> {
    vec![
        Fx { time: 4, ftype: FractalType::Top, price: 110 },
        Fx { time: 7, ftype: FractalType::Bottom, price: 92 },
    ]
}

#[test]
fn test_candle_merge_fx_detector() {
    let bars = fixture();
    let mut fvec: Vec<Fractal> = Vec::new();
    let mut fd = FractalDetector::new();
    for bar in &bars {
        let f = fd.on_new_bar(bar);
        if let Some(fx) = f {
            fvec.push(fx);
        }
    }

    let fxs = reference_fx();

    assert!(fvec.len() == fxs.len());

    for i in 0..fvec.len() {
        let f1 = &fvec[i];
        let f2 = &fxs[i];
        assert!(f1.time() == f2.time && f1.price() == f2.price && f1.fractal_type() == f2.ftype);
    }
}

#[test]
fn detect_fractals_matches_stepwise_feeding() {
    let bars = fixture();
    let all = detect_fractals(&bars);
    assert_eq!(
        all,
        vec![
            Fractal::new(4, 110, FractalType::Top),
            Fractal::new(7, 92, FractalType::Bottom),
        ]
    );
}

#[test]
fn rerun_and_recording_give_identical_fractals() {
    let bars = fixture();
    let first = detect_fractals(&bars);
    let second = detect_fractals(&bars);
    assert_eq!(first, second);
    let mut rec = FractalDetector::with_candles();
    let mut third = Vec::new();
    for b in &bars {
        if let Some(f) = rec.on_new_bar(b) {
            third.push(f);
        }
    }
    assert_eq!(first, third);
}

#[test]
fn seeding_absorption_ignores_contained_bar() {
    let mut fd = FractalDetector::new();
    let a = bar(1, 10, 5);
    assert_eq!(fd.on_new_bar(&a), None);
    assert_eq!(fd.on_new_bar(&bar(2, 9, 6)), None);
    assert_eq!(fd.window().len(), 1);
    let c = fd.window().get(-1).unwrap();
    assert_eq!(c.bar, a);
    assert_eq!(c.index, 0);
}

#[test]
fn seeding_reversal_replaces_contained_first_candle() {
    let mut fd = FractalDetector::with_candles();
    assert_eq!(fd.on_new_bar(&bar(1, 9, 6)), None);
    let b = bar(2, 10, 5);
    assert_eq!(fd.on_new_bar(&b), None);
    assert_eq!(fd.window().len(), 1);
    let c = fd.window().get(-1).unwrap();
    assert_eq!(c.bar, b);
    assert_eq!(c.index, 1);
    // the discarded candle is never recorded
    assert_eq!(fd.get_candles().unwrap().len(), 0);
}

#[test]
fn top_fractal_emission() {
    let mut fd = FractalDetector::new();
    assert_eq!(fd.on_new_bar(&bar(100, 10, 5)), None);
    assert_eq!(fd.on_new_bar(&bar(200, 15, 7)), None);
    assert_eq!(fd.on_new_bar(&bar(300, 12, 6)), None);
    assert_eq!(fd.window().len(), 3);
    let f = fd.on_new_bar(&bar(400, 20, 13));
    assert_eq!(f, Some(Fractal::new(200, 15, FractalType::Top)));
    assert_eq!(fd.window().len(), 3);
}

#[test]
fn bottom_fractal_emission() {
    let mut fd = FractalDetector::new();
    assert_eq!(fd.on_new_bar(&bar(1, 20, 10)), None);
    assert_eq!(fd.on_new_bar(&bar(2, 15, 4)), None);
    assert_eq!(fd.on_new_bar(&bar(3, 18, 8)), None);
    let f = fd.on_new_bar(&bar(4, 25, 19));
    assert_eq!(f, Some(Fractal::new(2, 4, FractalType::Bottom)));
}

#[test]
fn no_fractal_before_three_candles() {
    let mut fd = FractalDetector::new();
    assert_eq!(fd.on_new_bar(&bar(1, 10, 5)), None);
    assert_eq!(fd.window().len(), 1);
    assert_eq!(fd.on_new_bar(&bar(2, 15, 7)), None);
    assert_eq!(fd.window().len(), 2);
    // merges into the tail: still two candles, nothing reported
    assert_eq!(fd.on_new_bar(&bar(3, 14, 8)), None);
    assert_eq!(fd.window().len(), 2);
}

#[test]
fn merge_into_full_window_reports_nothing() {
    let mut fd = FractalDetector::new();
    fd.on_new_bar(&bar(1, 10, 5));
    fd.on_new_bar(&bar(2, 15, 7));
    fd.on_new_bar(&bar(3, 12, 6));
    // contained in the tail (12, 6): merged downward, no evaluation
    assert_eq!(fd.on_new_bar(&bar(4, 11, 7)), None);
    let tail = fd.window().get(-1).unwrap();
    assert_eq!((tail.bar.time, tail.bar.high, tail.bar.low), (3, 11, 6));
    assert_eq!(fd.window().len(), 3);
}

#[test]
fn window_never_exceeds_three() {
    let mut fd = FractalDetector::new();
    for i in 0..50i64 {
        let h = 100 + (i * 7) % 13;
        fd.on_new_bar(&bar(i, h, h - 5 - (i % 3)));
        assert!(fd.window().len() <= 3);
    }
}

#[test]
fn at_most_one_fractal_per_bar() {
    let bars = fixture();
    assert!(detect_fractals(&bars).len() <= bars.len());
    assert!(detect_fractals(&Vec::new()).is_empty());
}

#[test]
fn recording_keeps_final_envelopes_of_superseded_candles() {
    let mut fd = FractalDetector::with_candles();
    for b in &fixture() {
        fd.on_new_bar(b);
    }
    let rec: Vec<(i64, i64, i64)> = fd
        .get_candles()
        .unwrap()
        .iter()
        .map(|b| (b.time, b.high, b.low))
        .collect();
    assert_eq!(
        rec,
        vec![
            (1, 100, 90),
            (2, 105, 97),
            (4, 110, 100),
            (5, 107, 96),
            (7, 103, 92),
            (8, 106, 94),
            (9, 109, 99),
        ]
    );
}

#[test]
fn no_recording_without_sink() {
    let mut fd = FractalDetector::new();
    for b in &fixture() {
        fd.on_new_bar(b);
    }
    assert!(fd.get_candles().is_none());
}

#[test]
fn candle_indices_increase() {
    let mut fd = FractalDetector::new();
    fd.on_new_bar(&bar(1, 10, 5));
    fd.on_new_bar(&bar(2, 15, 7));
    fd.on_new_bar(&bar(3, 12, 6));
    fd.on_new_bar(&bar(4, 20, 13));
    let w = fd.window();
    assert_eq!(w.get(-3).unwrap().index, 1);
    assert_eq!(w.get(-2).unwrap().index, 2);
    assert_eq!(w.get(-1).unwrap().index, 3);
}
