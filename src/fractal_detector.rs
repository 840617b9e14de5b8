use vstd::prelude::*;
use crate::bar::Bar;
use crate::candle::{contained, direction_of, merged_candle, Candle, Direction};
use crate::fractal::{fractal_of, Fractal};
use crate::ringbuffer::{pushed, RingBuffer};

verus! {

/// Number of merged candles the detector keeps.
pub const WINDOW_SIZE: usize = 3;

/// The abstract state of a detector.
pub struct DetectorModel {
    /// The most recent merged candles, oldest first.
    pub window: Seq<Candle>,
    /// The index the next candle will get.
    pub next_index: u64,
    /// When recording, the envelopes of the candles that have been
    /// superseded as the tail of the window, in order.
    pub record: Option<Seq<Bar>>,
}

/// The state of a fresh detector.
pub open spec fn initial(recording: bool) -> DetectorModel {
    DetectorModel {
        window: Seq::empty(),
        next_index: 0,
        record: if recording { Some(Seq::empty()) } else { None },
    }
}

/// The record after the current tail candle (if any) is superseded.
pub open spec fn recorded(m: DetectorModel) -> Option<Seq<Bar>> {
    match m.record {
        Some(s) => if m.window.len() > 0 { Some(s.push(m.window.last().bar)) } else { Some(s) },
        None => None,
    }
}

/// The state after `bar` opens a new candle at the tail of the window.
pub open spec fn with_candle(m: DetectorModel, bar: Bar) -> DetectorModel {
    DetectorModel {
        window: pushed(
            m.window,
            WINDOW_SIZE as nat,
            Candle { index: m.next_index, direction: Direction::Unknown, bar },
        ),
        next_index: (m.next_index + 1) as u64,
        record: recorded(m),
    }
}

/// The merge direction set by the last two candles of the window.
pub open spec fn tail_direction(m: DetectorModel) -> Direction {
    direction_of(m.window[m.window.len() - 2], m.window.last())
}

/// The state after an attempt to merge `bar` into the tail candle.
pub open spec fn merge_tail(m: DetectorModel, bar: Bar) -> DetectorModel {
    DetectorModel {
        window: m.window.update(
            m.window.len() - 1,
            merged_candle(tail_direction(m), m.window.last(), bar),
        ),
        ..m
    }
}

/// One transition: the next state and the fractal reported for `bar`.
///
/// - With no candle, `bar` opens the first one.
/// - With one candle, a bar inside its range is ignored; a bar whose range
///   covers it replaces it; any other bar opens the second candle.
/// - With two or three candles, a bar contained in (or containing) the tail
///   candle is merged into it. Otherwise it opens a new candle, evicting the
///   oldest of three, and the three candles it settles are classified.
pub open spec fn step(m: DetectorModel, bar: Bar) -> (DetectorModel, Option<Fractal>) {
    let w = m.window;
    if w.len() == 0 {
        (with_candle(m, bar), None)
    } else if w.len() == 1 {
        if w[0].bar.spec_encloses(&bar) {
            (m, None)
        } else if bar.spec_encloses(&w[0].bar) {
            (with_candle(DetectorModel { window: Seq::empty(), ..m }, bar), None)
        } else {
            (with_candle(m, bar), None)
        }
    } else if contained(w.last().bar, bar) {
        (merge_tail(m, bar), None)
    } else if w.len() == 2 {
        (with_candle(m, bar), None)
    } else {
        (with_candle(m, bar), fractal_of(w[w.len() - 3], w[w.len() - 2], w.last()))
    }
}

/// The state and the fractals, in order, after feeding `bars` from `m`.
pub open spec fn run(m: DetectorModel, bars: Seq<Bar>) -> (DetectorModel, Seq<Fractal>)
    decreases bars.len(),
{
    if bars.len() == 0 {
        (m, Seq::empty())
    } else {
        let (m1, fs) = run(m, bars.drop_last());
        let (m2, f) = step(m1, bars.last());
        (
            m2,
            match f {
                Some(x) => fs.push(x),
                None => fs,
            },
        )
    }
}

/// Turns a stream of bars into merged candles and reports top and bottom
/// fractals as they settle.
#[derive(Debug)]
pub struct FractalDetector {
    window: RingBuffer<Candle>,
    next_index: u64,
    candles: Option<Vec<Bar>>,
}

impl View for FractalDetector {
    type V = DetectorModel;

    closed spec fn view(&self) -> DetectorModel {
        DetectorModel {
            window: self.window@,
            next_index: self.next_index,
            record: match self.candles {
                Some(v) => Some(v@),
                None => None,
            },
        }
    }
}

impl FractalDetector {
    pub closed spec fn wf(&self) -> bool {
        &&& self.window.wf()
        &&& self.window.capacity() == WINDOW_SIZE
        &&& self.window@.len() <= WINDOW_SIZE
    }

    /// A detector that keeps no record of candles.
    pub fn new() -> (r: Self)
        ensures
            r.wf(),
            r@ == initial(false),
    {
        FractalDetector { window: RingBuffer::new(WINDOW_SIZE), next_index: 0, candles: None }
    }

    /// A detector that records every superseded candle.
    pub fn with_candles() -> (r: Self)
        ensures
            r.wf(),
            r@ == initial(true),
    {
        FractalDetector {
            window: RingBuffer::new(WINDOW_SIZE),
            next_index: 0,
            candles: Some(Vec::new()),
        }
    }

    /// The recorded candle envelopes, when recording was asked for.
    pub fn get_candles(&self) -> (r: Option<&Vec<Bar>>)
        ensures
            match r {
                Some(v) => self@.record == Some(v@),
                None => self@.record is None,
            },
    {
        match &self.candles {
            Some(v) => Some(v),
            None => None,
        }
    }

    /// The current window of merged candles.
    pub fn window(&self) -> (r: &RingBuffer<Candle>)
        requires
            self.wf(),
        ensures
            r.wf(),
            r@ == self@.window,
    {
        &self.window
    }

    /// Records the tail candle, which is about to be superseded.
    fn notify(&mut self)
        requires
            old(self).wf(),
        ensures
            final(self).wf(),
            final(self)@ == (DetectorModel { record: recorded(old(self)@), ..old(self)@ }),
    {
        match &mut self.candles {
            Some(container) => {
                if self.window.len() > 0 {
                    let last = self.window.get(-1).unwrap();
                    container.push(last.bar);
                }
            },
            None => {},
        }
    }

    /// Opens a new candle from `bar`; called once `bar` is known not to
    /// merge with the tail candle.
    fn add_candle(&mut self, bar: &Bar)
        requires
            old(self).wf(),
            old(self)@.next_index < u64::MAX,
        ensures
            final(self).wf(),
            final(self)@ == with_candle(old(self)@, *bar),
    {
        self.notify();
        let c = Candle::from_bar(self.next_index, bar);
        self.next_index = self.next_index + 1;
        self.window.push(c);
    }

    /// Classifies the three candles of a full window.
    fn check_fractal(&self) -> (r: Option<Fractal>)
        requires
            self.wf(),
            self@.window.len() == WINDOW_SIZE,
        ensures
            r == fractal_of(self@.window[0], self@.window[1], self@.window[2]),
    {
        let k1 = self.window.get(-3).unwrap();
        let k2 = self.window.get(-2).unwrap();
        let k3 = self.window.get(-1).unwrap();
        Fractal::check_fractal(k1, k2, k3)
    }

    /// Merges `bar` into the tail candle when their ranges are contained in
    /// one another, under the direction of the last two candles.
    fn process_contain_relationship(&mut self, bar: &Bar) -> (r: bool)
        requires
            old(self).wf(),
            old(self)@.window.len() >= 2,
        ensures
            final(self).wf(),
            r == contained(old(self)@.window.last().bar, *bar),
            final(self)@ == if r {
                merge_tail(old(self)@, *bar)
            } else {
                old(self)@
            },
    {
        let direction = {
            let k1 = self.window.get(-2).unwrap();
            let k2 = self.window.get(-1).unwrap();
            Candle::check_direction(k1, k2)
        };
        let current = self.window.get_mut(-1).unwrap();
        let r = Candle::merge(direction, current, bar);
        proof {
            if !r {
                assert(self@.window =~= old(self)@.window);
            }
        }
        r
    }

    /// Feeds one bar; returns the fractal that the bar settles, if any.
    pub fn on_new_bar(&mut self, bar: &Bar) -> (r: Option<Fractal>)
        requires
            old(self).wf(),
            old(self)@.next_index < u64::MAX,
        ensures
            final(self).wf(),
            (final(self)@, r) == step(old(self)@, *bar),
            final(self)@.window.len() <= WINDOW_SIZE,
            final(self)@.next_index <= old(self)@.next_index + 1,
            old(self)@.window.len() < WINDOW_SIZE ==> r is None,
    {
        let len = self.window.len();
        if len == 0 {
            self.add_candle(bar);
        } else if len == 1 {
            let last = self.window.get(-1).unwrap();
            let k1_include_k2 = last.bar.encloses(bar);
            let k2_include_k1 = bar.encloses(&last.bar);
            if k1_include_k2 {
                return None;
            }
            if k2_include_k1 {
                self.window.clear();
            }
            self.add_candle(bar);
        } else if len == 2 {
            let merged = self.process_contain_relationship(bar);
            if !merged {
                self.add_candle(bar);
            }
        } else {
            let merged = self.process_contain_relationship(bar);
            if !merged {
                let result = self.check_fractal();
                self.add_candle(bar);
                return result;
            }
        }
        None
    }
}

/// Runs a fresh, non-recording detector over `bars` and collects the
/// fractals it reports, in order.
pub fn detect_fractals(bars: &Vec<Bar>) -> (r: Vec<Fractal>)
    ensures
        r@ == run(initial(false), bars@).1,
{
    let mut fd = FractalDetector::new();
    let mut out: Vec<Fractal> = Vec::new();
    let mut i: usize = 0;
    assert(bars@.subrange(0, 0) =~= Seq::<Bar>::empty());
    while i < bars.len()
        invariant
            i <= bars.len(),
            fd.wf(),
            fd@.next_index <= i,
            (fd@, out@) == run(initial(false), bars@.subrange(0, i as int)),
        decreases bars.len() - i,
    {
        let ghost prefix = bars@.subrange(0, i as int + 1);
        assert(prefix.drop_last() =~= bars@.subrange(0, i as int));
        assert(prefix.last() == bars@[i as int]);
        let f = fd.on_new_bar(&bars[i]);
        match f {
            Some(x) => out.push(x),
            None => {},
        }
        i = i + 1;
    }
    assert(bars@.subrange(0, bars.len() as int) =~= bars@);
    out
}

/// The fractals reported for a stream depend only on the candles and the
/// index counter the detector starts from, and on the bars: whether candles
/// are recorded changes nothing. In particular, running a fresh detector
/// twice over the same bars reports the same fractals.
pub proof fn lemma_fractals_deterministic(m1: DetectorModel, m2: DetectorModel, bars: Seq<Bar>)
    requires
        m1.window == m2.window,
        m1.next_index == m2.next_index,
    ensures
        run(m1, bars).0.window == run(m2, bars).0.window,
        run(m1, bars).0.next_index == run(m2, bars).0.next_index,
        run(m1, bars).1 == run(m2, bars).1,
    decreases bars.len(),
{
    if bars.len() > 0 {
        lemma_fractals_deterministic(m1, m2, bars.drop_last());
    }
}

/// A detector whose window holds at most three candles keeps it so over any
/// stream of bars.
pub proof fn lemma_window_bound(m: DetectorModel, bars: Seq<Bar>)
    requires
        m.window.len() <= WINDOW_SIZE,
    ensures
        run(m, bars).0.window.len() <= WINDOW_SIZE,
    decreases bars.len(),
{
    if bars.len() > 0 {
        lemma_window_bound(m, bars.drop_last());
    }
}

/// Each bar yields at most one fractal: a stream never reports more fractals
/// than it has bars.
pub proof fn lemma_at_most_one_fractal_per_bar(m: DetectorModel, bars: Seq<Bar>)
    ensures
        run(m, bars).1.len() <= bars.len(),
    decreases bars.len(),
{
    if bars.len() > 0 {
        lemma_at_most_one_fractal_per_bar(m, bars.drop_last());
    }
}

/// No fractal is reported while fewer than three candles are held.
pub proof fn lemma_no_fractal_before_settling(m: DetectorModel, bar: Bar)
    requires
        m.window.len() < WINDOW_SIZE,
    ensures
        step(m, bar).1 is None,
{
}

} // verus!
