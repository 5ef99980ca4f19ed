use vstd::prelude::*;

use crate::trend::{trend_of, Trend};

verus! {

/// What the caller computes for one bar.
#[derive(Clone, Copy, Debug, PartialEq)]
pub enum Step<M> {
    /// No previous bar is known: the bar is only recorded, no value is due.
    WarmUp,
    /// A value is due. The cumulative measurement is `prev_measurement` plus
    /// this bar's measurement when `reseed` holds, and the previous
    /// cumulative measurement plus this bar's measurement otherwise.
    Measure { trend: Trend, reseed: bool, prev_measurement: M },
}

/// The bar-to-bar memory of the oscillator that its decisions read: the
/// previous bar's daily measurement (high - low), absent before the first bar,
/// and the trend of the last bar that produced a value.
///
/// `prev_trend` is `None` on a new tracker and `Some(Trend::Down)` after
/// `reset`: on a new tracker the first value always restarts the cumulative
/// measurement, after a reset only when its bar rises.
pub struct TrendTracker<M> {
    pub prev_measurement: Option<M>,
    pub prev_trend: Option<Trend>,
}

/// Whether a bar of trend `trend` restarts the cumulative measurement when the
/// last value was produced under `prev_trend`.
pub open spec fn reseeds_spec(prev_trend: Option<Trend>, trend: Trend) -> bool {
    prev_trend != Some(trend)
}

/// One bar: the state after it, and what it asks the caller to compute.
pub open spec fn step_spec<M>(s: TrendTracker<M>, rising: bool, measurement: M) -> (
    TrendTracker<M>,
    Step<M>,
) {
    match s.prev_measurement {
        None => (
            TrendTracker { prev_measurement: Some(measurement), prev_trend: s.prev_trend },
            Step::WarmUp,
        ),
        Some(p) => {
            let t = trend_of(rising);
            (
                TrendTracker { prev_measurement: Some(measurement), prev_trend: Some(t) },
                Step::Measure { trend: t, reseed: reseeds_spec(s.prev_trend, t), prev_measurement: p },
            )
        },
    }
}

/// The state after feeding `bars` in order; each bar is given as whether its
/// high + low + close rose above the previous bar's, and its measurement.
pub open spec fn state_after<M>(s: TrendTracker<M>, bars: Seq<(bool, M)>) -> TrendTracker<M>
    decreases bars.len(),
{
    if bars.len() == 0 {
        s
    } else {
        let last = bars.last();
        step_spec(state_after(s, bars.drop_last()), last.0, last.1).0
    }
}

/// What each bar of `bars` asks for, in order, starting from `s`.
pub open spec fn steps_of<M>(s: TrendTracker<M>, bars: Seq<(bool, M)>) -> Seq<Step<M>>
    decreases bars.len(),
{
    if bars.len() == 0 {
        Seq::empty()
    } else {
        let last = bars.last();
        steps_of(s, bars.drop_last()).push(
            step_spec(state_after(s, bars.drop_last()), last.0, last.1).1,
        )
    }
}

/// The state of a new tracker.
pub open spec fn fresh<M>() -> TrendTracker<M> {
    TrendTracker { prev_measurement: None, prev_trend: None }
}

/// The state that `reset` leaves.
pub open spec fn cleared<M>() -> TrendTracker<M> {
    TrendTracker { prev_measurement: None, prev_trend: Some(Trend::Down) }
}

impl<M> TrendTracker<M> {
    pub fn new() -> (r: Self)
        ensures
            r == fresh::<M>(),
    {
        TrendTracker { prev_measurement: None, prev_trend: None }
    }

    /// Forgets every bar seen; the next bar is a warm-up bar again.
    pub fn reset(&mut self)
        ensures
            *final(self) == cleared::<M>(),
    {
        self.prev_measurement = None;
        self.prev_trend = Some(Trend::Down);
    }

    /// Whether a bar of trend `trend` restarts the cumulative measurement.
    pub fn reseeds(&self, trend: Trend) -> (r: bool)
        ensures
            r == reseeds_spec(self.prev_trend, trend),
    {
        match self.prev_trend {
            Some(t) => t != trend,
            None => true,
        }
    }

    /// Takes one bar: `rising` tells whether its high + low + close is
    /// strictly above the previous bar's, `measurement` is its high - low.
    pub fn step(&mut self, rising: bool, measurement: M) -> (r: Step<M>)
        ensures
            (*final(self), r) == step_spec(*old(self), rising, measurement),
            r is WarmUp <==> old(self).prev_measurement is None,
            final(self).prev_measurement == Some(measurement),
    {
        let prev = self.prev_measurement.take();
        self.prev_measurement = Some(measurement);
        match prev {
            None => Step::WarmUp,
            Some(p) => {
                let trend = Trend::from_rising(rising);
                let reseed = self.reseeds(trend);
                self.prev_trend = Some(trend);
                Step::Measure { trend, reseed, prev_measurement: p }
            },
        }
    }
}

} // verus!
