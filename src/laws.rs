use vstd::prelude::*;

use crate::tracker::{cleared, fresh, reseeds_spec, state_after, step_spec, steps_of, TrendTracker};
use crate::trend::trend_of;

verus! {

/// One step per bar.
pub proof fn lemma_steps_len<M>(s: TrendTracker<M>, bars: Seq<(bool, M)>)
    ensures
        steps_of(s, bars).len() == bars.len(),
    decreases bars.len(),
{
    if bars.len() > 0 {
        lemma_steps_len(s, bars.drop_last());
    }
}

/// The step for bar `i` is the one taken from the state that the bars before
/// it leave.
pub proof fn lemma_step_at<M>(s: TrendTracker<M>, bars: Seq<(bool, M)>, i: int)
    requires
        0 <= i < bars.len(),
    ensures
        steps_of(s, bars)[i] == step_spec(state_after(s, bars.take(i)), bars[i].0, bars[i].1).1,
    decreases bars.len(),
{
    lemma_steps_len(s, bars.drop_last());
    if i < bars.len() - 1 {
        lemma_step_at(s, bars.drop_last(), i);
        assert(bars.drop_last().take(i) =~= bars.take(i));
    } else {
        assert(bars.drop_last() =~= bars.take(i));
    }
}

/// Once two bars have been seen, the state holds the last bar's measurement
/// and trend, whatever it started from.
pub proof fn lemma_settled<M>(s: TrendTracker<M>, bars: Seq<(bool, M)>)
    requires
        bars.len() >= 2,
    ensures
        state_after(s, bars) == (TrendTracker {
            prev_measurement: Some(bars.last().1),
            prev_trend: Some(trend_of(bars.last().0)),
        }),
{
    let prefix = bars.drop_last();
    assert(state_after(s, prefix).prev_measurement == Some(prefix.last().1));
}

/// Warm-up: from a state with no previous bar, the first bar yields no value
/// and every later bar yields one.
pub proof fn lemma_warm_up<M>(s: TrendTracker<M>, bars: Seq<(bool, M)>)
    requires
        s.prev_measurement is None,
    ensures
        steps_of(s, bars).len() == bars.len(),
        bars.len() > 0 ==> steps_of(s, bars)[0] is WarmUp,
        forall|i: int| 0 < i < bars.len() ==> (#[trigger] steps_of(s, bars)[i]) is Measure,
{
    lemma_steps_len(s, bars);
    if bars.len() > 0 {
        lemma_step_at(s, bars, 0);
        assert(bars.take(0) =~= Seq::<(bool, M)>::empty());
    }
    assert forall|i: int| 0 < i < bars.len() implies (#[trigger] steps_of(s, bars)[i]) is Measure by {
        lemma_step_at(s, bars, i);
        assert(bars.take(i).last() == bars[i - 1]);
    }
}

/// Trend sign: every bar after the first is measured with trend up exactly
/// when its high + low + close is strictly above the previous bar's.
pub proof fn lemma_trend_sign<M>(s: TrendTracker<M>, bars: Seq<(bool, M)>)
    ensures
        forall|i: int|
            0 < i < bars.len() ==> {
                &&& (#[trigger] steps_of(s, bars)[i]) is Measure
                &&& steps_of(s, bars)[i]->trend == trend_of(bars[i].0)
            },
{
    assert forall|i: int| 0 < i < bars.len() implies {
        &&& (#[trigger] steps_of(s, bars)[i]) is Measure
        &&& steps_of(s, bars)[i]->trend == trend_of(bars[i].0)
    } by {
        lemma_step_at(s, bars, i);
        assert(bars.take(i).last() == bars[i - 1]);
    }
}

/// Reseed: from the third bar on, the cumulative measurement restarts from the
/// previous and the current bar's measurements exactly when the trend differs
/// from the previous bar's; the previous measurement handed over is always the
/// previous bar's.
pub proof fn lemma_reseed<M>(s: TrendTracker<M>, bars: Seq<(bool, M)>)
    ensures
        forall|i: int|
            2 <= i < bars.len() ==> {
                &&& (#[trigger] steps_of(s, bars)[i]) is Measure
                &&& steps_of(s, bars)[i]->reseed == (trend_of(bars[i].0) != trend_of(bars[i - 1].0))
                &&& steps_of(s, bars)[i]->prev_measurement == bars[i - 1].1
            },
{
    assert forall|i: int| 2 <= i < bars.len() implies {
        &&& (#[trigger] steps_of(s, bars)[i]) is Measure
        &&& steps_of(s, bars)[i]->reseed == (trend_of(bars[i].0) != trend_of(bars[i - 1].0))
        &&& steps_of(s, bars)[i]->prev_measurement == bars[i - 1].1
    } by {
        lemma_step_at(s, bars, i);
        lemma_settled(s, bars.take(i));
        assert(bars.take(i).last() == bars[i - 1]);
        assert(reseeds_spec(Some(trend_of(bars[i - 1].0)), trend_of(bars[i].0)) == (trend_of(
            bars[i].0,
        ) != trend_of(bars[i - 1].0)));
    }
}

/// Reset: after `reset`, a sequence of bars yields the same steps as on a new
/// tracker, provided the second bar, if any, rises. (When it does not, a new
/// tracker restarts the cumulative measurement there and a reset one keeps
/// accumulating from zero.)
pub proof fn lemma_reset_replays<M>(bars: Seq<(bool, M)>)
    requires
        bars.len() >= 2 ==> bars[1].0,
    ensures
        steps_of(cleared::<M>(), bars) == steps_of(fresh::<M>(), bars),
    decreases bars.len(),
{
    if bars.len() > 0 {
        let prefix = bars.drop_last();
        lemma_reset_replays(prefix);
        if prefix.len() >= 2 {
            lemma_settled(cleared::<M>(), prefix);
            lemma_settled(fresh::<M>(), prefix);
        } else if prefix.len() == 1 {
            assert(prefix.drop_last() =~= Seq::<(bool, M)>::empty());
        }
    }
}

/// Determinism: equal states fed the same bars ask for the same steps and end
/// in the same state.
pub proof fn lemma_deterministic<M>(a: TrendTracker<M>, b: TrendTracker<M>, bars: Seq<(bool, M)>)
    requires
        a == b,
    ensures
        steps_of(a, bars) == steps_of(b, bars),
        state_after(a, bars) == state_after(b, bars),
{
}

} // verus!
