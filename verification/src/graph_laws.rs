//! What the graphs promise: which samples are kept and shown, and where each figure is
//! drawn.

use crate::history::{self, Sample, SignalHistory, Switches};
use crate::snapshot::SignalMetrics;
use crate::text;
use crate::time::Instant;
use vstd::prelude::*;
use vstd::string::*;

verus! {

/// Whether a ring is another with one more sample: the new one stands last, the ones
/// before it are those that were there, in order, and of these the oldest has gone only
/// where there were thirty-two already.
pub open spec fn one_more(
    after: Seq<Sample>,
    before: Seq<Sample>,
    at: Instant,
    value: Option<i64>,
) -> bool {
    &&& after.len() > 0
    &&& after.last().at == at
    &&& after.last().value == value
    &&& before.len() < 32 ==> after.drop_last() == before
    &&& before.len() >= 32 ==> after.len() == 32 && after.drop_last() == before.skip(
        before.len() - 31,
    )
}

/// Each ring takes its own figure, at the same instant; without figures each takes a
/// gap. What was there before stays, as far as there is room.
pub proof fn each_ring_takes_its_own_figure(
    before: SignalHistory,
    after: SignalHistory,
    at: Instant,
    metrics: Option<&SignalMetrics>,
)
    requires
        after.is_pushed(&before, at, metrics),
    ensures
        metrics matches Some(figures) ==> {
            &&& one_more(after.rsrp.values@, before.rsrp.values@, at, figures.rsrp)
            &&& one_more(after.rsrq.values@, before.rsrq.values@, at, figures.rsrq)
            &&& one_more(after.rssi.values@, before.rssi.values@, at, figures.rssi)
            &&& one_more(after.sinr.values@, before.sinr.values@, at, figures.sinr)
            &&& one_more(after.cqi.values@, before.cqi.values@, at, figures.cqi)
        },
        metrics is None ==> {
            &&& one_more(after.rsrp.values@, before.rsrp.values@, at, None)
            &&& one_more(after.rsrq.values@, before.rsrq.values@, at, None)
            &&& one_more(after.rssi.values@, before.rssi.values@, at, None)
            &&& one_more(after.sinr.values@, before.sinr.values@, at, None)
            &&& one_more(after.cqi.values@, before.cqi.values@, at, None)
        },
{
    let figures = match metrics {
        Some(known) => *known,
        None => SignalMetrics { rsrp: None, rsrq: None, rssi: None, sinr: None, cqi: None },
    };
    a_new_sample_stands_last(before.rsrp@, at, figures.rsrp);
    a_new_sample_stands_last(before.rsrq@, at, figures.rsrq);
    a_new_sample_stands_last(before.rssi@, at, figures.rssi);
    a_new_sample_stands_last(before.sinr@, at, figures.sinr);
    a_new_sample_stands_last(before.cqi@, at, figures.cqi);
}

/// A new sample stands last, behind those that were there.
pub proof fn a_new_sample_stands_last(samples: Seq<Sample>, at: Instant, value: Option<i64>)
    ensures
        one_more(history::with_sample(samples, at, value), samples, at, value),
{
    let after = history::with_sample(samples, at, value);
    if samples.len() < 32 {
        assert(after.drop_last() =~= samples);
    } else {
        assert(after.drop_last() =~= samples.skip(samples.len() - 31));
    }
}

/// A sample is shown for two minutes and no longer.
pub proof fn a_sample_is_shown_for_two_minutes(sample: Sample, now: Instant)
    ensures
        history::is_recent(sample, now) <==> now.nanos <= sample.at.nanos + 120 * 1_000_000_000,
{
}

/// A graph shows the samples of the last two minutes, all of them and no others, in
/// their order: what is shown of a ring and of what follows is shown one after the
/// other.
pub proof fn recent_samples_are_shown(
    samples: Seq<Sample>,
    later: Seq<Sample>,
    sample: Sample,
    now: Instant,
)
    ensures
        history::visible(samples, now).contains(sample) <==> samples.contains(sample) && now.nanos
            <= sample.at.nanos + 120 * 1_000_000_000,
        history::visible(samples + later, now) == history::visible(samples, now)
            + history::visible(later, now),
        history::visible(seq![sample], now).len() == if now.nanos <= sample.at.nanos + 120
            * 1_000_000_000 {
            1nat
        } else {
            0nat
        },
{
    let wanted = |one: Sample| history::is_recent(one, now);
    lemma_filter_contains(samples, wanted, sample);
    lemma_filter_adds(samples, later, wanted);
    reveal(Seq::filter);
    let alone = seq![sample];
    assert(alone.drop_last() =~= Seq::empty());
    assert(alone.drop_last().filter(wanted) =~= Seq::empty());
}

proof fn lemma_filter_contains(
    samples: Seq<Sample>,
    wanted: spec_fn(Sample) -> bool,
    sample: Sample,
)
    ensures
        samples.filter(wanted).contains(sample) <==> samples.contains(sample) && wanted(sample),
    decreases samples.len(),
{
    reveal(Seq::filter);
    if samples.len() > 0 {
        let rest = samples.drop_last();
        let last = samples.last();
        lemma_filter_contains(rest, wanted, sample);
        if samples.contains(sample) {
            let i = choose|i: int| 0 <= i < samples.len() && samples[i] == sample;
            if i < rest.len() {
                assert(rest[i] == sample);
            }
        }
        if rest.contains(sample) {
            let i = choose|i: int| 0 <= i < rest.len() && rest[i] == sample;
            assert(samples[i] == sample);
        }
        assert(samples[samples.len() - 1] == last);
        let shown = rest.filter(wanted);
        if wanted(last) {
            assert(samples.filter(wanted) == shown.push(last));
            assert(shown.push(last)[shown.len() as int] == last);
            if shown.contains(sample) {
                let i = choose|i: int| 0 <= i < shown.len() && shown[i] == sample;
                assert(shown.push(last)[i] == sample);
            }
            if shown.push(last).contains(sample) {
                let i = choose|i: int|
                    0 <= i < shown.push(last).len() && shown.push(last)[i] == sample;
                if i < shown.len() {
                    assert(shown[i] == sample);
                }
            }
        }
    }
}

proof fn lemma_filter_adds(
    samples: Seq<Sample>,
    later: Seq<Sample>,
    wanted: spec_fn(Sample) -> bool,
)
    ensures
        (samples + later).filter(wanted) == samples.filter(wanted) + later.filter(wanted),
    decreases later.len(),
{
    reveal(Seq::filter);
    if later.len() == 0 {
        assert(samples + later =~= samples);
        assert(samples.filter(wanted) + later.filter(wanted) =~= samples.filter(wanted));
    } else {
        lemma_filter_adds(samples, later.drop_last(), wanted);
        assert((samples + later).drop_last() =~= samples + later.drop_last());
        assert((samples + later).last() == later.last());
        assert((samples + later).filter(wanted) =~= samples.filter(wanted) + later.filter(wanted));
    }
}

/// The figures of samples are those that were reported, in their order: a gap gives
/// none, and a figure gives itself.
pub proof fn figures_are_what_was_reported(samples: Seq<Sample>, later: Seq<Sample>, one: Sample)
    ensures
        history::figures(samples + later) == history::figures(samples) + history::figures(later),
        one.value matches Some(value) ==> history::figures(seq![one]) == seq![value],
        one.value is None ==> history::figures(seq![one]).len() == 0,
    decreases later.len(),
{
    let alone = seq![one];
    assert(alone.drop_last() =~= Seq::empty());
    assert(history::figures(alone.drop_last()) =~= Seq::<i64>::empty());
    if let Some(value) = one.value {
        assert(history::figures(alone) =~= seq![value]);
    }
    if later.len() == 0 {
        assert(samples + later =~= samples);
        assert(history::figures(samples) + history::figures(later) =~= history::figures(samples));
    } else {
        figures_are_what_was_reported(samples, later.drop_last(), one);
        assert((samples + later).drop_last() =~= samples + later.drop_last());
        assert((samples + later).last() == later.last());
        assert(history::figures(samples + later) =~= history::figures(samples) + history::figures(
            later,
        ));
    }
}

/// A ring that is switched off shows nothing, one that is switched on the figures of its
/// recent samples.
pub proof fn a_switch_hides_a_ring(samples: Seq<Sample>, now: Instant)
    ensures
        history::shown_figures(samples, false, now).len() == 0,
        history::shown_curve(samples, false, now).len() == 0,
        history::shown_figures(samples, true, now) == history::figures(
            history::visible(samples, now),
        ),
        history::shown_curve(samples, true, now).len() == history::shown_figures(
            samples,
            true,
            now,
        ).len(),
        history::shown_curve(samples, true, now) == history::curve(
            history::visible(samples, now),
            now,
        ),
        history::latest_figure(samples, false, now) is None,
{
    lemma_points(history::visible(samples, now), now);
}

/// A graph counts every figure that it shows once, and nothing else.
pub proof fn a_graph_shows_all_rings(shown: SignalHistory, switches: Switches, now: Instant)
    ensures
        history::all_shown(shown, switches, now).len() == history::shown_figures(
            shown.rsrp.values@,
            switches.rsrp,
            now,
        ).len() + history::shown_figures(shown.rsrq.values@, switches.rsrq, now).len()
            + history::shown_figures(shown.rssi.values@, switches.rssi, now).len()
            + history::shown_figures(shown.sinr.values@, switches.sinr, now).len()
            + history::shown_figures(shown.cqi.values@, switches.cqi, now).len(),
{
}

/// Bounds that were widened by figures are the smallest and the largest of them.
pub proof fn bounds_are_the_extremes(values: Seq<i64>)
    ensures
        history::widened_by_all(None, values) is None <==> values.len() == 0,
        history::widened_by_all(None, values) matches Some((low, high)) ==> {
            &&& values.contains(low)
            &&& values.contains(high)
            &&& forall|i: int| 0 <= i < values.len() ==> low <= #[trigger] values[i] <= high
        },
{
    let none = Seq::<i64>::empty();
    history::lemma_widening_keeps_bounds(None, none, values);
    assert(none + values =~= values);
    if let Some((low, high)) = history::widened_by_all(None, values) {
        assert(values.contains(low));
    }
}

/// The latest figure is the one of the last recent sample that has one.
pub proof fn the_latest_figure_is_the_last_reported(samples: Seq<Sample>, now: Instant)
    ensures
        ({
            let shown = history::visible(samples, now);
            let latest = history::latest_figure(samples, true, now);
            &&& latest is None <==> forall|i: int|
                0 <= i < shown.len() ==> (#[trigger] shown[i]).value is None
            &&& latest matches Some(value) ==> exists|i: int|
                0 <= i < shown.len() && (#[trigger] shown[i]).value == Some(value) && forall|j: int|
                    i < j < shown.len() ==> (#[trigger] shown[j]).value is None
        }),
{
    lemma_last_figure(history::visible(samples, now));
}

proof fn lemma_last_figure(shown: Seq<Sample>)
    ensures
        history::figures(shown).len() == 0 <==> forall|i: int|
            0 <= i < shown.len() ==> (#[trigger] shown[i]).value is None,
        history::figures(shown).len() > 0 ==> exists|i: int|
            0 <= i < shown.len() && (#[trigger] shown[i]).value == Some(
                history::figures(shown).last(),
            ) && forall|j: int| i < j < shown.len() ==> (#[trigger] shown[j]).value is None,
    decreases shown.len(),
{
    if shown.len() > 0 {
        let rest = shown.drop_last();
        lemma_last_figure(rest);
        if shown.last().value is Some {
            assert(shown[shown.len() - 1].value == Some(history::figures(shown).last()));
        } else {
            if history::figures(rest).len() == 0 {
                assert forall|i: int| 0 <= i < shown.len() implies (#[trigger] shown[i]).value
                    is None by {
                    if i < rest.len() {
                        assert(rest[i].value is None);
                    }
                }
            } else {
                let i = choose|i: int|
                    0 <= i < rest.len() && (#[trigger] rest[i]).value == Some(
                        history::figures(rest).last(),
                    ) && forall|j: int| i < j < rest.len() ==> (#[trigger] rest[j]).value is None;
                assert(shown[i] == rest[i]);
                assert forall|j: int| i < j < shown.len() implies (#[trigger] shown[j]).value
                    is None by {
                    if j < rest.len() {
                        assert(rest[j].value is None);
                    }
                }
            }
        }
    }
}

/// Every figure has its point, in the order of the samples: with its value, with the age
/// of its sample, and with a new stroke exactly where no figure stands right before it.
pub proof fn every_figure_has_its_point(samples: Seq<Sample>, now: Instant, i: int)
    requires
        0 <= i < samples.len(),
        samples[i].value is Some,
    ensures
        ({
            let points = history::curve(samples, now);
            let k = history::figures(samples.take(i)).len() as int;
            &&& 0 <= k < points.len()
            &&& points[k].value == samples[i].value->0
            &&& samples[i].at.nanos <= now.nanos ==> points[k].age.nanos == now.nanos
                - samples[i].at.nanos
            &&& samples[i].at.nanos > now.nanos ==> points[k].age.nanos == 0
            &&& points[k].starts <==> i == 0 || samples[i - 1].value is None
        }),
        history::curve(samples, now).len() == history::figures(samples).len(),
    decreases samples.len(),
{
    lemma_points(samples, now);
    let rest = samples.drop_last();
    lemma_points(rest, now);
    if i < rest.len() {
        every_figure_has_its_point(rest, now, i);
        assert(rest.take(i) =~= samples.take(i));
        assert(rest[i] == samples[i]);
        if i > 0 {
            assert(rest[i - 1] == samples[i - 1]);
        }
    } else {
        assert(samples.take(i) =~= rest);
        if i > 0 {
            assert(rest.last() == samples[i - 1]);
        }
    }
}

proof fn lemma_points(samples: Seq<Sample>, now: Instant)
    ensures
        history::curve(samples, now).len() == history::figures(samples).len(),
    decreases samples.len(),
{
    if samples.len() > 0 {
        lemma_points(samples.drop_last(), now);
    }
}

/// A figure is drawn as it is up to the size at which a graph tells all numbers apart,
/// and beyond it by the nearest number that can be drawn: never further off than one
/// part in that size. A figure and its negative are drawn alike.
pub proof fn figures_are_drawn_as_they_are(value: i64)
    ensures
        -0x20_0000_0000_0000 <= value <= 0x20_0000_0000_0000 ==> history::drawn(value) == value,
        value >= 0 ==> {
            &&& (history::drawn(value) - value) * 0x20_0000_0000_0000 <= value
            &&& (value - history::drawn(value)) * 0x20_0000_0000_0000 <= value
        },
        value < 0 ==> {
            &&& (history::drawn(value) - value) * 0x20_0000_0000_0000 <= -value
            &&& (value - history::drawn(value)) * 0x20_0000_0000_0000 <= -value
        },
        value > i64::MIN ==> history::drawn((-value) as i64) == -history::drawn(value),
{
    let size: nat = if value < 0 {
        (-(value as int)) as nat
    } else {
        value as nat
    };
    lemma_drawn_size(size);
    if value == 0 {
        assert(history::drawn_size(0) == 0);
    }
}

proof fn lemma_grain(size: nat, least: nat)
    requires
        least >= 1,
        least == 1 || size >= least * 0x10_0000_0000_0000,
    ensures
        history::grain(size, least) >= 1,
        size < history::grain(size, least) * 0x20_0000_0000_0000,
        history::grain(size, least) == 1 || size >= history::grain(size, least)
            * 0x10_0000_0000_0000,
        size < 0x20_0000_0000_0000 && least == 1 ==> history::grain(size, least) == 1,
        size == 0x20_0000_0000_0000 && least == 1 ==> history::grain(size, least) == 2,
    decreases size - least,
{
    if size >= least * 0x20_0000_0000_0000 {
        lemma_grain(size, 2 * least);
    }
}

/// A size is drawn by the nearest multiple of the grain at that size, and by the even one
/// of two that are as near. The grain is the least at which 53 binary digits are enough.
pub proof fn a_size_is_drawn_by_the_nearest_number(size: nat) -> (count: nat)
    ensures
        ({
            let step = history::grain(size, 1);
            let drawn = history::drawn_size(size);
            &&& step >= 1
            &&& size < step * 0x20_0000_0000_0000
            &&& step == 1 || step * 0x10_0000_0000_0000 <= size
            &&& drawn == count * step
            &&& 2 * (drawn - size) <= step
            &&& 2 * (size - drawn) <= step
            &&& 2 * (drawn - size) == step || 2 * (size - drawn) == step ==> count % 2 == 0
        }),
{
    lemma_grain(size, 1);
    let step = history::grain(size, 1);
    let (count, rest) = (size / step, size % step);
    vstd::arithmetic::div_mod::lemma_fundamental_div_mod(size as int, step as int);
    vstd::arithmetic::div_mod::lemma_mod_bound(size as int, step as int);
    assert(step * count == count * step) by (nonlinear_arith);
    assert((count + 1) * step == count * step + step) by (nonlinear_arith);
    assert(size == count * step + rest);
    if 2 * rest > step || 2 * rest == step && count % 2 == 1 {
        assert(history::drawn_size(size) == (count + 1) * step);
        count + 1
    } else {
        assert(history::drawn_size(size) == count * step);
        count
    }
}

proof fn lemma_drawn_size(size: nat)
    ensures
        size <= 0x20_0000_0000_0000 ==> history::drawn_size(size) == size,
        (history::drawn_size(size) - size) * 0x20_0000_0000_0000 <= size,
        (size - history::drawn_size(size)) * 0x20_0000_0000_0000 <= size,
{
    lemma_grain(size, 1);
    let count = a_size_is_drawn_by_the_nearest_number(size);
    let step = history::grain(size, 1);
    let drawn = history::drawn_size(size);
    if step == 1 {
        assert(drawn == size);
    } else {
        assert(2 * (drawn - size) * 0x10_0000_0000_0000 <= step * 0x10_0000_0000_0000);
        assert(2 * (size - drawn) * 0x10_0000_0000_0000 <= step * 0x10_0000_0000_0000);
    }
    if size == 0x20_0000_0000_0000 {
        assert(step == 2);
        assert(drawn == 2 * count);
        assert(drawn - size <= 1 && size - drawn <= 1);
        assert((drawn - size) % 2 == 0);
    }
}

/// The latest figure is told as it is drawn, with its name in brackets, and there are
/// words exactly if there is a figure.
pub proof fn the_latest_figure_is_told_with_its_name(
    label: Seq<char>,
    samples: Seq<Sample>,
    switched_on: bool,
    now: Instant,
)
    ensures
        ({
            let words = history::latest_words(label, samples, switched_on, now);
            let latest = history::latest_figure(samples, switched_on, now);
            &&& words is Some <==> latest is Some
            &&& latest matches Some(value) ==> {
                &&& words->0 == text::decimal(history::drawn(value)) + (" ("@ + label + ")"@)
                &&& -0x20_0000_0000_0000 <= value <= 0x20_0000_0000_0000 ==> words->0
                    == text::decimal(value as int) + (" ("@ + label + ")"@)
            }
        }),
{
    if let Some(value) = history::latest_figure(samples, switched_on, now) {
        figures_are_drawn_as_they_are(value);
        let number = text::decimal(history::drawn(value));
        assert(number + " ("@ + label + ")"@ =~= number + (" ("@ + label + ")"@));
    }
}

/// The bounds of figures are the smallest and the largest of them, and there are bounds
/// exactly if there are figures.
pub proof fn bounds_are_tight(bounds: Option<(i64, i64)>, values: Seq<i64>)
    requires
        history::are_bounds_of(bounds, values),
    ensures
        bounds is None <==> values.len() == 0,
        bounds matches Some((low, high)) ==> {
            &&& exists|i: int| 0 <= i < values.len() && #[trigger] values[i] == low
            &&& exists|i: int| 0 <= i < values.len() && #[trigger] values[i] == high
            &&& forall|i: int| 0 <= i < values.len() ==> low <= #[trigger] values[i] <= high
        },
{
}

} // verus!
