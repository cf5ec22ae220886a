//! The signal figures of the last two minutes, for the graphs.

use crate::snapshot::{self, SignalMetrics};
use crate::text::{self, nat_to_text};
use crate::time::{Duration, Instant, NANOS_PER_SEC};
use std::collections::VecDeque;
use vstd::prelude::*;
use vstd::string::*;

verus! {

/// How long a sample is shown, in seconds.
pub const HISTORY_SECONDS: u64 = 120;

/// How many samples of a figure are kept.
pub const MAX_SAMPLES: usize = 32;

/// A figure at one instant; none if it was not reported.
#[derive(Debug, Clone, Copy)]
pub struct Sample {
    pub at: Instant,
    pub value: Option<i64>,
}

/// The latest samples of one figure, oldest first.
#[derive(Debug)]
pub struct MetricRing {
    pub values: VecDeque<Sample>,
}

/// The last `count` of the samples.
pub open spec fn latest(samples: Seq<Sample>, count: int) -> Seq<Sample> {
    if samples.len() <= count {
        samples
    } else {
        samples.skip(samples.len() - count)
    }
}

/// Whether a sample is recent enough at `now` to be shown. One from the future
/// is.
pub open spec fn is_recent(sample: Sample, now: Instant) -> bool {
    now.nanos - sample.at.nanos <= HISTORY_SECONDS * NANOS_PER_SEC
}

/// The samples that are shown at `now`, in their order.
pub open spec fn visible(samples: Seq<Sample>, now: Instant) -> Seq<Sample> {
    samples.filter(|sample: Sample| is_recent(sample, now))
}

impl View for MetricRing {
    type V = Seq<Sample>;

    open spec fn view(&self) -> Seq<Sample> {
        self.values@
    }
}

impl Default for MetricRing {
    fn default() -> (ring: Self)
        ensures
            ring@ == Seq::<Sample>::empty(),
    {
        MetricRing { values: VecDeque::new() }
    }
}

impl MetricRing {
    /// Adds a sample, and drops the oldest ones beyond the limit.
    pub fn push(&mut self, at: Instant, value: Option<i64>)
        ensures
            final(self)@ == latest(old(self)@.push(Sample { at, value }), MAX_SAMPLES as int),
    {
        self.values.push_back(Sample { at, value });
        let ghost all = self.values@;
        while self.values.len() > MAX_SAMPLES
            invariant
                self.values@.len() <= all.len(),
                self.values@ == all.skip(all.len() - self.values@.len()),
                all.len() >= MAX_SAMPLES ==> self.values@.len() >= MAX_SAMPLES,
                all.len() < MAX_SAMPLES ==> self.values@ == all,
            decreases self.values@.len(),
        {
            let ghost before = self.values@;
            self.values.pop_front();
            assert(self.values@ =~= before.skip(1));
            assert(self.values@ =~= all.skip(all.len() - self.values@.len()));
        }
        assert(self.values@ =~= latest(all, MAX_SAMPLES as int));
    }

    /// The samples that are shown at `now`, in their order.
    pub fn iter_visible(&self, now: Instant) -> (shown: Vec<Sample>)
        ensures
            shown@ == visible(self@, now),
    {
        let mut shown: Vec<Sample> = Vec::new();
        let mut at: usize = 0;
        let span: Duration = Duration::from_secs(HISTORY_SECONDS);
        reveal(Seq::filter);
        assert(self@.take(0) =~= Seq::empty());
        while at < self.values.len()
            invariant
                at <= self@.len(),
                self@ == self.values@,
                span.nanos == HISTORY_SECONDS * NANOS_PER_SEC,
                shown@ == visible(self@.take(at as int), now),
            decreases self@.len() - at,
        {
            reveal(Seq::filter);
            let sample: Sample = self.values[at];
            assert(self@.take(at + 1).drop_last() =~= self@.take(at as int));
            if now.duration_since(sample.at).nanos <= span.nanos {
                shown.push(sample);
            }
            at = at + 1;
        }
        assert(self@.take(at as int) =~= self@);
        shown
    }
}

/// The samples of all figures.
#[derive(Debug)]
pub struct SignalHistory {
    pub rsrp: MetricRing,
    pub rsrq: MetricRing,
    pub rssi: MetricRing,
    pub sinr: MetricRing,
    pub cqi: MetricRing,
}

/// The samples of a figure after one more.
pub open spec fn with_sample(samples: Seq<Sample>, at: Instant, value: Option<i64>) -> Seq<Sample> {
    latest(samples.push(Sample { at, value }), MAX_SAMPLES as int)
}

impl Default for SignalHistory {
    fn default() -> (history: Self)
        ensures
            history.rsrp@.len() == 0,
            history.rsrq@.len() == 0,
            history.rssi@.len() == 0,
            history.sinr@.len() == 0,
            history.cqi@.len() == 0,
    {
        SignalHistory {
            rsrp: MetricRing::default(),
            rsrq: MetricRing::default(),
            rssi: MetricRing::default(),
            sinr: MetricRing::default(),
            cqi: MetricRing::default(),
        }
    }
}

impl SignalHistory {
    /// What adding one sample of each figure makes of `before`; without metrics, a
    /// gap in all of them.
    pub open spec fn is_pushed(
        &self,
        before: &Self,
        at: Instant,
        metrics: Option<&SignalMetrics>,
    ) -> bool {
        let figures = match metrics {
            Some(m) => *m,
            None => SignalMetrics { rsrp: None, rsrq: None, rssi: None, sinr: None, cqi: None },
        };
        &&& self.rsrp@ == with_sample(before.rsrp@, at, figures.rsrp)
        &&& self.rsrq@ == with_sample(before.rsrq@, at, figures.rsrq)
        &&& self.rssi@ == with_sample(before.rssi@, at, figures.rssi)
        &&& self.sinr@ == with_sample(before.sinr@, at, figures.sinr)
        &&& self.cqi@ == with_sample(before.cqi@, at, figures.cqi)
    }

    /// Adds one sample of each figure; without metrics, a gap in all of them.
    pub fn push(&mut self, at: Instant, metrics: Option<&SignalMetrics>)
        ensures
            final(self).is_pushed(old(self), at, metrics),
    {
        let figures: SignalMetrics = match metrics {
            Some(m) => *m,
            None => SignalMetrics { rsrp: None, rsrq: None, rssi: None, sinr: None, cqi: None },
        };
        self.rsrp.push(at, figures.rsrp);
        self.rsrq.push(at, figures.rsrq);
        self.rssi.push(at, figures.rssi);
        self.sinr.push(at, figures.sinr);
        self.cqi.push(at, figures.cqi);
    }
}

/// The figures among the samples, in their order; gaps are left out.
pub open spec fn figures(samples: Seq<Sample>) -> Seq<i64>
    decreases samples.len(),
{
    if samples.len() == 0 {
        Seq::empty()
    } else {
        match samples.last().value {
            Some(value) => figures(samples.drop_last()).push(value),
            None => figures(samples.drop_last()),
        }
    }
}

/// The figures that a graph shows of one ring: none if it is switched off.
pub open spec fn shown_figures(samples: Seq<Sample>, switched_on: bool, now: Instant) -> Seq<i64> {
    if switched_on {
        figures(visible(samples, now))
    } else {
        Seq::empty()
    }
}

/// The smallest and the largest of the figures seen and one more.
pub open spec fn widened(bounds: Option<(i64, i64)>, value: i64) -> Option<(i64, i64)> {
    match bounds {
        None => Some((value, value)),
        Some((low, high)) => Some(
            (
                if value < low {
                    value
                } else {
                    low
                },
                if value > high {
                    value
                } else {
                    high
                },
            ),
        ),
    }
}

/// The smallest and the largest of the figures seen and some more.
pub open spec fn widened_by_all(bounds: Option<(i64, i64)>, values: Seq<i64>) -> Option<(i64, i64)>
    decreases values.len(),
{
    if values.len() == 0 {
        bounds
    } else {
        widened(widened_by_all(bounds, values.drop_last()), values.last())
    }
}

/// Widens the bounds of a graph to the figures that it shows of one ring.
pub fn collect_bounds(
    ring: &MetricRing,
    switched_on: bool,
    now: Instant,
    bounds: Option<(i64, i64)>,
) -> (wider: Option<(i64, i64)>)
    ensures
        wider == widened_by_all(bounds, shown_figures(ring@, switched_on, now)),
{
    if !switched_on {
        return bounds;
    }
    let shown: Vec<Sample> = ring.iter_visible(now);
    let mut wider: Option<(i64, i64)> = bounds;
    let mut at: usize = 0;
    assert(shown@.take(0) =~= Seq::empty());
    while at < shown.len()
        invariant
            at <= shown@.len(),
            wider == widened_by_all(bounds, figures(shown@.take(at as int))),
        decreases shown@.len() - at,
    {
        assert(shown@.take(at + 1).drop_last() =~= shown@.take(at as int));
        if let Some(value) = shown[at].value {
            let ghost before = figures(shown@.take(at as int));
            assert(before.push(value).drop_last() =~= before);
            wider =
            match wider {
                None => Some((value, value)),
                Some((low, high)) => Some(
                    (
                        if value < low {
                            value
                        } else {
                            low
                        },
                        if value > high {
                            value
                        } else {
                            high
                        },
                    ),
                ),
            };
        }
        at = at + 1;
    }
    assert(shown@.take(at as int) =~= shown@);
    wider
}

/// Which figures a graph shows.
#[derive(Debug, Clone, Copy)]
pub struct Switches {
    pub rsrp: bool,
    pub rsrq: bool,
    pub rssi: bool,
    pub sinr: bool,
    pub cqi: bool,
}

/// All figures that a graph shows, ring by ring.
pub open spec fn all_shown(history: SignalHistory, switches: Switches, now: Instant) -> Seq<i64> {
    shown_figures(history.rsrp@, switches.rsrp, now) + shown_figures(
        history.rsrq@,
        switches.rsrq,
        now,
    ) + shown_figures(history.rssi@, switches.rssi, now) + shown_figures(
        history.sinr@,
        switches.sinr,
        now,
    ) + shown_figures(history.cqi@, switches.cqi, now)
}

/// Whether the bounds are those of the figures: none of no figures, else the
/// smallest and the largest of them.
pub open spec fn are_bounds_of(bounds: Option<(i64, i64)>, values: Seq<i64>) -> bool {
    match bounds {
        None => values.len() == 0,
        Some((low, high)) => {
            &&& values.contains(low)
            &&& values.contains(high)
            &&& forall|i: int| 0 <= i < values.len() ==> low <= #[trigger] values[i] <= high
        },
    }
}

/// Widening the bounds of the figures seen gives the bounds of all of them.
pub proof fn lemma_widening_keeps_bounds(bounds: Option<(i64, i64)>, seen: Seq<i64>, more: Seq<i64>)
    requires
        are_bounds_of(bounds, seen),
    ensures
        are_bounds_of(widened_by_all(bounds, more), seen + more),
    decreases more.len(),
{
    if more.len() == 0 {
        assert(seen + more =~= seen);
    } else {
        let rest = more.drop_last();
        lemma_widening_keeps_bounds(bounds, seen, rest);
        let all = seen + rest;
        let value = more.last();
        assert(seen + more =~= all.push(value));
        let before = widened_by_all(bounds, rest);
        let after = widened(before, value);
        assert(all.push(value)[all.len() as int] == value);
        if let Some((low, high)) = before {
            let i = choose|i: int| 0 <= i < all.len() && all[i] == low;
            let j = choose|j: int| 0 <= j < all.len() && all[j] == high;
            assert(all.push(value)[i] == low);
            assert(all.push(value)[j] == high);
        }
        assert(are_bounds_of(after, all.push(value)));
    }
}

/// The smallest and the largest figure that a graph shows, if it shows any.
pub fn graph_bounds(history: &SignalHistory, switches: Switches, now: Instant) -> (bounds: Option<
    (i64, i64),
>)
    ensures
        are_bounds_of(bounds, all_shown(*history, switches, now)),
{
    let ghost none = Seq::<i64>::empty();
    let rsrp = collect_bounds(&history.rsrp, switches.rsrp, now, None);
    let rsrq = collect_bounds(&history.rsrq, switches.rsrq, now, rsrp);
    let rssi = collect_bounds(&history.rssi, switches.rssi, now, rsrq);
    let sinr = collect_bounds(&history.sinr, switches.sinr, now, rssi);
    let cqi = collect_bounds(&history.cqi, switches.cqi, now, sinr);
    proof {
        let one = shown_figures(history.rsrp@, switches.rsrp, now);
        let two = shown_figures(history.rsrq@, switches.rsrq, now);
        let three = shown_figures(history.rssi@, switches.rssi, now);
        let four = shown_figures(history.sinr@, switches.sinr, now);
        let five = shown_figures(history.cqi@, switches.cqi, now);
        lemma_widening_keeps_bounds(None, none, one);
        assert(none + one =~= one);
        lemma_widening_keeps_bounds(rsrp, one, two);
        lemma_widening_keeps_bounds(rsrq, one + two, three);
        lemma_widening_keeps_bounds(rssi, one + two + three, four);
        lemma_widening_keeps_bounds(sinr, one + two + three + four, five);
    }
    cqi
}

/// The latest figure that a graph shows of one ring.
pub open spec fn latest_figure(
    samples: Seq<Sample>,
    switched_on: bool,
    now: Instant,
) -> Option<i64> {
    let shown = shown_figures(samples, switched_on, now);
    if shown.len() == 0 {
        None
    } else {
        Some(shown.last())
    }
}

/// The latest figure that a graph shows of one ring.
pub fn current_value(ring: &MetricRing, switched_on: bool, now: Instant) -> (value: Option<i64>)
    ensures
        value == latest_figure(ring@, switched_on, now),
{
    if !switched_on {
        return None;
    }
    let shown: Vec<Sample> = ring.iter_visible(now);
    let mut at: usize = shown.len();
    assert(shown@.take(at as int) =~= shown@);
    while at > 0
        invariant
            at <= shown@.len(),
            figures(shown@) == figures(shown@.take(at as int)),
            switched_on,
            shown@ == visible(ring@, now),
        decreases at,
    {
        at = at - 1;
        assert(shown@.take(at + 1).drop_last() =~= shown@.take(at as int));
        if let Some(value) = shown[at].value {
            return Some(value);
        }
    }
    assert(shown@.take(0) =~= Seq::empty());
    None
}

/// The distance between two neighbouring numbers that a graph tells apart, near a
/// number of this size: figures are drawn with 53 binary digits.
pub open spec fn grain(size: nat, least: nat) -> nat
    decreases size - least,
{
    if least == 0 || size < least * 0x20_0000_0000_0000 {
        least
    } else {
        grain(size, 2 * least)
    }
}

/// The number nearest to `size` that a graph tells apart from its neighbours, the
/// even one of two that are as near.
pub open spec fn drawn_size(size: nat) -> nat {
    let step = grain(size, 1);
    let (count, rest) = (size / step, size % step);
    if 2 * rest > step || 2 * rest == step && count % 2 == 1 {
        (count + 1) * step
    } else {
        count * step
    }
}

/// A figure as it is drawn.
pub open spec fn drawn(value: i64) -> int {
    if value < 0 {
        -(drawn_size((-(value as int)) as nat) as int)
    } else {
        drawn_size(value as nat) as int
    }
}

/// The step and the number of whole steps at which a graph draws a number of this
/// size, and what is left over.
fn drawn_steps(size: u128) -> (parts: (u128, u128, u128))
    requires
        size <= 0x8000_0000_0000_0000,
    ensures
        parts.0 == grain(size as nat, 1),
        1 <= parts.0 <= 0x800,
        parts.0 == 1 || parts.1 >= 1,
        parts.1 == size as nat / parts.0 as nat,
        parts.2 == size as nat % parts.0 as nat,
{
    let mut step: u128 = 1;
    while size >= step * 0x20_0000_0000_0000
        invariant
            size <= 0x8000_0000_0000_0000,
            1 <= step <= 0x800,
            step == 1 || size >= step,
            grain(size as nat, step as nat) == grain(size as nat, 1),
        decreases 0x800 - step,
    {
        step = 2 * step;
    }
    assert(step == 1 || size / step >= 1) by (nonlinear_arith)
        requires
            step >= 1,
            step == 1 || size >= step,
    ;
    (step, size / step, size % step)
}

/// The latest figure of a ring in words: the number as it is drawn, and the name
/// of the figure.
pub open spec fn latest_words(
    label: Seq<char>,
    samples: Seq<Sample>,
    switched_on: bool,
    now: Instant,
) -> Option<Seq<char>> {
    match latest_figure(samples, switched_on, now) {
        Some(value) => Some(text::decimal(drawn(value)) + " ("@ + label + ")"@),
        None => None,
    }
}

/// The latest figure of a ring in words: the number as it is drawn, and the name
/// of the figure.
pub fn current_value_label(
    label: &str,
    ring: &MetricRing,
    switched_on: bool,
    now: Instant,
) -> (words: Option<String>)
    ensures
        snapshot::text_of(words) == latest_words(label@, ring@, switched_on, now),
{
    match current_value(ring, switched_on, now) {
        None => None,
        Some(value) => {
            let size: u128 = if value < 0 {
                (0i128 - (value as i128)) as u128
            } else {
                value as u128
            };
            let (step, count, rest) = drawn_steps(size);
            let up: bool = 2 * rest > step || 2 * rest == step && count % 2 == 1;
            let whole: u128 = if up {
                count + 1
            } else {
                count
            };
            proof {
                vstd::arithmetic::div_mod::lemma_fundamental_div_mod(size as int, step as int);
                assert(count * step <= size) by (nonlinear_arith)
                    requires
                        size == step * count + rest,
                        rest >= 0,
                ;
                assert((count + 1) * step == count * step + step) by (nonlinear_arith);
            }
            let nearest: u128 = whole * step;
            assert(nearest == drawn_size(size as nat));
            let mut words: String = if value < 0 {
                "-".to_owned()
            } else {
                String::new()
            };
            words.append(nat_to_text(nearest).as_str());
            words.append(" (");
            words.append(label);
            words.append(")");
            proof {
                reveal_strlit("-");
                if value < 0 {
                    assert(nearest > 0) by (nonlinear_arith)
                        requires
                            nearest == whole * step,
                            size == step * count + rest,
                            size >= 1,
                            step >= 1,
                            rest < step,
                            step > 1 ==> count >= 1,
                            step == 1 ==> rest == 0,
                            whole >= count,
                    ;
                }
                assert(words@ =~= text::decimal(drawn(value)) + " ("@ + label@ + ")"@);
            }
            Some(words)
        },
    }
}

/// One point of a curve.
#[derive(Debug, Clone, Copy)]
pub struct PathPoint {
    /// Whether a new stroke begins here: there is no point right before it.
    pub starts: bool,
    pub age: Duration,
    pub value: i64,
}

/// How old a sample is at `now`; not older than new.
pub open spec fn age_of(sample: Sample, now: Instant) -> Duration {
    Duration {
        nanos: if now.nanos <= sample.at.nanos {
            0
        } else {
            (now.nanos - sample.at.nanos) as u128
        },
    }
}

/// The curve through the samples: a point for each figure, with a new stroke
/// after each gap.
pub open spec fn curve(samples: Seq<Sample>, now: Instant) -> Seq<PathPoint>
    decreases samples.len(),
{
    if samples.len() == 0 {
        Seq::empty()
    } else {
        let before = samples.drop_last();
        match samples.last().value {
            Some(value) => curve(before, now).push(
                PathPoint {
                    starts: before.len() == 0 || before.last().value is None,
                    age: age_of(samples.last(), now),
                    value,
                },
            ),
            None => curve(before, now),
        }
    }
}

/// The curve that a graph shows of one ring.
pub open spec fn shown_curve(samples: Seq<Sample>, switched_on: bool, now: Instant) -> Seq<
    PathPoint,
> {
    if switched_on {
        curve(visible(samples, now), now)
    } else {
        Seq::empty()
    }
}

/// The curve that a graph shows of one ring.
pub fn metric_path(ring: &MetricRing, switched_on: bool, now: Instant) -> (path: Vec<PathPoint>)
    ensures
        path@ == shown_curve(ring@, switched_on, now),
{
    let mut path: Vec<PathPoint> = Vec::new();
    if !switched_on {
        return path;
    }
    let shown: Vec<Sample> = ring.iter_visible(now);
    let mut started: bool = false;
    let mut at: usize = 0;
    assert(shown@.take(0) =~= Seq::empty());
    while at < shown.len()
        invariant
            at <= shown@.len(),
            path@ == curve(shown@.take(at as int), now),
            started == (at > 0 && shown@[at - 1].value is Some),
        decreases shown@.len() - at,
    {
        assert(shown@.take(at + 1).drop_last() =~= shown@.take(at as int));
        let sample: Sample = shown[at];
        match sample.value {
            Some(value) => {
                let age: Duration = now.duration_since(sample.at);
                path.push(PathPoint { starts: !started, age, value });
                started = true;
            },
            None => {
                started = false;
            },
        }
        at = at + 1;
    }
    assert(shown@.take(at as int) =~= shown@);
    path
}

/// The samples of a ring after `more` was pushed, one by one.
pub open spec fn after_pushes(samples: Seq<Sample>, more: Seq<Sample>) -> Seq<Sample>
    decreases more.len(),
{
    if more.len() == 0 {
        samples
    } else {
        with_sample(after_pushes(samples, more.drop_last()), more.last().at, more.last().value)
    }
}

/// However many samples are pushed, the ring holds exactly the latest ones, up
/// to the limit, in the order in which they came.
pub proof fn a_ring_keeps_the_latest_samples(more: Seq<Sample>)
    ensures
        after_pushes(Seq::empty(), more) == latest(more, MAX_SAMPLES as int),
        after_pushes(Seq::empty(), more).len() <= MAX_SAMPLES,
    decreases more.len(),
{
    if more.len() > 0 {
        let rest = more.drop_last();
        a_ring_keeps_the_latest_samples(rest);
        let kept = latest(rest, MAX_SAMPLES as int);
        let one = more.last();
        assert(Sample { at: one.at, value: one.value } == one);
        assert(latest(kept.push(one), MAX_SAMPLES as int) =~= latest(more, MAX_SAMPLES as int));
    } else {
        assert(latest(more, MAX_SAMPLES as int) =~= Seq::empty());
    }
}

/// What has dropped out of sight stays out of sight: as time goes on, samples
/// only leave.
pub proof fn samples_only_age(sample: Sample, now: Instant, later: Instant)
    requires
        now.nanos <= later.nanos,
        !is_recent(sample, now),
    ensures
        !is_recent(sample, later),
{
}

proof fn lemma_curve_has_the_figures(samples: Seq<Sample>, now: Instant)
    ensures
        curve(samples, now).len() == figures(samples).len(),
        forall|i: int|
            0 <= i < figures(samples).len() ==> #[trigger] curve(samples, now)[i].value
                == figures(samples)[i],
    decreases samples.len(),
{
    if samples.len() > 0 {
        lemma_curve_has_the_figures(samples.drop_last(), now);
    }
}

/// Whether all points of a curve lie within the bounds.
pub open spec fn within(points: Seq<PathPoint>, bounds: Option<(i64, i64)>) -> bool {
    forall|i: int|
        0 <= i < points.len() ==> {
            &&& bounds matches Some((low, high))
            &&& low <= (#[trigger] points[i]).value <= high
        }
}

proof fn lemma_part_is_within(
    samples: Seq<Sample>,
    switched_on: bool,
    now: Instant,
    before: Seq<i64>,
    after: Seq<i64>,
    bounds: Option<(i64, i64)>,
)
    requires
        are_bounds_of(bounds, before + shown_figures(samples, switched_on, now) + after),
    ensures
        within(shown_curve(samples, switched_on, now), bounds),
{
    let points = shown_curve(samples, switched_on, now);
    let part = shown_figures(samples, switched_on, now);
    let all = before + part + after;
    lemma_curve_has_the_figures(visible(samples, now), now);
    assert forall|i: int| 0 <= i < points.len() implies {
        &&& bounds matches Some((low, high))
        &&& low <= (#[trigger] points[i]).value <= high
    } by {
        assert(all[before.len() + i] == part[i]);
    }
}

proof fn lemma_regroup(
    none: Seq<i64>,
    one: Seq<i64>,
    two: Seq<i64>,
    three: Seq<i64>,
    four: Seq<i64>,
    five: Seq<i64>,
)
    requires
        none.len() == 0,
    ensures
        one + two + three + four + five == none + one + (two + three + four + five),
        one + two + three + four + five == one + two + (three + four + five),
        one + two + three + four + five == one + two + three + (four + five),
        one + two + three + four + five == one + two + three + four + five + none,
{
    let all = one + two + three + four + five;
    assert(all =~= none + one + (two + three + four + five));
    assert(all =~= one + two + (three + four + five));
    assert(all =~= one + two + three + (four + five));
    assert(all =~= all + none);
}

/// Every point that a graph draws lies within the bounds of the graph.
pub proof fn curves_stay_within_bounds(
    history: SignalHistory,
    switches: Switches,
    now: Instant,
    bounds: Option<(i64, i64)>,
)
    requires
        are_bounds_of(bounds, all_shown(history, switches, now)),
    ensures
        within(shown_curve(history.rsrp@, switches.rsrp, now), bounds),
        within(shown_curve(history.rsrq@, switches.rsrq, now), bounds),
        within(shown_curve(history.rssi@, switches.rssi, now), bounds),
        within(shown_curve(history.sinr@, switches.sinr, now), bounds),
        within(shown_curve(history.cqi@, switches.cqi, now), bounds),
{
    let all = all_shown(history, switches, now);
    let none = Seq::<i64>::empty();
    let one = shown_figures(history.rsrp@, switches.rsrp, now);
    let two = shown_figures(history.rsrq@, switches.rsrq, now);
    let three = shown_figures(history.rssi@, switches.rssi, now);
    let four = shown_figures(history.sinr@, switches.sinr, now);
    let five = shown_figures(history.cqi@, switches.cqi, now);
    let (after_one, after_two) = (two + three + four + five, three + four + five);
    assert(within(shown_curve(history.rsrp@, switches.rsrp, now), bounds)) by {
        lemma_regroup(none, one, two, three, four, five);
        lemma_part_is_within(history.rsrp@, switches.rsrp, now, none, after_one, bounds);
    }
    assert(within(shown_curve(history.rsrq@, switches.rsrq, now), bounds)) by {
        lemma_regroup(none, one, two, three, four, five);
        lemma_part_is_within(history.rsrq@, switches.rsrq, now, one, after_two, bounds);
    }
    assert(within(shown_curve(history.rssi@, switches.rssi, now), bounds)) by {
        lemma_regroup(none, one, two, three, four, five);
        lemma_part_is_within(history.rssi@, switches.rssi, now, one + two, four + five, bounds);
    }
    assert(within(shown_curve(history.sinr@, switches.sinr, now), bounds)) by {
        lemma_part_is_within(history.sinr@, switches.sinr, now, one + two + three, five, bounds);
    }
    assert(within(shown_curve(history.cqi@, switches.cqi, now), bounds)) by {
        lemma_regroup(none, one, two, three, four, five);
        let before_five = one + two + three + four;
        lemma_part_is_within(history.cqi@, switches.cqi, now, before_five, none, bounds);
    }
}

} // verus!
