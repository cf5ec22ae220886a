//! A cached gateway reading with its poll schedule.

use crate::time::{Duration, Instant, FAR_FUTURE_SECS, NANOS_PER_SEC};
use vstd::prelude::*;

verus! {

/// The readings that the program takes from the gateway.
#[derive(Debug, Clone, Copy, PartialEq, Eq, Hash, Structural)]
pub enum DataSourceKind {
    Gateway,
    Signal,
    Sim,
    Clients,
    Wifi,
}

/// The last value of one reading, how often it is renewed, and when next.
#[derive(Debug, Clone)]
pub struct DataSource<T> {
    pub kind: DataSourceKind,
    pub cached: Option<T>,
    pub poll_interval: Option<Duration>,
    pub next_poll: Instant,
    pub generation: u64,
}

/// A new value of a source with the generation it opened.
pub struct DataUpdate<T> {
    pub kind: DataSourceKind,
    pub generation: u64,
    pub value: T,
}

/// The deadline that follows `deadline` at time `now`, on the same schedule: a
/// deadline still ahead stays, one that has passed moves on by whole intervals
/// to the first point after `now`.
pub open spec fn advanced_deadline(deadline: int, interval: int, now: int) -> int {
    if deadline > now {
        deadline
    } else {
        deadline + ((now - deadline) / interval + 1) * interval
    }
}

/// How far ahead of `now` a changed interval puts the next poll.
pub open spec fn first_delay(interval: Option<Duration>) -> int {
    match interval {
        Some(span) => span.nanos as int,
        None => FAR_FUTURE_SECS * NANOS_PER_SEC,
    }
}

impl<T> DataSource<T> {
    /// Whether the schedule has a next deadline after `now` that an instant can
    /// hold: an empty interval never gets past a deadline that has come.
    pub open spec fn can_advance(&self, now: Instant) -> bool {
        self.poll_interval matches Some(span) ==> {
            ||| self.next_poll.nanos > now.nanos
            ||| span.nanos > 0 && advanced_deadline(
                self.next_poll.nanos as int,
                span.nanos as int,
                now.nanos as int,
            ) <= u128::MAX
        }
    }

    /// The deadline after a poll or an update at `now`.
    pub open spec fn deadline_after(&self, now: Instant) -> int {
        match self.poll_interval {
            Some(span) => advanced_deadline(
                self.next_poll.nanos as int,
                span.nanos as int,
                now.nanos as int,
            ),
            None => self.next_poll.nanos as int,
        }
    }

    /// Whether only the schedule differs between the two.
    pub open spec fn same_but_schedule(&self, other: &Self) -> bool {
        &&& self.kind == other.kind
        &&& self.cached == other.cached
        &&& self.generation == other.generation
    }

    /// What setting the poll interval at `now` makes of `before`.
    pub open spec fn interval_set(
        &self,
        before: &Self,
        interval: Option<Duration>,
        now: Instant,
    ) -> bool {
        if before.poll_interval == interval {
            *self == *before
        } else {
            &&& self.same_but_schedule(before)
            &&& self.poll_interval == interval
            &&& self.next_poll.nanos == now.nanos + first_delay(interval)
        }
    }

    /// What a poll attempt at `now` makes of `before`.
    pub open spec fn attempt_recorded(&self, before: &Self, now: Instant) -> bool {
        &&& self.same_but_schedule(before)
        &&& self.poll_interval == before.poll_interval
        &&& self.next_poll.nanos == before.deadline_after(now)
    }

    /// What starting the schedule afresh at `now` makes of `before`.
    pub open spec fn deadline_reset(&self, before: &Self, now: Instant) -> bool {
        &&& self.same_but_schedule(before)
        &&& self.poll_interval == before.poll_interval
        &&& self.next_poll.nanos == match before.poll_interval {
            Some(span) => now.nanos + span.nanos,
            None => before.next_poll.nanos as int,
        }
    }

    /// Whether the schedule can be started afresh at `now`.
    pub open spec fn can_reset(&self, now: Instant) -> bool {
        self.poll_interval matches Some(span) ==> now.nanos + span.nanos <= u128::MAX
    }

    /// What taking over a value at `now` makes of all but the value of `before`.
    pub open spec fn moved_on(&self, before: &Self, now: Instant) -> bool {
        &&& self.kind == before.kind
        &&& self.poll_interval == before.poll_interval
        &&& self.generation == before.generation + 1
        &&& self.next_poll.nanos == before.deadline_after(now)
    }

    /// What taking over `value` at `now` makes of `before`.
    pub open spec fn renewed(&self, before: &Self, value: T, now: Instant) -> bool where T: Clone {
        &&& self.moved_on(before, now)
        &&& self.cached matches Some(kept) && cloned(value, kept)
    }

    /// Whether a fresh value can be taken over at `now`.
    pub open spec fn can_renew(&self, now: Instant) -> bool {
        self.generation < u64::MAX && self.can_advance(now)
    }

    /// Whether a poll is due at `now`.
    pub open spec fn is_due(&self, now: Instant) -> bool {
        self.poll_interval is Some && now.nanos >= self.next_poll.nanos
    }

    /// A source that has read nothing yet and is not polled.
    pub fn new(kind: DataSourceKind, now: Instant) -> (source: Self)
        ensures
            source.kind == kind,
            source.cached is None,
            source.poll_interval is None,
            source.next_poll == now,
            source.generation == 0,
    {
        DataSource { kind, cached: None, poll_interval: None, next_poll: now, generation: 0 }
    }

    /// Polls every `interval` from `now` on, or not at all. Setting the interval
    /// that already holds changes nothing.
    pub fn set_poll_interval(&mut self, interval: Option<Duration>, now: Instant)
        requires
            old(self).poll_interval == interval || now.nanos + first_delay(interval) <= u128::MAX,
        ensures
            final(self).interval_set(old(self), interval, now),
    {
        let same = match (self.poll_interval, interval) {
            (Some(current), Some(wanted)) => current.nanos == wanted.nanos,
            (None, None) => true,
            _ => false,
        };
        if same {
            return;
        }
        self.poll_interval = interval;
        let delay = match interval {
            Some(span) => span,
            None => Duration::from_secs(FAR_FUTURE_SECS),
        };
        self.next_poll = now.plus(delay);
    }

    /// Takes over a fresh value: the generation goes up by one and the schedule
    /// moves past `now`.
    pub fn update(&mut self, value: T, now: Instant) -> (update: DataUpdate<T>) where T: Clone
        requires
            old(self).can_renew(now),
        ensures
            final(self).renewed(old(self), value, now),
            update.kind == old(self).kind,
            update.generation == final(self).generation,
            update.value == value,
    {
        self.generation = self.generation + 1;
        self.cached = Some(value.clone());
        if let Some(interval) = self.poll_interval {
            self.advance_next_poll(interval, now);
        }
        DataUpdate { kind: self.kind, generation: self.generation, value }
    }

    /// Moves the next poll past `now` in steps of `interval`.
    pub fn advance_next_poll(&mut self, interval: Duration, now: Instant)
        requires
            old(self).next_poll.nanos > now.nanos || interval.nanos > 0 && advanced_deadline(
                old(self).next_poll.nanos as int,
                interval.nanos as int,
                now.nanos as int,
            ) <= u128::MAX,
        ensures
            final(self).next_poll.nanos == advanced_deadline(
                old(self).next_poll.nanos as int,
                interval.nanos as int,
                now.nanos as int,
            ),
            final(self).kind == old(self).kind,
            final(self).cached == old(self).cached,
            final(self).poll_interval == old(self).poll_interval,
            final(self).generation == old(self).generation,
    {
        if self.next_poll.nanos > now.nanos {
            return;
        }
        let ghost start = self.next_poll.nanos as int;
        let ghost step = interval.nanos as int;
        let ghost missed = (now.nanos - start) / step;
        proof {
            lemma_missed_steps(start, step, now.nanos as int);
            assert((missed + 1) * step >= step) by (nonlinear_arith)
                requires
                    missed >= 0,
                    step > 0,
            ;
        }
        let mut next_poll = self.next_poll.plus(interval);
        let ghost mut steps: int = 1;
        assert(1 * step == step);
        while next_poll.nanos <= now.nanos
            invariant
                interval.nanos == step,
                step > 0,
                missed == (now.nanos - start) / step,
                1 <= steps <= missed + 1,
                next_poll.nanos == start + steps * step,
                start + missed * step <= now.nanos < start + (missed + 1) * step,
                start + (missed + 1) * step <= u128::MAX,
            decreases missed + 1 - steps,
        {
            proof {
                if steps == missed + 1 {
                    assert(false);
                }
                assert((steps + 1) * step <= (missed + 1) * step) by (nonlinear_arith)
                    requires
                        steps + 1 <= missed + 1,
                        step > 0,
                ;
                assert((steps + 1) * step == steps * step + step) by (nonlinear_arith);
                steps = steps + 1;
            }
            next_poll = next_poll.plus(interval);
        }
        proof {
            if steps <= missed {
                assert(steps * step <= missed * step) by (nonlinear_arith)
                    requires
                        steps <= missed,
                        step > 0,
                ;
            }
        }
        self.next_poll = next_poll;
    }

    /// Notes that a poll was tried at `now`, whatever came of it.
    pub fn record_poll_attempt(&mut self, now: Instant)
        requires
            old(self).can_advance(now),
        ensures
            final(self).attempt_recorded(old(self), now),
    {
        if let Some(interval) = self.poll_interval {
            self.advance_next_poll(interval, now);
        }
    }

    /// Starts the schedule afresh: one whole interval from `now`.
    pub fn reset_poll_deadline(&mut self, now: Instant)
        requires
            old(self).can_reset(now),
        ensures
            final(self).deadline_reset(old(self), now),
    {
        if let Some(interval) = self.poll_interval {
            self.next_poll = now.plus(interval);
        }
    }
}

/// `missed` whole steps fit between a passed deadline and `now`, and one more
/// does not.
proof fn lemma_missed_steps(start: int, step: int, now: int)
    requires
        start <= now,
        step > 0,
    ensures
        (now - start) / step >= 0,
        start + (now - start) / step * step <= now,
        now < start + ((now - start) / step + 1) * step,
{
    let gap = now - start;
    vstd::arithmetic::div_mod::lemma_fundamental_div_mod(gap, step);
    vstd::arithmetic::div_mod::lemma_div_pos_is_pos(gap, step);
    assert(gap / step * step == step * (gap / step)) by (nonlinear_arith);
    assert((gap / step + 1) * step == gap / step * step + step) by (nonlinear_arith);
}

/// Polling does not drift: the next deadline is the first point of the old
/// schedule that lies after `now`. It is a whole number of intervals after the
/// old one, at most one interval ahead unless it already was, and no earlier
/// point of the schedule would do.
pub proof fn deadline_keeps_to_schedule(deadline: int, interval: int, now: int)
    requires
        interval > 0,
    ensures
        advanced_deadline(deadline, interval, now) > now,
        advanced_deadline(deadline, interval, now) >= deadline,
        (advanced_deadline(deadline, interval, now) - deadline) % interval == 0,
        deadline <= now ==> advanced_deadline(deadline, interval, now) <= now + interval,
        forall|steps: int|
            #![trigger steps * interval]
            steps >= 0 && deadline + steps * interval > now ==> advanced_deadline(
                deadline,
                interval,
                now,
            ) <= deadline + steps * interval,
{
    if deadline <= now {
        lemma_missed_steps(deadline, interval, now);
        let missed = (now - deadline) / interval;
        assert((missed + 1) * interval == missed * interval + interval) by (nonlinear_arith);
        vstd::arithmetic::div_mod::lemma_mod_multiples_basic(missed + 1, interval);
        assert((missed + 1) * interval >= 0) by (nonlinear_arith)
            requires
                missed >= 0,
                interval > 0,
        ;
        assert forall|steps: int|
            #![trigger steps * interval]
            steps >= 0 && deadline + steps * interval > now implies (missed + 1) * interval <= steps
            * interval by {
            if steps <= missed {
                assert(steps * interval <= missed * interval) by (nonlinear_arith)
                    requires
                        steps <= missed,
                        interval > 0,
                ;
            }
            assert((missed + 1) * interval <= steps * interval) by (nonlinear_arith)
                requires
                    missed + 1 <= steps,
                    interval > 0,
            ;
        }
    } else {
        assert(0int % interval == 0) by {
            vstd::arithmetic::div_mod::lemma_mod_multiples_basic(0, interval);
        }
        assert forall|steps: int|
            #![trigger steps * interval]
            steps >= 0 && deadline + steps * interval > now implies deadline <= deadline + steps
            * interval by {
            assert(steps * interval >= 0) by (nonlinear_arith)
                requires
                    steps >= 0,
                    interval > 0,
            ;
        }
    }
}

/// How often a source is looked at does not move its schedule: two polls lead to
/// the same deadline as the later one alone.
pub proof fn extra_polls_do_not_shift_the_schedule(
    deadline: int,
    interval: int,
    earlier: int,
    later: int,
)
    requires
        interval > 0,
        earlier <= later,
    ensures
        advanced_deadline(advanced_deadline(deadline, interval, earlier), interval, later)
            == advanced_deadline(deadline, interval, later),
{
    let between = advanced_deadline(deadline, interval, earlier);
    let both = advanced_deadline(between, interval, later);
    let alone = advanced_deadline(deadline, interval, later);
    deadline_keeps_to_schedule(deadline, interval, earlier);
    deadline_keeps_to_schedule(between, interval, later);
    deadline_keeps_to_schedule(deadline, interval, later);
    let k = steps_between(deadline, interval, earlier);
    let m = steps_between(between, interval, later);
    let n = steps_between(deadline, interval, later);
    lemma_steps_between(deadline, interval, earlier);
    lemma_steps_between(between, interval, later);
    lemma_steps_between(deadline, interval, later);
    assert((k + m) * interval == k * interval + m * interval) by (nonlinear_arith);
    assert(deadline + (k + m) * interval == both);
    assert(alone <= both);
    assert(alone > earlier);
    assert(between <= alone) by {
        assert(deadline + n * interval > earlier);
    }
    if n < k {
        assert(n * interval < k * interval) by (nonlinear_arith)
            requires
                n < k,
                interval > 0,
        ;
    }
    assert((n - k) * interval == n * interval - k * interval) by (nonlinear_arith);
    assert(between + (n - k) * interval == alone);
    assert(both <= alone);
}

/// How many intervals the next deadline lies after the old one.
spec fn steps_between(deadline: int, interval: int, now: int) -> int {
    if deadline > now {
        0
    } else {
        (now - deadline) / interval + 1
    }
}

proof fn lemma_steps_between(deadline: int, interval: int, now: int)
    requires
        interval > 0,
    ensures
        steps_between(deadline, interval, now) >= 0,
        advanced_deadline(deadline, interval, now) == deadline + steps_between(
            deadline,
            interval,
            now,
        ) * interval,
{
    if deadline <= now {
        lemma_missed_steps(deadline, interval, now);
    } else {
        assert(0 * interval == 0) by (nonlinear_arith);
    }
}

/// A source that was polled is not due again at the same time: what a poll
/// attempt leaves behind lies in the future.
pub proof fn polled_source_is_not_due<T>(
    before: DataSource<T>,
    after: DataSource<T>,
    now: Instant,
)
    requires
        before.can_advance(now),
        after.attempt_recorded(&before, now),
    ensures
        !after.is_due(now),
{
    if let Some(span) = before.poll_interval {
        if before.next_poll.nanos <= now.nanos {
            deadline_keeps_to_schedule(
                before.next_poll.nanos as int,
                span.nanos as int,
                now.nanos as int,
            );
        }
    }
}

/// A fresh value moves the schedule as a poll attempt does, and a source polled
/// after its update is where the update put it.
pub proof fn update_schedules_like_an_attempt<T: Clone>(
    before: DataSource<T>,
    after: DataSource<T>,
    value: T,
    now: Instant,
)
    requires
        before.can_renew(now),
        after.renewed(&before, value, now),
    ensures
        !after.is_due(now),
        after.deadline_after(now) == after.next_poll.nanos,
{
    if let Some(span) = before.poll_interval {
        if before.next_poll.nanos <= now.nanos {
            deadline_keeps_to_schedule(
                before.next_poll.nanos as int,
                span.nanos as int,
                now.nanos as int,
            );
        }
    }
}

} // verus!
