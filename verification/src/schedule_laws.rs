//! What the clocks and schedules promise: what a change of one source sets, and what
//! it leaves alone.

use crate::app::{self, AppState};
use crate::events::{self, Report};
use crate::rows::{self, GatewayTimeState};
use crate::source::{self, DataSource, DataSourceKind};
use crate::text;
use crate::time::{self, Duration, Instant};
use vstd::prelude::*;
use vstd::string::*;

verus! {

/// The whole seconds between two instants are those that fit between them and no more;
/// none fit where the second is not later.
pub proof fn whole_seconds_fit_between(earlier: Instant, later: Instant)
    ensures
        ({
            let seconds = time::whole_seconds_between(earlier, later);
            &&& seconds >= 0
            &&& later.nanos <= earlier.nanos ==> seconds == 0
            &&& earlier.nanos < later.nanos ==> {
                &&& earlier.nanos + seconds * 1_000_000_000 <= later.nanos
                &&& later.nanos < earlier.nanos + (seconds + 1) * 1_000_000_000
            }
        }),
{
}

/// A count of seconds that is carried forward grows by the seconds that have gone by,
/// and carrying it on from there is carrying it all the way.
pub proof fn seconds_add_up(
    count: i64,
    further: i64,
    start: Instant,
    seconds: nat,
    middle: Instant,
    end: Instant,
)
    requires
        middle.nanos == start.nanos + seconds * 1_000_000_000,
        middle.nanos <= end.nanos,
        further == rows::carried_forward(count, start, middle),
    ensures
        further == count + seconds,
        rows::carried_forward(further, middle, end) == rows::carried_forward(count, start, end),
        rows::carried_forward(count, end, start) == count,
        rows::carried_forward(count, start, start) == count,
{
    let first = middle.nanos - start.nanos;
    assert(first == seconds * 1_000_000_000);
    assert(first / 1_000_000_000 == seconds);
    let rest = end.nanos - middle.nanos;
    let whole = end.nanos - start.nanos;
    assert(whole == seconds * 1_000_000_000 + rest);
    assert(whole / 1_000_000_000 == seconds + rest / 1_000_000_000);
}

/// The text of a span names days, hours and minutes that add up to it but for less
/// than a minute, with fewer than twenty-four hours and sixty minutes, and all with
/// the sign of the span.
pub proof fn a_span_is_told_to_the_minute(seconds: int) -> (parts: (int, int, int))
    ensures
        rows::duration_text(seconds) == text::decimal(parts.0) + "d "@ + text::decimal(parts.1)
            + "h "@ + text::decimal(parts.2) + "m"@,
        seconds >= 0 ==> {
            let told = parts.0 * 86_400 + parts.1 * 3_600 + parts.2 * 60;
            parts.0 >= 0 && 0 <= parts.1 < 24 && 0 <= parts.2 < 60 && told <= seconds < told + 60
        },
        seconds < 0 ==> {
            let told = parts.0 * 86_400 + parts.1 * 3_600 + parts.2 * 60;
            parts.0 <= 0 && -24 < parts.1 <= 0 && -60 < parts.2 <= 0 && told - 60 < seconds <= told
        },
{
    let magnitude = if seconds < 0 {
        -seconds
    } else {
        seconds
    };
    let (days, hours, minutes) = (
        magnitude / 86_400,
        magnitude % 86_400 / 3_600,
        magnitude % 3_600 / 60,
    );
    assert(magnitude % 86_400 % 3_600 == magnitude % 3_600);
    if seconds < 0 {
        (-days, -hours, -minutes)
    } else {
        (days, hours, minutes)
    }
}

/// Setting how often a source is polled sets that and keeps what the source holds. A
/// new interval puts the next poll one interval ahead; one that held already leaves the
/// schedule alone. Without an interval the next poll lies in the far future, and a
/// source is never due.
pub proof fn setting_an_interval_keeps_the_reading<T>(
    before: DataSource<T>,
    after: DataSource<T>,
    interval: Option<Duration>,
    now: Instant,
)
    requires
        after.interval_set(&before, interval, now),
    ensures
        after.poll_interval == interval,
        after.kind == before.kind,
        after.cached == before.cached,
        after.generation == before.generation,
        before.poll_interval == interval ==> after.next_poll == before.next_poll,
        before.poll_interval != interval ==> (interval matches Some(span) ==> after.next_poll.nanos
            == now.nanos + span.nanos),
        before.poll_interval != interval && interval is None ==> after.next_poll.nanos == now.nanos
            + 0x3fff_ffff_ffff_ffff * 1_000_000_000,
        interval is None ==> forall|at: Instant| !#[trigger] after.is_due(at),
{
}

/// A poll attempt moves the next poll of a source that is polled past the moment, by
/// whole intervals and no further than needed, and changes nothing else.
pub proof fn an_attempt_moves_only_the_deadline<T>(
    before: DataSource<T>,
    after: DataSource<T>,
    now: Instant,
)
    requires
        before.can_advance(now),
        after.attempt_recorded(&before, now),
    ensures
        after.kind == before.kind,
        after.cached == before.cached,
        after.generation == before.generation,
        after.poll_interval == before.poll_interval,
        before.poll_interval is None ==> after.next_poll == before.next_poll,
        before.next_poll.nanos > now.nanos ==> after.next_poll == before.next_poll,
        before.poll_interval matches Some(span) ==> {
            &&& after.next_poll.nanos > now.nanos
            &&& before.next_poll.nanos <= now.nanos ==> {
                &&& after.next_poll.nanos <= now.nanos + span.nanos
                &&& (after.next_poll.nanos - before.next_poll.nanos) % (span.nanos as int) == 0
            }
        },
{
    if let Some(span) = before.poll_interval {
        if before.next_poll.nanos <= now.nanos {
            source::deadline_keeps_to_schedule(
                before.next_poll.nanos as int,
                span.nanos as int,
                now.nanos as int,
            );
        }
    }
}

/// A new reading raises the generation of its source by one and moves the schedule as
/// a poll attempt does; the kind and the interval stay.
pub proof fn a_reading_opens_a_generation<T>(
    before: DataSource<T>,
    after: DataSource<T>,
    attempted: DataSource<T>,
    now: Instant,
)
    requires
        before.can_renew(now),
        after.moved_on(&before, now),
        attempted.attempt_recorded(&before, now),
    ensures
        after.generation == before.generation + 1,
        after.kind == before.kind,
        after.poll_interval == before.poll_interval,
        after.next_poll == attempted.next_poll,
{
}

/// Starting a schedule afresh puts the next poll one whole interval ahead, and changes
/// nothing else; a source that is not polled stays as it is.
pub proof fn a_fresh_schedule_waits_one_interval<T>(
    before: DataSource<T>,
    after: DataSource<T>,
    now: Instant,
)
    requires
        after.deadline_reset(&before, now),
    ensures
        after.kind == before.kind,
        after.cached == before.cached,
        after.generation == before.generation,
        after.poll_interval == before.poll_interval,
        before.poll_interval matches Some(span) ==> after.next_poll.nanos - now.nanos == span.nanos,
        before.poll_interval is None ==> after.next_poll == before.next_poll,
{
}

/// Setting the interval of one source through the state sets the interval of that
/// source, and leaves the schedules and generations of all others, the session and the
/// snapshot as they were.
pub proof fn setting_one_interval_leaves_the_others(
    before: AppState,
    after: AppState,
    kind: DataSourceKind,
    interval: Option<Duration>,
    now: Instant,
    other: DataSourceKind,
)
    requires
        after.source_interval_set(&before, kind, interval, now),
    ensures
        after.interval_of(kind) == interval,
        after.generation_of(kind) == before.generation_of(kind),
        after.cached_view(kind) == before.cached_view(kind),
        before.interval_of(kind) == interval ==> after.next_poll_of(kind) == before.next_poll_of(
            kind,
        ),
        before.interval_of(kind) != interval ==> (interval matches Some(span)
            ==> after.next_poll_of(kind).nanos == now.nanos + span.nanos),
        other != kind ==> {
            &&& after.interval_of(other) == before.interval_of(other)
            &&& after.next_poll_of(other) == before.next_poll_of(other)
            &&& after.generation_of(other) == before.generation_of(other)
            &&& after.cached_view(other) == before.cached_view(other)
        },
        after.snapshot == before.snapshot,
        after.settings == before.settings,
        after.client == before.client,
        after.cached_password == before.cached_password,
        after.reauth_not_before == before.reauth_not_before,
        after.gateway_info == before.gateway_info,
        after.gateway_time == before.gateway_time,
{
}

/// Trying a poll of one source moves the next poll of that source at most, and leaves its
/// interval and its reading, all other sources, the session and the snapshot as they were.
pub proof fn trying_a_poll_leaves_the_rest(
    before: AppState,
    after: AppState,
    kind: DataSourceKind,
    now: Instant,
    other: DataSourceKind,
)
    requires
        after.attempt_noted(&before, kind, now),
    ensures
        after.interval_of(kind) == before.interval_of(kind),
        after.generation_of(kind) == before.generation_of(kind),
        after.cached_view(kind) == before.cached_view(kind),
        before.next_poll_of(kind).nanos > now.nanos ==> after.next_poll_of(kind)
            == before.next_poll_of(kind),
        other != kind ==> {
            &&& after.interval_of(other) == before.interval_of(other)
            &&& after.next_poll_of(other) == before.next_poll_of(other)
            &&& after.generation_of(other) == before.generation_of(other)
            &&& after.cached_view(other) == before.cached_view(other)
        },
        after.snapshot == before.snapshot,
        after.settings == before.settings,
        after.client == before.client,
        after.cached_password == before.cached_password,
        after.reauth_not_before == before.reauth_not_before,
        after.gateway_info == before.gateway_info,
        after.gateway_time == before.gateway_time,
{
}

/// Taking over a report opens a generation of its source alone, which is then not due: the
/// schedules, the generations and the readings of all others stay.
pub proof fn a_report_renews_its_own_source(
    before: AppState,
    after: AppState,
    report: Report,
    asked_at: Instant,
    now: Instant,
    other: DataSourceKind,
)
    requires
        after.report_taken(&before, report, asked_at, now),
        match report {
            Report::Gateway(_) => other != DataSourceKind::Gateway,
            Report::Signal(_) => other != DataSourceKind::Signal,
            Report::Sim(_) => other != DataSourceKind::Sim,
            Report::Clients(_) => other != DataSourceKind::Clients,
            Report::Wifi(_) => other != DataSourceKind::Wifi,
        },
    ensures
        report is Gateway ==> after.gateway.generation == before.gateway.generation + 1,
        report is Signal ==> after.signal.generation == before.signal.generation + 1,
        report is Sim ==> after.sim.generation == before.sim.generation + 1,
        report is Clients ==> after.clients.generation == before.clients.generation + 1,
        report is Wifi ==> after.wifi.generation == before.wifi.generation + 1,
        after.generation_of(events::report_kind(report)) == before.generation_of(
            events::report_kind(report),
        ) + 1,
        after.interval_of(events::report_kind(report)) == before.interval_of(
            events::report_kind(report),
        ),
        before.can_renew(events::report_kind(report), now) ==> !after.is_due(
            events::report_kind(report),
            now,
        ),
        after.interval_of(other) == before.interval_of(other),
        after.next_poll_of(other) == before.next_poll_of(other),
        after.generation_of(other) == before.generation_of(other),
        after.cached_view(other) == before.cached_view(other),
        after.settings == before.settings,
        after.client == before.client,
        after.cached_password == before.cached_password,
        after.reauth_not_before == before.reauth_not_before,
{
    if before.can_renew(events::report_kind(report), now) {
        match report {
            Report::Gateway(_) => lemma_renewed_is_not_due(before.gateway, after.gateway, now),
            Report::Signal(_) => lemma_renewed_is_not_due(before.signal, after.signal, now),
            Report::Sim(_) => lemma_renewed_is_not_due(before.sim, after.sim, now),
            Report::Clients(_) => lemma_renewed_is_not_due(before.clients, after.clients, now),
            Report::Wifi(_) => lemma_renewed_is_not_due(before.wifi, after.wifi, now),
        }
    }
}

proof fn lemma_renewed_is_not_due<T>(before: DataSource<T>, after: DataSource<T>, now: Instant)
    requires
        before.can_renew(now),
        after.moved_on(&before, now),
    ensures
        !after.is_due(now),
{
    if let Some(span) = before.poll_interval {
        if before.next_poll.nanos <= now.nanos {
            source::deadline_keeps_to_schedule(
                before.next_poll.nanos as int,
                span.nanos as int,
                now.nanos as int,
            );
        }
    }
}

/// The place of a source in the usual order.
pub open spec fn place_of(kind: DataSourceKind) -> int {
    match kind {
        DataSourceKind::Gateway => 0,
        DataSourceKind::Signal => 1,
        DataSourceKind::Sim => 2,
        DataSourceKind::Clients => 3,
        DataSourceKind::Wifi => 4,
    }
}

/// Every source is refreshed when all are, each once and in its place.
pub proof fn every_source_is_listed_once(kind: DataSourceKind)
    ensures
        app::all_sources().contains(kind),
        app::all_sources().no_duplicates(),
        app::all_sources().len() == 5,
        app::all_sources()[place_of(kind)] == kind,
{
    let all = app::all_sources();
    assert(all[0] == DataSourceKind::Gateway && all[1] == DataSourceKind::Signal);
    assert(all[2] == DataSourceKind::Sim && all[3] == DataSourceKind::Clients);
    assert(all[4] == DataSourceKind::Wifi);
}

/// A source is polled exactly while somebody is logged in, it has an interval, and its
/// time has come.
pub proof fn a_source_is_due_when_its_time_has_come(state: AppState, now: Instant)
    ensures
        state.is_due(DataSourceKind::Gateway, now) <==> state.snapshot.logged_in
            && state.gateway.is_due(now),
        state.is_due(DataSourceKind::Signal, now) <==> state.snapshot.logged_in
            && state.signal.is_due(now),
        state.is_due(DataSourceKind::Sim, now) <==> state.snapshot.logged_in && state.sim.is_due(
            now,
        ),
        state.is_due(DataSourceKind::Clients, now) <==> state.snapshot.logged_in
            && state.clients.is_due(now),
        state.is_due(DataSourceKind::Wifi, now) <==> state.snapshot.logged_in && state.wifi.is_due(
            now,
        ),
{
}

/// Once a source is due it stays due until it is polled or logged out: time alone does
/// not undo it, and before its next poll it is not due.
pub proof fn a_due_source_stays_due(
    state: AppState,
    kind: DataSourceKind,
    now: Instant,
    later: Instant,
)
    requires
        now.nanos <= later.nanos,
    ensures
        state.is_due(kind, now) ==> state.is_due(kind, later),
        now.nanos < state.next_poll_of(kind).nanos ==> !state.is_due(kind, now),
        state.is_due(kind, now) ==> state.snapshot.logged_in && state.interval_of(kind) is Some,
        state.snapshot.logged_in && state.interval_of(kind) is Some ==> state.is_due(
            kind,
            state.next_poll_of(kind),
        ),
{
}

/// The radios are watched closely, the SIM is read on demand only, and the rest is
/// polled every few minutes, all at whole seconds.
pub proof fn default_intervals_are_whole_seconds()
    ensures
        app::default_interval(DataSourceKind::Signal) == Some(
            Duration { nanos: (5 * 1_000_000_000) as u128 },
        ),
        app::default_interval(DataSourceKind::Gateway) == Some(
            Duration { nanos: (300 * 1_000_000_000) as u128 },
        ),
        app::default_interval(DataSourceKind::Clients) == app::default_interval(
            DataSourceKind::Gateway,
        ),
        app::default_interval(DataSourceKind::Wifi) == Some(
            Duration { nanos: (600 * 1_000_000_000) as u128 },
        ),
        app::default_interval(DataSourceKind::Sim) is None,
{
}

/// Whether sources stand in the usual order, each at most once.
pub open spec fn in_usual_order(kinds: Seq<DataSourceKind>) -> bool {
    forall|i: int, j: int|
        0 <= i < j < kinds.len() ==> place_of(#[trigger] kinds[i]) < place_of(#[trigger] kinds[j])
}

/// The sources to poll are those that are due, each once and in the usual order.
pub proof fn what_is_due_is_polled(state: AppState, kind: DataSourceKind, now: Instant)
    ensures
        state.due_at(now).contains(kind) <==> state.is_due(kind, now),
        in_usual_order(state.due_at(now)),
{
    let all = app::all_sources();
    let wanted = |each: DataSourceKind| state.is_due(each, now);
    reveal(Seq::filter);
    let (one, two, three, four) = (all.drop_last(), all.take(3), all.take(2), all.take(1));
    assert(one.drop_last() =~= two);
    assert(two.drop_last() =~= three);
    assert(three.drop_last() =~= four);
    assert(four.drop_last() =~= Seq::empty());
    let due_one = four.filter(wanted);
    let due_two = three.filter(wanted);
    let due_three = two.filter(wanted);
    let due_four = one.filter(wanted);
    assert(four.drop_last().filter(wanted) =~= Seq::empty());
    lemma_one_more_due(Seq::empty(), DataSourceKind::Gateway, wanted(DataSourceKind::Gateway));
    lemma_one_more_due(due_one, DataSourceKind::Signal, wanted(DataSourceKind::Signal));
    lemma_one_more_due(due_two, DataSourceKind::Sim, wanted(DataSourceKind::Sim));
    lemma_one_more_due(due_three, DataSourceKind::Clients, wanted(DataSourceKind::Clients));
    lemma_one_more_due(due_four, DataSourceKind::Wifi, wanted(DataSourceKind::Wifi));
}

/// One more source at the end of a list, or not.
spec fn one_more_due(due: Seq<DataSourceKind>, kind: DataSourceKind, wanted: bool) -> Seq<
    DataSourceKind,
> {
    if wanted {
        due.push(kind)
    } else {
        due
    }
}

proof fn lemma_one_more_due(due: Seq<DataSourceKind>, kind: DataSourceKind, wanted: bool)
    requires
        in_usual_order(due),
        forall|i: int| 0 <= i < due.len() ==> place_of(#[trigger] due[i]) < place_of(kind),
    ensures
        in_usual_order(one_more_due(due, kind, wanted)),
        forall|i: int|
            0 <= i < one_more_due(due, kind, wanted).len() ==> place_of(
                #[trigger] one_more_due(due, kind, wanted)[i],
            ) <= place_of(kind),
        forall|each: DataSourceKind| #[trigger]
            one_more_due(due, kind, wanted).contains(each) <==> due.contains(each) || wanted && each
                == kind,
{
    let longer = due.push(kind);
    assert forall|each: DataSourceKind| #[trigger] longer.contains(each) == (due.contains(each)
        || each == kind) by {
        assert(longer[due.len() as int] == kind);
        if due.contains(each) {
            let i = choose|i: int| 0 <= i < due.len() && due[i] == each;
            assert(longer[i] == each);
        }
    }
}

/// The uptime and the clock of the gateway go on from what each was told as, by the
/// whole seconds since then; what was not told stays unknown.
pub proof fn clocks_go_on_from_what_was_told(state: GatewayTimeState, now: Instant)
    ensures
        state.uptime_at(now) is Some <==> state.uptime is Some,
        state.local_time_at(now) is Some <==> state.local_time is Some,
        state.uptime matches Some(told) ==> {
            let gone = state.uptime_at(now)->0 - told;
            &&& gone >= 0
            &&& now.nanos <= state.recorded_at.nanos ==> gone == 0
            &&& now.nanos > state.recorded_at.nanos ==> gone * 1_000_000_000 <= now.nanos
                - state.recorded_at.nanos < (gone + 1) * 1_000_000_000
        },
        state.local_time matches Some(told) ==> {
            let gone = state.local_time_at(now)->0 - told;
            &&& gone >= 0
            &&& now.nanos <= state.recorded_at.nanos ==> gone == 0
            &&& now.nanos > state.recorded_at.nanos ==> gone * 1_000_000_000 <= now.nanos
                - state.recorded_at.nanos < (gone + 1) * 1_000_000_000
        },
{
    whole_seconds_fit_between(state.recorded_at, now);
}

/// A second has a thousand milliseconds, and a thousand million nanoseconds; spans add
/// up.
pub proof fn units_of_time_fit_together(secs: u64, millis: u64, more: u64)
    ensures
        time::nanos_of_secs(secs) == secs * 1_000_000_000,
        millis == secs * 1000 ==> time::nanos_of_millis(millis) == time::nanos_of_secs(secs),
        secs + more <= u64::MAX ==> time::nanos_of_millis((secs + more) as u64)
            == time::nanos_of_millis(secs) + time::nanos_of_millis(more),
{
}

} // verus!
