//! The state behind the user interface, and how reports of the gateway and
//! commands of the user change it.

use crate::events::{
    self, show_reading, signal_payload_from_cell, DataPayload, DataPayloadView, GatewayPayload,
    GatewayPayloadView, InitialData, Report, SignalPayload,
};
use crate::gateway::{
    self, BootstrapData, GatewayClient, GatewayError, HttpRequest, HttpRequestView,
};
use crate::models::{
    AuthResponse, CellRoot, ClientBands, ClientRoot, GatewayInfo, GenericSignal, SimData, SimRoot,
    WifiConfig,
};
use crate::rows::{self, client_rows, device_rows, general_rows, sim_rows, GatewayTimeState};
use crate::settings::Settings;
use crate::snapshot::{self, ClientRow, ClientRowView, Row, RowView, Snapshot, SnapshotView};
use crate::source::{DataSource, DataSourceKind};
use crate::text::concat2;
use crate::time::{Duration, Instant};
use vstd::prelude::*;
use vstd::string::*;

verus! {

/// The state behind the user interface.
#[derive(Debug)]
pub struct AppState {
    pub settings: Settings,
    pub client: GatewayClient,
    pub snapshot: Snapshot,
    pub gateway_info: Option<GatewayInfo>,
    pub gateway_time: Option<GatewayTimeState>,
    /// The password of the last login, for logging in again.
    pub cached_password: Option<String>,
    /// No request is sent before this instant, after a login could not be renewed.
    pub reauth_not_before: Option<Instant>,
    pub gateway: DataSource<GatewayPayload>,
    pub signal: DataSource<SignalPayload>,
    pub sim: DataSource<Vec<Row>>,
    pub clients: DataSource<Vec<ClientRow>>,
    pub wifi: DataSource<WifiConfig>,
}

/// How often each source is polled unless the user sets another rate.
pub open spec fn default_interval(kind: DataSourceKind) -> Option<Duration> {
    match kind {
        DataSourceKind::Gateway => Some(Duration { nanos: 300_000_000_000 }),
        DataSourceKind::Signal => Some(Duration { nanos: 5_000_000_000 }),
        DataSourceKind::Sim => None,
        DataSourceKind::Clients => Some(Duration { nanos: 300_000_000_000 }),
        DataSourceKind::Wifi => Some(Duration { nanos: 600_000_000_000 }),
    }
}

/// The sources, in the order in which they are refreshed together.
pub open spec fn all_sources() -> Seq<DataSourceKind> {
    seq![
        DataSourceKind::Gateway,
        DataSourceKind::Signal,
        DataSourceKind::Sim,
        DataSourceKind::Clients,
        DataSourceKind::Wifi,
    ]
}

/// The rows on a device, if it is known.
pub open spec fn optional_device_table(info: GatewayInfo) -> Seq<RowView> {
    match info.device {
        Some(device) => rows::device_table(device),
        None => Seq::empty(),
    }
}

/// The report on the mobile network connection in a report on the gateway.
pub open spec fn generic_part(info: &GatewayInfo) -> Option<&GenericSignal> {
    match &info.signal {
        Some(signal) => match &signal.generic {
            Some(generic) => Some(generic),
            None => None,
        },
        None => None,
    }
}

/// The gateway's clock as a report on the gateway has it, read at `at`.
pub open spec fn time_part(info: GatewayInfo, at: Instant) -> Option<GatewayTimeState> {
    match info.time {
        Some(time) => Some(
            GatewayTimeState { local_time: time.local_time, uptime: time.uptime, recorded_at: at },
        ),
        None => None,
    }
}

/// The rows on the connection and the uptime in a report on the gateway that was
/// asked for at `at`.
pub open spec fn general_part(info: GatewayInfo, at: Instant) -> Seq<RowView> {
    rows::general_table(
        generic_part(&info),
        match &time_part(info, at) {
            Some(state) => Some(state),
            None => None,
        },
        at,
    )
}

/// The clock, the rows on the device and the general rows of a report on the
/// gateway that was asked for at `at`.
fn read_gateway_info(info: &GatewayInfo, at: Instant) -> (read: (
    Option<GatewayTimeState>,
    Vec<Row>,
    Vec<Row>,
))
    ensures
        read.0 == time_part(*info, at),
        snapshot::row_views(read.1@) == optional_device_table(*info),
        snapshot::row_views(read.2@) == general_part(*info, at),
{
    let time: Option<GatewayTimeState> = match &info.time {
        Some(time) => Some(GatewayTimeState::new(time, at)),
        None => None,
    };
    let generic: Option<&GenericSignal> = match &info.signal {
        Some(signal) => signal.generic.as_ref(),
        None => None,
    };
    let device: Vec<Row> = device_rows(info.device.as_ref());
    let general: Vec<Row> = general_rows(generic, time.as_ref(), at);
    (time, device, general)
}

/// The rows in a SIM report.
pub open spec fn sim_part(sim: SimRoot) -> Seq<RowView> {
    rows::optional_sim_table(
        match &sim.sim {
            Some(data) => Some(data),
            None => None,
        },
    )
}

/// The clients in a client report.
pub open spec fn clients_part(clients: ClientRoot) -> Seq<ClientRowView> {
    rows::optional_client_table(
        match &clients.clients {
            Some(bands) => Some(bands),
            None => None,
        },
    )
}

/// What a report that was asked for at `asked_at` shows.
pub open spec fn reading_of(report: Report, asked_at: Instant) -> DataPayloadView {
    match report {
        Report::Gateway(info) => DataPayloadView::Gateway(
            GatewayPayloadView {
                device_summary: optional_device_table(info),
                general_summary: general_part(info, asked_at),
            },
        ),
        Report::Signal(cell) => DataPayloadView::Signal(events::signal_view(Some(&cell))),
        Report::Sim(sim) => DataPayloadView::Sim(sim_part(sim)),
        Report::Clients(clients) => DataPayloadView::Clients(clients_part(clients)),
        Report::Wifi(wifi) => DataPayloadView::Wifi(wifi@),
    }
}

/// The snapshot after a login, from what was read right after it.
pub open spec fn bootstrapped(
    settings: Settings,
    bootstrap: BootstrapData,
    now: Instant,
) -> SnapshotView {
    let signal = events::signal_view(
        match &bootstrap.cell {
            Some(cell) => Some(cell),
            None => None,
        },
    );
    SnapshotView {
        logged_in: true,
        token_present: true,
        gateway_ip: settings.gateway_ip@,
        username: settings.username@,
        device_summary: optional_device_table(bootstrap.gateway),
        lte_summary: signal.lte_summary,
        five_g_summary: signal.five_g_summary,
        lte_metrics: signal.lte_metrics,
        five_g_metrics: signal.five_g_metrics,
        general_summary: general_part(bootstrap.gateway, now),
        sim_summary: match bootstrap.sim {
            Some(sim) => sim_part(sim),
            None => Seq::empty(),
        },
        clients: match bootstrap.clients {
            Some(clients) => clients_part(clients),
            None => Seq::empty(),
        },
        wifi: snapshot::wifi_of(bootstrap.wifi),
        error: None,
    }
}

impl AppState {
    /// Whether the two differ at most in their snapshots and sources.
    pub open spec fn same_session(&self, other: &Self) -> bool {
        &&& self.settings == other.settings
        &&& self.client == other.client
        &&& self.gateway_info == other.gateway_info
        &&& self.gateway_time == other.gateway_time
        &&& self.cached_password == other.cached_password
        &&& self.reauth_not_before == other.reauth_not_before
    }

    /// Whether all sources of the two are the same.
    pub open spec fn same_sources(&self, other: &Self) -> bool {
        &&& self.gateway == other.gateway
        &&& self.signal == other.signal
        &&& self.sim == other.sim
        &&& self.clients == other.clients
        &&& self.wifi == other.wifi
    }

    /// Whether all sources of the two but `kind` are the same.
    pub open spec fn same_sources_but(&self, other: &Self, kind: DataSourceKind) -> bool {
        &&& kind == DataSourceKind::Gateway || self.gateway == other.gateway
        &&& kind == DataSourceKind::Signal || self.signal == other.signal
        &&& kind == DataSourceKind::Sim || self.sim == other.sim
        &&& kind == DataSourceKind::Clients || self.clients == other.clients
        &&& kind == DataSourceKind::Wifi || self.wifi == other.wifi
    }

    /// The poll interval of a source.
    pub open spec fn interval_of(&self, kind: DataSourceKind) -> Option<Duration> {
        match kind {
            DataSourceKind::Gateway => self.gateway.poll_interval,
            DataSourceKind::Signal => self.signal.poll_interval,
            DataSourceKind::Sim => self.sim.poll_interval,
            DataSourceKind::Clients => self.clients.poll_interval,
            DataSourceKind::Wifi => self.wifi.poll_interval,
        }
    }

    /// The next poll of a source.
    pub open spec fn next_poll_of(&self, kind: DataSourceKind) -> Instant {
        match kind {
            DataSourceKind::Gateway => self.gateway.next_poll,
            DataSourceKind::Signal => self.signal.next_poll,
            DataSourceKind::Sim => self.sim.next_poll,
            DataSourceKind::Clients => self.clients.next_poll,
            DataSourceKind::Wifi => self.wifi.next_poll,
        }
    }

    /// The generation of a source.
    pub open spec fn generation_of(&self, kind: DataSourceKind) -> u64 {
        match kind {
            DataSourceKind::Gateway => self.gateway.generation,
            DataSourceKind::Signal => self.signal.generation,
            DataSourceKind::Sim => self.sim.generation,
            DataSourceKind::Clients => self.clients.generation,
            DataSourceKind::Wifi => self.wifi.generation,
        }
    }

    /// Whether a source is to be polled at `now`: nothing is while logged out.
    pub open spec fn is_due(&self, kind: DataSourceKind, now: Instant) -> bool {
        &&& self.snapshot.logged_in
        &&& self.interval_of(kind) is Some
        &&& now.nanos >= self.next_poll_of(kind).nanos
    }

    /// The sources that are to be polled at `now`, in their order.
    pub open spec fn due_at(&self, now: Instant) -> Seq<DataSourceKind> {
        all_sources().filter(|kind: DataSourceKind| self.is_due(kind, now))
    }

    /// Whether this is the state of a program that has just started.
    pub open spec fn is_fresh(&self, settings: Settings, now: Instant) -> bool {
        &&& self.settings == settings
        &&& self.client.settings == settings
        &&& self.client.token is None
        &&& self.snapshot@ == snapshot::blank_view(settings.gateway_ip@, settings.username@)
        &&& self.gateway_info is None
        &&& self.gateway_time is None
        &&& self.cached_password == settings.password
        &&& self.reauth_not_before is None
        &&& forall|kind: DataSourceKind|
            {
                &&& #[trigger] self.interval_of(kind) == default_interval(kind)
                &&& self.generation_of(kind) == 0
                &&& self.next_poll_of(kind).nanos == now.nanos + match default_interval(kind) {
                    Some(span) => span.nanos as int,
                    None => 0,
                }
            }
        &&& self.gateway.cached is None
        &&& self.signal.cached is None
        &&& self.sim.cached is None
        &&& self.clients.cached is None
        &&& self.wifi.cached is None
        &&& self.gateway.kind == DataSourceKind::Gateway
        &&& self.signal.kind == DataSourceKind::Signal
        &&& self.sim.kind == DataSourceKind::Sim
        &&& self.clients.kind == DataSourceKind::Clients
        &&& self.wifi.kind == DataSourceKind::Wifi
    }

    /// The state of a program that has just started.
    pub fn new(settings: Settings, now: Instant) -> (state: Self)
        requires
            now.has_room(),
        ensures
            state.is_fresh(settings, now),
    {
        let client = GatewayClient::new(settings.clone());
        let cached_password = settings.password.clone();
        let snapshot = Snapshot::blank(settings.gateway_ip.clone(), settings.username.clone());
        let mut state = AppState {
            settings,
            client,
            snapshot,
            gateway_info: None,
            gateway_time: None,
            cached_password,
            reauth_not_before: None,
            gateway: DataSource::new(DataSourceKind::Gateway, now),
            signal: DataSource::new(DataSourceKind::Signal, now),
            sim: DataSource::new(DataSourceKind::Sim, now),
            clients: DataSource::new(DataSourceKind::Clients, now),
            wifi: DataSource::new(DataSourceKind::Wifi, now),
        };
        state.set_default_polling(now);
        state
    }

    /// Sets every source to its default poll interval.
    pub fn set_default_polling(&mut self, now: Instant)
        requires
            now.has_room(),
        ensures
            final(self).same_session(old(self)),
            final(self).snapshot == old(self).snapshot,
            final(self).gateway.interval_set(
                &old(self).gateway,
                default_interval(DataSourceKind::Gateway),
                now,
            ),
            final(self).signal.interval_set(
                &old(self).signal,
                default_interval(DataSourceKind::Signal),
                now,
            ),
            final(self).sim.interval_set(
                &old(self).sim,
                default_interval(DataSourceKind::Sim),
                now,
            ),
            final(self).clients.interval_set(
                &old(self).clients,
                default_interval(DataSourceKind::Clients),
                now,
            ),
            final(self).wifi.interval_set(
                &old(self).wifi,
                default_interval(DataSourceKind::Wifi),
                now,
            ),
    {
        self.signal.set_poll_interval(Some(Duration::from_secs(5)), now);
        self.gateway.set_poll_interval(Some(Duration::from_secs(300)), now);
        self.sim.set_poll_interval(None, now);
        self.clients.set_poll_interval(Some(Duration::from_secs(300)), now);
        self.wifi.set_poll_interval(Some(Duration::from_secs(600)), now);
    }

    /// What setting the poll interval of one source at `now` makes of `before`.
    pub open spec fn source_interval_set(
        &self,
        before: &Self,
        source: DataSourceKind,
        interval: Option<Duration>,
        now: Instant,
    ) -> bool {
        &&& self.same_session(before)
        &&& self.snapshot == before.snapshot
        &&& self.same_sources_but(before, source)
        &&& match source {
            DataSourceKind::Gateway => self.gateway.interval_set(&before.gateway, interval, now),
            DataSourceKind::Signal => self.signal.interval_set(&before.signal, interval, now),
            DataSourceKind::Sim => self.sim.interval_set(&before.sim, interval, now),
            DataSourceKind::Clients => self.clients.interval_set(&before.clients, interval, now),
            DataSourceKind::Wifi => self.wifi.interval_set(&before.wifi, interval, now),
        }
    }

    /// Sets how often a source is polled.
    pub fn set_poll_interval(
        &mut self,
        source: DataSourceKind,
        interval: Option<Duration>,
        now: Instant,
    )
        requires
            old(self).interval_of(source) == interval || now.nanos
                + crate::source::first_delay(interval) <= u128::MAX,
        ensures
            final(self).source_interval_set(old(self), source, interval, now),
    {
        match source {
            DataSourceKind::Gateway => self.gateway.set_poll_interval(interval, now),
            DataSourceKind::Signal => self.signal.set_poll_interval(interval, now),
            DataSourceKind::Sim => self.sim.set_poll_interval(interval, now),
            DataSourceKind::Clients => self.clients.set_poll_interval(interval, now),
            DataSourceKind::Wifi => self.wifi.set_poll_interval(interval, now),
        }
    }

    /// Whether the schedule of a source has a next deadline after `now`.
    pub open spec fn can_advance(&self, source: DataSourceKind, now: Instant) -> bool {
        match source {
            DataSourceKind::Gateway => self.gateway.can_advance(now),
            DataSourceKind::Signal => self.signal.can_advance(now),
            DataSourceKind::Sim => self.sim.can_advance(now),
            DataSourceKind::Clients => self.clients.can_advance(now),
            DataSourceKind::Wifi => self.wifi.can_advance(now),
        }
    }

    /// What a poll of a source that is tried at `now` makes of `before`.
    pub open spec fn attempt_noted(
        &self,
        before: &Self,
        source: DataSourceKind,
        now: Instant,
    ) -> bool {
        &&& self.same_session(before)
        &&& self.snapshot == before.snapshot
        &&& self.same_sources_but(before, source)
        &&& match source {
            DataSourceKind::Gateway => self.gateway.attempt_recorded(&before.gateway, now),
            DataSourceKind::Signal => self.signal.attempt_recorded(&before.signal, now),
            DataSourceKind::Sim => self.sim.attempt_recorded(&before.sim, now),
            DataSourceKind::Clients => self.clients.attempt_recorded(&before.clients, now),
            DataSourceKind::Wifi => self.wifi.attempt_recorded(&before.wifi, now),
        }
    }

    /// Notes that a poll of a source is tried at `now`.
    pub fn mark_poll_attempt(&mut self, source: DataSourceKind, now: Instant)
        requires
            old(self).can_advance(source, now),
        ensures
            final(self).attempt_noted(old(self), source, now),
            !final(self).is_due(source, now),
    {
        match source {
            DataSourceKind::Gateway => self.gateway.record_poll_attempt(now),
            DataSourceKind::Signal => self.signal.record_poll_attempt(now),
            DataSourceKind::Sim => self.sim.record_poll_attempt(now),
            DataSourceKind::Clients => self.clients.record_poll_attempt(now),
            DataSourceKind::Wifi => self.wifi.record_poll_attempt(now),
        }
        proof {
            match source {
                DataSourceKind::Gateway => crate::source::polled_source_is_not_due(
                    old(self).gateway,
                    self.gateway,
                    now,
                ),
                DataSourceKind::Signal => crate::source::polled_source_is_not_due(
                    old(self).signal,
                    self.signal,
                    now,
                ),
                DataSourceKind::Sim => crate::source::polled_source_is_not_due(
                    old(self).sim,
                    self.sim,
                    now,
                ),
                DataSourceKind::Clients => crate::source::polled_source_is_not_due(
                    old(self).clients,
                    self.clients,
                    now,
                ),
                DataSourceKind::Wifi => crate::source::polled_source_is_not_due(
                    old(self).wifi,
                    self.wifi,
                    now,
                ),
            }
        }
    }

    /// Whether all schedules can be started afresh at `now`.
    pub open spec fn can_reset(&self, now: Instant) -> bool {
        &&& self.gateway.can_reset(now)
        &&& self.signal.can_reset(now)
        &&& self.sim.can_reset(now)
        &&& self.clients.can_reset(now)
        &&& self.wifi.can_reset(now)
    }

    /// What starting all schedules afresh at `now` makes of `before`.
    pub open spec fn deadlines_reset(&self, before: &Self, now: Instant) -> bool {
        &&& self.gateway.deadline_reset(&before.gateway, now)
        &&& self.signal.deadline_reset(&before.signal, now)
        &&& self.sim.deadline_reset(&before.sim, now)
        &&& self.clients.deadline_reset(&before.clients, now)
        &&& self.wifi.deadline_reset(&before.wifi, now)
    }

    /// Starts all schedules afresh.
    pub fn reset_poll_deadlines(&mut self, now: Instant)
        requires
            old(self).can_reset(now),
        ensures
            final(self).same_session(old(self)),
            final(self).snapshot == old(self).snapshot,
            final(self).deadlines_reset(old(self), now),
    {
        self.gateway.reset_poll_deadline(now);
        self.signal.reset_poll_deadline(now);
        self.sim.reset_poll_deadline(now);
        self.clients.reset_poll_deadline(now);
        self.wifi.reset_poll_deadline(now);
    }

    /// The schedules of all sources.
    pub fn sources(&self) -> (list: Vec<(DataSourceKind, Option<Duration>, Instant)>)
        ensures
            list@ == all_sources().map_values(
                |kind: DataSourceKind| (kind, self.interval_of(kind), self.next_poll_of(kind)),
            ),
    {
        let list: Vec<(DataSourceKind, Option<Duration>, Instant)> = vec![
            (DataSourceKind::Gateway, self.gateway.poll_interval, self.gateway.next_poll),
            (DataSourceKind::Signal, self.signal.poll_interval, self.signal.next_poll),
            (DataSourceKind::Sim, self.sim.poll_interval, self.sim.next_poll),
            (DataSourceKind::Clients, self.clients.poll_interval, self.clients.next_poll),
            (DataSourceKind::Wifi, self.wifi.poll_interval, self.wifi.next_poll),
        ];
        assert(list@ =~= all_sources().map_values(
            |kind: DataSourceKind| (kind, self.interval_of(kind), self.next_poll_of(kind)),
        ));
        list
    }

    /// The sources that are to be polled at `now`.
    pub fn due_sources(&self, now: Instant) -> (due: Vec<DataSourceKind>)
        ensures
            due@ == self.due_at(now),
    {
        let list: Vec<(DataSourceKind, Option<Duration>, Instant)> = self.sources();
        let mut due: Vec<DataSourceKind> = Vec::new();
        let mut at: usize = 0;
        let ghost wanted = |kind: DataSourceKind| self.is_due(kind, now);
        assert(all_sources().take(0) =~= Seq::empty());
        reveal(Seq::filter);
        while at < list.len()
            invariant
                at <= list.len(),
                list@ == all_sources().map_values(
                    |kind: DataSourceKind| (kind, self.interval_of(kind), self.next_poll_of(kind)),
                ),
                wanted == (|kind: DataSourceKind| self.is_due(kind, now)),
                due@ == all_sources().take(at as int).filter(wanted),
            decreases list.len() - at,
        {
            reveal(Seq::filter);
            let (kind, interval, next_poll) = list[at];
            assert(kind == all_sources()[at as int]);
            assert(all_sources().take(at + 1).drop_last() =~= all_sources().take(at as int));
            if interval.is_some() && now.nanos >= next_poll.nanos && self.snapshot.logged_in {
                due.push(kind);
            }
            at = at + 1;
        }
        assert(all_sources().take(at as int) =~= all_sources());
        due
    }

    /// The generation of a source.
    pub fn generation(&self, source: DataSourceKind) -> (generation: u64)
        ensures
            generation == self.generation_of(source),
    {
        match source {
            DataSourceKind::Gateway => self.gateway.generation,
            DataSourceKind::Signal => self.signal.generation,
            DataSourceKind::Sim => self.sim.generation,
            DataSourceKind::Clients => self.clients.generation,
            DataSourceKind::Wifi => self.wifi.generation,
        }
    }

    /// The reading that a source holds.
    pub open spec fn cached_view(&self, kind: DataSourceKind) -> Option<DataPayloadView> {
        match kind {
            DataSourceKind::Gateway => match self.gateway.cached {
                Some(payload) => Some(DataPayloadView::Gateway(payload@)),
                None => None,
            },
            DataSourceKind::Signal => match self.signal.cached {
                Some(payload) => Some(DataPayloadView::Signal(payload@)),
                None => None,
            },
            DataSourceKind::Sim => match self.sim.cached {
                Some(rows) => Some(DataPayloadView::Sim(snapshot::row_views(rows@))),
                None => None,
            },
            DataSourceKind::Clients => match self.clients.cached {
                Some(rows) => Some(DataPayloadView::Clients(snapshot::client_views(rows@))),
                None => None,
            },
            DataSourceKind::Wifi => match self.wifi.cached {
                Some(wifi) => Some(DataPayloadView::Wifi(wifi@)),
                None => None,
            },
        }
    }

    /// Whether a source can take over a reading at `now`.
    pub open spec fn can_renew(&self, kind: DataSourceKind, now: Instant) -> bool {
        match kind {
            DataSourceKind::Gateway => self.gateway.can_renew(now),
            DataSourceKind::Signal => self.signal.can_renew(now),
            DataSourceKind::Sim => self.sim.can_renew(now),
            DataSourceKind::Clients => self.clients.can_renew(now),
            DataSourceKind::Wifi => self.wifi.can_renew(now),
        }
    }

    /// Whether a source has moved on from `before` by one reading at `now`.
    pub open spec fn source_moved_on(
        &self,
        before: &Self,
        kind: DataSourceKind,
        now: Instant,
    ) -> bool {
        match kind {
            DataSourceKind::Gateway => self.gateway.moved_on(&before.gateway, now),
            DataSourceKind::Signal => self.signal.moved_on(&before.signal, now),
            DataSourceKind::Sim => self.sim.moved_on(&before.sim, now),
            DataSourceKind::Clients => self.clients.moved_on(&before.clients, now),
            DataSourceKind::Wifi => self.wifi.moved_on(&before.wifi, now),
        }
    }

    /// What taking over `report` at `now` makes of `before`. Nothing but the
    /// report's own section of the snapshot, its source and, for a report on the
    /// gateway, the gateway's clock changes.
    pub open spec fn report_taken(
        &self,
        before: &Self,
        report: Report,
        asked_at: Instant,
        now: Instant,
    ) -> bool {
        &&& self.settings == before.settings
        &&& self.client == before.client
        &&& self.cached_password == before.cached_password
        &&& self.reauth_not_before == before.reauth_not_before
        &&& self.gateway_info == match report {
            Report::Gateway(info) => Some(info),
            _ => before.gateway_info,
        }
        &&& self.gateway_time == match report {
            Report::Gateway(info) => time_part(info, asked_at),
            _ => before.gateway_time,
        }
        &&& self.snapshot@ == events::with_reading(before.snapshot@, reading_of(report, asked_at))
        &&& self.same_sources_but(before, events::report_kind(report))
        &&& self.source_moved_on(before, events::report_kind(report), now)
        &&& self.cached_view(events::report_kind(report)) == Some(reading_of(report, asked_at))
    }

    /// Takes over a report on the gateway that was asked for at `asked_at`.
    pub fn refresh_gateway(&mut self, info: GatewayInfo, asked_at: Instant, now: Instant) -> (taken:
        (u64, DataPayload))
        requires
            old(self).can_renew(DataSourceKind::Gateway, now),
        ensures
            final(self).report_taken(old(self), Report::Gateway(info), asked_at, now),
            taken.0 == final(self).gateway.generation,
            taken.1@ == reading_of(Report::Gateway(info), asked_at),
    {
        let (time, device_summary, general_summary) = read_gateway_info(&info, asked_at);
        let payload = GatewayPayload { device_summary, general_summary };
        self.gateway_time = time;
        self.gateway_info = Some(info);
        let update = self.gateway.update(payload, now);
        let payload = DataPayload::Gateway(update.value);
        show_reading(&mut self.snapshot, &payload);
        (update.generation, payload)
    }

    /// Takes over a report on the radios.
    pub fn refresh_signal(&mut self, cell: CellRoot, now: Instant) -> (taken: (u64, DataPayload))
        requires
            old(self).can_renew(DataSourceKind::Signal, now),
        ensures
            final(self).report_taken(old(self), Report::Signal(cell), now, now),
            taken.0 == final(self).signal.generation,
            taken.1@ == reading_of(Report::Signal(cell), now),
    {
        let update = self.signal.update(signal_payload_from_cell(Some(&cell)), now);
        let payload = DataPayload::Signal(update.value);
        show_reading(&mut self.snapshot, &payload);
        (update.generation, payload)
    }

    /// Takes over a report on the SIM.
    pub fn refresh_sim(&mut self, sim: SimRoot, now: Instant) -> (taken: (u64, DataPayload))
        requires
            old(self).can_renew(DataSourceKind::Sim, now),
        ensures
            final(self).report_taken(old(self), Report::Sim(sim), now, now),
            taken.0 == final(self).sim.generation,
            taken.1@ == reading_of(Report::Sim(sim), now),
    {
        let rows: Vec<Row> = sim_rows(sim.sim.as_ref());
        let ghost read = rows@;
        let update = self.sim.update(rows, now);
        assert(self.sim.cached->0@ =~= read);
        let payload = DataPayload::Sim(update.value);
        show_reading(&mut self.snapshot, &payload);
        (update.generation, payload)
    }

    /// Takes over a report on the clients.
    pub fn refresh_clients(&mut self, clients: ClientRoot, now: Instant) -> (taken: (
        u64,
        DataPayload,
    ))
        requires
            old(self).can_renew(DataSourceKind::Clients, now),
        ensures
            final(self).report_taken(old(self), Report::Clients(clients), now, now),
            taken.0 == final(self).clients.generation,
            taken.1@ == reading_of(Report::Clients(clients), now),
    {
        let rows: Vec<ClientRow> = client_rows(clients.clients.as_ref());
        let ghost read = rows@;
        let update = self.clients.update(rows, now);
        assert(self.clients.cached->0@ =~= read);
        let payload = DataPayload::Clients(update.value);
        show_reading(&mut self.snapshot, &payload);
        (update.generation, payload)
    }

    /// Takes over a Wi-Fi configuration that the gateway reported.
    pub fn refresh_wifi(&mut self, wifi: WifiConfig, now: Instant) -> (taken: (u64, DataPayload))
        requires
            old(self).can_renew(DataSourceKind::Wifi, now),
        ensures
            final(self).report_taken(old(self), Report::Wifi(wifi), now, now),
            taken.0 == final(self).wifi.generation,
            taken.1@ == reading_of(Report::Wifi(wifi), now),
    {
        let update = self.wifi.update(wifi, now);
        let payload = DataPayload::Wifi(Box::new(update.value));
        show_reading(&mut self.snapshot, &payload);
        (update.generation, payload)
    }

    /// Takes over a Wi-Fi configuration that the gateway has accepted.
    pub fn set_wifi_config(&mut self, wifi: WifiConfig, now: Instant) -> (taken: (
        u64,
        DataPayload,
    ))
        requires
            old(self).can_renew(DataSourceKind::Wifi, now),
        ensures
            final(self).report_taken(old(self), Report::Wifi(wifi), now, now),
            taken.0 == final(self).wifi.generation,
            taken.1@ == reading_of(Report::Wifi(wifi), now),
    {
        self.refresh_wifi(wifi, now)
    }

    /// Takes over a report that was asked for at `asked_at`.
    pub fn refresh_source(&mut self, report: Report, asked_at: Instant, now: Instant) -> (taken: (
        u64,
        DataPayload,
    ))
        requires
            old(self).can_renew(events::report_kind(report), now),
        ensures
            final(self).report_taken(old(self), report, asked_at, now),
            taken.0 == final(self).generation_of(events::report_kind(report)),
            taken.1@ == reading_of(report, asked_at),
    {
        match report {
            Report::Gateway(info) => self.refresh_gateway(info, asked_at, now),
            Report::Signal(cell) => self.refresh_signal(cell, now),
            Report::Sim(sim) => self.refresh_sim(sim, now),
            Report::Clients(clients) => self.refresh_clients(clients, now),
            Report::Wifi(wifi) => self.refresh_wifi(wifi, now),
        }
    }

    /// What an accepted request to reboot makes of `before`.
    pub open spec fn rebooted_from(&self, before: &Self) -> bool {
        &&& self.same_session(before)
        &&& self.same_sources(before)
        &&& self.snapshot@ == (SnapshotView { error: None, ..before.snapshot@ })
    }

    /// Notes that the gateway has accepted a request to reboot.
    pub fn reboot(&mut self)
        ensures
            final(self).rebooted_from(old(self)),
    {
        self.snapshot.error = None;
    }

    /// Shows what was read right after a login.
    pub fn apply_bootstrap(&mut self, bootstrap: BootstrapData, now: Instant)
        ensures
            final(self).settings == old(self).settings,
            final(self).client == old(self).client,
            final(self).cached_password == old(self).cached_password,
            final(self).reauth_not_before == old(self).reauth_not_before,
            final(self).same_sources(old(self)),
            final(self).gateway_info == Some(bootstrap.gateway),
            final(self).gateway_time == time_part(bootstrap.gateway, now),
            final(self).snapshot@ == bootstrapped(old(self).settings, bootstrap, now),
    {
        let (time, device_summary, general_summary) = read_gateway_info(&bootstrap.gateway, now);
        let signal: SignalPayload = signal_payload_from_cell(bootstrap.cell.as_ref());
        let sim: Option<&SimData> = match &bootstrap.sim {
            Some(root) => root.sim.as_ref(),
            None => None,
        };
        let clients: Option<&ClientBands> = match &bootstrap.clients {
            Some(root) => root.clients.as_ref(),
            None => None,
        };
        self.snapshot =
        Snapshot {
            logged_in: true,
            token_present: true,
            gateway_ip: self.settings.gateway_ip.clone(),
            username: self.settings.username.clone(),
            device_summary,
            lte_summary: signal.lte_summary,
            five_g_summary: signal.five_g_summary,
            lte_metrics: signal.lte_metrics,
            five_g_metrics: signal.five_g_metrics,
            general_summary,
            sim_summary: sim_rows(sim),
            clients: client_rows(clients),
            wifi: bootstrap.wifi,
            error: None,
        };
        self.gateway_time = time;
        self.gateway_info = Some(bootstrap.gateway);
    }

    /// What beginning a login makes of `before`.
    pub open spec fn login_begun(
        &self,
        before: &Self,
        gateway_ip: String,
        username: String,
        password: String,
    ) -> bool {
        &&& self.settings == (Settings { gateway_ip, username, ..before.settings })
        &&& self.client.settings == self.settings
        &&& self.client.token is None
        &&& self.cached_password == Some(password)
        &&& self.reauth_not_before is None
        &&& self.gateway_info == before.gateway_info
        &&& self.gateway_time == before.gateway_time
        &&& self.snapshot == before.snapshot
        &&& self.same_sources(before)
    }

    /// Begins a login: what was typed replaces what was known, the gateway is
    /// forgotten, and the login request is to be sent with the name and the
    /// password.
    pub fn login(
        &mut self,
        gateway_ip: String,
        username: String,
        password: String,
    ) -> (request: HttpRequest)
        ensures
            final(self).login_begun(old(self), gateway_ip, username, password),
            request@ == final(self).client.login_request(),
    {
        self.settings.gateway_ip = gateway_ip;
        self.settings.username = username;
        self.cached_password = Some(password);
        self.reauth_not_before = None;
        self.client = GatewayClient::new(self.settings.clone());
        self.client.login()
    }

    /// Whether the two differ at most in the client's token.
    pub open spec fn same_but_token(&self, other: &Self) -> bool {
        &&& self.settings == other.settings
        &&& self.client.settings == other.client.settings
        &&& self.gateway_info == other.gateway_info
        &&& self.gateway_time == other.gateway_time
        &&& self.cached_password == other.cached_password
        &&& self.reauth_not_before == other.reauth_not_before
        &&& self.snapshot == other.snapshot
        &&& self.same_sources(other)
    }

    /// Goes on with a login once the gateway has answered the login request. The
    /// login stands if the answer brought a token.
    pub fn login_answered(&mut self, reply: Result<AuthResponse, GatewayError>) -> (outcome: Result<
        (),
        String,
    >)
        ensures
            final(self).same_but_token(old(self)),
            final(self).client.token == gateway::token_after(reply, old(self).client.token),
            match gateway::login_failure(reply) {
                None => outcome is Ok,
                Some(text) => outcome matches Err(error) && error@ == text,
            },
    {
        let accepted: Result<(), GatewayError> = match reply {
            Ok(response) => self.client.accept_login(response),
            Err(error) => Err(error),
        };
        match accepted {
            Ok(()) => Ok(()),
            Err(error) => Err(error.to_string()),
        }
    }

    /// What the first reports after a login make of `before`.
    pub open spec fn login_shown(
        &self,
        before: &Self,
        bootstrap: BootstrapData,
        password: String,
        remember: bool,
        now: Instant,
    ) -> bool {
        &&& self.settings == if remember {
            Settings { password: Some(password), ..before.settings }
        } else {
            before.settings
        }
        &&& self.client == before.client
        &&& self.cached_password == before.cached_password
        &&& self.reauth_not_before == before.reauth_not_before
        &&& self.gateway_info == Some(bootstrap.gateway)
        &&& self.gateway_time == time_part(bootstrap.gateway, now)
        &&& self.snapshot@ == bootstrapped(before.settings, bootstrap, now)
        &&& self.deadlines_reset(before, now)
    }

    /// Finishes a login once the first reports are there: shows them, starts all
    /// schedules afresh and, if it is to be remembered, keeps the password in the
    /// settings. Tells whether the settings are to be saved. Without a report on
    /// the gateway the login fails and nothing changes.
    pub fn login_bootstrapped(
        &mut self,
        reply: Result<BootstrapData, GatewayError>,
        password: String,
        remember: bool,
        now: Instant,
    ) -> (outcome: Result<bool, String>)
        requires
            old(self).can_reset(now),
        ensures
            reply matches Err(error) ==> {
                &&& *final(self) == *old(self)
                &&& outcome matches Err(text) && text@ == gateway::error_text(error)
            },
            reply matches Ok(bootstrap) ==> {
                &&& outcome == Ok::<bool, String>(remember)
                &&& final(self).login_shown(old(self), bootstrap, password, remember, now)
            },
    {
        match reply {
            Err(error) => Err(error.to_string()),
            Ok(bootstrap) => {
                self.apply_bootstrap(bootstrap, now);
                self.reset_poll_deadlines(now);
                if remember {
                    self.settings.password = Some(password);
                }
                Ok(remember)
            },
        }
    }

    /// Whether `initial` is what there is to show after a login, with a warning if
    /// the settings could not be saved.
    pub open spec fn is_initial_data(
        &self,
        initial: InitialData,
        save_error: Option<Seq<char>>,
    ) -> bool {
        &&& initial.settings == self.settings
        &&& initial.snapshot@ == self.snapshot@
        &&& snapshot::text_of(initial.warning) == match save_error {
            Some(error) => Some("Logged in, but credentials were not saved: "@ + error),
            None => None,
        }
    }

    /// What there is to show after a login, with a warning if the settings could
    /// not be saved.
    pub fn initial_data(&self, save_error: Option<String>) -> (initial: InitialData)
        ensures
            self.is_initial_data(initial, snapshot::text_of(save_error)),
    {
        let warning: Option<String> = match save_error {
            Some(error) => Some(
                concat2("Logged in, but credentials were not saved: ", error.as_str()),
            ),
            None => None,
        };
        InitialData { settings: self.settings.clone(), snapshot: self.snapshot.clone(), warning }
    }

    /// Whether the state is that of nobody: no token, no password to log in
    /// again with, and nothing is polled.
    pub open spec fn is_logged_out(&self) -> bool {
        &&& self.client.token is None
        &&& self.cached_password is None
        &&& !self.snapshot.logged_in
        &&& !self.snapshot.token_present
    }

    /// What forgetting the login makes of `before`.
    pub open spec fn logged_out_from(&self, before: &Self) -> bool {
        &&& self.is_logged_out()
        &&& self.settings == before.settings
        &&& self.client.settings == before.client.settings
        &&& self.gateway_info is None
        &&& self.gateway_time is None
        &&& self.reauth_not_before is None
        &&& self.snapshot@ == (SnapshotView {
            logged_in: false,
            token_present: false,
            ..before.snapshot@
        })
        &&& self.same_sources(before)
    }

    /// Forgets the login. What was shown stays in the snapshot.
    pub fn logout(&mut self)
        ensures
            final(self).logged_out_from(old(self)),
    {
        self.client.clear_auth();
        self.gateway_info = None;
        self.gateway_time = None;
        self.cached_password = None;
        self.reauth_not_before = None;
        self.snapshot.logged_in = false;
        self.snapshot.token_present = false;
    }

    /// The request that reads a source, with the token of the moment.
    pub open spec fn refresh_request_of(&self, source: DataSourceKind) -> HttpRequestView {
        self.client.read_request(source_endpoint(source))
    }

    /// The request that reads a source, with the token of the moment.
    pub fn refresh_request(&self, source: DataSourceKind) -> (request: HttpRequest)
        ensures
            request@ == self.refresh_request_of(source),
    {
        match source {
            DataSourceKind::Gateway => self.client.gateway_info(),
            DataSourceKind::Signal => self.client.cell_telemetry(),
            DataSourceKind::Sim => self.client.sim_telemetry(),
            DataSourceKind::Clients => self.client.clients_telemetry(),
            DataSourceKind::Wifi => self.client.wifi_config(),
        }
    }
}

/// What changes something on the gateway.
#[derive(Debug, Clone, Copy, PartialEq, Eq, Structural)]
pub enum GatewayCommand {
    SaveWifi,
    Reboot,
}

/// Where the gateway takes a command.
pub open spec fn command_endpoint(command: GatewayCommand) -> Seq<char> {
    match command {
        GatewayCommand::SaveWifi => "network/configuration/v2?set=ap"@,
        GatewayCommand::Reboot => "gateway/reset?set=reboot"@,
    }
}

/// What a command is called in messages.
pub open spec fn command_name(command: GatewayCommand) -> Seq<char> {
    match command {
        GatewayCommand::SaveWifi => "Wi-Fi save"@,
        GatewayCommand::Reboot => "Gateway reboot"@,
    }
}

impl AppState {
    /// The request that sends a command, with the token of the moment.
    pub open spec fn command_request_of(&self, command: GatewayCommand) -> HttpRequestView {
        self.client.write_request(command_endpoint(command))
    }

    /// What a command is called in messages, and the request that sends it, with
    /// the token of the moment. The body of a save is the configuration; a reboot
    /// has none.
    pub fn command_request(&self, command: GatewayCommand) -> (named: (String, HttpRequest))
        ensures
            named.0@ == command_name(command),
            named.1@ == self.command_request_of(command),
    {
        match command {
            GatewayCommand::SaveWifi => ("Wi-Fi save".to_owned(), self.client.set_wifi_config()),
            GatewayCommand::Reboot => ("Gateway reboot".to_owned(), self.client.reboot()),
        }
    }
}

/// Where the gateway reports on a source.
pub open spec fn source_endpoint(source: DataSourceKind) -> Seq<char> {
    match source {
        DataSourceKind::Gateway => "gateway/?get=all"@,
        DataSourceKind::Signal => "network/telemetry/?get=cell"@,
        DataSourceKind::Sim => "network/telemetry/?get=sim"@,
        DataSourceKind::Clients => "network/telemetry/?get=clients"@,
        DataSourceKind::Wifi => "network/configuration/v2?get=ap"@,
    }
}

/// What refreshing a source is called in messages.
pub open spec fn refresh_name(source: DataSourceKind) -> Seq<char> {
    match source {
        DataSourceKind::Gateway => "Gateway refresh"@,
        DataSourceKind::Signal => "Signal refresh"@,
        DataSourceKind::Sim => "SIM refresh"@,
        DataSourceKind::Clients => "Clients refresh"@,
        DataSourceKind::Wifi => "Wi-Fi refresh"@,
    }
}

/// What refreshing a source is called in messages.
pub fn refresh_label(source: DataSourceKind) -> (label: String)
    ensures
        label@ == refresh_name(source),
{
    match source {
        DataSourceKind::Gateway => "Gateway refresh".to_owned(),
        DataSourceKind::Signal => "Signal refresh".to_owned(),
        DataSourceKind::Sim => "SIM refresh".to_owned(),
        DataSourceKind::Clients => "Clients refresh".to_owned(),
        DataSourceKind::Wifi => "Wi-Fi refresh".to_owned(),
    }
}

/// Logging out stops all polling, whatever was due.
pub proof fn nothing_is_polled_while_logged_out(state: AppState, kind: DataSourceKind, now: Instant)
    requires
        state.is_logged_out(),
    ensures
        !state.is_due(kind, now),
{
}

/// Right after all schedules were started afresh, as a login does, nothing is
/// due: each source waits for one whole interval.
pub proof fn nothing_is_due_right_after_a_login(
    before: AppState,
    after: AppState,
    kind: DataSourceKind,
    now: Instant,
)
    requires
        after.deadlines_reset(&before, now),
        before.interval_of(kind) matches Some(span) ==> span.nanos > 0,
    ensures
        !after.is_due(kind, now),
{
}

/// A report changes only its own section of what is shown: the sections of all
/// other sources stay as they were.
pub proof fn a_report_leaves_other_sections_alone(
    before: AppState,
    after: AppState,
    report: Report,
    asked_at: Instant,
    now: Instant,
)
    requires
        after.report_taken(&before, report, asked_at, now),
    ensures
        !(report is Gateway) ==> {
            &&& after.snapshot@.device_summary == before.snapshot@.device_summary
            &&& after.snapshot@.general_summary == before.snapshot@.general_summary
        },
        !(report is Signal) ==> {
            &&& after.snapshot@.lte_summary == before.snapshot@.lte_summary
            &&& after.snapshot@.five_g_summary == before.snapshot@.five_g_summary
            &&& after.snapshot@.lte_metrics == before.snapshot@.lte_metrics
            &&& after.snapshot@.five_g_metrics == before.snapshot@.five_g_metrics
        },
        !(report is Sim) ==> after.snapshot@.sim_summary == before.snapshot@.sim_summary,
        !(report is Clients) ==> after.snapshot@.clients == before.snapshot@.clients,
        !(report is Wifi) ==> after.snapshot@.wifi == before.snapshot@.wifi,
        after.snapshot@.logged_in == before.snapshot@.logged_in,
        after.snapshot@.token_present == before.snapshot@.token_present,
{
}

} // verus!
