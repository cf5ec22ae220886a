//! What the state behind the user interface promises: where each report is shown,
//! what a login and a logout change, and what stays as it is.

use crate::app::{self, AppState};
use crate::events::{self, DataPayload, GatewayPayload, InitialData, Report, SignalPayload};
use crate::gateway::{self, BootstrapData};
use crate::json::JsonValue;
use crate::login::{LoginAction, LoginEvent, LoginPhase};
use crate::models::{CellRoot, ClientRoot, GatewayInfo, SimRoot, WifiConfig};
use crate::row_laws;
use crate::rows::{self, GatewayTimeState};
use crate::settings::{self, Settings};
use crate::snapshot::{self, ClientRow, Row, Snapshot, SnapshotView};
use crate::source::DataSourceKind;
use crate::time::Instant;
use vstd::prelude::*;
use vstd::string::*;

verus! {

/// Whether rows on the device and rows on the connection are those of a report on the
/// gateway that was asked for at `at`.
pub open spec fn shows_gateway(
    device_summary: Seq<Row>,
    general_summary: Seq<Row>,
    info: GatewayInfo,
    at: Instant,
) -> bool {
    let general = snapshot::row_views(general_summary);
    &&& info.device matches Some(device) ==> snapshot::row_views(device_summary)
        == rows::device_table(device)
    &&& info.device is None ==> device_summary.len() == 0
    &&& (info.signal is Some && info.signal->0.generic is Some) ==> {
        let generic = info.signal->0.generic->0;
        &&& row_laws::shows(general, "APN"@, row_laws::told(generic.apn))
        &&& row_laws::shows(general, "Registration"@, row_laws::told(generic.registration))
        &&& row_laws::shows(general, "IPv6"@, row_laws::told_truth(generic.has_ipv6))
        &&& row_laws::shows(general, "Roaming"@, row_laws::told_truth(generic.roaming))
    }
    &&& (info.signal is None || info.signal->0.generic is None) ==> {
        &&& row_laws::shows(general, "APN"@, None)
        &&& row_laws::shows(general, "Registration"@, None)
        &&& row_laws::shows(general, "IPv6"@, None)
        &&& row_laws::shows(general, "Roaming"@, None)
    }
    &&& (info.time is Some && info.time->0.uptime is Some) ==> row_laws::shows(
        general,
        "Uptime"@,
        Some(rows::duration_text(info.time->0.uptime->0 as int)),
    )
    &&& (info.time is None || info.time->0.uptime is None) ==> row_laws::shows(
        general,
        "Uptime"@,
        None,
    )
}

/// Whether a clock is the one of a report on the gateway that was asked for at `at`.
pub open spec fn tells_time(
    clock: Option<GatewayTimeState>,
    info: GatewayInfo,
    at: Instant,
) -> bool {
    &&& clock is Some <==> info.time is Some
    &&& clock is Some ==> {
        &&& clock->0.uptime == info.time->0.uptime
        &&& clock->0.local_time == info.time->0.local_time
        &&& clock->0.recorded_at == at
    }
}

/// Whether rows are those of one radio, of which a document may be known.
pub open spec fn shows_radio(
    summary: Seq<Row>,
    metrics: Option<snapshot::SignalMetrics>,
    document: Option<JsonValue>,
) -> bool {
    &&& document matches Some(known) ==> {
        &&& snapshot::row_views(summary) == rows::radio_table(Some(&known))
        &&& metrics == rows::signal_figures(Some(&known))
    }
    &&& document is None ==> summary.len() == 0 && metrics is None
}

/// Whether a SIM table is the one of a SIM report.
pub open spec fn shows_sim(summary: Seq<Row>, report: SimRoot) -> bool {
    &&& report.sim matches Some(sim) ==> snapshot::row_views(summary) == rows::sim_table(sim)
    &&& report.sim is None ==> summary.len() == 0
}

/// Whether a list of clients is the one of a client report.
pub open spec fn shows_client_report(clients: Seq<ClientRow>, report: ClientRoot) -> bool {
    &&& report.clients matches Some(bands) ==> snapshot::client_views(clients)
        == rows::client_table(bands)
    &&& report.clients is None ==> clients.len() == 0
}

/// Whether two Wi-Fi configurations are the same, member by member.
pub open spec fn same_wifi(one: WifiConfig, other: WifiConfig) -> bool {
    &&& one.two_gig == other.two_gig
    &&& one.five_gig == other.five_gig
    &&& one.six_gig == other.six_gig
    &&& one.band_steering == other.band_steering
    &&& one.ssids is Some <==> other.ssids is Some
    &&& one.ssids is Some ==> one.ssids->0@ == other.ssids->0@
}

/// The document of the LTE radio in a cell report.
pub open spec fn four_g_told(cell: CellRoot) -> Option<JsonValue> {
    if cell.cell is Some {
        cell.cell->0.four_g
    } else {
        None
    }
}

/// The document of the 5G radio in a cell report.
pub open spec fn five_g_told(cell: CellRoot) -> Option<JsonValue> {
    if cell.cell is Some {
        cell.cell->0.five_g
    } else {
        None
    }
}

proof fn lemma_gateway_shown(
    device_summary: Seq<Row>,
    general_summary: Seq<Row>,
    info: GatewayInfo,
    at: Instant,
)
    requires
        snapshot::row_views(device_summary) == app::optional_device_table(info),
        snapshot::row_views(general_summary) == app::general_part(info, at),
    ensures
        shows_gateway(device_summary, general_summary, info, at),
        tells_time(app::time_part(info, at), info, at),
{
    assert(device_summary.len() == snapshot::row_views(device_summary).len());
    let time = app::time_part(info, at);
    let state = match &time {
        Some(state) => Some(state),
        None => None,
    };
    row_laws::each_connection_property_has_its_row(app::generic_part(&info), state, at);
    if info.time is Some && info.time->0.uptime is Some {
        assert(rows::carried_forward(info.time->0.uptime->0, at, at) == info.time->0.uptime->0);
    }
}

proof fn lemma_radio_shown(
    summary: Seq<Row>,
    metrics: Option<snapshot::SignalMetrics>,
    document: Option<JsonValue>,
)
    requires
        document matches Some(known) ==> {
            &&& snapshot::row_views(summary) == rows::radio_table(Some(&known))
            &&& metrics == rows::signal_figures(Some(&known))
        },
        document is None ==> {
            &&& snapshot::row_views(summary) == rows::radio_table(None)
            &&& metrics == rows::signal_figures(None)
        },
    ensures
        shows_radio(summary, metrics, document),
{
    assert(summary.len() == snapshot::row_views(summary).len());
    if document is None {
        lemma_no_document("bars"@);
        lemma_no_document("bands"@);
        lemma_no_document("rsrp"@);
        lemma_no_document("rsrq"@);
        lemma_no_document("rssi"@);
        lemma_no_document("sinr"@);
        lemma_no_document("cqi"@);
        lemma_no_document("cid"@);
        lemma_no_document("bandwidth"@);
        lemma_no_document("pci"@);
        lemma_no_document("tac"@);
        assert(rows::reception_rows(None) =~= Seq::empty());
        assert(rows::figure_rows(rows::metrics_under(None)) =~= Seq::empty());
        assert(rows::cell_rows(None) =~= Seq::empty());
    }
}

proof fn lemma_no_document(key: Seq<char>)
    ensures
        crate::json::integer_under(None, key) is None,
        crate::json::rounded_under(None, key) is None,
        crate::json::text_under(None, key) is None,
        crate::json::text_list_under(None, key) is None,
{
}

/// A report is shown in its own section: a report on the gateway as the device and
/// the connection, a cell report as the radios, LTE from its LTE document and 5G from
/// its 5G document, and each of the others as its own table. Nothing has failed any
/// more, and who is logged in where stays.
pub proof fn a_report_is_shown_in_its_own_section(
    before: AppState,
    after: AppState,
    report: Report,
    asked_at: Instant,
    now: Instant,
)
    requires
        after.report_taken(&before, report, asked_at, now),
    ensures
        report matches Report::Gateway(info) ==> {
            &&& shows_gateway(
                after.snapshot.device_summary@,
                after.snapshot.general_summary@,
                info,
                asked_at,
            )
            &&& tells_time(after.gateway_time, info, asked_at)
            &&& after.gateway_info == Some(info)
        },
        report matches Report::Signal(cell) ==> {
            &&& shows_radio(
                after.snapshot.lte_summary@,
                after.snapshot.lte_metrics,
                four_g_told(cell),
            )
            &&& shows_radio(
                after.snapshot.five_g_summary@,
                after.snapshot.five_g_metrics,
                five_g_told(cell),
            )
        },
        report matches Report::Sim(sim) ==> shows_sim(after.snapshot.sim_summary@, sim),
        report matches Report::Clients(clients) ==> shows_client_report(
            after.snapshot.clients@,
            clients,
        ),
        report matches Report::Wifi(wifi) ==> {
            &&& after.snapshot.wifi is Some
            &&& same_wifi(after.snapshot.wifi->0, wifi)
        },
        after.snapshot.error is None,
        after.snapshot.logged_in == before.snapshot.logged_in,
        after.snapshot.token_present == before.snapshot.token_present,
        after.snapshot.gateway_ip@ == before.snapshot.gateway_ip@,
        after.snapshot.username@ == before.snapshot.username@,
        !(report is Gateway) ==> {
            &&& after.gateway_info == before.gateway_info
            &&& after.gateway_time == before.gateway_time
        },
{
    assert(after.snapshot@.error == snapshot::text_of(after.snapshot.error));
    match report {
        Report::Gateway(info) => {
            lemma_gateway_shown(
                after.snapshot.device_summary@,
                after.snapshot.general_summary@,
                info,
                asked_at,
            );
        },
        Report::Signal(cell) => {
            lemma_radio_shown(
                after.snapshot.lte_summary@,
                after.snapshot.lte_metrics,
                four_g_told(cell),
            );
            lemma_radio_shown(
                after.snapshot.five_g_summary@,
                after.snapshot.five_g_metrics,
                five_g_told(cell),
            );
        },
        Report::Sim(sim) => {
            assert(after.snapshot.sim_summary@.len() == after.snapshot@.sim_summary.len());
        },
        Report::Clients(clients) => {
            assert(after.snapshot.clients@.len() == after.snapshot@.clients.len());
        },
        Report::Wifi(wifi) => {
            assert(after.snapshot@.wifi == Some(wifi@));
        },
    }
}

/// A login shows what was read right after it: each report in its own section, nothing
/// in the section of a report that did not come, and the gateway and the user that the
/// settings name. The session itself changes only by the password that is to be
/// remembered, and every schedule starts afresh.
pub proof fn a_login_shows_what_was_read(
    before: AppState,
    after: AppState,
    bootstrap: BootstrapData,
    password: String,
    remember: bool,
    now: Instant,
)
    requires
        after.login_shown(&before, bootstrap, password, remember, now),
    ensures
        after.snapshot.logged_in,
        after.snapshot.token_present,
        after.snapshot.gateway_ip@ == before.settings.gateway_ip@,
        after.snapshot.username@ == before.settings.username@,
        after.snapshot.error is None,
        shows_gateway(
            after.snapshot.device_summary@,
            after.snapshot.general_summary@,
            bootstrap.gateway,
            now,
        ),
        tells_time(after.gateway_time, bootstrap.gateway, now),
        after.gateway_info == Some(bootstrap.gateway),
        ({
            let cell = bootstrap.cell;
            let four_g = if cell is Some {
                four_g_told(cell->0)
            } else {
                None
            };
            let five_g = if cell is Some {
                five_g_told(cell->0)
            } else {
                None
            };
            &&& shows_radio(after.snapshot.lte_summary@, after.snapshot.lte_metrics, four_g)
            &&& shows_radio(after.snapshot.five_g_summary@, after.snapshot.five_g_metrics, five_g)
        }),
        bootstrap.sim matches Some(sim) ==> shows_sim(after.snapshot.sim_summary@, sim),
        bootstrap.sim is None ==> after.snapshot.sim_summary@.len() == 0,
        bootstrap.clients matches Some(clients) ==> shows_client_report(
            after.snapshot.clients@,
            clients,
        ),
        bootstrap.clients is None ==> after.snapshot.clients@.len() == 0,
        after.snapshot.wifi is Some <==> bootstrap.wifi is Some,
        bootstrap.wifi is Some ==> same_wifi(after.snapshot.wifi->0, bootstrap.wifi->0),
        after.settings.gateway_ip == before.settings.gateway_ip,
        after.settings.username == before.settings.username,
        remember ==> after.settings.password == Some(password),
        !remember ==> after.settings.password == before.settings.password,
        after.client == before.client,
        after.cached_password == before.cached_password,
        after.reauth_not_before == before.reauth_not_before,
        before.gateway.poll_interval matches Some(span) ==> after.gateway.next_poll.nanos
            == now.nanos + span.nanos,
        before.signal.poll_interval matches Some(span) ==> after.signal.next_poll.nanos == now.nanos
            + span.nanos,
        before.sim.poll_interval matches Some(span) ==> after.sim.next_poll.nanos == now.nanos
            + span.nanos,
        before.clients.poll_interval matches Some(span) ==> after.clients.next_poll.nanos
            == now.nanos + span.nanos,
        before.wifi.poll_interval matches Some(span) ==> after.wifi.next_poll.nanos == now.nanos
            + span.nanos,
        forall|kind: DataSourceKind| #[trigger]
            after.generation_of(kind) == before.generation_of(kind),
        forall|kind: DataSourceKind| #[trigger]
            after.cached_view(kind) == before.cached_view(kind),
        forall|kind: DataSourceKind| #[trigger]
            after.interval_of(kind) == before.interval_of(kind),
{
    let shown = after.snapshot;
    assert(shown@.error == snapshot::text_of(shown.error));
    lemma_gateway_shown(
        shown.device_summary@,
        shown.general_summary@,
        bootstrap.gateway,
        now,
    );
    let four_g = if bootstrap.cell is Some {
        four_g_told(bootstrap.cell->0)
    } else {
        None
    };
    let five_g = if bootstrap.cell is Some {
        five_g_told(bootstrap.cell->0)
    } else {
        None
    };
    lemma_radio_shown(shown.lte_summary@, shown.lte_metrics, four_g);
    lemma_radio_shown(shown.five_g_summary@, shown.five_g_metrics, five_g);
    assert(shown.sim_summary@.len() == shown@.sim_summary.len());
    assert(shown.clients@.len() == shown@.clients.len());
    assert(shown@.wifi == snapshot::wifi_of(shown.wifi));
    if bootstrap.wifi is Some {
        assert(shown.wifi->0@ == bootstrap.wifi->0@);
    }
}

/// What a source holds is what its section shows: the reading taken over last is the
/// one that is shown.
pub proof fn what_is_cached_is_what_is_shown(
    before: AppState,
    after: AppState,
    report: Report,
    asked_at: Instant,
    now: Instant,
)
    requires
        after.report_taken(&before, report, asked_at, now),
    ensures
        report is Gateway ==> {
            &&& after.gateway.cached is Some
            &&& snapshot::row_views(after.gateway.cached->0.device_summary@)
                == snapshot::row_views(after.snapshot.device_summary@)
            &&& snapshot::row_views(after.gateway.cached->0.general_summary@)
                == snapshot::row_views(after.snapshot.general_summary@)
        },
        report is Signal ==> {
            &&& after.signal.cached is Some
            &&& snapshot::row_views(after.signal.cached->0.lte_summary@) == snapshot::row_views(
                after.snapshot.lte_summary@,
            )
            &&& snapshot::row_views(after.signal.cached->0.five_g_summary@) == snapshot::row_views(
                after.snapshot.five_g_summary@,
            )
            &&& after.signal.cached->0.lte_metrics == after.snapshot.lte_metrics
            &&& after.signal.cached->0.five_g_metrics == after.snapshot.five_g_metrics
        },
        report is Sim ==> {
            &&& after.sim.cached is Some
            &&& snapshot::row_views(after.sim.cached->0@) == snapshot::row_views(
                after.snapshot.sim_summary@,
            )
        },
        report is Clients ==> {
            &&& after.clients.cached is Some
            &&& snapshot::client_views(after.clients.cached->0@) == snapshot::client_views(
                after.snapshot.clients@,
            )
        },
        report is Wifi ==> {
            &&& after.wifi.cached is Some
            &&& after.snapshot.wifi is Some
            &&& same_wifi(after.wifi.cached->0, after.snapshot.wifi->0)
        },
{
    if report is Wifi {
        assert(after.snapshot@.wifi == Some(after.wifi.cached->0@));
    }
}

/// Beginning a login replaces the gateway and the name by what was typed and nothing
/// else of the settings, keeps the password for later, and starts without a token and
/// without a wait; what is shown and all sources stay.
pub proof fn a_login_begins_with_what_was_typed(
    before: AppState,
    after: AppState,
    gateway_ip: String,
    username: String,
    password: String,
)
    requires
        after.login_begun(&before, gateway_ip, username, password),
    ensures
        after.settings.gateway_ip == gateway_ip,
        after.settings.username == username,
        after.settings.password == before.settings.password,
        after.client.settings.gateway_ip == gateway_ip,
        after.client.settings.username == username,
        after.client.token is None,
        after.cached_password is Some,
        after.cached_password->0 == password,
        after.reauth_not_before is None,
        after.snapshot == before.snapshot,
        after.gateway == before.gateway,
        after.signal == before.signal,
        after.sim == before.sim,
        after.clients == before.clients,
        after.wifi == before.wifi,
{
}

/// A logout forgets the token, the password, the wait and what was known of the
/// gateway. The settings stay, and so does what was shown, but for the login.
pub proof fn a_logout_keeps_what_was_shown(before: AppState, after: AppState)
    requires
        after.logged_out_from(&before),
    ensures
        after.client.token is None,
        after.cached_password is None,
        after.reauth_not_before is None,
        after.gateway_info is None,
        after.gateway_time is None,
        !after.snapshot.logged_in,
        !after.snapshot.token_present,
        after.settings == before.settings,
        after.client.settings == before.client.settings,
        after.gateway == before.gateway,
        after.signal == before.signal,
        after.sim == before.sim,
        after.clients == before.clients,
        after.wifi == before.wifi,
        shows_the_same(
            after.snapshot@,
            SnapshotView {
                logged_in: after.snapshot@.logged_in,
                token_present: after.snapshot@.token_present,
                ..before.snapshot@
            },
        ),
{
}

/// Whether two snapshots show the same, section by section.
pub open spec fn shows_the_same(one: SnapshotView, other: SnapshotView) -> bool {
    &&& one.logged_in == other.logged_in
    &&& one.token_present == other.token_present
    &&& one.gateway_ip == other.gateway_ip
    &&& one.username == other.username
    &&& one.device_summary == other.device_summary
    &&& one.lte_summary == other.lte_summary
    &&& one.five_g_summary == other.five_g_summary
    &&& one.lte_metrics == other.lte_metrics
    &&& one.five_g_metrics == other.five_g_metrics
    &&& one.general_summary == other.general_summary
    &&& one.sim_summary == other.sim_summary
    &&& one.clients == other.clients
    &&& one.wifi == other.wifi
    &&& one.error == other.error
}

/// A table as a value is the table: as many rows, each with its label and its value.
pub proof fn a_table_is_shown_row_by_row(table: Seq<Row>, list: Seq<ClientRow>)
    ensures
        snapshot::row_views(table).len() == table.len(),
        forall|i: int|
            0 <= i < table.len() ==> {
                &&& (#[trigger] snapshot::row_views(table)[i]).label == table[i].label@
                &&& snapshot::row_views(table)[i].value == table[i].value@
            },
        snapshot::client_views(list).len() == list.len(),
        forall|i: int|
            0 <= i < list.len() ==> {
                &&& (#[trigger] snapshot::client_views(list)[i]).band == list[i].band@
                &&& snapshot::client_views(list)[i].name == list[i].name@
                &&& snapshot::client_views(list)[i].ip == list[i].ip@
                &&& snapshot::client_views(list)[i].mac == list[i].mac@
            },
{
}

/// A snapshot as a value is the snapshot, section by section.
pub proof fn a_snapshot_is_shown_section_by_section(shown: Snapshot)
    ensures
        shown@.logged_in == shown.logged_in,
        shown@.token_present == shown.token_present,
        shown@.gateway_ip == shown.gateway_ip@,
        shown@.username == shown.username@,
        shown@.device_summary == snapshot::row_views(shown.device_summary@),
        shown@.lte_summary == snapshot::row_views(shown.lte_summary@),
        shown@.five_g_summary == snapshot::row_views(shown.five_g_summary@),
        shown@.lte_metrics == shown.lte_metrics,
        shown@.five_g_metrics == shown.five_g_metrics,
        shown@.general_summary == snapshot::row_views(shown.general_summary@),
        shown@.sim_summary == snapshot::row_views(shown.sim_summary@),
        shown@.clients == snapshot::client_views(shown.clients@),
        shown@.wifi is Some <==> shown.wifi is Some,
        shown.wifi matches Some(wifi) ==> {
            let told = shown@.wifi->0;
            &&& told.two_gig == wifi.two_gig
            &&& told.five_gig == wifi.five_gig
            &&& told.six_gig == wifi.six_gig
            &&& told.band_steering == wifi.band_steering
            &&& told.ssids is Some <==> wifi.ssids is Some
            &&& wifi.ssids is Some ==> told.ssids->0 == wifi.ssids->0@
        },
        shown@.error is Some <==> shown.error is Some,
        shown.error matches Some(error) ==> shown@.error->0 == error@,
{
}

/// A reading as a value is the reading, section by section, and of the same kind.
pub proof fn a_reading_is_shown_section_by_section(
    gateway: GatewayPayload,
    signal: SignalPayload,
    payload: DataPayload,
)
    ensures
        gateway@.device_summary == snapshot::row_views(gateway.device_summary@),
        gateway@.general_summary == snapshot::row_views(gateway.general_summary@),
        signal@.lte_summary == snapshot::row_views(signal.lte_summary@),
        signal@.five_g_summary == snapshot::row_views(signal.five_g_summary@),
        signal@.lte_metrics == signal.lte_metrics,
        signal@.five_g_metrics == signal.five_g_metrics,
        payload matches DataPayload::Gateway(inner) ==> payload@ is Gateway && payload@->Gateway_0
            == inner@,
        payload matches DataPayload::Signal(inner) ==> payload@ is Signal && payload@->Signal_0
            == inner@,
        payload matches DataPayload::Sim(inner) ==> payload@ is Sim && payload@->Sim_0
            == snapshot::row_views(inner@),
        payload matches DataPayload::Clients(inner) ==> payload@ is Clients && payload@->Clients_0
            == snapshot::client_views(inner@),
        payload matches DataPayload::Wifi(inner) ==> payload@ is Wifi && payload@->Wifi_0 == inner@,
{
}

/// A reading goes into the section it is of, replaces what was there, and leaves all
/// other sections and the login as they were; a failure is no longer shown.
pub proof fn a_reading_replaces_its_own_section(
    shown: SnapshotView,
    reading: events::DataPayloadView,
)
    ensures
        ({
            let after = events::with_reading(shown, reading);
            &&& after.error is None
            &&& after.logged_in == shown.logged_in
            &&& after.token_present == shown.token_present
            &&& after.gateway_ip == shown.gateway_ip
            &&& after.username == shown.username
            &&& reading matches events::DataPayloadView::Gateway(gateway) ==> {
                &&& after.device_summary == gateway.device_summary
                &&& after.general_summary == gateway.general_summary
            }
            &&& !(reading is Gateway) ==> {
                &&& after.device_summary == shown.device_summary
                &&& after.general_summary == shown.general_summary
            }
            &&& reading matches events::DataPayloadView::Signal(signal) ==> {
                &&& after.lte_summary == signal.lte_summary
                &&& after.five_g_summary == signal.five_g_summary
                &&& after.lte_metrics == signal.lte_metrics
                &&& after.five_g_metrics == signal.five_g_metrics
            }
            &&& !(reading is Signal) ==> {
                &&& after.lte_summary == shown.lte_summary
                &&& after.five_g_summary == shown.five_g_summary
                &&& after.lte_metrics == shown.lte_metrics
                &&& after.five_g_metrics == shown.five_g_metrics
            }
            &&& reading matches events::DataPayloadView::Sim(table) ==> after.sim_summary == table
            &&& !(reading is Sim) ==> after.sim_summary == shown.sim_summary
            &&& reading matches events::DataPayloadView::Clients(list) ==> after.clients == list
            &&& !(reading is Clients) ==> after.clients == shown.clients
            &&& reading matches events::DataPayloadView::Wifi(wifi) ==> after.wifi == Some(wifi)
            &&& !(reading is Wifi) ==> after.wifi == shown.wifi
            &&& events::with_reading(after, reading) == after
        }),
{
}

/// Keeping sections touches the SIM, the clients and the Wi-Fi configuration only, and
/// each only where there is nothing new: then it is the one from before.
pub proof fn only_blank_sections_are_kept(next: SnapshotView, previous: SnapshotView)
    ensures
        ({
            let kept = snapshot::with_sections_kept(next, previous);
            &&& shows_the_same(
                kept,
                SnapshotView {
                    sim_summary: kept.sim_summary,
                    clients: kept.clients,
                    wifi: kept.wifi,
                    ..next
                },
            )
            &&& next.sim_summary.len() == 0 ==> kept.sim_summary == previous.sim_summary
            &&& next.sim_summary.len() > 0 ==> kept.sim_summary == next.sim_summary
            &&& next.clients.len() == 0 ==> kept.clients == previous.clients
            &&& next.clients.len() > 0 ==> kept.clients == next.clients
            &&& next.wifi is None ==> kept.wifi == previous.wifi
            &&& next.wifi is Some ==> kept.wifi == next.wifi
        }),
{
}

/// Before anything was read nobody is logged in and every section is blank; only where
/// to log in and as whom is shown.
pub proof fn a_blank_snapshot_shows_nothing(gateway_ip: Seq<char>, username: Seq<char>)
    ensures
        ({
            let blank = snapshot::blank_view(gateway_ip, username);
            &&& !blank.logged_in && !blank.token_present
            &&& blank.gateway_ip == gateway_ip
            &&& blank.username == username
            &&& blank.device_summary.len() == 0 && blank.general_summary.len() == 0
            &&& blank.lte_summary.len() == 0 && blank.five_g_summary.len() == 0
            &&& blank.lte_metrics is None && blank.five_g_metrics is None
            &&& blank.sim_summary.len() == 0
            &&& blank.clients.len() == 0
            &&& blank.wifi is None
            &&& blank.error is None
        }),
{
}

/// What there is to show after a login is what the state shows, section by section,
/// with its settings; there is a warning exactly if saving failed, and it ends in the
/// reason.
pub proof fn a_login_hands_out_what_is_shown(
    state: AppState,
    initial: InitialData,
    save_error: Option<Seq<char>>,
)
    requires
        state.is_initial_data(initial, save_error),
    ensures
        initial.settings.gateway_ip == state.settings.gateway_ip,
        initial.settings.username == state.settings.username,
        initial.settings.password == state.settings.password,
        shows_the_same(initial.snapshot@, state.snapshot@),
        initial.warning is Some <==> save_error is Some,
        save_error matches Some(error) ==> initial.warning->0@
            == "Logged in, but credentials were not saved: "@ + error,
{
}

/// A program starts logged out and with nothing read: it knows where to log in and as
/// whom from its settings, and the password if they hold one. No source has been read,
/// and each waits for one whole interval of its own.
pub proof fn a_program_starts_from_its_settings(
    state: AppState,
    settings: Settings,
    now: Instant,
    kind: DataSourceKind,
)
    requires
        state.is_fresh(settings, now),
    ensures
        state.settings == settings,
        state.client.settings == settings,
        state.client.token is None,
        state.cached_password == settings.password,
        state.reauth_not_before is None,
        state.gateway_info is None,
        state.gateway_time is None,
        !state.snapshot.logged_in,
        !state.snapshot.token_present,
        state.snapshot.gateway_ip@ == settings.gateway_ip@,
        state.snapshot.username@ == settings.username@,
        state.gateway.cached is None,
        state.signal.cached is None,
        state.sim.cached is None,
        state.clients.cached is None,
        state.wifi.cached is None,
        state.cached_view(kind) is None,
        state.generation_of(kind) == 0,
        !state.is_due(kind, now),
        state.signal.poll_interval is Some,
        state.signal.next_poll.nanos == now.nanos + 5 * 1_000_000_000,
        state.gateway.next_poll.nanos == now.nanos + 300 * 1_000_000_000,
        state.clients.next_poll.nanos == now.nanos + 300 * 1_000_000_000,
        state.wifi.next_poll.nanos == now.nanos + 600 * 1_000_000_000,
        state.sim.poll_interval is None,
        state.gateway.kind is Gateway,
        state.signal.kind is Signal,
        state.sim.kind is Sim,
        state.clients.kind is Clients,
        state.wifi.kind is Wifi,
{
    assert(state.interval_of(DataSourceKind::Gateway) == state.gateway.poll_interval);
    assert(state.interval_of(DataSourceKind::Signal) == state.signal.poll_interval);
    assert(state.interval_of(DataSourceKind::Sim) == state.sim.poll_interval);
    assert(state.interval_of(DataSourceKind::Clients) == state.clients.poll_interval);
    assert(state.interval_of(DataSourceKind::Wifi) == state.wifi.poll_interval);
    assert(state.interval_of(kind) == app::default_interval(kind));
}

/// A login moves on exactly as it is answered. With a token the reports are read; without
/// one it ends with the reason. With the gateway's report it is saved if it is to be
/// remembered and else ends well; without it, it ends with the reason and nothing has
/// changed. After saving it ends well in any case, with a warning if saving failed.
pub proof fn a_login_moves_on_as_it_is_answered(
    before: AppState,
    after: AppState,
    event: LoginEvent,
    password: String,
    remember: bool,
    now: Instant,
    step: (LoginPhase, LoginAction),
)
    requires
        after.login_stepped(&before, event, password, remember, now, step),
    ensures
        event matches LoginEvent::Answered(reply) ==> {
            let brought = reply is Ok && reply->Ok_0.auth is Some && reply->Ok_0.auth->0.token
                is Some;
            &&& brought ==> {
                &&& step.0 is Reading
                &&& step.1 is Read
                &&& after.client.token == reply->Ok_0.auth->0.token
            }
            &&& !brought ==> {
                &&& step.0 is Finished
                &&& step.1 is Finish
                &&& step.1->Finish_0 is Err
            }
            &&& reply is Ok && !brought ==> {
                &&& after.client.token is None
                &&& step.1->Finish_0->Err_0@
                    == "login succeeded but the gateway did not return a token"@
            }
            &&& reply matches Err(error) ==> {
                &&& after.client.token == before.client.token
                &&& step.1->Finish_0->Err_0@ == gateway::error_text(error)
            }
            &&& after.snapshot == before.snapshot
            &&& after.settings == before.settings
            &&& after.cached_password == before.cached_password
        },
        event matches LoginEvent::Read(Err(error)) ==> {
            &&& after == before
            &&& step.0 is Finished
            &&& step.1 is Finish
            &&& step.1->Finish_0 is Err
            &&& step.1->Finish_0->Err_0@ == gateway::error_text(error)
        },
        event matches LoginEvent::Read(Ok(bootstrap)) ==> {
            &&& after.snapshot.logged_in
            &&& after.gateway_info == Some(bootstrap.gateway)
            &&& remember ==> {
                &&& step.0 is Saving
                &&& step.1 is Save
                &&& after.settings.password == Some(password)
            }
            &&& !remember ==> {
                &&& step.0 is Finished
                &&& step.1 is Finish
                &&& step.1->Finish_0 is Ok
                &&& step.1->Finish_0->Ok_0.warning is None
                &&& step.1->Finish_0->Ok_0.settings == before.settings
                &&& shows_the_same(step.1->Finish_0->Ok_0.snapshot@, after.snapshot@)
            }
        },
        event matches LoginEvent::Saved(outcome) ==> {
            &&& after == before
            &&& step.0 is Finished
            &&& step.1 is Finish
            &&& step.1->Finish_0 is Ok
            &&& step.1->Finish_0->Ok_0.settings == after.settings
            &&& shows_the_same(step.1->Finish_0->Ok_0.snapshot@, after.snapshot@)
            &&& step.1->Finish_0->Ok_0.warning is Some <==> outcome is Err
            &&& outcome matches Err(error) ==> step.1->Finish_0->Ok_0.warning->0@
                == "Logged in, but credentials were not saved: "@ + error@
        },
{
}

/// A first start knows the gateway's usual address and the usual name, and no password;
/// stored settings come from the current file before the older one.
pub proof fn a_first_start_knows_the_usual_gateway(
    settings: Settings,
    current: Option<String>,
    legacy: Option<String>,
)
    ensures
        settings::is_default(settings) <==> settings.gateway_ip@ == "192.168.12."@ + seq!['1']
            && settings.username@ == "admin"@ && settings.password is None,
        current is Some ==> settings::preferred_text(current, legacy) == current,
        current is None ==> settings::preferred_text(current, legacy) == legacy,
{
    reveal_strlit("192.168.12.1");
    reveal_strlit("192.168.12.");
    assert("192.168.12.1"@ =~= "192.168.12."@ + seq!['1']);
}

/// Stored settings are taken as they are; without any, those of a first start.
pub proof fn stored_settings_are_taken_as_they_are(settings: Settings, stored: Option<Settings>)
    requires
        settings::is_loaded_from(settings, stored),
    ensures
        stored matches Some(known) ==> {
            &&& settings.gateway_ip == known.gateway_ip
            &&& settings.username == known.username
            &&& settings.password == known.password
        },
        stored is None ==> settings::is_default(settings),
{
}

/// An accepted reboot takes the error away and changes nothing else.
pub proof fn a_reboot_changes_nothing_but_the_error(before: AppState, after: AppState)
    requires
        after.rebooted_from(&before),
    ensures
        after.snapshot.error is None,
        shows_the_same(
            after.snapshot@,
            SnapshotView { error: after.snapshot@.error, ..before.snapshot@ },
        ),
        after.settings == before.settings,
        after.client == before.client,
        after.cached_password == before.cached_password,
        after.reauth_not_before == before.reauth_not_before,
        after.gateway_info == before.gateway_info,
        after.gateway_time == before.gateway_time,
        after.gateway == before.gateway,
        after.signal == before.signal,
        after.sim == before.sim,
        after.clients == before.clients,
        after.wifi == before.wifi,
{
    assert(after.snapshot@.error == snapshot::text_of(after.snapshot.error));
}

} // verus!
