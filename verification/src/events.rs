//! What the user asks for, and what the user is told.

use crate::json::JsonValue;
use crate::models::{CellRoot, ClientRoot, GatewayInfo, SimRoot, WifiConfig, WifiConfigView};
use crate::rows::{self, radio_rows_from_value, signal_metrics_from_value};
use crate::settings::Settings;
use crate::snapshot::{
    self, copy_clients, copy_rows, ClientRow, ClientRowView, Row, RowView, SignalMetrics, Snapshot,
    SnapshotView,
};
use crate::source::DataSourceKind;
use crate::time::Duration;
use vstd::prelude::*;

verus! {

/// The commands by name.
#[derive(Debug, Clone, Copy, PartialEq, Eq, Structural)]
pub enum CommandKind {
    Login,
    Logout,
    Refresh,
    SaveWifi,
    Reboot,
    Shutdown,
    SetPollingRate,
}

/// What the user asks for.
#[derive(Debug)]
pub enum AppCommand {
    Login { gateway_ip: String, username: String, password: String, remember: bool },
    Logout,
    RefreshNow(DataSourceKind),
    RefreshAll,
    SetPollingRate { source: DataSourceKind, interval: Option<Duration> },
    SaveWifi(Box<WifiConfig>),
    Reboot,
    Shutdown,
}

/// The rows on the gateway.
#[derive(Debug)]
pub struct GatewayPayload {
    pub device_summary: Vec<Row>,
    pub general_summary: Vec<Row>,
}

/// The rows on the radios, and their signal figures.
#[derive(Debug)]
pub struct SignalPayload {
    pub lte_summary: Vec<Row>,
    pub five_g_summary: Vec<Row>,
    pub lte_metrics: Option<SignalMetrics>,
    pub five_g_metrics: Option<SignalMetrics>,
}

/// A [`GatewayPayload`] as a value.
pub struct GatewayPayloadView {
    pub device_summary: Seq<RowView>,
    pub general_summary: Seq<RowView>,
}

/// A [`SignalPayload`] as a value.
pub struct SignalPayloadView {
    pub lte_summary: Seq<RowView>,
    pub five_g_summary: Seq<RowView>,
    pub lte_metrics: Option<SignalMetrics>,
    pub five_g_metrics: Option<SignalMetrics>,
}

impl View for GatewayPayload {
    type V = GatewayPayloadView;

    open spec fn view(&self) -> GatewayPayloadView {
        GatewayPayloadView {
            device_summary: snapshot::row_views(self.device_summary@),
            general_summary: snapshot::row_views(self.general_summary@),
        }
    }
}

impl View for SignalPayload {
    type V = SignalPayloadView;

    open spec fn view(&self) -> SignalPayloadView {
        SignalPayloadView {
            lte_summary: snapshot::row_views(self.lte_summary@),
            five_g_summary: snapshot::row_views(self.five_g_summary@),
            lte_metrics: self.lte_metrics,
            five_g_metrics: self.five_g_metrics,
        }
    }
}

impl Clone for GatewayPayload {
    fn clone(&self) -> (copy: Self)
        ensures
            copy@ == self@,
    {
        GatewayPayload {
            device_summary: copy_rows(&self.device_summary),
            general_summary: copy_rows(&self.general_summary),
        }
    }
}

impl Clone for SignalPayload {
    fn clone(&self) -> (copy: Self)
        ensures
            copy@ == self@,
    {
        SignalPayload {
            lte_summary: copy_rows(&self.lte_summary),
            five_g_summary: copy_rows(&self.five_g_summary),
            lte_metrics: self.lte_metrics,
            five_g_metrics: self.five_g_metrics,
        }
    }
}

/// A report of the gateway, as it was read.
#[derive(Debug)]
pub enum Report {
    Gateway(GatewayInfo),
    Signal(CellRoot),
    Sim(SimRoot),
    Clients(ClientRoot),
    Wifi(WifiConfig),
}

/// The source that a report renews.
pub open spec fn report_kind(report: Report) -> DataSourceKind {
    match report {
        Report::Gateway(_) => DataSourceKind::Gateway,
        Report::Signal(_) => DataSourceKind::Signal,
        Report::Sim(_) => DataSourceKind::Sim,
        Report::Clients(_) => DataSourceKind::Clients,
        Report::Wifi(_) => DataSourceKind::Wifi,
    }
}

/// A reading, ready to show.
#[derive(Debug, Clone)]
pub enum DataPayload {
    Gateway(GatewayPayload),
    Signal(SignalPayload),
    Sim(Vec<Row>),
    Clients(Vec<ClientRow>),
    Wifi(Box<WifiConfig>),
}

/// A [`DataPayload`] as a value.
pub enum DataPayloadView {
    Gateway(GatewayPayloadView),
    Signal(SignalPayloadView),
    Sim(Seq<RowView>),
    Clients(Seq<ClientRowView>),
    Wifi(WifiConfigView),
}

impl View for DataPayload {
    type V = DataPayloadView;

    open spec fn view(&self) -> DataPayloadView {
        match self {
            DataPayload::Gateway(payload) => DataPayloadView::Gateway(payload@),
            DataPayload::Signal(payload) => DataPayloadView::Signal(payload@),
            DataPayload::Sim(rows) => DataPayloadView::Sim(snapshot::row_views(rows@)),
            DataPayload::Clients(rows) => DataPayloadView::Clients(snapshot::client_views(rows@)),
            DataPayload::Wifi(wifi) => DataPayloadView::Wifi(wifi@),
        }
    }
}

/// A snapshot with a fresh reading in its place. Nothing has failed any more.
pub open spec fn with_reading(shown: SnapshotView, reading: DataPayloadView) -> SnapshotView {
    match reading {
        DataPayloadView::Gateway(gateway) => SnapshotView {
            device_summary: gateway.device_summary,
            general_summary: gateway.general_summary,
            error: None,
            ..shown
        },
        DataPayloadView::Signal(signal) => SnapshotView {
            lte_summary: signal.lte_summary,
            five_g_summary: signal.five_g_summary,
            lte_metrics: signal.lte_metrics,
            five_g_metrics: signal.five_g_metrics,
            error: None,
            ..shown
        },
        DataPayloadView::Sim(rows) => SnapshotView { sim_summary: rows, error: None, ..shown },
        DataPayloadView::Clients(rows) => SnapshotView { clients: rows, error: None, ..shown },
        DataPayloadView::Wifi(wifi) => SnapshotView { wifi: Some(wifi), error: None, ..shown },
    }
}

/// Puts a copy of a fresh reading into a snapshot.
pub fn show_reading(shown: &mut Snapshot, payload: &DataPayload)
    ensures
        final(shown)@ == with_reading(old(shown)@, payload@),
{
    match payload {
        DataPayload::Gateway(gateway) => {
            shown.device_summary = copy_rows(&gateway.device_summary);
            shown.general_summary = copy_rows(&gateway.general_summary);
        },
        DataPayload::Signal(signal) => {
            shown.lte_summary = copy_rows(&signal.lte_summary);
            shown.five_g_summary = copy_rows(&signal.five_g_summary);
            shown.lte_metrics = signal.lte_metrics;
            shown.five_g_metrics = signal.five_g_metrics;
        },
        DataPayload::Sim(rows) => {
            shown.sim_summary = copy_rows(rows);
        },
        DataPayload::Clients(rows) => {
            shown.clients = copy_clients(rows);
        },
        DataPayload::Wifi(wifi) => {
            let config: &WifiConfig = wifi;
            shown.wifi = Some(config.clone());
        },
    }
    shown.error = None;
}

/// What there is to show after a login.
#[derive(Debug, Clone)]
pub struct InitialData {
    pub settings: Settings,
    pub snapshot: Snapshot,
    pub warning: Option<String>,
}

/// What the user is told.
#[derive(Debug, Clone)]
pub enum UiEvent {
    DataUpdated { source: DataSourceKind, generation: u64, payload: DataPayload },
    DataError { source: DataSourceKind, generation: u64, error: String },
    LoginSucceeded { initial: Box<InitialData> },
    LoggedOut,
    CommandSucceeded { command: CommandKind, message: String },
    CommandFailed { command: CommandKind, error: String },
    AuthReauthStarted,
    AuthExpired { message: String },
}

/// The LTE document of a cell report.
pub open spec fn lte_document(cell: Option<&CellRoot>) -> Option<&JsonValue> {
    match cell {
        Some(root) => match &root.cell {
            Some(data) => match &data.four_g {
                Some(document) => Some(document),
                None => None,
            },
            None => None,
        },
        None => None,
    }
}

/// The 5G document of a cell report.
pub open spec fn five_g_document(cell: Option<&CellRoot>) -> Option<&JsonValue> {
    match cell {
        Some(root) => match &root.cell {
            Some(data) => match &data.five_g {
                Some(document) => Some(document),
                None => None,
            },
            None => None,
        },
        None => None,
    }
}

/// What a cell report shows.
pub open spec fn signal_view(cell: Option<&CellRoot>) -> SignalPayloadView {
    SignalPayloadView {
        lte_summary: rows::radio_table(lte_document(cell)),
        five_g_summary: rows::radio_table(five_g_document(cell)),
        lte_metrics: rows::signal_figures(lte_document(cell)),
        five_g_metrics: rows::signal_figures(five_g_document(cell)),
    }
}

/// What a cell report shows.
pub fn signal_payload_from_cell(cell: Option<&CellRoot>) -> (payload: SignalPayload)
    ensures
        payload@ == signal_view(cell),
{
    let four_g: Option<&JsonValue> = match cell {
        Some(root) => match &root.cell {
            Some(data) => data.four_g.as_ref(),
            None => None,
        },
        None => None,
    };
    let five_g: Option<&JsonValue> = match cell {
        Some(root) => match &root.cell {
            Some(data) => data.five_g.as_ref(),
            None => None,
        },
        None => None,
    };
    SignalPayload {
        lte_summary: radio_rows_from_value(four_g),
        five_g_summary: radio_rows_from_value(five_g),
        lte_metrics: signal_metrics_from_value(four_g),
        five_g_metrics: signal_metrics_from_value(five_g),
    }
}

} // verus!
