//! What the program shows: table rows, signal figures, and all of it together.

use crate::models::{WifiConfig, WifiConfigView};
use vstd::prelude::*;

verus! {

/// One line of a two-column table.
#[derive(Debug)]
pub struct Row {
    pub label: String,
    pub value: String,
}

/// The texts of a [`Row`].
pub struct RowView {
    pub label: Seq<char>,
    pub value: Seq<char>,
}

impl View for Row {
    type V = RowView;

    open spec fn view(&self) -> RowView {
        RowView { label: self.label@, value: self.value@ }
    }
}

impl Clone for Row {
    fn clone(&self) -> (copy: Self)
        ensures
            copy == *self,
    {
        Row { label: self.label.clone(), value: self.value.clone() }
    }
}

/// The texts of a table.
pub open spec fn row_views(rows: Seq<Row>) -> Seq<RowView> {
    rows.map_values(|row: Row| row@)
}

/// A copy of a table.
pub fn copy_rows(rows: &Vec<Row>) -> (copy: Vec<Row>)
    ensures
        copy@ == rows@,
{
    let copy: Vec<Row> = rows.clone();
    assert(copy@ =~= rows@);
    copy
}

/// One connected client.
#[derive(Debug)]
pub struct ClientRow {
    pub band: String,
    pub name: String,
    pub ip: String,
    pub mac: String,
}

/// The texts of a [`ClientRow`].
pub struct ClientRowView {
    pub band: Seq<char>,
    pub name: Seq<char>,
    pub ip: Seq<char>,
    pub mac: Seq<char>,
}

impl View for ClientRow {
    type V = ClientRowView;

    open spec fn view(&self) -> ClientRowView {
        ClientRowView { band: self.band@, name: self.name@, ip: self.ip@, mac: self.mac@ }
    }
}

impl Clone for ClientRow {
    fn clone(&self) -> (copy: Self)
        ensures
            copy == *self,
    {
        ClientRow {
            band: self.band.clone(),
            name: self.name.clone(),
            ip: self.ip.clone(),
            mac: self.mac.clone(),
        }
    }
}

/// The texts of a list of clients.
pub open spec fn client_views(rows: Seq<ClientRow>) -> Seq<ClientRowView> {
    rows.map_values(|row: ClientRow| row@)
}

/// A copy of a list of clients.
pub fn copy_clients(rows: &Vec<ClientRow>) -> (copy: Vec<ClientRow>)
    ensures
        copy@ == rows@,
{
    let copy: Vec<ClientRow> = rows.clone();
    assert(copy@ =~= rows@);
    copy
}

/// The signal figures of one radio.
#[derive(Debug, Clone, Copy, PartialEq, Eq, Structural)]
pub struct SignalMetrics {
    pub rsrp: Option<i64>,
    pub rsrq: Option<i64>,
    pub rssi: Option<i64>,
    pub sinr: Option<i64>,
    pub cqi: Option<i64>,
}

/// All that is shown at one time.
#[derive(Debug)]
pub struct Snapshot {
    pub logged_in: bool,
    pub token_present: bool,
    pub gateway_ip: String,
    pub username: String,
    pub device_summary: Vec<Row>,
    pub lte_summary: Vec<Row>,
    pub five_g_summary: Vec<Row>,
    pub lte_metrics: Option<SignalMetrics>,
    pub five_g_metrics: Option<SignalMetrics>,
    pub general_summary: Vec<Row>,
    pub sim_summary: Vec<Row>,
    pub clients: Vec<ClientRow>,
    pub wifi: Option<WifiConfig>,
    pub error: Option<String>,
}

/// A [`Snapshot`] as a value: its lists are sequences, its texts characters.
pub struct SnapshotView {
    pub logged_in: bool,
    pub token_present: bool,
    pub gateway_ip: Seq<char>,
    pub username: Seq<char>,
    pub device_summary: Seq<RowView>,
    pub lte_summary: Seq<RowView>,
    pub five_g_summary: Seq<RowView>,
    pub lte_metrics: Option<SignalMetrics>,
    pub five_g_metrics: Option<SignalMetrics>,
    pub general_summary: Seq<RowView>,
    pub sim_summary: Seq<RowView>,
    pub clients: Seq<ClientRowView>,
    pub wifi: Option<WifiConfigView>,
    pub error: Option<Seq<char>>,
}

/// The text of an optional string.
pub open spec fn text_of(text: Option<String>) -> Option<Seq<char>> {
    match text {
        Some(t) => Some(t@),
        None => None,
    }
}

/// An optional Wi-Fi configuration as a value.
pub open spec fn wifi_of(wifi: Option<WifiConfig>) -> Option<WifiConfigView> {
    match wifi {
        Some(w) => Some(w@),
        None => None,
    }
}

impl View for Snapshot {
    type V = SnapshotView;

    open spec fn view(&self) -> SnapshotView {
        SnapshotView {
            logged_in: self.logged_in,
            token_present: self.token_present,
            gateway_ip: self.gateway_ip@,
            username: self.username@,
            device_summary: row_views(self.device_summary@),
            lte_summary: row_views(self.lte_summary@),
            five_g_summary: row_views(self.five_g_summary@),
            lte_metrics: self.lte_metrics,
            five_g_metrics: self.five_g_metrics,
            general_summary: row_views(self.general_summary@),
            sim_summary: row_views(self.sim_summary@),
            clients: client_views(self.clients@),
            wifi: wifi_of(self.wifi),
            error: text_of(self.error),
        }
    }
}

/// The snapshot before anything was read: only the two given fields are set.
pub open spec fn blank_view(gateway_ip: Seq<char>, username: Seq<char>) -> SnapshotView {
    SnapshotView {
        logged_in: false,
        token_present: false,
        gateway_ip,
        username,
        device_summary: Seq::empty(),
        lte_summary: Seq::empty(),
        five_g_summary: Seq::empty(),
        lte_metrics: None,
        five_g_metrics: None,
        general_summary: Seq::empty(),
        sim_summary: Seq::empty(),
        clients: Seq::empty(),
        wifi: None,
        error: None,
    }
}

impl Default for Snapshot {
    fn default() -> (snapshot: Self)
        ensures
            snapshot@ == blank_view(Seq::empty(), Seq::empty()),
    {
        Snapshot::blank(String::new(), String::new())
    }
}

impl Clone for Snapshot {
    fn clone(&self) -> (copy: Self)
        ensures
            copy@ == self@,
    {
        Snapshot {
            logged_in: self.logged_in,
            token_present: self.token_present,
            gateway_ip: self.gateway_ip.clone(),
            username: self.username.clone(),
            device_summary: copy_rows(&self.device_summary),
            lte_summary: copy_rows(&self.lte_summary),
            five_g_summary: copy_rows(&self.five_g_summary),
            lte_metrics: self.lte_metrics,
            five_g_metrics: self.five_g_metrics,
            general_summary: copy_rows(&self.general_summary),
            sim_summary: copy_rows(&self.sim_summary),
            clients: copy_clients(&self.clients),
            wifi: self.wifi.clone(),
            error: self.error.clone(),
        }
    }
}

impl Snapshot {
    /// A snapshot of nothing but where to log in and as whom.
    pub fn blank(gateway_ip: String, username: String) -> (snapshot: Self)
        ensures
            snapshot@ == blank_view(gateway_ip@, username@),
    {
        let snapshot = Snapshot {
            logged_in: false,
            token_present: false,
            gateway_ip,
            username,
            device_summary: Vec::new(),
            lte_summary: Vec::new(),
            five_g_summary: Vec::new(),
            lte_metrics: None,
            five_g_metrics: None,
            general_summary: Vec::new(),
            sim_summary: Vec::new(),
            clients: Vec::new(),
            wifi: None,
            error: None,
        };
        assert(row_views(Seq::empty()) =~= Seq::empty());
        assert(client_views(Seq::empty()) =~= Seq::empty());
        snapshot
    }
}

/// `next`, with the SIM, client and Wi-Fi sections of `previous` where `next`
/// has none.
pub open spec fn with_sections_kept(next: SnapshotView, previous: SnapshotView) -> SnapshotView {
    SnapshotView {
        sim_summary: if next.sim_summary.len() == 0 {
            previous.sim_summary
        } else {
            next.sim_summary
        },
        clients: if next.clients.len() == 0 {
            previous.clients
        } else {
            next.clients
        },
        wifi: if next.wifi is None {
            previous.wifi
        } else {
            next.wifi
        },
        ..next
    }
}

/// Keeps the sections of the `previous` snapshot that a refresh left blank in
/// `next`: the SIM rows, the clients and the Wi-Fi configuration.
pub fn preserve_optional_snapshot_data(next: Snapshot, previous: &Snapshot) -> (kept: Snapshot)
    ensures
        kept@ == with_sections_kept(next@, previous@),
{
    let mut kept: Snapshot = next;
    if kept.sim_summary.len() == 0 && previous.sim_summary.len() > 0 {
        kept.sim_summary = copy_rows(&previous.sim_summary);
    }
    if kept.clients.len() == 0 && previous.clients.len() > 0 {
        kept.clients = copy_clients(&previous.clients);
    }
    if kept.wifi.is_none() {
        kept.wifi = previous.wifi.clone();
    }
    assert(kept@.sim_summary =~= with_sections_kept(next@, previous@).sim_summary);
    assert(kept@.clients =~= with_sections_kept(next@, previous@).clients);
    kept
}

/// A refresh never blanks an optional section: what was shown before is shown
/// after, unless the refresh brought something to show in its place.
pub proof fn refresh_never_blanks_a_section(next: SnapshotView, previous: SnapshotView)
    ensures
        previous.sim_summary.len() > 0 ==> with_sections_kept(next, previous).sim_summary.len() > 0,
        previous.clients.len() > 0 ==> with_sections_kept(next, previous).clients.len() > 0,
        previous.wifi is Some ==> with_sections_kept(next, previous).wifi is Some,
        next.sim_summary.len() > 0 ==> with_sections_kept(next, previous).sim_summary
            == next.sim_summary,
        next.clients.len() > 0 ==> with_sections_kept(next, previous).clients == next.clients,
        next.wifi is Some ==> with_sections_kept(next, previous).wifi == next.wifi,
{
}

/// Keeping the same sections again changes nothing.
pub proof fn keeping_sections_twice_is_keeping_them_once(
    next: SnapshotView,
    previous: SnapshotView,
)
    ensures
        with_sections_kept(with_sections_kept(next, previous), previous) == with_sections_kept(
            next,
            previous,
        ),
{
}

} // verus!
