//! Gateway reports as table rows.

use crate::json::{
    self, extract_i64_by_key, extract_rounded_by_key, extract_string_by_key,
    extract_string_list_by_key, JsonValue,
};
use crate::models::{ClientBands, ClientDevice, Device, GenericSignal, SimData, TimeInfo};
use crate::snapshot::{self, ClientRow, ClientRowView, Row, RowView, SignalMetrics};
use crate::text::{self, bool_to_text, int_to_text, join};
use crate::time::{self, Instant};
use vstd::prelude::*;
use vstd::string::*;

verus! {

/// A table row.
pub fn row(label: &str, value: String) -> (made: Row)
    ensures
        made@ == (RowView { label: label@, value: value@ }),
{
    Row { label: label.to_owned(), value }
}

/// One row if there is a value to show, else none.
pub open spec fn optional_row(label: Seq<char>, value: Option<Seq<char>>) -> Seq<RowView> {
    match value {
        Some(text) => seq![RowView { label, value: text }],
        None => Seq::empty(),
    }
}

/// Adds a row if there is a value to show.
pub fn maybe_row(rows: &mut Vec<Row>, label: &str, value: Option<String>)
    ensures
        snapshot::row_views(final(rows)@) == snapshot::row_views(old(rows)@) + optional_row(
            label@,
            snapshot::text_of(value),
        ),
{
    if let Some(text) = value {
        rows.push(row(label, text));
    }
    assert(snapshot::row_views(rows@) =~= snapshot::row_views(old(rows)@) + optional_row(
        label@,
        snapshot::text_of(value),
    ));
}

/// The first of two optional texts that is there.
pub open spec fn either_text(
    first: Option<Seq<char>>,
    second: Option<Seq<char>>,
) -> Option<Seq<char>> {
    if first is Some {
        first
    } else {
        second
    }
}

/// The rows that describe a device: each known property in its place, the
/// friendly name before the plain one.
pub open spec fn device_table(device: Device) -> Seq<RowView> {
    let name = either_text(
        snapshot::text_of(device.friendly_name),
        snapshot::text_of(device.name),
    );
    optional_row("Name"@, name)
        + optional_row("Manufacturer"@, snapshot::text_of(device.manufacturer))
        + optional_row("Model"@, snapshot::text_of(device.model))
        + optional_row("Serial"@, snapshot::text_of(device.serial))
        + optional_row("Hardware"@, snapshot::text_of(device.hardware_version))
        + optional_row("Software"@, snapshot::text_of(device.software_version))
        + optional_row("Update"@, snapshot::text_of(device.update_state))
}

/// The rows that describe the gateway's hardware.
pub fn device_rows(device: Option<&Device>) -> (rows: Vec<Row>)
    ensures
        snapshot::row_views(rows@) == match device {
            Some(known) => device_table(*known),
            None => Seq::empty(),
        },
{
    let mut rows: Vec<Row> = Vec::new();
    assert(snapshot::row_views(rows@) =~= Seq::empty());
    if let Some(device) = device {
        let name = if device.friendly_name.is_some() {
            device.friendly_name.clone()
        } else {
            device.name.clone()
        };
        maybe_row(&mut rows, "Name", name);
        maybe_row(&mut rows, "Manufacturer", device.manufacturer.clone());
        maybe_row(&mut rows, "Model", device.model.clone());
        maybe_row(&mut rows, "Serial", device.serial.clone());
        maybe_row(&mut rows, "Hardware", device.hardware_version.clone());
        maybe_row(&mut rows, "Software", device.software_version.clone());
        maybe_row(&mut rows, "Update", device.update_state.clone());
        assert(snapshot::row_views(rows@) =~= device_table(*device));
    }
    rows
}

/// An optional integer in decimal, followed by `unit`.
pub open spec fn measured(value: Option<i64>, unit: Seq<char>) -> Option<Seq<char>> {
    match value {
        Some(n) => Some(text::decimal(n as int) + unit),
        None => None,
    }
}

/// An optional integer in decimal, followed by `unit`.
fn measure(value: Option<i64>, unit: &str) -> (text: Option<String>)
    ensures
        snapshot::text_of(text) == measured(value, unit@),
{
    match value {
        Some(n) => {
            let mut text: String = int_to_text(n);
            text.append(unit);
            Some(text)
        },
        None => None,
    }
}

/// The number of bars that a radio document reports.
pub open spec fn bars_under(advanced: Option<&JsonValue>) -> Option<i64> {
    if json::integer_under(advanced, "bars"@) is Some {
        json::integer_under(advanced, "bars"@)
    } else {
        json::rounded_under(advanced, "bars"@)
    }
}

/// The bands that a radio document reports, in one text.
pub open spec fn bands_under(advanced: Option<&JsonValue>) -> Option<Seq<char>> {
    match json::text_list_under(advanced, "bands"@) {
        Some(bands) => Some(text::joined(bands, ", "@)),
        None => None,
    }
}

/// The rows on how well a radio is heard and where.
pub open spec fn reception_rows(advanced: Option<&JsonValue>) -> Seq<RowView> {
    optional_row("Bars"@, measured(bars_under(advanced), Seq::empty()))
        + optional_row("Bands"@, bands_under(advanced))
}

/// The rows on the signal figures of a radio, each with its unit.
pub open spec fn figure_rows(metrics: SignalMetrics) -> Seq<RowView> {
    optional_row("RSRP"@, measured(metrics.rsrp, " dBm"@))
        + optional_row("RSRQ"@, measured(metrics.rsrq, " dB"@))
        + optional_row("RSSI"@, measured(metrics.rssi, " dBm"@))
        + optional_row("SINR"@, measured(metrics.sinr, " dB"@))
        + optional_row("CQI"@, measured(metrics.cqi, Seq::empty()))
}

/// The rows on the cell of a radio.
pub open spec fn cell_rows(advanced: Option<&JsonValue>) -> Seq<RowView> {
    optional_row("CID"@, measured(json::integer_under(advanced, "cid"@), Seq::empty()))
        + optional_row("Bandwidth"@, json::text_under(advanced, "bandwidth"@))
        + optional_row("PCI"@, json::text_under(advanced, "pci"@))
        + optional_row("TAC"@, json::text_under(advanced, "tac"@))
}

/// The signal figures in a radio document, as far as it holds them.
pub open spec fn metrics_under(advanced: Option<&JsonValue>) -> SignalMetrics {
    SignalMetrics {
        rsrp: json::integer_under(advanced, "rsrp"@),
        rsrq: json::integer_under(advanced, "rsrq"@),
        rssi: json::integer_under(advanced, "rssi"@),
        sinr: json::integer_under(advanced, "sinr"@),
        cqi: json::integer_under(advanced, "cqi"@),
    }
}

/// The rows that describe one radio: each property that the document holds, in
/// its place and with its unit.
pub open spec fn radio_table(advanced: Option<&JsonValue>) -> Seq<RowView> {
    reception_rows(advanced) + figure_rows(metrics_under(advanced)) + cell_rows(advanced)
}

/// Adds the rows on the signal figures of a radio.
fn add_figure_rows(rows: &mut Vec<Row>, metrics: SignalMetrics)
    ensures
        snapshot::row_views(final(rows)@) == snapshot::row_views(old(rows)@) + figure_rows(
            metrics,
        ),
{
    proof {
        reveal_strlit("");
        assert(""@ =~= Seq::empty());
    }
    maybe_row(rows, "RSRP", measure(metrics.rsrp, " dBm"));
    maybe_row(rows, "RSRQ", measure(metrics.rsrq, " dB"));
    maybe_row(rows, "RSSI", measure(metrics.rssi, " dBm"));
    maybe_row(rows, "SINR", measure(metrics.sinr, " dB"));
    maybe_row(rows, "CQI", measure(metrics.cqi, ""));
    assert(snapshot::row_views(rows@) =~= snapshot::row_views(old(rows)@) + figure_rows(metrics));
}

/// Adds the rows on the cell of a radio.
fn add_cell_rows(rows: &mut Vec<Row>, advanced: Option<&JsonValue>)
    ensures
        snapshot::row_views(final(rows)@) == snapshot::row_views(old(rows)@) + cell_rows(advanced),
{
    proof {
        reveal_strlit("");
        assert(""@ =~= Seq::empty());
    }
    maybe_row(rows, "CID", measure(extract_i64_by_key(advanced, "cid"), ""));
    maybe_row(rows, "Bandwidth", extract_string_by_key(advanced, "bandwidth"));
    maybe_row(rows, "PCI", extract_string_by_key(advanced, "pci"));
    maybe_row(rows, "TAC", extract_string_by_key(advanced, "tac"));
    assert(snapshot::row_views(rows@) =~= snapshot::row_views(old(rows)@) + cell_rows(advanced));
}

/// Looks up the signal figures of a radio.
fn read_metrics(advanced: Option<&JsonValue>) -> (metrics: SignalMetrics)
    ensures
        metrics == metrics_under(advanced),
{
    SignalMetrics {
        rsrp: extract_i64_by_key(advanced, "rsrp"),
        rsrq: extract_i64_by_key(advanced, "rsrq"),
        rssi: extract_i64_by_key(advanced, "rssi"),
        sinr: extract_i64_by_key(advanced, "sinr"),
        cqi: extract_i64_by_key(advanced, "cqi"),
    }
}

/// The rows that describe one radio.
pub fn radio_rows_from_value(advanced: Option<&JsonValue>) -> (rows: Vec<Row>)
    ensures
        snapshot::row_views(rows@) == radio_table(advanced),
{
    proof {
        reveal_strlit("");
        assert(""@ =~= Seq::empty());
    }
    let mut rows: Vec<Row> = Vec::new();
    assert(snapshot::row_views(rows@) =~= Seq::empty());
    let integer_bars: Option<i64> = extract_i64_by_key(advanced, "bars");
    let bars: Option<i64> = if integer_bars.is_some() {
        integer_bars
    } else {
        extract_rounded_by_key(advanced, "bars")
    };
    maybe_row(&mut rows, "Bars", measure(bars, ""));
    let bands: Option<String> = match extract_string_list_by_key(advanced, "bands") {
        Some(list) => Some(join(&list, ", ")),
        None => None,
    };
    maybe_row(&mut rows, "Bands", bands);
    assert(snapshot::row_views(rows@) =~= reception_rows(advanced));
    add_figure_rows(&mut rows, read_metrics(advanced));
    add_cell_rows(&mut rows, advanced);
    rows
}

/// Whether there is any figure at all.
pub open spec fn has_figure(metrics: SignalMetrics) -> bool {
    ||| metrics.rsrp is Some
    ||| metrics.rsrq is Some
    ||| metrics.rssi is Some
    ||| metrics.sinr is Some
    ||| metrics.cqi is Some
}

/// The signal figures of one radio, if its document holds any.
pub open spec fn signal_figures(advanced: Option<&JsonValue>) -> Option<SignalMetrics> {
    if has_figure(metrics_under(advanced)) {
        Some(metrics_under(advanced))
    } else {
        None
    }
}

/// The signal figures of one radio, if its document holds any.
pub fn signal_metrics_from_value(advanced: Option<&JsonValue>) -> (metrics: Option<SignalMetrics>)
    ensures
        metrics == signal_figures(advanced),
{
    let read: SignalMetrics = read_metrics(advanced);
    if read.rsrp.is_none() && read.rsrq.is_none() && read.rssi.is_none() && read.sinr.is_none()
        && read.cqi.is_none() {
        return None;
    }
    Some(read)
}

/// A table shows the signal figures that the graph draws, and no others: the rows
/// between the reception and the cell are those of the figures, and there are none
/// where the graph has no figures. The bars are read as an integer.
pub proof fn table_and_graph_agree(advanced: Option<&JsonValue>)
    ensures
        bars_under(advanced) == json::integer_under(advanced, "bars"@),
        signal_figures(advanced) matches Some(metrics) ==> radio_table(advanced)
            == reception_rows(advanced) + figure_rows(metrics) + cell_rows(advanced),
        signal_figures(advanced) is None ==> radio_table(advanced) == reception_rows(advanced)
            + cell_rows(advanced),
{
    json::integer_lookup_covers_rounding(advanced, "bars"@);
    if signal_figures(advanced) is None {
        lemma_no_figures_no_rows(metrics_under(advanced));
        assert(reception_rows(advanced) + Seq::<RowView>::empty() =~= reception_rows(advanced));
    }
}

proof fn lemma_no_figures_no_rows(metrics: SignalMetrics)
    requires
        !has_figure(metrics),
    ensures
        figure_rows(metrics) == Seq::<RowView>::empty(),
{
    assert(figure_rows(metrics) =~= Seq::empty());
}

/// The gateway's clock and uptime, with the instant at which they were read.
#[derive(Debug)]
pub struct GatewayTimeState {
    pub local_time: Option<i64>,
    pub uptime: Option<i64>,
    pub recorded_at: Instant,
}

/// A count of seconds carried forward from `recorded_at` to `now`.
pub open spec fn carried_forward(count: i64, recorded_at: Instant, now: Instant) -> int {
    count + time::whole_seconds_between(recorded_at, now)
}

/// Whether a count of seconds, if there is one, can be carried forward to `now`.
pub open spec fn can_carry_forward(count: Option<i64>, recorded_at: Instant, now: Instant) -> bool {
    count matches Some(seconds) ==> {
        &&& time::whole_seconds_between(recorded_at, now) <= i64::MAX
        &&& carried_forward(seconds, recorded_at, now) <= i64::MAX
    }
}

/// An optional count as a number.
pub open spec fn count_of(count: Option<i64>) -> Option<int> {
    match count {
        Some(seconds) => Some(seconds as int),
        None => None,
    }
}

/// An optional count of seconds carried forward from `recorded_at` to `now`.
pub open spec fn carried_count(
    count: Option<i64>,
    recorded_at: Instant,
    now: Instant,
) -> Option<int> {
    match count {
        Some(seconds) => Some(carried_forward(seconds, recorded_at, now)),
        None => None,
    }
}

/// Carries an optional count of seconds forward to `now`.
fn carry_forward(count: Option<i64>, recorded_at: Instant, now: Instant) -> (carried: Option<i64>)
    requires
        can_carry_forward(count, recorded_at, now),
    ensures
        count_of(carried) == carried_count(count, recorded_at, now),
{
    match count {
        Some(seconds) => Some(seconds + (now.seconds_since(recorded_at) as i64)),
        None => None,
    }
}

impl GatewayTimeState {
    /// How long the gateway has been up at `now`, if it told.
    pub open spec fn uptime_at(&self, now: Instant) -> Option<int> {
        carried_count(self.uptime, self.recorded_at, now)
    }

    /// What the gateway's clock says at `now`, if it told.
    pub open spec fn local_time_at(&self, now: Instant) -> Option<int> {
        carried_count(self.local_time, self.recorded_at, now)
    }

    /// What the gateway reported at `recorded_at`.
    pub fn new(time: &TimeInfo, recorded_at: Instant) -> (state: Self)
        ensures
            state.local_time == time.local_time,
            state.uptime == time.uptime,
            state.recorded_at == recorded_at,
    {
        GatewayTimeState { local_time: time.local_time, uptime: time.uptime, recorded_at }
    }

    /// How long the gateway has been up at `now`.
    pub fn current_uptime(&self, now: Instant) -> (uptime: Option<i64>)
        requires
            can_carry_forward(self.uptime, self.recorded_at, now),
        ensures
            count_of(uptime) == self.uptime_at(now),
    {
        carry_forward(self.uptime, self.recorded_at, now)
    }

    /// What the gateway's clock says at `now`.
    pub fn current_local_time(&self, now: Instant) -> (local_time: Option<i64>)
        requires
            can_carry_forward(self.local_time, self.recorded_at, now),
        ensures
            count_of(local_time) == self.local_time_at(now),
    {
        carry_forward(self.local_time, self.recorded_at, now)
    }
}

/// `part`, with the sign of `seconds`.
pub open spec fn signed_like(seconds: int, part: int) -> int {
    if seconds < 0 {
        -part
    } else {
        part
    }
}

/// A span of seconds as days, hours and minutes, each cut towards zero and each
/// with the sign of the span.
pub open spec fn duration_text(seconds: int) -> Seq<char> {
    let magnitude = signed_like(seconds, seconds);
    text::decimal(signed_like(seconds, magnitude / 86_400)) + "d "@ + text::decimal(
        signed_like(seconds, magnitude % 86_400 / 3_600),
    ) + "h "@ + text::decimal(signed_like(seconds, magnitude % 3_600 / 60)) + "m"@
}

/// `part` of a span in decimal, negated if the span is negative.
fn signed_part_to_text(part: u64, negative: bool) -> (text: String)
    requires
        part <= i64::MAX,
    ensures
        text@ == text::decimal(
            if negative {
                -(part as int)
            } else {
                part as int
            },
        ),
{
    if negative {
        int_to_text(0i64 - (part as i64))
    } else {
        int_to_text(part as i64)
    }
}

/// A span of seconds as days, hours and minutes.
pub fn format_duration(seconds: i64) -> (text: String)
    ensures
        text@ == duration_text(seconds as int),
{
    let negative: bool = seconds < 0;
    let magnitude: u64 = if negative {
        (0i128 - (seconds as i128)) as u64
    } else {
        seconds as u64
    };
    let mut text: String = signed_part_to_text(magnitude / 86_400, negative);
    text.append("d ");
    text.append(signed_part_to_text(magnitude % 86_400 / 3_600, negative).as_str());
    text.append("h ");
    text.append(signed_part_to_text(magnitude % 3_600 / 60, negative).as_str());
    text.append("m");
    text
}

/// The parts of a span that is not negative add up to it, to the minute.
pub proof fn duration_parts_add_up(seconds: int)
    requires
        seconds >= 0,
    ensures
        duration_text(seconds) == text::decimal(seconds / 86_400) + "d "@ + text::decimal(
            seconds % 86_400 / 3_600,
        ) + "h "@ + text::decimal(seconds % 3_600 / 60) + "m"@,
        0 <= seconds % 86_400 / 3_600 < 24,
        0 <= seconds % 3_600 / 60 < 60,
        seconds / 86_400 * 86_400 + seconds % 86_400 / 3_600 * 3_600 + seconds % 3_600 / 60 * 60
            <= seconds,
        seconds < seconds / 86_400 * 86_400 + seconds % 86_400 / 3_600 * 3_600 + seconds % 3_600
            / 60 * 60 + 60,
{
}

/// An optional truth value as a word.
pub open spec fn word_of(value: Option<bool>) -> Option<Seq<char>> {
    match value {
        Some(truth) => Some(text::bool_word(truth)),
        None => None,
    }
}

/// An optional truth value as a word.
fn word(value: Option<bool>) -> (text: Option<String>)
    ensures
        snapshot::text_of(text) == word_of(value),
{
    match value {
        Some(truth) => Some(bool_to_text(truth)),
        None => None,
    }
}

/// The rows on the mobile network connection.
pub open spec fn generic_table(generic: GenericSignal) -> Seq<RowView> {
    optional_row("APN"@, snapshot::text_of(generic.apn)) + optional_row(
        "Registration"@,
        snapshot::text_of(generic.registration),
    ) + optional_row("IPv6"@, word_of(generic.has_ipv6)) + optional_row(
        "Roaming"@,
        word_of(generic.roaming),
    )
}

/// The row on how long the gateway has been up at `now`.
pub open spec fn uptime_table(time_state: GatewayTimeState, now: Instant) -> Seq<RowView> {
    optional_row(
        "Uptime"@,
        match time_state.uptime {
            Some(seconds) => Some(
                duration_text(carried_forward(seconds, time_state.recorded_at, now)),
            ),
            None => None,
        },
    )
}

/// The rows on the connection and the uptime, as far as either is known.
pub open spec fn general_table(
    generic: Option<&GenericSignal>,
    time_state: Option<&GatewayTimeState>,
    now: Instant,
) -> Seq<RowView> {
    (match generic {
        Some(known) => generic_table(*known),
        None => Seq::empty(),
    }) + (match time_state {
        Some(known) => uptime_table(*known, now),
        None => Seq::empty(),
    })
}

/// The rows on the connection and the uptime.
pub fn general_rows(
    generic: Option<&GenericSignal>,
    time_state: Option<&GatewayTimeState>,
    now: Instant,
) -> (rows: Vec<Row>)
    requires
        time_state matches Some(known) ==> can_carry_forward(known.uptime, known.recorded_at, now),
    ensures
        snapshot::row_views(rows@) == general_table(generic, time_state, now),
{
    let mut rows: Vec<Row> = Vec::new();
    assert(snapshot::row_views(rows@) =~= Seq::empty());
    if let Some(generic) = generic {
        maybe_row(&mut rows, "APN", generic.apn.clone());
        maybe_row(&mut rows, "Registration", generic.registration.clone());
        maybe_row(&mut rows, "IPv6", word(generic.has_ipv6));
        maybe_row(&mut rows, "Roaming", word(generic.roaming));
    }
    if let Some(time_state) = time_state {
        let uptime: Option<String> = match time_state.current_uptime(now) {
            Some(seconds) => Some(format_duration(seconds)),
            None => None,
        };
        maybe_row(&mut rows, "Uptime", uptime);
    }
    assert(snapshot::row_views(rows@) =~= general_table(generic, time_state, now));
    rows
}

/// The rows that describe a SIM.
pub open spec fn sim_table(sim: SimData) -> Seq<RowView> {
    optional_row("ICCID"@, snapshot::text_of(sim.icc_id))
        + optional_row("IMEI"@, snapshot::text_of(sim.imei))
        + optional_row("IMSI"@, snapshot::text_of(sim.imsi))
        + optional_row("MSISDN"@, snapshot::text_of(sim.msisdn))
        + optional_row("Status"@, word_of(sim.status))
}

/// The rows that describe a SIM, if there is one.
pub open spec fn optional_sim_table(sim: Option<&SimData>) -> Seq<RowView> {
    match sim {
        Some(known) => sim_table(*known),
        None => Seq::empty(),
    }
}

/// The rows that describe a SIM.
pub fn sim_rows(sim: Option<&SimData>) -> (rows: Vec<Row>)
    ensures
        snapshot::row_views(rows@) == optional_sim_table(sim),
{
    let mut rows: Vec<Row> = Vec::new();
    assert(snapshot::row_views(rows@) =~= Seq::empty());
    if let Some(sim) = sim {
        maybe_row(&mut rows, "ICCID", sim.icc_id.clone());
        maybe_row(&mut rows, "IMEI", sim.imei.clone());
        maybe_row(&mut rows, "IMSI", sim.imsi.clone());
        maybe_row(&mut rows, "MSISDN", sim.msisdn.clone());
        maybe_row(&mut rows, "Status", word(sim.status));
        assert(snapshot::row_views(rows@) =~= sim_table(*sim));
    }
    rows
}

/// The text of an optional string, empty where there is none.
pub open spec fn text_or_empty(text: Option<String>) -> Seq<char> {
    match text {
        Some(t) => t@,
        None => Seq::empty(),
    }
}

/// The text of an optional string, empty where there is none.
pub fn copy_or_empty(text: &Option<String>) -> (copy: String)
    ensures
        copy@ == text_or_empty(*text),
{
    match text {
        Some(t) => t.clone(),
        None => String::new(),
    }
}

/// One client on `band`; one without a name is unknown.
pub open spec fn client_entry(band: Seq<char>, client: ClientDevice) -> ClientRowView {
    ClientRowView {
        band,
        name: if text_or_empty(client.name).len() > 0 {
            text_or_empty(client.name)
        } else {
            "Unknown"@
        },
        ip: text_or_empty(client.ipv4),
        mac: text_or_empty(client.mac),
    }
}

/// The clients of one band, in the order reported.
pub open spec fn band_entries(
    band: Seq<char>,
    clients: Option<Vec<ClientDevice>>,
) -> Seq<ClientRowView> {
    match clients {
        Some(list) => list@.map_values(|client: ClientDevice| client_entry(band, client)),
        None => Seq::empty(),
    }
}

/// Adds the clients of one band.
pub fn append_clients(rows: &mut Vec<ClientRow>, band: &str, clients: &Option<Vec<ClientDevice>>)
    ensures
        snapshot::client_views(final(rows)@) == snapshot::client_views(old(rows)@) + band_entries(
            band@,
            *clients,
        ),
{
    let ghost before = snapshot::client_views(rows@);
    if let Some(list) = clients {
        let mut at: usize = 0;
        while at < list.len()
            invariant
                *clients == Some(*list),
                at <= list.len(),
                snapshot::client_views(rows@) == before + band_entries(band@, *clients).take(
                    at as int,
                ),
            decreases list.len() - at,
        {
            let ghost so_far = rows@;
            let client: &ClientDevice = &list[at];
            let given: String = copy_or_empty(&client.name);
            let name: String = if given.as_str().is_empty() {
                "Unknown".to_owned()
            } else {
                given
            };
            rows.push(
                ClientRow {
                    band: band.to_owned(),
                    name,
                    ip: copy_or_empty(&client.ipv4),
                    mac: copy_or_empty(&client.mac),
                },
            );
            assert(snapshot::client_views(rows@) =~= snapshot::client_views(so_far).push(
                client_entry(band@, *client),
            ));
            at = at + 1;
            assert(band_entries(band@, *clients).take(at as int) =~= band_entries(
                band@,
                *clients,
            ).take(at - 1).push(client_entry(band@, *client)));
        }
        assert(band_entries(band@, *clients).take(at as int) =~= band_entries(band@, *clients));
    }
    assert(snapshot::client_views(rows@) =~= before + band_entries(band@, *clients));
}

/// All clients, band after band.
pub open spec fn client_table(clients: ClientBands) -> Seq<ClientRowView> {
    band_entries("2.4 GHz"@, clients.two_gig) + band_entries("5 GHz"@, clients.five_gig)
        + band_entries("6 GHz"@, clients.six_gig) + band_entries("Wi-Fi"@, clients.wifi)
        + band_entries("Ethernet"@, clients.ethernet)
}

/// All clients, if there is a report on them.
pub open spec fn optional_client_table(clients: Option<&ClientBands>) -> Seq<ClientRowView> {
    match clients {
        Some(known) => client_table(*known),
        None => Seq::empty(),
    }
}

/// All clients, band after band.
pub fn client_rows(clients: Option<&ClientBands>) -> (rows: Vec<ClientRow>)
    ensures
        snapshot::client_views(rows@) == optional_client_table(clients),
{
    let mut rows: Vec<ClientRow> = Vec::new();
    assert(snapshot::client_views(rows@) =~= Seq::empty());
    if let Some(clients) = clients {
        append_clients(&mut rows, "2.4 GHz", &clients.two_gig);
        append_clients(&mut rows, "5 GHz", &clients.five_gig);
        append_clients(&mut rows, "6 GHz", &clients.six_gig);
        append_clients(&mut rows, "Wi-Fi", &clients.wifi);
        append_clients(&mut rows, "Ethernet", &clients.ethernet);
        assert(snapshot::client_views(rows@) =~= client_table(*clients));
    }
    rows
}

} // verus!
