use hint_control::json::{
    candidate_matches_key, extract_i64_by_key, extract_rounded_by_key, extract_string_by_key,
    extract_string_list_by_key, json_value_as_i64, JsonNumber, JsonValue,
};
use hint_control::models::{
    ClientBands, ClientDevice, Device, GenericSignal, SimData, TimeInfo, WifiConfig,
};
use hint_control::rows::{
    client_rows, device_rows, format_duration, general_rows, radio_rows_from_value,
    signal_metrics_from_value, sim_rows, GatewayTimeState,
};
use hint_control::snapshot::{preserve_optional_snapshot_data, ClientRow, Row, Snapshot};
use hint_control::text::{int_to_text, join, parse_i64};
use hint_control::time::{Duration, Instant};

const NOW: Instant = Instant { nanos: 5_000_000_000_000 };

fn number(n: i64) -> JsonValue {
    JsonValue::Number(JsonNumber { integer: Some(n), rounded: n })
}

fn fraction(rounded: i64) -> JsonValue {
    JsonValue::Number(JsonNumber { integer: None, rounded })
}

fn words(text: &str) -> JsonValue {
    JsonValue::Text(text.to_string())
}

fn member(name: &str, value: JsonValue) -> (String, JsonValue) {
    (name.to_string(), value)
}

fn pairs(rows: &Vec<Row>) -> Vec<(String, String)> {
    rows.iter().map(|row| (row.label.clone(), row.value.clone())).collect()
}

fn pair(label: &str, value: &str) -> (String, String) {
    (label.to_string(), value.to_string())
}

#[test]
fn refresh_preserves_optional_sections_when_next_snapshot_is_blank() {
    let previous = Snapshot {
        sim_summary: vec![Row { label: "SIM".to_string(), value: "Ready".to_string() }],
        clients: vec![ClientRow {
            band: "5 GHz".to_string(),
            name: "Laptop".to_string(),
            ip: "192.168.12.10".to_string(),
            mac: "00:11:22:33:44:55".to_string(),
        }],
        wifi: Some(WifiConfig::default()),
        ..Snapshot::default()
    };

    let next = preserve_optional_snapshot_data(Snapshot::default(), &previous);

    assert_eq!(next.sim_summary.len(), 1);
    assert_eq!(next.clients.len(), 1);
    assert!(next.wifi.is_some());
}

#[test]
fn a_refresh_replaces_sections_that_it_brings() {
    let previous = Snapshot {
        sim_summary: vec![Row { label: "SIM".to_string(), value: "Ready".to_string() }],
        wifi: Some(WifiConfig::default()),
        ..Snapshot::default()
    };
    let fresh = Snapshot {
        sim_summary: vec![Row { label: "SIM".to_string(), value: "Locked".to_string() }],
        ..Snapshot::default()
    };
    let next = preserve_optional_snapshot_data(fresh, &previous);
    assert_eq!(next.sim_summary[0].value, "Locked");
    assert!(next.clients.is_empty());
    let again = preserve_optional_snapshot_data(next.clone(), &previous);
    assert_eq!(again.sim_summary[0].value, "Locked");
    assert_eq!(again.wifi, next.wifi);
}

#[test]
fn keys_match_by_part_and_without_case() {
    assert!(candidate_matches_key("antennaRSRP", "rsrp"));
    assert!(candidate_matches_key("rsrp", "RSRP"));
    assert!(!candidate_matches_key("rsr", "rsrp"));
    assert!(candidate_matches_key("anything", ""));
}

#[test]
fn values_read_as_integers() {
    assert_eq!(json_value_as_i64(&number(-95)), Some(-95));
    assert_eq!(json_value_as_i64(&fraction(4)), Some(4));
    assert_eq!(json_value_as_i64(&words("-12")), Some(-12));
    assert_eq!(json_value_as_i64(&words("12 dB")), None);
    assert_eq!(json_value_as_i64(&JsonValue::Bool(true)), None);
    assert_eq!(json_value_as_i64(&JsonValue::Null), None);
}

#[test]
fn lookups_go_into_the_depth_and_take_the_first_readable_value() {
    let document = JsonValue::Object(vec![
        member("other", JsonValue::Array(vec![
            JsonValue::Object(vec![member("rsrp", words("n/a"))]),
            JsonValue::Object(vec![member("nr_rsrp", number(-101))]),
        ])),
        member("rsrp", number(-90)),
    ]);
    assert_eq!(extract_i64_by_key(Some(&document), "rsrp"), Some(-101));
    assert_eq!(extract_string_by_key(Some(&document), "rsrp"), Some("n/a".to_string()));
    assert_eq!(extract_i64_by_key(Some(&document), "sinr"), None);
    assert_eq!(extract_i64_by_key(None, "rsrp"), None);
}

#[test]
fn rounding_lookups_read_numbers_only() {
    let document = JsonValue::Object(vec![
        member("bars", words("5")),
        member("bars2", fraction(4)),
    ]);
    assert_eq!(extract_rounded_by_key(Some(&document), "bars"), Some(4));
    assert_eq!(extract_i64_by_key(Some(&document), "bars"), Some(5));
}

#[test]
fn lists_of_texts_skip_what_is_no_text() {
    let document = JsonValue::Object(vec![
        member("bands", JsonValue::Array(vec![])),
        member("bands", JsonValue::Array(vec![words("n41"), number(3), words("n71")])),
    ]);
    assert_eq!(
        extract_string_list_by_key(Some(&document), "bands"),
        Some(vec!["n41".to_string(), "n71".to_string()])
    );
    assert_eq!(extract_string_list_by_key(Some(&document), "cells"), None);
}

#[test]
fn radio_rows_carry_units_and_keep_their_order() {
    let document = JsonValue::Object(vec![
        member("sinr", number(12)),
        member("rsrp", number(-95)),
        member("bands", JsonValue::Array(vec![words("b2"), words("b66")])),
        member("bars", fraction(4)),
        member("bandwidth", words("20M")),
    ]);
    assert_eq!(
        pairs(&radio_rows_from_value(Some(&document))),
        vec![
            pair("Bars", "4"),
            pair("Bands", "b2, b66"),
            pair("RSRP", "-95 dBm"),
            pair("SINR", "12 dB"),
            pair("Bandwidth", "20M"),
        ]
    );
    assert!(radio_rows_from_value(None).is_empty());
    let metrics = signal_metrics_from_value(Some(&document)).unwrap();
    assert_eq!(metrics.rsrp, Some(-95));
    assert_eq!(metrics.sinr, Some(12));
    assert_eq!(metrics.rsrq, None);
}

#[test]
fn a_document_without_figures_has_no_metrics() {
    let document = JsonValue::Object(vec![member("bars", number(3))]);
    assert!(signal_metrics_from_value(Some(&document)).is_none());
    assert!(signal_metrics_from_value(None).is_none());
}

#[test]
fn the_friendly_name_comes_before_the_plain_one() {
    let device = Device {
        friendly_name: Some("Den".to_string()),
        name: Some("GW".to_string()),
        serial: Some("S1".to_string()),
        ..Device::default()
    };
    assert_eq!(pairs(&device_rows(Some(&device))), vec![pair("Name", "Den"), pair("Serial", "S1")]);
    let plain = Device { name: Some("GW".to_string()), ..Device::default() };
    assert_eq!(pairs(&device_rows(Some(&plain))), vec![pair("Name", "GW")]);
    assert!(device_rows(None).is_empty());
}

#[test]
fn the_uptime_runs_on_between_reports() {
    let time = TimeInfo { local_time: Some(1_700_000_000), uptime: Some(86_399) };
    let state = GatewayTimeState::new(&time, NOW);
    assert_eq!(state.current_uptime(NOW), Some(86_399));
    let later = NOW.plus(Duration::from_millis(1_999));
    assert_eq!(state.current_uptime(later), Some(86_400));
    assert_eq!(state.current_local_time(later), Some(1_700_000_001));
    let generic = GenericSignal {
        apn: Some("fast".to_string()),
        has_ipv6: Some(true),
        roaming: Some(false),
        registration: None,
    };
    assert_eq!(
        pairs(&general_rows(Some(&generic), Some(&state), later)),
        vec![
            pair("APN", "fast"),
            pair("IPv6", "true"),
            pair("Roaming", "false"),
            pair("Uptime", "1d 0h 0m"),
        ]
    );
    assert!(general_rows(None, None, NOW).is_empty());
}

#[test]
fn durations_are_days_hours_and_minutes() {
    assert_eq!(format_duration(0), "0d 0h 0m");
    assert_eq!(format_duration(93_784), "1d 2h 3m");
    assert_eq!(format_duration(-93_784), "-1d -2h -3m");
    assert_eq!(format_duration(i64::MIN), "-106751991167300d -15h -30m");
}

#[test]
fn sim_rows_show_what_is_known() {
    let sim = SimData {
        icc_id: Some("89".to_string()),
        status: Some(true),
        ..SimData::default()
    };
    assert_eq!(pairs(&sim_rows(Some(&sim))), vec![pair("ICCID", "89"), pair("Status", "true")]);
    assert!(sim_rows(None).is_empty());
}

fn client(name: Option<&str>, mac: &str) -> ClientDevice {
    ClientDevice {
        name: name.map(|text| text.to_string()),
        mac: Some(mac.to_string()),
        ipv4: Some("10.0.0.2".to_string()),
        ..ClientDevice::default()
    }
}

#[test]
fn clients_are_listed_band_after_band() {
    let clients = ClientBands {
        ethernet: Some(vec![client(Some("tv"), "m3")]),
        two_gig: Some(vec![client(Some("phone"), "m1"), client(Some(""), "m2")]),
        five_gig: Some(vec![client(None, "m4")]),
        ..ClientBands::default()
    };
    let rows = client_rows(Some(&clients));
    let listed: Vec<(&str, &str, &str)> = rows
        .iter()
        .map(|row| (row.band.as_str(), row.name.as_str(), row.mac.as_str()))
        .collect();
    assert_eq!(
        listed,
        vec![
            ("2.4 GHz", "phone", "m1"),
            ("2.4 GHz", "Unknown", "m2"),
            ("5 GHz", "Unknown", "m4"),
            ("Ethernet", "tv", "m3"),
        ]
    );
    assert_eq!(rows[0].ip, "10.0.0.2");
    assert!(client_rows(None).is_empty());
}

#[test]
fn numbers_read_back_from_their_text() {
    for n in [0, 7, -7, 1_234_567_890, i64::MAX, i64::MIN] {
        assert_eq!(int_to_text(n), n.to_string());
        assert_eq!(parse_i64(int_to_text(n).as_str()), Some(n));
    }
    assert_eq!(parse_i64("+5"), Some(5));
    assert_eq!(parse_i64("9223372036854775808"), None);
    assert_eq!(parse_i64("-"), None);
    assert_eq!(parse_i64(""), None);
    assert_eq!(parse_i64("1 "), None);
}

#[test]
fn texts_are_joined_with_separators_between() {
    assert_eq!(join(&vec![], ", "), "");
    assert_eq!(join(&vec!["a".to_string()], ", "), "a");
    assert_eq!(join(&vec!["a".to_string(), "b".to_string()], ", "), "a, b");
}
