use hint_control::models::{BandConfig, SsidConfig, WifiConfig};
use hint_control::qr::{
    can_draw_qr, escape_wifi_qr, layout, wifi_qr, wifi_qr_payload, Symbol, OVERFLOW_FREE_BYTES,
    QUIET_ZONE,
};
use hint_control::wifi::{
    add_ssid, apply_wifi, build_wifi_config_from_ui, current_ssid_configs, fill_ssids,
    new_ssid_config, non_empty, remove_ssid, ssid_title, RadioSwitches, SsidForm,
};

fn network(name: &str, key: &str) -> SsidConfig {
    SsidConfig {
        ssid_name: Some(name.to_string()),
        wpa_key: Some(key.to_string()),
        ..SsidConfig::default()
    }
}

#[test]
fn wifi_qr_payload_escapes_reserved_characters() {
    assert_eq!(
        wifi_qr_payload("Semi;Colon", r#"p:a,s\s""#, false),
        r#"WIFI:T:WPA;S:Semi\;Colon;P:p\:a\,s\\s\";H:false;;"#
    );
}

#[test]
fn new_ssid_config_reuses_security_metadata_from_template() {
    let template = SsidConfig {
        encryption_mode: Some("WPA".to_string()),
        encryption_version: Some("WPA3".to_string()),
        ..SsidConfig::default()
    };

    let config = new_ssid_config(Some(&template));
    assert_eq!(config.encryption_mode.as_deref(), Some("WPA"));
    assert_eq!(config.encryption_version.as_deref(), Some("WPA3"));
    assert_eq!(config.is_broadcast_enabled, Some(true));
}

#[test]
fn a_new_network_without_template_is_encrypted_as_usual() {
    let config = new_ssid_config(None);
    assert_eq!(config.encryption_mode.as_deref(), Some("WPA"));
    assert_eq!(config.encryption_version.as_deref(), Some("WPA2"));
    assert_eq!(config.two_gig_ssid, Some(true));
    assert_eq!(config.five_gig_ssid, Some(true));
    assert_eq!(config.six_gig_ssid, Some(false));
    assert_eq!(config.guest, Some(false));
    assert_eq!(config.ssid_name.as_deref(), Some(""));
    assert_eq!(config.wpa_key.as_deref(), Some(""));
    assert_eq!(new_ssid_config(Some(&SsidConfig::default())), config);
}

#[test]
fn plain_text_needs_no_escape() {
    assert_eq!(escape_wifi_qr("home network"), "home network");
    assert_eq!(escape_wifi_qr(""), "");
    assert_eq!(escape_wifi_qr("é;"), r"é\;");
}

#[test]
fn a_hidden_network_says_so() {
    assert_eq!(wifi_qr_payload("a", "b", true), "WIFI:T:WPA;S:a;P:b;H:true;;");
}

#[test]
fn payloads_of_different_networks_differ() {
    assert_ne!(wifi_qr_payload("a;P:b", "c", false), wifi_qr_payload("a", "b;P:c", false));
    assert_ne!(wifi_qr_payload("a\\", "c", false), wifi_qr_payload("a", "\\c", false));
}

#[test]
fn a_code_is_laid_out_inside_its_margin() {
    let symbol = Symbol { width: 2, dark: vec![true, false, false, true] };
    let plan = layout(&symbol);
    assert_eq!(plan.cells, 10);
    assert_eq!(plan.dark, vec![(4, 4), (5, 5)]);
    let dark = vec![false, true, true, false, false, false, true, false, false];
    assert_eq!(layout(&Symbol { width: 3, dark }).dark, vec![(5, 4), (6, 4), (4, 6)]);
}

#[test]
fn an_empty_code_is_all_margin() {
    let plan = layout(&Symbol { width: 0, dark: vec![] });
    assert_eq!(plan.cells, 8);
    assert!(plan.dark.is_empty());
}

#[test]
fn a_network_has_a_code_with_finder_patterns() {
    let plan = wifi_qr("Home", "secret password", false);
    let code = qrcode::QrCode::new(b"WIFI:T:WPA;S:Home;P:secret password;H:false;;").unwrap();
    assert_eq!(plan.cells, code.width() + 2 * QUIET_ZONE);
    let mut wanted = Vec::new();
    for y in 0..code.width() {
        for x in 0..code.width() {
            if code[(x, y)] == qrcode::Color::Dark {
                wanted.push((x + QUIET_ZONE, y + QUIET_ZONE));
            }
        }
    }
    assert_eq!(plan.dark, wanted);
    assert!(plan.dark.contains(&(QUIET_ZONE, QUIET_ZONE)));
    assert!(!plan.dark.contains(&(QUIET_ZONE + 1, QUIET_ZONE + 1)));
}

#[test]
fn every_wpa_network_has_a_code() {
    let (name, key) = (";".repeat(32), "\\".repeat(63));
    let payload = wifi_qr_payload(name.as_str(), key.as_str(), false);
    assert_eq!(payload.len(), 216);
    assert!(can_draw_qr(name.as_str(), key.as_str(), false));
    let plan = wifi_qr(name.as_str(), key.as_str(), false);
    let code = qrcode::QrCode::new(payload.as_bytes()).unwrap();
    assert_eq!(plan.cells, code.width() + 2 * QUIET_ZONE);
}

#[test]
fn every_payload_within_the_limit_has_a_code() {
    let room = OVERFLOW_FREE_BYTES - wifi_qr_payload("", "", true).len();
    let letters: Vec<char> = "0123456789AZaz ;:-@\u{e9}\u{3042}\u{3057}".chars().collect();
    let mut seed: usize = 7;
    for _ in 0..200 {
        let mut name = String::new();
        loop {
            seed = seed.wrapping_mul(6364136223846793005).wrapping_add(1442695040888963407);
            name.push(letters[(seed >> 33) % letters.len()]);
            if !can_draw_qr(name.as_str(), "", true) {
                name.pop();
                break;
            }
        }
        assert!(name.len() <= room);
        let plan = wifi_qr(name.as_str(), "", true);
        assert!(plan.cells <= 73 + 2 * QUIET_ZONE);
    }
    assert!(can_draw_qr("x".repeat(room).as_str(), "", true));
    assert!(!can_draw_qr("x".repeat(room + 1).as_str(), "", true));
}

#[test]
fn empty_text_is_no_text() {
    assert_eq!(non_empty(String::new()), None);
    assert_eq!(non_empty("a".to_string()), Some("a".to_string()));
}

#[test]
fn titles_count_from_one() {
    assert_eq!(ssid_title(0, &network("Home", "")), "SSID 1: Home");
    assert_eq!(ssid_title(1, &network("", "")), "SSID 2");
    assert_eq!(ssid_title(9, &SsidConfig::default()), "SSID 10");
}

#[test]
fn a_form_that_is_saved_is_the_same_form_again() {
    let form = SsidForm {
        name: "Home".to_string(),
        key: "k".to_string(),
        broadcast: true,
        two: false,
        five: true,
        six: false,
        guest: true,
        encryption_mode: "WPA".to_string(),
        encryption_version: String::new(),
    };
    let saved = form.to_config();
    assert_eq!(saved.encryption_mode.as_deref(), Some("WPA"));
    assert_eq!(saved.encryption_version, None);
    assert_eq!(saved.two_gig_ssid, Some(false));
    assert_eq!(saved.guest, Some(true));
    let again = SsidForm::from_config(&saved);
    assert_eq!(again.name, "Home");
    assert_eq!(again.key, "k");
    assert!(again.broadcast && again.five && again.guest);
    assert!(!again.two && !again.six);
    assert_eq!(again.encryption_version, "");
    assert_eq!(again.to_config(), saved);
}

#[test]
fn what_a_network_does_not_tell_is_off_or_empty() {
    let form = SsidForm::from_config(&SsidConfig::default());
    assert_eq!(form.name, "");
    assert_eq!(form.key, "");
    assert!(!form.broadcast && !form.two && !form.five && !form.six && !form.guest);
    let saved = form.to_config();
    assert_eq!(saved.ssid_name.as_deref(), Some(""));
    assert_eq!(saved.encryption_mode, None);
    assert_eq!(saved.is_broadcast_enabled, Some(false));
}

#[test]
fn removing_the_added_network_leaves_the_rest() {
    let mut first = network("Home", "k1");
    first.encryption_version = Some("WPA3".to_string());
    let forms = fill_ssids(&vec![first, network("Guest", "k2")]);
    let longer = add_ssid(&forms);
    assert_eq!(longer.len(), 3);
    assert_eq!(longer[2].name, "");
    assert_eq!(longer[2].encryption_version, "WPA3");
    assert_eq!(longer[2].encryption_mode, "WPA");
    assert!(longer[2].broadcast && longer[2].two && longer[2].five);
    let shorter = remove_ssid(&longer, 2);
    assert_eq!(current_ssid_configs(&shorter), current_ssid_configs(&forms));
    let one = remove_ssid(&longer, 0);
    assert_eq!(one.len(), 2);
    assert_eq!(one[0].name, "Guest");
    assert_eq!(remove_ssid(&forms, 2).len(), 2);
    assert_eq!(add_ssid(&Vec::new())[0].encryption_version, "WPA2");
}

fn radio(enabled: Option<bool>) -> Option<BandConfig> {
    Some(BandConfig { is_radio_enabled: enabled, max_clients: Some(32), ..BandConfig::default() })
}

fn reported() -> WifiConfig {
    WifiConfig {
        two_gig: radio(Some(true)),
        five_gig: radio(None),
        six_gig: None,
        band_steering: Some(serde_json::Value::Bool(true)),
        ssids: Some(vec![network("Home", "k")]),
    }
}

#[test]
fn saving_without_a_report_fails() {
    let radios = RadioSwitches { two: true, five: true, six: true };
    let error = build_wifi_config_from_ui(None, radios, &Vec::new()).unwrap_err();
    assert_eq!(error, "Wi-Fi configuration is not available");
}

#[test]
fn saving_switches_radios_and_keeps_the_rest() {
    let radios = RadioSwitches { two: false, five: true, six: true };
    let forms = fill_ssids(&vec![network("New", "n")]);
    let built = build_wifi_config_from_ui(Some(&reported()), radios, &forms).unwrap();
    assert_eq!(built.two_gig.as_ref().unwrap().is_radio_enabled, Some(false));
    assert_eq!(built.two_gig.as_ref().unwrap().max_clients, Some(32));
    assert_eq!(built.five_gig.as_ref().unwrap().is_radio_enabled, Some(true));
    assert!(built.six_gig.is_none());
    assert_eq!(built.band_steering, Some(serde_json::Value::Bool(true)));
    let ssids = built.ssids.unwrap();
    assert_eq!(ssids.len(), 1);
    assert_eq!(ssids[0].ssid_name.as_deref(), Some("New"));
}

#[test]
fn the_page_shows_the_radios_that_there_are() {
    let page = apply_wifi(Some(&reported()));
    assert_eq!(page.two, Some(true));
    assert_eq!(page.five, Some(false));
    assert_eq!(page.six, None);
    assert_eq!(page.six_visible, Some(false));
    assert_eq!(page.forms.len(), 1);
    assert_eq!(page.forms[0].name, "Home");

    let none = apply_wifi(None);
    assert_eq!(none.two, None);
    assert_eq!(none.six_visible, None);
    assert!(none.forms.is_empty());

    let bare = WifiConfig { six_gig: radio(Some(true)), ..WifiConfig::default() };
    let page = apply_wifi(Some(&bare));
    assert_eq!(page.six, Some(true));
    assert_eq!(page.six_visible, Some(true));
    assert!(page.forms.is_empty());
}
