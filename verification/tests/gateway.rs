use hint_control::gateway::{
    authority_of, describe_status, gateway_authority, parse_json_response, send_request,
    GatewayClient, GatewayError,
};
use hint_control::logging;
use hint_control::logging::{parse_level, LogLevel};
use hint_control::models::{AuthData, AuthResponse, GatewayInfo, SimRoot};
use hint_control::settings::Settings;
use hint_control::source::DataSourceKind;

fn login_reply(token: Option<&str>) -> AuthResponse {
    AuthResponse { auth: Some(AuthData { token: token.map(|text| text.to_string()) }) }
}

#[test]
fn gateway_authority_adds_default_port_to_hosts_and_ipv4() {
    assert_eq!(gateway_authority("192.168.12.1"), "192.168.12.1:8080");
    assert_eq!(gateway_authority("gateway.local"), "gateway.local:8080");
}

#[test]
fn gateway_authority_preserves_explicit_ports() {
    assert_eq!(gateway_authority("192.168.12.1:8081"), "192.168.12.1:8081");
    assert_eq!(gateway_authority("gateway.local:8081"), "gateway.local:8081");
}

#[test]
fn gateway_authority_brackets_ipv6_literals() {
    assert_eq!(gateway_authority("fd00::1"), "[fd00::1]:8080");
    assert_eq!(gateway_authority("[fd00::1]"), "[fd00::1]:8080");
    assert_eq!(gateway_authority("[fd00::1]:8081"), "[fd00::1]:8081");
}

#[test]
fn an_authority_is_its_own_authority() {
    for address in ["192.168.12.1", "gateway.local:81", "fd00::1", "[fd00::1]", ""] {
        let once = gateway_authority(address);
        assert_eq!(gateway_authority(once.as_str()), once);
    }
}

#[test]
fn only_whole_ipv6_literals_get_brackets() {
    assert_eq!(gateway_authority("::ffff:10.0.0.1"), "[::ffff:10.0.0.1]:8080");
    assert_eq!(gateway_authority("fd00::zz"), "fd00::zz");
    assert_eq!(authority_of("fd00::1", false), "fd00::1");
    assert_eq!(authority_of("fd00::1", true), "[fd00::1]:8080");
}

#[test]
fn a_login_sends_name_and_password() {
    let body = GatewayClient::login_body("me", "word");
    let wanted = [("username", "me"), ("password", "word")];
    assert_eq!(body.len(), 2);
    for ((name, value), (wanted_name, wanted_value)) in body.iter().zip(wanted) {
        assert_eq!((name.as_str(), value.as_str()), (wanted_name, wanted_value));
    }
}

#[test]
fn requests_go_to_the_gateway_with_the_token() {
    let mut client = GatewayClient::new(Settings::default());
    assert_eq!(client.url("x"), "http://192.168.12.1:8080/TMI/v1/x");
    let request = client.gateway_info();
    assert_eq!(request.method, "GET");
    assert_eq!(request.endpoint, "gateway/?get=all");
    assert_eq!(request.url, "http://192.168.12.1:8080/TMI/v1/gateway/?get=all");
    assert_eq!(request.authorization, None);
    assert_eq!(client.reboot().authorization.as_deref(), Some("Bearer "));

    assert!(client.accept_login(login_reply(Some("t"))).is_ok());
    assert_eq!(client.sim_telemetry().authorization.as_deref(), Some("Bearer t"));
    let save = client.set_wifi_config();
    assert_eq!(save.method, "POST");
    assert_eq!(save.endpoint, "network/configuration/v2?set=ap");
    assert_eq!(save.authorization.as_deref(), Some("Bearer t"));
    assert_eq!(client.login().authorization, None);
    assert_eq!(client.login().endpoint, "auth/login");

    client.clear_auth();
    assert_eq!(client.wifi_config().authorization, None);
}

#[test]
fn a_login_without_a_token_fails() {
    let mut client = GatewayClient::new(Settings::default());
    client.token = Some("old".to_string());
    let error = client.accept_login(login_reply(None)).unwrap_err();
    assert_eq!(error.to_string(), "login succeeded but the gateway did not return a token");
    assert_eq!(error.status(), None);
    assert_eq!(client.token, None);
    assert!(client.accept_login(AuthResponse { auth: None }).is_err());
}

#[test]
fn statuses_are_named_in_errors() {
    let client = GatewayClient::new(Settings::default());
    let request = client.gateway_info();
    assert_eq!(send_request(&request, Ok(204)).unwrap(), 204);
    let error = send_request(&request, Ok(401)).unwrap_err();
    assert!(error.is_unauthorized());
    assert_eq!(error.status(), Some(401));
    assert_eq!(error.to_string(), "HTTP GET gateway/?get=all returned 401 Unauthorized");
    let error = send_request(&request, Ok(799)).unwrap_err();
    assert!(!error.is_unauthorized());
    assert_eq!(error.to_string(), "HTTP GET gateway/?get=all returned 799 <unknown status code>");
    let error = send_request(&request, Ok(404)).unwrap_err();
    assert_eq!(error.to_string(), "HTTP GET gateway/?get=all returned 404 Not Found");
    let error = send_request(&request, Err("timed out".to_string())).unwrap_err();
    assert_eq!(error.to_string(), "HTTP GET gateway/?get=all: timed out");
    assert_eq!(error.status(), None);
    let error = parse_json_response::<()>(&request, Err("eof".to_string())).unwrap_err();
    assert!(matches!(error, GatewayError::Decode { .. }));
    assert_eq!(error.to_string(), "HTTP GET gateway/?get=all: eof");
    assert_eq!(parse_json_response(&request, Ok(3)).unwrap(), 3);
    assert_eq!(describe_status(200, Some("OK".to_string())), "200 OK");
}

#[test]
fn only_the_report_on_the_gateway_has_to_be_there() {
    let missing = || GatewayError::Other("gone".to_string());
    let data = GatewayClient::bootstrap(
        Ok(GatewayInfo::default()),
        Err(missing()),
        Ok(SimRoot::default()),
        Err(missing()),
        Err(missing()),
    )
    .unwrap();
    assert!(data.cell.is_none());
    assert!(data.sim.is_some());
    assert!(data.clients.is_none());
    assert!(data.wifi.is_none());
    let all = GatewayClient::bootstrap_sources(&Ok(GatewayInfo::default()));
    assert_eq!(
        all,
        vec![
            DataSourceKind::Signal,
            DataSourceKind::Sim,
            DataSourceKind::Clients,
            DataSourceKind::Wifi,
        ]
    );
    assert!(GatewayClient::bootstrap_sources(&Err(missing())).is_empty());
    let error = GatewayClient::bootstrap(
        Err(missing()),
        Err(missing()),
        Ok(SimRoot::default()),
        Err(missing()),
        Err(missing()),
    )
    .unwrap_err();
    assert_eq!(error.to_string(), "gone");
}

#[test]
fn level_names_are_read_without_case() {
    assert_eq!(parse_level("Debug"), Some(LogLevel::Debug));
    assert_eq!(parse_level("TRACE"), Some(LogLevel::Trace));
    assert_eq!(parse_level("info"), Some(LogLevel::Info));
    assert_eq!(parse_level("eRRor"), Some(LogLevel::Error));
    assert_eq!(parse_level("warn"), None);
}

#[test]
fn the_level_that_was_set_is_read() {
    for level in [LogLevel::Error, LogLevel::Info, LogLevel::Debug, LogLevel::Trace] {
        assert_eq!(logging::level(logging::set_level(level)), level);
    }
    assert_eq!(logging::level(200), LogLevel::Trace);
    assert_eq!(logging::DEFAULT_LEVEL, LogLevel::Info);
}

#[test]
fn finer_messages_are_dropped() {
    assert!(logging::debug(LogLevel::Info, "x").is_none());
    assert!(logging::trace(LogLevel::Debug, "x").is_none());
    let line = logging::info(LogLevel::Info, "x").unwrap();
    assert_eq!(line.text, "[INFO] x");
    assert!(!line.to_stderr);
    let line = logging::error(LogLevel::Error, "y").unwrap();
    assert_eq!(line.text, "[ERROR] y");
    assert!(line.to_stderr);
    assert_eq!(logging::trace(LogLevel::Trace, "z").unwrap().text, "[TRACE] z");
}

#[test]
fn requests_are_logged_with_method_and_endpoint() {
    let all = LogLevel::Trace;
    assert_eq!(logging::http_request(all, "GET", "a").unwrap().text, "[DEBUG] HTTP GET a");
    assert_eq!(
        logging::http_success(all, "GET", "a", 200).unwrap().text,
        "[DEBUG] HTTP GET a -> 200"
    );
    assert_eq!(
        logging::http_trace_response(all, "GET", "a", "{}").unwrap().text,
        "[TRACE] HTTP GET a response body:\n{}"
    );
    assert_eq!(
        logging::http_error(LogLevel::Error, "POST", "a", "no").unwrap().text,
        "[ERROR] HTTP POST a: no"
    );
}

#[test]
fn settings_fall_back_to_the_defaults() {
    let settings = Settings::load(None);
    assert_eq!(settings.gateway_ip, "192.168.12.1");
    assert_eq!(settings.username, "admin");
    assert_eq!(settings.password, None);
    let stored = Settings { username: "me".to_string(), ..Settings::default() };
    assert_eq!(Settings::load(Some(stored)).username, "me");
    let (new, old) = (Some("new".to_string()), Some("old".to_string()));
    assert_eq!(Settings::stored_text(new.clone(), old.clone()), new);
    assert_eq!(Settings::stored_text(None, old.clone()), old);
    assert_eq!(Settings::stored_text(None, None), None);
}
