use hint_control::actor::{
    handle_command, login_event, reboot_event, refresh_all, refresh_events, save_wifi_events,
    CommandStep,
};
use hint_control::app::{refresh_label, AppState, GatewayCommand};
use hint_control::auth::{RequestAction, RequestEvent, RequestPhase};
use hint_control::events::{AppCommand, CommandKind, DataPayload, Report, UiEvent};
use hint_control::gateway::{BootstrapData, GatewayError};
use hint_control::json::{JsonNumber, JsonValue};
use hint_control::login::{LoginAction, LoginEvent, LoginPhase};
use hint_control::models::{
    AuthData, AuthResponse, CellData, CellRoot, ClientBands, ClientDevice, ClientRoot, Device,
    GatewayInfo, SimData, SimRoot, TimeInfo, WifiConfig,
};
use hint_control::screen::{Page, Screen, Tab};
use hint_control::settings::Settings;
use hint_control::source::DataSourceKind;
use hint_control::time::{Duration, Instant};

const NOW: Instant = Instant { nanos: 9_000_000_000_000 };

fn after(secs: u64) -> Instant {
    NOW.plus(Duration::from_secs(secs))
}

fn new_state() -> AppState {
    AppState::new(Settings::default(), NOW)
}

fn cell(rsrp: i64) -> CellRoot {
    let figure = JsonValue::Number(JsonNumber { integer: Some(rsrp), rounded: rsrp });
    CellRoot {
        cell: Some(CellData {
            four_g: Some(JsonValue::Object(vec![("rsrp".to_string(), figure)])),
            five_g: None,
        }),
    }
}

fn info(name: &str) -> GatewayInfo {
    GatewayInfo {
        device: Some(Device { name: Some(name.to_string()), ..Device::default() }),
        signal: None,
        time: Some(TimeInfo { local_time: None, uptime: Some(60) }),
    }
}

fn bootstrap() -> BootstrapData {
    BootstrapData {
        gateway: info("GW"),
        cell: Some(cell(-90)),
        sim: None,
        clients: None,
        wifi: Some(WifiConfig::default()),
    }
}

fn token_reply(token: &str) -> Result<AuthResponse, GatewayError> {
    Ok(AuthResponse { auth: Some(AuthData { token: Some(token.to_string()) }) })
}

fn expired() -> GatewayError {
    GatewayError::Http { method: "GET".to_string(), endpoint: "e".to_string(), status: 401 }
}

fn broken() -> GatewayError {
    GatewayError::Http { method: "GET".to_string(), endpoint: "e".to_string(), status: 500 }
}

fn logged_in() -> AppState {
    let mut state = new_state();
    state.login("10.0.0.1".to_string(), "me".to_string(), "word".to_string());
    state.login_answered(token_reply("t")).unwrap();
    state.login_bootstrapped(Ok(bootstrap()), "word".to_string(), false, NOW).unwrap();
    state
}

#[test]
fn a_new_state_polls_at_the_default_rates() {
    let state = new_state();
    let intervals: Vec<Option<Duration>> =
        state.sources().iter().map(|(_, interval, _)| *interval).collect();
    assert_eq!(
        intervals,
        vec![
            Some(Duration::from_secs(300)),
            Some(Duration::from_secs(5)),
            None,
            Some(Duration::from_secs(300)),
            Some(Duration::from_secs(600)),
        ]
    );
    assert_eq!(state.sources()[1].2, after(5));
    assert_eq!(state.snapshot.gateway_ip, "192.168.12.1");
    assert!(!state.snapshot.logged_in);
    assert!(state.due_sources(after(10_000)).is_empty());
}

#[test]
fn a_login_shows_the_first_reports() {
    let mut state = new_state();
    let request = state.login("fd00::1".to_string(), "me".to_string(), "word".to_string());
    assert_eq!(request.url, "http://[fd00::1]:8080/TMI/v1/auth/login");
    assert_eq!(request.authorization, None);
    assert!(state.login_answered(token_reply("t")).is_ok());
    assert_eq!(state.login_bootstrapped(Ok(bootstrap()), "word".to_string(), true, NOW), Ok(true));
    assert_eq!(state.settings.password.as_deref(), Some("word"));
    assert_eq!(state.cached_password.as_deref(), Some("word"));
    assert!(state.snapshot.logged_in && state.snapshot.token_present);
    assert_eq!(state.snapshot.gateway_ip, "fd00::1");
    assert_eq!(state.snapshot.device_summary[0].value, "GW");
    assert_eq!(state.snapshot.general_summary[0].value, "0d 0h 1m");
    assert_eq!(state.snapshot.lte_metrics.unwrap().rsrp, Some(-90));
    let request = state.refresh_request(DataSourceKind::Sim);
    assert_eq!(request.authorization.as_deref(), Some("Bearer t"));
    let initial = state.initial_data(None);
    assert_eq!(initial.warning, None);
    let initial = state.initial_data(Some("disk full".to_string()));
    assert_eq!(
        initial.warning.as_deref(),
        Some("Logged in, but credentials were not saved: disk full")
    );
    assert!(initial.snapshot.logged_in);
}

#[test]
fn a_login_that_is_not_remembered_is_not_saved() {
    let state = logged_in();
    assert_eq!(state.settings.password, None);
    assert_eq!(state.settings.username, "me");
    assert_eq!(state.cached_password.as_deref(), Some("word"));
}

#[test]
fn a_failed_login_shows_nothing() {
    let mut state = new_state();
    state.login("10.0.0.1".to_string(), "me".to_string(), "word".to_string());
    let error = state.login_answered(Err(broken())).unwrap_err();
    assert_eq!(error, "HTTP GET e returned 500 Internal Server Error");
    let error = state.login_answered(Ok(AuthResponse { auth: None })).unwrap_err();
    assert_eq!(error, "login succeeded but the gateway did not return a token");
    let error =
        state.login_bootstrapped(Err(broken()), "word".to_string(), true, NOW).unwrap_err();
    assert_eq!(error, "HTTP GET e returned 500 Internal Server Error");
    assert!(!state.snapshot.logged_in);
    assert_eq!(state.settings.password, None);
}

#[test]
fn a_login_goes_from_token_to_reports_to_settings() {
    let mut state = new_state();
    let word = "word".to_string();
    state.login("10.0.0.1".to_string(), "me".to_string(), word.clone());
    let event = LoginEvent::Answered(token_reply("t"));
    let (phase, action) = state.login_step(LoginPhase::Authenticating, event, &word, true, NOW);
    assert_eq!(phase, LoginPhase::Reading);
    assert!(matches!(action, LoginAction::Read));
    assert_eq!(state.client.token.as_deref(), Some("t"));
    let event = LoginEvent::Read(Ok(bootstrap()));
    let (phase, action) = state.login_step(phase, event, &word, true, NOW);
    assert_eq!(phase, LoginPhase::Saving);
    assert!(matches!(action, LoginAction::Save));
    assert_eq!(state.settings.password.as_deref(), Some("word"));
    let event = LoginEvent::Saved(Err("disk full".to_string()));
    let (phase, action) = state.login_step(phase, event, &word, true, NOW);
    assert_eq!(phase, LoginPhase::Finished);
    match action {
        LoginAction::Finish(Ok(initial)) => assert_eq!(
            initial.warning.as_deref(),
            Some("Logged in, but credentials were not saved: disk full")
        ),
        _ => panic!("not finished"),
    }

    let event = LoginEvent::Read(Ok(bootstrap()));
    let (phase, action) = state.login_step(LoginPhase::Reading, event, &word, false, NOW);
    assert_eq!(phase, LoginPhase::Finished);
    match action {
        LoginAction::Finish(Ok(initial)) => assert_eq!(initial.warning, None),
        _ => panic!("not finished"),
    }
    let event = LoginEvent::Answered(Err(broken()));
    let (phase, action) = state.login_step(LoginPhase::Authenticating, event, &word, true, NOW);
    assert_eq!(phase, LoginPhase::Finished);
    match action {
        LoginAction::Finish(Err(error)) => {
            assert_eq!(error, "HTTP GET e returned 500 Internal Server Error");
        }
        _ => panic!("not finished"),
    }
}

#[test]
fn commands_have_their_names_and_requests() {
    let state = logged_in();
    let (name, request) = state.command_request(GatewayCommand::SaveWifi);
    assert_eq!(name, "Wi-Fi save");
    assert_eq!(request.method, "POST");
    assert_eq!(request.endpoint, "network/configuration/v2?set=ap");
    assert_eq!(request.authorization.as_deref(), Some("Bearer t"));
    let (name, request) = state.command_request(GatewayCommand::Reboot);
    assert_eq!(name, "Gateway reboot");
    assert_eq!(request.url, "http://10.0.0.1:8080/TMI/v1/gateway/reset?set=reboot");
}

#[test]
fn logging_out_stops_polling_and_forgets_the_login() {
    let mut state = logged_in();
    assert!(!state.due_sources(after(10_000)).is_empty());
    state.logout();
    assert!(state.due_sources(after(10_000)).is_empty());
    assert_eq!(state.client.token, None);
    assert_eq!(state.cached_password, None);
    assert!(state.gateway_info.is_none() && state.gateway_time.is_none());
    assert_eq!(state.snapshot.device_summary.len(), 1);
}

#[test]
fn sources_come_due_and_are_polled_once() {
    let mut state = logged_in();
    assert!(state.due_sources(after(4)).is_empty());
    assert_eq!(state.due_sources(after(5)), vec![DataSourceKind::Signal]);
    state.mark_poll_attempt(DataSourceKind::Signal, after(5));
    assert!(state.due_sources(after(5)).is_empty());
    assert_eq!(
        state.due_sources(after(300)),
        vec![DataSourceKind::Gateway, DataSourceKind::Signal, DataSourceKind::Clients]
    );
    state.set_poll_interval(DataSourceKind::Signal, None, after(6));
    assert_eq!(
        state.due_sources(after(600)),
        vec![DataSourceKind::Gateway, DataSourceKind::Clients, DataSourceKind::Wifi]
    );
}

#[test]
fn reports_go_to_their_own_sections() {
    let mut state = logged_in();
    state.snapshot.error = Some("old".to_string());
    let (generation, payload) = state.refresh_source(Report::Gateway(info("New")), NOW, after(1));
    assert_eq!(generation, 1);
    assert!(matches!(payload, DataPayload::Gateway(_)));
    assert_eq!(state.snapshot.device_summary[0].value, "New");
    assert_eq!(state.snapshot.error, None);
    assert_eq!(state.gateway_time.as_ref().unwrap().recorded_at, NOW);
    assert_eq!(state.snapshot.lte_metrics.unwrap().rsrp, Some(-90));

    let (generation, payload) = state.refresh_source(Report::Signal(cell(-80)), NOW, after(1));
    assert_eq!(generation, 1);
    match payload {
        DataPayload::Signal(signal) => assert_eq!(signal.lte_metrics.unwrap().rsrp, Some(-80)),
        _ => panic!("not a signal reading"),
    }
    assert_eq!(state.snapshot.lte_metrics.unwrap().rsrp, Some(-80));
    assert!(state.snapshot.five_g_metrics.is_none());

    let sim = SimRoot { sim: Some(SimData { imei: Some("1".to_string()), ..SimData::default() }) };
    state.refresh_source(Report::Sim(sim), NOW, after(1));
    assert_eq!(state.snapshot.sim_summary[0].label, "IMEI");
    assert_eq!(state.sim.cached.as_ref().unwrap()[0].value, "1");

    let one = ClientDevice { name: Some("tv".to_string()), ..ClientDevice::default() };
    let bands = ClientBands { ethernet: Some(vec![one]), ..ClientBands::default() };
    state.refresh_source(Report::Clients(ClientRoot { clients: Some(bands) }), NOW, after(1));
    assert_eq!(state.snapshot.clients[0].name, "tv");

    state.refresh_source(Report::Wifi(WifiConfig::default()), NOW, after(1));
    let (generation, _) = state.set_wifi_config(WifiConfig::default(), after(2));
    assert_eq!(generation, 2);
    assert_eq!(state.generation(DataSourceKind::Wifi), 2);
    assert_eq!(state.generation(DataSourceKind::Sim), 1);
}

#[test]
fn a_request_that_succeeds_is_sent_once() {
    let mut state = logged_in();
    let (phase, action) =
        state.request_with_reauth::<u8>("Test", RequestPhase::Ready, RequestEvent::Start, NOW);
    assert!(matches!(action, RequestAction::Send));
    assert_eq!(phase, RequestPhase::Sent);
    let (phase, action) =
        state.request_with_reauth("Test", phase, RequestEvent::Answered(Ok(7u8)), NOW);
    assert_eq!(phase, RequestPhase::Finished);
    assert!(matches!(action, RequestAction::Finish(Ok(7))));
    assert_eq!(state.reauth_not_before, None);
}

#[test]
fn an_expired_login_is_renewed_once() {
    let mut state = logged_in();
    let (phase, action) = state.request_with_reauth::<u8>(
        "Test",
        RequestPhase::Sent,
        RequestEvent::Answered(Err(expired())),
        NOW,
    );
    assert_eq!(phase, RequestPhase::LoggingIn);
    match action {
        RequestAction::Login { request, username, password } => {
            assert_eq!(request.endpoint, "auth/login");
            assert_eq!(username, "me");
            assert_eq!(password, "word");
        }
        _ => panic!("no login"),
    }
    let (phase, action) = state.request_with_reauth::<u8>(
        "Test",
        phase,
        RequestEvent::LoginAnswered(token_reply("t2")),
        NOW,
    );
    assert_eq!(phase, RequestPhase::Resent);
    assert!(matches!(action, RequestAction::Send));
    assert_eq!(state.client.token.as_deref(), Some("t2"));
    let (phase, action) = state.request_with_reauth::<u8>(
        "Test",
        phase,
        RequestEvent::Answered(Err(expired())),
        NOW,
    );
    assert_eq!(phase, RequestPhase::Finished);
    match action {
        RequestAction::Finish(Err(message)) => {
            assert_eq!(message, "Test failed: gateway authentication is still expired");
        }
        _ => panic!("not finished"),
    }
    assert_eq!(state.reauth_not_before, Some(after(20)));
    assert_eq!(
        state.snapshot.error.as_deref(),
        Some("Test failed: gateway authentication is still expired")
    );
    assert!(state.snapshot.lte_metrics.is_none());
}

#[test]
fn nothing_is_sent_after_a_failed_renewal() {
    let mut state = logged_in();
    state.request_with_reauth::<u8>(
        "Test",
        RequestPhase::LoggingIn,
        RequestEvent::LoginAnswered(Err(broken())),
        NOW,
    );
    assert_eq!(
        state.snapshot.error.as_deref(),
        Some("HTTP GET e returned 500 Internal Server Error")
    );
    let refused = |state: &mut AppState, now: Instant| {
        match state.request_with_reauth::<u8>("Test", RequestPhase::Ready, RequestEvent::Start, now)
        {
            (RequestPhase::Finished, RequestAction::Finish(Err(message))) => message,
            _ => panic!("sent"),
        }
    };
    assert_eq!(
        refused(&mut state, after(3)),
        "Test failed: gateway authentication is still expired; retrying after 17 seconds"
    );
    let just_before = Instant { nanos: after(20).nanos - 1 };
    assert_eq!(
        refused(&mut state, just_before),
        "Test failed: gateway authentication is still expired; retrying after 1 seconds"
    );
    let start = RequestEvent::<u8>::Start;
    let (phase, _) = state.request_with_reauth("Test", RequestPhase::Ready, start, after(20));
    assert_eq!(phase, RequestPhase::Sent);
    state.request_with_reauth("Test", phase, RequestEvent::Answered(Ok(1u8)), after(20));
    assert_eq!(state.reauth_not_before, None);
}

#[test]
fn without_a_password_there_is_no_renewal() {
    let mut state = new_state();
    let (phase, action) = state.request_with_reauth::<u8>(
        "Test",
        RequestPhase::Sent,
        RequestEvent::Answered(Err(expired())),
        NOW,
    );
    assert_eq!(phase, RequestPhase::Finished);
    match action {
        RequestAction::Finish(Err(message)) => {
            assert_eq!(message, "Test failed: no cached credentials are available");
        }
        _ => panic!("not finished"),
    }
    assert_eq!(state.reauth_not_before, Some(after(20)));
}

#[test]
fn other_failures_leave_the_login_alone() {
    let mut state = logged_in();
    state.snapshot.error = Some("old".to_string());
    let (phase, action) = state.request_with_reauth::<u8>(
        "Test",
        RequestPhase::Sent,
        RequestEvent::Answered(Err(broken())),
        NOW,
    );
    assert_eq!(phase, RequestPhase::Finished);
    assert!(matches!(action, RequestAction::Finish(Err(_))));
    assert_eq!(state.snapshot.error, None);
    assert_eq!(state.reauth_not_before, None);
    assert_eq!(state.client.token.as_deref(), Some("t"));
    assert!(state.snapshot.lte_metrics.is_some());
}

#[test]
fn commands_lead_to_their_steps() {
    let mut state = logged_in();
    let step = handle_command(
        &mut state,
        AppCommand::Login {
            gateway_ip: "10.0.0.9".to_string(),
            username: "you".to_string(),
            password: "p".to_string(),
            remember: true,
        },
        NOW,
    );
    match step {
        CommandStep::Login { request, username, password, remember } => {
            assert_eq!(request.url, "http://10.0.0.9:8080/TMI/v1/auth/login");
            assert_eq!((username.as_str(), password.as_str(), remember), ("you", "p", true));
        }
        _ => panic!("no login"),
    }
    assert_eq!(state.settings.gateway_ip, "10.0.0.9");
    assert_eq!(state.client.token, None);

    let step = handle_command(&mut state, AppCommand::RefreshAll, NOW);
    assert!(matches!(step, CommandStep::Refresh(sources) if sources == refresh_all()));
    let step =
        handle_command(&mut state, AppCommand::RefreshNow(DataSourceKind::Sim), NOW);
    assert!(matches!(step, CommandStep::Refresh(sources) if sources == vec![DataSourceKind::Sim]));
    let rate = AppCommand::SetPollingRate {
        source: DataSourceKind::Sim,
        interval: Some(Duration::from_secs(9)),
    };
    let step = handle_command(&mut state, rate, NOW);
    assert!(matches!(step, CommandStep::Done(told) if told.is_empty()));
    assert_eq!(state.sim.poll_interval, Some(Duration::from_secs(9)));
    assert_eq!(state.sim.next_poll, after(9));
    let save = AppCommand::SaveWifi(Box::new(WifiConfig::default()));
    let step = handle_command(&mut state, save, NOW);
    assert!(matches!(step, CommandStep::SaveWifi(_)));
    let step = handle_command(&mut state, AppCommand::Reboot, NOW);
    assert!(matches!(step, CommandStep::Reboot));
    let step = handle_command(&mut state, AppCommand::Shutdown, NOW);
    assert!(matches!(step, CommandStep::Stop));
    match handle_command(&mut state, AppCommand::Logout, NOW) {
        CommandStep::Done(told) => {
            assert_eq!(told.len(), 1);
            assert!(matches!(told[0], UiEvent::LoggedOut));
        }
        _ => panic!("not done"),
    }
}

#[test]
fn an_expired_login_is_announced_before_the_failure() {
    let state = logged_in();
    let error = "SIM refresh failed: gateway Authentication is still expired".to_string();
    let told = refresh_events(&state, DataSourceKind::Sim, Err(error.clone()));
    assert_eq!(told.len(), 2);
    assert!(matches!(&told[0], UiEvent::AuthExpired { message } if *message == error));
    match &told[1] {
        UiEvent::DataError { source, generation, error: text } => {
            assert_eq!((*source, *generation, text), (DataSourceKind::Sim, 0, &error));
        }
        _ => panic!("no failure"),
    }
    let told = refresh_events(&state, DataSourceKind::Sim, Err("timed out".to_string()));
    assert_eq!(told.len(), 1);
    let told = refresh_events(&state, DataSourceKind::Sim, Ok((3, DataPayload::Sim(vec![]))));
    assert!(matches!(&told[0], UiEvent::DataUpdated { generation: 3, .. }));
    assert_eq!(refresh_label(DataSourceKind::Wifi), "Wi-Fi refresh");
    assert_eq!(refresh_label(DataSourceKind::Gateway), "Gateway refresh");
}

#[test]
fn outcomes_of_commands_are_told() {
    let told = save_wifi_events(Ok((2, DataPayload::Wifi(Box::new(WifiConfig::default())))));
    assert_eq!(told.len(), 2);
    match &told[0] {
        UiEvent::DataUpdated { source, generation, .. } => {
            assert_eq!((*source, *generation), (DataSourceKind::Wifi, 2));
        }
        _ => panic!("no reading"),
    }
    match &told[1] {
        UiEvent::CommandSucceeded { command, message } => {
            assert_eq!((*command, message.as_str()), (CommandKind::SaveWifi, "Wi-Fi saved"));
        }
        _ => panic!("not saved"),
    }
    let failed = |event: &UiEvent, kind: CommandKind| match event {
        UiEvent::CommandFailed { command, error } => *command == kind && error == "no",
        _ => false,
    };
    let told = save_wifi_events(Err("no".to_string()));
    assert_eq!(told.len(), 1);
    assert!(failed(&told[0], CommandKind::SaveWifi));
    assert!(failed(&reboot_event(Err("no".to_string())), CommandKind::Reboot));
    assert!(failed(&login_event(Err("no".to_string())), CommandKind::Login));
    match reboot_event(Ok(())) {
        UiEvent::CommandSucceeded { command, message } => {
            assert_eq!((command, message.as_str()), (CommandKind::Reboot, "Reboot requested"));
        }
        _ => panic!("not requested"),
    }
    let initial = logged_in().initial_data(None);
    assert!(matches!(login_event(Ok(initial)), UiEvent::LoginSucceeded { .. }));
}

#[test]
fn a_reboot_clears_the_error() {
    let mut state = logged_in();
    state.snapshot.error = Some("old".to_string());
    state.reboot();
    assert_eq!(state.snapshot.error, None);
    assert!(state.snapshot.logged_in);
}

#[test]
fn the_screen_follows_the_events() {
    let mut screen = Screen::load(Settings {
        password: Some("kept".to_string()),
        ..Settings::default()
    });
    assert_eq!(screen.page(), Page::Login);
    assert_eq!(screen.page().name(), "login");
    assert_eq!(screen.password_text().as_deref(), Some("kept"));
    assert!(!screen.records_sample(true));

    let initial = logged_in().initial_data(None);
    let update = screen.handle_event(login_event(Ok(initial)));
    assert_eq!(update.status.as_deref(), Some("Logged in"));
    assert!(update.redraw && update.sample);
    assert_eq!(screen.page(), Page::Details);
    assert_eq!(screen.password_text(), None);
    assert!(screen.records_sample(true));
    assert!(!screen.records_sample(false));

    let mut state = logged_in();
    let sim = SimRoot { sim: Some(SimData { imei: Some("1".to_string()), ..SimData::default() }) };
    let (generation, payload) = state.refresh_sim(sim, NOW);
    let update = screen.handle_event(UiEvent::DataUpdated {
        source: DataSourceKind::Sim,
        generation,
        payload,
    });
    assert_eq!(update.status, None);
    assert!(update.redraw && !update.sample);
    assert_eq!(screen.snapshot.sim_summary.len(), 1);
    let blank = UiEvent::DataUpdated {
        source: DataSourceKind::Sim,
        generation: 2,
        payload: DataPayload::Sim(vec![]),
    };
    screen.handle_event(blank);
    assert_eq!(screen.snapshot.sim_summary.len(), 1);
    let (generation, payload) = state.refresh_signal(cell(-70), NOW);
    let update = screen.handle_event(UiEvent::DataUpdated {
        source: DataSourceKind::Signal,
        generation,
        payload,
    });
    assert!(update.sample);

    let failed = UiEvent::DataError {
        source: DataSourceKind::Sim,
        generation: 1,
        error: "timed out".to_string(),
    };
    let update = screen.handle_event(failed);
    assert_eq!(update.status.as_deref(), Some("timed out"));
    assert!(!update.redraw);
    let update = screen.handle_event(UiEvent::AuthExpired { message: "expired".to_string() });
    assert_eq!(update.status.as_deref(), Some("expired"));
    assert_eq!(screen.handle_event(UiEvent::AuthReauthStarted).status, None);
    let update = screen.handle_event(reboot_event(Ok(())));
    assert_eq!(update.status.as_deref(), Some("Reboot requested"));
    assert!(!update.redraw && !update.sample);
    let told = save_wifi_events(Ok((2, DataPayload::Wifi(Box::new(WifiConfig::default())))));
    let updates: Vec<(Option<String>, bool, bool)> = told
        .into_iter()
        .map(|event| screen.handle_event(event))
        .map(|update| (update.status, update.redraw, update.sample))
        .collect();
    assert_eq!(
        updates,
        vec![(None, true, false), (Some("Wi-Fi saved".to_string()), true, true)]
    );
    let update = screen.handle_event(login_event(Err("no".to_string())));
    assert_eq!(update.status.as_deref(), Some("no"));
    assert_eq!(screen.page(), Page::Details);

    let update = screen.handle_event(UiEvent::LoggedOut);
    assert_eq!(update.status.as_deref(), Some("Logged out"));
    assert_eq!(screen.page(), Page::Login);
}

#[test]
fn a_refresh_by_hand_is_told_when_it_ends() {
    let mut screen = Screen::load(Settings::default());
    let reading = |source: DataSourceKind, payload: DataPayload| UiEvent::DataUpdated {
        source,
        generation: 1,
        payload,
    };
    let wifi = || DataPayload::Wifi(Box::new(WifiConfig::default()));
    assert_eq!(screen.handle_event(reading(DataSourceKind::Wifi, wifi())).status, None);
    assert_eq!(screen.begin_refresh(), "Refreshing...");
    let sim = reading(DataSourceKind::Sim, DataPayload::Sim(vec![]));
    assert_eq!(screen.handle_event(sim).status, None);
    let update = screen.handle_event(reading(DataSourceKind::Wifi, wifi()));
    assert_eq!(update.status.as_deref(), Some("Refreshed"));
    assert!(!screen.refreshing);
    screen.begin_refresh();
    let failed = screen.handle_event(UiEvent::DataError {
        source: DataSourceKind::Gateway,
        generation: 1,
        error: "gateway gone".to_string(),
    });
    assert_eq!(failed.status.as_deref(), Some("gateway gone"));
    assert_eq!(screen.handle_event(reading(DataSourceKind::Wifi, wifi())).status, None);
    screen.begin_refresh();
    screen.handle_event(UiEvent::DataError {
        source: DataSourceKind::Wifi,
        generation: 1,
        error: "no".to_string(),
    });
    assert!(!screen.refreshing);
}

#[test]
fn a_warning_is_shown_in_place_of_the_greeting() {
    let mut screen = Screen::load(Settings::default());
    let initial = logged_in().initial_data(Some("disk full".to_string()));
    let update = screen.handle_event(login_event(Ok(initial)));
    assert_eq!(
        update.status.as_deref(),
        Some("Logged in, but credentials were not saved: disk full")
    );
}

#[test]
fn tabs_have_their_names() {
    let names: Vec<&str> =
        [Tab::Signal, Tab::Clients, Tab::Wifi, Tab::Details].iter().map(|tab| tab.name()).collect();
    assert_eq!(names, vec!["signal", "clients", "wifi", "details"]);
}
