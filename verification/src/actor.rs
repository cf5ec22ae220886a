//! What a command leads to, and what the user is told of its outcome.

use crate::app::{self, AppState};
use crate::auth;
use crate::events::{AppCommand, CommandKind, DataPayload, InitialData, UiEvent};
use crate::gateway::HttpRequest;
use crate::models::WifiConfig;
use crate::source::{self, DataSourceKind};
use crate::text::{self, contains_text, to_lower};
use crate::time::Instant;
use vstd::prelude::*;
use vstd::string::*;

verus! {

/// How often commands are looked for and due sources polled, in milliseconds.
pub const TICK_MILLIS: u64 = 250;

/// What is to be done for a command.
#[derive(Debug)]
pub enum CommandStep {
    /// Nothing more: this is what the user is told.
    Done(Vec<UiEvent>),
    /// Send the login request with the name and the password.
    Login { request: HttpRequest, username: String, password: String, remember: bool },
    /// Refresh these sources, one after the other.
    Refresh(Vec<DataSourceKind>),
    SaveWifi(Box<WifiConfig>),
    Reboot,
    Stop,
}

/// Whether a command can be carried out at `now`: a poll interval must not reach
/// beyond the last instant.
pub open spec fn can_handle(state: AppState, command: AppCommand, now: Instant) -> bool {
    command matches AppCommand::SetPollingRate { source, interval } ==> {
        ||| state.interval_of(source) == interval
        ||| now.nanos + source::first_delay(interval) <= u128::MAX
    }
}

/// What the state is after a command was taken, before anything was sent.
pub open spec fn command_taken(
    before: AppState,
    after: AppState,
    command: AppCommand,
    now: Instant,
) -> bool {
    match command {
        AppCommand::Login { gateway_ip, username, password, .. } => after.login_begun(
            &before,
            gateway_ip,
            username,
            password,
        ),
        AppCommand::Logout => after.logged_out_from(&before),
        AppCommand::SetPollingRate { source, interval } => after.source_interval_set(
            &before,
            source,
            interval,
            now,
        ),
        _ => after == before,
    }
}

/// What a command leads to.
pub open spec fn step_fits(after: AppState, command: AppCommand, step: CommandStep) -> bool {
    match command {
        AppCommand::Login { username, password, remember, .. } => {
            &&& step matches CommandStep::Login {
                request,
                username: name,
                password: word,
                remember: keep,
            }
            &&& request@ == after.client.login_request()
            &&& name == username
            &&& word == password
            &&& keep == remember
        },
        AppCommand::Logout => step matches CommandStep::Done(told) && told@ =~= seq![
            UiEvent::LoggedOut,
        ],
        AppCommand::RefreshNow(source) => step matches CommandStep::Refresh(sources) && sources@
            =~= seq![source],
        AppCommand::RefreshAll => step matches CommandStep::Refresh(sources) && sources@
            =~= app::all_sources(),
        AppCommand::SetPollingRate { .. } => step matches CommandStep::Done(told) && told@.len()
            == 0,
        AppCommand::SaveWifi(wifi) => step == CommandStep::SaveWifi(wifi),
        AppCommand::Reboot => step == CommandStep::Reboot,
        AppCommand::Shutdown => step == CommandStep::Stop,
    }
}

/// Takes a command and says what is to be done for it.
pub fn handle_command(
    state: &mut AppState,
    command: AppCommand,
    now: Instant,
) -> (step: CommandStep)
    requires
        can_handle(*old(state), command, now),
    ensures
        command_taken(*old(state), *final(state), command, now),
        step_fits(*final(state), command, step),
{
    match command {
        AppCommand::Login { gateway_ip, username, password, remember } => {
            let request: HttpRequest = state.login(
                gateway_ip,
                username.clone(),
                password.clone(),
                );
            CommandStep::Login { request, username, password, remember }
        },
        AppCommand::Logout => {
            state.logout();
            CommandStep::Done(vec![UiEvent::LoggedOut])
        },
        AppCommand::RefreshNow(source) => CommandStep::Refresh(vec![source]),
        AppCommand::RefreshAll => CommandStep::Refresh(refresh_all()),
        AppCommand::SetPollingRate { source, interval } => {
            state.set_poll_interval(source, interval, now);
            CommandStep::Done(Vec::new())
        },
        AppCommand::SaveWifi(wifi) => CommandStep::SaveWifi(wifi),
        AppCommand::Reboot => CommandStep::Reboot,
        AppCommand::Shutdown => CommandStep::Stop,
    }
}

/// The sources, in the order in which they are refreshed together.
pub fn refresh_all() -> (sources: Vec<DataSourceKind>)
    ensures
        sources@ == app::all_sources(),
{
    let sources: Vec<DataSourceKind> = vec![
        DataSourceKind::Gateway,
        DataSourceKind::Signal,
        DataSourceKind::Sim,
        DataSourceKind::Clients,
        DataSourceKind::Wifi,
    ];
    assert(sources@ =~= app::all_sources());
    sources
}

/// Whether a failure is announced as an expired login.
pub open spec fn names_authentication(error: Seq<char>) -> bool {
    text::occurs_in(text::lower(error), "authentication"@)
}

/// What the user is told of a refresh.
pub open spec fn refresh_told(
    state: AppState,
    source: DataSourceKind,
    outcome: Result<(u64, DataPayload), String>,
) -> Seq<UiEvent> {
    match outcome {
        Ok((generation, payload)) => seq![UiEvent::DataUpdated { source, generation, payload }],
        Err(error) => {
            let failure = UiEvent::DataError {
                source,
                generation: state.generation_of(source),
                error,
            };
            if names_authentication(error@) {
                seq![UiEvent::AuthExpired { message: error }, failure]
            } else {
                seq![failure]
            }
        },
    }
}

/// What the user is told of a refresh: the reading, or the failure, and before
/// it that the login has expired if the failure says so.
pub fn refresh_events(
    state: &AppState,
    source: DataSourceKind,
    outcome: Result<(u64, DataPayload), String>,
) -> (told: Vec<UiEvent>)
    ensures
        told@ == refresh_told(*state, source, outcome),
{
    let mut told: Vec<UiEvent> = Vec::new();
    match outcome {
        Ok((generation, payload)) => {
            told.push(UiEvent::DataUpdated { source, generation, payload });
        },
        Err(error) => {
            if contains_text(to_lower(error.as_str()).as_str(), "authentication") {
                told.push(UiEvent::AuthExpired { message: error.clone() });
            }
            let generation: u64 = state.generation(source);
            told.push(UiEvent::DataError { source, generation, error });
        },
    }
    assert(told@ =~= refresh_told(*state, source, outcome));
    told
}

/// What the user is told of a login.
pub open spec fn login_told(outcome: Result<InitialData, String>) -> UiEvent {
    match outcome {
        Ok(initial) => UiEvent::LoginSucceeded { initial: Box::new(initial) },
        Err(error) => UiEvent::CommandFailed { command: CommandKind::Login, error },
    }
}

/// What the user is told of a login.
pub fn login_event(outcome: Result<InitialData, String>) -> (told: UiEvent)
    ensures
        told == login_told(outcome),
{
    match outcome {
        Ok(initial) => UiEvent::LoginSucceeded { initial: Box::new(initial) },
        Err(error) => UiEvent::CommandFailed { command: CommandKind::Login, error },
    }
}

/// Whether this is what the user is told of a saved Wi-Fi configuration.
pub open spec fn is_told_of_save(
    told: Seq<UiEvent>,
    outcome: Result<(u64, DataPayload), String>,
) -> bool {
    match outcome {
        Ok((generation, payload)) => {
            &&& told.len() == 2
            &&& told[0] == (UiEvent::DataUpdated {
                source: DataSourceKind::Wifi,
                generation,
                payload,
            })
            &&& told[1] matches UiEvent::CommandSucceeded { command, message } && command
                == CommandKind::SaveWifi && message@ == "Wi-Fi saved"@
        },
        Err(error) => told =~= seq![
            UiEvent::CommandFailed { command: CommandKind::SaveWifi, error },
        ],
    }
}

/// What the user is told of a saved Wi-Fi configuration: the reading, then that
/// it was saved; or the failure alone.
pub fn save_wifi_events(outcome: Result<(u64, DataPayload), String>) -> (told: Vec<UiEvent>)
    ensures
        is_told_of_save(told@, outcome),
{
    match outcome {
        Ok((generation, payload)) => vec![
            UiEvent::DataUpdated { source: DataSourceKind::Wifi, generation, payload },
            UiEvent::CommandSucceeded {
                command: CommandKind::SaveWifi,
                message: "Wi-Fi saved".to_owned(),
            },
        ],
        Err(error) => vec![UiEvent::CommandFailed { command: CommandKind::SaveWifi, error }],
    }
}

/// Whether this is what the user is told of a request to reboot.
pub open spec fn is_told_of_reboot(told: UiEvent, outcome: Result<(), String>) -> bool {
    match outcome {
        Ok(_) => {
            &&& told matches UiEvent::CommandSucceeded { command, message }
            &&& command == CommandKind::Reboot
            &&& message@ == "Reboot requested"@
        },
        Err(error) => told == (UiEvent::CommandFailed { command: CommandKind::Reboot, error }),
    }
}

/// What the user is told of a request to reboot.
pub fn reboot_event(outcome: Result<(), String>) -> (told: UiEvent)
    ensures
        is_told_of_reboot(told, outcome),
{
    match outcome {
        Ok(()) => UiEvent::CommandSucceeded {
            command: CommandKind::Reboot,
            message: "Reboot requested".to_owned(),
        },
        Err(error) => UiEvent::CommandFailed { command: CommandKind::Reboot, error },
    }
}

/// A login that stays expired is always announced as such, whether a new login
/// did not help or the backoff still holds, and whatever the request is called.
pub proof fn an_expired_login_is_announced(action: Seq<char>, until: Instant, now: Instant)
    ensures
        names_authentication(auth::still_expired_message(action)),
        names_authentication(auth::backoff_message(action, until, now)),
{
    reveal_strlit(" failed: gateway authentication is still expired");
    reveal_strlit("authentication");
    let word = "authentication"@;
    let short = text::lower(auth::still_expired_message(action));
    let long = text::lower(auth::backoff_message(action, until, now));
    let at = action.len() as int + 17;
    assert(short.subrange(at, at + word.len()) =~= word);
    assert(long.subrange(at, at + word.len()) =~= word);
    assert(text::occurs_at(short, word, at));
    assert(text::occurs_at(long, word, at));
}

} // verus!
