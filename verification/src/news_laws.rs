//! What commands and news promise: what a command leads to, what the user is told, and
//! what the window shows of it.

use crate::actor::{self, CommandStep};
use crate::app::{self, AppState};
use crate::app_laws;
use crate::events::{AppCommand, DataPayload, InitialData, UiEvent};
use crate::schedule_laws;
use crate::screen::{self, Page, Screen, ScreenUpdate, Tab};
use crate::settings::Settings;
use crate::snapshot::{self, SnapshotView};
use crate::source::DataSourceKind;
use crate::text;
use crate::time::Instant;
use vstd::prelude::*;
use vstd::string::*;

verus! {

/// A command leads to its own step, with all that was given with it: a login sends what
/// was typed, a refresh reads the source that was asked for or every source once, a save
/// hands on the configuration. Only a login, a logout and a change of a polling rate
/// change the state before anything is sent.
pub proof fn a_command_leads_to_its_own_step(
    before: AppState,
    after: AppState,
    command: AppCommand,
    now: Instant,
    step: CommandStep,
)
    requires
        actor::command_taken(before, after, command, now),
        actor::step_fits(after, command, step),
    ensures
        command matches AppCommand::Login { gateway_ip, username, password, remember } ==> {
            &&& step is Login
            &&& step->username == username
            &&& step->password == password
            &&& step->remember == remember
            &&& step->request@ == after.client.login_request()
            &&& after.settings.gateway_ip == gateway_ip
            &&& after.settings.username == username
            &&& after.client.settings.gateway_ip == gateway_ip
            &&& after.client.token is None
            &&& after.cached_password == Some(password)
        },
        command is Logout ==> {
            &&& step is Done
            &&& step->Done_0@.len() == 1
            &&& step->Done_0@[0] is LoggedOut
            &&& after.client.token is None
            &&& after.cached_password is None
            &&& !after.snapshot.logged_in
        },
        command matches AppCommand::RefreshNow(source) ==> {
            &&& step is Refresh
            &&& step->Refresh_0@.len() == 1
            &&& step->Refresh_0@[0] == source
        },
        command is RefreshAll ==> {
            &&& step is Refresh
            &&& step->Refresh_0@ == app::all_sources()
            &&& step->Refresh_0@.no_duplicates()
            &&& step->Refresh_0@.len() == 5
            &&& forall|kind: DataSourceKind| #[trigger] step->Refresh_0@.contains(kind)
        },
        command matches AppCommand::SetPollingRate { source, interval } ==> {
            &&& step is Done
            &&& step->Done_0@.len() == 0
            &&& after.interval_of(source) == interval
        },
        command matches AppCommand::SaveWifi(wifi) ==> step is SaveWifi && step->SaveWifi_0 == wifi,
        command is Reboot ==> step is Reboot,
        command is Shutdown ==> step is Stop,
        !(command is Login) && !(command is Logout) && !(command is SetPollingRate) ==> after
            == before,
{
    if command is RefreshAll {
        assert forall|kind: DataSourceKind| #[trigger] step->Refresh_0@.contains(kind) by {
            schedule_laws::every_source_is_listed_once(kind);
        }
        schedule_laws::every_source_is_listed_once(DataSourceKind::Gateway);
    }
    if let AppCommand::SetPollingRate { source, interval } = command {
        schedule_laws::setting_one_interval_leaves_the_others(
            before,
            after,
            source,
            interval,
            now,
            source,
        );
    }
}

/// The generation that a state has reached for a source.
pub open spec fn generation_reached(state: AppState, source: DataSourceKind) -> u64 {
    if source is Gateway {
        state.gateway.generation
    } else if source is Signal {
        state.signal.generation
    } else if source is Sim {
        state.sim.generation
    } else if source is Clients {
        state.clients.generation
    } else {
        state.wifi.generation
    }
}

/// A refresh that went well is told once, with its source, its generation and what was
/// read. One that failed is told last as a failure of that source at the generation
/// that stands; before it an expired login is announced exactly if the failure speaks
/// of authentication, in whatever case.
pub proof fn a_refresh_is_told_as_it_went(
    state: AppState,
    source: DataSourceKind,
    outcome: Result<(u64, DataPayload), String>,
)
    ensures
        ({
            let told = actor::refresh_told(state, source, outcome);
            &&& outcome is Ok ==> {
                &&& told.len() == 1
                &&& told[0] is DataUpdated
                &&& told[0]->DataUpdated_source == source
                &&& told[0]->DataUpdated_generation == outcome->Ok_0.0
                &&& told[0]->payload == outcome->Ok_0.1
            }
            &&& outcome matches Err(error) ==> {
                let announced = text::occurs_in(text::lower(error@), "authentication"@);
                &&& told.last() is DataError
                &&& told.last()->DataError_source == source
                &&& told.last()->DataError_generation == generation_reached(state, source)
                &&& told.last()->DataError_error == error
                &&& announced ==> told.len() == 2 && told[0] is AuthExpired
                    && told[0]->AuthExpired_message == error
                &&& !announced ==> told.len() == 1
            }
        }),
{
}

/// What the user is told of a command names that command and says what came of it, word
/// for word where it failed.
pub proof fn outcomes_are_told_of_their_command(
    login: Result<InitialData, String>,
    saved: Result<(u64, DataPayload), String>,
    told_of_save: Seq<UiEvent>,
    rebooted: Result<(), String>,
    told_of_reboot: UiEvent,
)
    requires
        actor::is_told_of_save(told_of_save, saved),
        actor::is_told_of_reboot(told_of_reboot, rebooted),
    ensures
        login is Ok <==> actor::login_told(login) is LoginSucceeded,
        login matches Ok(initial) ==> *actor::login_told(login)->initial == initial,
        login matches Err(error) ==> {
            &&& actor::login_told(login) is CommandFailed
            &&& actor::login_told(login)->CommandFailed_command is Login
            &&& actor::login_told(login)->CommandFailed_error == error
        },
        saved is Ok ==> {
            &&& told_of_save.len() == 2
            &&& told_of_save[0] is DataUpdated
            &&& told_of_save[0]->DataUpdated_source is Wifi
            &&& told_of_save[0]->DataUpdated_generation == saved->Ok_0.0
            &&& told_of_save[0]->payload == saved->Ok_0.1
            &&& told_of_save[1] is CommandSucceeded
            &&& told_of_save[1]->CommandSucceeded_command is SaveWifi
            &&& told_of_save[1]->CommandSucceeded_message@ == "Wi-Fi saved"@
        },
        saved matches Err(error) ==> {
            &&& told_of_save.len() == 1
            &&& told_of_save[0] is CommandFailed
            &&& told_of_save[0]->CommandFailed_command is SaveWifi
            &&& told_of_save[0]->CommandFailed_error == error
        },
        rebooted is Ok ==> {
            &&& told_of_reboot is CommandSucceeded
            &&& told_of_reboot->CommandSucceeded_command is Reboot
            &&& told_of_reboot->CommandSucceeded_message@ == "Reboot requested"@
        },
        rebooted matches Err(error) ==> {
            &&& told_of_reboot is CommandFailed
            &&& told_of_reboot->CommandFailed_command is Reboot
            &&& told_of_reboot->CommandFailed_error == error
        },
{
}

/// Every message reaches the status line word for word: a failure, an expired login and
/// the outcome of a command. A login says so unless it has a warning, a logout says so,
/// and readings are silent but for the last of a refresh by hand.
pub proof fn messages_reach_the_status_line(refreshing: bool, event: UiEvent)
    ensures
        ({
            let status = screen::update_after(refreshing, event).status;
            &&& event matches UiEvent::DataError { error, .. } ==> status == Some(error@)
            &&& event matches UiEvent::CommandFailed { error, .. } ==> status == Some(error@)
            &&& event matches UiEvent::AuthExpired { message } ==> status == Some(message@)
            &&& event matches UiEvent::CommandSucceeded { message, .. } ==> status == Some(message@)
            &&& event matches UiEvent::LoginSucceeded { initial } ==> {
                &&& initial.warning matches Some(warning) ==> status == Some(warning@)
                &&& initial.warning is None ==> status == Some("Logged in"@)
            }
            &&& event is LoggedOut ==> status == Some("Logged out"@)
            &&& event is AuthReauthStarted ==> status is None
            &&& event matches UiEvent::DataUpdated { source, .. } ==> {
                &&& status is Some <==> refreshing && source == DataSourceKind::Wifi
                &&& status is Some ==> status->0 == "Refreshed"@
            }
        }),
{
}

/// The window is filled anew whenever what it shows may have changed: where it is not,
/// the settings and the snapshot are as they were. Readings, logins, logouts and saved
/// settings fill it; signal figures are sampled when they are read, after a login and
/// after a save.
pub proof fn the_window_follows_what_is_shown(
    settings: Settings,
    shown: SnapshotView,
    refreshing: bool,
    event: UiEvent,
)
    ensures
        ({
            let update = screen::update_after(refreshing, event);
            let saved = event is CommandSucceeded && event->CommandSucceeded_command is SaveWifi;
            &&& !update.redraw ==> screen::screen_after(settings, shown, event).0 == settings
                && app_laws::shows_the_same(
                screen::screen_after(settings, shown, event).1,
                shown,
            )
            &&& update.redraw <==> event is DataUpdated || event is LoginSucceeded || event
                is LoggedOut || saved
            &&& update.sample <==> event is DataUpdated && event->DataUpdated_source is Signal
                || event is LoginSucceeded || saved
        }),
{
}

/// A refresh by hand ends with its last reading, with any failure, and with a login or a
/// logout, and with nothing else.
pub proof fn a_refresh_ends_with_its_last_reading(event: UiEvent)
    ensures
        event is DataUpdated ==> (screen::ends_refresh(event) <==> event->DataUpdated_source
            == app::all_sources().last()),
        event is DataError || event is LoginSucceeded || event is LoggedOut
            ==> screen::ends_refresh(event),
        event is CommandSucceeded || event is CommandFailed || event is AuthReauthStarted || event
            is AuthExpired ==> !screen::ends_refresh(event),
{
}

/// A reading that is shown in the window fills its own section with what was read,
/// unless it is blank and there was something before, and leaves the other sections, the
/// login and the settings alone. A login replaces everything by what it brought; a logout
/// takes only the login.
pub proof fn news_change_what_they_are_of(settings: Settings, shown: SnapshotView, event: UiEvent)
    ensures
        ({
            let after = screen::screen_after(settings, shown, event).1;
            &&& event is LoginSucceeded ==> {
                &&& screen::screen_after(settings, shown, event).0 == event->initial.settings
                &&& app_laws::shows_the_same(after, event->initial.snapshot@)
            }
            &&& !(event is LoginSucceeded) ==> screen::screen_after(settings, shown, event).0
                == settings
            &&& event is LoggedOut ==> !after.logged_in && !after.token_present
                && app_laws::shows_the_same(
                after,
                SnapshotView {
                    logged_in: after.logged_in,
                    token_present: after.token_present,
                    ..shown
                },
            )
            &&& event is DataUpdated ==> {
                let reading = event->payload@;
                &&& after.error is None
                &&& after.logged_in == shown.logged_in
                &&& after.token_present == shown.token_present
                &&& after.gateway_ip == shown.gateway_ip
                &&& after.username == shown.username
                &&& reading is Gateway ==> {
                    &&& after.device_summary == reading->Gateway_0.device_summary
                    &&& after.general_summary == reading->Gateway_0.general_summary
                }
                &&& !(reading is Gateway) ==> {
                    &&& after.device_summary == shown.device_summary
                    &&& after.general_summary == shown.general_summary
                }
                &&& reading is Signal ==> {
                    &&& after.lte_summary == reading->Signal_0.lte_summary
                    &&& after.five_g_summary == reading->Signal_0.five_g_summary
                    &&& after.lte_metrics == reading->Signal_0.lte_metrics
                    &&& after.five_g_metrics == reading->Signal_0.five_g_metrics
                }
                &&& !(reading is Signal) ==> {
                    &&& after.lte_summary == shown.lte_summary
                    &&& after.five_g_summary == shown.five_g_summary
                    &&& after.lte_metrics == shown.lte_metrics
                    &&& after.five_g_metrics == shown.five_g_metrics
                }
                &&& reading is Sim && reading->Sim_0.len() > 0 ==> after.sim_summary
                    == reading->Sim_0
                &&& !(reading is Sim && reading->Sim_0.len() > 0) ==> after.sim_summary
                    == shown.sim_summary
                &&& reading is Clients && reading->Clients_0.len() > 0 ==> after.clients
                    == reading->Clients_0
                &&& !(reading is Clients && reading->Clients_0.len() > 0) ==> after.clients
                    == shown.clients
                &&& reading is Wifi ==> after.wifi == Some(reading->Wifi_0)
                &&& !(reading is Wifi) ==> after.wifi == shown.wifi
            }
        }),
{
}

/// Somebody who is logged in sees the details and is offered no password; anybody else
/// sees the login page, with the password of the settings where there is one.
pub proof fn the_page_follows_the_login(window: Screen)
    ensures
        window.shown_page() == Page::Details <==> window.snapshot.logged_in,
        window.shown_page() == Page::Login <==> !window.snapshot.logged_in,
        window.offered_password() is None <==> window.snapshot.logged_in,
        !window.snapshot.logged_in ==> {
            &&& window.settings.password matches Some(password) ==> window.offered_password()->0
                == password@
            &&& window.settings.password is None ==> window.offered_password()->0.len() == 0
        },
{
}

/// No two pages and no two tabs have the same name.
pub proof fn pages_and_tabs_are_told_apart(one: Page, other: Page, tab: Tab, next: Tab)
    ensures
        one.spec_name() == other.spec_name() ==> one == other,
        tab.spec_name() == next.spec_name() ==> tab == next,
        Page::Details.spec_name() == Tab::Details.spec_name(),
{
    reveal_strlit("login");
    reveal_strlit("details");
    reveal_strlit("signal");
    reveal_strlit("clients");
    reveal_strlit("wifi");
    assert("login"@.len() == 5 && "details"@.len() == 7);
    assert("signal"@.len() == 6 && "clients"@.len() == 7 && "wifi"@.len() == 4);
    assert("clients"@[0] != "details"@[0]);
}

/// A window starts with the settings and nothing to show, and with no refresh on its way.
pub proof fn a_window_starts_blank(window: Screen, settings: Settings)
    requires
        window.is_fresh(settings),
    ensures
        window.settings == settings,
        window.shown_page() == Page::Login,
        window.snapshot.gateway_ip@ == settings.gateway_ip@,
        window.snapshot.username@ == settings.username@,
        window.snapshot.device_summary@.len() == 0,
        window.snapshot.clients@.len() == 0,
        window.snapshot.wifi is None,
        !window.refreshing,
{
    assert(window.snapshot@.device_summary.len() == window.snapshot.device_summary@.len());
    assert(window.snapshot@.clients.len() == window.snapshot.clients@.len());
    assert(window.snapshot@.wifi == snapshot::wifi_of(window.snapshot.wifi));
}

/// Asking for a refresh says so and changes nothing that is shown; it is on its way until
/// an event ends it, and no event starts one.
pub proof fn a_refresh_is_on_its_way_until_it_ends(
    before: Screen,
    after: Screen,
    status: Seq<char>,
    event: UiEvent,
)
    requires
        after.refresh_begun(&before, status),
    ensures
        after.refreshing,
        after.settings == before.settings,
        after.snapshot == before.snapshot,
        status == "Refreshing..."@,
        screen::refreshing_after(after.refreshing, event) <==> !screen::ends_refresh(event),
        !screen::refreshing_after(false, event),
{
}

/// Samples are taken when asked for, and only while somebody is logged in.
pub proof fn samples_are_taken_while_logged_in(window: Screen)
    ensures
        window.takes_sample(true) <==> window.snapshot.logged_in,
        !window.takes_sample(false),
{
}

/// What there is to do as a value is what there is to do.
pub proof fn an_update_is_done_as_it_is(update: ScreenUpdate)
    ensures
        update@.redraw == update.redraw,
        update@.sample == update.sample,
        update@.status is Some <==> update.status is Some,
        update.status matches Some(message) ==> update@.status->0 == message@,
{
}

} // verus!
