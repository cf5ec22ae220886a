//! What the window shows, and how news of the gateway changes it.

use crate::events::{self, show_reading, CommandKind, DataPayload, UiEvent};
use crate::rows::{self, copy_or_empty};
use crate::settings::Settings;
use crate::snapshot::{self, preserve_optional_snapshot_data, Snapshot, SnapshotView};
use crate::source::DataSourceKind;
use vstd::prelude::*;
use vstd::string::*;

verus! {

/// The pages of the window.
#[derive(Debug, Clone, Copy, PartialEq, Eq, Structural)]
pub enum Page {
    Login,
    Details,
}

impl Page {
    /// The name of the page.
    pub open spec fn spec_name(self) -> Seq<char> {
        match self {
            Page::Login => "login"@,
            Page::Details => "details"@,
        }
    }

    /// The name of the page.
    pub fn name(self) -> (name: &'static str)
        ensures
            name@ == self.spec_name(),
    {
        match self {
            Page::Login => "login",
            Page::Details => "details",
        }
    }
}

/// The tabs of the details page.
#[derive(Debug, Clone, Copy, PartialEq, Eq, Structural)]
pub enum Tab {
    Signal,
    Clients,
    Wifi,
    Details,
}

impl Tab {
    /// The name of the tab.
    pub open spec fn spec_name(self) -> Seq<char> {
        match self {
            Tab::Signal => "signal"@,
            Tab::Clients => "clients"@,
            Tab::Wifi => "wifi"@,
            Tab::Details => "details"@,
        }
    }

    /// The name of the tab.
    pub fn name(self) -> (name: &'static str)
        ensures
            name@ == self.spec_name(),
    {
        match self {
            Tab::Signal => "signal",
            Tab::Clients => "clients",
            Tab::Wifi => "wifi",
            Tab::Details => "details",
        }
    }
}

/// What the window shows.
#[derive(Debug)]
pub struct Screen {
    pub settings: Settings,
    pub snapshot: Snapshot,
    /// Whether a refresh of all sources, asked for by hand, is on its way.
    pub refreshing: bool,
}

/// What there is to do after the screen has changed.
#[derive(Debug)]
pub struct ScreenUpdate {
    /// The new text of the status line, if it changes.
    pub status: Option<String>,
    /// Whether the window is to be filled anew.
    pub redraw: bool,
    /// Whether the signal figures are to be added to the graphs.
    pub sample: bool,
}

/// A [`ScreenUpdate`] as a value.
pub struct ScreenUpdateView {
    pub status: Option<Seq<char>>,
    pub redraw: bool,
    pub sample: bool,
}

impl View for ScreenUpdate {
    type V = ScreenUpdateView;

    open spec fn view(&self) -> ScreenUpdateView {
        ScreenUpdateView {
            status: snapshot::text_of(self.status),
            redraw: self.redraw,
            sample: self.sample,
        }
    }
}

/// The settings and the snapshot after an event.
pub open spec fn screen_after(
    settings: Settings,
    shown: SnapshotView,
    event: UiEvent,
) -> (Settings, SnapshotView) {
    match event {
        UiEvent::DataUpdated { payload, .. } => (
            settings,
            snapshot::with_sections_kept(events::with_reading(shown, payload@), shown),
        ),
        UiEvent::LoginSucceeded { initial } => (initial.settings, initial.snapshot@),
        UiEvent::LoggedOut => (
            settings,
            SnapshotView { logged_in: false, token_present: false, ..shown },
        ),
        _ => (settings, shown),
    }
}

/// Whether an event ends a refresh of all sources: a failure, or the reading that
/// comes last, the Wi-Fi configuration.
pub open spec fn ends_refresh(event: UiEvent) -> bool {
    match event {
        UiEvent::DataUpdated { source, .. } => source is Wifi,
        UiEvent::DataError { .. } => true,
        UiEvent::LoginSucceeded { .. } => true,
        UiEvent::LoggedOut => true,
        _ => false,
    }
}

/// Whether a refresh of all sources is still on its way after an event.
pub open spec fn refreshing_after(refreshing: bool, event: UiEvent) -> bool {
    refreshing && !ends_refresh(event)
}

/// What there is to do after an event: a message is shown, new data fills the
/// window, and new signal figures go to the graphs, as the figures of the moment
/// do after a login and after Wi-Fi settings were saved. The success of a refresh
/// that was asked for by hand is told.
pub open spec fn update_after(refreshing: bool, event: UiEvent) -> ScreenUpdateView {
    let told = |message: Seq<char>|
        ScreenUpdateView { status: Some(message), redraw: false, sample: false };
    match event {
        UiEvent::DataUpdated { source, .. } => ScreenUpdateView {
            status: if refreshing && source is Wifi {
                Some("Refreshed"@)
            } else {
                None
            },
            redraw: true,
            sample: source is Signal,
        },
        UiEvent::DataError { error, .. } => told(error@),
        UiEvent::LoginSucceeded { initial } => ScreenUpdateView {
            status: Some(
                match initial.warning {
                    Some(warning) => warning@,
                    None => "Logged in"@,
                },
            ),
            redraw: true,
            sample: true,
        },
        UiEvent::LoggedOut => ScreenUpdateView {
            status: Some("Logged out"@),
            redraw: true,
            sample: false,
        },
        UiEvent::CommandSucceeded { command, message } => ScreenUpdateView {
            status: Some(message@),
            redraw: command is SaveWifi,
            sample: command is SaveWifi,
        },
        UiEvent::CommandFailed { error, .. } => told(error@),
        UiEvent::AuthReauthStarted => ScreenUpdateView {
            status: None,
            redraw: false,
            sample: false,
        },
        UiEvent::AuthExpired { message } => told(message@),
    }
}

/// A message for the status line.
fn tell(message: String) -> (update: ScreenUpdate)
    ensures
        update@ == (ScreenUpdateView { status: Some(message@), redraw: false, sample: false }),
{
    ScreenUpdate { status: Some(message), redraw: false, sample: false }
}

impl Screen {
    /// Whether this is the screen of a program that has just started.
    pub open spec fn is_fresh(&self, settings: Settings) -> bool {
        &&& self.settings == settings
        &&& self.snapshot@ == snapshot::blank_view(settings.gateway_ip@, settings.username@)
        &&& !self.refreshing
    }

    /// What asking for a refresh of all sources makes of `before`, and what is said.
    pub open spec fn refresh_begun(&self, before: &Self, status: Seq<char>) -> bool {
        &&& self.settings == before.settings
        &&& self.snapshot == before.snapshot
        &&& self.refreshing
        &&& status == "Refreshing..."@
    }

    /// Whether a sample that is asked for is taken.
    pub open spec fn takes_sample(&self, wanted: bool) -> bool {
        self.snapshot.logged_in && wanted
    }

    /// The screen of a program that has just started.
    pub fn load(settings: Settings) -> (screen: Self)
        ensures
            screen.is_fresh(settings),
    {
        let shown: Snapshot = Snapshot::blank(
            settings.gateway_ip.clone(),
            settings.username.clone(),
        );
        Screen { settings, snapshot: shown, refreshing: false }
    }

    /// Notes that a refresh of all sources is asked for, and says so.
    pub fn begin_refresh(&mut self) -> (status: String)
        ensures
            final(self).refresh_begun(old(self), status@),
    {
        self.refreshing = true;
        "Refreshing...".to_owned()
    }

    /// Shows a fresh reading. A section that it leaves blank keeps what it had.
    pub fn refresh(&mut self, payload: &DataPayload)
        ensures
            final(self).settings == old(self).settings,
            final(self).refreshing == old(self).refreshing,
            final(self).snapshot@ == snapshot::with_sections_kept(
                events::with_reading(old(self).snapshot@, payload@),
                old(self).snapshot@,
            ),
    {
        let mut next: Snapshot = self.snapshot.clone();
        show_reading(&mut next, payload);
        self.snapshot = preserve_optional_snapshot_data(next, &self.snapshot);
    }

    /// Takes in an event and says what there is to do.
    pub fn handle_event(&mut self, event: UiEvent) -> (update: ScreenUpdate)
        ensures
            (final(self).settings, final(self).snapshot@) == screen_after(
                old(self).settings,
                old(self).snapshot@,
                event,
            ),
            final(self).refreshing == refreshing_after(old(self).refreshing, event),
            update@ == update_after(old(self).refreshing, event),
    {
        match event {
            UiEvent::DataUpdated { source, generation: _, payload } => {
                self.refresh(&payload);
                let status: Option<String> = if self.refreshing && source == DataSourceKind::Wifi {
                    self.refreshing = false;
                    Some("Refreshed".to_owned())
                } else {
                    None
                };
                ScreenUpdate { status, redraw: true, sample: source == DataSourceKind::Signal }
            },
            UiEvent::DataError { source: _, generation: _, error } => {
                self.refreshing = false;
                tell(error)
            },
            UiEvent::LoginSucceeded { initial } => {
                self.refreshing = false;
                let data = *initial;
                self.settings = data.settings;
                self.snapshot = data.snapshot;
                let status: String = match data.warning {
                    Some(warning) => warning,
                    None => "Logged in".to_owned(),
                };
                ScreenUpdate { status: Some(status), redraw: true, sample: true }
            },
            UiEvent::LoggedOut => {
                self.refreshing = false;
                self.snapshot.logged_in = false;
                self.snapshot.token_present = false;
                ScreenUpdate {
                    status: Some("Logged out".to_owned()),
                    redraw: true,
                    sample: false,
                }
            },
            UiEvent::CommandSucceeded { command, message } => {
                let saved: bool = command == CommandKind::SaveWifi;
                ScreenUpdate { status: Some(message), redraw: saved, sample: saved }
            },
            UiEvent::CommandFailed { command: _, error } => tell(error),
            UiEvent::AuthReauthStarted => ScreenUpdate {
                status: None,
                redraw: false,
                sample: false,
            },
            UiEvent::AuthExpired { message } => tell(message),
        }
    }

    /// The page to show.
    pub open spec fn shown_page(&self) -> Page {
        if self.snapshot.logged_in {
            Page::Details
        } else {
            Page::Login
        }
    }

    /// The text to put into the password field, if it is to be filled.
    pub open spec fn offered_password(&self) -> Option<Seq<char>> {
        if self.snapshot.logged_in {
            None
        } else {
            Some(rows::text_or_empty(self.settings.password))
        }
    }

    /// The page to show.
    pub fn page(&self) -> (page: Page)
        ensures
            page == self.shown_page(),
    {
        if self.snapshot.logged_in {
            Page::Details
        } else {
            Page::Login
        }
    }

    /// The text to put into the password field: the password of the settings, but
    /// nothing while logged in.
    pub fn password_text(&self) -> (text: Option<String>)
        ensures
            snapshot::text_of(text) == self.offered_password(),
    {
        if self.snapshot.logged_in {
            None
        } else {
            Some(copy_or_empty(&self.settings.password))
        }
    }

    /// Whether a sample that is asked for is taken: only while logged in.
    pub fn records_sample(&self, wanted: bool) -> (recorded: bool)
        ensures
            recorded == self.takes_sample(wanted),
    {
        self.snapshot.logged_in && wanted
    }
}

/// A failure during a refresh by hand is the last that is told of the refresh: no
/// reading that follows it says that the refresh went well.
pub proof fn a_failed_refresh_is_not_called_a_success(failure: UiEvent, later: UiEvent)
    requires
        failure is DataError,
        later is DataUpdated,
    ensures
        update_after(true, failure).status is Some,
        update_after(!ends_refresh(failure), later).status is None,
{
}

/// No news but a login or a logout changes which page is shown.
pub proof fn only_logins_turn_the_page(settings: Settings, shown: SnapshotView, event: UiEvent)
    requires
        !(event is LoginSucceeded),
        !(event is LoggedOut),
    ensures
        screen_after(settings, shown, event).1.logged_in == shown.logged_in,
{
}

} // verus!
