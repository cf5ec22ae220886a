//! The steps of a login.

use crate::app::AppState;
use crate::events::InitialData;
use crate::gateway::{self, BootstrapData, GatewayError};
use crate::models::AuthResponse;
use crate::time::Instant;
use vstd::prelude::*;

verus! {

/// How far a login has come.
#[derive(Debug, Clone, Copy, PartialEq, Eq, Structural)]
pub enum LoginPhase {
    /// The login request is on its way.
    Authenticating,
    /// The first reports are being read.
    Reading,
    /// The settings are being saved.
    Saving,
    /// The outcome is known.
    Finished,
}

/// What moves a login on.
#[derive(Debug)]
pub enum LoginEvent {
    Answered(Result<AuthResponse, GatewayError>),
    Read(Result<BootstrapData, GatewayError>),
    Saved(Result<(), String>),
}

/// What is to be done next for a login.
#[derive(Debug)]
pub enum LoginAction {
    /// Read the first reports.
    Read,
    /// Save the settings.
    Save,
    /// Nothing more: this is the outcome.
    Finish(Result<InitialData, String>),
}

/// Whether an event fits the phase that a login is in.
pub open spec fn fits(phase: LoginPhase, event: LoginEvent) -> bool {
    match event {
        LoginEvent::Answered(_) => phase is Authenticating,
        LoginEvent::Read(_) => phase is Reading,
        LoginEvent::Saved(_) => phase is Saving,
    }
}

/// Whether a login has failed with a message.
pub open spec fn has_failed(step: (LoginPhase, LoginAction), message: Seq<char>) -> bool {
    &&& step.0 is Finished
    &&& step.1 matches LoginAction::Finish(Err(error)) && error@ == message
}

/// Whether a login has ended with what the state shows, and a warning if the
/// settings could not be saved.
pub open spec fn has_succeeded(
    step: (LoginPhase, LoginAction),
    state: AppState,
    save_error: Option<Seq<char>>,
) -> bool {
    &&& step.0 is Finished
    &&& step.1 matches LoginAction::Finish(Ok(initial)) && state.is_initial_data(
        initial,
        save_error,
    )
}

/// The phase after an event: a token comes before the reports, and the reports
/// come before anything is saved.
pub open spec fn phase_after(event: LoginEvent, remember: bool) -> LoginPhase {
    match event {
        LoginEvent::Answered(reply) => if gateway::login_failure(reply) is None {
            LoginPhase::Reading
        } else {
            LoginPhase::Finished
        },
        LoginEvent::Read(reply) => if reply is Ok && remember {
            LoginPhase::Saving
        } else {
            LoginPhase::Finished
        },
        LoginEvent::Saved(_) => LoginPhase::Finished,
    }
}

impl AppState {
    /// What moving a login on by one event makes of `before`, and what is to be done
    /// next.
    pub open spec fn login_stepped(
        &self,
        before: &Self,
        event: LoginEvent,
        password: String,
        remember: bool,
        now: Instant,
        step: (LoginPhase, LoginAction),
    ) -> bool {
        &&& step.0 == phase_after(event, remember)
        &&& match event {
            LoginEvent::Answered(reply) => {
                &&& self.same_but_token(before)
                &&& self.client.token == gateway::token_after(reply, before.client.token)
                &&& match gateway::login_failure(reply) {
                    Some(message) => has_failed(step, message),
                    None => step.1 is Read,
                }
            },
            LoginEvent::Read(Err(error)) => {
                &&& *self == *before
                &&& has_failed(step, gateway::error_text(error))
            },
            LoginEvent::Read(Ok(bootstrap)) => {
                &&& self.login_shown(before, bootstrap, password, remember, now)
                &&& if remember {
                    step.1 is Save
                } else {
                    has_succeeded(step, *self, None)
                }
            },
            LoginEvent::Saved(outcome) => {
                &&& *self == *before
                &&& has_succeeded(
                    step,
                    *self,
                    match outcome {
                        Ok(_) => None,
                        Err(error) => Some(error@),
                    },
                )
            },
        }
    }

    /// Moves a login on by one event: reads the first reports once there is a
    /// token, shows them, and saves the settings if they are to be remembered. A
    /// failure to save is a warning, any other ends the login.
    pub fn login_step(
        &mut self,
        phase: LoginPhase,
        event: LoginEvent,
        password: &String,
        remember: bool,
        now: Instant,
    ) -> (step: (LoginPhase, LoginAction))
        requires
            fits(phase, event),
            event is Read ==> old(self).can_reset(now),
        ensures
            final(self).login_stepped(old(self), event, *password, remember, now, step),
    {
        match event {
            LoginEvent::Answered(reply) => match self.login_answered(reply) {
                Ok(()) => (LoginPhase::Reading, LoginAction::Read),
                Err(error) => (LoginPhase::Finished, LoginAction::Finish(Err(error))),
            },
            LoginEvent::Read(reply) => {
                match self.login_bootstrapped(reply, password.clone(), remember, now) {
                    Ok(true) => (LoginPhase::Saving, LoginAction::Save),
                    Ok(false) => (
                        LoginPhase::Finished,
                        LoginAction::Finish(Ok(self.initial_data(None))),
                    ),
                    Err(error) => (LoginPhase::Finished, LoginAction::Finish(Err(error))),
                }
            },
            LoginEvent::Saved(outcome) => (
                LoginPhase::Finished,
                LoginAction::Finish(Ok(self.initial_data(outcome.err()))),
            ),
        }
    }
}

/// Nothing is read without a token, and nothing is saved that was not read: a
/// login that failed goes no further, and one that is not to be remembered is
/// never saved.
pub proof fn a_login_goes_step_by_step(event: LoginEvent, remember: bool)
    ensures
        phase_after(event, remember) is Reading ==> {
            &&& event matches LoginEvent::Answered(Ok(response))
            &&& gateway::token_in(response) is Some
        },
        phase_after(event, remember) is Saving ==> {
            &&& remember
            &&& event matches LoginEvent::Read(Ok(_))
        },
{
}

} // verus!
