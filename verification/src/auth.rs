//! Requests that log in again when the login has expired.

use crate::app::AppState;
use crate::gateway::{self, GatewayError, HttpRequest, HttpRequestView};
use crate::models::AuthResponse;
use crate::snapshot::{self, SignalMetrics, SnapshotView};
use crate::text::{self, concat2, nat_to_text};
use crate::time::{self, Duration, Instant};
use vstd::prelude::*;
use vstd::string::*;

verus! {

/// How long no request is sent after a login could not be renewed.
pub const BACKOFF_SECS: u64 = 20;

/// How far a request has come.
#[derive(Debug, Clone, Copy, PartialEq, Eq, Structural)]
pub enum RequestPhase {
    /// Nothing was sent yet.
    Ready,
    /// The request is on its way.
    Sent,
    /// The login had expired; a new login is on its way.
    LoggingIn,
    /// The request is on its way again, under the new login.
    Resent,
    /// The outcome is known.
    Finished,
}

/// What moves a request on.
#[derive(Debug)]
pub enum RequestEvent<T> {
    Start,
    Answered(Result<T, GatewayError>),
    LoginAnswered(Result<AuthResponse, GatewayError>),
}

/// What is to be done next for a request.
#[derive(Debug)]
pub enum RequestAction<T> {
    /// Send the request with the token of the moment.
    Send,
    /// Log in again.
    Login { request: HttpRequest, username: String, password: String },
    /// Nothing more: this is the outcome.
    Finish(Result<T, String>),
}

/// A [`RequestAction`] as a value.
pub enum RequestActionView<T> {
    Send,
    Login { request: HttpRequestView, username: Seq<char>, password: Seq<char> },
    Finish(Result<T, Seq<char>>),
}

impl<T> View for RequestAction<T> {
    type V = RequestActionView<T>;

    open spec fn view(&self) -> RequestActionView<T> {
        match self {
            RequestAction::Send => RequestActionView::Send,
            RequestAction::Login { request, username, password } => RequestActionView::Login {
                request: request@,
                username: username@,
                password: password@,
            },
            RequestAction::Finish(Ok(value)) => RequestActionView::Finish(Ok(*value)),
            RequestAction::Finish(Err(error)) => RequestActionView::Finish(Err(error@)),
        }
    }
}

/// What a request depends on and does not change.
pub struct RequestContext {
    /// What the request is called in messages.
    pub action: Seq<char>,
    pub username: Seq<char>,
    /// The password to log in again with.
    pub password: Option<Seq<char>>,
    pub login_request: HttpRequestView,
}

/// The part of the state that a request can change.
pub struct AuthView {
    pub token: Option<String>,
    pub not_before: Option<Instant>,
    pub error: Option<Seq<char>>,
    pub lte_metrics: Option<SignalMetrics>,
    pub five_g_metrics: Option<SignalMetrics>,
}

/// One step of a request.
pub struct RequestStep<T> {
    pub auth: AuthView,
    pub phase: RequestPhase,
    pub action: RequestActionView<T>,
}

/// Whether an event fits the phase that a request is in.
pub open spec fn fits<T>(phase: RequestPhase, event: RequestEvent<T>) -> bool {
    match event {
        RequestEvent::Start => phase is Ready,
        RequestEvent::Answered(_) => phase is Sent || phase is Resent,
        RequestEvent::LoginAnswered(_) => phase is LoggingIn,
    }
}

/// The seconds until `until`, at least one.
pub open spec fn seconds_left(until: Instant, now: Instant) -> int {
    let seconds = time::whole_seconds_between(now, until);
    if seconds < 1 {
        1
    } else {
        seconds
    }
}

/// The message of a request that is not sent because a login failed a moment ago.
pub open spec fn backoff_message(action: Seq<char>, until: Instant, now: Instant) -> Seq<char> {
    still_expired_message(action) + "; retrying after "@ + text::decimal_nat(
        seconds_left(until, now) as nat,
    ) + " seconds"@
}

/// The message of a request that was refused again after a new login.
pub open spec fn still_expired_message(action: Seq<char>) -> Seq<char> {
    action + " failed: gateway authentication is still expired"@
}

/// The message of a request that was refused with no password to log in with.
pub open spec fn no_credentials_message(action: Seq<char>) -> Seq<char> {
    action + " failed: no cached credentials are available"@
}

/// A request that ends because the login has expired: the message is shown in
/// place of signal figures that nothing renews.
pub open spec fn expired<T>(auth: AuthView, message: Seq<char>) -> RequestStep<T> {
    RequestStep {
        auth: AuthView {
            error: Some(message),
            lte_metrics: None,
            five_g_metrics: None,
            ..auth
        },
        phase: RequestPhase::Finished,
        action: RequestActionView::Finish(Err(message)),
    }
}

/// The state in which no request is sent for a while.
pub open spec fn backing_off(auth: AuthView, now: Instant) -> AuthView {
    AuthView {
        not_before: Some(
            Instant { nanos: (now.nanos + BACKOFF_SECS * time::NANOS_PER_SEC) as u128 },
        ),
        ..auth
    }
}

/// What an answer that refuses the login leads to: one more login, if there is
/// a password and none was tried yet.
pub open spec fn refused<T>(
    context: RequestContext,
    auth: AuthView,
    phase: RequestPhase,
    now: Instant,
) -> RequestStep<T> {
    if phase is Resent {
        expired(backing_off(auth, now), still_expired_message(context.action))
    } else {
        match context.password {
            None => expired(backing_off(auth, now), no_credentials_message(context.action)),
            Some(password) => RequestStep {
                auth,
                phase: RequestPhase::LoggingIn,
                action: RequestActionView::Login {
                    request: context.login_request,
                    username: context.username,
                    password,
                },
            },
        }
    }
}

/// What an event leads to.
pub open spec fn request_step<T>(
    context: RequestContext,
    auth: AuthView,
    phase: RequestPhase,
    event: RequestEvent<T>,
    now: Instant,
) -> RequestStep<T> {
    match event {
        RequestEvent::Start => match auth.not_before {
            Some(until) if now.nanos < until.nanos => expired(
                auth,
                backoff_message(context.action, until, now),
            ),
            _ => RequestStep { auth, phase: RequestPhase::Sent, action: RequestActionView::Send },
        },
        RequestEvent::Answered(Ok(value)) => RequestStep {
            auth: AuthView { not_before: None, ..auth },
            phase: RequestPhase::Finished,
            action: RequestActionView::Finish(Ok(value)),
        },
        RequestEvent::Answered(Err(error)) => if gateway::is_unauthorized(error) {
            refused(context, auth, phase, now)
        } else {
            RequestStep {
                auth: AuthView { error: None, ..auth },
                phase: RequestPhase::Finished,
                action: RequestActionView::Finish(Err(gateway::error_text(error))),
            }
        },
        RequestEvent::LoginAnswered(reply) => {
            let answered = AuthView { token: gateway::token_after(reply, auth.token), ..auth };
            match gateway::login_failure(reply) {
                Some(message) => expired(backing_off(answered, now), message),
                None => RequestStep {
                    auth: answered,
                    phase: RequestPhase::Resent,
                    action: RequestActionView::Send,
                },
            }
        },
    }
}

impl AppState {
    /// What a request called `action` depends on.
    pub open spec fn request_context(&self, action: Seq<char>) -> RequestContext {
        RequestContext {
            action,
            username: self.settings.username@,
            password: snapshot::text_of(self.cached_password),
            login_request: self.client.login_request(),
        }
    }

    /// The part of the state that a request can change.
    pub open spec fn auth(&self) -> AuthView {
        AuthView {
            token: self.client.token,
            not_before: self.reauth_not_before,
            error: snapshot::text_of(self.snapshot.error),
            lte_metrics: self.snapshot.lte_metrics,
            five_g_metrics: self.snapshot.five_g_metrics,
        }
    }

    /// Whether the two differ at most in what a request can change.
    pub open spec fn same_but_auth(&self, other: &Self) -> bool {
        &&& self.settings == other.settings
        &&& self.client.settings == other.client.settings
        &&& self.gateway_info == other.gateway_info
        &&& self.gateway_time == other.gateway_time
        &&& self.cached_password == other.cached_password
        &&& self.same_sources(other)
        &&& self.snapshot@ == (SnapshotView {
            error: self.snapshot@.error,
            lte_metrics: self.snapshot@.lte_metrics,
            five_g_metrics: self.snapshot@.five_g_metrics,
            ..other.snapshot@
        })
    }

    /// Shows that the login has expired. The signal figures go: nothing renews
    /// them.
    pub fn mark_auth_expired(&mut self, message: String)
        ensures
            final(self).same_but_auth(old(self)),
            final(self).auth() == expired::<()>(old(self).auth(), message@).auth,
    {
        self.snapshot.error = Some(message);
        self.snapshot.lte_metrics = None;
        self.snapshot.five_g_metrics = None;
    }

    /// Ends a request because the login has expired and could not be renewed: no
    /// request is sent for a while.
    fn back_off<T>(&mut self, message: String, now: Instant) -> (step: (
        RequestPhase,
        RequestAction<T>,
    ))
        requires
            now.has_room(),
        ensures
            final(self).same_but_auth(old(self)),
            ({
                let wanted = expired::<T>(backing_off(old(self).auth(), now), message@);
                &&& final(self).auth() == wanted.auth
                &&& step.0 == wanted.phase
                &&& step.1@ == wanted.action
            }),
    {
        self.reauth_not_before = Some(now.plus(Duration::from_secs(BACKOFF_SECS)));
        self.mark_auth_expired(message.clone());
        (RequestPhase::Finished, RequestAction::Finish(Err(message)))
    }

    /// Goes on with a request whose login was refused: logs in again, once, if a
    /// password is known.
    pub fn reauthenticate_and_retry<T>(
        &mut self,
        action: &str,
        phase: RequestPhase,
        now: Instant,
    ) -> (step: (RequestPhase, RequestAction<T>))
        requires
            now.has_room(),
        ensures
            final(self).same_but_auth(old(self)),
            ({
                let wanted = refused::<T>(
                    old(self).request_context(action@),
                    old(self).auth(),
                    phase,
                    now,
                );
                &&& final(self).auth() == wanted.auth
                &&& step.0 == wanted.phase
                &&& step.1@ == wanted.action
            }),
    {
        if phase == RequestPhase::Resent {
            let message: String = concat2(
                action,
                " failed: gateway authentication is still expired",
            );
            return self.back_off(message, now);
        }
        match self.cached_password.clone() {
            None => {
                let message: String = concat2(
                    action,
                    " failed: no cached credentials are available",
                );
                self.back_off(message, now)
            },
            Some(password) => {
                let login = RequestAction::Login {
                    request: self.client.login(),
                    username: self.settings.username.clone(),
                    password,
                };
                (RequestPhase::LoggingIn, login)
            },
        }
    }

    /// Moves a request called `action` on by one event: sends it unless a login
    /// failed a moment ago, logs in again if the login has expired, and sends it
    /// once more.
    pub fn request_with_reauth<T>(
        &mut self,
        action: &str,
        phase: RequestPhase,
        event: RequestEvent<T>,
        now: Instant,
    ) -> (step: (RequestPhase, RequestAction<T>))
        requires
            fits(phase, event),
            now.has_room(),
        ensures
            final(self).same_but_auth(old(self)),
            ({
                let wanted = request_step(
                    old(self).request_context(action@),
                    old(self).auth(),
                    phase,
                    event,
                    now,
                );
                &&& final(self).auth() == wanted.auth
                &&& step.0 == wanted.phase
                &&& step.1@ == wanted.action
            }),
    {
        match event {
            RequestEvent::Start => {
                if let Some(until) = self.reauth_not_before {
                    if now.nanos < until.nanos {
                        let seconds: u128 = until.seconds_since(now);
                        let left: u128 = if seconds < 1 {
                            1
                        } else {
                            seconds
                        };
                        let mut message: String = concat2(
                            action,
                            " failed: gateway authentication is still expired",
                        );
                        message.append("; retrying after ");
                        message.append(nat_to_text(left).as_str());
                        message.append(" seconds");
                        self.mark_auth_expired(message.clone());
                        return (RequestPhase::Finished, RequestAction::Finish(Err(message)));
                    }
                }
                (RequestPhase::Sent, RequestAction::Send)
            },
            RequestEvent::Answered(Ok(value)) => {
                self.reauth_not_before = None;
                (RequestPhase::Finished, RequestAction::Finish(Ok(value)))
            },
            RequestEvent::Answered(Err(error)) => {
                if error.is_unauthorized() {
                    self.reauthenticate_and_retry(action, phase, now)
                } else {
                    self.snapshot.error = None;
                    (RequestPhase::Finished, RequestAction::Finish(Err(error.to_string())))
                }
            },
            RequestEvent::LoginAnswered(reply) => {
                match self.login_answered(reply) {
                    Ok(()) => (RequestPhase::Resent, RequestAction::Send),
                    Err(message) => self.back_off(message, now),
                }
            },
        }
    }
}

/// All that is done for a request while events that fit come in, each with the
/// instant at which it comes.
pub open spec fn actions<T>(
    context: RequestContext,
    auth: AuthView,
    phase: RequestPhase,
    events: Seq<(RequestEvent<T>, Instant)>,
) -> Seq<RequestActionView<T>>
    decreases events.len(),
{
    if events.len() == 0 || !fits(phase, events[0].0) {
        Seq::empty()
    } else {
        let step = request_step(context, auth, phase, events[0].0, events[0].1);
        seq![step.action] + actions(context, step.auth, step.phase, events.skip(1))
    }
}

/// How often a request is sent among the actions.
pub open spec fn sends<T>(actions: Seq<RequestActionView<T>>) -> nat
    decreases actions.len(),
{
    if actions.len() == 0 {
        0
    } else {
        (if actions[0] is Send {
            1nat
        } else {
            0nat
        }) + sends(actions.skip(1))
    }
}

/// How often a login is sent among the actions.
pub open spec fn logins<T>(actions: Seq<RequestActionView<T>>) -> nat
    decreases actions.len(),
{
    if actions.len() == 0 {
        0
    } else {
        (if actions[0] is Login {
            1nat
        } else {
            0nat
        }) + logins(actions.skip(1))
    }
}

/// How many more times a request in this phase can be sent.
spec fn sends_left(phase: RequestPhase) -> nat {
    match phase {
        RequestPhase::Ready => 2,
        RequestPhase::Sent | RequestPhase::LoggingIn => 1,
        RequestPhase::Resent | RequestPhase::Finished => 0,
    }
}

/// How many more logins a request in this phase can bring.
spec fn logins_left(phase: RequestPhase) -> nat {
    match phase {
        RequestPhase::Ready | RequestPhase::Sent => 1,
        _ => 0,
    }
}

/// How many more steps a request in this phase can take.
spec fn steps_left(phase: RequestPhase) -> nat {
    match phase {
        RequestPhase::Ready => 4,
        RequestPhase::Sent => 3,
        RequestPhase::LoggingIn => 2,
        RequestPhase::Resent => 1,
        RequestPhase::Finished => 0,
    }
}

proof fn lemma_actions_are_bounded<T>(
    context: RequestContext,
    auth: AuthView,
    phase: RequestPhase,
    events: Seq<(RequestEvent<T>, Instant)>,
)
    ensures
        sends(actions(context, auth, phase, events)) <= sends_left(phase),
        logins(actions(context, auth, phase, events)) <= logins_left(phase),
        actions(context, auth, phase, events).len() <= steps_left(phase),
    decreases events.len(),
{
    let all = actions(context, auth, phase, events);
    if events.len() > 0 && fits(phase, events[0].0) {
        let step = request_step(context, auth, phase, events[0].0, events[0].1);
        let rest = actions(context, step.auth, step.phase, events.skip(1));
        lemma_actions_are_bounded(context, step.auth, step.phase, events.skip(1));
        assert(all.skip(1) =~= rest);
        assert(all[0] == step.action);
    }
}

/// Whatever the gateway answers, a request is sent at most twice, with at most
/// one new login in between, and its outcome is known after at most four events.
pub proof fn a_request_is_sent_at_most_twice<T>(
    context: RequestContext,
    auth: AuthView,
    events: Seq<(RequestEvent<T>, Instant)>,
)
    ensures
        sends(actions(context, auth, RequestPhase::Ready, events)) <= 2,
        logins(actions(context, auth, RequestPhase::Ready, events)) <= 1,
        actions(context, auth, RequestPhase::Ready, events).len() <= 4,
{
    lemma_actions_are_bounded(context, auth, RequestPhase::Ready, events);
}

/// A step ends a request exactly if it hands out the outcome.
pub proof fn only_the_outcome_ends_a_request<T>(
    context: RequestContext,
    auth: AuthView,
    phase: RequestPhase,
    event: RequestEvent<T>,
    now: Instant,
)
    requires
        fits(phase, event),
    ensures
        request_step(context, auth, phase, event, now).phase is Finished
            == request_step(context, auth, phase, event, now).action is Finish,
{
}

/// Once a login could not be renewed, no request is sent for the whole time of
/// the backoff: each is answered at once.
pub proof fn nothing_is_sent_while_backing_off<T>(
    context: RequestContext,
    auth: AuthView,
    failed_at: Instant,
    now: Instant,
)
    requires
        failed_at.has_room(),
        now.nanos < failed_at.nanos + BACKOFF_SECS * time::NANOS_PER_SEC,
    ensures
        request_step::<T>(
            context,
            backing_off(auth, failed_at),
            RequestPhase::Ready,
            RequestEvent::Start,
            now,
        ).action is Finish,
{
}

/// A request that succeeds ends any backoff: the next one is sent.
pub proof fn a_success_ends_the_backoff<T>(
    context: RequestContext,
    auth: AuthView,
    phase: RequestPhase,
    value: T,
    now: Instant,
    later: Instant,
)
    ensures
        request_step(context, auth, phase, RequestEvent::Answered(Ok(value)), now).auth.not_before
            is None,
        request_step::<T>(
            context,
            request_step(
                context,
                auth,
                phase,
                RequestEvent::Answered(Ok(value)),
                now,
            ).auth,
            RequestPhase::Ready,
            RequestEvent::Start,
            later,
        ).action is Send,
{
}

/// A login that could not be renewed ends the request and starts a backoff.
pub proof fn a_failed_login_starts_a_backoff<T>(
    context: RequestContext,
    auth: AuthView,
    reply: Result<AuthResponse, GatewayError>,
    now: Instant,
)
    requires
        gateway::login_failure(reply) is Some,
        now.has_room(),
    ensures
        ({
            let step = request_step::<T>(
                context,
                auth,
                RequestPhase::LoggingIn,
                RequestEvent::LoginAnswered(reply),
                now,
            );
            &&& step.action is Finish
            &&& step.auth.not_before matches Some(until) && until.nanos == now.nanos + BACKOFF_SECS
                * time::NANOS_PER_SEC
        }),
{
}

} // verus!
