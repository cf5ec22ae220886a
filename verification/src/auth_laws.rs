//! What requests with a login of their own promise: what is sent, what the user is
//! told, and what stays as it is.

use crate::app::AppState;
use crate::auth::{
    self, AuthView, RequestAction, RequestContext, RequestEvent, RequestPhase, RequestStep,
};
use crate::gateway::{self, GatewayError};
use crate::models::AuthResponse;
use crate::snapshot;
use crate::text;
use crate::time::Instant;
use vstd::prelude::*;
use vstd::string::*;

verus! {

/// Whether a step ends a request with a message because the login has expired: the
/// message is the outcome and is shown, and no signal figures are left.
pub open spec fn ends_as_expired<T>(step: RequestStep<T>, message: Seq<char>) -> bool {
    &&& step.phase is Finished
    &&& step.action is Finish
    &&& step.action->Finish_0 is Err
    &&& step.action->Finish_0->Err_0 == message
    &&& step.auth.error is Some
    &&& step.auth.error->0 == message
    &&& step.auth.lte_metrics is None
    &&& step.auth.five_g_metrics is None
}

/// Whether nothing is sent for the twenty seconds after `now`.
pub open spec fn waits(auth: AuthView, now: Instant) -> bool {
    auth.not_before is Some && auth.not_before->0.nanos == now.nanos + 20 * 1_000_000_000
}

/// A request is sent as things stand unless a login failed a moment ago; then it ends
/// at once, and the message tells for how many seconds to wait: at least one, and the
/// whole seconds that are left.
pub proof fn a_request_is_sent_unless_it_has_to_wait<T>(
    context: RequestContext,
    auth: AuthView,
    now: Instant,
)
    ensures
        ({
            let step = auth::request_step::<T>(
                context,
                auth,
                RequestPhase::Ready,
                RequestEvent::Start,
                now,
            );
            let waiting = auth.not_before is Some && now.nanos < auth.not_before->0.nanos;
            &&& !waiting ==> {
                &&& step.phase is Sent
                &&& step.action is Send
                &&& step.auth == auth
            }
            &&& waiting ==> exists|seconds: int|
                {
                    &&& #[trigger] is_wait_of(seconds, auth.not_before->0, now)
                    &&& ends_as_expired(
                        step,
                        context.action + " failed: gateway authentication is still expired"@
                            + "; retrying after "@ + text::decimal(seconds) + " seconds"@,
                    )
                    &&& step.auth.token == auth.token
                    &&& step.auth.not_before == auth.not_before
                }
        }),
{
    let step = auth::request_step::<T>(
        context,
        auth,
        RequestPhase::Ready,
        RequestEvent::Start,
        now,
    );
    if auth.not_before is Some && now.nanos < auth.not_before->0.nanos {
        let seconds = auth::seconds_left(auth.not_before->0, now);
        assert(is_wait_of(seconds, auth.not_before->0, now));
        assert(text::decimal(seconds) == text::decimal_nat(seconds as nat));
    }
}

/// Whether `seconds` is how long to wait until an instant: its whole seconds, and at
/// least one.
pub open spec fn is_wait_of(seconds: int, until: Instant, now: Instant) -> bool {
    &&& seconds >= 1
    &&& until.nanos - now.nanos < (seconds + 1) * 1_000_000_000
    &&& seconds > 1 ==> seconds * 1_000_000_000 <= until.nanos - now.nanos
}

/// A success hands out what was answered, ends any wait, and changes nothing else.
pub proof fn a_success_hands_out_the_answer<T>(
    context: RequestContext,
    auth: AuthView,
    phase: RequestPhase,
    value: T,
    now: Instant,
)
    ensures
        ({
            let step = auth::request_step(
                context,
                auth,
                phase,
                RequestEvent::Answered(Ok(value)),
                now,
            );
            &&& step.phase is Finished
            &&& step.action is Finish
            &&& step.action->Finish_0 is Ok
            &&& step.action->Finish_0->Ok_0 == value
            &&& step.auth.not_before is None
            &&& step.auth.token == auth.token
            &&& step.auth.error == auth.error
            &&& step.auth.lte_metrics == auth.lte_metrics
            &&& step.auth.five_g_metrics == auth.five_g_metrics
        }),
{
}

/// A failure that has nothing to do with the login ends the request with its own
/// words; the login, the wait and the signal figures stay, and no error of the login is
/// shown any more.
pub proof fn other_failures_leave_the_login_alone<T>(
    context: RequestContext,
    auth: AuthView,
    phase: RequestPhase,
    error: GatewayError,
    now: Instant,
)
    requires
        !(error is Http && error->Http_status == 401),
    ensures
        ({
            let step = auth::request_step::<T>(
                context,
                auth,
                phase,
                RequestEvent::Answered(Err(error)),
                now,
            );
            &&& step.phase is Finished
            &&& step.action is Finish
            &&& step.action->Finish_0 is Err
            &&& step.action->Finish_0->Err_0 == gateway::error_text(error)
            &&& step.auth.error is None
            &&& step.auth.token == auth.token
            &&& step.auth.not_before == auth.not_before
            &&& step.auth.lte_metrics == auth.lte_metrics
            &&& step.auth.five_g_metrics == auth.five_g_metrics
        }),
{
}

/// A refused login is tried again once, with the name and the password that are known
/// and nothing else changed. Without a password, or refused again, the request ends
/// with a message that says so, and nothing is sent for a while.
pub proof fn a_refusal_logs_in_again_once<T>(
    context: RequestContext,
    auth: AuthView,
    phase: RequestPhase,
    error: GatewayError,
    now: Instant,
)
    requires
        error is Http && error->Http_status == 401,
        phase is Sent || phase is Resent,
        now.has_room(),
    ensures
        ({
            let step = auth::request_step::<T>(
                context,
                auth,
                phase,
                RequestEvent::Answered(Err(error)),
                now,
            );
            &&& phase is Sent && context.password is Some ==> {
                &&& step.phase is LoggingIn
                &&& step.action is Login
                &&& step.action->request == context.login_request
                &&& step.action->username == context.username
                &&& step.action->password == context.password->0
                &&& step.auth == auth
            }
            &&& phase is Sent && context.password is None ==> ends_as_expired(
                step,
                context.action + " failed: no cached credentials are available"@,
            )
            &&& phase is Resent ==> ends_as_expired(
                step,
                context.action + " failed: gateway authentication is still expired"@,
            )
            &&& phase is Resent || context.password is None ==> {
                &&& waits(step.auth, now)
                &&& step.auth.token == auth.token
            }
        }),
{
}

/// A new login that brought a token sends the request again under that token, with
/// nothing else changed. One that brought none ends the request with the reason, and
/// nothing is sent for a while.
pub proof fn a_new_login_sends_the_request_again<T>(
    context: RequestContext,
    auth: AuthView,
    reply: Result<AuthResponse, GatewayError>,
    now: Instant,
)
    requires
        now.has_room(),
    ensures
        ({
            let step = auth::request_step::<T>(
                context,
                auth,
                RequestPhase::LoggingIn,
                RequestEvent::LoginAnswered(reply),
                now,
            );
            let brought = reply is Ok && reply->Ok_0.auth is Some && reply->Ok_0.auth->0.token
                is Some;
            &&& brought ==> {
                &&& step.phase is Resent
                &&& step.action is Send
                &&& step.auth.token == reply->Ok_0.auth->0.token
                &&& step.auth.not_before == auth.not_before
                &&& step.auth.error == auth.error
                &&& step.auth.lte_metrics == auth.lte_metrics
                &&& step.auth.five_g_metrics == auth.five_g_metrics
            }
            &&& !brought ==> waits(step.auth, now)
            &&& reply is Ok && !brought ==> {
                &&& ends_as_expired(
                    step,
                    "login succeeded but the gateway did not return a token"@,
                )
                &&& step.auth.token is None
            }
            &&& reply matches Err(error) ==> {
                &&& ends_as_expired(step, gateway::error_text(error))
                &&& step.auth.token == auth.token
            }
        }),
{
}

/// A request depends on the name in the settings, the password of the last login and
/// the client's own login request; what it can change is the client's token, the wait,
/// the error and the signal figures.
pub proof fn a_request_speaks_of_the_state(state: AppState, action: Seq<char>)
    ensures
        ({
            let context = state.request_context(action);
            let auth = state.auth();
            &&& context.action == action
            &&& context.username == state.settings.username@
            &&& context.password is Some <==> state.cached_password is Some
            &&& state.cached_password is Some ==> context.password->0 == state.cached_password->0@
            &&& context.login_request == state.client.login_request()
            &&& auth.token == state.client.token
            &&& auth.not_before == state.reauth_not_before
            &&& auth.error is Some <==> state.snapshot.error is Some
            &&& state.snapshot.error is Some ==> auth.error->0 == state.snapshot.error->0@
            &&& auth.lte_metrics == state.snapshot.lte_metrics
            &&& auth.five_g_metrics == state.snapshot.five_g_metrics
        }),
{
}

/// What a request cannot change stays through every step of it: the settings, the
/// password, what is known of the gateway, all sources, and every section of what is
/// shown but the error and the signal figures.
pub proof fn a_request_leaves_the_rest_alone(before: AppState, after: AppState)
    requires
        after.same_but_auth(&before),
    ensures
        after.settings == before.settings,
        after.client.settings == before.client.settings,
        after.cached_password == before.cached_password,
        after.gateway_info == before.gateway_info,
        after.gateway_time == before.gateway_time,
        after.gateway == before.gateway,
        after.signal == before.signal,
        after.sim == before.sim,
        after.clients == before.clients,
        after.wifi == before.wifi,
        after.snapshot.logged_in == before.snapshot.logged_in,
        after.snapshot.token_present == before.snapshot.token_present,
        after.snapshot.gateway_ip@ == before.snapshot.gateway_ip@,
        after.snapshot.username@ == before.snapshot.username@,
        snapshot::row_views(after.snapshot.device_summary@) == snapshot::row_views(
            before.snapshot.device_summary@,
        ),
        snapshot::row_views(after.snapshot.lte_summary@) == snapshot::row_views(
            before.snapshot.lte_summary@,
        ),
        snapshot::row_views(after.snapshot.five_g_summary@) == snapshot::row_views(
            before.snapshot.five_g_summary@,
        ),
        snapshot::row_views(after.snapshot.general_summary@) == snapshot::row_views(
            before.snapshot.general_summary@,
        ),
        snapshot::row_views(after.snapshot.sim_summary@) == snapshot::row_views(
            before.snapshot.sim_summary@,
        ),
        snapshot::client_views(after.snapshot.clients@) == snapshot::client_views(
            before.snapshot.clients@,
        ),
        snapshot::wifi_of(after.snapshot.wifi) == snapshot::wifi_of(before.snapshot.wifi),
{
    assert(after.snapshot@.device_summary == before.snapshot@.device_summary);
}

/// An action as a value is the action.
pub proof fn an_action_is_carried_out_as_it_is<T>(action: RequestAction<T>)
    ensures
        action is Send <==> action@ is Send,
        action is Login <==> action@ is Login,
        action is Login ==> {
            &&& action@->request == action->request@
            &&& action@->username == action->username@
            &&& action@->password == action->password@
        },
        action matches RequestAction::Finish(Ok(value)) ==> action@ is Finish && action@->Finish_0
            == Ok::<T, Seq<char>>(value),
        action matches RequestAction::Finish(Err(error)) ==> action@ is Finish && action@->Finish_0
            == Err::<T, Seq<char>>(error@),
{
}

} // verus!
