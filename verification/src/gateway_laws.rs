//! What talking to the gateway promises: where requests go and what they carry, and
//! what answers and failures lead to.

use crate::app::{self, AppState, GatewayCommand};
use crate::gateway::{self, GatewayClient, GatewayError, HttpRequest};
use crate::logging;
use crate::models::{AuthResponse, CellRoot, ClientRoot, GatewayInfo, SimRoot, WifiConfig};
use crate::source::DataSourceKind;
use crate::text;
use vstd::prelude::*;
use vstd::string::*;

verus! {

/// Whether one text opens with another.
pub open spec fn opens_with(text: Seq<char>, opening: Seq<char>) -> bool {
    text.len() >= opening.len() && text.take(opening.len() as int) == opening
}

/// Whether one text closes with another.
pub open spec fn closes_with(text: Seq<char>, closing: Seq<char>) -> bool {
    text.len() >= closing.len() && text.skip(text.len() - closing.len()) == closing
}

/// The authority of an address holds the address, and ends in the default port unless
/// it is the address itself, which is so exactly if the address names a port. Only an
/// IPv6 literal without brackets gets brackets.
pub proof fn an_authority_holds_the_address(address: Seq<char>, is_ipv6: bool)
    ensures
        ({
            let result = gateway::authority(address, is_ipv6);
            let open = address.len() > 0 && address[0] == '[';
            &&& text::occurs_in(result, address)
            &&& result == address || closes_with(result, ":8080"@)
            &&& open ==> (result == address <==> text::occurs_in(address, "]:"@))
            &&& !open && !is_ipv6 ==> (result == address <==> text::occurs_in(address, ":"@))
            &&& !open && is_ipv6 ==> result == "["@ + address + "]"@ + ":8080"@
            &&& open || !is_ipv6 ==> opens_with(result, address)
            &&& open || !is_ipv6 ==> result.len() == address.len() || result.len() == address.len()
                + 5
        }),
{
    reveal_strlit(":8080");
    reveal_strlit("]:8080");
    reveal_strlit("[");
    reveal_strlit("]");
    let result = gateway::authority(address, is_ipv6);
    let n = address.len() as int;
    if !gateway::bracketed(address) && is_ipv6 {
        assert(result =~= "["@ + address + "]"@ + ":8080"@);
        assert(result.subrange(1, 1 + n) =~= address);
        assert(text::occurs_at(result, address, 1));
        assert(result.skip(result.len() - 5) =~= ":8080"@);
    } else {
        assert(result.subrange(0, n) =~= address);
        assert(text::occurs_at(result, address, 0));
        assert(result.take(n) =~= address);
        if result != address {
            assert(result.skip(result.len() - 5) =~= ":8080"@);
        }
    }
}

/// Every request goes to the gateway of the settings over plain HTTP, below one path,
/// and its address ends in its endpoint. Reading is a GET, changing a POST, and a login
/// is a POST without a token.
pub proof fn requests_go_to_the_gateway(client: GatewayClient, endpoint: Seq<char>)
    ensures
        ({
            let address = client.settings.gateway_ip@;
            let root = "http://"@ + gateway::authority(address, gateway::ipv6_literal(address))
                + "/TMI/v1/"@;
            let read = client.read_request(endpoint);
            let write = client.write_request(endpoint);
            let login = client.login_request();
            &&& read.url == root + endpoint && write.url == root + endpoint
            &&& login.url == root + "auth/login"@
            &&& closes_with(read.url, endpoint) && opens_with(read.url, "http://"@)
            &&& read.endpoint == endpoint && write.endpoint == endpoint
            &&& login.endpoint == "auth/login"@
            &&& read.method == "GET"@ && write.method == "POST"@ && login.method == "POST"@
            &&& login.authorization is None
            &&& write.authorization is Some
            &&& client.token is None ==> write.authorization == Some("Bearer "@)
        }),
{
    let read = client.read_request(endpoint);
    assert(read.url.skip(read.url.len() - endpoint.len()) =~= endpoint);
    assert(read.url.take("http://"@.len() as int) =~= "http://"@);
    assert("Bearer "@ + Seq::<char>::empty() =~= "Bearer "@);
}

/// A request as a value is the request: method, endpoint, address and header.
pub proof fn a_request_is_sent_as_it_is(request: HttpRequest)
    ensures
        request@.method == request.method@,
        request@.endpoint == request.endpoint@,
        request@.url == request.url@,
        request.authorization matches Some(header) ==> request@.authorization == Some(header@),
        request.authorization is None ==> request@.authorization is None,
{
}

/// Each source is read at an endpoint of its own, the telemetry by its name; the
/// Wi-Fi configuration is written where it is read, and a command goes nowhere that
/// a source is read.
pub proof fn endpoints_are_told_apart(
    one: DataSourceKind,
    other: DataSourceKind,
    command: GatewayCommand,
)
    ensures
        app::source_endpoint(one) == app::source_endpoint(other) ==> one == other,
        app::command_endpoint(command) != app::source_endpoint(one),
        app::command_endpoint(GatewayCommand::SaveWifi) != app::command_endpoint(
            GatewayCommand::Reboot,
        ),
        app::source_endpoint(DataSourceKind::Gateway) == "gateway/"@ + "?get="@ + "all"@,
        app::source_endpoint(DataSourceKind::Signal) == "network/telemetry/"@ + "?get="@ + "cell"@,
        app::source_endpoint(DataSourceKind::Sim) == "network/telemetry/"@ + "?get="@ + "sim"@,
        app::source_endpoint(DataSourceKind::Clients) == "network/telemetry/"@ + "?get="@
            + "clients"@,
        app::source_endpoint(DataSourceKind::Wifi) == "network/configuration/v2"@ + "?get="@
            + "ap"@,
        app::command_endpoint(GatewayCommand::SaveWifi) == "network/configuration/v2"@ + "?set="@
            + "ap"@,
        app::command_endpoint(GatewayCommand::Reboot) == "gateway/reset"@ + "?set="@ + "reboot"@,
{
    reveal_strlit("gateway/?get=all");
    reveal_strlit("network/telemetry/?get=cell");
    reveal_strlit("network/telemetry/?get=sim");
    reveal_strlit("network/telemetry/?get=clients");
    reveal_strlit("network/configuration/v2?get=ap");
    reveal_strlit("network/configuration/v2?set=ap");
    reveal_strlit("gateway/reset?set=reboot");
    reveal_strlit("gateway/");
    reveal_strlit("network/telemetry/");
    reveal_strlit("network/configuration/v2");
    reveal_strlit("gateway/reset");
    reveal_strlit("?get=");
    reveal_strlit("?set=");
    reveal_strlit("all");
    reveal_strlit("cell");
    reveal_strlit("sim");
    reveal_strlit("clients");
    reveal_strlit("ap");
    reveal_strlit("reboot");
    assert("network/configuration/v2?get=ap"@[25] != "network/configuration/v2?set=ap"@[25]);
    assert(app::source_endpoint(DataSourceKind::Gateway) =~= "gateway/"@ + "?get="@ + "all"@);
    assert(app::source_endpoint(DataSourceKind::Signal) =~= "network/telemetry/"@ + "?get="@
        + "cell"@);
    assert(app::source_endpoint(DataSourceKind::Sim) =~= "network/telemetry/"@ + "?get="@ + "sim"@);
    assert(app::source_endpoint(DataSourceKind::Clients) =~= "network/telemetry/"@ + "?get="@
        + "clients"@);
    assert(app::source_endpoint(DataSourceKind::Wifi) =~= "network/configuration/v2"@ + "?get="@
        + "ap"@);
    assert(app::command_endpoint(GatewayCommand::SaveWifi) =~= "network/configuration/v2"@
        + "?set="@ + "ap"@);
    assert(app::command_endpoint(GatewayCommand::Reboot) =~= "gateway/reset"@ + "?set="@
        + "reboot"@);
    assert(app::source_endpoint(DataSourceKind::Gateway).len() == 16);
    assert(app::source_endpoint(DataSourceKind::Signal).len() == 27);
    assert(app::source_endpoint(DataSourceKind::Sim).len() == 26);
    assert(app::source_endpoint(DataSourceKind::Clients).len() == 30);
    assert(app::source_endpoint(DataSourceKind::Wifi).len() == 31);
    assert(app::command_endpoint(GatewayCommand::SaveWifi).len() == 31);
    assert(app::command_endpoint(GatewayCommand::Reboot).len() == 24);
}

/// Messages name what they are about: a refresh is called after its source, and no two
/// are called the same.
pub proof fn refreshes_are_named_after_their_source(one: DataSourceKind, other: DataSourceKind)
    ensures
        app::refresh_name(one) == app::refresh_name(other) ==> one == other,
        app::refresh_name(DataSourceKind::Gateway) == "Gateway"@ + " refresh"@,
        app::refresh_name(DataSourceKind::Signal) == "Signal"@ + " refresh"@,
        app::refresh_name(DataSourceKind::Sim) == "SIM"@ + " refresh"@,
        app::refresh_name(DataSourceKind::Clients) == "Clients"@ + " refresh"@,
        app::refresh_name(DataSourceKind::Wifi) == "Wi-Fi"@ + " refresh"@,
{
    reveal_strlit(" refresh");
    reveal_strlit("Gateway refresh");
    reveal_strlit("Signal refresh");
    reveal_strlit("SIM refresh");
    reveal_strlit("Clients refresh");
    reveal_strlit("Wi-Fi refresh");
    reveal_strlit("Gateway");
    reveal_strlit("Signal");
    reveal_strlit("SIM");
    reveal_strlit("Clients");
    reveal_strlit("Wi-Fi");
    assert("Gateway refresh"@ =~= "Gateway"@ + " refresh"@);
    assert("Signal refresh"@ =~= "Signal"@ + " refresh"@);
    assert("SIM refresh"@ =~= "SIM"@ + " refresh"@);
    assert("Clients refresh"@ =~= "Clients"@ + " refresh"@);
    assert("Wi-Fi refresh"@ =~= "Wi-Fi"@ + " refresh"@);
    assert("Gateway refresh"@[0] == 'G' && "Signal refresh"@[1] == 'i');
    assert("Signal refresh"@[0] == 'S' && "SIM refresh"@[0] == 'S' && "SIM refresh"@[1] == 'I');
    assert("Clients refresh"@[0] == 'C' && "Wi-Fi refresh"@[0] == 'W');
}

/// A login stands exactly if the answer brought a token, and that token is the one
/// kept. An answer without a token leaves none; where no answer came, the token stays
/// and the failure says why.
pub proof fn a_login_stands_on_its_token(
    reply: Result<AuthResponse, GatewayError>,
    before: Option<String>,
)
    ensures
        gateway::login_failure(reply) is None <==> reply is Ok && reply->Ok_0.auth is Some
            && reply->Ok_0.auth->0.token is Some,
        gateway::login_failure(reply) is None ==> gateway::token_after(reply, before)
            == reply->Ok_0.auth->0.token,
        reply is Ok && gateway::login_failure(reply) is Some ==> {
            &&& gateway::token_after(reply, before) is None
            &&& gateway::login_failure(reply)->0
                == "login succeeded but the gateway did not return a token"@
        },
        reply matches Err(error) ==> {
            &&& gateway::token_after(reply, before) == before
            &&& gateway::login_failure(reply) == Some(gateway::error_text(error))
        },
{
}

/// A status is a success exactly if its first digit is two, and the login has expired
/// exactly if the gateway answered with the status that asks for one.
pub proof fn statuses_are_told_apart(status: u16, error: GatewayError)
    ensures
        gateway::is_success(status) <==> status / 100 == 2,
        gateway::is_unauthorized(error) <==> error is Http && error->Http_status == 401,
        gateway::error_status(error) is Some <==> error is Http,
        error is Http ==> gateway::error_status(error) == Some(error->Http_status),
{
}

/// Sending comes to a success exactly if the gateway answered with a success status;
/// any other status, and any failure to get an answer, becomes an error that names the
/// request and says what came.
pub proof fn an_answer_is_a_success_or_an_error(
    request: HttpRequest,
    outcome: Result<u16, String>,
)
    ensures
        ({
            let sent = gateway::sending_outcome(request, outcome);
            &&& sent is Ok <==> outcome is Ok && 200 <= outcome->Ok_0 <= 299
            &&& sent is Ok ==> sent->Ok_0 == outcome->Ok_0
            &&& sent matches Err(error) ==> {
                &&& outcome is Ok ==> gateway::error_status(error) == Some(outcome->Ok_0)
                &&& outcome is Err ==> gateway::error_status(error) is None
                &&& opens_with(
                    gateway::error_text(error),
                    logging::request_label(request.method@, request.endpoint@),
                )
                &&& outcome matches Err(message) ==> closes_with(
                    gateway::error_text(error),
                    ": "@ + message@,
                )
            }
        }),
{
    let sent = gateway::sending_outcome(request, outcome);
    if let Err(error) = sent {
        let label = logging::request_label(request.method@, request.endpoint@);
        let told = gateway::error_text(error);
        assert(told.take(label.len() as int) =~= label);
        if let Err(message) = outcome {
            let closing = ": "@ + message@;
            assert(told.skip(told.len() - closing.len()) =~= closing);
        }
    }
}

/// Reading comes to the content exactly if there was one; a failure becomes an error
/// that names the request, says why, and is no answer of the gateway.
pub proof fn an_unreadable_answer_is_an_error<T>(request: HttpRequest, parsed: Result<T, String>)
    ensures
        ({
            let read = gateway::reading_outcome(request, parsed);
            &&& read is Ok <==> parsed is Ok
            &&& read is Ok ==> read->Ok_0 == parsed->Ok_0
            &&& read matches Err(error) ==> {
                &&& gateway::error_status(error) is None
                &&& opens_with(
                    gateway::error_text(error),
                    logging::request_label(request.method@, request.endpoint@),
                )
                &&& closes_with(gateway::error_text(error), ": "@ + parsed->Err_0@)
            }
        }),
{
    let read = gateway::reading_outcome(request, parsed);
    if let Err(error) = read {
        let label = logging::request_label(request.method@, request.endpoint@);
        let told = gateway::error_text(error);
        let closing = ": "@ + parsed->Err_0@;
        assert(told.take(label.len() as int) =~= label);
        assert(told.skip(told.len() - closing.len()) =~= closing);
    }
}

/// An error of the gateway says what status came, after the request's name; any other
/// error ends in its own message.
pub proof fn errors_say_what_happened(error: GatewayError)
    ensures
        error matches GatewayError::Http { method, endpoint, status } ==> gateway::error_text(error)
            == "HTTP "@ + method@ + " "@ + endpoint@ + " returned "@ + gateway::status_text(status),
        error matches GatewayError::Request { method, endpoint, message } ==> gateway::error_text(
            error,
        ) == "HTTP "@ + method@ + " "@ + endpoint@ + ": "@ + message@,
        error matches GatewayError::Decode { method, endpoint, message } ==> gateway::error_text(
            error,
        ) == "HTTP "@ + method@ + " "@ + endpoint@ + ": "@ + message@,
        error matches GatewayError::Other(message) ==> gateway::error_text(error) == message@,
{
}

/// A status is told by its number in digits and its phrase, or by words that say that it
/// has none.
pub proof fn a_status_is_told_with_its_phrase(status: u16)
    ensures
        gateway::canonical_reason(status) matches Some(reason) ==> gateway::status_text(status)
            == text::decimal(status as int) + (" "@ + reason),
        gateway::canonical_reason(status) is None ==> gateway::status_text(status)
            == text::decimal(status as int) + " <unknown status code>"@,
{
    reveal_strlit(" ");
    reveal_strlit("<unknown status code>");
    reveal_strlit(" <unknown status code>");
    assert(" "@ + "<unknown status code>"@ =~= " <unknown status code>"@);
    let digits = text::decimal(status as int);
    let phrase = match gateway::canonical_reason(status) {
        Some(reason) => reason,
        None => "<unknown status code>"@,
    };
    assert(digits + " "@ + phrase =~= digits + (" "@ + phrase));
}

/// After a login the gateway's own report is needed and the others are not: with it
/// every other source is read once, in the usual order, and whatever came is kept as it
/// came; without it
/// nothing else is read and the login fails with that error.
pub proof fn a_login_needs_the_gateway_report(
    gateway: Result<GatewayInfo, GatewayError>,
    cell: Result<CellRoot, GatewayError>,
    sim: Result<SimRoot, GatewayError>,
    clients: Result<ClientRoot, GatewayError>,
    wifi: Result<WifiConfig, GatewayError>,
    kind: DataSourceKind,
)
    ensures
        ({
            let outcome = gateway::bootstrap_of(gateway, cell, sim, clients, wifi);
            let sources = gateway::sources_after(gateway);
            &&& outcome is Ok <==> gateway is Ok
            &&& gateway matches Err(error) ==> outcome->Err_0 == error && sources.len() == 0
            &&& gateway matches Ok(info) ==> {
                let data = outcome->Ok_0;
                &&& data.gateway == info
                &&& data.cell is Some <==> cell is Ok
                &&& data.sim is Some <==> sim is Ok
                &&& data.clients is Some <==> clients is Ok
                &&& data.wifi is Some <==> wifi is Ok
                &&& cell matches Ok(report) ==> data.cell->0 == report
                &&& sim matches Ok(report) ==> data.sim->0 == report
                &&& clients matches Ok(report) ==> data.clients->0 == report
                &&& wifi matches Ok(report) ==> data.wifi->0 == report
                &&& sources.contains(kind) <==> kind != DataSourceKind::Gateway
                &&& sources.no_duplicates()
                &&& sources == app::all_sources().skip(1)
            }
        }),
{
    let sources = gateway::sources_after(gateway);
    if gateway is Ok {
        assert(sources[0] == DataSourceKind::Signal && sources[1] == DataSourceKind::Sim);
        assert(sources[2] == DataSourceKind::Clients && sources[3] == DataSourceKind::Wifi);
        assert(sources =~= app::all_sources().skip(1));
    }
}

/// A login is sent with the name under its name and the password under its name, each as
/// it was typed, and nothing else.
pub proof fn a_login_sends_name_and_password(
    body: Seq<(String, String)>,
    username: Seq<char>,
    password: Seq<char>,
)
    requires
        gateway::is_login_body(body, username, password),
    ensures
        exists|i: int|
            0 <= i < body.len() && (#[trigger] body[i]).0@ == "username"@ && body[i].1@ == username,
        exists|i: int|
            0 <= i < body.len() && (#[trigger] body[i]).0@ == "password"@ && body[i].1@ == password,
        body.len() == 2,
{
    assert(body[0].0@ == "username"@);
    assert(body[1].0@ == "password"@);
}

/// Messages name what was asked for.
pub proof fn commands_are_named_after_what_they_do(command: GatewayCommand)
    ensures
        command is SaveWifi ==> app::command_name(command) == "Wi-Fi"@ + " save"@,
        command is Reboot ==> app::command_name(command) == "Gateway"@ + " reboot"@,
{
    reveal_strlit("Wi-Fi save");
    reveal_strlit("Gateway reboot");
    reveal_strlit("Wi-Fi");
    reveal_strlit(" save");
    reveal_strlit("Gateway");
    reveal_strlit(" reboot");
    assert("Wi-Fi save"@ =~= "Wi-Fi"@ + " save"@);
    assert("Gateway reboot"@ =~= "Gateway"@ + " reboot"@);
}

/// A source is read, and a command sent, at its own endpoint of the gateway and with the
/// token of the moment: a source by a GET, a command by a POST.
pub proof fn sources_are_read_and_commands_sent(
    state: AppState,
    source: DataSourceKind,
    command: GatewayCommand,
)
    ensures
        ({
            let read = state.refresh_request_of(source);
            let sent = state.command_request_of(command);
            &&& read.method == "GET"@
            &&& read.endpoint == app::source_endpoint(source)
            &&& closes_with(read.url, app::source_endpoint(source))
            &&& sent.method == "POST"@
            &&& sent.endpoint == app::command_endpoint(command)
            &&& closes_with(sent.url, app::command_endpoint(command))
            &&& state.client.token matches Some(token) ==> {
                &&& read.authorization == Some("Bearer "@ + token@)
                &&& sent.authorization == Some("Bearer "@ + token@)
            }
            &&& state.client.token is None ==> read.authorization is None
        }),
{
    let read = state.refresh_request_of(source);
    let sent = state.command_request_of(command);
    let (from, to) = (app::source_endpoint(source), app::command_endpoint(command));
    assert(read.url.skip(read.url.len() - from.len()) =~= from);
    assert(sent.url.skip(sent.url.len() - to.len()) =~= to);
}

} // verus!
