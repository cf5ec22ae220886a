//! Talking to the gateway: addresses, requests, and what answers mean.

use crate::logging::{self, request_name};
use crate::models::{AuthResponse, CellRoot, ClientRoot, GatewayInfo, SimRoot, WifiConfig};
use crate::settings::Settings;
use crate::snapshot;
use crate::source::DataSourceKind;
use crate::text::{self, concat2, concat3, contains_text, nat_to_text, starts_with_char};
use vstd::prelude::*;
use vstd::string::*;

verus! {

/// The status of an answer that calls for a login.
pub const UNAUTHORIZED: u16 = 401;

/// The standard phrase for a status code, as `reqwest::StatusCode` knows it:
/// none for a number that is no status code and for one without a phrase.
pub uninterp spec fn canonical_reason(status: u16) -> Option<Seq<char>>;

/// `reqwest::StatusCode::canonical_reason` of the status code `status`. The
/// phrase depends on the number alone; its wording is left to that table.
#[verifier::external_body]
fn status_reason(status: u16) -> (reason: Option<String>)
    ensures
        snapshot::text_of(reason) == canonical_reason(status),
{
    let code = reqwest::StatusCode::from_u16(status).ok()?;
    code.canonical_reason().map(String::from)
}

/// A status with its phrase.
pub open spec fn status_text(status: u16) -> Seq<char> {
    text::decimal_nat(status as nat) + " "@ + match canonical_reason(status) {
        Some(reason) => reason,
        None => "<unknown status code>"@,
    }
}

/// A status with a phrase that was looked up for it.
pub fn describe_status(status: u16, reason: Option<String>) -> (text: String)
    ensures
        text@ == text::decimal_nat(status as nat) + " "@ + match reason {
            Some(phrase) => phrase@,
            None => "<unknown status code>"@,
        },
{
    let mut text: String = nat_to_text(status as u128);
    text.append(" ");
    match reason {
        Some(phrase) => text.append(phrase.as_str()),
        None => text.append("<unknown status code>"),
    }
    text
}

/// Why a request came to nothing.
#[derive(Debug)]
pub enum GatewayError {
    /// The gateway answered with a status other than success.
    Http { method: String, endpoint: String, status: u16 },
    /// The gateway could not be reached.
    Request { method: String, endpoint: String, message: String },
    /// The answer could not be read.
    Decode { method: String, endpoint: String, message: String },
    Other(String),
}

/// The status that an error reports, if the gateway answered at all.
pub open spec fn error_status(error: GatewayError) -> Option<u16> {
    match error {
        GatewayError::Http { status, .. } => Some(status),
        _ => None,
    }
}

/// Whether an error says that the login has expired.
pub open spec fn is_unauthorized(error: GatewayError) -> bool {
    error_status(error) == Some(UNAUTHORIZED)
}

/// An error in words.
pub open spec fn error_text(error: GatewayError) -> Seq<char> {
    match error {
        GatewayError::Http { method, endpoint, status } => logging::request_label(
            method@,
            endpoint@,
        ) + " returned "@ + status_text(status),
        GatewayError::Request { method, endpoint, message } => logging::request_label(
            method@,
            endpoint@,
        ) + ": "@ + message@,
        GatewayError::Decode { method, endpoint, message } => logging::request_label(
            method@,
            endpoint@,
        ) + ": "@ + message@,
        GatewayError::Other(message) => message@,
    }
}

impl GatewayError {
    /// The status that the error reports, if the gateway answered at all.
    pub fn status(&self) -> (status: Option<u16>)
        ensures
            status == error_status(*self),
    {
        match self {
            GatewayError::Http { status, .. } => Some(*status),
            _ => None,
        }
    }

    /// Whether the error says that the login has expired.
    pub fn is_unauthorized(&self) -> (expired: bool)
        ensures
            expired == is_unauthorized(*self),
    {
        match self.status() {
            Some(status) => status == UNAUTHORIZED,
            None => false,
        }
    }

    /// The error in words.
    pub fn to_string(&self) -> (text: String)
        ensures
            text@ == error_text(*self),
    {
        match self {
            GatewayError::Http { method, endpoint, status } => {
                let mut text: String = request_name(method.as_str(), endpoint.as_str());
                text.append(" returned ");
                text.append(describe_status(*status, status_reason(*status)).as_str());
                assert(text@ =~= error_text(*self));
                text
            },
            GatewayError::Request { method, endpoint, message } => {
                let mut text: String = request_name(method.as_str(), endpoint.as_str());
                text.append(": ");
                text.append(message.as_str());
                text
            },
            GatewayError::Decode { method, endpoint, message } => {
                let mut text: String = request_name(method.as_str(), endpoint.as_str());
                text.append(": ");
                text.append(message.as_str());
                text
            },
            GatewayError::Other(message) => message.clone(),
        }
    }
}

/// Whether `address` opens with a bracket, as an IPv6 literal in a URL does.
pub open spec fn bracketed(address: Seq<char>) -> bool {
    address.len() > 0 && address[0] == '['
}

/// The host and port of a URL for `address`: a port that the address names
/// stays, else the gateway's default port is added. An IPv6 literal without
/// brackets gets them.
pub open spec fn authority(address: Seq<char>, is_ipv6: bool) -> Seq<char> {
    if bracketed(address) {
        if text::occurs_in(address, "]:"@) {
            address
        } else {
            address + ":8080"@
        }
    } else if is_ipv6 {
        "["@ + address + "]:8080"@
    } else if text::occurs_in(address, ":"@) {
        address
    } else {
        address + ":8080"@
    }
}

/// Whether `address` is the text of an IPv6 address, as std reads addresses.
pub uninterp spec fn ipv6_literal(address: Seq<char>) -> bool;

/// `str::parse` of std, to an `IpAddr`: whether it reads an IPv6 address. The
/// answer depends on the text alone; which texts are addresses is left to std.
#[verifier::external_body]
fn parses_as_ipv6(address: &str) -> (v6: bool)
    ensures
        v6 == ipv6_literal(address@),
{
    match address.parse::<core::net::IpAddr>() {
        Ok(core::net::IpAddr::V6(_)) => true,
        Ok(core::net::IpAddr::V4(_)) => false,
        Err(_) => false,
    }
}

/// The host and port of a URL for `address`.
pub fn gateway_authority(address: &str) -> (text: String)
    ensures
        text@ == authority(address@, ipv6_literal(address@)),
{
    authority_of(address, parses_as_ipv6(address))
}

/// The host and port of a URL for `address`, given whether the address is an
/// IPv6 literal.
pub fn authority_of(address: &str, is_ipv6: bool) -> (text: String)
    ensures
        text@ == authority(address@, is_ipv6),
{
    if starts_with_char(address, '[') {
        return if contains_text(address, "]:") {
            address.to_owned()
        } else {
            concat2(address, ":8080")
        };
    }
    if is_ipv6 {
        return concat3("[", address, "]:8080");
    }
    if contains_text(address, ":") {
        address.to_owned()
    } else {
        concat2(address, ":8080")
    }
}

/// An address that names its port already, or the authority of any other that is
/// not an unclosed bracket, is its own authority.
pub proof fn authority_is_final(address: Seq<char>, is_ipv6: bool)
    requires
        bracketed(address) ==> text::occurs_in(address, "]:"@) || address.last() == ']',
    ensures
        authority(authority(address, is_ipv6), false) == authority(address, is_ipv6),
{
    reveal_strlit("]:");
    reveal_strlit(":");
    reveal_strlit("[");
    reveal_strlit(":8080");
    reveal_strlit("]:8080");
    let result = authority(address, is_ipv6);
    let n = address.len() as int;
    if bracketed(address) {
        if !text::occurs_in(address, "]:"@) {
            assert(result.subrange(n - 1, n + 1) =~= "]:"@);
            assert(text::occurs_at(result, "]:"@, n - 1));
        }
    } else if is_ipv6 {
        assert(result[0] == '[');
        assert(result.subrange(n + 1, n + 3) =~= "]:"@);
        assert(text::occurs_at(result, "]:"@, n + 1));
    } else if !text::occurs_in(address, ":"@) {
        if n > 0 {
            assert(result[0] == address[0]);
        }
        assert(result.subrange(n, n + 1) =~= ":"@);
        assert(text::occurs_at(result, ":"@, n));
    }
}

/// A plain host name or IPv4 address is reached at the default port.
pub proof fn plain_hosts_use_the_default_port(host: Seq<char>, endpoint: Seq<char>)
    requires
        !bracketed(host),
        !text::occurs_in(host, ":"@),
    ensures
        endpoint_url(host, false, endpoint) == "http://"@ + host + ":8080/TMI/v1/"@ + endpoint,
{
    reveal_strlit(":8080");
    reveal_strlit(":8080/TMI/v1/");
    reveal_strlit("/TMI/v1/");
    assert(":8080"@ + "/TMI/v1/"@ =~= ":8080/TMI/v1/"@);
    assert(endpoint_url(host, false, endpoint) =~= "http://"@ + host + (":8080"@ + "/TMI/v1/"@)
        + endpoint);
}

/// The URL of an endpoint of the gateway at `address`.
pub open spec fn endpoint_url(
    address: Seq<char>,
    is_ipv6: bool,
    endpoint: Seq<char>,
) -> Seq<char> {
    "http://"@ + authority(address, is_ipv6) + "/TMI/v1/"@ + endpoint
}

/// A request to send.
#[derive(Debug)]
pub struct HttpRequest {
    pub method: String,
    pub endpoint: String,
    pub url: String,
    /// The value of the authorization header, if the request carries one.
    pub authorization: Option<String>,
}

/// An [`HttpRequest`] as a value.
pub struct HttpRequestView {
    pub method: Seq<char>,
    pub endpoint: Seq<char>,
    pub url: Seq<char>,
    pub authorization: Option<Seq<char>>,
}

impl View for HttpRequest {
    type V = HttpRequestView;

    open spec fn view(&self) -> HttpRequestView {
        HttpRequestView {
            method: self.method@,
            endpoint: self.endpoint@,
            url: self.url@,
            authorization: snapshot::text_of(self.authorization),
        }
    }
}

/// Everything that is read right after a login.
#[derive(Debug)]
pub struct BootstrapData {
    pub gateway: GatewayInfo,
    pub cell: Option<CellRoot>,
    pub sim: Option<SimRoot>,
    pub clients: Option<ClientRoot>,
    pub wifi: Option<WifiConfig>,
}

/// A logged-in, or not yet logged-in, user of one gateway.
#[derive(Debug)]
pub struct GatewayClient {
    pub settings: Settings,
    pub token: Option<String>,
}

/// What a result holds if it is a success.
pub open spec fn success_of<T, E>(result: Result<T, E>) -> Option<T> {
    match result {
        Ok(value) => Some(value),
        Err(_) => None,
    }
}

/// The sources that are read after a login once the report on the gateway was
/// answered.
pub open spec fn sources_after(gateway: Result<GatewayInfo, GatewayError>) -> Seq<DataSourceKind> {
    if gateway is Ok {
        seq![
            DataSourceKind::Signal,
            DataSourceKind::Sim,
            DataSourceKind::Clients,
            DataSourceKind::Wifi,
        ]
    } else {
        Seq::empty()
    }
}

/// The answers to the requests after a login, taken together.
pub open spec fn bootstrap_of(
    gateway: Result<GatewayInfo, GatewayError>,
    cell: Result<CellRoot, GatewayError>,
    sim: Result<SimRoot, GatewayError>,
    clients: Result<ClientRoot, GatewayError>,
    wifi: Result<WifiConfig, GatewayError>,
) -> Result<BootstrapData, GatewayError> {
    match gateway {
        Ok(info) => Ok(
            BootstrapData {
                gateway: info,
                cell: success_of(cell),
                sim: success_of(sim),
                clients: success_of(clients),
                wifi: success_of(wifi),
            },
        ),
        Err(error) => Err(error),
    }
}

/// The token in the answer to a login.
pub open spec fn token_in(response: AuthResponse) -> Option<String> {
    match response.auth {
        Some(auth) => auth.token,
        None => None,
    }
}

/// The token after a login was answered: that of the answer, or the one from
/// before if the answer did not come.
pub open spec fn token_after(
    reply: Result<AuthResponse, GatewayError>,
    before: Option<String>,
) -> Option<String> {
    match reply {
        Ok(response) => token_in(response),
        Err(_) => before,
    }
}

/// Why a login failed, if it did: no answer, or one without a token.
pub open spec fn login_failure(reply: Result<AuthResponse, GatewayError>) -> Option<Seq<char>> {
    match reply {
        Ok(response) => if token_in(response) is Some {
            None
        } else {
            Some("login succeeded but the gateway did not return a token"@)
        },
        Err(error) => Some(error_text(error)),
    }
}

/// Whether these are the members of a login request's body.
pub open spec fn is_login_body(
    body: Seq<(String, String)>,
    username: Seq<char>,
    password: Seq<char>,
) -> bool {
    &&& body.len() == 2
    &&& body[0].0@ == "username"@
    &&& body[0].1@ == username
    &&& body[1].0@ == "password"@
    &&& body[1].1@ == password
}

impl GatewayClient {
    /// The URL of an endpoint.
    pub open spec fn url_of(&self, endpoint: Seq<char>) -> Seq<char> {
        endpoint_url(
            self.settings.gateway_ip@,
            ipv6_literal(self.settings.gateway_ip@),
            endpoint,
        )
    }

    /// A request that reads `endpoint`, with the token if there is one.
    pub open spec fn read_request(&self, endpoint: Seq<char>) -> HttpRequestView {
        HttpRequestView {
            method: "GET"@,
            endpoint,
            url: self.url_of(endpoint),
            authorization: match self.token {
                Some(token) => Some("Bearer "@ + token@),
                None => None,
            },
        }
    }

    /// A request that changes something at `endpoint`, with the token, empty if
    /// there is none.
    pub open spec fn write_request(&self, endpoint: Seq<char>) -> HttpRequestView {
        HttpRequestView {
            method: "POST"@,
            endpoint,
            url: self.url_of(endpoint),
            authorization: Some(
                "Bearer "@ + match self.token {
                    Some(token) => token@,
                    None => Seq::empty(),
                },
            ),
        }
    }

    /// A client that is not logged in.
    pub fn new(settings: Settings) -> (client: Self)
        ensures
            client.settings == settings,
            client.token is None,
    {
        GatewayClient { settings, token: None }
    }

    /// Forgets the token.
    pub fn clear_auth(&mut self)
        ensures
            final(self).token is None,
            final(self).settings == old(self).settings,
    {
        self.token = None;
    }

    /// The URL of an endpoint.
    pub fn url(&self, endpoint: &str) -> (text: String)
        ensures
            text@ == self.url_of(endpoint@),
    {
        let host: String = gateway_authority(self.settings.gateway_ip.as_str());
        let mut text: String = concat3("http://", host.as_str(), "/TMI/v1/");
        text.append(endpoint);
        text
    }

    /// The login request. It carries no token.
    pub open spec fn login_request(&self) -> HttpRequestView {
        HttpRequestView {
            method: "POST"@,
            endpoint: "auth/login"@,
            url: self.url_of("auth/login"@),
            authorization: None,
        }
    }

    /// The login request. It carries no token.
    pub fn login(&self) -> (request: HttpRequest)
        ensures
            request@ == self.login_request(),
    {
        HttpRequest {
            method: "POST".to_owned(),
            endpoint: "auth/login".to_owned(),
            url: self.url("auth/login"),
            authorization: None,
        }
    }

    /// The members of the login request's body, a JSON object: the name and the
    /// password.
    pub fn login_body(username: &str, password: &str) -> (body: Vec<(String, String)>)
        ensures
            is_login_body(body@, username@, password@),
    {
        vec![
            ("username".to_owned(), username.to_owned()),
            ("password".to_owned(), password.to_owned()),
        ]
    }

    /// Takes the token from the answer to a login. An answer without one is an
    /// error, and leaves the client without a token.
    pub fn accept_login(&mut self, response: AuthResponse) -> (outcome: Result<(), GatewayError>)
        ensures
            final(self).settings == old(self).settings,
            final(self).token == token_in(response),
            outcome is Ok == final(self).token is Some,
            outcome matches Err(error) ==> {
                &&& error is Other
                &&& error_text(error)
                    == "login succeeded but the gateway did not return a token"@
            },
    {
        self.token = match response.auth {
            Some(auth) => auth.token,
            None => None,
        };
        if self.token.is_some() {
            Ok(())
        } else {
            Err(
                GatewayError::Other(
                    "login succeeded but the gateway did not return a token".to_owned(),
                ),
            )
        }
    }

    /// The sources that are read after a login once the report on the gateway was
    /// answered: all others, one after the other, or none if there is no report.
    pub fn bootstrap_sources(gateway: &Result<GatewayInfo, GatewayError>) -> (sources: Vec<
        DataSourceKind,
    >)
        ensures
            sources@ =~= sources_after(*gateway),
    {
        match gateway {
            Ok(_) => vec![
                DataSourceKind::Signal,
                DataSourceKind::Sim,
                DataSourceKind::Clients,
                DataSourceKind::Wifi,
            ],
            Err(_) => Vec::new(),
        }
    }

    /// The answers to the requests after a login, taken together: the report on
    /// the gateway has to be there, the others may be missing.
    pub fn bootstrap(
        gateway: Result<GatewayInfo, GatewayError>,
        cell: Result<CellRoot, GatewayError>,
        sim: Result<SimRoot, GatewayError>,
        clients: Result<ClientRoot, GatewayError>,
        wifi: Result<WifiConfig, GatewayError>,
    ) -> (outcome: Result<BootstrapData, GatewayError>)
        ensures
            outcome == bootstrap_of(gateway, cell, sim, clients, wifi),
    {
        match gateway {
            Ok(info) => Ok(
                BootstrapData {
                    gateway: info,
                    cell: cell.ok(),
                    sim: sim.ok(),
                    clients: clients.ok(),
                    wifi: wifi.ok(),
                },
            ),
            Err(error) => Err(error),
        }
    }

    /// A request that reads `endpoint`.
    pub fn get_json(&self, endpoint: &str) -> (request: HttpRequest)
        ensures
            request@ == self.read_request(endpoint@),
    {
        let authorization: Option<String> = match &self.token {
            Some(token) => Some(concat2("Bearer ", token.as_str())),
            None => None,
        };
        HttpRequest {
            method: "GET".to_owned(),
            endpoint: endpoint.to_owned(),
            url: self.url(endpoint),
            authorization,
        }
    }

    /// A request that changes something at `endpoint`.
    fn post(&self, endpoint: &str) -> (request: HttpRequest)
        ensures
            request@ == self.write_request(endpoint@),
    {
        let mut authorization: String = "Bearer ".to_owned();
        if let Some(token) = &self.token {
            authorization.append(token.as_str());
        }
        assert(authorization@ =~= self.write_request(endpoint@).authorization->0);
        HttpRequest {
            method: "POST".to_owned(),
            endpoint: endpoint.to_owned(),
            url: self.url(endpoint),
            authorization: Some(authorization),
        }
    }

    /// The request for the report on the gateway.
    pub fn gateway_info(&self) -> (request: HttpRequest)
        ensures
            request@ == self.read_request("gateway/?get=all"@),
    {
        self.get_json("gateway/?get=all")
    }

    /// The request for the report on the cells.
    pub fn cell_telemetry(&self) -> (request: HttpRequest)
        ensures
            request@ == self.read_request("network/telemetry/?get=cell"@),
    {
        self.get_json("network/telemetry/?get=cell")
    }

    /// The request for the report on the SIM.
    pub fn sim_telemetry(&self) -> (request: HttpRequest)
        ensures
            request@ == self.read_request("network/telemetry/?get=sim"@),
    {
        self.get_json("network/telemetry/?get=sim")
    }

    /// The request for the report on the clients.
    pub fn clients_telemetry(&self) -> (request: HttpRequest)
        ensures
            request@ == self.read_request("network/telemetry/?get=clients"@),
    {
        self.get_json("network/telemetry/?get=clients")
    }

    /// The request for the Wi-Fi configuration.
    pub fn wifi_config(&self) -> (request: HttpRequest)
        ensures
            request@ == self.read_request("network/configuration/v2?get=ap"@),
    {
        self.get_json("network/configuration/v2?get=ap")
    }

    /// The request that stores a Wi-Fi configuration; its body is the
    /// configuration.
    pub fn set_wifi_config(&self) -> (request: HttpRequest)
        ensures
            request@ == self.write_request("network/configuration/v2?set=ap"@),
    {
        self.post("network/configuration/v2?set=ap")
    }

    /// The request to reboot. It has no body.
    pub fn reboot(&self) -> (request: HttpRequest)
        ensures
            request@ == self.write_request("gateway/reset?set=reboot"@),
    {
        self.post("gateway/reset?set=reboot")
    }
}

/// Once a login has brought a token, every request but the next login carries
/// it; without one, nothing that reads carries any.
pub proof fn requests_carry_the_token(client: GatewayClient, endpoint: Seq<char>)
    ensures
        client.token matches Some(token) ==> {
            &&& client.read_request(endpoint).authorization == Some("Bearer "@ + token@)
            &&& client.write_request(endpoint).authorization == Some("Bearer "@ + token@)
        },
        client.token is None ==> client.read_request(endpoint).authorization is None,
        client.login_request().authorization is None,
{
}

/// Whether a status stands for success.
pub open spec fn is_success(status: u16) -> bool {
    200 <= status < 300
}

/// What came of sending a request: a success status, or an error that names the
/// request.
pub open spec fn sending_outcome(
    request: HttpRequest,
    outcome: Result<u16, String>,
) -> Result<u16, GatewayError> {
    match outcome {
        Ok(status) => if is_success(status) {
            Ok(status)
        } else {
            Err(
                GatewayError::Http {
                    method: request.method,
                    endpoint: request.endpoint,
                    status,
                },
            )
        },
        Err(message) => Err(
            GatewayError::Request { method: request.method, endpoint: request.endpoint, message },
        ),
    }
}

/// What came of reading an answer: its content, or an error that names the request.
pub open spec fn reading_outcome<T>(
    request: HttpRequest,
    parsed: Result<T, String>,
) -> Result<T, GatewayError> {
    match parsed {
        Ok(content) => Ok(content),
        Err(message) => Err(
            GatewayError::Decode { method: request.method, endpoint: request.endpoint, message },
        ),
    }
}

/// What came of sending a request: `outcome` is the status of the answer, or why
/// there was none.
pub fn send_request(request: &HttpRequest, outcome: Result<u16, String>) -> (sent: Result<
    u16,
    GatewayError,
>)
    ensures
        sent == sending_outcome(*request, outcome),
{
    match outcome {
        Ok(status) => if 200 <= status && status < 300 {
            Ok(status)
        } else {
            Err(
                GatewayError::Http {
                    method: request.method.clone(),
                    endpoint: request.endpoint.clone(),
                    status,
                },
            )
        },
        Err(message) => Err(
            GatewayError::Request {
                method: request.method.clone(),
                endpoint: request.endpoint.clone(),
                message,
            },
        ),
    }
}

/// What came of reading an answer: `parsed` is its content, or why it could not
/// be read.
pub fn parse_json_response<T>(request: &HttpRequest, parsed: Result<T, String>) -> (read: Result<
    T,
    GatewayError,
>)
    ensures
        read == reading_outcome(*request, parsed),
{
    match parsed {
        Ok(content) => Ok(content),
        Err(message) => Err(
            GatewayError::Decode {
                method: request.method.clone(),
                endpoint: request.endpoint.clone(),
                message,
            },
        ),
    }
}

} // verus!
