//! Where a client connects to: what its server URL names, which host and port
//! are dialed, and what is said of a connection that does not come about.

use tokio_tungstenite::tungstenite::client::IntoClientRequest;
use vstd::prelude::*;

use crate::text::{decimal, optional_text, push_decimal, same_text};

verus! {

/// `http::Request`, carried from the code that builds it to the code that
/// sends it.
#[verifier::external_type_specification]
#[verifier::external_body]
#[verifier::reject_recursive_types(T)]
pub struct ExRequest<T>(http::Request<T>);

/// What a URI names.
#[derive(Debug)]
pub struct UriParts {
    pub scheme: Option<String>,
    /// User information, host and port, as they stand in the URI.
    pub authority: Option<String>,
    pub host: Option<String>,
    pub port: Option<u16>,
    /// The path; empty where there is none.
    pub path: String,
    pub query: Option<String>,
}

/// What a URI names, as mathematical values.
pub struct UriView {
    pub scheme: Option<Seq<char>>,
    pub authority: Option<Seq<char>>,
    pub host: Option<Seq<char>>,
    pub port: Option<u16>,
    pub path: Seq<char>,
    pub query: Option<Seq<char>>,
}

impl View for UriParts {
    type V = UriView;

    open spec fn view(&self) -> UriView {
        UriView {
            scheme: optional_text(self.scheme),
            authority: optional_text(self.authority),
            host: optional_text(self.host),
            port: self.port,
            path: self.path@,
            query: optional_text(self.query),
        }
    }
}

impl UriView {
    /// A URI has a host exactly where it has an authority.
    pub open spec fn wf(self) -> bool {
        self.host is Some <==> self.authority is Some
    }
}

/// What a request says.
#[derive(Debug)]
pub struct RequestParts {
    /// The Host header.
    pub host: String,
    /// The scheme of the request's URI, by which the connection is encrypted
    /// or plain.
    pub scheme: Option<String>,
    /// The host of the request's URI. TLS asks for that name, without the
    /// brackets of an IPv6 address.
    pub server_name: Option<String>,
    /// The path that is asked for.
    pub path: String,
    /// The query that is asked for.
    pub query: Option<String>,
}

/// What a request says, as mathematical values.
pub struct RequestView {
    pub host: Seq<char>,
    pub scheme: Option<Seq<char>>,
    pub server_name: Option<Seq<char>>,
    pub path: Seq<char>,
    pub query: Option<Seq<char>>,
}

impl View for RequestParts {
    type V = RequestView;

    open spec fn view(&self) -> RequestView {
        RequestView {
            host: self.host@,
            scheme: optional_text(self.scheme),
            server_name: optional_text(self.server_name),
            path: self.path@,
            query: optional_text(self.query),
        }
    }
}

/// The request that opens a WebSocket, together with what it says.
#[derive(Debug)]
pub struct ClientRequest {
    request: http::Request<()>,
    says: RequestParts,
}

impl ClientRequest {
    /// The request itself.
    pub closed spec fn raw(self) -> http::Request<()> {
        self.request
    }

    /// What the request says.
    pub closed spec fn spoken(self) -> RequestView {
        self.says@
    }

    /// This is a request that was built for `url`: the request itself and what
    /// it says came from there together.
    pub closed spec fn built_for(self, url: &str) -> bool {
        call_ensures(client_request, (url,), Ok::<ClientRequest, String>(self))
    }

    /// What the request says.
    pub fn says(&self) -> (parts: &RequestParts)
        ensures
            parts@ == self.spoken(),
    {
        &self.says
    }

    /// The request itself, to be sent.
    pub fn into_request(self) -> (request: http::Request<()>)
        ensures
            request == self.raw(),
    {
        self.request
    }
}

/// How to reach the server.
#[derive(Debug)]
pub struct DialPlan {
    /// The host to dial.
    pub host: String,
    /// The port to dial.
    pub port: u16,
    /// The request to send there.
    pub request: ClientRequest,
}

/// How to reach the server, as mathematical values.
pub struct DialView {
    pub host: Seq<char>,
    pub port: u16,
    pub request: RequestView,
}

impl View for DialPlan {
    type V = DialView;

    open spec fn view(&self) -> DialView {
        DialView { host: self.host@, port: self.port, request: self.request.spoken() }
    }
}

/// What `http::Uri` reads from a text: what the URI names, or the text of the
/// error.
pub uninterp spec fn parsed_uri(text: Seq<char>) -> Result<UriView, Seq<char>>;

/// Parses `text` as an `http::Uri` and takes its parts out.
///
/// Trusted: the outcome of `http::Uri::from_str`, with `scheme_str`,
/// `authority`, `host`, `port_u16`, `path` and `query` of what it gives or the
/// text of its error, depends on the characters of `text` alone. `host` is
/// taken from `authority`, so that the one is there exactly where the other is.
#[verifier::external_body]
fn parse_uri(text: &str) -> (parts: Result<UriParts, String>)
    ensures
        match parts {
            Ok(parts) => parsed_uri(text@) == Ok::<UriView, Seq<char>>(parts@) && parts@.wf(),
            Err(error) => parsed_uri(text@) == Err::<UriView, Seq<char>>(error@),
        },
{
    match text.parse::<http::Uri>() {
        Ok(uri) => Ok(UriParts {
            scheme: uri.scheme_str().map(str::to_owned),
            authority: uri.authority().map(|authority| authority.as_str().to_owned()),
            host: uri.host().map(str::to_owned),
            port: uri.port_u16(),
            path: uri.path().to_owned(),
            query: uri.query().map(str::to_owned),
        }),
        Err(error) => Err(error.to_string()),
    }
}

/// What an authority says after its user information: what follows the first
/// `@`, or all of it.
pub open spec fn past_user(authority: Seq<char>) -> Seq<char> {
    match authority.index_of_first('@') {
        Some(i) => authority.skip(i + 1),
        None => authority,
    }
}

/// What a request for a URI says, or why there is no request for it.
pub open spec fn request_for(uri: UriView) -> Result<RequestView, Seq<char>> {
    match uri.authority {
        None => Err("URL error: No host name in the URL"@),
        Some(authority) => if past_user(authority).len() == 0 {
            Err("URL error: URL contains empty host name"@)
        } else {
            Ok(
                RequestView {
                    host: past_user(authority),
                    scheme: uri.scheme,
                    server_name: uri.host,
                    path: uri.path,
                    query: uri.query,
                },
            )
        },
    }
}

/// Builds the request that opens a WebSocket at `url`.
///
/// Trusted: for a text that is a URI, `IntoClientRequest::into_client_request`
/// gives a request exactly where the URI has an authority that says something
/// after its user information, and that is the request's Host header;
/// otherwise its error says which of the two is missing. The request is for
/// that URI, so that `scheme_str`, `host`, `path` and `query` of the request's
/// own URI are those that the text names. Nothing is said of the request's
/// other headers, one of which holds a key drawn at random.
#[verifier::external_body]
fn client_request(url: &str) -> (request: Result<ClientRequest, String>)
    requires
        parsed_uri(url@) is Ok,
    ensures
        match request {
            Ok(request) => request_for(parsed_uri(url@)->Ok_0) == Ok::<RequestView, Seq<char>>(
                request.spoken(),
            ),
            Err(error) => request_for(parsed_uri(url@)->Ok_0) == Err::<RequestView, Seq<char>>(
                error@,
            ),
        },
{
    match url.into_client_request() {
        Ok(request) => {
            let says = RequestParts {
                host: String::from_utf8_lossy(request.headers()["Host"].as_bytes()).into_owned(),
                scheme: request.uri().scheme_str().map(str::to_owned),
                server_name: request.uri().host().map(str::to_owned),
                path: request.uri().path().to_owned(),
                query: request.uri().query().map(str::to_owned),
            };
            Ok(ClientRequest { request, says })
        },
        Err(error) => Err(error.to_string()),
    }
}

/// The host and port to dial for a URI: a given host goes before the URI's
/// own, and a port that the URI does not name is that of its scheme.
pub open spec fn dial_address_of(uri: UriView, connect_host: Option<Seq<char>>) -> Result<
    (Seq<char>, u16),
    Seq<char>,
> {
    let host = if connect_host is Some {
        connect_host
    } else {
        uri.host
    };
    let port = if uri.port is Some {
        uri.port
    } else if uri.scheme == Some("wss"@) {
        Some(443u16)
    } else if uri.scheme == Some("ws"@) {
        Some(80u16)
    } else {
        None
    };
    match (host, port) {
        (None, _) => Err("server_url is missing a host"@),
        (Some(_), None) => Err("server_url has an unsupported scheme"@),
        (Some(host), Some(port)) => Ok((host, port)),
    }
}

/// How to reach the server at a URL: the request follows the URL alone, and
/// only the dialed host gives way to `connect_host`.
pub open spec fn dial_plan_of(
    uri: Result<UriView, Seq<char>>,
    connect_host: Option<Seq<char>>,
) -> Result<DialView, Seq<char>> {
    match uri {
        Err(error) => Err(error),
        Ok(uri) => match request_for(uri) {
            Err(error) => Err(error),
            Ok(request) => match dial_address_of(uri, connect_host) {
                Err(error) => Err(error),
                Ok((host, port)) => Ok(DialView { host, port, request }),
            },
        },
    }
}

/// The host and port to dial for what a URI names.
pub fn dial_address(uri: &UriParts, connect_host: &Option<String>) -> (address: Result<
    (String, u16),
    String,
>)
    ensures
        match address {
            Ok((host, port)) => dial_address_of(uri@, optional_text(*connect_host)) == Ok::<
                (Seq<char>, u16),
                Seq<char>,
            >((host@, port)),
            Err(error) => dial_address_of(uri@, optional_text(*connect_host)) == Err::<
                (Seq<char>, u16),
                Seq<char>,
            >(error@),
        },
{
    let host = match (connect_host, &uri.host) {
        (Some(host), _) => host.clone(),
        (None, Some(host)) => host.clone(),
        (None, None) => return Err("server_url is missing a host".to_owned()),
    };
    let port: u16 = match (uri.port, &uri.scheme) {
        (Some(port), _) => port,
        (None, Some(scheme)) => {
            if same_text(scheme.as_str(), "wss") {
                443
            } else if same_text(scheme.as_str(), "ws") {
                80
            } else {
                return Err("server_url has an unsupported scheme".to_owned());
            }
        },
        (None, None) => return Err("server_url has an unsupported scheme".to_owned()),
    };
    Ok((host, port))
}

/// How to reach the server at `server_url`. The request to send is the one that
/// was built for that URL, whatever host is dialed.
pub fn plan_dial(server_url: &str, connect_host: &Option<String>) -> (plan: Result<
    DialPlan,
    String,
>)
    ensures
        match plan {
            Ok(plan) => dial_plan_of(parsed_uri(server_url@), optional_text(*connect_host)) == Ok::<
                DialView,
                Seq<char>,
            >(plan@) && plan.request.built_for(server_url),
            Err(error) => dial_plan_of(parsed_uri(server_url@), optional_text(*connect_host))
                == Err::<DialView, Seq<char>>(error@),
        },
        parsed_uri(server_url@) matches Ok(uri) ==> uri.wf(),
{
    let uri = match parse_uri(server_url) {
        Ok(uri) => uri,
        Err(error) => return Err(error),
    };
    let request = match client_request(server_url) {
        Ok(request) => request,
        Err(error) => return Err(error),
    };
    match dial_address(&uri, connect_host) {
        Ok((host, port)) => Ok(DialPlan { host, port, request }),
        Err(error) => Err(error),
    }
}

/// What was read of a URI, or the text of the error, as mathematical values.
pub open spec fn read_view(uri: Result<UriParts, String>) -> Result<UriView, Seq<char>> {
    match uri {
        Ok(uri) => Ok(uri@),
        Err(error) => Err(error@),
    }
}

/// The host that a URL names.
pub open spec fn url_host(uri: Result<UriView, Seq<char>>) -> Result<Seq<char>, Seq<char>> {
    match uri {
        Err(error) => Err(error),
        Ok(uri) => match uri.host {
            Some(host) => Ok(host),
            None => Err("server_url is missing a host"@),
        },
    }
}

/// The host that a URI names, or why there is none.
pub fn host_of(uri: Result<UriParts, String>) -> (host: Result<String, String>)
    ensures
        match host {
            Ok(host) => url_host(read_view(uri)) == Ok::<Seq<char>, Seq<char>>(host@),
            Err(error) => url_host(read_view(uri)) == Err::<Seq<char>, Seq<char>>(error@),
        },
{
    match uri {
        Ok(uri) => match uri.host {
            Some(host) => Ok(host),
            None => Err("server_url is missing a host".to_owned()),
        },
        Err(error) => Err(error),
    }
}

/// The host that `server_url` names.
pub fn host_from_server_url(server_url: &str) -> (host: Result<String, String>)
    ensures
        match host {
            Ok(host) => url_host(parsed_uri(server_url@)) == Ok::<Seq<char>, Seq<char>>(host@),
            Err(error) => url_host(parsed_uri(server_url@)) == Err::<Seq<char>, Seq<char>>(error@),
        },
{
    host_of(parse_uri(server_url))
}

/// The host that a client reports to dial: the given one, else that of the
/// server URL, else `unknown`.
pub open spec fn reported_host(
    url_host: Result<Seq<char>, Seq<char>>,
    connect_host: Option<Seq<char>>,
) -> Seq<char> {
    match (connect_host, url_host) {
        (Some(host), _) => host,
        (None, Ok(host)) => host,
        (None, Err(_)) => "unknown"@,
    }
}

/// The host that a client reports to dial, where its server URL names `named`.
pub fn report_host(named: Result<String, String>, connect_host: &Option<String>) -> (host: String)
    ensures
        host@ == reported_host(
            match named {
                Ok(host) => Ok(host@),
                Err(error) => Err(error@),
            },
            optional_text(*connect_host),
        ),
{
    match (connect_host, named) {
        (Some(host), _) => host.clone(),
        (None, Ok(host)) => host,
        (None, Err(_)) => "unknown".to_owned(),
    }
}

/// The host that a client reports to dial.
pub fn dial_target(server_url: &str, connect_host: &Option<String>) -> (host: String)
    ensures
        host@ == reported_host(url_host(parsed_uri(server_url@)), optional_text(*connect_host)),
{
    report_host(host_from_server_url(server_url), connect_host)
}

/// Why a WebSocket handshake failed.
#[derive(Debug)]
pub enum HandshakeError {
    /// The server answered with this HTTP status.
    Http(u16),
    /// Something else, with the text of its error.
    Other(String),
}

/// Why the server was not reached.
#[derive(Debug)]
pub enum DialError {
    TcpTimedOut,
    TcpFailed(String),
    /// The connection could not be set up for small packets.
    SetupFailed(String),
    HandshakeTimedOut,
    HandshakeFailed(HandshakeError),
}

/// The reason phrase of an HTTP status in `http::StatusCode`'s text.
pub uninterp spec fn reason_phrase(code: u16) -> Seq<char>;

/// An HTTP status as text: its code, a space and its reason phrase.
pub open spec fn status_line(code: u16) -> Seq<char> {
    decimal(code as nat) + " "@ + reason_phrase(code)
}

/// Writes an HTTP status as text.
///
/// Trusted: `http::StatusCode::from_u16` takes the codes from 100 to 999, and
/// the `Display` of a status writes its code, a space and a reason phrase
/// that depends on the code alone.
#[verifier::external_body]
fn status_text(code: u16) -> (text: String)
    requires
        100 <= code <= 999,
    ensures
        text@ == decimal(code as nat) + " "@ + reason_phrase(code),
{
    http::StatusCode::from_u16(code).unwrap().to_string()
}

/// What is said of a handshake that was answered with an HTTP status.
pub open spec fn http_report(server_url: Seq<char>, code: u16, status: Seq<char>) -> Seq<char> {
    if code == 404 {
        "websocket handshake for "@ + server_url
            + " returned 404 Not Found; check that the server path matches exactly"@
    } else {
        "websocket handshake for "@ + server_url + " failed with HTTP "@ + status
            + "; check the reverse proxy, path, and authentication rules"@
    }
}

/// Describes a handshake that was answered with the HTTP status `code`, which
/// reads `status`.
pub fn describe_http_status(server_url: &str, code: u16, status: &str) -> (report: String)
    ensures
        report@ == http_report(server_url@, code, status@),
{
    let mut report = "websocket handshake for ".to_owned();
    report.append(server_url);
    if code == 404 {
        report.append(" returned 404 Not Found; check that the server path matches exactly");
    } else {
        report.append(" failed with HTTP ");
        report.append(status);
        report.append("; check the reverse proxy, path, and authentication rules");
    }
    report
}

/// What is said of a failed handshake.
pub open spec fn handshake_report(server_url: Seq<char>, error: HandshakeError) -> Seq<char> {
    match error {
        HandshakeError::Http(code) => http_report(server_url, code, status_line(code)),
        HandshakeError::Other(other) => "failed to complete websocket handshake for "@ + server_url
            + ": "@ + other@ + "; check the server path, reverse proxy, and TLS settings"@,
    }
}

/// An HTTP status has three digits, the first of them no zero.
pub open spec fn valid_status(error: HandshakeError) -> bool {
    error matches HandshakeError::Http(code) ==> 100 <= code <= 999
}

/// Describes a failed handshake.
pub fn describe_handshake_error(server_url: &str, error: HandshakeError) -> (report: String)
    requires
        valid_status(error),
    ensures
        report@ == handshake_report(server_url@, error),
{
    match error {
        HandshakeError::Http(code) => {
            let status = status_text(code);
            describe_http_status(server_url, code, status.as_str())
        },
        HandshakeError::Other(other) => {
            let mut report = "failed to complete websocket handshake for ".to_owned();
            report.append(server_url);
            report.append(": ");
            report.append(other.as_str());
            report.append("; check the server path, reverse proxy, and TLS settings");
            report
        },
    }
}

/// What is said of a server that was not reached.
pub open spec fn dial_report(
    server_url: Seq<char>,
    host: Seq<char>,
    port: u16,
    error: DialError,
) -> Seq<char> {
    let via = server_url + " via "@ + host + ":"@ + decimal(port as nat);
    match error {
        DialError::TcpTimedOut => "timed out connecting to websocket endpoint "@ + via
            + "; check whether the server, reverse proxy, or firewall is reachable"@,
        DialError::TcpFailed(reason) => "failed to connect to websocket endpoint "@ + via + ": "@
            + reason@ + "; check whether the server, reverse proxy, or firewall is reachable"@,
        DialError::SetupFailed(reason) => reason@,
        DialError::HandshakeTimedOut => "timed out completing websocket handshake for "@
            + server_url + "; check the server path, reverse proxy, and TLS settings"@,
        DialError::HandshakeFailed(error) => handshake_report(server_url, error),
    }
}

/// Describes why the server at `server_url`, dialed at `host` and `port`, was
/// not reached.
pub fn describe_dial_error(server_url: &str, host: &str, port: u16, error: DialError) -> (report:
    String)
    requires
        error matches DialError::HandshakeFailed(failure) ==> valid_status(failure),
    ensures
        report@ == dial_report(server_url@, host@, port, error),
{
    let mut via = server_url.to_owned();
    via.append(" via ");
    via.append(host);
    via.append(":");
    push_decimal(&mut via, port);
    match error {
        DialError::TcpTimedOut => {
            let mut report = "timed out connecting to websocket endpoint ".to_owned();
            report.append(via.as_str());
            report.append("; check whether the server, reverse proxy, or firewall is reachable");
            report
        },
        DialError::TcpFailed(reason) => {
            let mut report = "failed to connect to websocket endpoint ".to_owned();
            report.append(via.as_str());
            report.append(": ");
            report.append(reason.as_str());
            report.append("; check whether the server, reverse proxy, or firewall is reachable");
            report
        },
        DialError::SetupFailed(reason) => reason,
        DialError::HandshakeTimedOut => {
            let mut report = "timed out completing websocket handshake for ".to_owned();
            report.append(server_url);
            report.append("; check the server path, reverse proxy, and TLS settings");
            report
        },
        DialError::HandshakeFailed(failure) => describe_handshake_error(server_url, failure),
    }
}

/// A given host changes where the client dials and nothing else: the port, and
/// all that the request says (its scheme, path and query, its Host header and
/// the name that TLS asks for) still follow the server URL, and the URL is
/// refused for the same reasons.
pub proof fn law_connect_host_changes_the_dialed_host_only(
    uri: Result<UriView, Seq<char>>,
    connect_host: Seq<char>,
)
    requires
        uri matches Ok(uri) ==> uri.wf(),
    ensures
        match (dial_plan_of(uri, Some(connect_host)), dial_plan_of(uri, None)) {
            (Ok(plan), Ok(plain)) => {
                &&& plan == (DialView { host: connect_host, ..plain })
                &&& plan.request == (RequestView {
                    host: past_user(uri->Ok_0.authority->0),
                    scheme: uri->Ok_0.scheme,
                    server_name: uri->Ok_0.host,
                    path: uri->Ok_0.path,
                    query: uri->Ok_0.query,
                })
            },
            (Err(error), Err(plain)) => error == plain,
            _ => false,
        },
{
}

/// A request that was built for a URL says what that URL names, and nothing
/// of any host that is dialed in its place.
pub proof fn law_request_follows_its_url(request: ClientRequest, url: &str)
    requires
        parsed_uri(url@) is Ok,
        request.built_for(url),
    ensures
        request_for(parsed_uri(url@)->Ok_0) == Ok::<RequestView, Seq<char>>(request.spoken()),
{
}

/// User information, up to the first `@`, is no part of what follows it, and
/// without it all of an authority stays.
pub proof fn law_user_information_is_left_out(user: Seq<char>, rest: Seq<char>)
    requires
        !user.contains('@'),
    ensures
        past_user(user + seq!['@'] + rest) == rest,
        past_user(user) == user,
{
    let authority = user + seq!['@'] + rest;
    let n = user.len() as int;
    assert(authority[n] == '@');
    assert forall|i: int| 0 <= i < n implies #[trigger] authority[i] != '@' by {
        assert(authority[i] == user[i]);
        assert(user.contains(user[i]));
    }
    authority.index_of_first_ensures('@');
    user.index_of_first_ensures('@');
    assert(authority.contains('@'));
    assert(authority.skip(n + 1) =~= rest);
}

/// A request is built exactly where the URI names an authority that says
/// something past its user information: it says just that as its host, and
/// otherwise what the URI names.
pub proof fn law_request_says_what_the_uri_names(uri: UriView)
    ensures
        match request_for(uri) {
            Ok(request) => {
                &&& uri.authority is Some
                &&& past_user(uri.authority->0).len() > 0
                &&& request.host == past_user(uri.authority->0)
                &&& request.scheme == uri.scheme
                &&& request.server_name == uri.host
                &&& request.path == uri.path
                &&& request.query == uri.query
            },
            Err(error) => {
                &&& uri.authority is None ==> error == "URL error: No host name in the URL"@
                &&& uri.authority is Some ==> past_user(uri.authority->0).len() == 0 && error
                    == "URL error: URL contains empty host name"@
            },
        },
        uri.wf() <==> (uri.host is Some <==> uri.authority is Some),
{
}

/// The host to dial is the given one, else that of the URI; the port is that
/// of the URI, else 443 for `wss` and 80 for `ws`. Without a host there is
/// nothing to dial, and then without a port neither.
pub proof fn law_given_host_and_own_port_are_dialed(
    uri: &UriParts,
    connect_host: &Option<String>,
    address: Result<(String, u16), String>,
)
    requires
        call_ensures(dial_address, (uri, connect_host), address),
    ensures
        match address {
            Ok((host, port)) => {
                &&& match (*connect_host, uri.host) {
                    (Some(given), _) => host@ == given@,
                    (None, Some(own)) => host@ == own@,
                    (None, None) => false,
                }
                &&& match (uri.port, uri.scheme) {
                    (Some(own), _) => port == own,
                    (None, Some(scheme)) => (scheme@ == "wss"@ && port == 443) || (scheme@ == "ws"@
                        && port == 80),
                    (None, None) => false,
                }
            },
            Err(error) => if *connect_host is None && uri.host is None {
                error@ == "server_url is missing a host"@
            } else {
                &&& error@ == "server_url has an unsupported scheme"@
                &&& uri.port is None
                &&& uri.scheme matches Some(scheme) ==> scheme@ != "wss"@ && scheme@ != "ws"@
            },
        },
{
    reveal_strlit("wss");
    reveal_strlit("ws");
    assert("wss"@.len() != "ws"@.len());
}

/// A server is reached as its URL says: the dialed port, and a host that is
/// not given, are those of the URL, the request is the one for the URL, and a
/// URL that cannot be read, or has no request, is refused for that reason.
pub proof fn law_plan_follows_the_url(
    server_url: &str,
    connect_host: &Option<String>,
    plan: Result<DialPlan, String>,
)
    requires
        call_ensures(plan_dial, (server_url, connect_host), plan),
    ensures
        match parsed_uri(server_url@) {
            Err(error) => plan matches Err(told) && told@ == error,
            Ok(uri) => {
                &&& uri.wf()
                &&& request_for(uri) matches Err(error) ==> (plan matches Err(told) && told@
                    == error)
                &&& plan matches Ok(plan) ==> {
                    &&& plan.request.built_for(server_url)
                    &&& request_for(uri) == Ok::<RequestView, Seq<char>>(plan.request.spoken())
                    &&& match *connect_host {
                        Some(given) => plan.host@ == given@,
                        None => uri.host == Some(plan.host@),
                    }
                    &&& uri.port matches Some(own) ==> plan.port == own
                    &&& uri.port is None ==> (uri.scheme == Some("wss"@) && plan.port == 443) || (
                    uri.scheme == Some("ws"@) && plan.port == 80)
                }
                &&& request_for(uri) is Ok && (uri.port is Some || uri.scheme == Some("ws"@)
                    || uri.scheme == Some("wss"@)) ==> plan is Ok
                &&& request_for(uri) is Ok && plan is Err ==> plan->Err_0@
                    == "server_url has an unsupported scheme"@
            },
        },
{
    reveal_strlit("wss");
    reveal_strlit("ws");
    assert("wss"@.len() != "ws"@.len());
}

/// The host of a URL is the one that it names, and what is said of a URL
/// without one, or of one that cannot be read, is why.
pub proof fn law_host_is_the_one_named(
    server_url: &str,
    host: Result<String, String>,
    read: Result<UriParts, String>,
    of_read: Result<String, String>,
)
    requires
        call_ensures(host_from_server_url, (server_url,), host),
        call_ensures(host_of, (read,), of_read),
    ensures
        match parsed_uri(server_url@) {
            Err(error) => host matches Err(told) && told@ == error,
            Ok(uri) => match uri.host {
                Some(named) => host matches Ok(found) && found@ == named,
                None => host matches Err(told) && told@ == "server_url is missing a host"@,
            },
        },
        match read {
            Err(error) => of_read matches Err(told) && told@ == error@,
            Ok(uri) => match uri.host {
                Some(named) => of_read matches Ok(found) && found@ == named@,
                None => of_read matches Err(told) && told@ == "server_url is missing a host"@,
            },
        },
{
}

/// The host that is reported is the given one, else the one that the URL
/// names, else `unknown`.
pub proof fn law_reported_host_is_the_dialed_one(
    server_url: &str,
    connect_host: &Option<String>,
    target: String,
    named: Result<String, String>,
    reported: String,
)
    requires
        call_ensures(dial_target, (server_url, connect_host), target),
        call_ensures(report_host, (named, connect_host), reported),
    ensures
        match *connect_host {
            Some(given) => target@ == given@ && reported@ == given@,
            None => {
                &&& match parsed_uri(server_url@) {
                    Ok(uri) => target@ == match uri.host {
                        Some(host) => host,
                        None => "unknown"@,
                    },
                    Err(_) => target@ == "unknown"@,
                }
                &&& match named {
                    Ok(host) => reported@ == host@,
                    Err(_) => reported@ == "unknown"@,
                }
            },
        },
{
}

/// A handshake that was answered with 404 points at the path; any other status
/// is reported as it reads.
pub proof fn law_http_status_is_reported(
    server_url: &str,
    code: u16,
    status: &str,
    report: String,
)
    requires
        call_ensures(describe_http_status, (server_url, code, status), report),
    ensures
        code == 404 ==> report@ == "websocket handshake for "@ + server_url@
            + " returned 404 Not Found; check that the server path matches exactly"@,
        code != 404 ==> report@ == "websocket handshake for "@ + server_url@ + " failed with HTTP "@
            + status@ + "; check the reverse proxy, path, and authentication rules"@,
{
}

/// A failed handshake is reported by the status that answered it, its code in
/// base ten and its phrase, or else by its error.
pub proof fn law_failed_handshake_is_reported(
    server_url: &str,
    error: HandshakeError,
    report: String,
)
    requires
        valid_status(error),
        call_ensures(describe_handshake_error, (server_url, error), report),
    ensures
        match error {
            HandshakeError::Http(code) => report@ == if code == 404 {
                "websocket handshake for "@ + server_url@
                    + " returned 404 Not Found; check that the server path matches exactly"@
            } else {
                "websocket handshake for "@ + server_url@ + " failed with HTTP "@ + (decimal(
                    code as nat,
                ) + " "@ + reason_phrase(code))
                    + "; check the reverse proxy, path, and authentication rules"@
            },
            HandshakeError::Other(other) => report@ == "failed to complete websocket handshake for "@
                + server_url@ + ": "@ + other@
                + "; check the server path, reverse proxy, and TLS settings"@,
        },
{
}

/// A server that was not reached is reported by how far the client came: the
/// URL, the host and port that it dialed, and the error that it met.
pub proof fn law_unreached_server_is_reported(
    server_url: &str,
    host: &str,
    port: u16,
    error: DialError,
    report: String,
    handshake: String,
)
    requires
        error matches DialError::HandshakeFailed(failure) ==> valid_status(failure)
            && call_ensures(describe_handshake_error, (server_url, failure), handshake),
        call_ensures(describe_dial_error, (server_url, host, port, error), report),
    ensures
        ({
            let via = server_url@ + " via "@ + host@ + ":"@ + decimal(port as nat);
            match error {
                DialError::TcpTimedOut => report@ == "timed out connecting to websocket endpoint "@
                    + via + "; check whether the server, reverse proxy, or firewall is reachable"@,
                DialError::TcpFailed(reason) => report@
                    == "failed to connect to websocket endpoint "@ + via + ": "@ + reason@
                    + "; check whether the server, reverse proxy, or firewall is reachable"@,
                DialError::SetupFailed(reason) => report@ == reason@,
                DialError::HandshakeTimedOut => report@
                    == "timed out completing websocket handshake for "@ + server_url@
                    + "; check the server path, reverse proxy, and TLS settings"@,
                DialError::HandshakeFailed(_) => report@ == handshake@,
            }
        }),
{
}

/// What a request says, and what was read of a URI, is shown in full.
pub proof fn law_views_show_requests_and_uris(
    request: &ClientRequest,
    says: &RequestParts,
    uri: UriParts,
)
    requires
        call_ensures(ClientRequest::says, (request,), says),
    ensures
        says.host@ == request.spoken().host,
        optional_text(says.scheme) == request.spoken().scheme,
        optional_text(says.server_name) == request.spoken().server_name,
        says.path@ == request.spoken().path,
        optional_text(says.query) == request.spoken().query,
        uri@.scheme == optional_text(uri.scheme),
        uri@.authority == optional_text(uri.authority),
        uri@.host == optional_text(uri.host),
        uri@.port == uri.port,
        uri@.path == uri.path@,
        uri@.query == optional_text(uri.query),
{
}

} // verus!
