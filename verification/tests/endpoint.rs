use ws_tunnel::endpoint::{
    describe_dial_error, describe_handshake_error, describe_http_status, dial_address,
    dial_target, host_from_server_url, host_of, plan_dial, report_host, DialError, HandshakeError,
    UriParts,
};

const URL: &str = "wss://tunnel.example.com/tunnel";

fn parts(scheme: Option<&str>, host: Option<&str>, port: Option<u16>) -> UriParts {
    UriParts {
        scheme: scheme.map(str::to_string),
        authority: host.map(str::to_string),
        host: host.map(str::to_string),
        port,
        path: "/".to_string(),
        query: None,
    }
}

#[test]
fn a_plan_follows_the_url() {
    let plan = plan_dial(URL, &None).unwrap();
    assert_eq!(plan.host, "tunnel.example.com");
    assert_eq!(plan.port, 443);
    assert_eq!(plan.request.says().host, "tunnel.example.com");
    assert_eq!(plan.request.says().scheme.as_deref(), Some("wss"));
    assert_eq!(plan.request.says().query, None);
    let request = plan.request.into_request();
    assert_eq!(request.uri().path(), "/tunnel");
    assert_eq!(request.headers()["Upgrade"], "websocket");

    let plan = plan_dial("ws://localhost/x", &None).unwrap();
    assert_eq!((plan.host.as_str(), plan.port), ("localhost", 80));

    let plan = plan_dial("wss://host:8443/", &None).unwrap();
    assert_eq!((plan.host.as_str(), plan.port), ("host", 8443));
    assert_eq!(plan.request.says().host, "host:8443");
}

#[test]
fn the_request_that_is_sent_is_the_one_for_the_url() {
    let url = "ws://host:81/tunnel?key=value";
    let plan = plan_dial(url, &Some("1.2.3.4".to_string())).unwrap();
    let says = plan.request.says();
    assert_eq!(says.scheme.as_deref(), Some("ws"));
    assert_eq!(says.server_name.as_deref(), Some("host"));
    assert_eq!(says.path, "/tunnel");
    assert_eq!(says.query.as_deref(), Some("key=value"));
    let request = plan.request.into_request();
    assert_eq!(request.uri().to_string(), url);
    assert_eq!(request.headers()["Host"], "host:81");
    assert_eq!(request.method().as_str(), "GET");
}

#[test]
fn a_given_host_changes_the_dialed_host_only() {
    let plan = plan_dial(URL, &Some("1.2.3.4".to_string())).unwrap();
    assert_eq!(plan.host, "1.2.3.4");
    assert_eq!(plan.port, 443);
    assert_eq!(plan.request.says().host, "tunnel.example.com");
    assert_eq!(plan.request.says().server_name.as_deref(), Some("tunnel.example.com"));
    assert_eq!(plan.request.says().path, "/tunnel");
    assert_eq!(plan.request.into_request().uri().to_string(), URL);
}

#[test]
fn user_information_is_no_part_of_the_host_header() {
    let plan = plan_dial("ws://user:pw@host:81/", &None).unwrap();
    assert_eq!(plan.host, "host");
    assert_eq!(plan.port, 81);
    assert_eq!(plan.request.says().host, "host:81");
    assert_eq!(plan.request.says().server_name.as_deref(), Some("host"));
}

#[test]
fn unusable_urls_are_refused() {
    assert_eq!(plan_dial("", &None).unwrap_err(), "empty string");
    assert_eq!(plan_dial("ws://a b/", &None).unwrap_err(), "invalid uri character");
    assert_eq!(
        plan_dial("/tunnel", &None).unwrap_err(),
        "URL error: No host name in the URL"
    );
    assert_eq!(
        plan_dial("/tunnel", &Some("1.2.3.4".to_string())).unwrap_err(),
        "URL error: No host name in the URL"
    );
    assert_eq!(
        plan_dial("https://host/", &None).unwrap_err(),
        "server_url has an unsupported scheme"
    );
}

#[test]
fn a_port_makes_up_for_any_scheme() {
    let plan = plan_dial("https://host:9000/", &None).unwrap();
    assert_eq!(plan.port, 9000);
}

#[test]
fn addresses_are_picked_from_what_a_uri_names() {
    assert_eq!(
        dial_address(&parts(Some("ws"), Some("h"), None), &None),
        Ok(("h".to_string(), 80))
    );
    assert_eq!(
        dial_address(&parts(Some("wss"), Some("h"), None), &Some("i".to_string())),
        Ok(("i".to_string(), 443))
    );
    assert_eq!(
        dial_address(&parts(None, None, Some(5)), &Some("i".to_string())),
        Ok(("i".to_string(), 5))
    );
    assert_eq!(
        dial_address(&parts(Some("ws"), None, None), &None),
        Err("server_url is missing a host".to_string())
    );
    assert_eq!(
        dial_address(&parts(Some("WS"), Some("h"), None), &None),
        Err("server_url has an unsupported scheme".to_string())
    );
    assert_eq!(
        dial_address(&parts(None, Some("h"), None), &None),
        Err("server_url has an unsupported scheme".to_string())
    );
}

#[test]
fn the_host_of_a_url_is_found() {
    assert_eq!(host_from_server_url(URL), Ok("tunnel.example.com".to_string()));
    assert_eq!(host_from_server_url("ws://[::1]:80/"), Ok("[::1]".to_string()));
    assert_eq!(
        host_from_server_url("/tunnel"),
        Err("server_url is missing a host".to_string())
    );
    assert_eq!(host_from_server_url(""), Err("empty string".to_string()));
    assert_eq!(host_of(Ok(parts(None, Some("h"), None))), Ok("h".to_string()));
    assert_eq!(host_of(Err("bad".to_string())), Err("bad".to_string()));
}

#[test]
fn the_dialed_host_is_reported() {
    assert_eq!(dial_target(URL, &None), "tunnel.example.com");
    assert_eq!(dial_target(URL, &Some("1.2.3.4".to_string())), "1.2.3.4");
    assert_eq!(dial_target("", &None), "unknown");
    assert_eq!(report_host(Err("bad".to_string()), &None), "unknown");
    assert_eq!(report_host(Ok("h".to_string()), &None), "h");
}

#[test]
fn handshake_errors_are_described() {
    assert_eq!(
        describe_handshake_error("ws://h", HandshakeError::Http(404)),
        "websocket handshake for ws://h returned 404 Not Found; check that the server path matches exactly"
    );
    assert_eq!(
        describe_handshake_error("ws://h", HandshakeError::Http(403)),
        "websocket handshake for ws://h failed with HTTP 403 Forbidden; check the reverse proxy, path, and authentication rules"
    );
    assert_eq!(
        describe_handshake_error("ws://h", HandshakeError::Http(999)),
        "websocket handshake for ws://h failed with HTTP 999 <unknown status code>; check the reverse proxy, path, and authentication rules"
    );
    assert_eq!(
        describe_handshake_error("ws://h", HandshakeError::Http(100)),
        "websocket handshake for ws://h failed with HTTP 100 Continue; check the reverse proxy, path, and authentication rules"
    );
    assert_eq!(
        describe_handshake_error("ws://h", HandshakeError::Other("bad".to_string())),
        "failed to complete websocket handshake for ws://h: bad; check the server path, reverse proxy, and TLS settings"
    );
    assert_eq!(
        describe_http_status("u", 500, "500 Oops"),
        "websocket handshake for u failed with HTTP 500 Oops; check the reverse proxy, path, and authentication rules"
    );
}

#[test]
fn dial_errors_are_described() {
    let hint = "check whether the server, reverse proxy, or firewall is reachable";
    assert_eq!(
        describe_dial_error("ws://h", "1.2.3.4", 80, DialError::TcpTimedOut),
        format!("timed out connecting to websocket endpoint ws://h via 1.2.3.4:80; {hint}")
    );
    assert_eq!(
        describe_dial_error("ws://h", "1.2.3.4", 80, DialError::TcpFailed("refused".to_string())),
        format!("failed to connect to websocket endpoint ws://h via 1.2.3.4:80: refused; {hint}")
    );
    assert_eq!(
        describe_dial_error("ws://h", "h", 80, DialError::SetupFailed("bad".to_string())),
        "bad"
    );
    assert_eq!(
        describe_dial_error("ws://h", "h", 80, DialError::HandshakeTimedOut),
        "timed out completing websocket handshake for ws://h; check the server path, reverse proxy, and TLS settings"
    );
    assert_eq!(
        describe_dial_error(
            "ws://h",
            "h",
            80,
            DialError::HandshakeFailed(HandshakeError::Http(404))
        ),
        "websocket handshake for ws://h returned 404 Not Found; check that the server path matches exactly"
    );
}
