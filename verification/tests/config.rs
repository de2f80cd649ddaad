use ws_tunnel::cli::{help_text, resolve_config_arg, CliAction};
use ws_tunnel::config::{
    default_backlog, default_connect_timeout, default_handshake_timeout,
    default_heartbeat_interval, default_reconnect_delay, default_tcp_bind_addr,
    default_worker_pool, ClientConfig, ClientSettings, ServerConfig, ServerSettings,
};

#[test]
fn defaults_have_their_values() {
    assert_eq!(default_backlog(), 128);
    assert_eq!(default_worker_pool(), 8);
    assert_eq!(default_reconnect_delay(), 3);
    assert_eq!(default_connect_timeout(), 10);
    assert_eq!(default_handshake_timeout(), 10);
    assert_eq!(default_heartbeat_interval(), 20);
    assert_eq!(default_tcp_bind_addr(), "0.0.0.0");
}

#[test]
fn a_server_takes_settings_and_defaults() {
    let config = ServerConfig::from_settings(ServerSettings {
        ws_bind: "0.0.0.0:8080".to_string(),
        tcp_bind_addr: None,
        path: "/tunnel".to_string(),
        token: "change-me".to_string(),
        pending_tcp_backlog: Some(5),
        idle_worker_backlog: None,
        handshake_timeout_secs: None,
    });
    assert_eq!(config.ws_bind, "0.0.0.0:8080");
    assert_eq!(config.tcp_bind_addr, "0.0.0.0");
    assert_eq!(config.path, "/tunnel");
    assert_eq!(config.token, "change-me");
    assert_eq!(config.pending_tcp_backlog, 5);
    assert_eq!(config.idle_worker_backlog, 128);
    assert_eq!(config.handshake_timeout_secs, 10);
}

#[test]
fn a_client_takes_settings_and_defaults() {
    let settings = |pool: Option<usize>, total: Option<usize>| ClientSettings {
        server_url: "wss://h/t".to_string(),
        connect_host: Some("1.2.3.4".to_string()),
        token: "change-me".to_string(),
        remote_port: 7000,
        local_addr: "127.0.0.1:22".to_string(),
        worker_pool_size: pool,
        max_total_workers: total,
        reconnect_delay_secs: None,
        connect_timeout_secs: Some(1),
        heartbeat_interval_secs: None,
    };
    let config = ClientConfig::from_settings(settings(None, None));
    assert_eq!(config.server_url, "wss://h/t");
    assert_eq!(config.connect_host.as_deref(), Some("1.2.3.4"));
    assert_eq!(config.token, "change-me");
    assert_eq!(config.remote_port, 7000);
    assert_eq!(config.local_addr, "127.0.0.1:22");
    assert_eq!(config.worker_pool_size, 8);
    assert_eq!(config.max_total_workers, 8);
    assert_eq!(config.reconnect_delay_secs, 3);
    assert_eq!(config.connect_timeout_secs, 1);
    assert_eq!(config.heartbeat_interval_secs, 20);
    let config = ClientConfig::from_settings(settings(Some(4), None));
    assert_eq!(config.max_total_workers, 4);
    let config = ClientConfig::from_settings(settings(Some(4), Some(16)));
    assert_eq!((config.worker_pool_size, config.max_total_workers), (4, 16));
}

#[test]
fn the_command_line_picks_the_configuration() {
    let pick = |arg: Option<&str>, exists: bool| {
        match resolve_config_arg(arg.map(str::to_string), exists, "a.toml", "examples/a.toml") {
            CliAction::RunWithConfig(path) => Some(path),
            CliAction::ExitAfterHelp => None,
        }
    };
    assert_eq!(pick(Some("-h"), true), None);
    assert_eq!(pick(Some("--help"), false), None);
    assert_eq!(pick(Some("x.toml"), true).as_deref(), Some("x.toml"));
    assert_eq!(pick(Some("-help"), true).as_deref(), Some("-help"));
    assert_eq!(pick(None, true).as_deref(), Some("a.toml"));
    assert_eq!(pick(None, false).as_deref(), Some("examples/a.toml"));
}

#[test]
fn the_help_names_both_defaults() {
    assert_eq!(
        help_text("server", "server.toml", "examples/server.toml"),
        "Usage: server [CONFIG_PATH]\n\nIf CONFIG_PATH is omitted, the program tries:\n  1. ./server.toml\n  2. ./examples/server.toml\n"
    );
}
