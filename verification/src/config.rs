//! The settings of server and client, and what those that are left out
//! default to.

use vstd::prelude::*;

use crate::text::optional_text;

verus! {

/// The settings of a server.
#[derive(Clone, Debug)]
pub struct ServerConfig {
    /// Where WebSocket connections are accepted.
    pub ws_bind: String,
    /// The address at which remote ports are opened.
    pub tcp_bind_addr: String,
    /// The path that WebSocket requests have to name.
    pub path: String,
    /// What clients have to present.
    pub token: String,
    /// How many remote connections may wait for a worker.
    pub pending_tcp_backlog: usize,
    /// How many idle workers may wait for a remote connection.
    pub idle_worker_backlog: usize,
    /// How long a handshake frame may take.
    pub handshake_timeout_secs: u64,
}

/// The settings of a client.
#[derive(Clone, Debug)]
pub struct ClientConfig {
    /// The WebSocket endpoint of the server.
    pub server_url: String,
    /// The host to dial in place of the one that `server_url` names.
    pub connect_host: Option<String>,
    /// What the server expects.
    pub token: String,
    /// The port that the server opens.
    pub remote_port: u16,
    /// The local target.
    pub local_addr: String,
    /// How many workers the client keeps, as far as they may run.
    pub worker_pool_size: usize,
    /// How many workers may run at once.
    pub max_total_workers: usize,
    /// How long the client waits before it connects again.
    pub reconnect_delay_secs: u64,
    /// How long a connection may take to open.
    pub connect_timeout_secs: u64,
    /// The seconds after which the control connection, or a worker that
    /// relays, pings the server; neither ever does if zero.
    pub heartbeat_interval_secs: u64,
}

/// The settings of a server as they are written down.
#[derive(Debug)]
pub struct ServerSettings {
    pub ws_bind: String,
    pub tcp_bind_addr: Option<String>,
    pub path: String,
    pub token: String,
    pub pending_tcp_backlog: Option<usize>,
    pub idle_worker_backlog: Option<usize>,
    pub handshake_timeout_secs: Option<u64>,
}

/// The settings of a client as they are written down.
#[derive(Debug)]
pub struct ClientSettings {
    pub server_url: String,
    pub connect_host: Option<String>,
    pub token: String,
    pub remote_port: u16,
    pub local_addr: String,
    pub worker_pool_size: Option<usize>,
    pub max_total_workers: Option<usize>,
    pub reconnect_delay_secs: Option<u64>,
    pub connect_timeout_secs: Option<u64>,
    pub heartbeat_interval_secs: Option<u64>,
}

/// A setting, or its default where it is left out.
pub open spec fn or_default<T>(setting: Option<T>, default: T) -> T {
    match setting {
        Some(value) => value,
        None => default,
    }
}

pub fn default_backlog() -> (backlog: usize)
    ensures
        backlog == 128,
{
    128
}

pub fn default_worker_pool() -> (size: usize)
    ensures
        size == 8,
{
    8
}

pub fn default_reconnect_delay() -> (secs: u64)
    ensures
        secs == 3,
{
    3
}

pub fn default_connect_timeout() -> (secs: u64)
    ensures
        secs == 10,
{
    10
}

pub fn default_handshake_timeout() -> (secs: u64)
    ensures
        secs == 10,
{
    10
}

pub fn default_heartbeat_interval() -> (secs: u64)
    ensures
        secs == 20,
{
    20
}

pub fn default_tcp_bind_addr() -> (addr: String)
    ensures
        addr@ == "0.0.0.0"@,
{
    "0.0.0.0".to_owned()
}

impl ServerConfig {
    /// The configuration that `settings` write down.
    pub fn from_settings(settings: ServerSettings) -> (config: ServerConfig)
        ensures
            config.ws_bind@ == settings.ws_bind@,
            config.tcp_bind_addr@ == or_default(
                optional_text(settings.tcp_bind_addr),
                "0.0.0.0"@,
            ),
            config.path@ == settings.path@,
            config.token@ == settings.token@,
            config.pending_tcp_backlog == or_default(settings.pending_tcp_backlog, 128),
            config.idle_worker_backlog == or_default(settings.idle_worker_backlog, 128),
            config.handshake_timeout_secs == or_default(settings.handshake_timeout_secs, 10),
    {
        ServerConfig {
            ws_bind: settings.ws_bind,
            tcp_bind_addr: match settings.tcp_bind_addr {
                Some(addr) => addr,
                None => default_tcp_bind_addr(),
            },
            path: settings.path,
            token: settings.token,
            pending_tcp_backlog: match settings.pending_tcp_backlog {
                Some(backlog) => backlog,
                None => default_backlog(),
            },
            idle_worker_backlog: match settings.idle_worker_backlog {
                Some(backlog) => backlog,
                None => default_backlog(),
            },
            handshake_timeout_secs: match settings.handshake_timeout_secs {
                Some(secs) => secs,
                None => default_handshake_timeout(),
            },
        }
    }
}

impl ClientConfig {
    /// The configuration that `settings` write down. Where no limit to the
    /// running workers is given, it is the size of the pool.
    pub fn from_settings(settings: ClientSettings) -> (config: ClientConfig)
        ensures
            config.server_url@ == settings.server_url@,
            optional_text(config.connect_host) == optional_text(settings.connect_host),
            config.token@ == settings.token@,
            config.remote_port == settings.remote_port,
            config.local_addr@ == settings.local_addr@,
            config.worker_pool_size == or_default(settings.worker_pool_size, 8),
            config.max_total_workers == or_default(
                settings.max_total_workers,
                config.worker_pool_size,
            ),
            config.reconnect_delay_secs == or_default(settings.reconnect_delay_secs, 3),
            config.connect_timeout_secs == or_default(settings.connect_timeout_secs, 10),
            config.heartbeat_interval_secs == or_default(settings.heartbeat_interval_secs, 20),
    {
        let worker_pool_size: usize = match settings.worker_pool_size {
            Some(size) => size,
            None => default_worker_pool(),
        };
        ClientConfig {
            server_url: settings.server_url,
            connect_host: settings.connect_host,
            token: settings.token,
            remote_port: settings.remote_port,
            local_addr: settings.local_addr,
            worker_pool_size,
            max_total_workers: match settings.max_total_workers {
                Some(workers) => workers,
                None => worker_pool_size,
            },
            reconnect_delay_secs: match settings.reconnect_delay_secs {
                Some(secs) => secs,
                None => default_reconnect_delay(),
            },
            connect_timeout_secs: match settings.connect_timeout_secs {
                Some(secs) => secs,
                None => default_connect_timeout(),
            },
            heartbeat_interval_secs: match settings.heartbeat_interval_secs {
                Some(secs) => secs,
                None => default_heartbeat_interval(),
            },
        }
    }
}

/// A setting that is written down is taken as it is, and one that is left out
/// has its default, for a server.
pub proof fn law_server_settings_are_taken(settings: ServerSettings, config: ServerConfig)
    requires
        call_ensures(ServerConfig::from_settings, (settings,), config),
    ensures
        config.ws_bind@ == settings.ws_bind@,
        config.path@ == settings.path@,
        config.token@ == settings.token@,
        match settings.tcp_bind_addr {
            Some(addr) => config.tcp_bind_addr@ == addr@,
            None => config.tcp_bind_addr@ == "0.0.0.0"@,
        },
        match settings.pending_tcp_backlog {
            Some(backlog) => config.pending_tcp_backlog == backlog,
            None => config.pending_tcp_backlog == 128,
        },
        match settings.idle_worker_backlog {
            Some(backlog) => config.idle_worker_backlog == backlog,
            None => config.idle_worker_backlog == 128,
        },
        match settings.handshake_timeout_secs {
            Some(secs) => config.handshake_timeout_secs == secs,
            None => config.handshake_timeout_secs == 10,
        },
{
}

/// A setting that is written down is taken as it is, and one that is left out
/// has its default, for a client.
pub proof fn law_client_settings_are_taken(settings: ClientSettings, config: ClientConfig)
    requires
        call_ensures(ClientConfig::from_settings, (settings,), config),
    ensures
        config.server_url@ == settings.server_url@,
        config.token@ == settings.token@,
        config.remote_port == settings.remote_port,
        config.local_addr@ == settings.local_addr@,
        match settings.connect_host {
            Some(host) => config.connect_host matches Some(taken) && taken@ == host@,
            None => config.connect_host is None,
        },
        match settings.worker_pool_size {
            Some(size) => config.worker_pool_size == size,
            None => config.worker_pool_size == 8,
        },
        match settings.max_total_workers {
            Some(workers) => config.max_total_workers == workers,
            None => config.max_total_workers == config.worker_pool_size,
        },
        match settings.reconnect_delay_secs {
            Some(secs) => config.reconnect_delay_secs == secs,
            None => config.reconnect_delay_secs == 3,
        },
        match settings.connect_timeout_secs {
            Some(secs) => config.connect_timeout_secs == secs,
            None => config.connect_timeout_secs == 10,
        },
        match settings.heartbeat_interval_secs {
            Some(secs) => config.heartbeat_interval_secs == secs,
            None => config.heartbeat_interval_secs == 20,
        },
{
}

/// The defaults on their own are those that a configuration takes.
pub proof fn law_defaults_are_those_of_a_configuration(
    settings: ServerSettings,
    server: ServerConfig,
    written: ClientSettings,
    client: ClientConfig,
    backlog: usize,
    handshake: u64,
    addr: String,
    pool: usize,
    reconnect: u64,
    connect: u64,
    heartbeat: u64,
)
    requires
        call_ensures(ServerConfig::from_settings, (settings,), server),
        call_ensures(ClientConfig::from_settings, (written,), client),
        call_ensures(default_backlog, (), backlog),
        call_ensures(default_handshake_timeout, (), handshake),
        call_ensures(default_tcp_bind_addr, (), addr),
        call_ensures(default_worker_pool, (), pool),
        call_ensures(default_reconnect_delay, (), reconnect),
        call_ensures(default_connect_timeout, (), connect),
        call_ensures(default_heartbeat_interval, (), heartbeat),
    ensures
        settings.pending_tcp_backlog is None ==> server.pending_tcp_backlog == backlog,
        settings.idle_worker_backlog is None ==> server.idle_worker_backlog == backlog,
        settings.handshake_timeout_secs is None ==> server.handshake_timeout_secs == handshake,
        settings.tcp_bind_addr is None ==> server.tcp_bind_addr@ == addr@,
        written.worker_pool_size is None ==> client.worker_pool_size == pool,
        written.reconnect_delay_secs is None ==> client.reconnect_delay_secs == reconnect,
        written.connect_timeout_secs is None ==> client.connect_timeout_secs == connect,
        written.heartbeat_interval_secs is None ==> client.heartbeat_interval_secs == heartbeat,
{
}

} // verus!
