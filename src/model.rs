use vstd::prelude::*;

verus! {

/// A player entry of a server record.
#[derive(Debug, Clone)]
pub struct Player {
    pub name: String,
    pub gen: i32,
    pub lvl: i32,
    pub team: i32,
}

/// A registered game server.
#[derive(Debug, Clone)]
pub struct ServerInfo {
    pub id: String,
    pub host_name: String,
    pub map_name: String,
    pub game_mode: String,
    pub players: Vec<Player>,
    pub max_players: i32,
    pub port: i32,
    pub ip: String,
    pub last_heartbeat: u64,
}

/// The fields of a decoded heartbeat payload, before validation.
#[derive(Debug, Clone)]
pub struct Heartbeat {
    pub hostname: String,
    pub map_name: String,
    pub game_mode: String,
    pub max_players: i32,
    pub port: i32,
    pub players: Vec<Player>,
}

/// Rate limits, per-address quota and record timeout.
#[derive(Debug, Clone, Copy)]
pub struct Config {
    pub heartbeat_period_secs: u64,
    pub heartbeat_burst_limit: u32,
    pub server_list_period_secs: u64,
    pub server_list_burst_limit: u32,
    pub server_delete_period_secs: u64,
    pub server_delete_burst_limit: u32,
    pub max_servers_per_ip: usize,
    pub server_timeout_secs: u64,
}

impl Default for Config {
    fn default() -> (r: Config)
        ensures
            r.heartbeat_period_secs == 60,
            r.heartbeat_burst_limit == 100,
            r.server_list_period_secs == 5,
            r.server_list_burst_limit == 1,
            r.server_delete_period_secs == 5,
            r.server_delete_burst_limit == 1,
            r.max_servers_per_ip == 3,
            r.server_timeout_secs == 300,
    {
        Config {
            heartbeat_period_secs: 60,
            heartbeat_burst_limit: 100,
            server_list_period_secs: 5,
            server_list_burst_limit: 1,
            server_delete_period_secs: 5,
            server_delete_burst_limit: 1,
            max_servers_per_ip: 3,
            server_timeout_secs: 300,
        }
    }
}

/// Query of a delete request: the port of the caller's server to remove.
#[derive(Debug, Clone, Copy)]
pub struct DeleteServerQuery {
    pub port: i32,
}

} // verus!
