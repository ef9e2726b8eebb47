use game_directory::{
    begin_heartbeat, delete_server, get_servers, handle_heartbeat, prepare_heartbeat, register_heartbeat,
    ChallengeOutcome, ChallengeTarget,
    Config, DeleteServerQuery, Heartbeat, HeartbeatError, LivenessError, Player, ServerInfo, ServerStorage,
    ValidationError,
};

const CLIENT: u32 = 0xCB00_7109; // 203.0.113.9

fn config(max: usize, timeout: u64) -> Config {
    Config { max_servers_per_ip: max, server_timeout_secs: timeout, ..Config::default() }
}

fn heartbeat(port: i32, host: &str) -> Heartbeat {
    Heartbeat {
        hostname: host.to_string(),
        map_name: "de_dust".to_string(),
        game_mode: "deathmatch".to_string(),
        max_players: 10,
        port,
        players: vec![Player { name: "alice".to_string(), gen: 3, lvl: 12, team: 1 }],
    }
}

fn record(id: &str, ip: &str, port: i32, at: u64) -> ServerInfo {
    ServerInfo {
        id: id.to_string(),
        host_name: "host".to_string(),
        map_name: "map".to_string(),
        game_mode: "mode".to_string(),
        players: Vec::new(),
        max_players: 8,
        port,
        ip: ip.to_string(),
        last_heartbeat: at,
    }
}

fn count_for(storage: &ServerStorage, ip: &str) -> usize {
    storage.get_servers().iter().filter(|s| s.ip == ip).count()
}

#[test]
fn default_config_values() {
    let c = Config::default();
    assert_eq!(c.max_servers_per_ip, 3);
    assert_eq!(c.server_timeout_secs, 300);
    assert_eq!(c.heartbeat_period_secs, 60);
    assert_eq!(c.heartbeat_burst_limit, 100);
    assert_eq!(c.server_list_burst_limit, 1);
}

#[test]
fn same_address_replaces_record() {
    let mut s = ServerStorage::new(config(3, 300));
    assert!(s.add_server(record("a", "1.2.3.4", 2000, 10)).is_ok());
    let mut newer = record("b", "1.2.3.4", 2000, 20);
    newer.host_name = "renamed".to_string();
    assert!(s.add_server(newer).is_ok());
    let all = s.get_servers();
    assert_eq!(all.len(), 1);
    assert_eq!(all[0].id, "b");
    assert_eq!(all[0].host_name, "renamed");
    assert_eq!(all[0].last_heartbeat, 20);
}

#[test]
fn repeated_heartbeats_keep_count() {
    let mut s = ServerStorage::new(config(3, 300));
    for i in 0..5u64 {
        assert!(s.add_server(record(&format!("id{}", i), "1.2.3.4", 3000, i)).is_ok());
        assert_eq!(count_for(&s, "1.2.3.4"), 1);
    }
}

#[test]
fn quota_blocks_new_ports_only() {
    let mut s = ServerStorage::new(config(3, 300));
    for port in [2001, 2002, 2003] {
        assert!(s.add_server(record(&format!("p{}", port), "1.2.3.4", port, 1)).is_ok());
    }
    let r = s.add_server(record("p2004", "1.2.3.4", 2004, 1));
    assert_eq!(r, Err("Maximum number of servers (3) reached for this IP".to_string()));
    assert_eq!(count_for(&s, "1.2.3.4"), 3);
    assert!(s.add_server(record("again", "1.2.3.4", 2002, 5)).is_ok());
    assert_eq!(count_for(&s, "1.2.3.4"), 3);
    assert!(s.add_server(record("other", "5.6.7.8", 2004, 1)).is_ok());
    assert_eq!(s.get_servers().len(), 4);
}

#[test]
fn zero_quota_refuses_everything_new() {
    let mut s = ServerStorage::new(config(0, 300));
    assert!(s.add_server(record("a", "1.2.3.4", 2000, 1)).is_err());
    assert!(s.get_servers().is_empty());
}

#[test]
fn stale_records_are_evicted() {
    let mut s = ServerStorage::new(config(5, 30));
    s.add_server(record("old", "1.1.1.1", 2000, 100)).unwrap();
    s.add_server(record("edge", "1.1.1.2", 2000, 170)).unwrap();
    s.add_server(record("new", "1.1.1.3", 2000, 190)).unwrap();
    s.add_server(record("future", "1.1.1.4", 2000, 500)).unwrap();
    let listed = get_servers(&mut s, 200);
    let mut ids: Vec<String> = listed.iter().map(|r| r.id.clone()).collect();
    ids.sort();
    assert_eq!(ids, vec!["future".to_string(), "new".to_string()]);
    for r in &listed {
        assert!(r.last_heartbeat > 200 || 200 - r.last_heartbeat < 30);
    }
}

#[test]
fn remove_and_find_by_address() {
    let mut s = ServerStorage::new(config(3, 300));
    s.add_server(record("a", "1.2.3.4", 2000, 1)).unwrap();
    assert_eq!(s.find_server("1.2.3.4", 2000), Some("a".to_string()));
    assert_eq!(s.find_server("1.2.3.4", 2001), None);
    assert_eq!(s.find_server("1.2.3.5", 2000), None);
    s.remove_server("a");
    assert!(s.get_servers().is_empty());
    assert_eq!(s.config().max_servers_per_ip, 3);
}

#[test]
fn prepare_validates_then_targets() {
    assert_eq!(
        prepare_heartbeat(CLIENT, &heartbeat(27015, "host")).ok(),
        Some(ChallengeTarget { ip: CLIENT, port: 27015 })
    );
    assert!(matches!(
        prepare_heartbeat(CLIENT, &heartbeat(1024, "host")),
        Err(HeartbeatError::Validation(ValidationError::PortTooLow))
    ));
    assert!(matches!(prepare_heartbeat(CLIENT, &heartbeat(70000, "host")), Err(HeartbeatError::Address(_))));
}

#[test]
fn failed_challenge_leaves_registry_untouched() {
    let mut s = ServerStorage::new(config(3, 300));
    let r = register_heartbeat(&mut s, CLIENT, heartbeat(27015, "host"), Err(LivenessError::TimedOut), 10, "x".to_string());
    assert!(matches!(r, Err(HeartbeatError::Liveness(LivenessError::TimedOut))));
    let r = register_heartbeat(&mut s, CLIENT, heartbeat(27015, ""), Ok(()), 10, "x".to_string());
    assert!(matches!(r, Err(HeartbeatError::Validation(ValidationError::HostnameEmpty))));
    assert!(s.get_servers().is_empty());
}

#[test]
fn quota_error_from_heartbeat() {
    let mut s = ServerStorage::new(config(1, 300));
    register_heartbeat(&mut s, CLIENT, heartbeat(27015, "one"), Ok(()), 10, "a".to_string()).unwrap();
    let r = register_heartbeat(&mut s, CLIENT, heartbeat(27016, "two"), Ok(()), 10, "b".to_string());
    assert!(matches!(r, Err(HeartbeatError::Quota(_))));
    register_heartbeat(&mut s, CLIENT, heartbeat(27015, "one again"), Ok(()), 11, "c".to_string()).unwrap();
    let all = s.get_servers();
    assert_eq!(all.len(), 1);
    assert_eq!(all[0].host_name, "one again");
}

#[test]
fn heartbeat_listing_delete_scenario() {
    let mut s = ServerStorage::new(Config::default());
    let hb = heartbeat(27015, "scenario host");
    let target = prepare_heartbeat(CLIENT, &hb).ok().unwrap();
    assert_eq!(target, ChallengeTarget { ip: CLIENT, port: 27015 });
    assert!(handle_heartbeat(&mut s, CLIENT, hb, Ok(()), 1000).is_ok());
    let listed = get_servers(&mut s, 1001);
    assert_eq!(listed.len(), 1);
    assert_eq!(listed[0].ip, "203.0.113.9");
    assert_eq!(listed[0].port, 27015);
    assert_eq!(listed[0].host_name, "scenario host");
    assert_eq!(listed[0].players[0].lvl, 12);
    assert_eq!(listed[0].id.len(), 36);
    assert!(delete_server(&mut s, CLIENT, DeleteServerQuery { port: 27015 }));
    assert!(get_servers(&mut s, 1002).is_empty());
    assert!(!delete_server(&mut s, CLIENT, DeleteServerQuery { port: 27015 }));
}

#[test]
fn fresh_ids_differ() {
    let mut s = ServerStorage::new(Config::default());
    handle_heartbeat(&mut s, CLIENT, heartbeat(27015, "a"), Ok(()), 1).unwrap();
    handle_heartbeat(&mut s, CLIENT, heartbeat(27016, "b"), Ok(()), 1).unwrap();
    let all = s.get_servers();
    assert_eq!(all.len(), 2);
    assert_ne!(all[0].id, all[1].id);
}

#[test]
fn delete_needs_matching_address() {
    let mut s = ServerStorage::new(Config::default());
    handle_heartbeat(&mut s, CLIENT, heartbeat(27015, "a"), Ok(()), 1).unwrap();
    assert!(!delete_server(&mut s, CLIENT + 1, DeleteServerQuery { port: 27015 }));
    assert!(!delete_server(&mut s, CLIENT, DeleteServerQuery { port: 27016 }));
    assert_eq!(s.get_servers().len(), 1);
}

#[test]
fn heartbeat_error_texts() {
    assert_eq!(HeartbeatError::Liveness(LivenessError::TimedOut).message(), "Challenge response failed");
    assert_eq!(
        HeartbeatError::Address("bad".to_string()).message(),
        "Invalid server address: bad"
    );
    assert_eq!(
        HeartbeatError::Validation(ValidationError::PlayerNameEmpty).message(),
        "Invalid player name: Must be at least 1 char."
    );
    assert_eq!(HeartbeatError::Quota("full".to_string()).message(), "full");
}

fn reply_for(packet: &[u8]) -> Vec<u8> {
    // The nonce text sits between `connect` and the final zero byte.
    let nonce_text = &packet[12..packet.len() - 1];
    let mut r = vec![0xFF, 0xFF, 0xFF, 0xFF, 0x49, 0, 0, 0, 0];
    r.extend_from_slice(b"connect");
    r.extend_from_slice(nonce_text);
    r
}

#[test]
fn attempt_round_trip() {
    let mut s = ServerStorage::new(Config::default());
    let attempt = begin_heartbeat(CLIENT, heartbeat(27015, "attempt")).ok().unwrap();
    assert_eq!(attempt.target, ChallengeTarget { ip: CLIENT, port: 27015 });
    assert_eq!(attempt.challenge.packet.len(), 23);
    let reply = reply_for(&attempt.challenge.packet);
    assert!(attempt.finish(&mut s, &ChallengeOutcome::Reply(reply), 5).is_ok());
    let all = s.get_servers();
    assert_eq!(all.len(), 1);
    assert_eq!(all[0].host_name, "attempt");
    assert_eq!(all[0].ip, "203.0.113.9");
    assert_eq!(all[0].last_heartbeat, 5);
}

#[test]
fn attempt_with_bad_reply_is_refused() {
    let mut s = ServerStorage::new(Config::default());
    let attempt = begin_heartbeat(CLIENT, heartbeat(27015, "attempt")).ok().unwrap();
    let mut reply = reply_for(&attempt.challenge.packet);
    reply[4] = 0x48;
    let r = attempt.finish(&mut s, &ChallengeOutcome::Reply(reply), 5);
    assert!(matches!(r, Err(HeartbeatError::Liveness(LivenessError::MalformedReply))));
    let attempt = begin_heartbeat(CLIENT, heartbeat(27015, "attempt")).ok().unwrap();
    let r = attempt.finish(&mut s, &ChallengeOutcome::TimedOut, 5);
    assert!(matches!(r, Err(HeartbeatError::Liveness(LivenessError::TimedOut))));
    assert!(s.get_servers().is_empty());
    assert!(matches!(
        begin_heartbeat(CLIENT, heartbeat(27015, "")),
        Err(HeartbeatError::Validation(ValidationError::HostnameEmpty))
    ));
}
