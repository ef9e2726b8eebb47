use vstd::prelude::*;
use vstd::string::*;

use crate::liveness::{challenge_packet, verdict_of, Challenge, ChallengeOutcome, LivenessError};
use crate::model::{DeleteServerQuery, Heartbeat, ServerInfo};
use crate::storage::{added, address_key, fresh_at, has_address, ServerStorage};
use crate::text::{ipv4_text, render_ipv4};
use crate::trust::{format_address_for_challenge, ChallengeTarget, IpClass};
use crate::validate::{validate_heartbeat, validation_outcome, validation_text, ValidationError};

verus! {

/// Why a heartbeat was not admitted.
#[derive(Debug, Clone)]
pub enum HeartbeatError {
    Validation(ValidationError),
    /// The claimed port cannot be addressed.
    Address(String),
    Liveness(LivenessError),
    /// The sender's address already has its quota of servers.
    Quota(String),
}

impl HeartbeatError {
    /// The human-readable reason why the heartbeat was not admitted.
    pub fn message(&self) -> (r: String)
        ensures
            match *self {
                HeartbeatError::Validation(e) => r@ == validation_text(e),
                HeartbeatError::Address(m) => r@ == "Invalid server address: "@ + m@,
                HeartbeatError::Liveness(_) => r@ == "Challenge response failed"@,
                HeartbeatError::Quota(m) => r@ == m@,
            },
    {
        match self {
            HeartbeatError::Validation(e) => e.message(),
            HeartbeatError::Address(m) => {
                let mut s = String::from_str("Invalid server address: ");
                s.append(m.as_str());
                s
            },
            HeartbeatError::Liveness(_) => String::from_str("Challenge response failed"),
            HeartbeatError::Quota(m) => String::from_str(m.as_str()),
        }
    }
}

/// `info` is the record that a heartbeat `hb` from `ip`, admitted at `now`
/// under identifier `id`, gives.
pub open spec fn built_from(info: ServerInfo, hb: Heartbeat, ip: u32, now: u64, id: String) -> bool {
    &&& info.id == id
    &&& info.host_name == hb.hostname
    &&& info.map_name == hb.map_name
    &&& info.game_mode == hb.game_mode
    &&& info.players == hb.players
    &&& info.max_players == hb.max_players
    &&& info.port == hb.port
    &&& info.ip@ == ipv4_text(ip)
    &&& info.last_heartbeat == now
}

/// First step of a heartbeat from `ip`: validates the payload and forms the
/// address that the liveness challenge goes to.
pub fn prepare_heartbeat(ip: u32, hb: &Heartbeat) -> (r: Result<ChallengeTarget, HeartbeatError>)
    ensures
        match validation_outcome(*hb) {
            Err(e) => r == Err::<ChallengeTarget, HeartbeatError>(HeartbeatError::Validation(e)),
            Ok(_) => if hb.port <= 65535 {
                r == Ok::<ChallengeTarget, HeartbeatError>(ChallengeTarget { ip, port: hb.port as u16 })
            } else {
                r matches Err(HeartbeatError::Address(_))
            },
        },
{
    if let Err(e) = validate_heartbeat(hb) {
        return Err(HeartbeatError::Validation(e));
    }
    match format_address_for_challenge(IpClass::V4(ip), hb.port) {
        Ok(target) => Ok(target),
        Err(msg) => Err(HeartbeatError::Address(msg)),
    }
}

/// Last step of a heartbeat from `ip`, once the liveness challenge has been
/// judged: a valid heartbeat whose challenge passed is added to the registry
/// as a record with identifier `id` and timestamp `now`.
pub fn register_heartbeat(
    storage: &mut ServerStorage,
    ip: u32,
    hb: Heartbeat,
    verdict: Result<(), LivenessError>,
    now: u64,
    id: String,
) -> (r: Result<(), HeartbeatError>)
    requires
        old(storage).wf(),
    ensures
        final(storage).wf(),
        final(storage).settings() == old(storage).settings(),
        match validation_outcome(hb) {
            Err(e) => r == Err::<(), HeartbeatError>(HeartbeatError::Validation(e))
                && final(storage).records() == old(storage).records(),
            Ok(_) => match verdict {
                Err(e) => r == Err::<(), HeartbeatError>(HeartbeatError::Liveness(e))
                    && final(storage).records() == old(storage).records(),
                Ok(_) => exists|info: ServerInfo|
                    built_from(info, hb, ip, now, id) && match added(
                        old(storage).records(),
                        info,
                        old(storage).settings().max_servers_per_ip as nat,
                    ) {
                        Some(m) => r is Ok && final(storage).records() == m,
                        None => r matches Err(HeartbeatError::Quota(_))
                            && final(storage).records() == old(storage).records(),
                    },
            },
        },
{
    if let Err(e) = validate_heartbeat(&hb) {
        return Err(HeartbeatError::Validation(e));
    }
    if let Err(e) = verdict {
        return Err(HeartbeatError::Liveness(e));
    }
    let info = ServerInfo {
        id,
        host_name: hb.hostname,
        map_name: hb.map_name,
        game_mode: hb.game_mode,
        players: hb.players,
        max_players: hb.max_players,
        port: hb.port,
        ip: render_ipv4(ip),
        last_heartbeat: now,
    };
    let ghost g = info;
    let added_result = storage.add_server(info);
    proof {
        assert(built_from(g, hb, ip, now, id));
    }
    match added_result {
        Ok(()) => Ok(()),
        Err(msg) => Err(HeartbeatError::Quota(msg)),
    }
}

/// Relies on uuid::Uuid::new_v4 and its text form: a random identifier.
#[verifier::external_body]
fn new_record_id() -> (r: String) {
    uuid::Uuid::new_v4().to_string()
}

/// Last step of a heartbeat, as `register_heartbeat` with a freshly drawn
/// random identifier.
pub fn handle_heartbeat(
    storage: &mut ServerStorage,
    ip: u32,
    hb: Heartbeat,
    verdict: Result<(), LivenessError>,
    now: u64,
) -> (r: Result<(), HeartbeatError>)
    requires
        old(storage).wf(),
    ensures
        final(storage).wf(),
        final(storage).settings() == old(storage).settings(),
        match validation_outcome(hb) {
            Err(e) => r == Err::<(), HeartbeatError>(HeartbeatError::Validation(e))
                && final(storage).records() == old(storage).records(),
            Ok(_) => match verdict {
                Err(e) => r == Err::<(), HeartbeatError>(HeartbeatError::Liveness(e))
                    && final(storage).records() == old(storage).records(),
                Ok(_) => exists|info: ServerInfo, id: String|
                    built_from(info, hb, ip, now, id) && match added(
                        old(storage).records(),
                        info,
                        old(storage).settings().max_servers_per_ip as nat,
                    ) {
                        Some(m) => r is Ok && final(storage).records() == m,
                        None => r matches Err(HeartbeatError::Quota(_))
                            && final(storage).records() == old(storage).records(),
                    },
            },
        },
{
    let id = new_record_id();
    let ghost gid = id;
    register_heartbeat(storage, ip, hb, verdict, now, id)
}

/// A heartbeat that passed validation and waits for its liveness challenge.
/// It carries the one challenge datagram to send, and is used up when the
/// reply is judged.
pub struct HeartbeatAttempt {
    pub ip: u32,
    pub heartbeat: Heartbeat,
    pub target: ChallengeTarget,
    pub challenge: Challenge,
}

/// Starts a heartbeat from `ip`: validates the payload, forms the address
/// that the challenge goes to and draws a fresh challenge.
pub fn begin_heartbeat(ip: u32, hb: Heartbeat) -> (r: Result<HeartbeatAttempt, HeartbeatError>)
    ensures
        match validation_outcome(hb) {
            Err(e) => r matches Err(HeartbeatError::Validation(f)) && f == e,
            Ok(_) => if hb.port <= 65535 {
                r matches Ok(a) && a.ip == ip && a.heartbeat == hb && a.target == (ChallengeTarget {
                    ip,
                    port: hb.port as u16,
                }) && a.challenge.packet@ == challenge_packet(a.challenge.nonce)
            } else {
                r matches Err(HeartbeatError::Address(_))
            },
        },
{
    match prepare_heartbeat(ip, &hb) {
        Ok(target) => Ok(HeartbeatAttempt { ip, heartbeat: hb, target, challenge: Challenge::fresh() }),
        Err(e) => Err(e),
    }
}

impl HeartbeatAttempt {
    /// Judges the one reply to this attempt's challenge and, if it passed,
    /// adds the record, as `handle_heartbeat` does. The payload is checked
    /// again, as the attempt's fields are open to change.
    pub fn finish(self, storage: &mut ServerStorage, outcome: &ChallengeOutcome, now: u64) -> (r: Result<
        (),
        HeartbeatError,
    >)
        requires
            old(storage).wf(),
        ensures
            final(storage).wf(),
            final(storage).settings() == old(storage).settings(),
            match validation_outcome(self.heartbeat) {
                Err(e) => r == Err::<(), HeartbeatError>(HeartbeatError::Validation(e))
                    && final(storage).records() == old(storage).records(),
                Ok(_) => match verdict_of(self.challenge.nonce, *outcome) {
                    Err(e) => r == Err::<(), HeartbeatError>(HeartbeatError::Liveness(e))
                        && final(storage).records() == old(storage).records(),
                    Ok(_) => exists|info: ServerInfo, id: String|
                        built_from(info, self.heartbeat, self.ip, now, id) && match added(
                            old(storage).records(),
                            info,
                            old(storage).settings().max_servers_per_ip as nat,
                        ) {
                            Some(m) => r is Ok && final(storage).records() == m,
                            None => r matches Err(HeartbeatError::Quota(_))
                                && final(storage).records() == old(storage).records(),
                        },
                },
            },
    {
        let verdict = self.challenge.judge(outcome);
        handle_heartbeat(storage, self.ip, self.heartbeat, verdict, now)
    }
}

/// Answers a listing request at `now`: expired records are removed first, and
/// the records that remain are listed, each once.
pub fn get_servers(storage: &mut ServerStorage, now: u64) -> (r: Vec<ServerInfo>)
    requires
        old(storage).wf(),
    ensures
        final(storage).wf(),
        final(storage).settings() == old(storage).settings(),
        final(storage).records() == old(storage).records().restrict(
            old(storage).records().dom().filter(
                |k: Seq<char>| fresh_at(old(storage).records()[k], now, old(storage).settings().server_timeout_secs),
            ),
        ),
        r@.len() == final(storage).records().dom().len(),
        forall|i: int| 0 <= i < r@.len() ==> fresh_at(#[trigger] r@[i], now, old(storage).settings().server_timeout_secs),
        forall|i: int| 0 <= i < r@.len() ==> #[trigger] final(storage).records().contains_key(r@[i].id@)
            && final(storage).records()[r@[i].id@] == r@[i],
        forall|k: Seq<char>| #[trigger] final(storage).records().contains_key(k) ==> exists|i: int|
            0 <= i < r@.len() && r@[i] == final(storage).records()[k],
{
    storage.cleanup_stale_servers(now);
    let r = storage.get_servers();
    proof {
        assert forall|i: int| 0 <= i < r@.len() implies fresh_at(
            #[trigger] r@[i],
            now,
            old(storage).settings().server_timeout_secs,
        ) by {
            assert(storage.records().contains_key(r@[i].id@));
        }
    }
    r
}

/// Answers a delete request from `ip`: the caller's record for the queried
/// port is removed. `false` when the caller has no record on that port.
pub fn delete_server(storage: &mut ServerStorage, ip: u32, query: DeleteServerQuery) -> (r: bool)
    requires
        old(storage).wf(),
    ensures
        final(storage).wf(),
        final(storage).settings() == old(storage).settings(),
        r == has_address(old(storage).records(), ipv4_text(ip), query.port),
        final(storage).records() == if r {
            old(storage).records().remove(address_key(old(storage).records(), ipv4_text(ip), query.port))
        } else {
            old(storage).records()
        },
{
    let ip_text = render_ipv4(ip);
    match storage.find_server(ip_text.as_str(), query.port) {
        Some(id) => {
            storage.remove_server(id.as_str());
            true
        },
        None => false,
    }
}

} // verus!
