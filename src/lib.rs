//! Admission pipeline and registry of a directory service for game servers.
//!
//! A game server announces itself with a heartbeat. Before the heartbeat is
//! admitted, the real client address is resolved from the forwarding
//! headers, the payload is validated, and a UDP challenge confirms that the
//! sender controls the address it claims. Admitted servers are kept in a
//! quota- and age-bounded registry.

mod laws;
mod liveness;
mod model;
mod service;
mod storage;
mod text;
mod trust;
mod validate;

pub use laws::{
    lemma_admitted_record_is_the_only_one, lemma_bad_replies_are_rejected,
    lemma_quota_applies_to_new_ports_only, lemma_refresh_never_grows,
};
pub use liveness::{
    build_challenge_packet, challenge_packet, check_challenge_reply, liveness_verdict, nonce_text,
    render_nonce, reply_outcome, verdict_of, Challenge, ChallengeOutcome, LivenessError,
    CHALLENGE_TIMEOUT_SECS,
};
pub use model::{Config, DeleteServerQuery, Heartbeat, Player, ServerInfo};
pub use service::{
    begin_heartbeat, built_from, delete_server, get_servers, handle_heartbeat, prepare_heartbeat,
    register_heartbeat, HeartbeatAttempt, HeartbeatError,
};
pub use storage::{
    added, address_key, at_address, count_from, entries_match, fresh_at, has_address, keys_from,
    record_is_fresh, registry_wf, ServerStorage,
};
pub use text::{append_decimal, decimal, ipv4_text, render_ipv4, same_text};
pub use trust::{
    extract_real_ip, first_entry, first_forwarded_entry, format_address_for_challenge,
    forwarded_address, resolves_to, ChallengeTarget, ForwardingHeaders, IpClass, RequestError,
};
pub use validate::{
    is_label_char, valid_heartbeat, validate_heartbeat, validation_outcome, validation_text,
    ValidationError,
};
