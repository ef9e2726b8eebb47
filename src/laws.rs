use vstd::prelude::*;

use crate::liveness::{
    bytes_at, nonce_text, reply_prefix, verdict_of, ChallengeOutcome,
};
use crate::model::ServerInfo;
use crate::storage::{added, address_key, at_address, count_from, has_address, keys_from, registry_wf};

verus! {

/// After a heartbeat is admitted, the registry holds exactly one record for
/// its address and port, and that record holds the fields just submitted.
pub proof fn lemma_admitted_record_is_the_only_one(
    m: Map<Seq<char>, ServerInfo>,
    info: ServerInfo,
    max: nat,
)
    requires
        registry_wf(m),
        added(m, info, max) is Some,
    ensures
        ({
            let after = added(m, info, max).unwrap();
            &&& registry_wf(after)
            &&& after.contains_key(info.id@)
            &&& after[info.id@] == info
            &&& forall|k: Seq<char>| #[trigger] after.contains_key(k) && at_address(after[k], info.ip@, info.port) ==> k == info.id@
        }),
{
    let after = added(m, info, max).unwrap();
    crate::storage::lemma_added_wf(m, info, max);
    assert forall|k: Seq<char>| #[trigger] after.contains_key(k) && at_address(after[k], info.ip@, info.port) implies k
        == info.id@ by {
        if k != info.id@ {
            assert(after.contains_key(info.id@));
            assert(!at_address(after[k], after[info.id@].ip@, after[info.id@].port));
        }
    }
}

/// A heartbeat for an address and port that already has a record is always
/// admitted, whatever the quota, and never raises the number of records of
/// that address.
pub proof fn lemma_refresh_never_grows(m: Map<Seq<char>, ServerInfo>, info: ServerInfo, max: nat)
    requires
        registry_wf(m),
        has_address(m, info.ip@, info.port),
    ensures
        added(m, info, max) is Some,
        count_from(added(m, info, max).unwrap(), info.ip@) <= count_from(m, info.ip@),
{
    let ip = info.ip@;
    let e = address_key(m, ip, info.port);
    assert(m.contains_key(e) && at_address(m[e], ip, info.port));
    let after = added(m, info, max).unwrap();
    let before = keys_from(m, ip);
    let now = keys_from(after, ip);
    assert(before.contains(e));
    assert(before.finite());
    assert(now.subset_of(before.remove(e).insert(info.id@)));
    vstd::set_lib::lemma_len_subset(now, before.remove(e).insert(info.id@));
}

/// A heartbeat for a new port of an address that already has `max` records
/// is refused, while one for a port it already has is admitted.
pub proof fn lemma_quota_applies_to_new_ports_only(
    m: Map<Seq<char>, ServerInfo>,
    info: ServerInfo,
    max: nat,
)
    requires
        registry_wf(m),
        count_from(m, info.ip@) >= max,
    ensures
        !has_address(m, info.ip@, info.port) ==> added(m, info, max) is None,
        has_address(m, info.ip@, info.port) ==> added(m, info, max) is Some,
{
}

/// A reply with the wrong prefix or the wrong nonce is rejected, and so is a
/// wait that ends without a reply.
pub proof fn lemma_bad_replies_are_rejected(nonce: u32, outcome: ChallengeOutcome)
    ensures
        outcome matches ChallengeOutcome::Reply(r) && !bytes_at(r@, 0, reply_prefix()) ==> verdict_of(
            nonce,
            outcome,
        ) is Err,
        outcome matches ChallengeOutcome::Reply(r) && !bytes_at(r@, 16, nonce_text(nonce)) ==> verdict_of(
            nonce,
            outcome,
        ) is Err,
        !(outcome is Reply) ==> verdict_of(nonce, outcome) is Err,
{
}

} // verus!
