//! When a device joins a vault, a member re-splits each password it distributed so that
//! the new member gets a share. The orchestrator decrypts, recovers and splits; these
//! functions make its decisions and do its reads and writes: which claim to extend,
//! whether the work is already done and from which share it starts, which shares to
//! collect and from whom, and storing the new shares and the extended claim.
use vstd::prelude::*;
use crate::collections::{views_of, KeyEq, ViewClone};
use crate::model::device::DeviceId;
use crate::model::meta_pass::MetaPasswordId;
use crate::model::secret::{
    contains_device, SecretDistributionType, SsClaim, SsClaimView, SsDistributionStatus, SsLogData,
};
use crate::model::user::UserDataMember;
use crate::text::{lemma_lt_total, lemma_lt_trans, seq_lt, str_lt};
use crate::actions::recovery::own_share_first;
use crate::db::descriptors::{ObjectDescriptor, SsWorkflowDescriptor};
use crate::db::events::{GenericKvLogEvent, SsKvLogEvent, SsWorkflowObject, ToGenericEvent};
use crate::db::generic_db::{DeleteCommand, KvLogEventRepo, SaveCommand};
use crate::db::object_id::{KvKey, KvLogEvent};
use crate::db::objects::persistent_shared_secret::{
    as_ss_device_log, as_ss_workflow, claim_logged, ss_device_log_first, PersistentSharedSecret,
};
use crate::db::store::{first_id_of, free_id, has_free_id, save_all, tail_event, IdView, PersistentObject};
use crate::error::CoreError;
use crate::model::aead::EncryptedMessage;
use crate::model::secret::{SecretDistributionData, SsDistributionId};
use crate::model::vault::VaultName;

verus! {

/// A split claim of the password, sent by `sender`.
pub open spec fn is_split_by(c: SsClaimView, sender: Seq<char>, pass_id: (Seq<char>, Seq<char>)) -> bool {
    &&& c.distribution_type == SecretDistributionType::Split
    &&& c.sender == sender
    &&& c.pass_id() == pass_id
}

fn split_by(claim: &SsClaim, sender: &DeviceId, pass_id: &MetaPasswordId) -> (r: bool)
    ensures
        r == is_split_by(claim@, sender@, pass_id@),
{
    claim.distribution_type == SecretDistributionType::Split && claim.sender.key_eq(sender)
        && claim.dist_claim_id.pass_id.key_eq(pass_id)
}

/// A split claim of the password by the local device, in the vault's claim log.
pub fn find_split_claim(log: &SsLogData, local: &DeviceId, pass_id: &MetaPasswordId) -> (r: Option<SsClaim>)
    ensures
        r is None <==> !(exists|k: Seq<char>| #[trigger] log@.contains_key(k) && is_split_by(log@[k], local@, pass_id@)),
        r matches Some(c) ==> is_split_by(c@, local@, pass_id@) && exists|k: Seq<char>| #[trigger] log@.contains_key(k)
            && log@[k] == c@,
{
    proof {
        use_type_invariant(&log.claims);
        log.claims.lemma_entries();
    }
    let entries = log.claims.as_vec();
    let mut i: usize = 0;
    while i < entries.len()
        invariant
            entries@ == log.claims.entry_seq(),
            i <= entries.len(),
            forall|j: int| 0 <= j < i ==> !is_split_by((#[trigger] entries@[j]).1@, local@, pass_id@),
            forall|j: int| 0 <= j < entries@.len() ==> log@.contains_key((#[trigger] entries@[j]).0@)
                && log@[entries@[j].0@] == entries@[j].1@,
        decreases entries.len() - i,
    {
        if split_by(&entries[i].1, local, pass_id) {
            let c = entries[i].1.view_clone();
            proof {
                assert(log@.contains_key(entries@[i as int].0@));
            }
            return Some(c);
        }
        i = i + 1;
    }
    proof {
        if exists|k: Seq<char>| #[trigger] log@.contains_key(k) && is_split_by(log@[k], local@, pass_id@) {
            let k = choose|k: Seq<char>| #[trigger] log@.contains_key(k) && is_split_by(log@[k], local@, pass_id@);
            let j = choose|j: int| 0 <= j < entries@.len() && (#[trigger] log.claims.entry_seq()[j]).0@ == k;
            assert(!is_split_by(entries@[j].1@, local@, pass_id@));
        }
    }
    None
}

/// The first split claim of the password by the local device among the claims it sent.
pub fn find_split_claim_in(claims: &Vec<SsClaim>, local: &DeviceId, pass_id: &MetaPasswordId) -> (r: Option<SsClaim>)
    ensures
        r is None <==> !(exists|i: int| 0 <= i < claims@.len() && is_split_by((#[trigger] claims@[i])@, local@, pass_id@)),
        r matches Some(c) ==> exists|i: int|
            0 <= i < claims@.len() && (#[trigger] claims@[i])@ == c@ && is_split_by(c@, local@, pass_id@) && forall|j: int|
                0 <= j < i ==> !is_split_by((#[trigger] claims@[j])@, local@, pass_id@),
{
    let mut i: usize = 0;
    while i < claims.len()
        invariant
            i <= claims.len(),
            forall|j: int| 0 <= j < i ==> !is_split_by((#[trigger] claims@[j])@, local@, pass_id@),
        decreases claims.len() - i,
    {
        if split_by(&claims[i], local, pass_id) {
            let c = claims[i].view_clone();
            proof {
                assert(claims@[i as int]@ == c@);
            }
            return Some(c);
        }
        i = i + 1;
    }
    None
}

/// The new member already has its share and is among the receivers of the claim: there
/// is nothing left to do for this password.
pub fn redistribution_done(has_target_distribution: bool, claim: &SsClaim, joined: &DeviceId) -> (r: bool)
    ensures
        r == (has_target_distribution && claim@.receivers.contains(joined@)),
{
    has_target_distribution && contains_device(&claim.receivers, joined)
}

/// The number of shares to collect before the password can be recovered: the threshold
/// of the local share, at least one.
pub fn shares_needed(threshold: Option<usize>) -> (r: usize)
    ensures
        r == match threshold {
            Some(t) => if t >= 1 { t } else { 1 },
            None => 1,
        },
        r >= 1,
{
    match threshold {
        Some(t) => if t >= 1 { t } else { 1 },
        None => 1,
    }
}

/// Texts in strictly increasing order (hence each once).
pub open spec fn sorted_strict(s: Seq<Seq<char>>) -> bool {
    forall|i: int, k: int| 0 <= i < k < s.len() ==> seq_lt(#[trigger] s[i], #[trigger] s[k])
}

/// The devices of the members, except `local`.
pub open spec fn other_member_devices(members: Seq<UserDataMember>, local: Seq<char>) -> Set<Seq<char>> {
    Set::new(|d: Seq<char>| d != local && exists|i: int| 0 <= i < members.len() && (#[trigger] members[i]).user_data.device.device_id@ == d)
}

/// The devices to ask for their shares: every member except this device, each once,
/// in the order of their ids.
pub fn recovery_candidates(members: &Vec<UserDataMember>, local: &DeviceId) -> (r: Vec<DeviceId>)
    ensures
        sorted_strict(views_of(r@)),
        views_of(r@).to_set() == other_member_devices(members@, local@),
{
    let mut out: Vec<DeviceId> = Vec::new();
    let mut i: usize = 0;
    while i < members.len()
        invariant
            i <= members.len(),
            sorted_strict(views_of(out@)),
            views_of(out@).to_set() == other_member_devices(members@.take(i as int), local@),
        decreases members.len() - i,
    {
        let device = &members[i].user_data.device.device_id;
        let ghost prev = views_of(out@);
        proof {
            assert forall|d: Seq<char>| #[trigger] other_member_devices(members@.take(i + 1), local@).contains(d) == (
            other_member_devices(members@.take(i as int), local@).contains(d) || (d == device@ && d != local@)) by {
                if other_member_devices(members@.take(i + 1), local@).contains(d) {
                    let j = choose|j: int| 0 <= j < i + 1 && (#[trigger] members@.take(i + 1)[j]).user_data.device.device_id@ == d;
                    if j < i {
                        assert(members@.take(i as int)[j] == members@.take(i + 1)[j]);
                    }
                }
                if other_member_devices(members@.take(i as int), local@).contains(d) {
                    let j = choose|j: int| 0 <= j < i && (#[trigger] members@.take(i as int)[j]).user_data.device.device_id@ == d;
                    assert(members@.take(i + 1)[j] == members@.take(i as int)[j]);
                }
                if d == device@ && d != local@ {
                    assert(members@.take(i + 1)[i as int] == members@[i as int]);
                }
            }
        }
        if !device.key_eq(local) {
            let mut j: usize = 0;
            while j < out.len() && str_lt(out[j].0.text.0.as_str(), device.0.text.0.as_str())
                invariant
                    j <= out.len(),
                    forall|k: int| 0 <= k < j ==> seq_lt((#[trigger] out@[k])@, device@),
                decreases out.len() - j,
            {
                j = j + 1;
            }
            let present = j < out.len() && out[j].key_eq(device);
            if !present {
                let ghost before = out@;
                out.insert(j, device.clone());
                proof {
                    let s = views_of(out@);
                    assert(s =~= prev.insert(j as int, device@));
                    if j < before.len() {
                        lemma_lt_total(before[j as int]@, device@);
                    }
                    assert forall|a: int, b: int| 0 <= a < b < s.len() implies seq_lt(#[trigger] s[a], #[trigger] s[b]) by {
                        if a < j && b < j {
                            assert(s[a] == prev[a] && s[b] == prev[b]);
                        } else if a < j && b == j {
                            assert(s[a] == before[a]@);
                        } else if a < j && b > j {
                            assert(s[a] == prev[a] && s[b] == prev[b - 1]);
                            assert(seq_lt(prev[a], prev[b - 1]));
                        } else if a == j {
                            assert(s[b] == prev[b - 1]);
                            if b - 1 > j {
                                assert(seq_lt(prev[j as int], prev[b - 1]));
                                lemma_lt_trans(device@, prev[j as int], prev[b - 1]);
                            }
                        } else {
                            assert(s[a] == prev[a - 1] && s[b] == prev[b - 1]);
                        }
                    }
                    assert(s.to_set() =~= prev.to_set().insert(device@)) by {
                        assert forall|x: Seq<char>| s.to_set().contains(x) == prev.to_set().insert(device@).contains(x) by {
                            if s.contains(x) {
                                let k = choose|k: int| 0 <= k < s.len() && s[k] == x;
                                if k < j {
                                    assert(prev[k] == x);
                                } else if k > j {
                                    assert(prev[k - 1] == x);
                                }
                            }
                            if prev.contains(x) {
                                let k = choose|k: int| 0 <= k < prev.len() && prev[k] == x;
                                if k < j {
                                    assert(s[k] == x);
                                } else {
                                    assert(s[k + 1] == x);
                                }
                            }
                            if x == device@ {
                                assert(s[j as int] == x);
                            }
                        }
                    }
                    assert forall|x: Seq<char>| #[trigger] views_of(out@).to_set().contains(x)
                        == other_member_devices(members@.take(i + 1), local@).contains(x) by {
                        assert(other_member_devices(members@.take(i + 1), local@).contains(x) == (
                        other_member_devices(members@.take(i as int), local@).contains(x) || (x == device@ && x != local@)));
                        assert(prev.to_set().contains(x) == other_member_devices(members@.take(i as int), local@).contains(x));
                    }
                    assert(views_of(out@).to_set() =~= other_member_devices(members@.take(i + 1), local@));
                }
            } else {
                proof {
                    assert(prev[j as int] == device@);
                    assert(views_of(out@).to_set() =~= other_member_devices(members@.take(i + 1), local@)) by {
                        assert(prev.to_set().contains(device@));
                    }
                }
            }
        } else {
            proof {
                assert forall|d: Seq<char>| #[trigger] other_member_devices(members@.take(i + 1), local@).contains(d)
                    == other_member_devices(members@.take(i as int), local@).contains(d) by {
                    if other_member_devices(members@.take(i + 1), local@).contains(d) {
                        let j = choose|j: int| 0 <= j < i + 1 && (#[trigger] members@.take(i + 1)[j]).user_data.device.device_id@ == d;
                        if j < i {
                            assert(members@.take(i as int)[j] == members@.take(i + 1)[j]);
                        } else {
                            assert(members@.take(i + 1)[j] == members@[i as int]);
                        }
                    }
                    if other_member_devices(members@.take(i as int), local@).contains(d) {
                        let j = choose|j: int| 0 <= j < i && (#[trigger] members@.take(i as int)[j]).user_data.device.device_id@ == d;
                        assert(members@.take(i + 1)[j] == members@.take(i as int)[j]);
                    }
                }
                assert(views_of(out@).to_set() =~= other_member_devices(members@.take(i + 1), local@));
            }
        }
        i = i + 1;
    }
    proof {
        assert(members@.take(i as int) =~= members@);
    }
    out
}

/// The split claim with the new member among its receivers (once), waiting for its share.
pub fn add_joined_receiver(claim: SsClaim, joined: DeviceId) -> (r: SsClaim)
    ensures
        r@ == (SsClaimView {
            receivers: if claim@.receivers.contains(joined@) {
                claim@.receivers
            } else {
                claim@.receivers.push(joined@)
            },
            status: claim@.status.insert(joined@, SsDistributionStatus::Pending),
            ..claim@
        }),
{
    let SsClaim { id, dist_claim_id, vault_name, sender, distribution_type, receivers, status, client_status } =
        claim;
    let mut receivers = receivers;
    if !contains_device(&receivers, &joined) {
        receivers.push(joined.clone());
        proof {
            assert(views_of(receivers@) =~= claim@.receivers.push(joined@));
        }
    }
    let status = status.set_status(joined, SsDistributionStatus::Pending);
    SsClaim { id, dist_claim_id, vault_name, sender, distribution_type, receivers, status, client_status }
}

/// After adding a member, the member is a receiver of the claim and waits for its share;
/// doing it twice changes nothing more.
pub proof fn law_add_joined_receiver_idempotent(c: SsClaimView, joined: Seq<char>)
    ensures
        ({
            let once = SsClaimView {
                receivers: if c.receivers.contains(joined) { c.receivers } else { c.receivers.push(joined) },
                status: c.status.insert(joined, SsDistributionStatus::Pending),
                ..c
            };
            let twice = SsClaimView {
                receivers: if once.receivers.contains(joined) { once.receivers } else { once.receivers.push(joined) },
                status: once.status.insert(joined, SsDistributionStatus::Pending),
                ..once
            };
            &&& once.receivers.contains(joined)
            &&& once.status[joined] == SsDistributionStatus::Pending
            &&& twice == once
        }),
{
    let once_receivers = if c.receivers.contains(joined) { c.receivers } else { c.receivers.push(joined) };
    if !c.receivers.contains(joined) {
        assert(once_receivers[c.receivers.len() as int] == joined);
    }
    assert(c.status.insert(joined, SsDistributionStatus::Pending).insert(joined, SsDistributionStatus::Pending)
        =~= c.status.insert(joined, SsDistributionStatus::Pending));
}

/// The redistribution of the claim's password for the joined device is done in the store:
/// the device has its share and the claim names it.
pub open spec fn redistribution_done_in(events: Map<IdView, GenericKvLogEvent>, claim: SsClaim, joined: DeviceId) -> bool {
    &&& tail_event(events, own_share_first(claim.dist_claim_id.pass_id, joined)) is Some
    &&& claim@.receivers.contains(joined@)
}

/// Where the redistribution of a password stands, from the local store.
pub enum RedistributionStart {
    /// The new member has its share and the claim names it: nothing to do.
    Done,
    /// This device keeps no share of the password to start from.
    NoSource,
    /// The share this device keeps, to recover the password from.
    Source(SecretDistributionData),
}

/// Whether the redistribution of the claim's password for the joined device is to be done,
/// and from which share of this device.
pub fn redistribution_start<Repo: KvLogEventRepo>(
    p_obj: &PersistentObject<Repo>,
    claim: &SsClaim,
    local: &DeviceId,
    joined: &DeviceId,
) -> (r: RedistributionStart)
    ensures
        r is Done <==> redistribution_done_in(p_obj.repo.events(), *claim, *joined),
        ({
            let events = p_obj.repo.events();
            let target = tail_event(events, own_share_first(claim.dist_claim_id.pass_id, *joined));
            let source = tail_event(events, own_share_first(claim.dist_claim_id.pass_id, *local));
            if target is Some && claim@.receivers.contains(joined@) {
                r is Done
            } else {
                match source {
                    Some(e) => match as_ss_workflow(e) {
                        Some(SsWorkflowObject::Distribution(d)) => r == RedistributionStart::Source(d.value),
                        _ => r is NoSource,
                    },
                    None => r is NoSource,
                }
            }
        }),
{
    let target_desc = SsWorkflowDescriptor::Distribution(
        SsDistributionId { pass_id: claim.dist_claim_id.pass_id.clone(), receiver: joined.clone() },
    );
    let has_target = p_obj.find_tail_event(target_desc).is_some();
    if redistribution_done(has_target, claim, joined) {
        return RedistributionStart::Done;
    }
    let source_desc = SsWorkflowDescriptor::Distribution(
        SsDistributionId { pass_id: claim.dist_claim_id.pass_id.clone(), receiver: local.clone() },
    );
    match p_obj.find_tail_event(source_desc) {
        Some(GenericKvLogEvent::Ss(SsKvLogEvent::SsWorkflow(SsWorkflowObject::Distribution(d)))) => RedistributionStart::Source(
            d.value.clone(),
        ),
        _ => RedistributionStart::NoSource,
    }
}

/// The first id of the share of the claim's password kept for `receiver`.
pub open spec fn share_first(claim: SsClaim, receiver: DeviceId) -> IdView {
    own_share_first(claim.dist_claim_id.pass_id, receiver)
}

/// `ev` are the new shares of the claim's password, one per given share in order: each is
/// the distribution event for its receiver, stored under that receiver's share id.
pub open spec fn new_distributions(
    ev: Seq<GenericKvLogEvent>,
    claim: SsClaim,
    vault_name: VaultName,
    shares: Seq<(DeviceId, EncryptedMessage)>,
) -> bool {
    &&& ev.len() == shares.len()
    &&& forall|k: int| 0 <= k < ev.len() ==> {
        &&& (#[trigger] ev[k]).key_of().obj_id@ == share_first(claim, shares[k].0)
        &&& as_ss_workflow(ev[k]) matches Some(SsWorkflowObject::Distribution(d))
        &&& d.key.obj_desc == ObjectDescriptor::SharedSecret(
            SsWorkflowDescriptor::Distribution(SsDistributionId { pass_id: claim.dist_claim_id.pass_id, receiver: shares[k].0 }),
        )
        &&& d.value == (SecretDistributionData {
            vault_name,
            claim_id: claim.dist_claim_id,
            secret_message: shares[k].1,
        })
    }
}

/// The claim with the joined device among its receivers, waiting for its share.
pub open spec fn with_joined(c: SsClaimView, joined: Seq<char>) -> SsClaimView {
    SsClaimView {
        receivers: if c.receivers.contains(joined) { c.receivers } else { c.receivers.push(joined) },
        status: c.status.insert(joined, SsDistributionStatus::Pending),
        ..c
    }
}

fn save_distributions<Repo: KvLogEventRepo>(
    p_obj: &mut PersistentObject<Repo>,
    claim: &SsClaim,
    vault_name: &VaultName,
    shares: Vec<(DeviceId, EncryptedMessage)>,
) -> (ev: Ghost<Seq<GenericKvLogEvent>>)
    ensures
        new_distributions(ev@, *claim, *vault_name, shares@),
        final(p_obj).repo.events() == save_all(old(p_obj).repo.events(), ev@),
{
    let ghost start = p_obj.repo.events();
    let ghost all = shares@;
    assert(all.len() == shares.len());
    let ghost mut ev: Seq<GenericKvLogEvent> = Seq::empty();
    let mut rest = shares;
    let mut k: usize = 0;
    while rest.len() > 0
        invariant
            k <= all.len() <= usize::MAX,
            rest@ == all.skip(k as int),
            new_distributions(ev, *claim, *vault_name, all.take(k as int)),
            p_obj.repo.events() == save_all(start, ev),
        decreases rest.len(),
    {
        assert(rest@.len() == all.len() - k);
        let (receiver, msg) = rest.remove(0);
        let ghost item = (receiver, msg);
        proof {
            assert(item == all[k as int]);
        }
        let id = SsDistributionId { pass_id: claim.dist_claim_id.pass_id.clone(), receiver };
        let wf = SsWorkflowObject::Distribution(
            KvLogEvent {
                key: KvKey::from(SsWorkflowDescriptor::Distribution(id)),
                value: SecretDistributionData {
                    vault_name: vault_name.clone(),
                    claim_id: claim.dist_claim_id.clone(),
                    secret_message: msg,
                },
            },
        );
        let event = wf.to_generic();
        let ghost g = event;
        let ghost prev_ev = ev;
        // a stale share of an earlier split goes first, so that every share comes from
        // the same split
        let stale_id = crate::db::events::ObjIdExtractor::obj_id(&event);
        p_obj.repo.delete(&stale_id);
        p_obj.repo.save(event);
        proof {
            ev = prev_ev.push(g);
            assert(ev.drop_last() =~= prev_ev);
            assert(p_obj.repo.events() =~= save_all(start, prev_ev).insert(g.key_of().obj_id@, g));
            assert(all.take(k + 1).drop_last() =~= all.take(k as int));
            assert forall|j: int| 0 <= j < ev.len() implies {
                &&& (#[trigger] ev[j]).key_of().obj_id@ == share_first(*claim, all.take(k + 1)[j].0)
                &&& as_ss_workflow(ev[j]) matches Some(SsWorkflowObject::Distribution(d))
                &&& d.key.obj_desc == ObjectDescriptor::SharedSecret(
                    SsWorkflowDescriptor::Distribution(
                        SsDistributionId { pass_id: claim.dist_claim_id.pass_id, receiver: all.take(k + 1)[j].0 },
                    ),
                )
                &&& d.value == (SecretDistributionData {
                    vault_name: *vault_name,
                    claim_id: claim.dist_claim_id,
                    secret_message: all.take(k + 1)[j].1,
                })
            } by {
                if j < prev_ev.len() {
                    assert(ev[j] == prev_ev[j]);
                    assert(all.take(k + 1)[j] == all.take(k as int)[j]);
                }
            }
        }
        k = k + 1;
        proof {
            assert(rest@ =~= all.skip(k as int));
        }
    }
    proof {
        assert(all.take(k as int) =~= all);
    }
    Ghost(ev)
}

/// What storing a redistribution does to the store: the new shares are saved, then the
/// claim, now naming the new member, is recorded in its sender's claims log and in the
/// vault's claims log; when no id is left for the sender's log, the shares stay and the
/// claim is not recorded.
pub open spec fn redistribution_stored(
    before: Map<IdView, GenericKvLogEvent>,
    after: Map<IdView, GenericKvLogEvent>,
    claim: SsClaim,
    joined: DeviceId,
    vault_name: VaultName,
    shares: Seq<(DeviceId, EncryptedMessage)>,
    r: Result<(), CoreError>,
) -> bool {
    exists|ev: Seq<GenericKvLogEvent>| #![trigger new_distributions(ev, claim, vault_name, shares)]
        new_distributions(ev, claim, vault_name, shares) && ({
            let mid = save_all(before, ev);
            let f = ss_device_log_first(claim.sender@);
            let k = free_id(mid, f);
            let updated = with_joined(claim@, joined@);
            &&& !has_free_id(mid, f) ==> (r == Err::<(), CoreError>(CoreError::IdExhausted) && after == mid)
            &&& has_free_id(mid, f) ==> exists|e: GenericKvLogEvent| #![trigger as_ss_device_log(e)]
                (as_ss_device_log(e) matches Some(o) && o.0.key.obj_id@ == k && o.0.value@ == updated) && claim_logged(
                    mid.insert(k, e),
                    after,
                    updated,
                    r,
                )
        })
}

/// Redistribution runs once: once a redistribution that gives the new member a share was
/// stored, the claim as stored names the new member and its share is in the store, so a
/// later start finds the work done and writes nothing.
pub proof fn law_stored_redistribution_is_done(
    before: Map<IdView, GenericKvLogEvent>,
    after: Map<IdView, GenericKvLogEvent>,
    claim: SsClaim,
    joined: DeviceId,
    vault_name: VaultName,
    shares: Seq<(DeviceId, EncryptedMessage)>,
    stored: SsClaim,
)
    requires
        redistribution_stored(before, after, claim, joined, vault_name, shares, Ok(())),
        exists|j: int| 0 <= j < shares.len() && (#[trigger] shares[j]).0@ == joined@,
        stored@ == with_joined(claim@, joined@),
    ensures
        redistribution_done_in(after, stored, joined),
{
    let ev = choose|ev: Seq<GenericKvLogEvent>| #![trigger new_distributions(ev, claim, vault_name, shares)]
        new_distributions(ev, claim, vault_name, shares) && ({
            let mid = save_all(before, ev);
            let f = ss_device_log_first(claim.sender@);
            let k = free_id(mid, f);
            let updated = with_joined(claim@, joined@);
            &&& !has_free_id(mid, f) ==> (Ok::<(), CoreError>(()) == Err::<(), CoreError>(CoreError::IdExhausted) && after == mid)
            &&& has_free_id(mid, f) ==> exists|e: GenericKvLogEvent| #![trigger as_ss_device_log(e)]
                (as_ss_device_log(e) matches Some(o) && o.0.key.obj_id@ == k && o.0.value@ == updated) && claim_logged(
                    mid.insert(k, e),
                    after,
                    updated,
                    Ok(()),
                )
        });
    let mid = save_all(before, ev);
    let f = ss_device_log_first(claim.sender@);
    let k = free_id(mid, f);
    let updated = with_joined(claim@, joined@);
    let e = choose|e: GenericKvLogEvent| #![trigger as_ss_device_log(e)]
        (as_ss_device_log(e) matches Some(o) && o.0.key.obj_id@ == k && o.0.value@ == updated) && claim_logged(
            mid.insert(k, e),
            after,
            updated,
            Ok(()),
        );
    let j = choose|j: int| 0 <= j < shares.len() && (#[trigger] shares[j]).0@ == joined@;
    let t = own_share_first(claim.dist_claim_id.pass_id, joined);
    assert(ev[j].key_of().obj_id@ == share_first(claim, shares[j].0));
    assert(share_first(claim, shares[j].0) == t);
    lemma_save_all_keeps(before, ev, j, t);
    assert(mid.insert(k, e).contains_key(t));
    assert(after.contains_key(t));
    assert(own_share_first(stored.dist_claim_id.pass_id, joined) == t);
    if !claim@.receivers.contains(joined@) {
        assert(updated.receivers[claim@.receivers.len() as int] == joined@);
    }
    assert(stored@.receivers == updated.receivers);
}

/// Store a redistribution: the new shares of the claim's password, each replacing the
/// receiver's earlier share, then the claim with the joined device among its receivers,
/// first in this device's claims log (so that the next synchronisation sends it) and then
/// in the vault's claims log. Once it succeeds with a share for the joined device, the
/// store holds that share and the claim as stored names the device: for that claim
/// `redistribution_start` answers `Done`, so a second run writes nothing.
pub fn store_redistribution<Repo: KvLogEventRepo>(
    p_obj: &mut PersistentObject<Repo>,
    claim: SsClaim,
    joined: DeviceId,
    vault_name: VaultName,
    shares: Vec<(DeviceId, EncryptedMessage)>,
) -> (r: Result<(), CoreError>)
    ensures
        redistribution_stored(old(p_obj).repo.events(), final(p_obj).repo.events(), claim, joined, vault_name, shares@, r),
        (r is Ok && exists|j: int| 0 <= j < shares@.len() && (#[trigger] shares@[j]).0@ == joined@) ==> forall|
            stored: SsClaim,
        |
            #![trigger redistribution_done_in(final(p_obj).repo.events(), stored, joined)]
            stored@ == with_joined(claim@, joined@) ==> redistribution_done_in(
                final(p_obj).repo.events(),
                stored,
                joined,
            ),
{
    let ghost start = p_obj.repo.events();
    let ghost shares_view = shares@;
    let ghost claim_view = claim;
    let ghost joined_view = joined;
    let ev = save_distributions(p_obj, &claim, &vault_name, shares);
    let ghost mid = p_obj.repo.events();
    let updated = add_joined_receiver(claim, joined);
    match (PersistentSharedSecret { p_obj: &mut *p_obj }).save_claim_in_ss_device_log(updated.clone()) {
        Ok(()) => {},
        Err(e) => return Err(e),
    }
    let ghost mid2 = p_obj.repo.events();
    let ghost upd = updated@;
    let r = (PersistentSharedSecret { p_obj: &mut *p_obj }).save_ss_log_event(updated);
    proof {
        let f = ss_device_log_first(claim.sender@);
        let k = free_id(mid, f);
        assert(mid2 == mid.insert(k, mid2[k]));
        assert(as_ss_device_log(mid2[k]) is Some);
        if r is Ok && exists|j: int| 0 <= j < shares_view.len() && (#[trigger] shares_view[j]).0@ == joined_view@ {
            assert forall|stored: SsClaim| #[trigger] redistribution_done_in(p_obj.repo.events(), stored, joined_view)
                || !(stored@ == with_joined(claim_view@, joined_view@)) by {
                if stored@ == with_joined(claim_view@, joined_view@) {
                    law_stored_redistribution_is_done(
                        start,
                        p_obj.repo.events(),
                        claim_view,
                        joined_view,
                        vault_name,
                        shares_view,
                        stored,
                    );
                }
            }
        }
    }
    r
}

proof fn lemma_save_all_keeps(m: Map<IdView, GenericKvLogEvent>, ev: Seq<GenericKvLogEvent>, j: int, id: IdView)
    requires
        0 <= j < ev.len(),
        ev[j].key_of().obj_id@ == id,
    ensures
        save_all(m, ev).contains_key(id),
    decreases ev.len(),
{
    if j < ev.len() - 1 {
        lemma_save_all_keeps(m, ev.drop_last(), j, id);
    }
}

/// The shares of the password kept for the candidates, in their order, with the candidate
/// each is for: a candidate with no share, or with something else than a distributed
/// share, is passed over.
pub open spec fn kept_shares(
    events: Map<IdView, GenericKvLogEvent>,
    pass_id: MetaPasswordId,
    candidates: Seq<DeviceId>,
) -> Seq<(DeviceId, SecretDistributionData)>
    decreases candidates.len(),
{
    if candidates.len() == 0 {
        Seq::empty()
    } else {
        let rest = kept_shares(events, pass_id, candidates.drop_last());
        let d = candidates.last();
        match tail_event(events, own_share_first(pass_id, d)) {
            Some(e) => match as_ss_workflow(e) {
                Some(SsWorkflowObject::Distribution(x)) => rest.push((d, x.value)),
                _ => rest,
            },
            None => rest,
        }
    }
}

/// The shares of the password this device can read to recover it before a re-split: those
/// kept for the other members it collects from (see `recovery_candidates`).
pub fn candidate_shares<Repo: KvLogEventRepo>(
    p_obj: &PersistentObject<Repo>,
    pass_id: &MetaPasswordId,
    candidates: &Vec<DeviceId>,
) -> (r: Vec<(DeviceId, SecretDistributionData)>)
    ensures
        r@ == kept_shares(p_obj.repo.events(), *pass_id, candidates@),
{
    let mut out: Vec<(DeviceId, SecretDistributionData)> = Vec::new();
    let mut i: usize = 0;
    while i < candidates.len()
        invariant
            i <= candidates.len(),
            out@ == kept_shares(p_obj.repo.events(), *pass_id, candidates@.take(i as int)),
        decreases candidates.len() - i,
    {
        proof {
            assert(candidates@.take(i + 1).drop_last() =~= candidates@.take(i as int));
            assert(candidates@.take(i + 1).last() == candidates@[i as int]);
        }
        let receiver = candidates[i].clone();
        let desc = SsWorkflowDescriptor::Distribution(SsDistributionId { pass_id: pass_id.clone(), receiver: receiver.clone() });
        match p_obj.find_tail_event(desc) {
            Some(GenericKvLogEvent::Ss(SsKvLogEvent::SsWorkflow(SsWorkflowObject::Distribution(x)))) => {
                out.push((receiver, x.value.clone()));
            },
            _ => {},
        }
        i = i + 1;
    }
    proof {
        assert(candidates@.take(i as int) =~= candidates@);
    }
    out
}

} // verus!

