//! What the client sends to the server and keeps locally when it synchronises the
//! secret-sharing claims of its vault. The client loop performs the uploads; these
//! functions decide them, store what the server sends and drop the local copies of shares
//! that are no longer needed.
use vstd::prelude::*;
use crate::collections::KeyEq;
use crate::db::descriptors::{ObjectDescriptor, SsWorkflowDescriptor};
use crate::db::events::{GenericKvLogEvent, SsKvLogEvent, SsWorkflowObject};
use crate::model::aead::EncryptedMessage;
use crate::model::device::DeviceId;
use crate::model::keys::device_id_of;
use crate::model::secret::{
    has_status, overall_status, ClaimId, SecretDistributionType, SsClaim, SsClaimView, SsDistributionStatus, SsLogData,
};
use crate::db::objects::persistent_shared_secret::{is_ss_log, stored_claims};
use crate::db::objects::persistent_vault::ill_typed;
use crate::db::store::tail_event;
use crate::db::events::{ObjIdExtractor, SsLogObject};
use crate::db::generic_db::{DeleteCommand, KvLogEventRepo, SaveCommand};
use crate::db::objects::persistent_shared_secret::{
    as_ss_workflow, distribution_firsts, read_workflows, recovery_firsts, same_workflow, some_ill_typed, tails_of,
    PersistentSharedSecret,
};
use crate::db::store::{save_all, IdView, PersistentObject};
use crate::error::CoreError;
use crate::model::user::UserData;

verus! {

/// The device a share in transit is encrypted for: the receiver of its channel.
pub open spec fn workflow_receiver(wf: SsWorkflowObject) -> Option<Seq<char>> {
    match wf {
        SsWorkflowObject::Distribution(e) => match e.value.secret_message {
            EncryptedMessage::CipherShare { share } => Some(device_id_of(share.channel.receiver_view())),
        },
        SsWorkflowObject::Recovery(_) => None,
    }
}

/// The receiver of the share has not got it yet.
pub open spec fn receiver_pending(c: SsClaimView, receiver: Option<Seq<char>>) -> bool {
    match receiver {
        Some(d) => c.status.contains_key(d) && c.status[d] == SsDistributionStatus::Pending,
        None => false,
    }
}

/// Whether some receiver of the claim is still pending.
pub fn has_pending_split_receiver(claim: &SsClaim) -> (r: bool)
    ensures
        r == has_status(claim@.status, SsDistributionStatus::Pending),
{
    claim.status.any_with(SsDistributionStatus::Pending)
}

/// The device a distributed share is for; nothing for a recovery share.
pub fn split_workflow_receiver(wf_event: &SsWorkflowObject) -> (r: Option<DeviceId>)
    ensures
        match workflow_receiver(*wf_event) {
            Some(d) => r matches Some(id) && id@ == d,
            None => r is None,
        },
{
    match wf_event {
        SsWorkflowObject::Distribution(event) => Some(
            event.value.secret_message.cipher_text().channel.receiver().to_device_id(),
        ),
        SsWorkflowObject::Recovery(_) => None,
    }
}

/// Whether the share is for a receiver the claim still waits for.
pub fn split_workflow_has_pending_receiver(claim: &SsClaim, wf_event: &SsWorkflowObject) -> (r: bool)
    ensures
        r == receiver_pending(claim@, workflow_receiver(*wf_event)),
{
    let receiver = split_workflow_receiver(wf_event);
    match receiver {
        Some(device) => match claim.status.get(&device) {
            Some(SsDistributionStatus::Pending) => true,
            _ => false,
        },
        None => false,
    }
}

/// A local copy of a share for another device, of one of our own split claims, that
/// the claim no longer waits for: it is stale and is removed.
pub open spec fn is_stale_copy(c: SsClaimView, wf: SsWorkflowObject, local: Seq<char>) -> bool {
    &&& c.distribution_type == SecretDistributionType::Split
    &&& c.sender == local
    &&& workflow_receiver(wf) matches Some(d)
    &&& d != local
    &&& !receiver_pending(c, workflow_receiver(wf))
}

pub fn is_stale_foreign_distribution(claim: &SsClaim, wf_event: &SsWorkflowObject, local: &DeviceId) -> (r: bool)
    ensures
        r == is_stale_copy(claim@, *wf_event, local@),
{
    if claim.distribution_type != SecretDistributionType::Split || !claim.sender.key_eq(local) {
        return false;
    }
    match split_workflow_receiver(wf_event) {
        Some(receiver) => {
            if receiver.key_eq(local) {
                false
            } else {
                !split_workflow_has_pending_receiver(claim, wf_event)
            }
        },
        None => false,
    }
}

/// What to upload for a claim of the vault log.
#[derive(Debug, Clone, Copy, PartialEq, Eq, Structural)]
pub enum ClaimUpload {
    Skip,
    /// The shares of our own split claim that receivers still wait for.
    SplitDistributions,
    /// Our answers to someone else's recovery claim, and our declines when some receiver declined.
    RecoveryWorkflows { with_declines: bool },
}

pub open spec fn claim_upload_of(c: SsClaimView, local: Seq<char>) -> ClaimUpload {
    if overall_status(c.status) == SsDistributionStatus::Delivered {
        ClaimUpload::Skip
    } else if c.distribution_type == SecretDistributionType::Split {
        if c.sender == local && has_status(c.status, SsDistributionStatus::Pending) {
            ClaimUpload::SplitDistributions
        } else {
            ClaimUpload::Skip
        }
    } else if c.sender == local {
        ClaimUpload::Skip
    } else {
        ClaimUpload::RecoveryWorkflows { with_declines: has_status(c.status, SsDistributionStatus::Declined) }
    }
}

pub fn claim_upload(claim: &SsClaim, local: &DeviceId) -> (r: ClaimUpload)
    ensures
        r == claim_upload_of(claim@, local@),
{
    if claim.status.status() == SsDistributionStatus::Delivered {
        return ClaimUpload::Skip;
    }
    match claim.distribution_type {
        SecretDistributionType::Split => {
            if claim.sender.key_eq(local) && has_pending_split_receiver(claim) {
                ClaimUpload::SplitDistributions
            } else {
                ClaimUpload::Skip
            }
        },
        SecretDistributionType::Recover => {
            if claim.sender.key_eq(local) {
                ClaimUpload::Skip
            } else {
                ClaimUpload::RecoveryWorkflows {
                    with_declines: claim.status.any_with(SsDistributionStatus::Declined),
                }
            }
        },
    }
}

/// After a share was uploaded, the sender keeps only the share that is its own.
pub fn keep_after_upload(wf_event: &SsWorkflowObject, local: &DeviceId) -> (r: bool)
    ensures
        r == (workflow_receiver(*wf_event) == Some(local@)),
{
    match split_workflow_receiver(wf_event) {
        Some(receiver) => receiver.key_eq(local),
        None => false,
    }
}

/// What a receiver uploads first, before reading the server's log.
#[derive(Debug, Clone, Copy, PartialEq, Eq, Structural)]
pub enum LocalRecoveryUpload {
    Skip,
    Declines,
    Approvals,
}

pub open spec fn local_recovery_upload_of(c: SsClaimView, local: Seq<char>) -> LocalRecoveryUpload {
    if c.distribution_type != SecretDistributionType::Recover || c.sender == local {
        LocalRecoveryUpload::Skip
    } else if has_status(c.status, SsDistributionStatus::Declined) {
        LocalRecoveryUpload::Declines
    } else {
        LocalRecoveryUpload::Approvals
    }
}

pub fn local_recovery_upload(claim: &SsClaim, local: &DeviceId) -> (r: LocalRecoveryUpload)
    ensures
        r == local_recovery_upload_of(claim@, local@),
{
    if claim.distribution_type != SecretDistributionType::Recover || claim.sender.key_eq(local) {
        LocalRecoveryUpload::Skip
    } else if claim.status.any_with(SsDistributionStatus::Declined) {
        LocalRecoveryUpload::Declines
    } else {
        LocalRecoveryUpload::Approvals
    }
}

/// A recovery share stored under a recovery id whose receiver is this device.
pub open spec fn is_own_recovery(wf: SsWorkflowObject, local: Seq<char>) -> bool {
    &&& wf matches SsWorkflowObject::Recovery(e)
    &&& e.key.obj_desc matches ObjectDescriptor::SharedSecret(SsWorkflowDescriptor::Recovery(id))
    &&& id.distribution_id.receiver@ == local
}

pub fn recovery_workflow_is_local(wf_event: &SsWorkflowObject, local: &DeviceId) -> (r: bool)
    ensures
        r == is_own_recovery(*wf_event, local@),
{
    match wf_event {
        SsWorkflowObject::Recovery(event) => match &event.key.obj_desc {
            ObjectDescriptor::SharedSecret(SsWorkflowDescriptor::Recovery(recovery_id)) => recovery_id.distribution_id.receiver.key_eq(
                local,
            ),
            _ => false,
        },
        SsWorkflowObject::Distribution(_) => false,
    }
}

/// One of our own split claims is uploaded when the vault log does not show it, or shows
/// it with a receiver still pending.
pub open spec fn own_claim_needs_upload_of(c: SsClaimView, current: Option<SsClaimView>) -> bool {
    &&& c.distribution_type == SecretDistributionType::Split
    &&& match current {
        Some(cur) => has_status(cur.status, SsDistributionStatus::Pending),
        None => true,
    }
}

pub fn own_claim_needs_upload(claim: &SsClaim, current: Option<&SsClaim>) -> (r: bool)
    ensures
        r == own_claim_needs_upload_of(
            claim@,
            match current {
                Some(c) => Some(c@),
                None => None,
            },
        ),
{
    if claim.distribution_type != SecretDistributionType::Split {
        return false;
    }
    match current {
        Some(c) => has_pending_split_receiver(c),
        None => true,
    }
}

/// A share of one of our own claims is uploaded unless the vault log shows its receiver
/// is no longer pending.
pub fn own_workflow_needs_upload(current: Option<&SsClaim>, wf_event: &SsWorkflowObject) -> (r: bool)
    ensures
        current matches Some(c) ==> r == receiver_pending(c@, workflow_receiver(*wf_event)),
        current is None ==> r,
{
    match current {
        Some(c) => split_workflow_has_pending_receiver(c, wf_event),
        None => true,
    }
}

/// Events from the server that replace what the client has under the same id: shares
/// (re-issued on redistribution) and the claim log (the server's copy is canonical).
pub fn replaces_local_copy(event: &GenericKvLogEvent) -> (r: bool)
    ensures
        r == (event matches GenericKvLogEvent::Ss(SsKvLogEvent::SsWorkflow(SsWorkflowObject::Distribution(_)))
            || event matches GenericKvLogEvent::Ss(SsKvLogEvent::SsLog(_))),
{
    match event {
        GenericKvLogEvent::Ss(SsKvLogEvent::SsWorkflow(SsWorkflowObject::Distribution(_))) => true,
        GenericKvLogEvent::Ss(SsKvLogEvent::SsLog(_)) => true,
        _ => false,
    }
}

/// Store the secret-sharing events that the server sent, in order; a share or a claim log
/// from the server takes the place of the local copy under its id.
pub fn save_server_ss_events<Repo: KvLogEventRepo>(p_obj: &mut PersistentObject<Repo>, events: Vec<GenericKvLogEvent>)
    ensures
        final(p_obj).repo.events() == save_all(old(p_obj).repo.events(), events@),
{
    let ghost start = p_obj.repo.events();
    let ghost all = events@;
    assert(all.len() == events.len());
    let mut rest = events;
    let mut k: usize = 0;
    while rest.len() > 0
        invariant
            k <= all.len() <= usize::MAX,
            rest@ == all.skip(k as int),
            p_obj.repo.events() == save_all(start, all.take(k as int)),
        decreases rest.len(),
    {
        assert(rest@.len() == all.len() - k);
        let event = rest.remove(0);
        let ghost before = p_obj.repo.events();
        proof {
            assert(all.take(k + 1).drop_last() =~= all.take(k as int));
            assert(all.take(k + 1).last() == event);
        }
        if replaces_local_copy(&event) {
            let id = event.obj_id();
            p_obj.repo.delete(&id);
        }
        p_obj.repo.save(event);
        k = k + 1;
        proof {
            assert(p_obj.repo.events() =~= before.insert(event.key_of().obj_id@, event));
            assert(rest@ =~= all.skip(k as int));
        }
    }
    proof {
        assert(all.take(k as int) =~= all);
    }
}

/// A stale copy is never a share that the sender keeps, nor one still waited for.
pub proof fn law_stale_copy_is_neither_kept_nor_awaited(c: SsClaimView, wf: SsWorkflowObject, local: Seq<char>)
    requires
        is_stale_copy(c, wf, local),
    ensures
        workflow_receiver(wf) != Some(local),
        !receiver_pending(c, workflow_receiver(wf)),
{
}

/// What a device uploads for a claim that is not finished: a split claim only by its
/// sender, and only while some receiver still waits for its share; nothing by the sender
/// of a recovery claim; by anyone else its answers to the recovery claim, with its
/// declines exactly when some receiver declined.
pub proof fn law_claim_upload_by_role(c: SsClaimView, local: Seq<char>)
    requires
        overall_status(c.status) != SsDistributionStatus::Delivered,
    ensures
        claim_upload_of(c, local) == ClaimUpload::SplitDistributions ==> c.distribution_type
            == SecretDistributionType::Split && c.sender == local && exists|d: Seq<char>|
            c.status.contains_key(d) && #[trigger] c.status[d] == SsDistributionStatus::Pending,
        (c.distribution_type == SecretDistributionType::Split && c.sender == local && exists|d: Seq<char>|
            c.status.contains_key(d) && #[trigger] c.status[d] == SsDistributionStatus::Pending) ==> claim_upload_of(
            c,
            local,
        ) == ClaimUpload::SplitDistributions,
        (c.distribution_type == SecretDistributionType::Recover && c.sender == local) ==> claim_upload_of(c, local)
            == ClaimUpload::Skip,
        (c.distribution_type == SecretDistributionType::Recover && c.sender != local) ==> claim_upload_of(c, local)
            == (ClaimUpload::RecoveryWorkflows {
            with_declines: exists|d: Seq<char>| c.status.contains_key(d) && #[trigger] c.status[d]
                == SsDistributionStatus::Declined,
        }),
{
    if exists|d: Seq<char>| c.status.contains_key(d) && #[trigger] c.status[d] == SsDistributionStatus::Pending {
        let d = choose|d: Seq<char>| c.status.contains_key(d) && #[trigger] c.status[d] == SsDistributionStatus::Pending;
        assert(c.status.contains_key(d) && c.status[d] == SsDistributionStatus::Pending);
    }
    if exists|d: Seq<char>| c.status.contains_key(d) && #[trigger] c.status[d] == SsDistributionStatus::Declined {
        let d = choose|d: Seq<char>| c.status.contains_key(d) && #[trigger] c.status[d] == SsDistributionStatus::Declined;
        assert(c.status.contains_key(d) && c.status[d] == SsDistributionStatus::Declined);
    }
}

/// A claim that every receiver has received uploads nothing.
pub proof fn law_delivered_claim_uploads_nothing(c: SsClaimView, local: Seq<char>)
    requires
        overall_status(c.status) == SsDistributionStatus::Delivered,
    ensures
        claim_upload_of(c, local) == ClaimUpload::Skip,
{
}

/// The store once the stale copies among the shares `wfs` of the claim are removed.
pub open spec fn without_stale_copies(
    events: Map<IdView, GenericKvLogEvent>,
    c: SsClaimView,
    wfs: Seq<GenericKvLogEvent>,
    local: Seq<char>,
) -> Map<IdView, GenericKvLogEvent>
    decreases wfs.len(),
{
    if wfs.len() == 0 {
        events
    } else {
        let rest = without_stale_copies(events, c, wfs.drop_last(), local);
        match as_ss_workflow(wfs.last()) {
            Some(w) => if is_stale_copy(c, w, local) {
                rest.remove(wfs.last().key_of().obj_id@)
            } else {
                rest
            },
            None => rest,
        }
    }
}

/// The store once every own split claim of the log, in order, has its stale copies
/// removed; nothing when the shares of one of them cannot be read.
pub open spec fn cleaned(
    events: Map<IdView, GenericKvLogEvent>,
    claims: Seq<(ClaimId, SsClaim)>,
    local: Seq<char>,
) -> Option<Map<IdView, GenericKvLogEvent>>
    decreases claims.len(),
{
    if claims.len() == 0 {
        Some(events)
    } else {
        match cleaned(events, claims.drop_last(), local) {
            None => None,
            Some(m) => {
                let c = claims.last().1;
                if c.distribution_type != SecretDistributionType::Split || c.sender@ != local {
                    Some(m)
                } else if some_ill_typed(m, distribution_firsts(c)) {
                    None
                } else {
                    Some(without_stale_copies(m, c@, tails_of(m, distribution_firsts(c)), local))
                }
            },
        }
    }
}

/// Remove the local copies of shares of our own split claims that were sent to another
/// device and that the claim no longer waits for.
pub fn cleanup_foreign_sender_distributions<Repo: KvLogEventRepo>(
    p_obj: &mut PersistentObject<Repo>,
    user: &UserData,
    ss_log: &SsLogObject,
) -> (r: Result<(), CoreError>)
    ensures
        match cleaned(old(p_obj).repo.events(), ss_log.0.value.claims.entry_seq(), user.device.device_id@) {
            Some(m) => r is Ok && final(p_obj).repo.events() == m,
            None => r == Err::<(), CoreError>(CoreError::WrongEventType),
        },
{
    let ghost before = p_obj.repo.events();
    let local_device_id = &user.device.device_id;
    let entries = ss_log.0.value.claims.as_vec();
    let ghost claims = ss_log.0.value.claims.entry_seq();
    let mut i: usize = 0;
    while i < entries.len()
        invariant
            i <= entries.len(),
            entries@ == claims,
            claims == ss_log.0.value.claims.entry_seq(),
            before == old(p_obj).repo.events(),
            local_device_id@ == user.device.device_id@,
            cleaned(before, claims.take(i as int), local_device_id@) == Some(p_obj.repo.events()),
        decreases entries.len() - i,
    {
        let claim = &entries[i].1;
        proof {
            assert(claims.take(i + 1).drop_last() =~= claims.take(i as int));
            assert(claims.take(i + 1).last() == claims[i as int]);
        }
        if claim.distribution_type == SecretDistributionType::Split && claim.sender.key_eq(local_device_id) {
            let ghost m = p_obj.repo.events();
            let wfs = match PersistentSharedSecret::<Repo>::distributions_in(&*p_obj, claim) {
                Ok(w) => w,
                Err(e) => {
                    proof {
                        assert(cleaned(before, claims.take(i + 1), local_device_id@) is None);
                        lemma_cleaned_stays_none(before, claims, i + 1, local_device_id@);
                        assert(claims.take(claims.len() as int) =~= claims);
                    }
                    return Err(e);
                },
            };
            let ghost tails = tails_of(m, distribution_firsts(*claim));
            let mut j: usize = 0;
            while j < wfs.len()
                invariant
                    j <= wfs.len(),
                    read_workflows(tails, wfs@),
                    p_obj.repo.events() == without_stale_copies(m, claim@, tails.take(j as int), local_device_id@),
                decreases wfs.len() - j,
            {
                let wf_event = &wfs[j];
                proof {
                    assert(tails.take(j + 1).drop_last() =~= tails.take(j as int));
                    assert(tails.take(j + 1).last() == tails[j as int]);
                }
                if is_stale_foreign_distribution(claim, wf_event, local_device_id) {
                    let id = wf_event.obj_id();
                    p_obj.repo.delete(&id);
                }
                j = j + 1;
            }
            proof {
                assert(tails.take(j as int) =~= tails);
            }
        }
        i = i + 1;
    }
    proof {
        assert(claims.take(i as int) =~= claims);
    }
    Ok(())
}

/// Once cleaning fails for a prefix of the claims, it fails for the whole log.
proof fn lemma_cleaned_stays_none(
    events: Map<IdView, GenericKvLogEvent>,
    claims: Seq<(ClaimId, SsClaim)>,
    n: int,
    local: Seq<char>,
)
    requires
        0 <= n <= claims.len(),
        cleaned(events, claims.take(n), local) is None,
    ensures
        cleaned(events, claims.take(claims.len() as int), local) is None,
    decreases claims.len() - n,
{
    if n < claims.len() {
        assert(claims.take(n + 1).drop_last() =~= claims.take(n));
        lemma_cleaned_stays_none(events, claims, n + 1, local);
    }
}

proof fn lemma_without_stale_copies_only_removes(
    events: Map<IdView, GenericKvLogEvent>,
    c: SsClaimView,
    wfs: Seq<GenericKvLogEvent>,
    local: Seq<char>,
)
    ensures
        without_stale_copies(events, c, wfs, local).submap_of(events),
    decreases wfs.len(),
{
    if wfs.len() > 0 {
        lemma_without_stale_copies_only_removes(events, c, wfs.drop_last(), local);
        let rest = without_stale_copies(events, c, wfs.drop_last(), local);
        let out = without_stale_copies(events, c, wfs, local);
        assert(out.submap_of(rest));
        vstd::map_lib::lemma_submap_of_trans(out, rest, events);
    } else {
        assert(events.submap_of(events));
    }
}

/// Cleaning the stale copies of shares only removes events from the store: whatever
/// stays is what was there.
pub proof fn law_cleanup_only_removes(
    events: Map<IdView, GenericKvLogEvent>,
    claims: Seq<(ClaimId, SsClaim)>,
    local: Seq<char>,
)
    requires
        cleaned(events, claims, local) is Some,
    ensures
        cleaned(events, claims, local).unwrap().submap_of(events),
    decreases claims.len(),
{
    if claims.len() > 0 {
        law_cleanup_only_removes(events, claims.drop_last(), local);
        let m = cleaned(events, claims.drop_last(), local).unwrap();
        let c = claims.last().1;
        lemma_without_stale_copies_only_removes(m, c@, tails_of(m, distribution_firsts(c)), local);
        let out = cleaned(events, claims, local).unwrap();
        assert(out.submap_of(m));
        vstd::map_lib::lemma_submap_of_trans(out, m, events);
    } else {
        assert(events.submap_of(events));
    }
}

/// The events among `tails` that are recovery shares this device sent back.
pub open spec fn own_recovery_events(tails: Seq<GenericKvLogEvent>, local: Seq<char>) -> Seq<GenericKvLogEvent>
    decreases tails.len(),
{
    if tails.len() == 0 {
        Seq::empty()
    } else {
        let rest = own_recovery_events(tails.drop_last(), local);
        if as_ss_workflow(tails.last()) matches Some(o) && is_own_recovery(o, local) {
            rest.push(tails.last())
        } else {
            rest
        }
    }
}

/// The recovery shares this device answered with for the recovery claims of others that
/// no receiver declined, claim after claim; nothing when the shares of one of those claims
/// cannot be read.
pub open spec fn local_uploads(
    events: Map<IdView, GenericKvLogEvent>,
    s: Seq<(ClaimId, SsClaim)>,
    local: Seq<char>,
) -> Option<Seq<GenericKvLogEvent>>
    decreases s.len(),
{
    if s.len() == 0 {
        Some(Seq::empty())
    } else {
        match local_uploads(events, s.drop_last(), local) {
            None => None,
            Some(prev) => {
                let c = s.last().1;
                if local_recovery_upload_of(c@, local) != LocalRecoveryUpload::Approvals {
                    Some(prev)
                } else if some_ill_typed(events, recovery_firsts(c)) {
                    None
                } else {
                    Some(prev + own_recovery_events(tails_of(events, recovery_firsts(c)), local))
                }
            },
        }
    }
}

/// Whether `v` holds the shares `u`, as read back.
pub open spec fn workflows_read(u: Seq<GenericKvLogEvent>, v: Seq<SsWorkflowObject>) -> bool {
    &&& v.len() == u.len()
    &&& forall|k: int| 0 <= k < v.len() ==> (as_ss_workflow(#[trigger] u[k]) matches Some(o) && same_workflow(v[k], o))
}

/// The answers to the recovery claims of others that this device pushes before it reads the
/// server's claims log, so that a claim the server sends back cannot hide them. Each is
/// deleted locally once the server has it.
pub fn local_recovery_uploads<Repo: KvLogEventRepo>(
    p_obj: &mut PersistentObject<Repo>,
    user: &UserData,
) -> (r: Result<Vec<SsWorkflowObject>, CoreError>)
    ensures
        *final(p_obj) == *old(p_obj),
        ({
            let events = old(p_obj).repo.events();
            let first = crate::db::objects::persistent_shared_secret::ss_log_first(user.vault_name@);
            &&& ill_typed(tail_event(events, first), |e| is_ss_log(e)) ==> r == Err::<Vec<SsWorkflowObject>, CoreError>(
                CoreError::WrongEventType,
            )
            &&& !ill_typed(tail_event(events, first), |e| is_ss_log(e)) ==> exists|log: SsLogData|
                #![trigger log.claims.entry_seq()]
                log@ == stored_claims(events, user.vault_name@) && match local_uploads(
                    events,
                    log.claims.entry_seq(),
                    user.device.device_id@,
                ) {
                    Some(u) => r matches Ok(v) && workflows_read(u, v@),
                    None => r == Err::<Vec<SsWorkflowObject>, CoreError>(CoreError::WrongEventType),
                }
        }),
{
    let log = match (PersistentSharedSecret { p_obj: &mut *p_obj }).get_ss_log_obj(user.vault_name.clone()) {
        Ok(d) => d,
        Err(e) => return Err(e),
    };
    let ghost events = p_obj.repo.events();
    let local = &user.device.device_id;
    let entries = log.claims.as_vec();
    let ghost s = log.claims.entry_seq();
    let mut out: Vec<SsWorkflowObject> = Vec::new();
    let mut i: usize = 0;
    while i < entries.len()
        invariant
            i <= entries.len(),
            entries@ == s,
            s == log.claims.entry_seq(),
            log@ == stored_claims(events, user.vault_name@),
            events == p_obj.repo.events(),
            events == old(p_obj).repo.events(),
            *p_obj == *old(p_obj),
            local@ == user.device.device_id@,
            local_uploads(events, s.take(i as int), local@) matches Some(u) && workflows_read(u, out@),
        decreases entries.len() - i,
    {
        let claim = &entries[i].1;
        proof {
            assert(s.take(i + 1).drop_last() =~= s.take(i as int));
            assert(s.take(i + 1).last() == s[i as int]);
        }
        match local_recovery_upload(claim, local) {
            LocalRecoveryUpload::Approvals => {
                let ghost prev = local_uploads(events, s.take(i as int), local@).unwrap();
                let ghost tails = tails_of(events, recovery_firsts(*claim));
                let mut wfs = match PersistentSharedSecret::<Repo>::recoveries_in(&*p_obj, claim) {
                    Ok(v) => v,
                    Err(e) => {
                        proof {
                            assert(local_uploads(events, s.take(i + 1), local@) is None);
                            lemma_local_uploads_stays_none(events, s, i + 1, local@);
                            assert(s.take(s.len() as int) =~= s);
                            assert(local_uploads(events, log.claims.entry_seq(), local@) is None);
                        }
                        return Err(e);
                    },
                };
                let ghost all = wfs@;
                assert(all.len() == wfs.len());
                let mut k: usize = 0;
                while wfs.len() > 0
                    invariant
                        k <= all.len() <= usize::MAX,
                        *p_obj == *old(p_obj),
                        all.len() == tails.len(),
                        wfs@ == all.skip(k as int),
                        forall|j: int| 0 <= j < all.len() ==> (as_ss_workflow(#[trigger] tails[j]) matches Some(o)
                            && same_workflow(all[j], o)),
                        workflows_read(prev + own_recovery_events(tails.take(k as int), local@), out@),
                        local@ == user.device.device_id@,
                    decreases wfs.len(),
                {
                    assert(wfs@.len() == all.len() - k);
                    let wf = wfs.remove(0);
                    proof {
                        assert(wf == all[k as int]);
                        assert(tails.take(k + 1).drop_last() =~= tails.take(k as int));
                        assert(tails.take(k + 1).last() == tails[k as int]);
                    }
                    let ghost before_out = out@;
                    if recovery_workflow_is_local(&wf, local) {
                        out.push(wf);
                        proof {
                            let o = as_ss_workflow(tails[k as int]).unwrap();
                            assert(is_own_recovery(o, local@) == is_own_recovery(all[k as int], local@));
                            let u = prev + own_recovery_events(tails.take(k + 1), local@);
                            assert(u =~= (prev + own_recovery_events(tails.take(k as int), local@)).push(tails[k as int]));
                            assert forall|j: int| 0 <= j < out@.len() implies (as_ss_workflow(#[trigger] u[j]) matches Some(o2)
                                && same_workflow(out@[j], o2)) by {
                                if j < before_out.len() {
                                    assert(out@[j] == before_out[j]);
                                }
                            }
                        }
                    } else {
                        proof {
                            let o = as_ss_workflow(tails[k as int]).unwrap();
                            assert(is_own_recovery(o, local@) == is_own_recovery(all[k as int], local@));
                            assert(prev + own_recovery_events(tails.take(k + 1), local@) =~= prev
                                + own_recovery_events(tails.take(k as int), local@));
                        }
                    }
                    k = k + 1;
                    proof {
                        assert(wfs@ =~= all.skip(k as int));
                    }
                }
                proof {
                    assert(tails.take(k as int) =~= tails);
                }
            },
            _ => {},
        }
        i = i + 1;
    }
    proof {
        assert(s.take(i as int) =~= s);
        assert(local_uploads(events, log.claims.entry_seq(), local@) is Some);
    }
    Ok(out)
}

proof fn lemma_local_uploads_stays_none(
    events: Map<IdView, GenericKvLogEvent>,
    s: Seq<(ClaimId, SsClaim)>,
    n: int,
    local: Seq<char>,
)
    requires
        0 <= n <= s.len(),
        local_uploads(events, s.take(n), local) is None,
    ensures
        local_uploads(events, s.take(s.len() as int), local) is None,
    decreases s.len() - n,
{
    if n < s.len() {
        assert(s.take(n + 1).drop_last() =~= s.take(n));
        lemma_local_uploads_stays_none(events, s, n + 1, local);
    }
}

/// The shares among `tails` to upload for a claim: for a split, those whose receiver is
/// still pending, each to be deleted afterwards unless it is this device's own; for a
/// recovery, every answer, each to be deleted afterwards.
pub open spec fn claim_uploads(
    tails: Seq<GenericKvLogEvent>,
    c: SsClaimView,
    local: Seq<char>,
    split: bool,
) -> Seq<(GenericKvLogEvent, bool)>
    decreases tails.len(),
{
    if tails.len() == 0 {
        Seq::empty()
    } else {
        let rest = claim_uploads(tails.drop_last(), c, local, split);
        let t = tails.last();
        match as_ss_workflow(t) {
            Some(o) => if !split {
                rest.push((t, true))
            } else if receiver_pending(c, workflow_receiver(o)) {
                rest.push((t, workflow_receiver(o) != Some(local)))
            } else {
                rest
            },
            None => rest,
        }
    }
}

/// What synchronising the claims log uploads, claim after claim, each share with whether
/// its local copy goes once the server has it; nothing when the shares of a claim to
/// upload cannot be read.
pub open spec fn ss_log_upload_plan(
    events: Map<IdView, GenericKvLogEvent>,
    s: Seq<(ClaimId, SsClaim)>,
    local: Seq<char>,
) -> Option<Seq<(GenericKvLogEvent, bool)>>
    decreases s.len(),
{
    if s.len() == 0 {
        Some(Seq::empty())
    } else {
        match ss_log_upload_plan(events, s.drop_last(), local) {
            None => None,
            Some(prev) => {
                let c = s.last().1;
                match claim_upload_of(c@, local) {
                    ClaimUpload::Skip => Some(prev),
                    ClaimUpload::SplitDistributions => if some_ill_typed(events, distribution_firsts(c)) {
                        None
                    } else {
                        Some(prev + claim_uploads(tails_of(events, distribution_firsts(c)), c@, local, true))
                    },
                    ClaimUpload::RecoveryWorkflows { .. } => if some_ill_typed(events, recovery_firsts(c)) {
                        None
                    } else {
                        Some(prev + claim_uploads(tails_of(events, recovery_firsts(c)), c@, local, false))
                    },
                }
            },
        }
    }
}

/// Whether `v` holds the planned uploads `u`, the shares as read back.
pub open spec fn uploads_read(u: Seq<(GenericKvLogEvent, bool)>, v: Seq<(SsWorkflowObject, bool)>) -> bool {
    &&& v.len() == u.len()
    &&& forall|k: int| 0 <= k < v.len() ==> (as_ss_workflow((#[trigger] u[k]).0) matches Some(o) && same_workflow(v[k].0, o)
        && v[k].1 == u[k].1)
}

fn append_claim_uploads(
    out: &mut Vec<(SsWorkflowObject, bool)>,
    wfs: Vec<SsWorkflowObject>,
    tails: Ghost<Seq<GenericKvLogEvent>>,
    claim: &SsClaim,
    local: &DeviceId,
    split: bool,
)
    requires
        wfs@.len() == tails@.len(),
        forall|j: int| 0 <= j < wfs@.len() ==> (as_ss_workflow(#[trigger] tails@[j]) matches Some(o) && same_workflow(wfs@[j], o)),
    ensures
        forall|prev: Seq<(GenericKvLogEvent, bool)>| #[trigger] uploads_read(prev, old(out)@) ==> uploads_read(
            prev + claim_uploads(tails@, claim@, local@, split),
            final(out)@,
        ),
{
    let ghost start = out@;
    let ghost all = wfs@;
    let ghost ts = tails@;
    assert(all.len() == wfs.len());
    let mut wfs = wfs;
    let mut k: usize = 0;
    while wfs.len() > 0
        invariant
            k <= all.len() <= usize::MAX,
            all.len() == ts.len(),
            wfs@ == all.skip(k as int),
            forall|j: int| 0 <= j < all.len() ==> (as_ss_workflow(#[trigger] ts[j]) matches Some(o) && same_workflow(all[j], o)),
            forall|prev: Seq<(GenericKvLogEvent, bool)>| #[trigger] uploads_read(prev, start) ==> uploads_read(
                prev + claim_uploads(ts.take(k as int), claim@, local@, split),
                out@,
            ),
        decreases wfs.len(),
    {
        assert(wfs@.len() == all.len() - k);
        let wf = wfs.remove(0);
        let ghost before_out = out@;
        proof {
            assert(wf == all[k as int]);
            assert(ts.take(k + 1).drop_last() =~= ts.take(k as int));
            assert(ts.take(k + 1).last() == ts[k as int]);
        }
        let ghost o = as_ss_workflow(ts[k as int]).unwrap();
        let take = if split {
            split_workflow_has_pending_receiver(claim, &wf)
        } else {
            true
        };
        if take {
            let delete = if split {
                !keep_after_upload(&wf, local)
            } else {
                true
            };
            out.push((wf, delete));
            proof {
                assert(workflow_receiver(wf) == workflow_receiver(o));
                assert forall|prev: Seq<(GenericKvLogEvent, bool)>| #[trigger] uploads_read(prev, start) implies uploads_read(
                    prev + claim_uploads(ts.take(k + 1), claim@, local@, split),
                    out@,
                ) by {
                    let u0 = prev + claim_uploads(ts.take(k as int), claim@, local@, split);
                    let u = prev + claim_uploads(ts.take(k + 1), claim@, local@, split);
                    assert(uploads_read(u0, before_out));
                    assert(u =~= u0.push((ts[k as int], delete)));
                    assert forall|j: int| 0 <= j < out@.len() implies (as_ss_workflow((#[trigger] u[j]).0) matches Some(o2)
                        && same_workflow(out@[j].0, o2) && out@[j].1 == u[j].1) by {
                        if j < before_out.len() {
                            assert(out@[j] == before_out[j]);
                            assert(u[j] == u0[j]);
                        }
                    }
                }
            }
        } else {
            proof {
                assert(workflow_receiver(wf) == workflow_receiver(o));
                assert forall|prev: Seq<(GenericKvLogEvent, bool)>| #[trigger] uploads_read(prev, start) implies uploads_read(
                    prev + claim_uploads(ts.take(k + 1), claim@, local@, split),
                    out@,
                ) by {
                    assert(claim_uploads(ts.take(k + 1), claim@, local@, split) =~= claim_uploads(ts.take(k as int), claim@, local@, split));
                }
            }
        }
        k = k + 1;
        proof {
            assert(wfs@ =~= all.skip(k as int));
        }
    }
    proof {
        assert(ts.take(k as int) =~= ts);
    }
}

/// The shares that synchronising the claims log uploads, each with whether its local copy
/// is deleted once the server has it: the shares of this device's split claims that a
/// receiver still waits for (a copy that is not the device's own goes), and this device's
/// answers to the recovery claims of others (which go). Delivered claims upload nothing.
pub fn ss_log_uploads<Repo: KvLogEventRepo>(
    p_obj: &mut PersistentObject<Repo>,
    user: &UserData,
) -> (r: Result<Vec<(SsWorkflowObject, bool)>, CoreError>)
    ensures
        *final(p_obj) == *old(p_obj),
        ({
            let events = old(p_obj).repo.events();
            let first = crate::db::objects::persistent_shared_secret::ss_log_first(user.vault_name@);
            &&& ill_typed(tail_event(events, first), |e| is_ss_log(e)) ==> r == Err::<
                Vec<(SsWorkflowObject, bool)>,
                CoreError,
            >(CoreError::WrongEventType)
            &&& !ill_typed(tail_event(events, first), |e| is_ss_log(e)) ==> exists|log: SsLogData|
                #![trigger log.claims.entry_seq()]
                log@ == stored_claims(events, user.vault_name@) && match ss_log_upload_plan(
                    events,
                    log.claims.entry_seq(),
                    user.device.device_id@,
                ) {
                    Some(u) => r matches Ok(v) && uploads_read(u, v@),
                    None => r == Err::<Vec<(SsWorkflowObject, bool)>, CoreError>(CoreError::WrongEventType),
                }
        }),
{
    let log = match (PersistentSharedSecret { p_obj: &mut *p_obj }).get_ss_log_obj(user.vault_name.clone()) {
        Ok(d) => d,
        Err(e) => return Err(e),
    };
    let ghost events = p_obj.repo.events();
    let local = &user.device.device_id;
    let entries = log.claims.as_vec();
    let ghost s = log.claims.entry_seq();
    let mut out: Vec<(SsWorkflowObject, bool)> = Vec::new();
    let mut i: usize = 0;
    while i < entries.len()
        invariant
            i <= entries.len(),
            entries@ == s,
            s == log.claims.entry_seq(),
            log@ == stored_claims(events, user.vault_name@),
            events == p_obj.repo.events(),
            events == old(p_obj).repo.events(),
            *p_obj == *old(p_obj),
            local@ == user.device.device_id@,
            ss_log_upload_plan(events, s.take(i as int), local@) matches Some(u) && uploads_read(u, out@),
        decreases entries.len() - i,
    {
        let claim = &entries[i].1;
        proof {
            assert(s.take(i + 1).drop_last() =~= s.take(i as int));
            assert(s.take(i + 1).last() == s[i as int]);
        }
        let ghost prev = ss_log_upload_plan(events, s.take(i as int), local@).unwrap();
        match claim_upload(claim, local) {
            ClaimUpload::Skip => {},
            ClaimUpload::SplitDistributions => {
                let wfs = match PersistentSharedSecret::<Repo>::distributions_in(&*p_obj, claim) {
                    Ok(v) => v,
                    Err(e) => {
                        proof {
                            assert(ss_log_upload_plan(events, s.take(i + 1), local@) is None);
                            lemma_upload_plan_stays_none(events, s, i + 1, local@);
                            assert(s.take(s.len() as int) =~= s);
                            assert(ss_log_upload_plan(events, log.claims.entry_seq(), local@) is None);
                        }
                        return Err(e);
                    },
                };
                append_claim_uploads(&mut out, wfs, Ghost(tails_of(events, distribution_firsts(*claim))), claim, local, true);
            },
            ClaimUpload::RecoveryWorkflows { .. } => {
                let wfs = match PersistentSharedSecret::<Repo>::recoveries_in(&*p_obj, claim) {
                    Ok(v) => v,
                    Err(e) => {
                        proof {
                            assert(ss_log_upload_plan(events, s.take(i + 1), local@) is None);
                            lemma_upload_plan_stays_none(events, s, i + 1, local@);
                            assert(s.take(s.len() as int) =~= s);
                            assert(ss_log_upload_plan(events, log.claims.entry_seq(), local@) is None);
                        }
                        return Err(e);
                    },
                };
                append_claim_uploads(&mut out, wfs, Ghost(tails_of(events, recovery_firsts(*claim))), claim, local, false);
            },
        }
        i = i + 1;
    }
    proof {
        assert(s.take(i as int) =~= s);
        assert(ss_log_upload_plan(events, log.claims.entry_seq(), local@) is Some);
    }
    Ok(out)
}

proof fn lemma_upload_plan_stays_none(
    events: Map<IdView, GenericKvLogEvent>,
    s: Seq<(ClaimId, SsClaim)>,
    n: int,
    local: Seq<char>,
)
    requires
        0 <= n <= s.len(),
        ss_log_upload_plan(events, s.take(n), local) is None,
    ensures
        ss_log_upload_plan(events, s.take(s.len() as int), local) is None,
    decreases s.len() - n,
{
    if n < s.len() {
        assert(s.take(n + 1).drop_last() =~= s.take(n));
        lemma_upload_plan_stays_none(events, s, n + 1, local);
    }
}

/// Every share of a split that synchronisation uploads is for a receiver that still waits
/// for it, and its local copy goes after the upload exactly when that receiver is not this
/// device; every recovery answer uploaded goes afterwards.
pub proof fn law_uploads_go_to_pending_receivers(
    tails: Seq<GenericKvLogEvent>,
    c: SsClaimView,
    local: Seq<char>,
    split: bool,
)
    ensures
        forall|k: int| 0 <= k < claim_uploads(tails, c, local, split).len() ==> {
            let p = #[trigger] claim_uploads(tails, c, local, split)[k];
            &&& as_ss_workflow(p.0) matches Some(o)
            &&& split ==> receiver_pending(c, workflow_receiver(o)) && p.1 == (workflow_receiver(o) != Some(local))
            &&& !split ==> p.1
        },
    decreases tails.len(),
{
    if tails.len() > 0 {
        law_uploads_go_to_pending_receivers(tails.drop_last(), c, local, split);
        let rest = claim_uploads(tails.drop_last(), c, local, split);
        let all = claim_uploads(tails, c, local, split);
        assert forall|k: int| 0 <= k < all.len() implies {
            let p = #[trigger] all[k];
            &&& as_ss_workflow(p.0) matches Some(o)
            &&& split ==> receiver_pending(c, workflow_receiver(o)) && p.1 == (workflow_receiver(o) != Some(local))
            &&& !split ==> p.1
        } by {
            if k < rest.len() {
                assert(all[k] == rest[k]);
            }
        }
    }
}

} // verus!

