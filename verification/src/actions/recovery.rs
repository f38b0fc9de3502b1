//! Recovery: asking for shares (with the stale claims retired first), the shares a
//! recovery works from, a receiver's answers to a claim and their recording, and the
//! claims marked delivered once the secret was recovered. Encryption stays with the caller.
use vstd::prelude::*;
use crate::collections::{KeyEq, ViewClone};
use crate::error::CoreError;
use crate::model::device::DeviceId;
use crate::model::meta_pass::MetaPasswordId;
use crate::model::secret::{
    client_status_of, has_status, replacing, ClaimId, RecoveryClientStatus, SecretDistributionData,
    SecretDistributionType, SsClaim, SsClaimView, SsDistributionCompositeStatus, SsDistributionId, SsDistributionStatus,
    SsLogData,
};
use crate::db::descriptors::{ObjectDescriptor, SsWorkflowDescriptor};
use crate::db::events::{SsKvLogEvent, SsWorkflowObject};
use crate::db::objects::persistent_shared_secret::{
    as_ss_workflow, is_ss_workflow, recovery_firsts, same_workflow, some_ill_typed, tails_of,
};
use crate::db::store::first_id_of;
use crate::model::keys::TransportPk;
use crate::db::object_id::{KvKey, KvLogEvent};
use crate::model::aead::EncryptedMessage;
use crate::model::vault::VaultName;
use crate::db::events::ToGenericEvent;
use crate::db::generic_db::SaveCommand;
use crate::model::secret::SsRecoveryId;
use crate::model::vault_data::VaultData;
use crate::model::user::UserMembership;
use crate::model::user::UserDataMember;
use crate::model::vault::{VaultMember, VaultStatus};
use crate::db::generic_db::KvLogEventRepo;
use crate::db::objects::persistent_shared_secret::{is_ss_log, ss_log_first, stored_claims, PersistentSharedSecret};
use crate::db::objects::persistent_vault::ill_typed;
use crate::db::store::{
    contiguous, free_id, has_free_id, has_room, law_saved_at_free_id_is_read_back, lemma_free_id_object, lemma_room_for_one_more,
    lemma_tail_event_other_insert, tail_event, IdView, PersistentObject,
};
use crate::db::objects::persistent_shared_secret::{as_ss_device_log, ss_device_log_first};
use crate::db::objects::persistent_vault::{
    as_vault, found_status, is_vault_status, vault_first, vault_status_first, PersistentVault,
};
use crate::model::user::UserMembershipView;
use crate::model::vault_data::member_in;
use crate::db::events::GenericKvLogEvent;
use crate::model::creds::UserCreds;
use crate::model::user::UserData;
use crate::model::secret::is_open_recovery_by;

verus! {

/// The claims of the entries that satisfy `p`, in order.
pub open spec fn claims_where(s: Seq<(ClaimId, SsClaim)>, p: spec_fn(SsClaimView) -> bool) -> Seq<SsClaimView>
    decreases s.len(),
{
    if s.len() == 0 {
        Seq::empty()
    } else {
        let rest = claims_where(s.drop_last(), p);
        if p(s.last().1@) {
            rest.push(s.last().1@)
        } else {
            rest
        }
    }
}

/// A recovery claim of the sender for the password that a receiver already answered
/// (its share was sent) but that was never completed.
pub open spec fn is_stale_recovery(c: SsClaimView, sender: Seq<char>, pass_id: (Seq<char>, Seq<char>)) -> bool {
    &&& c.distribution_type == SecretDistributionType::Recover
    &&& c.sender == sender
    &&& c.pass_id() == pass_id
    &&& has_status(c.status, SsDistributionStatus::Sent)
}

pub open spec fn stale_recovery_pred(sender: Seq<char>, pass_id: (Seq<char>, Seq<char>)) -> spec_fn(SsClaimView) -> bool {
    |c: SsClaimView| is_stale_recovery(c, sender, pass_id)
}

/// A recovery claim for the password.
pub open spec fn recovery_for_pred(pass_id: (Seq<char>, Seq<char>)) -> spec_fn(SsClaimView) -> bool {
    |c: SsClaimView| c.distribution_type == SecretDistributionType::Recover && c.pass_id() == pass_id
}

fn claims_matching(log: &SsLogData, sender: Option<&DeviceId>, pass_id: &MetaPasswordId, sent_only: bool) -> (r: Vec<SsClaim>)
    requires
        sender is Some <==> sent_only,
    ensures
        r@.map_values(|c: SsClaim| c@) == claims_where(
            log.claims.entry_seq(),
            match sender {
                Some(s) => stale_recovery_pred(s@, pass_id@),
                None => recovery_for_pred(pass_id@),
            },
        ),
{
    let ghost p = match sender {
        Some(s) => stale_recovery_pred(s@, pass_id@),
        None => recovery_for_pred(pass_id@),
    };
    let entries = log.claims.as_vec();
    let mut out: Vec<SsClaim> = Vec::new();
    let mut i: usize = 0;
    while i < entries.len()
        invariant
            entries@ == log.claims.entry_seq(),
            i <= entries.len(),
            sender is Some <==> sent_only,
            p == (match sender {
                Some(s) => stale_recovery_pred(s@, pass_id@),
                None => recovery_for_pred(pass_id@),
            }),
            out@.map_values(|c: SsClaim| c@) == claims_where(entries@.take(i as int), p),
        decreases entries.len() - i,
    {
        let c = &entries[i].1;
        proof {
            assert(entries@.take(i + 1).drop_last() =~= entries@.take(i as int));
        }
        let by_sender = match sender {
            Some(s) => c.sender.key_eq(s),
            None => true,
        };
        let matches = c.distribution_type == SecretDistributionType::Recover && by_sender
            && c.dist_claim_id.pass_id.key_eq(pass_id) && (!sent_only || c.status.any_with(
            SsDistributionStatus::Sent,
        ));
        if matches {
            let copy = c.view_clone();
            let ghost before = out@;
            out.push(copy);
            proof {
                assert(out@.map_values(|c: SsClaim| c@) =~= before.map_values(|c: SsClaim| c@).push(c@));
            }
        }
        i = i + 1;
    }
    proof {
        assert(entries@.take(i as int) =~= entries@);
    }
    out
}

/// The stale recovery claims of the sender for the password, in log order.
pub fn stale_recovery_claims(log: &SsLogData, sender: &DeviceId, pass_id: &MetaPasswordId) -> (r: Vec<SsClaim>)
    ensures
        r@.map_values(|c: SsClaim| c@) == claims_where(log.claims.entry_seq(), stale_recovery_pred(sender@, pass_id@)),
{
    claims_matching(log, Some(sender), pass_id, true)
}

/// The recovery claims for the password, in log order.
pub fn recovery_claims_for(log: &SsLogData, pass_id: &MetaPasswordId) -> (r: Vec<SsClaim>)
    ensures
        r@.map_values(|c: SsClaim| c@) == claims_where(log.claims.entry_seq(), recovery_for_pred(pass_id@)),
{
    claims_matching(log, None, pass_id, false)
}

/// Retire a stale claim: every receiver whose share was sent is declined, so that the
/// sender does not see the claim as done before it read the secret.
pub fn retire_stale_claim(claim: SsClaim) -> (r: SsClaim)
    ensures
        r@ == claim@.with_status(
            claim@.status.map_values(replacing(SsDistributionStatus::Sent, SsDistributionStatus::Declined)),
        ),
{
    let SsClaim { id, dist_claim_id, vault_name, sender, distribution_type, receivers, status, client_status } =
        claim;
    SsClaim {
        id,
        dist_claim_id,
        vault_name,
        sender,
        distribution_type,
        receivers,
        status: status.decline_sent(),
        client_status,
    }
}

/// A receiver whose share was sent, if there is one.
pub fn first_sent_receiver(status: &SsDistributionCompositeStatus) -> (r: Option<DeviceId>)
    ensures
        r is None <==> !has_status(status@, SsDistributionStatus::Sent),
        r matches Some(d) ==> status@.contains_key(d@) && status@[d@] == SsDistributionStatus::Sent,
{
    proof {
        use_type_invariant(&status.statuses);
        status.statuses.lemma_entries();
    }
    let entries = status.statuses.as_vec();
    let mut i: usize = 0;
    while i < entries.len()
        invariant
            entries@ == status.statuses.entry_seq(),
            i <= entries.len(),
            forall|j: int| 0 <= j < i ==> (#[trigger] entries@[j]).1 != SsDistributionStatus::Sent,
            forall|j: int| 0 <= j < entries@.len() ==> status@.contains_key((#[trigger] entries@[j]).0@)
                && status@[entries@[j].0@] == entries@[j].1,
        decreases entries.len() - i,
    {
        if entries[i].1 == SsDistributionStatus::Sent {
            return Some(entries[i].0.clone());
        }
        i = i + 1;
    }
    proof {
        if has_status(status@, SsDistributionStatus::Sent) {
            let d = choose|d: Seq<char>| #[trigger] status@.contains_key(d) && status@[d] == SsDistributionStatus::Sent;
            let j = choose|j: int| 0 <= j < entries@.len() && (#[trigger] status.statuses.entry_seq()[j]).0@ == d;
            assert(entries@[j].1 != SsDistributionStatus::Sent);
        }
    }
    None
}

/// After the secret was recovered, a receiver whose share was sent is marked delivered.
pub fn mark_delivered(claim: &SsClaim) -> (r: Option<SsClaim>)
    ensures
        r is None <==> !has_status(claim@.status, SsDistributionStatus::Sent),
        r matches Some(c) ==> exists|d: Seq<char>| #[trigger] claim@.status.contains_key(d) && claim@.status[d]
            == SsDistributionStatus::Sent && c@ == claim@.with_status(
            claim@.status.insert(d, SsDistributionStatus::Delivered),
        ),
{
    match first_sent_receiver(&claim.status) {
        Some(receiver) => {
            let ghost d = receiver@;
            let updated = claim.view_clone();
            let SsClaim { id, dist_claim_id, vault_name, sender, distribution_type, receivers, status, client_status } =
                updated;
            let c = SsClaim {
                id,
                dist_claim_id,
                vault_name,
                sender,
                distribution_type,
                receivers,
                status: status.complete(receiver),
                client_status,
            };
            proof {
                assert(c@ == claim@.with_status(claim@.status.insert(d, SsDistributionStatus::Delivered)));
            }
            Some(c)
        },
        None => None,
    }
}

/// A recovery request is made by a member; a vault that does not exist or an outsider
/// is refused.
pub fn require_member_status(status: VaultStatus) -> (r: Result<UserDataMember, CoreError>)
    ensures
        status matches VaultStatus::Member(m) ==> r == Ok::<UserDataMember, CoreError>(m),
        !(status is Member) ==> r == Err::<UserDataMember, CoreError>(CoreError::NotAVaultMember),
{
    match status {
        VaultStatus::Member(member) => Ok(member),
        _ => Err(CoreError::NotAVaultMember),
    }
}

/// The claim a recovery reads its shares for; a claim that is not in the log is refused.
pub fn claim_for_recovery(log: &SsLogData, claim_id: &ClaimId) -> (r: Result<SsClaim, CoreError>)
    ensures
        r is Ok <==> log@.contains_key(claim_id@),
        r matches Ok(c) ==> c@ == log@[claim_id@],
        r is Err ==> r == Err::<SsClaim, CoreError>(CoreError::ClaimNotFound),
{
    match log.claims.get(claim_id) {
        Some(claim) => Ok(claim.view_clone()),
        None => Err(CoreError::ClaimNotFound),
    }
}

/// A secret is recovered from the shares other members sent for the claim and the share
/// this device holds itself; with neither there is nothing to recover from.
pub fn require_shares(recovery_shares: usize, own_shares: usize) -> (r: Result<(), CoreError>)
    ensures
        r is Ok <==> (recovery_shares > 0 || own_shares > 0),
        r is Err ==> r == Err::<(), CoreError>(CoreError::NoRecoveryShares),
{
    if recovery_shares == 0 && own_shares == 0 {
        Err(CoreError::NoRecoveryShares)
    } else {
        Ok(())
    }
}

/// A retired claim never shows the sender "done" unless a share was already delivered:
/// the sender does not take a stale claim for a completed recovery.
pub proof fn law_retired_claim_is_not_done_for_sender(c: SsClaimView)
    requires
        c.distribution_type == SecretDistributionType::Recover,
        !has_status(c.status, SsDistributionStatus::Delivered),
    ensures
        client_status_of(
            c.with_status(c.status.map_values(replacing(SsDistributionStatus::Sent, SsDistributionStatus::Declined))),
            c.sender,
        ) != Some(RecoveryClientStatus::Done),
        !has_status(
            c.status.map_values(replacing(SsDistributionStatus::Sent, SsDistributionStatus::Declined)),
            SsDistributionStatus::Sent,
        ),
{
    let m = c.status.map_values(replacing(SsDistributionStatus::Sent, SsDistributionStatus::Declined));
    if has_status(m, SsDistributionStatus::Delivered) {
        let d = choose|d: Seq<char>| #[trigger] m.contains_key(d) && m[d] == SsDistributionStatus::Delivered;
        assert(c.status.contains_key(d) && c.status[d] == SsDistributionStatus::Delivered);
    }
    if has_status(m, SsDistributionStatus::Sent) {
        let d = choose|d: Seq<char>| #[trigger] m.contains_key(d) && m[d] == SsDistributionStatus::Sent;
        assert(c.status.contains_key(d));
    }
}

/// A stale claim retired, any other claim as it is.
pub open spec fn retire_if_stale(c: SsClaimView, sender: Seq<char>, pass_id: (Seq<char>, Seq<char>)) -> SsClaimView {
    if is_stale_recovery(c, sender, pass_id) {
        c.with_status(c.status.map_values(replacing(SsDistributionStatus::Sent, SsDistributionStatus::Declined)))
    } else {
        c
    }
}

/// Every claim of the log is stored under its own id and belongs to the vault.
pub open spec fn claims_log_valid(m: Map<Seq<char>, SsClaimView>, name: Seq<char>) -> bool {
    forall|k: Seq<char>| #[trigger] m.contains_key(k) ==> m[k].id == k && m[k].vault_name == name
}

proof fn lemma_claims_where_len(s: Seq<(ClaimId, SsClaim)>, p: spec_fn(SsClaimView) -> bool)
    ensures
        claims_where(s, p).len() <= s.len(),
    decreases s.len(),
{
    if s.len() > 0 {
        lemma_claims_where_len(s.drop_last(), p);
    }
}

/// A claim is among those the predicate selects exactly when some entry holds it.
pub proof fn lemma_claims_where_members(s: Seq<(ClaimId, SsClaim)>, p: spec_fn(SsClaimView) -> bool, x: SsClaimView)
    ensures
        claims_where(s, p).contains(x) <==> exists|i: int| 0 <= i < s.len() && p(s[i].1@) && (#[trigger] s[i]).1@ == x,
    decreases s.len(),
{
    if s.len() > 0 {
        let rest = claims_where(s.drop_last(), p);
        let last = s[s.len() - 1];
        lemma_claims_where_members(s.drop_last(), p, x);
        assert(s.last() == last);
        if claims_where(s, p).contains(x) {
            let j = choose|j: int| 0 <= j < claims_where(s, p).len() && claims_where(s, p)[j] == x;
            if p(last.1@) {
                assert(claims_where(s, p) == rest.push(last.1@));
                if j < rest.len() {
                    assert(rest[j] == x);
                    assert(rest.contains(x));
                    let i = choose|i: int| 0 <= i < s.drop_last().len() && p(s.drop_last()[i].1@) && (#[trigger] s.drop_last()[i]).1@ == x;
                    assert(s[i] == s.drop_last()[i]);
                } else {
                    assert(last.1@ == x);
                    assert(p(s[s.len() - 1].1@) && s[s.len() - 1].1@ == x);
                }
            } else {
                assert(claims_where(s, p) == rest);
                assert(rest.contains(x));
                let i = choose|i: int| 0 <= i < s.drop_last().len() && p(s.drop_last()[i].1@) && (#[trigger] s.drop_last()[i]).1@ == x;
                assert(s[i] == s.drop_last()[i]);
            }
        }
        if exists|i: int| 0 <= i < s.len() && p(s[i].1@) && (#[trigger] s[i]).1@ == x {
            let i = choose|i: int| 0 <= i < s.len() && p(s[i].1@) && (#[trigger] s[i]).1@ == x;
            if i < s.len() - 1 {
                assert(s.drop_last()[i] == s[i]);
                assert(rest.contains(x));
                let j = choose|j: int| 0 <= j < rest.len() && rest[j] == x;
                if p(last.1@) {
                    assert(claims_where(s, p) == rest.push(last.1@));
                    assert(claims_where(s, p)[j] == x);
                } else {
                    assert(claims_where(s, p) == rest);
                }
            } else {
                assert(claims_where(s, p) == rest.push(x));
                assert(claims_where(s, p)[rest.len() as int] == x);
            }
        }
    }
}

/// The log after retiring each of the claims, in order, under its id.
pub open spec fn retire_each(m: Map<Seq<char>, SsClaimView>, s: Seq<SsClaimView>) -> Map<Seq<char>, SsClaimView>
    decreases s.len(),
{
    if s.len() == 0 {
        m
    } else {
        retire_each(m, s.drop_last()).insert(
            s.last().id,
            s.last().with_status(s.last().status.map_values(replacing(SsDistributionStatus::Sent, SsDistributionStatus::Declined))),
        )
    }
}

proof fn lemma_retire_each_pointwise(m: Map<Seq<char>, SsClaimView>, s: Seq<SsClaimView>, sender: Seq<char>, pass_id: (Seq<char>, Seq<char>))
    requires
        forall|j: int| 0 <= j < s.len() ==> m.contains_key((#[trigger] s[j]).id) && m[s[j].id] == s[j]
            && is_stale_recovery(s[j], sender, pass_id),
    ensures
        retire_each(m, s).dom() == m.dom(),
        forall|k: Seq<char>| #[trigger] retire_each(m, s).contains_key(k) ==> retire_each(m, s)[k] == (if exists|j: int|
            0 <= j < s.len() && (#[trigger] s[j]).id == k {
            retire_if_stale(m[k], sender, pass_id)
        } else {
            m[k]
        }),
    decreases s.len(),
{
    if s.len() > 0 {
        let t = s.drop_last();
        assert forall|j: int| 0 <= j < t.len() implies m.contains_key((#[trigger] t[j]).id) && m[t[j].id] == t[j]
            && is_stale_recovery(t[j], sender, pass_id) by {
            assert(t[j] == s[j]);
        }
        lemma_retire_each_pointwise(m, t, sender, pass_id);
        let x = s[s.len() - 1];
        assert(s.last() == x);
        assert(retire_each(m, s).dom() =~= m.dom());
        assert forall|k: Seq<char>| #[trigger] retire_each(m, s).contains_key(k) implies retire_each(m, s)[k] == (if exists|j: int|
            0 <= j < s.len() && (#[trigger] s[j]).id == k {
            retire_if_stale(m[k], sender, pass_id)
        } else {
            m[k]
        }) by {
            if k == x.id {
                assert(0 <= s.len() - 1 < s.len() && s[s.len() - 1].id == k);
            } else {
                if exists|j: int| 0 <= j < s.len() && (#[trigger] s[j]).id == k {
                    let j = choose|j: int| 0 <= j < s.len() && (#[trigger] s[j]).id == k;
                    assert(j < s.len() - 1);
                    assert(t[j] == s[j]);
                    assert(exists|j: int| 0 <= j < t.len() && (#[trigger] t[j]).id == k);
                } else {
                    if exists|j: int| 0 <= j < t.len() && (#[trigger] t[j]).id == k {
                        let j = choose|j: int| 0 <= j < t.len() && (#[trigger] t[j]).id == k;
                        assert(s[j] == t[j]);
                    }
                }
            }
        }
    }
}

/// The server-side request of a recovery, by a member of the vault.
pub struct RecoveryAction<'a, Repo: KvLogEventRepo> {
    pub p_obj: &'a mut PersistentObject<Repo>,
}

impl<'a, Repo: KvLogEventRepo> RecoveryAction<'a, Repo> {
    /// Retire the stale claims, one after the other, in their vault's claims log.
    fn retire_stale_claims(p_obj: &mut PersistentObject<Repo>, stale: Vec<SsClaim>, name: Ghost<Seq<char>>) -> (r: Result<(), CoreError>)
        ensures
            forall|f: IdView| f.0.0 != "SsLog"@ ==> #[trigger] tail_event(final(p_obj).repo.events(), f) == tail_event(
                old(p_obj).repo.events(),
                f,
            ),
            forall|f: IdView| f.0.0 != "SsLog"@ ==> #[trigger] has_free_id(final(p_obj).repo.events(), f) == has_free_id(
                old(p_obj).repo.events(),
                f,
            ),
            (contiguous(old(p_obj).repo.events()) && !ill_typed(
                tail_event(old(p_obj).repo.events(), ss_log_first(name@)),
                |e| is_ss_log(e),
            ) && (forall|j: int| 0 <= j < stale@.len() ==> (#[trigger] stale@[j])@.vault_name == name@) && has_room(
                old(p_obj).repo.events(),
                ss_log_first(name@),
                stale@.len(),
            )) ==> (r is Ok && !ill_typed(tail_event(final(p_obj).repo.events(), ss_log_first(name@)), |e| is_ss_log(e))),
            (r is Ok && contiguous(old(p_obj).repo.events()) && !ill_typed(
                tail_event(old(p_obj).repo.events(), ss_log_first(name@)),
                |e| is_ss_log(e),
            ) && forall|j: int| 0 <= j < stale@.len() ==> (#[trigger] stale@[j])@.vault_name == name@) ==> (contiguous(
                final(p_obj).repo.events(),
            ) && stored_claims(final(p_obj).repo.events(), name@) == retire_each(
                stored_claims(old(p_obj).repo.events(), name@),
                stale@.map_values(|c: SsClaim| c@),
            )),
    {
        let ghost start = p_obj.repo.events();
        let ghost views = stale@.map_values(|c: SsClaim| c@);
        let ghost premise = contiguous(start) && !ill_typed(tail_event(start, ss_log_first(name@)), |e| is_ss_log(e))
            && forall|j: int| 0 <= j < stale@.len() ==> (#[trigger] stale@[j])@.vault_name == name@;
        let ghost room = has_room(start, ss_log_first(name@), stale@.len());
        proof {
            reveal_strlit("SsLog");
        }
        let mut i: usize = 0;
        while i < stale.len()
            invariant
                i <= stale.len(),
                start == old(p_obj).repo.events(),
                views == stale@.map_values(|c: SsClaim| c@),
                premise == (contiguous(start) && !ill_typed(tail_event(start, ss_log_first(name@)), |e| is_ss_log(e))
                    && forall|j: int| 0 <= j < stale@.len() ==> (#[trigger] stale@[j])@.vault_name == name@),
                forall|f: IdView| f.0.0 != "SsLog"@ ==> #[trigger] tail_event(p_obj.repo.events(), f) == tail_event(start, f),
                forall|f: IdView| f.0.0 != "SsLog"@ ==> #[trigger] has_free_id(p_obj.repo.events(), f) == has_free_id(start, f),
                room == has_room(start, ss_log_first(name@), stale@.len()),
                (premise && room) ==> has_room(p_obj.repo.events(), ss_log_first(name@), (stale@.len() - i) as nat),
                premise ==> (contiguous(p_obj.repo.events()) && !ill_typed(
                    tail_event(p_obj.repo.events(), ss_log_first(name@)),
                    |e| is_ss_log(e),
                ) && stored_claims(p_obj.repo.events(), name@) == retire_each(stored_claims(start, name@), views.take(i as int))),
            decreases stale.len() - i,
        {
            let updated = retire_stale_claim(stale[i].clone());
            let ghost before_i = p_obj.repo.events();
            let ghost claim_name = updated@.vault_name;
            match (PersistentSharedSecret { p_obj: &mut *p_obj }).save_ss_log_event(updated) {
                Ok(()) => {},
                Err(e) => {
                    proof {
                        assert(p_obj.repo.events() == before_i);
                        assert forall|f: IdView| f.0.0 != "SsLog"@ implies #[trigger] tail_event(p_obj.repo.events(), f)
                            == tail_event(start, f) by {
                            assert(tail_event(before_i, f) == tail_event(start, f));
                        }
                        assert forall|f: IdView| f.0.0 != "SsLog"@ implies #[trigger] has_free_id(p_obj.repo.events(), f)
                            == has_free_id(start, f) by {
                            assert(has_free_id(before_i, f) == has_free_id(start, f));
                        }
                        if premise && room {
                            assert(stale@[i as int]@.vault_name == name@);
                            assert(claim_name == name@);
                            lemma_room_for_one_more(
                                before_i,
                                ss_log_first(name@),
                                before_i[ss_log_first(name@)],
                                (stale@.len() - i - 1) as nat,
                            );
                        }
                    }
                    return Err(e);
                },
            }
            proof {
                let first = ss_log_first(claim_name);
                let k = free_id(before_i, first);
                let after_i = p_obj.repo.events();
                lemma_free_id_object(before_i, first);
                assert(after_i == before_i.insert(k, after_i[k]));
                assert forall|f: IdView| f.0.0 != "SsLog"@ implies #[trigger] tail_event(after_i, f) == tail_event(start, f) by {
                    lemma_tail_event_other_insert(before_i, f, k, after_i[k]);
                }
                assert forall|f: IdView| f.0.0 != "SsLog"@ implies #[trigger] has_free_id(after_i, f) == has_free_id(start, f) by {
                    lemma_tail_event_other_insert(before_i, f, k, after_i[k]);
                    assert(has_free_id(before_i, f) == has_free_id(start, f));
                }
                if premise && room {
                    assert(stale@[i as int]@.vault_name == name@);
                    assert(claim_name == name@);
                    lemma_room_for_one_more(before_i, first, after_i[k], (stale@.len() - i - 1) as nat);
                }
                if premise {
                    assert(claim_name == name@);
                    law_saved_at_free_id_is_read_back(before_i, first, after_i[k]);
                    assert(views.take(i + 1).drop_last() =~= views.take(i as int));
                    assert(views.take(i + 1).last() == views[i as int]);
                }
            }
            i = i + 1;
        }
        proof {
            assert(views.take(i as int) =~= views);
        }
        Ok(())
    }
}

/// The last stored vault of the name counts the device as a member of that vault.
pub open spec fn member_of_stored_vault(events: Map<IdView, GenericKvLogEvent>, name: Seq<char>, device: Seq<char>) -> bool {
    &&& tail_event(events, vault_first(name)) matches Some(ve)
    &&& as_vault(ve) matches Some(o)
    &&& member_in(o.0.value@.users, device)
    &&& o.0.value@.users[device] matches UserMembershipView::Member(u)
    &&& u.vault_name == name
}

/// The claims of the log as the device shows them.
pub open spec fn shown_to(m: Map<Seq<char>, SsClaimView>, device: Seq<char>) -> Map<Seq<char>, SsClaimView> {
    m.map_values(|c: SsClaimView| c.with_client_status(client_status_of(c, device)))
}

/// Whether the sender has a recovery claim for the password that is still open.
pub open spec fn has_open_recovery(m: Map<Seq<char>, SsClaimView>, sender: Seq<char>, pass_id: (Seq<char>, Seq<char>)) -> bool {
    exists|k: Seq<char>| #[trigger] m.contains_key(k) && is_open_recovery_by(m[k], sender, pass_id)
}

impl<'a, Repo: KvLogEventRepo> RecoveryAction<'a, Repo> {
    /// Ask the other members for their shares of the password. The sender's stale claims
    /// for it (answered but never completed) are retired first; then, unless the sender
    /// still has an open claim for it, a new claim goes to the sender's claims log. Only a
    /// member can ask.
    pub fn recovery_request(self, user_creds: UserCreds, pass_id: MetaPasswordId) -> (r: Result<(), CoreError>)
        ensures
            ({
                let before = old(self.p_obj).repo.events();
                let after = final(self.p_obj).repo.events();
                let user = UserData { vault_name: user_creds.vault_name, device: user_creds.device_creds.device };
                let sender = user_creds.device_creds.device.device_id@;
                let name = user_creds.vault_name@;
                &&& forall|e: CoreError| #[trigger] found_status(before, user, Err::<VaultStatus, CoreError>(e)) ==> (r
                    == Err::<(), CoreError>(e) && after == before)
                &&& forall|st: VaultStatus| #[trigger] found_status(before, user, Ok::<VaultStatus, CoreError>(st))
                    && !(st is Member) ==> (r == Err::<(), CoreError>(CoreError::NotAVaultMember) && after == before)
                &&& r is Ok ==> exists|st: VaultStatus| #[trigger] found_status(before, user, Ok::<VaultStatus, CoreError>(st))
                    && st is Member
                &&& (member_of_stored_vault(before, name, sender) && tail_event(before, vault_status_first(sender)) is Some
                    && !ill_typed(tail_event(before, vault_status_first(sender)), |e| is_vault_status(e)) && !ill_typed(
                    tail_event(before, ss_log_first(name)),
                    |e| is_ss_log(e),
                ) && contiguous(before) && claims_log_valid(stored_claims(before, name), name) && has_room(
                    before,
                    ss_log_first(name),
                    stored_claims(before, name).len(),
                ) && has_free_id(before, ss_device_log_first(sender))) ==> r is Ok
                &&& (r is Ok && contiguous(before) && claims_log_valid(stored_claims(before, name), name)) ==> {
                    let swept = stored_claims(before, name).map_values(|c: SsClaimView| retire_if_stale(c, sender, pass_id@));
                    &&& stored_claims(after, name) == swept
                    &&& has_open_recovery(shown_to(swept, sender), sender, pass_id@) ==> tail_event(
                        after,
                        ss_device_log_first(sender),
                    ) == tail_event(before, ss_device_log_first(sender))
                    &&& !has_open_recovery(shown_to(swept, sender), sender, pass_id@) ==> exists|c: SsClaim, vm: VaultMember|
                        #![trigger vm.seeds(c, pass_id@, SecretDistributionType::Recover)]
                        vm.seeds(c, pass_id@, SecretDistributionType::Recover) && found_status(
                            before,
                            user,
                            Ok::<VaultStatus, CoreError>(VaultStatus::Member(vm.member)),
                        ) && (tail_event(before, vault_first(vm.member.user_data.vault_name@)) matches Some(ve)
                            && as_vault(ve) matches Some(ov) && vm.vault@ == ov.0.value@) && (tail_event(
                            after,
                            ss_device_log_first(c@.sender),
                        ) matches Some(e) && as_ss_device_log(e) matches Some(o) && o.0.value == c)
                }
            }),
    {
        let ghost before = self.p_obj.repo.events();
        let ghost sender_view = user_creds.device_creds.device.device_id@;
        let ghost cond = member_of_stored_vault(before, user_creds.vault_name@, sender_view) && tail_event(
            before,
            vault_status_first(sender_view),
        ) is Some && !ill_typed(tail_event(before, vault_status_first(sender_view)), |e| is_vault_status(e)) && !ill_typed(
            tail_event(before, ss_log_first(user_creds.vault_name@)),
            |e| is_ss_log(e),
        ) && contiguous(before) && claims_log_valid(stored_claims(before, user_creds.vault_name@), user_creds.vault_name@)
            && has_room(before, ss_log_first(user_creds.vault_name@), stored_claims(before, user_creds.vault_name@).len())
            && has_free_id(before, ss_device_log_first(sender_view));
        let vault_status = match (PersistentVault { p_obj: &mut *self.p_obj }).find(user_creds.user()) {
            Ok(st) => st,
            Err(e) => return Err(e),
        };
        let ghost found = vault_status;
        let member = match require_member_status(vault_status) {
            Ok(m) => m,
            Err(e) => return Err(e),
        };
        let sender = user_creds.device_id().clone();
        let vault_name = user_creds.vault_name.clone();
        let ghost name = vault_name@;
        let ss_log_data = match (PersistentSharedSecret { p_obj: &mut *self.p_obj }).get_ss_log_obj(vault_name.clone()) {
            Ok(d) => d,
            Err(e) => return Err(e),
        };
        let stale = stale_recovery_claims(&ss_log_data, &sender, &pass_id);
        let ghost stale_views = stale@.map_values(|c: SsClaim| c@);
        let ghost premise = contiguous(before) && claims_log_valid(stored_claims(before, name), name);
        proof {
            use_type_invariant(&ss_log_data.claims);
            ss_log_data.claims.lemma_entries();
            lemma_claims_where_len(ss_log_data.claims.entry_seq(), stale_recovery_pred(sender_view, pass_id@));
            if cond {
                assert(stale@.len() == stale_views.len());
                assert(stale@.len() <= stored_claims(before, name).len());
            }
            if premise {
                let m = stored_claims(before, name);
                let entries = ss_log_data.claims.entry_seq();
                use_type_invariant(&ss_log_data.claims);
                ss_log_data.claims.lemma_entries();
                assert forall|j: int| 0 <= j < stale_views.len() implies m.contains_key((#[trigger] stale_views[j]).id)
                    && m[stale_views[j].id] == stale_views[j] && is_stale_recovery(stale_views[j], sender_view, pass_id@) by {
                    let x = stale_views[j];
                    assert(claims_where(entries, stale_recovery_pred(sender_view, pass_id@))[j] == x);
                    lemma_claims_where_members(entries, stale_recovery_pred(sender_view, pass_id@), x);
                    let i = choose|i: int| 0 <= i < entries.len() && stale_recovery_pred(sender_view, pass_id@)(entries[i].1@)
                        && (#[trigger] entries[i]).1@ == x;
                    assert(m.contains_key(entries[i].0@));
                }
                assert forall|j: int| 0 <= j < stale@.len() implies (#[trigger] stale@[j])@.vault_name == name by {
                    assert(stale_views[j] == stale@[j]@);
                }
            }
        }
        match Self::retire_stale_claims(self.p_obj, stale, Ghost(name)) {
            Ok(()) => {},
            Err(e) => return Err(e),
        }
        let ghost swept_store = self.p_obj.repo.events();
        proof {
            if premise {
                let m = stored_claims(before, name);
                let swept = m.map_values(|c: SsClaimView| retire_if_stale(c, sender_view, pass_id@));
                lemma_retire_each_pointwise(m, stale_views, sender_view, pass_id@);
                let entries = ss_log_data.claims.entry_seq();
                use_type_invariant(&ss_log_data.claims);
                ss_log_data.claims.lemma_entries();
                assert forall|k: Seq<char>| #[trigger] m.contains_key(k) implies retire_each(m, stale_views)[k] == swept[k] by {
                    if is_stale_recovery(m[k], sender_view, pass_id@) {
                        let i = choose|i: int| 0 <= i < entries.len() && (#[trigger] entries[i]).0@ == k;
                        lemma_claims_where_members(entries, stale_recovery_pred(sender_view, pass_id@), m[k]);
                        assert(stale_views.contains(m[k]));
                        let j = choose|j: int| 0 <= j < stale_views.len() && stale_views[j] == m[k];
                        assert(stale_views[j].id == k);
                    }
                }
                assert(retire_each(m, stale_views) =~= swept);
            }
        }
        let ss_log = match (PersistentSharedSecret { p_obj: &mut *self.p_obj }).get_ss_log_obj(vault_name.clone()) {
            Ok(d) => d.with_client_status(&sender),
            Err(e) => return Err(e),
        };
        if ss_log.has_active_recovery_claim(&sender, &pass_id) {
            proof {
                reveal_strlit("SsLog");
                reveal_strlit("SsDeviceLog");
                let f = ss_device_log_first(sender_view);
                assert(f.0.0 != "SsLog"@) by {
                    assert(f.0.0.len() != "SsLog"@.len());
                }
                assert(tail_event(self.p_obj.repo.events(), f) == tail_event(before, f));
                let user = UserData { vault_name: user_creds.vault_name, device: user_creds.device_creds.device };
                assert(found_status(before, user, Ok::<VaultStatus, CoreError>(found)) && found is Member);
            }
            return Ok(());
        }
        let vault = match (PersistentVault { p_obj: &mut *self.p_obj }).get_vault(member.user().vault_name()) {
            Ok(v) => v,
            Err(e) => return Err(e),
        };
        let ghost vault_obj = vault;
        let vault_member = match vault.to_data().to_vault_member(member) {
            Ok(vm) => vm,
            Err(e) => return Err(e),
        };
        let ghost vm = vault_member;
        let ghost pass_view = pass_id@;
        let claim = vault_member.create_recovery_claim(pass_id);
        let ghost new_claim = claim;
        match (PersistentSharedSecret { p_obj: &mut *self.p_obj }).save_claim_in_ss_device_log(claim) {
            Ok(()) => {},
            Err(e) => {
                proof {
                    if cond {
                        reveal_strlit("SsLog");
                        reveal_strlit("SsDeviceLog");
                        let f = ss_device_log_first(sender_view);
                        assert(f.0.0 != "SsLog"@) by {
                            assert(f.0.0.len() != "SsLog"@.len());
                        }
                        assert(has_free_id(swept_store, f) == has_free_id(before, f));
                        let user = UserData { vault_name: user_creds.vault_name, device: user_creds.device_creds.device };
                        assert(found_status(before, user, Ok::<VaultStatus, CoreError>(found)));
                        assert(member.user_data.device.device_id@ == sender_view);
                        assert(new_claim@.sender == sender_view);
                    }
                }
                return Err(e);
            },
        }
        proof {
            let after = self.p_obj.repo.events();
            let first = ss_device_log_first(new_claim@.sender);
            let k = free_id(swept_store, first);
            reveal_strlit("SsLog");
            reveal_strlit("SsDeviceLog");
            lemma_free_id_object(swept_store, first);
            assert(k.0 != ss_log_first(name).0) by {
                assert(k.0.0.len() != ss_log_first(name).0.0.len());
            }
            lemma_tail_event_other_insert(swept_store, ss_log_first(name), k, after[k]);
            assert(after == swept_store.insert(k, after[k]));
            if premise {
                law_saved_at_free_id_is_read_back(swept_store, first, after[k]);
                let user = UserData { vault_name: user_creds.vault_name, device: user_creds.device_creds.device };
                assert(found_status(before, user, Ok::<VaultStatus, CoreError>(found)));
                assert(found == VaultStatus::Member(vm.member));
                assert(vm.seeds(new_claim, pass_view, SecretDistributionType::Recover));
                reveal_strlit("Vault");
                let vf = vault_first(vm.member.user_data.vault_name@);
                assert(vf.0.0 != "SsLog"@) by {
                    assert(vf.0.0[0] != "SsLog"@[0]);
                }
                assert(tail_event(swept_store, vf) == tail_event(before, vf));
                assert(vm.vault@ == vault_obj.0.value@);
                assert(tail_event(after, ss_device_log_first(new_claim@.sender)) matches Some(e)
                    && as_ss_device_log(e) matches Some(o) && o.0.value == new_claim);
            }
        }
        Ok(())
    }
}

/// `c2` is `c` with one receiver whose share was sent marked delivered.
pub open spec fn delivered_once(c: SsClaimView, c2: SsClaimView) -> bool {
    exists|d: Seq<char>| #[trigger] c.status.contains_key(d) && c.status[d] == SsDistributionStatus::Sent && c2
        == c.with_status(c.status.insert(d, SsDistributionStatus::Delivered))
}

/// `after` is the log `before` once every recovery claim for the password with a share
/// sent has one such receiver marked delivered; the other claims are as they were.
pub open spec fn delivered_log(
    before: Map<Seq<char>, SsClaimView>,
    after: Map<Seq<char>, SsClaimView>,
    pass_id: (Seq<char>, Seq<char>),
) -> bool {
    &&& after.dom() == before.dom()
    &&& forall|k: Seq<char>| #[trigger] before.contains_key(k) ==> if recovery_for_pred(pass_id)(before[k]) && has_status(
        before[k].status,
        SsDistributionStatus::Sent,
    ) {
        delivered_once(before[k], after[k])
    } else {
        after[k] == before[k]
    }
}

/// The client-side end of a recovery.
pub struct RecoveryHandler<'a, Repo: KvLogEventRepo> {
    pub p_obj: &'a mut PersistentObject<Repo>,
}

impl<'a, Repo: KvLogEventRepo> RecoveryHandler<'a, Repo> {
    /// Once the secret was recovered with the claim, mark its shares delivered: in every
    /// recovery claim for the same password (older ones too), a receiver whose share was
    /// sent is marked delivered, so that the sender sees the recovery done. A claim that is
    /// not in the log changes nothing.
    pub fn mark_claim_delivered(self, user_creds: &UserCreds, claim_id: &ClaimId) -> (r: Result<(), CoreError>)
        ensures
            ({
                let before = old(self.p_obj).repo.events();
                let after = final(self.p_obj).repo.events();
                let name = user_creds.vault_name@;
                let m = stored_claims(before, name);
                &&& ill_typed(tail_event(before, ss_log_first(name)), |e| is_ss_log(e)) ==> (r == Err::<(), CoreError>(
                    CoreError::WrongEventType,
                ) && after == before)
                &&& (!ill_typed(tail_event(before, ss_log_first(name)), |e| is_ss_log(e)) && !m.contains_key(claim_id@))
                    ==> (r is Ok && after == before)
                &&& (r is Ok && m.contains_key(claim_id@) && contiguous(before) && claims_log_valid(m, name))
                    ==> contiguous(after) && delivered_log(m, stored_claims(after, name), m[claim_id@].pass_id())
                &&& (!ill_typed(tail_event(before, ss_log_first(name)), |e| is_ss_log(e)) && contiguous(before)
                    && claims_log_valid(m, name) && has_room(before, ss_log_first(name), m.len())) ==> r is Ok
            }),
    {
        Self::mark_in(self.p_obj, user_creds, claim_id)
    }

    fn mark_in(p_obj: &mut PersistentObject<Repo>, user_creds: &UserCreds, claim_id: &ClaimId) -> (r: Result<(), CoreError>)
        ensures
            ({
                let before = old(p_obj).repo.events();
                let after = final(p_obj).repo.events();
                let name = user_creds.vault_name@;
                let m = stored_claims(before, name);
                &&& ill_typed(tail_event(before, ss_log_first(name)), |e| is_ss_log(e)) ==> (r == Err::<(), CoreError>(
                    CoreError::WrongEventType,
                ) && after == before)
                &&& (!ill_typed(tail_event(before, ss_log_first(name)), |e| is_ss_log(e)) && !m.contains_key(claim_id@))
                    ==> (r is Ok && after == before)
                &&& (r is Ok && m.contains_key(claim_id@) && contiguous(before) && claims_log_valid(m, name))
                    ==> contiguous(after) && delivered_log(m, stored_claims(after, name), m[claim_id@].pass_id())
                &&& (!ill_typed(tail_event(before, ss_log_first(name)), |e| is_ss_log(e)) && contiguous(before)
                    && claims_log_valid(m, name) && has_room(before, ss_log_first(name), m.len())) ==> r is Ok
            }),
    {
        let ghost before = p_obj.repo.events();
        let vault_name = user_creds.vault_name.clone();
        let ghost name = vault_name@;
        let ss_log_data = match (PersistentSharedSecret { p_obj: &mut *p_obj }).get_ss_log_obj(vault_name) {
            Ok(d) => d,
            Err(e) => return Err(e),
        };
        let pass_id = match ss_log_data.claims.get(claim_id) {
            Some(current_claim) => current_claim.dist_claim_id.pass_id.clone(),
            None => return Ok(()),
        };
        let claims_to_update = recovery_claims_for(&ss_log_data, &pass_id);
        let ghost m = stored_claims(before, name);
        let ghost views = claims_to_update@.map_values(|c: SsClaim| c@);
        let ghost premise = contiguous(before) && claims_log_valid(m, name);
        let ghost room = has_room(before, ss_log_first(name), m.len());
        proof {
            reveal_strlit("SsLog");
            use_type_invariant(&ss_log_data.claims);
            ss_log_data.claims.lemma_entries();
            lemma_claims_where_len(ss_log_data.claims.entry_seq(), recovery_for_pred(pass_id@));
            assert(views.len() <= m.len());
            if premise {
                let entries = ss_log_data.claims.entry_seq();
                use_type_invariant(&ss_log_data.claims);
                ss_log_data.claims.lemma_entries();
                assert forall|j: int| 0 <= j < views.len() implies m.contains_key((#[trigger] views[j]).id)
                    && m[views[j].id] == views[j] && recovery_for_pred(pass_id@)(views[j]) by {
                    let x = views[j];
                    assert(claims_where(entries, recovery_for_pred(pass_id@))[j] == x);
                    lemma_claims_where_members(entries, recovery_for_pred(pass_id@), x);
                    let i = choose|i: int| 0 <= i < entries.len() && recovery_for_pred(pass_id@)(entries[i].1@)
                        && (#[trigger] entries[i]).1@ == x;
                    assert(m.contains_key(entries[i].0@));
                }
                assert forall|k: Seq<char>| #[trigger] m.contains_key(k) && recovery_for_pred(pass_id@)(m[k]) implies exists|j: int|
                    0 <= j < views.len() && (#[trigger] views[j]).id == k by {
                    let i = choose|i: int| 0 <= i < entries.len() && (#[trigger] entries[i]).0@ == k;
                    lemma_claims_where_members(entries, recovery_for_pred(pass_id@), m[k]);
                    assert(views.contains(m[k]));
                    let j = choose|j: int| 0 <= j < views.len() && views[j] == m[k];
                    assert(views[j].id == k);
                }
            }
        }
        let mut i: usize = 0;
        while i < claims_to_update.len()
            invariant
                i <= claims_to_update.len(),
                before == old(p_obj).repo.events(),
                name == user_creds.vault_name@,
                !ill_typed(tail_event(before, ss_log_first(name)), |e| is_ss_log(e)),
                m.contains_key(claim_id@),
                m[claim_id@].pass_id() == pass_id@,
                views == claims_to_update@.map_values(|c: SsClaim| c@),
                premise == (contiguous(before) && claims_log_valid(m, name)),
                room == has_room(before, ss_log_first(name), m.len()),
                views.len() <= m.len(),
                m == stored_claims(before, name),
                (premise && room) ==> has_room(p_obj.repo.events(), ss_log_first(name), (views.len() - i) as nat),
                premise ==> forall|j: int| 0 <= j < views.len() ==> m.contains_key((#[trigger] views[j]).id)
                    && m[views[j].id] == views[j] && recovery_for_pred(pass_id@)(views[j]),
                premise ==> forall|k: Seq<char>| #[trigger] m.contains_key(k) && recovery_for_pred(pass_id@)(m[k]) ==> exists|j: int|
                    0 <= j < views.len() && (#[trigger] views[j]).id == k,
                premise ==> contiguous(p_obj.repo.events()),
                premise ==> !ill_typed(tail_event(p_obj.repo.events(), ss_log_first(name)), |e| is_ss_log(e)),
                premise ==> stored_claims(p_obj.repo.events(), name).dom() == m.dom(),
                premise ==> forall|k: Seq<char>| #[trigger] m.contains_key(k) ==> if exists|j: int|
                    0 <= j < i && (#[trigger] views[j]).id == k && has_status(views[j].status, SsDistributionStatus::Sent) {
                    delivered_once(m[k], stored_claims(p_obj.repo.events(), name)[k])
                } else {
                    stored_claims(p_obj.repo.events(), name)[k] == m[k]
                },
            decreases claims_to_update.len() - i,
        {
            match mark_delivered(&claims_to_update[i]) {
                Some(updated_claim) => {
                    let ghost before_i = p_obj.repo.events();
                    let ghost claim_name = updated_claim@.vault_name;
                    let ghost cur = stored_claims(before_i, name);
                    match (PersistentSharedSecret { p_obj: &mut *p_obj }).save_ss_log_event(updated_claim) {
                        Ok(()) => {},
                        Err(e) => {
                            proof {
                                if premise && room {
                                    assert(m[views[i as int].id] == views[i as int]);
                                    assert(claim_name == name);
                                    lemma_room_for_one_more(
                                        before_i,
                                        ss_log_first(name),
                                        before_i[ss_log_first(name)],
                                        (views.len() - i - 1) as nat,
                                    );
                                }
                            }
                            return Err(e);
                        },
                    }
                    proof {
                        if premise && room {
                            assert(m[views[i as int].id] == views[i as int]);
                            assert(claim_name == name);
                            let first = ss_log_first(name);
                            let k = free_id(before_i, first);
                            let after_i = p_obj.repo.events();
                            lemma_room_for_one_more(before_i, first, after_i[k], (views.len() - i - 1) as nat);
                        }
                        if premise {
                            let first = ss_log_first(name);
                            assert(m[views[i as int].id] == views[i as int]);
                            assert(claim_name == name);
                            let k = free_id(before_i, first);
                            let after_i = p_obj.repo.events();
                            law_saved_at_free_id_is_read_back(before_i, first, after_i[k]);
                            let x = views[i as int];
                            assert(stored_claims(after_i, name) == cur.insert(x.id, updated_claim@));
                            assert forall|kk: Seq<char>| #[trigger] m.contains_key(kk) implies if exists|j: int|
                                0 <= j < i + 1 && (#[trigger] views[j]).id == kk && has_status(views[j].status, SsDistributionStatus::Sent) {
                                delivered_once(m[kk], stored_claims(after_i, name)[kk])
                            } else {
                                stored_claims(after_i, name)[kk] == m[kk]
                            } by {
                                if kk == x.id {
                                    assert(m[kk] == x);
                                    assert(0 <= i < i + 1 && views[i as int].id == kk && has_status(views[i as int].status, SsDistributionStatus::Sent));
                                } else {
                                    if exists|j: int| 0 <= j < i + 1 && (#[trigger] views[j]).id == kk && has_status(views[j].status, SsDistributionStatus::Sent) {
                                        let j = choose|j: int| 0 <= j < i + 1 && (#[trigger] views[j]).id == kk && has_status(views[j].status, SsDistributionStatus::Sent);
                                        assert(j < i);
                                    }
                                }
                            }
                            assert(stored_claims(after_i, name).dom() =~= m.dom());
                        }
                    }
                },
                None => {
                    proof {
                        if premise {
                            let x = views[i as int];
                            assert forall|kk: Seq<char>| #[trigger] m.contains_key(kk) implies if exists|j: int|
                                0 <= j < i + 1 && (#[trigger] views[j]).id == kk && has_status(views[j].status, SsDistributionStatus::Sent) {
                                delivered_once(m[kk], stored_claims(p_obj.repo.events(), name)[kk])
                            } else {
                                stored_claims(p_obj.repo.events(), name)[kk] == m[kk]
                            } by {
                                if exists|j: int| 0 <= j < i + 1 && (#[trigger] views[j]).id == kk && has_status(views[j].status, SsDistributionStatus::Sent) {
                                    let j = choose|j: int| 0 <= j < i + 1 && (#[trigger] views[j]).id == kk && has_status(views[j].status, SsDistributionStatus::Sent);
                                    assert(j < i);
                                }
                            }
                        }
                    }
                },
            }
            i = i + 1;
        }
        proof {
            if premise {
                let fin = stored_claims(p_obj.repo.events(), name);
                assert forall|k: Seq<char>| #[trigger] m.contains_key(k) implies if recovery_for_pred(pass_id@)(m[k]) && has_status(
                    m[k].status,
                    SsDistributionStatus::Sent,
                ) {
                    delivered_once(m[k], fin[k])
                } else {
                    fin[k] == m[k]
                } by {
                    if recovery_for_pred(pass_id@)(m[k]) {
                        let j = choose|j: int| 0 <= j < views.len() && (#[trigger] views[j]).id == k;
                        assert(views[j] == m[k]);
                    } else {
                        if exists|j: int| 0 <= j < i && (#[trigger] views[j]).id == k && has_status(views[j].status, SsDistributionStatus::Sent) {
                            let j = choose|j: int| 0 <= j < i && (#[trigger] views[j]).id == k && has_status(views[j].status, SsDistributionStatus::Sent);
                            assert(views[j] == m[k]);
                        }
                    }
                }
            }
        }
        Ok(())
    }
}

/// The first id of the share of the password that a device holds itself.
pub open spec fn own_share_first(pass_id: MetaPasswordId, device: DeviceId) -> IdView {
    first_id_of(
        ObjectDescriptor::SharedSecret(SsWorkflowDescriptor::Distribution(SsDistributionId { pass_id, receiver: device })),
    )
}

/// The share a workflow event carries.
pub open spec fn workflow_data(o: SsWorkflowObject) -> SecretDistributionData {
    match o {
        SsWorkflowObject::Distribution(e) => e.value,
        SsWorkflowObject::Recovery(e) => e.value,
    }
}

/// `v` holds the shares of the events `tails`, in order, then the share of `own` when
/// there is one.
pub open spec fn shares_read(tails: Seq<GenericKvLogEvent>, own: Option<GenericKvLogEvent>, v: Seq<SecretDistributionData>) -> bool {
    &&& v.len() == tails.len() + if own is Some {
        1int
    } else {
        0int
    }
    &&& forall|i: int| 0 <= i < tails.len() ==> (as_ss_workflow(#[trigger] tails[i]) matches Some(o) && v[i] == workflow_data(o))
    &&& own matches Some(e) ==> (as_ss_workflow(e) matches Some(o) && v[tails.len() as int] == workflow_data(o))
}

/// What collecting the shares of the claim gives: the shares sent back for it, then this
/// device's own share; an error when one of them is not a share, or when there is none.
pub open spec fn recovery_outcome(
    events: Map<IdView, GenericKvLogEvent>,
    c: SsClaim,
    own: Option<GenericKvLogEvent>,
    r: Result<Vec<SecretDistributionData>, CoreError>,
) -> bool {
    let tails = tails_of(events, recovery_firsts(c));
    if some_ill_typed(events, recovery_firsts(c)) {
        r == Err::<Vec<SecretDistributionData>, CoreError>(CoreError::WrongEventType)
    } else if ill_typed(own, |e| is_ss_workflow(e)) {
        r == Err::<Vec<SecretDistributionData>, CoreError>(CoreError::WrongEventType)
    } else if tails.len() == 0 && own is None {
        r == Err::<Vec<SecretDistributionData>, CoreError>(CoreError::NoRecoveryShares)
    } else {
        r matches Ok(v) && shares_read(tails, own, v@)
    }
}

fn share_of(o: &SsWorkflowObject) -> (r: SecretDistributionData)
    ensures
        r == workflow_data(*o),
{
    match o {
        SsWorkflowObject::Distribution(e) => e.value.clone(),
        SsWorkflowObject::Recovery(e) => e.value.clone(),
    }
}

impl<'a, Repo: KvLogEventRepo> RecoveryHandler<'a, Repo> {
    /// The encrypted shares a recovery of the password with the claim works from: those the
    /// other members sent back for the claim, then the share this device holds itself. The
    /// claim must be in the log, and at least one share must be at hand.
    pub fn recovery_shares(
        self,
        user_creds: &UserCreds,
        claim_id: &ClaimId,
        pass_id: &MetaPasswordId,
    ) -> (r: Result<Vec<SecretDistributionData>, CoreError>)
        ensures
            *final(self.p_obj) == *old(self.p_obj),
            ({
                let before = old(self.p_obj).repo.events();
                let name = user_creds.vault_name@;
                let m = stored_claims(before, name);
                let own = tail_event(before, own_share_first(*pass_id, user_creds.device_creds.device.device_id));
                &&& ill_typed(tail_event(before, ss_log_first(name)), |e| is_ss_log(e)) ==> r == Err::<
                    Vec<SecretDistributionData>,
                    CoreError,
                >(CoreError::WrongEventType)
                &&& (!ill_typed(tail_event(before, ss_log_first(name)), |e| is_ss_log(e)) && !m.contains_key(claim_id@))
                    ==> r == Err::<Vec<SecretDistributionData>, CoreError>(CoreError::ClaimNotFound)
                &&& (!ill_typed(tail_event(before, ss_log_first(name)), |e| is_ss_log(e)) && m.contains_key(claim_id@))
                    ==> exists|c: SsClaim| #[trigger] c@ == m[claim_id@] && recovery_outcome(before, c, own, r)
            }),
    {
        let log = match (PersistentSharedSecret { p_obj: &mut *self.p_obj }).get_ss_log_obj(user_creds.vault_name.clone()) {
            Ok(d) => d,
            Err(e) => return Err(e),
        };
        let claim = match claim_for_recovery(&log, claim_id) {
            Ok(c) => c,
            Err(e) => return Err(e),
        };
        let ghost c = claim;
        let recoveries = match (PersistentSharedSecret { p_obj: &mut *self.p_obj }).get_recoveries(claim) {
            Ok(v) => v,
            Err(e) => {
                proof {
                    assert(recovery_outcome(self.p_obj.repo.events(), c, tail_event(self.p_obj.repo.events(), own_share_first(*pass_id, user_creds.device_creds.device.device_id)), Err::<Vec<SecretDistributionData>, CoreError>(e)));
                }
                return Err(e);
            },
        };
        let desc = SsWorkflowDescriptor::Distribution(
            SsDistributionId { pass_id: pass_id.clone(), receiver: user_creds.device_creds.device.device_id.clone() },
        );
        let own: Option<SecretDistributionData> = match self.p_obj.find_tail_event(desc) {
            None => None,
            Some(GenericKvLogEvent::Ss(SsKvLogEvent::SsWorkflow(o))) => Some(share_of(o)),
            Some(_) => {
                proof {
                    assert(recovery_outcome(self.p_obj.repo.events(), c, tail_event(self.p_obj.repo.events(), own_share_first(*pass_id, user_creds.device_creds.device.device_id)), Err::<Vec<SecretDistributionData>, CoreError>(CoreError::WrongEventType)));
                }
                return Err(CoreError::WrongEventType);
            },
        };
        let own_count: usize = match own {
            Some(_) => 1,
            None => 0,
        };
        match require_shares(recoveries.len(), own_count) {
            Ok(()) => {},
            Err(e) => {
                proof {
                    assert(recovery_outcome(self.p_obj.repo.events(), c, tail_event(self.p_obj.repo.events(), own_share_first(*pass_id, user_creds.device_creds.device.device_id)), Err::<Vec<SecretDistributionData>, CoreError>(e)));
                }
                return Err(e);
            },
        }
        let ghost tails = tails_of(self.p_obj.repo.events(), recovery_firsts(c));
        let mut shares: Vec<SecretDistributionData> = Vec::new();
        let mut i: usize = 0;
        while i < recoveries.len()
            invariant
                i <= recoveries.len(),
                recoveries@.len() == tails.len(),
                forall|j: int| 0 <= j < recoveries@.len() ==> (as_ss_workflow(#[trigger] tails[j]) matches Some(o)
                    && same_workflow(recoveries@[j], o)),
                shares@.len() == i,
                forall|j: int| 0 <= j < i ==> (as_ss_workflow(#[trigger] tails[j]) matches Some(o) && shares@[j]
                    == workflow_data(o)),
            decreases recoveries.len() - i,
        {
            let d = share_of(&recoveries[i]);
            proof {
                assert(as_ss_workflow(tails[i as int]) is Some);
            }
            shares.push(d);
            i = i + 1;
        }
        match own {
            Some(d) => shares.push(d),
            None => {},
        }
        proof {
            let out = shares@;
            let own_e = tail_event(self.p_obj.repo.events(), own_share_first(*pass_id, user_creds.device_creds.device.device_id));
            assert(forall|j: int| 0 <= j < tails.len() ==> (as_ss_workflow(#[trigger] tails[j]) matches Some(o)
                && out[j] == workflow_data(o)));
            assert(shares_read(tails, own_e, out));
        }
        Ok(shares)
    }
}

/// How many of the devices are `d`.
pub open spec fn count_device(s: Seq<Seq<char>>, d: Seq<char>) -> nat
    decreases s.len(),
{
    if s.len() == 0 {
        0
    } else {
        count_device(s.drop_last(), d) + if s.last() == d {
            1nat
        } else {
            0nat
        }
    }
}

/// `v` holds one answer per receiver of the claim that is `local`, in receiver order: its
/// recovery id, the share `data` kept for it, and the key `pk` to encrypt the answer for.
pub open spec fn answers_are(
    v: Seq<(SsRecoveryId, SecretDistributionData, TransportPk)>,
    claim: SsClaim,
    receivers: Seq<Seq<char>>,
    local: Seq<char>,
    data: SecretDistributionData,
    pk: Seq<char>,
) -> bool {
    &&& v.len() == count_device(receivers, local)
    &&& forall|k: int| 0 <= k < v.len() ==> {
        &&& (#[trigger] v[k]).0.claim_id == claim.dist_claim_id
        &&& v[k].0.sender == claim.sender
        &&& v[k].0.distribution_id.pass_id == claim.dist_claim_id.pass_id
        &&& v[k].0.distribution_id.receiver@ == local
        &&& v[k].1 == data
        &&& v[k].2@ == pk
    }
}

/// The share this device keeps for the claim's password and the key of the claim's sender,
/// when the share is a distributed share and the sender a member of the vault.
pub open spec fn answer_source(
    events: Map<IdView, GenericKvLogEvent>,
    claim: SsClaim,
    local: DeviceId,
    vault: crate::model::vault_data::VaultDataView,
) -> Option<(SecretDistributionData, Seq<char>)> {
    match tail_event(events, own_share_first(claim.dist_claim_id.pass_id, local)) {
        Some(e) => match as_ss_workflow(e) {
            Some(SsWorkflowObject::Distribution(d)) => if vault.users.contains_key(claim.sender@)
                && vault.users[claim.sender@] is Member {
                Some((d.value, vault.users[claim.sender@]->Member_0.device.keys.1))
            } else {
                None
            },
            _ => None,
        },
        None => None,
    }
}

/// What this device answers to a recovery claim: for each time it is a receiver, the share
/// it keeps for the password, to be encrypted for the claim's sender. The share must be a
/// distributed share, and the sender a member of the vault.
pub fn recovery_answers<Repo: KvLogEventRepo>(
    p_obj: &PersistentObject<Repo>,
    vault: &VaultData,
    claim: &SsClaim,
    local: &DeviceId,
) -> (r: Result<Vec<(SsRecoveryId, SecretDistributionData, TransportPk)>, CoreError>)
    ensures
        !claim@.receivers.contains(local@) ==> (r matches Ok(v) && v@.len() == 0),
        claim@.receivers.contains(local@) ==> match tail_event(
            p_obj.repo.events(),
            own_share_first(claim.dist_claim_id.pass_id, *local),
        ) {
            None => r == Err::<Vec<(SsRecoveryId, SecretDistributionData, TransportPk)>, CoreError>(
                CoreError::ObjectNotFound,
            ),
            Some(e) => match as_ss_workflow(e) {
                Some(SsWorkflowObject::Distribution(d)) => if vault@.users.contains_key(claim.sender@)
                    && vault@.users[claim.sender@] is Member {
                    r matches Ok(v) && answers_are(
                        v@,
                        *claim,
                        claim@.receivers,
                        local@,
                        d.value,
                        vault@.users[claim.sender@]->Member_0.device.keys.1,
                    )
                } else {
                    r == Err::<Vec<(SsRecoveryId, SecretDistributionData, TransportPk)>, CoreError>(
                        CoreError::NotAVaultMember,
                    )
                },
                _ => r == Err::<Vec<(SsRecoveryId, SecretDistributionData, TransportPk)>, CoreError>(
                    CoreError::WrongEventType,
                ),
            },
        },
{
    let ids = claim.recovery_db_ids();
    let ghost recv = claim@.receivers;
    let mut answers: Vec<(SsRecoveryId, SecretDistributionData, TransportPk)> = Vec::new();
    let mut i: usize = 0;
    while i < ids.len()
        invariant
            i <= ids.len(),
            ids@.len() == claim.receivers@.len(),
            recv == claim@.receivers,
            forall|j: int| 0 <= j < ids@.len() ==> (#[trigger] ids@[j]).claim_id == claim.dist_claim_id
                && ids@[j].sender == claim.sender && ids@[j].distribution_id.pass_id == claim.dist_claim_id.pass_id
                && ids@[j].distribution_id.receiver == claim.receivers@[j],
            answers@.len() == count_device(recv.take(i as int), local@),
            answers@.len() > 0 ==> (answer_source(p_obj.repo.events(), *claim, *local, vault@) matches Some(src)
                && answers_are(answers@, *claim, recv.take(i as int), local@, src.0, src.1)),
            !recv.take(i as int).contains(local@) ==> answers@.len() == 0,
            recv.take(i as int).contains(local@) ==> answers@.len() > 0,
        decreases ids.len() - i,
    {
        proof {
            assert(recv.take(i + 1).drop_last() =~= recv.take(i as int));
            assert(recv.take(i + 1).last() == recv[i as int]);
            assert(recv[i as int] == claim.receivers@[i as int]@);
        }
        if ids[i].distribution_id.receiver.key_eq(local) {
            let desc = SsWorkflowDescriptor::Distribution(ids[i].distribution_id.clone());
            let data = match p_obj.find_tail_event(desc) {
                None => return Err(CoreError::ObjectNotFound),
                Some(GenericKvLogEvent::Ss(SsKvLogEvent::SsWorkflow(SsWorkflowObject::Distribution(d)))) => d.value.clone(),
                Some(_) => return Err(CoreError::WrongEventType),
            };
            let sender_pk = match vault.find_user(&claim.sender) {
                Some(UserMembership::Member(m)) => m.user_data.device.keys.transport_pk.clone(),
                _ => return Err(CoreError::NotAVaultMember),
            };
            let ghost before_push = answers@;
            let id = ids[i].clone();
            answers.push((id, data, sender_pk));
            proof {
                let src = answer_source(p_obj.repo.events(), *claim, *local, vault@);
                assert(src is Some);
                let sv = src.unwrap();
                assert(data == sv.0);
                assert(sender_pk@ == sv.1);
                assert(count_device(recv.take(i + 1), local@) == count_device(recv.take(i as int), local@) + 1);
                assert forall|k: int| 0 <= k < answers@.len() implies {
                    &&& (#[trigger] answers@[k]).0.claim_id == claim.dist_claim_id
                    &&& answers@[k].0.sender == claim.sender
                    &&& answers@[k].0.distribution_id.pass_id == claim.dist_claim_id.pass_id
                    &&& answers@[k].0.distribution_id.receiver@ == local@
                    &&& answers@[k].1 == sv.0
                    &&& answers@[k].2@ == sv.1
                } by {
                    if k < before_push.len() {
                        assert(answers@[k] == before_push[k]);
                    }
                }
                assert(answers_are(answers@, *claim, recv.take(i + 1), local@, sv.0, sv.1));
            }
        } else {
            proof {
                assert(count_device(recv.take(i + 1), local@) == count_device(recv.take(i as int), local@));
            }
        }
        proof {
            if recv.take(i + 1).contains(local@) && !recv.take(i as int).contains(local@) {
                let j = choose|j: int| 0 <= j < i + 1 && #[trigger] recv.take(i + 1)[j] == local@;
                if j < i {
                    assert(recv.take(i as int)[j] == local@);
                }
                assert(recv[i as int] == local@);
            }
            if recv.take(i as int).contains(local@) {
                let j = choose|j: int| 0 <= j < i && #[trigger] recv.take(i as int)[j] == local@;
                assert(recv.take(i + 1)[j] == local@);
            }
        }
        i = i + 1;
    }
    proof {
        assert(recv.take(i as int) =~= recv);
    }
    Ok(answers)
}

/// Record this device's answer to a recovery claim: the share, encrypted for the claim's
/// sender, under the recovery id, to be uploaded by the next synchronisation.
pub fn save_recovery_answer<Repo: KvLogEventRepo>(
    p_obj: &mut PersistentObject<Repo>,
    id: SsRecoveryId,
    vault_name: VaultName,
    msg: EncryptedMessage,
)
    ensures
        exists|e: GenericKvLogEvent| #![trigger as_ss_workflow(e)]
            final(p_obj).repo.events() == old(p_obj).repo.events().insert(
                first_id_of(ObjectDescriptor::SharedSecret(SsWorkflowDescriptor::Recovery(id))),
                e,
            ) && (as_ss_workflow(e) matches Some(SsWorkflowObject::Recovery(ev)) && ev.value == (SecretDistributionData {
                vault_name,
                claim_id: id.claim_id,
                secret_message: msg,
            }) && ev.key.obj_desc == ObjectDescriptor::SharedSecret(SsWorkflowDescriptor::Recovery(id))),
{
    let claim_id = id.claim_id.clone();
    let key = KvKey::from(SsWorkflowDescriptor::Recovery(id));
    let wf = SsWorkflowObject::Recovery(
        KvLogEvent { key, value: SecretDistributionData { vault_name, claim_id, secret_message: msg } },
    );
    let event = wf.to_generic();
    let ghost g = event;
    p_obj.repo.save(event);
    proof {
        assert(as_ss_workflow(g) is Some);
    }
}

} // verus!

