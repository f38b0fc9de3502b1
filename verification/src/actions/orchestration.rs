//! The orchestrator, which answers requests on behalf of a member: which join requests are
//! pending, which claim to approve or decline, its answer to a join request (with the vault
//! the secrets are then redistributed over) and its declining of a recovery claim.
use vstd::prelude::*;
use crate::collections::{views_of, KeyEq, ViewClone};
use crate::db::generic_db::KvLogEventRepo;
use crate::db::objects::persistent_shared_secret::{
    claim_logged, is_ss_log, ss_log_first, stored_claims, PersistentSharedSecret,
};
use crate::db::objects::persistent_vault::{
    as_vault, as_vault_log, found_status, ill_typed, is_vault, is_vault_log, vault_first, vault_log_first, PersistentVault,
};
use crate::db::objects::persistent_device_log::appended;
use crate::actions::vault_actions::{join_answer, JoinAction, JoinActionUpdate};
use crate::events::vault_log::{UpdateMembershipEvent, VaultActionEvent, VaultActionUpdateEvent};
use crate::model::vault::{VaultMember, VaultStatus};
use crate::model::vault_data::VaultDataView;
use crate::db::events::GenericKvLogEvent;
use crate::db::store::{tail_event, IdView, PersistentObject};
use crate::error::CoreError;
use crate::model::creds::UserCreds;
use crate::events::vault_log::{JoinClusterEvent, RequestView, VaultActionEvents, VaultActionRequestEvent};
use crate::model::device::DeviceId;
use crate::model::secret::{ClaimId, SecretDistributionType, SsClaim, SsClaimView, SsDistributionStatus, SsLogData, SsRecoveryId};
use crate::model::user::{UserData, UserDataMember, UserMembership, UserMembershipView};
use crate::model::vault_data::VaultData;

verus! {

/// The candidates of the pending join requests, in the order of the log.
pub open spec fn join_candidates(s: Seq<VaultActionRequestEvent>) -> Seq<JoinClusterEvent>
    decreases s.len(),
{
    if s.len() == 0 {
        Seq::empty()
    } else {
        let rest = join_candidates(s.drop_last());
        match s.last() {
            VaultActionRequestEvent::JoinCluster(j) => rest.push(j),
            VaultActionRequestEvent::AddMetaPass(_) => rest,
        }
    }
}

/// The join requests the orchestrator answers; requests to add a password need no answer.
pub fn pending_join_requests(events: &VaultActionEvents) -> (r: Vec<JoinClusterEvent>)
    ensures
        r@ == join_candidates(events.requests.item_seq()),
{
    let items = events.requests.as_vec();
    let mut out: Vec<JoinClusterEvent> = Vec::new();
    let mut i: usize = 0;
    while i < items.len()
        invariant
            items@ == events.requests.item_seq(),
            i <= items.len(),
            out@ == join_candidates(items@.take(i as int)),
        decreases items.len() - i,
    {
        proof {
            assert(items@.take(i + 1).drop_last() =~= items@.take(i as int));
        }
        match &items[i] {
            VaultActionRequestEvent::JoinCluster(join) => {
                out.push(join.clone());
            },
            VaultActionRequestEvent::AddMetaPass(_) => {},
        }
        i = i + 1;
    }
    proof {
        assert(items@.take(i as int) =~= items@);
    }
    out
}

/// Whether the join request is among the pending requests.
pub fn has_join_request(events: &VaultActionEvents, join_request: &JoinClusterEvent) -> (r: bool)
    ensures
        r == events@.requests.contains(RequestView::JoinCluster(join_request@)),
{
    events.requests.contains(&VaultActionRequestEvent::JoinCluster(join_request.clone()))
}

/// The recovery claim with the id, the one a receiver approves.
pub fn recover_claim_to_accept(log: &SsLogData, claim_id: &ClaimId) -> (r: Option<SsClaim>)
    ensures
        r matches Some(c) ==> log@.contains_key(claim_id@) && c@ == log@[claim_id@] && c@.distribution_type
            == SecretDistributionType::Recover,
        r is None ==> !log@.contains_key(claim_id@) || log@[claim_id@].distribution_type
            != SecretDistributionType::Recover,
{
    match log.claims.get(claim_id) {
        Some(claim) => {
            if claim.distribution_type == SecretDistributionType::Recover {
                Some(claim.view_clone())
            } else {
                None
            }
        },
        None => None,
    }
}

/// The claim after this device declined it; a claim that is not in the log cannot be declined.
pub fn decline_claim(log: &SsLogData, claim_id: &ClaimId, local: DeviceId) -> (r: Result<SsClaim, CoreError>)
    ensures
        !log@.contains_key(claim_id@) ==> r == Err::<SsClaim, CoreError>(CoreError::ClaimNotFound),
        log@.contains_key(claim_id@) ==> (r matches Ok(c) && c@ == log@[claim_id@].with_status(
            log@[claim_id@].status.insert(local@, SsDistributionStatus::Declined),
        )),
{
    match log.claims.get(claim_id) {
        Some(claim) => {
            let updated = claim.view_clone();
            let SsClaim { id, dist_claim_id, vault_name, sender, distribution_type, receivers, status, client_status } =
                updated;
            Ok(SsClaim {
                id,
                dist_claim_id,
                vault_name,
                sender,
                distribution_type,
                receivers,
                status: status.decline(local),
                client_status,
            })
        },
        None => Err(CoreError::ClaimNotFound),
    }
}

/// The recovery id under which this device answers the claim: the first one whose
/// receiver is this device.
pub fn local_recovery_id(claim: &SsClaim, local: &DeviceId) -> (r: Option<SsRecoveryId>)
    ensures
        r is None <==> !claim@.receivers.contains(local@),
        r matches Some(id) ==> id.claim_id == claim.dist_claim_id && id.sender == claim.sender
            && id.distribution_id.pass_id == claim.dist_claim_id.pass_id && id.distribution_id.receiver@ == local@,
{
    let ids = claim.recovery_db_ids();
    let mut i: usize = 0;
    while i < ids.len()
        invariant
            i <= ids.len(),
            ids@.len() == claim.receivers@.len(),
            forall|j: int| 0 <= j < ids@.len() ==> (#[trigger] ids@[j]).claim_id == claim.dist_claim_id
                && ids@[j].sender == claim.sender && ids@[j].distribution_id.pass_id == claim.dist_claim_id.pass_id
                && ids@[j].distribution_id.receiver == claim.receivers@[j],
            forall|j: int| 0 <= j < i ==> (#[trigger] claim.receivers@[j])@ != local@,
        decreases ids.len() - i,
    {
        if ids[i].distribution_id.receiver.key_eq(local) {
            proof {
                assert(claim@.receivers[i as int] == local@);
            }
            return Some(ids[i].clone());
        }
        i = i + 1;
    }
    proof {
        if claim@.receivers.contains(local@) {
            let j = choose|j: int| 0 <= j < claim@.receivers.len() && claim@.receivers[j] == local@;
            assert(claim.receivers@[j]@ == local@);
        }
    }
    None
}

/// The member to whom this device re-encrypts its share for a recovery claim: the claim
/// sender, which the vault must count as a member.
pub fn claim_sender_member(vault: &VaultData, sender: &DeviceId) -> (r: Result<UserDataMember, CoreError>)
    ensures
        r is Ok <==> (vault@.users.contains_key(sender@) && vault@.users[sender@] is Member),
        r matches Ok(m) ==> vault@.users[sender@] == UserMembershipView::Member(m.user_data@),
        r is Err ==> r == Err::<UserDataMember, CoreError>(CoreError::NotAVaultMember),
{
    match vault.find_user(sender) {
        Some(UserMembership::Member(member)) => Ok(member.clone()),
        Some(UserMembership::Outsider(_)) => Err(CoreError::NotAVaultMember),
        None => Err(CoreError::NotAVaultMember),
    }
}

/// Which claims the orchestrator approves when it accepts everything: every claim of the
/// log, in its order (a split needs no approval and is passed over when approving).
pub fn claims_to_accept(log: &SsLogData) -> (r: Vec<ClaimId>)
    ensures
        r@.len() == log.claims.entry_seq().len(),
        forall|i: int| 0 <= i < r@.len() ==> (#[trigger] r@[i]) == log.claims.entry_seq()[i].1.id,
{
    let entries = log.claims.as_vec();
    let mut out: Vec<ClaimId> = Vec::new();
    let mut i: usize = 0;
    while i < entries.len()
        invariant
            entries@ == log.claims.entry_seq(),
            i <= entries.len(),
            out@.len() == i,
            forall|j: int| 0 <= j < i ==> (#[trigger] out@[j]) == entries@[j].1.id,
        decreases entries.len() - i,
    {
        out.push(entries[i].1.id.clone());
        i = i + 1;
    }
    out
}

/// The orchestrator of a device: it answers requests of other members with the device's
/// own store and credentials.
pub struct MetaOrchestrator<'a, Repo: KvLogEventRepo> {
    pub p_obj: &'a mut PersistentObject<Repo>,
    pub user_creds: UserCreds,
}

/// What declining the claim does: the claim, as the vault's claims log holds it, is logged
/// again with this device's status set to declined; a log of another type and a claim that
/// is not in the log are refused with nothing written.
pub open spec fn recovery_declined(
    before: Map<IdView, GenericKvLogEvent>,
    after: Map<IdView, GenericKvLogEvent>,
    vault_name: Seq<char>,
    local: Seq<char>,
    claim_id: Seq<char>,
    r: Result<(), CoreError>,
) -> bool {
    let claims = stored_claims(before, vault_name);
    if ill_typed(tail_event(before, ss_log_first(vault_name)), |e| is_ss_log(e)) {
        r == Err::<(), CoreError>(CoreError::WrongEventType) && after == before
    } else if !claims.contains_key(claim_id) {
        r == Err::<(), CoreError>(CoreError::ClaimNotFound) && after == before
    } else {
        claim_logged(
            before,
            after,
            claims[claim_id].with_status(claims[claim_id].status.insert(local, SsDistributionStatus::Declined)),
            r,
        )
    }
}

impl<'a, Repo: KvLogEventRepo> MetaOrchestrator<'a, Repo> {
    /// Decline the recovery claim on behalf of this device: the claim is recorded again in
    /// the vault's claims log with this device's status set to declined.
    pub fn decline_recover(self, claim_id: ClaimId) -> (r: Result<(), CoreError>)
        ensures
            recovery_declined(
                old(self.p_obj).repo.events(),
                final(self.p_obj).repo.events(),
                self.user_creds.vault_name@,
                self.user_creds.device_creds.device.device_id@,
                claim_id@,
                r,
            ),
    {
        let local = self.user_creds.device_id().clone();
        let vault_name = self.user_creds.vault_name.clone();
        let log = match (PersistentSharedSecret { p_obj: &mut *self.p_obj }).get_ss_log_obj(vault_name) {
            Ok(log) => log,
            Err(e) => return Err(e),
        };
        let updated = match decline_claim(&log, &claim_id, local) {
            Ok(c) => c,
            Err(e) => return Err(e),
        };
        (PersistentSharedSecret { p_obj: self.p_obj }).save_ss_log_event(updated)
    }
}

/// The vault a redistribution runs over once the candidate is accepted: the vault as the
/// member read it, with the candidate as a member.
pub open spec fn with_candidate(vault: VaultDataView, join_request: JoinClusterEvent) -> VaultDataView {
    VaultDataView {
        users: vault.users.insert(
            join_request.candidate.device.device_id@,
            UserMembershipView::Member(join_request.candidate@),
        ),
        ..vault
    }
}

/// What the member's answer to the join request comes to, once the member and the vault
/// are read: a refused answer writes nothing; a sent answer goes to the member's device
/// log and, when the candidate is accepted, gives the vault to redistribute the secrets over.
pub open spec fn join_request_answered(
    before: Map<IdView, GenericKvLogEvent>,
    after: Map<IdView, GenericKvLogEvent>,
    vm: VaultMember,
    join_request: JoinClusterEvent,
    upd: JoinActionUpdate,
    r: Result<Option<VaultData>, CoreError>,
) -> bool {
    ||| exists|e: CoreError| #[trigger]
        join_answer(vm, join_request, upd, Err::<UpdateMembershipEvent, CoreError>(e)) && r == Err::<
            Option<VaultData>,
            CoreError,
        >(e) && after == before
    ||| exists|ev: UpdateMembershipEvent| #[trigger]
        join_answer(vm, join_request, upd, Ok::<UpdateMembershipEvent, CoreError>(ev)) && appended(
            before,
            after,
            vm.member.user_data.device.device_id@,
            VaultActionEvent::Update(VaultActionUpdateEvent::UpdateMembership(ev)),
            match r {
                Ok(_) => Ok::<(), CoreError>(()),
                Err(e) => Err::<(), CoreError>(e),
            },
        ) && (r is Ok ==> match upd {
            JoinActionUpdate::Accept => r matches Ok(Some(v)) && v@ == with_candidate(vm.vault@, join_request),
            JoinActionUpdate::Decline => r == Ok::<Option<VaultData>, CoreError>(None),
        })
}

/// What answering a join request does: the user must be a member of its vault, and the
/// vault and its log are read; a request that is not pending in the log is passed over,
/// a pending one is answered by the member.
pub open spec fn membership_updated(
    before: Map<IdView, GenericKvLogEvent>,
    after: Map<IdView, GenericKvLogEvent>,
    user: UserData,
    join_request: JoinClusterEvent,
    upd: JoinActionUpdate,
    r: Result<Option<VaultData>, CoreError>,
) -> bool {
    exists|st: Result<VaultStatus, CoreError>| #[trigger]
        found_status(before, user, st) && match st {
            Err(e) => r == Err::<Option<VaultData>, CoreError>(e) && after == before,
            Ok(VaultStatus::Member(m)) => {
                let name = m.user_data.vault_name@;
                let vt = tail_event(before, vault_first(name));
                let lt = tail_event(before, vault_log_first(name));
                if ill_typed(vt, |e| is_vault(e)) {
                    r == Err::<Option<VaultData>, CoreError>(CoreError::WrongEventType) && after == before
                } else if vt is None {
                    r == Err::<Option<VaultData>, CoreError>(CoreError::ObjectNotFound) && after == before
                } else if ill_typed(lt, |e| is_vault_log(e)) {
                    r == Err::<Option<VaultData>, CoreError>(CoreError::WrongEventType) && after == before
                } else if lt is None || !(as_vault_log(lt->0)->0).0.value@.requests.contains(
                    RequestView::JoinCluster(join_request@),
                ) {
                    r == Ok::<Option<VaultData>, CoreError>(None) && after == before
                } else {
                    exists|vm: VaultMember| #[trigger]
                        join_request_answered(before, after, vm, join_request, upd, r) && vm.member == m && vm.vault@
                            == (as_vault(vt->0)->0).0.value@
                }
            },
            Ok(_) => r == Err::<Option<VaultData>, CoreError>(CoreError::NotAVaultMember) && after == before,
        }
}

impl<'a, Repo: KvLogEventRepo> MetaOrchestrator<'a, Repo> {
    /// Answer the candidate's join request on behalf of this device, when the request is
    /// pending in the vault's log. On acceptance the answer gives the vault with the
    /// candidate as a member, over which the secrets are then redistributed.
    pub fn update_membership(self, join_request: JoinClusterEvent, upd: JoinActionUpdate) -> (r: Result<
        Option<VaultData>,
        CoreError,
    >)
        ensures
            membership_updated(
                old(self.p_obj).repo.events(),
                final(self.p_obj).repo.events(),
                (UserData { vault_name: self.user_creds.vault_name, device: self.user_creds.device_creds.device }),
                join_request,
                upd,
                r,
            ),
    {
        let ghost before = self.p_obj.repo.events();
        let user = self.user_creds.user();
        let ghost user_g = user;
        let found = (PersistentVault { p_obj: &mut *self.p_obj }).find(user);
        let ghost st = found;
        proof {
            assert(found_status(before, user_g, st));
        }
        let member = match found {
            Ok(VaultStatus::Member(m)) => m,
            Ok(_) => return Err(CoreError::NotAVaultMember),
            Err(e) => return Err(e),
        };
        let vault = match (PersistentVault { p_obj: &mut *self.p_obj }).get_vault(member.user_data.vault_name.clone()) {
            Ok(v) => v.0.value,
            Err(e) => return Err(e),
        };
        let log = match (PersistentVault { p_obj: &mut *self.p_obj }).vault_log(member.user_data.vault_name.clone()) {
            Ok(l) => l,
            Err(e) => return Err(e),
        };
        let log = match log {
            Some(l) => l,
            None => return Ok(None),
        };
        if !has_join_request(&log.0.value, &join_request) {
            return Ok(None);
        }
        let redistribution_vault = match upd {
            JoinActionUpdate::Accept => Some(
                vault.view_clone().update_membership(
                    UserMembership::Member(UserDataMember { user_data: join_request.candidate.clone() }),
                ),
            ),
            JoinActionUpdate::Decline => None,
        };
        let vm = VaultMember { member, vault };
        let ghost vm_g = vm;
        let ghost jr = join_request;
        let answered = (JoinAction { p_obj: self.p_obj, member: vm }).update(join_request, upd);
        let r = match answered {
            Ok(()) => Ok(redistribution_vault),
            Err(e) => Err(e),
        };
        proof {
            assert(join_request_answered(before, self.p_obj.repo.events(), vm_g, jr, upd, r));
        }
        r
    }
}

} // verus!
