//! The steps of sign-up and of vault membership, on the client and on the server.
use vstd::prelude::*;
use crate::collections::{views_of, ViewClone};
use crate::db::descriptors::{ObjectDescriptor, ToObjectDescriptor, VaultDescriptor, VaultLogDescriptor};
use crate::db::events::{GenericKvLogEvent, ToGenericEvent, VaultKvLogEvent, VaultLogObject, VaultObject, VaultStatusObject};
use crate::db::object_id::{ArtifactId, KvKey, KvLogEvent, Next};
use crate::error::CoreError;
use crate::events::vault_log::{
    apply_update, request_user, update_user, JoinClusterEvent, RequestView, UpdateMembershipEvent, UpdateView,
    VaultActionEvent, VaultActionEvents, VaultActionEventsView, VaultActionInitEvent, VaultActionRequestEvent,
    VaultActionUpdateEvent,
};
use crate::model::user::{
    UserData, UserDataMember, UserDataOutsider, UserDataOutsiderStatus, UserMembership, UserMembershipView,
};
use crate::model::vault::{VaultMember, VaultStatus};
use crate::model::vault_data::{apply_vault_updates, VaultData};
use crate::model::device::DeviceData;
use crate::db::generic_db::{KvLogEventRepo, SaveCommand};
use crate::db::store::{
    contiguous, free_id, has_free_id, has_next_id, law_saved_at_free_id_is_read_back, lemma_first_or_replace_keeps_contiguous,
    lemma_free_id_object, lemma_tail_event_other_insert, lemma_tail_id_object, next_id, save_all, tail_event, tail_id,
    IdView, PersistentObject,
};
use crate::db::objects::persistent_vault::{
    as_vault, as_vault_log, as_vault_status, ill_typed, is_vault, is_vault_log, saved_vault_log, vault_first,
    vault_log_first, vault_status_first, found_status, PersistentVault,
};
use crate::db::objects::persistent_device_log::{appended, device_log_first, PersistentDeviceLog};
use crate::db::descriptors::VaultStatusDescriptor;

verus! {

/// A member's answer to a join request.
#[derive(Debug, Clone, Copy, PartialEq, Eq, Structural)]
pub enum JoinActionUpdate {
    Accept,
    Decline,
}

/// The answer of the member to a join request: an error for a candidate who is a member
/// or was declined, otherwise the candidate as a member or as declined.
pub open spec fn join_answer(
    member: VaultMember,
    join_request: JoinClusterEvent,
    upd: JoinActionUpdate,
    r: Result<UpdateMembershipEvent, CoreError>,
) -> bool {
    let known = member.vault@.users.contains_key(join_request.candidate.device.device_id@);
    let current = member.vault@.users[join_request.candidate.device.device_id@];
    let user = if known { current.user() } else { join_request.candidate@ };
    &&& known && current is Member ==> r == Err::<UpdateMembershipEvent, CoreError>(CoreError::AlreadyMember)
    &&& (known && (current matches UserMembershipView::Outsider(_, s) && s == UserDataOutsiderStatus::Declined))
        ==> r == Err::<UpdateMembershipEvent, CoreError>(CoreError::JoinRequestDeclined)
    &&& (!known || (current matches UserMembershipView::Outsider(_, s) && s != UserDataOutsiderStatus::Declined))
        ==> (r matches Ok(e) && e.request == join_request && e.sender == member.member && (upd
        == JoinActionUpdate::Accept ==> e.update@ == UserMembershipView::Member(user)) && (upd
        == JoinActionUpdate::Decline ==> e.update@ == UserMembershipView::Outsider(
        user,
        UserDataOutsiderStatus::Declined,
    )))
}

/// The membership update a member sends for a join request: a candidate who is not a
/// member (or is pending) is accepted as a member or declined; a declined candidate or a
/// member cannot be answered.
pub fn join_update(member: &VaultMember, join_request: JoinClusterEvent, upd: JoinActionUpdate) -> (r: Result<
    UpdateMembershipEvent,
    CoreError,
>)
    ensures
        join_answer(*member, join_request, upd, r),
{
    let candidate_membership = member.vault.membership(join_request.candidate.clone());
    match candidate_membership {
        UserMembership::Outsider(outsider) => match outsider.status {
            UserDataOutsiderStatus::NonMember | UserDataOutsiderStatus::Pending => {
                let update = match upd {
                    JoinActionUpdate::Accept => UserMembership::Member(UserDataMember { user_data: outsider.user_data }),
                    JoinActionUpdate::Decline => UserMembership::Outsider(
                        UserDataOutsider { user_data: outsider.user_data, status: UserDataOutsiderStatus::Declined },
                    ),
                };
                Ok(UpdateMembershipEvent { request: join_request, sender: member.member.clone(), update })
            },
            UserDataOutsiderStatus::Declined => Err(CoreError::JoinRequestDeclined),
        },
        UserMembership::Member(_) => Err(CoreError::AlreadyMember),
    }
}

/// What a device does to sign up, given its status in the vault.
#[derive(Debug)]
pub enum SignUpStep {
    /// The vault does not exist: ask to create it.
    CreateVault(UserData),
    /// Not a member: ask to join.
    JoinRequest(UserData),
    /// Pending, declined or already a member: nothing to send.
    Nothing,
}

pub fn sign_up_step(status: &VaultStatus) -> (r: SignUpStep)
    ensures
        status matches VaultStatus::NotExists(u) ==> r == SignUpStep::CreateVault(*u),
        status matches VaultStatus::Outsider(o) ==> (o.status == UserDataOutsiderStatus::NonMember ==> r
            == SignUpStep::JoinRequest(o.user_data)) && (o.status != UserDataOutsiderStatus::NonMember ==> r
            == SignUpStep::Nothing),
        status is Member ==> r == SignUpStep::Nothing,
{
    match status {
        VaultStatus::NotExists(user_data) => SignUpStep::CreateVault(user_data.clone()),
        VaultStatus::Outsider(outsider) => match outsider.status {
            UserDataOutsiderStatus::NonMember => SignUpStep::JoinRequest(outsider.user_data.clone()),
            _ => SignUpStep::Nothing,
        },
        VaultStatus::Member(_) => SignUpStep::Nothing,
    }
}

/// The server's acceptance of a new vault: its empty log and the vault with its owner.
#[derive(Debug)]
pub struct SignUpAction;

impl SignUpAction {
    pub fn accept(&self, candidate: UserDataMember) -> (r: Vec<GenericKvLogEvent>)
        ensures
            r@.len() == 2,
            r@[0] matches GenericKvLogEvent::Vault(VaultKvLogEvent::VaultLog(log)) && log.0.key.obj_desc
                == ObjectDescriptor::VaultLog(VaultLogDescriptor(candidate.user_data.vault_name))
                && log.0.key.obj_id@ == vault_log_first(candidate.user_data.vault_name@)
                && log.0.value@.requests.is_empty() && log.0.value@.updates.is_empty(),
            r@[1] matches GenericKvLogEvent::Vault(VaultKvLogEvent::Vault(v)) && v.0.key.obj_desc
                == ObjectDescriptor::Vault(VaultDescriptor(candidate.user_data.vault_name))
                && v.0.key.obj_id@ == vault_first(candidate.user_data.vault_name@)
                && v.0.value@.vault_name == candidate.user_data.vault_name@ && v.0.value@.users
                == map![crate::model::keys::device_id_of(candidate.user_data.device.keys.transport_pk@)
                => UserMembershipView::Member(candidate.user_data@)] && v.0.value@.secrets.is_empty(),
    {
        let vault_name = candidate.user_data.vault_name();
        let vault_log_event = VaultLogObject::create(candidate.clone()).to_generic();
        let vault_event = VaultObject::sign_up(vault_name, candidate).to_generic();
        let mut events: Vec<GenericKvLogEvent> = Vec::new();
        events.push(vault_log_event);
        events.push(vault_event);
        events
    }
}

/// The update that the server derives from a request: a join request puts the candidate
/// on the pending list; a new password is added.
pub fn request_update(request: &VaultActionRequestEvent) -> (r: VaultActionUpdateEvent)
    ensures
        request matches VaultActionRequestEvent::JoinCluster(j) ==> r@ == UpdateView::AddToPending(j.candidate@),
        request matches VaultActionRequestEvent::AddMetaPass(e) ==> r@ == UpdateView::AddMetaPass(
            e.sender@,
            e.meta_pass_id@,
        ),
{
    match request {
        VaultActionRequestEvent::JoinCluster(join_event) => VaultActionUpdateEvent::AddToPending {
            candidate: join_event.candidate.clone(),
        },
        VaultActionRequestEvent::AddMetaPass(event) => VaultActionUpdateEvent::AddMetaPass(event.clone()),
    }
}

/// The membership whose status the server records after an update.
pub open spec fn status_update_of(u: UpdateView) -> Option<UserMembershipView> {
    match u {
        UpdateView::UpdateMembership(_, _, m) => Some(m),
        UpdateView::AddToPending(c) => Some(UserMembershipView::Outsider(c, UserDataOutsiderStatus::Pending)),
        UpdateView::AddMetaPass(..) => None,
    }
}

/// What the server stores after an update of a vault: the next state of the vault, the
/// remaining events of its log, and the membership whose status to record.
#[derive(Debug)]
pub struct VaultUpdatePlan {
    pub vault: VaultObject,
    pub events: VaultActionEvents,
    pub status_update: Option<UserMembership>,
}

pub fn plan_vault_update(vault: VaultObject, log: VaultActionEvents, update: VaultActionUpdateEvent) -> (r: VaultUpdatePlan)
    requires
        vault.0.key.obj_id.has_next(),
    ensures
        exists|applied: VaultActionEvents| #![trigger applied@]
            applied@ == apply_update(log@, update@) && r.vault.0.value@ == apply_vault_updates(
                vault.0.value@,
                views_of(applied.updates.item_seq()),
            ) && r.events@.requests == applied@.requests,
        r.events@.updates.is_empty(),
        r.vault.0.key.obj_id.fqdn == vault.0.key.obj_id.fqdn,
        r.vault.0.key.obj_id.id.curr == vault.0.key.obj_id.id.curr + 1,
        r.vault.0.key.obj_id.id.prev == vault.0.key.obj_id.id.prev + 1,
        r.vault.0.key.obj_desc matches ObjectDescriptor::Vault(d) && d.0@ == update_user(update@).vault_name,
        match status_update_of(update@) {
            Some(m) => r.status_update matches Some(s) && s@ == m,
            None => r.status_update is None,
        },
{
    let vault_name = update.vault_name();
    let status_update = match &update {
        VaultActionUpdateEvent::UpdateMembership(event) => Some(event.update.view_clone()),
        VaultActionUpdateEvent::AddMetaPass(_) => None,
        VaultActionUpdateEvent::AddToPending { candidate } => Some(
            UserMembership::Outsider(UserDataOutsider::pending(candidate.clone())),
        ),
    };
    let applied = log.apply(update);
    let ghost applied_view = applied@;
    let ghost applied_seq = views_of(applied.updates.item_seq());
    let VaultObject(KvLogEvent { key, value }) = vault;
    let agg = crate::model::vault_data::VaultAggregate::build_from(applied, value);
    let key = KvKey {
        obj_id: key.obj_id.next(),
        obj_desc: VaultDescriptor::from(vault_name).to_obj_desc(),
    };
    VaultUpdatePlan { vault: VaultObject(KvLogEvent { key, value: agg.vault }), events: agg.events, status_update }
}

/// The status event the server records for a membership, under the given free id.
pub fn vault_status_event(vault: &VaultData, update: &UserMembership, free_id: ArtifactId) -> (r: VaultStatusObject)
    ensures
        r.0.key.obj_id == free_id,
        vault@.users.contains_key(update@.user().device.device_id) ==> (match vault@.users[update@.user().device.device_id] {
            UserMembershipView::Member(u) => r.0.value@ == crate::model::vault::VaultStatusView::Member(u),
            UserMembershipView::Outsider(u, s) => r.0.value@ == crate::model::vault::VaultStatusView::Outsider(u, s),
        }),
        !vault@.users.contains_key(update@.user().device.device_id) ==> r.0.value@
            == crate::model::vault::VaultStatusView::Outsider(update@.user(), UserDataOutsiderStatus::NonMember),
{
    let status = vault.status(update.user_data());
    VaultStatusObject::new(status, free_id)
}

/// The status of a user in a vault, as the vault shows it.
pub open spec fn status_in_vault(v: crate::model::vault_data::VaultDataView, user: UserData, r: VaultStatus) -> bool {
    &&& v.users.contains_key(user.device.device_id@) ==> (match v.users[user.device.device_id@] {
        UserMembershipView::Member(u) => r@ == crate::model::vault::VaultStatusView::Member(u),
        UserMembershipView::Outsider(u, s) => r@ == crate::model::vault::VaultStatusView::Outsider(u, s),
    })
    &&& !v.users.contains_key(user.device.device_id@) ==> r == VaultStatus::Outsider(
        UserDataOutsider { user_data: user, status: UserDataOutsiderStatus::NonMember },
    )
}

/// The status of the user from the local copies of its vault and of its status: the vault
/// decides when it is there; without the vault the stored status does (the vault does not
/// exist, or the user is an outsider). Neither of them means the store was never
/// synchronised; a vault without a status is an inconsistent store.
pub fn find_status(vault: Option<VaultObject>, status: Option<VaultStatusObject>, user: UserData) -> (r: Result<
    VaultStatus,
    CoreError,
>)
    ensures
        (vault is None && status is None) ==> r == Err::<VaultStatus, CoreError>(CoreError::VaultStatusMissing),
        (vault is Some && status is None) ==> r == Err::<VaultStatus, CoreError>(CoreError::VaultWithoutStatus),
        vault is None ==> (status matches Some(s) ==> r == Ok::<VaultStatus, CoreError>(s.0.value)),
        vault matches Some(v) ==> (status is Some ==> (r matches Ok(st) && status_in_vault(v.0.value@, user, st))),
{
    match (vault, status) {
        (None, None) => Err(CoreError::VaultStatusMissing),
        (Some(_), None) => Err(CoreError::VaultWithoutStatus),
        (None, Some(status)) => Ok(status.status()),
        (Some(vault_obj), Some(_)) => Ok(vault_obj.to_data().status(user)),
    }
}

/// Whether the status the vault gives the user differs from the stored one.
pub open spec fn st_differs(v: crate::model::vault_data::VaultDataView, user: UserData, stored: crate::model::vault::VaultStatusView) -> bool {
    if v.users.contains_key(user.device.device_id@) {
        match v.users[user.device.device_id@] {
            UserMembershipView::Member(u) => crate::model::vault::VaultStatusView::Member(u) != stored,
            UserMembershipView::Outsider(u, s) => crate::model::vault::VaultStatusView::Outsider(u, s) != stored,
        }
    } else {
        VaultStatus::Outsider(UserDataOutsider { user_data: user, status: UserDataOutsiderStatus::NonMember })@ != stored
    }
}

/// What the server records about a user's status, from its vault and stored status: the
/// status to answer, and the status event to save when the stored one is missing or
/// out of date.
pub fn refresh_status(
    vault: Option<VaultObject>,
    stored: Option<VaultStatusObject>,
    user: UserData,
    first_key: KvKey,
) -> (r: Result<(VaultStatus, Option<VaultStatusObject>), CoreError>)
    ensures
        match vault {
            None => match stored {
                None => r matches Ok((st, Some(obj))) && st == VaultStatus::NotExists(user) && obj.0.value
                    == VaultStatus::NotExists(user) && obj.0.key == first_key,
                Some(s) => (s.0.value is NotExists ==> r == Ok::<(VaultStatus, Option<VaultStatusObject>), CoreError>(
                    (s.0.value, None),
                )) && (!(s.0.value is NotExists) ==> r == Err::<(VaultStatus, Option<VaultStatusObject>), CoreError>(
                    CoreError::InvalidMembershipState,
                )),
            },
            Some(v) => match stored {
                None => r matches Ok((st, Some(obj))) && status_in_vault(v.0.value@, user, st) && obj.0.value@ == st@
                    && obj.0.key == first_key,
                Some(s) => (st_differs(v.0.value@, user, s.0.value@) && !s.0.key.obj_id.has_next()) ==> r == Err::<
                    (VaultStatus, Option<VaultStatusObject>),
                    CoreError,
                >(CoreError::IdExhausted),
            },
        },
        match vault {
            None => true,
            Some(v) => match stored {
                None => true,
                Some(s) => (!st_differs(v.0.value@, user, s.0.value@) || s.0.key.obj_id.has_next()) ==> (r matches Ok(
                    (st, saved),
                ) && status_in_vault(v.0.value@, user, st) && (st@ == s.0.value@
                    ==> saved is None) && (st@ != s.0.value@ ==> (saved matches Some(obj) && obj.0.value@ == st@
                    && obj.0.key.obj_desc == s.0.key.obj_desc && obj.0.key.obj_id.fqdn == s.0.key.obj_id.fqdn
                    && obj.0.key.obj_id.id.curr == s.0.key.obj_id.id.curr + 1 && obj.0.key.obj_id.id.prev
                    == s.0.key.obj_id.id.prev + 1))),
            },
        },
{
    match (vault, stored) {
        (None, None) => {
            let curr_status = VaultStatus::NotExists(user.clone());
            let obj = VaultStatusObject(KvLogEvent { key: first_key, value: VaultStatus::NotExists(user) });
            Ok((curr_status, Some(obj)))
        },
        (None, Some(status)) => {
            match status.0.value {
                VaultStatus::NotExists(_) => Ok((status.status(), None)),
                _ => Err(CoreError::InvalidMembershipState),
            }
        },
        (Some(vault_obj), None) => {
            let status = vault_obj.to_data().status(user);
            let obj = VaultStatusObject(KvLogEvent { key: first_key, value: status.clone() });
            Ok((status, Some(obj)))
        },
        (Some(vault_obj), Some(membership)) => {
            let vault_info = vault_obj.to_data().status(user);
            let VaultStatusObject(KvLogEvent { key, value }) = membership;
            if vault_info != value {
                if !key.obj_id.can_advance() {
                    return Err(CoreError::IdExhausted);
                }
                let obj = VaultStatusObject(KvLogEvent { key: key.next(), value: vault_info.clone() });
                Ok((vault_info, Some(obj)))
            } else {
                Ok((vault_info, None))
            }
        },
    }
}

/// `after` is `before` with the new vault of the owner: its empty log at the log's first
/// id, and the vault, with the owner as its only member, at the vault's first id.
pub open spec fn created_vault(
    before: Map<IdView, GenericKvLogEvent>,
    after: Map<IdView, GenericKvLogEvent>,
    owner: UserDataMember,
) -> bool {
    let n = owner.user_data.vault_name@;
    &&& after == before.insert(vault_log_first(n), after[vault_log_first(n)]).insert(vault_first(n), after[vault_first(n)])
    &&& as_vault_log(after[vault_log_first(n)]) matches Some(l)
    &&& l.0.key.obj_id@ == vault_log_first(n)
    &&& l.0.value@.requests.is_empty()
    &&& l.0.value@.updates.is_empty()
    &&& as_vault(after[vault_first(n)]) matches Some(v)
    &&& v.0.key.obj_id@ == vault_first(n)
    &&& v.0.value@.vault_name == n
    &&& v.0.value@.users == map![crate::model::keys::device_id_of(owner.user_data.device.keys.transport_pk@)
        => UserMembershipView::Member(owner.user_data@)]
    &&& v.0.value@.secrets.is_empty()
}

/// The server's creation of a vault.
pub struct CreateVaultAction<'a, Repo: KvLogEventRepo> {
    pub p_obj: &'a mut PersistentObject<Repo>,
    pub server_device: DeviceData,
}

impl<'a, Repo: KvLogEventRepo> CreateVaultAction<'a, Repo> {
    /// Create the owner's vault unless it exists: a vault that exists already has the
    /// request in its log, and nothing more is done.
    pub fn create(self, owner: UserDataMember) -> (r: Result<(), CoreError>)
        ensures
            ({
                let before = old(self.p_obj).repo.events();
                let after = final(self.p_obj).repo.events();
                let vt = tail_event(before, vault_first(owner.user_data.vault_name@));
                &&& ill_typed(vt, |e| is_vault(e)) ==> (r == Err::<(), CoreError>(CoreError::WrongEventType) && after
                    == before)
                &&& (vt is Some && !ill_typed(vt, |e| is_vault(e))) ==> (r is Ok && after == before)
                &&& vt is None ==> (r is Ok && created_vault(before, after, owner))
            }),
    {
        let exists = PersistentVault { p_obj: &mut *self.p_obj }.vault_exists(owner.user_data.vault_name());
        match exists {
            Err(e) => Err(e),
            Ok(true) => Ok(()),
            Ok(false) => {
                Self::create_vault(self.p_obj, owner);
                Ok(())
            },
        }
    }

    /// Save the events of the new vault, in order.
    fn create_vault(p_obj: &mut PersistentObject<Repo>, candidate: UserDataMember)
        ensures
            created_vault(old(p_obj).repo.events(), final(p_obj).repo.events(), candidate),
    {
        let sign_up_action = SignUpAction;
        let sign_up_events = sign_up_action.accept(candidate);
        let ghost orig = sign_up_events@;
        let ghost start = p_obj.repo.events();
        let n = sign_up_events.len();
        let mut rest = sign_up_events;
        let mut i: usize = 0;
        while rest.len() > 0
            invariant
                i + rest@.len() == orig.len(),
                orig.len() == n,
                rest@ == orig.skip(i as int),
                p_obj.repo.events() == save_all(start, orig.take(i as int)),
            decreases rest.len(),
        {
            let sign_up_event = rest.remove(0);
            let _ = p_obj.repo.save(sign_up_event);
            proof {
                assert(orig.take(i + 1).drop_last() =~= orig.take(i as int));
                assert(orig.take(i + 1).last() == orig[i as int]);
                assert(rest@ =~= orig.skip(i + 1));
            }
            i = i + 1;
        }
        proof {
            assert(orig.take(i as int) =~= orig);
            assert(orig.drop_last().drop_last() =~= Seq::<GenericKvLogEvent>::empty());
            assert(orig.drop_last().last() == orig[0]);
            let name = candidate.user_data.vault_name@;
            reveal_strlit("VaultLog");
            reveal_strlit("Vault");
            assert(vault_log_first(name) != vault_first(name)) by {
                assert(vault_log_first(name).0.0.len() != vault_first(name).0.0.len());
            }
            let after = p_obj.repo.events();
            assert(orig.last() == orig[1]);
            assert(orig[0].key_of().obj_id@ == vault_log_first(name));
            assert(orig[1].key_of().obj_id@ == vault_first(name));
            assert(save_all(start, orig.drop_last().drop_last()) == start);
            assert(save_all(start, orig.drop_last()) == start.insert(vault_log_first(name), orig[0]));
            assert(after == start.insert(vault_log_first(name), orig[0]).insert(vault_first(name), orig[1]));
            assert(after =~= start.insert(vault_log_first(name), after[vault_log_first(name)]).insert(
                vault_first(name),
                after[vault_first(name)],
            ));
        }
    }
}

/// The status a vault gives a user.
pub open spec fn status_view_in(
    v: crate::model::vault_data::VaultDataView,
    u: crate::model::user::UserDataView,
) -> crate::model::vault::VaultStatusView {
    if v.users.contains_key(u.device.device_id) {
        match v.users[u.device.device_id] {
            UserMembershipView::Member(x) => crate::model::vault::VaultStatusView::Member(x),
            UserMembershipView::Outsider(x, st) => crate::model::vault::VaultStatusView::Outsider(x, st),
        }
    } else {
        crate::model::vault::VaultStatusView::Outsider(u, UserDataOutsiderStatus::NonMember)
    }
}

/// Why the store cannot take the update of the vault, if it cannot: the vault and its log
/// must be there, with their types, with room for one more event each, and so must the
/// status of the user whose membership the update changes.
pub open spec fn update_error(before: Map<IdView, GenericKvLogEvent>, upd: UpdateView) -> Option<CoreError> {
    let n = update_user(upd).vault_name;
    let vf = vault_first(n);
    let lf = vault_log_first(n);
    match tail_event(before, vf) {
        None => Some(CoreError::ObjectNotFound),
        Some(ve) => if !is_vault(ve) {
            Some(CoreError::WrongEventType)
        } else {
            match tail_event(before, lf) {
                None => Some(CoreError::ObjectNotFound),
                Some(le) => if !is_vault_log(le) {
                    Some(CoreError::WrongEventType)
                } else if !has_next_id(tail_id(before.dom(), vf)) || !has_next_id(tail_id(before.dom(), lf)) {
                    Some(CoreError::IdExhausted)
                } else {
                    match status_update_of(upd) {
                        Some(m) => if has_free_id(before, vault_status_first(m.user().device.device_id)) {
                            None
                        } else {
                            Some(CoreError::IdExhausted)
                        },
                        None => None,
                    }
                },
            }
        },
    }
}

/// `after` is `before` with the update applied: the vault's next state after its last one,
/// built from the log with the update recorded; the log's next entry, with the requests
/// still pending and no update left to apply; and, when the update changes a membership,
/// the user's next status as the new vault gives it.
pub open spec fn vault_updated(
    before: Map<IdView, GenericKvLogEvent>,
    after: Map<IdView, GenericKvLogEvent>,
    upd: UpdateView,
) -> bool {
    let n = update_user(upd).vault_name;
    let vf = vault_first(n);
    let lf = vault_log_first(n);
    let vk = next_id(tail_id(before.dom(), vf));
    let lk = next_id(tail_id(before.dom(), lf));
    match (tail_event(before, vf), tail_event(before, lf)) {
        (Some(ve), Some(le)) => match (as_vault(ve), as_vault_log(le)) {
            (Some(v), Some(l)) => {
                &&& as_vault(after[vk]) matches Some(nv)
                &&& as_vault_log(after[lk]) matches Some(nl)
                &&& nv.0.key.obj_id@ == vk
                &&& nl.0.key.obj_id@ == lk
                &&& exists|applied: VaultActionEvents| #![trigger applied@]
                    applied@ == apply_update(l.0.value@, upd) && nv.0.value@ == apply_vault_updates(
                        v.0.value@,
                        views_of(applied.updates.item_seq()),
                    ) && nl.0.value@.requests == applied@.requests
                &&& nl.0.value@.updates.is_empty()
                &&& match status_update_of(upd) {
                    None => after == before.insert(vk, after[vk]).insert(lk, after[lk]),
                    Some(m) => {
                        let sk = free_id(before, vault_status_first(m.user().device.device_id));
                        &&& after == before.insert(vk, after[vk]).insert(lk, after[lk]).insert(sk, after[sk])
                        &&& as_vault_status(after[sk]) matches Some(so)
                        &&& so.0.key.obj_id@ == sk
                        &&& so.0.value@ == status_view_in(nv.0.value@, m.user())
                    },
                }
            },
            _ => false,
        },
        _ => false,
    }
}

/// Why the vault's log cannot take one more entry, if it cannot.
pub open spec fn log_append_error(before: Map<IdView, GenericKvLogEvent>, name: Seq<char>) -> Option<CoreError> {
    match tail_event(before, vault_log_first(name)) {
        None => Some(CoreError::ObjectNotFound),
        Some(e) => if !is_vault_log(e) {
            Some(CoreError::WrongEventType)
        } else if !has_next_id(tail_id(before.dom(), vault_log_first(name))) {
            Some(CoreError::IdExhausted)
        } else {
            None
        },
    }
}

/// `after` is `before` with the log's next entry: its last entry with the request added.
pub open spec fn logged_request(
    before: Map<IdView, GenericKvLogEvent>,
    after: Map<IdView, GenericKvLogEvent>,
    q: RequestView,
) -> bool {
    let lf = vault_log_first(request_user(q).vault_name);
    match tail_event(before, lf) {
        Some(e) => match as_vault_log(e) {
            Some(o) => saved_vault_log(
                before,
                after,
                next_id(tail_id(before.dom(), lf)),
                VaultActionEventsView { requests: o.0.value@.requests.insert(q), updates: o.0.value@.updates },
            ),
            None => false,
        },
        None => false,
    }
}

/// `after` is `before` with the log's next entry: its last entry with the update recorded.
pub open spec fn logged_update(before: Map<IdView, GenericKvLogEvent>, after: Map<IdView, GenericKvLogEvent>, u: UpdateView) -> bool {
    let lf = vault_log_first(update_user(u).vault_name);
    match tail_event(before, lf) {
        Some(e) => match as_vault_log(e) {
            Some(o) => saved_vault_log(before, after, next_id(tail_id(before.dom(), lf)), apply_update(o.0.value@, u)),
            None => false,
        },
        None => false,
    }
}

/// What applying the update does to the store: nothing and the error when it cannot be
/// applied, the updated vault otherwise.
pub open spec fn update_outcome(
    before: Map<IdView, GenericKvLogEvent>,
    after: Map<IdView, GenericKvLogEvent>,
    upd: UpdateView,
    r: Result<(), CoreError>,
) -> bool {
    match update_error(before, upd) {
        Some(e) => r == Err::<(), CoreError>(e) && after == before,
        None => r is Ok && vault_updated(before, after, upd),
    }
}

/// What recording a request in the log and then acting on it does to the store.
pub open spec fn request_outcome(
    before: Map<IdView, GenericKvLogEvent>,
    after: Map<IdView, GenericKvLogEvent>,
    q: RequestView,
    r: Result<(), CoreError>,
    then: spec_fn(Map<IdView, GenericKvLogEvent>, Map<IdView, GenericKvLogEvent>, Result<(), CoreError>) -> bool,
) -> bool {
    match log_append_error(before, request_user(q).vault_name) {
        Some(e) => r == Err::<(), CoreError>(e) && after == before,
        None => exists|mid: Map<IdView, GenericKvLogEvent>| #[trigger] logged_request(before, mid, q) && then(mid, after, r),
    }
}

/// What the server does with a new password after recording its request: the update is
/// recorded in the log, then applied.
pub open spec fn meta_pass_outcome(
    before: Map<IdView, GenericKvLogEvent>,
    after: Map<IdView, GenericKvLogEvent>,
    u: UpdateView,
    r: Result<(), CoreError>,
) -> bool {
    match log_append_error(before, update_user(u).vault_name) {
        Some(e) => r == Err::<(), CoreError>(e) && after == before,
        None => exists|mid: Map<IdView, GenericKvLogEvent>| #[trigger] logged_update(before, mid, u) && update_outcome(
            mid,
            after,
            u,
            r,
        ),
    }
}

/// What processing an event of a vault does to the store.
pub open spec fn processed(
    before: Map<IdView, GenericKvLogEvent>,
    after: Map<IdView, GenericKvLogEvent>,
    event: VaultActionEvent,
    r: Result<(), CoreError>,
) -> bool {
    match event {
        VaultActionEvent::Init(VaultActionInitEvent::CreateVault(e)) => {
            let vt = tail_event(before, vault_first(e.owner.user_data.vault_name@));
            &&& ill_typed(vt, |x| is_vault(x)) ==> (r == Err::<(), CoreError>(CoreError::WrongEventType) && after == before)
            &&& (vt is Some && !ill_typed(vt, |x| is_vault(x))) ==> (r is Ok && after == before)
            &&& vt is None ==> (r is Ok && created_vault(before, after, e.owner))
        },
        VaultActionEvent::Update(u) => update_outcome(before, after, u@, r),
        VaultActionEvent::Request(VaultActionRequestEvent::JoinCluster(j)) => request_outcome(
            before,
            after,
            VaultActionRequestEvent::JoinCluster(j)@,
            r,
            |m: Map<IdView, GenericKvLogEvent>, a: Map<IdView, GenericKvLogEvent>, res: Result<(), CoreError>|
                update_outcome(m, a, UpdateView::AddToPending(j.candidate@), res),
        ),
        VaultActionEvent::Request(VaultActionRequestEvent::AddMetaPass(p)) => request_outcome(
            before,
            after,
            VaultActionRequestEvent::AddMetaPass(p)@,
            r,
            |m: Map<IdView, GenericKvLogEvent>, a: Map<IdView, GenericKvLogEvent>, res: Result<(), CoreError>|
                meta_pass_outcome(m, a, VaultActionUpdateEvent::AddMetaPass(p)@, res),
        ),
    }
}

/// The server's processing of the events of a vault.
pub struct ServerVaultAction<'a, Repo: KvLogEventRepo> {
    pub p_obj: &'a mut PersistentObject<Repo>,
    pub server_device: DeviceData,
}

impl<'a, Repo: KvLogEventRepo> ServerVaultAction<'a, Repo> {
    /// Process an event of a vault, in the order the device logs delivered it: a new vault
    /// is created; a request is recorded in the vault's log first (which orders requests
    /// from several devices), then a join request puts the candidate on the pending list
    /// and a new password is recorded and added; an update is applied.
    pub fn do_processing(self, action_event: VaultActionEvent) -> (r: Result<(), CoreError>)
        ensures
            processed(old(self.p_obj).repo.events(), final(self.p_obj).repo.events(), action_event, r),
    {
        let ghost before = self.p_obj.repo.events();
        match action_event {
            VaultActionEvent::Init(VaultActionInitEvent::CreateVault(create_vault_event)) => {
                let action = CreateVaultAction { p_obj: self.p_obj, server_device: self.server_device };
                action.create(create_vault_event.owner)
            },
            VaultActionEvent::Request(action_request) => {
                let ghost q = action_request@;
                match (PersistentVault { p_obj: &mut *self.p_obj }).save_vault_log_request_event(action_request.clone()) {
                    Ok(()) => {},
                    Err(e) => return Err(e),
                }
                let ghost mid = self.p_obj.repo.events();
                match action_request {
                    VaultActionRequestEvent::JoinCluster(join_event) => {
                        let upd = VaultActionUpdateEvent::AddToPending { candidate: join_event.candidate };
                        let res = Self::handle_update(self.p_obj, upd);
                        proof {
                            assert(logged_request(before, mid, q));
                        }
                        res
                    },
                    VaultActionRequestEvent::AddMetaPass(add_meta_pass_event) => {
                        let vault_name = add_meta_pass_event.sender.user_data.vault_name();
                        let upd = VaultActionUpdateEvent::AddMetaPass(add_meta_pass_event);
                        let log = match (PersistentVault { p_obj: &mut *self.p_obj }).get_vault_log_artifact(
                            vault_name.clone(),
                        ) {
                            Ok(l) => l,
                            Err(e) => {
                                proof {
                                    assert(logged_request(before, mid, q));
                                    assert(meta_pass_outcome(mid, self.p_obj.repo.events(), upd@, Err::<(), CoreError>(e)));
                                }
                                return Err(e);
                            },
                        };
                        let vault_action_events = log.0.value.apply(upd.clone());
                        let ghost u = upd@;
                        match (PersistentVault { p_obj: &mut *self.p_obj }).save_vault_log_events(
                            vault_action_events,
                            vault_name,
                        ) {
                            Ok(()) => {},
                            Err(e) => {
                                proof {
                                    assert(logged_request(before, mid, q));
                                    assert(meta_pass_outcome(mid, self.p_obj.repo.events(), u, Err::<(), CoreError>(e)));
                                }
                                return Err(e);
                            },
                        }
                        let ghost mid2 = self.p_obj.repo.events();
                        proof {
                            assert(logged_update(mid, mid2, u));
                        }
                        let res = Self::handle_update(self.p_obj, upd);
                        proof {
                            assert(logged_request(before, mid, q));
                            assert(meta_pass_outcome(mid, self.p_obj.repo.events(), u, res));
                        }
                        res
                    },
                }
            },
            VaultActionEvent::Update(action_update) => Self::handle_update(self.p_obj, action_update),
        }
    }

    /// Apply the update: the vault's next state, the log's next entry and the status of the
    /// user whose membership changes; nothing is stored when the update cannot be applied.
    fn handle_update(p_obj: &mut PersistentObject<Repo>, action_update: VaultActionUpdateEvent) -> (r: Result<(), CoreError>)
        ensures
            update_error(old(p_obj).repo.events(), action_update@) matches Some(e) ==> (r == Err::<(), CoreError>(e)
                && final(p_obj).repo.events() == old(p_obj).repo.events()),
            update_error(old(p_obj).repo.events(), action_update@) is None ==> (r is Ok && vault_updated(
                old(p_obj).repo.events(),
                final(p_obj).repo.events(),
                action_update@,
            )),
    {
        let ghost before = p_obj.repo.events();
        let ghost upd = action_update@;
        let ghost n = update_user(upd).vault_name;
        let vault_name = action_update.vault_name();
        let vault = match (PersistentVault { p_obj: &mut *p_obj }).get_vault(vault_name.clone()) {
            Ok(v) => v,
            Err(e) => return Err(e),
        };
        let log = match (PersistentVault { p_obj: &mut *p_obj }).get_vault_log_artifact(vault_name.clone()) {
            Ok(l) => l,
            Err(e) => return Err(e),
        };
        if !vault.0.key.obj_id.can_advance() {
            return Err(CoreError::IdExhausted);
        }
        if !log.0.key.obj_id.can_advance() {
            return Err(CoreError::IdExhausted);
        }
        let ghost v_obj = vault;
        let ghost l_obj = log;
        let VaultLogObject(KvLogEvent { key: _, value: log_events }) = log;
        let plan = plan_vault_update(vault, log_events, action_update);
        let VaultUpdatePlan { vault: vault_event, events, status_update } = plan;
        let status_id = match &status_update {
            Some(m) => match p_obj.find_free_id_by_obj_desc(VaultStatusDescriptor::from(m.user_data().user_id())) {
                Ok(id) => Some(id),
                Err(e) => return Err(e),
            },
            None => None,
        };
        let vault_data = vault_event.0.value.view_clone();
        let ghost v_event = vault_event;
        let ghost vk = vault_event.0.key.obj_id@;
        let ghost log_view = events@;
        proof {
            reveal_strlit("VaultLog");
            reveal_strlit("Vault");
            reveal_strlit("VaultStatus");
            lemma_tail_id_object(before.dom(), vault_first(n));
            lemma_tail_id_object(before.dom(), vault_log_first(n));
            assert(vk == next_id(tail_id(before.dom(), vault_first(n))));
            assert(vault_log_first(n).0 != vk.0) by {
                assert(vault_log_first(n).0.0.len() != vk.0.0.len());
            }
        }
        let _ = p_obj.repo.save(vault_event.to_generic());
        let ghost mid = p_obj.repo.events();
        proof {
            lemma_tail_event_other_insert(before, vault_log_first(n), vk, mid[vk]);
            assert(mid == before.insert(vk, mid[vk]));
        }
        match (PersistentVault { p_obj: &mut *p_obj }).save_vault_log_events(events, vault_name) {
            Ok(()) => {},
            Err(e) => return Err(e),
        }
        let ghost lk = next_id(tail_id(before.dom(), vault_log_first(n)));
        let ghost after2 = p_obj.repo.events();
        proof {
            assert(lk.0 == vault_log_first(n).0);
            assert(lk != vk) by {
                assert(lk.0.0.len() != vk.0.0.len());
            }
            assert(after2 =~= before.insert(vk, after2[vk]).insert(lk, after2[lk]));
        }
        match status_update {
            Some(update) => {
                let free_id = match status_id {
                    Some(id) => id,
                    None => return Err(CoreError::IdExhausted),
                };
                let ghost sk = free_id@;
                proof {
                    lemma_free_id_object(before, vault_status_first(update@.user().device.device_id));
                    assert(sk != vk) by {
                        assert(sk.0.0.len() != vk.0.0.len());
                    }
                    assert(sk != lk) by {
                        assert(sk.0.0.len() != lk.0.0.len());
                    }
                }
                Self::update_vault_status(p_obj, &vault_data, &update, free_id);
                proof {
                    let after = p_obj.repo.events();
                    assert(after =~= before.insert(vk, after[vk]).insert(lk, after[lk]).insert(sk, after[sk]));
                }
            },
            None => {},
        }
        Ok(())
    }

    /// Record the status the vault gives the user of the membership, under the free id.
    fn update_vault_status(
        p_obj: &mut PersistentObject<Repo>,
        vault: &VaultData,
        update: &UserMembership,
        free_id: ArtifactId,
    )
        ensures
            final(p_obj).repo.events() == old(p_obj).repo.events().insert(free_id@, final(p_obj).repo.events()[free_id@]),
            as_vault_status(final(p_obj).repo.events()[free_id@]) matches Some(so) && so.0.key.obj_id@ == free_id@
                && so.0.value@ == status_view_in(vault@, update@.user()),
    {
        let event = vault_status_event(vault, update, free_id);
        let _ = p_obj.repo.save(event.to_generic());
    }
}

/// Once the server has created a vault that had no event yet, the vault it stores last
/// counts its owner as a member.
pub proof fn law_created_vault_counts_owner_as_member(
    before: Map<IdView, GenericKvLogEvent>,
    after: Map<IdView, GenericKvLogEvent>,
    owner: UserDataMember,
)
    requires
        created_vault(before, after, owner),
        owner.user_data.device.device_id@ == crate::model::keys::device_id_of(
            owner.user_data.device.keys.transport_pk@,
        ),
        forall|k: IdView| #[trigger] before.contains_key(k) ==> k.0 != vault_first(owner.user_data.vault_name@).0,
    ensures
        tail_event(after, vault_first(owner.user_data.vault_name@)) matches Some(e) && as_vault(e) matches Some(v)
            && status_view_in(v.0.value@, owner.user_data@) == crate::model::vault::VaultStatusView::Member(
            owner.user_data@,
        ),
{
    let n = owner.user_data.vault_name@;
    let vf = vault_first(n);
    reveal_strlit("VaultLog");
    reveal_strlit("Vault");
    assert(vault_log_first(n).0 != vf.0) by {
        assert(vault_log_first(n).0.0.len() != vf.0.0.len());
    }
    assert(!after.contains_key(next_id(vf)));
    assert(tail_id(after.dom(), vf) == vf);
}

/// Whether the device log has no room for the request a sign-up with the status sends.
pub open spec fn sign_up_blocked(before: Map<IdView, GenericKvLogEvent>, st: VaultStatus) -> bool {
    match st {
        VaultStatus::NotExists(u) => !has_free_id(before, device_log_first(u.device.device_id@)),
        VaultStatus::Outsider(o) => o.status == UserDataOutsiderStatus::NonMember && !has_free_id(
            before,
            device_log_first(o.user_data.device.device_id@),
        ),
        VaultStatus::Member(_) => false,
    }
}

/// The device's sign-up request, from its status in the vault.
pub struct SignUpClaim<'a, Repo: KvLogEventRepo> {
    pub p_obj: &'a mut PersistentObject<Repo>,
}

impl<'a, Repo: KvLogEventRepo> SignUpClaim<'a, Repo> {
    /// Sign up once the store is synchronised: a vault that does not exist is asked to be
    /// created, a non-member asks to join; a pending, declined or member device sends
    /// nothing. The status read is returned.
    pub fn sign_up(self, user_data: UserData) -> (r: Result<VaultStatus, CoreError>)
        ensures
            ({
                let before = old(self.p_obj).repo.events();
                let after = final(self.p_obj).repo.events();
                &&& r is Err ==> after == before
                &&& forall|e: CoreError| #[trigger] found_status(before, user_data, Err::<VaultStatus, CoreError>(e)) ==> r
                    == Err::<VaultStatus, CoreError>(e)
                &&& match r {
                    Ok(st) => found_status(before, user_data, Ok::<VaultStatus, CoreError>(st)) && match st {
                        VaultStatus::NotExists(u) => appended(
                            before,
                            after,
                            u.device.device_id@,
                            VaultActionEvent::Init(
                                VaultActionInitEvent::CreateVault(
                                    crate::events::vault_log::CreateVaultEvent { owner: UserDataMember { user_data: u } },
                                ),
                            ),
                            Ok::<(), CoreError>(()),
                        ),
                        VaultStatus::Outsider(o) => if o.status == UserDataOutsiderStatus::NonMember {
                            appended(
                                before,
                                after,
                                o.user_data.device.device_id@,
                                VaultActionEvent::Request(
                                    VaultActionRequestEvent::JoinCluster(JoinClusterEvent { candidate: o.user_data }),
                                ),
                                Ok::<(), CoreError>(()),
                            )
                        } else {
                            after == before
                        },
                        VaultStatus::Member(_) => after == before,
                    },
                    Err(e) => found_status(before, user_data, Err::<VaultStatus, CoreError>(e)) || (e
                        == CoreError::IdExhausted && exists|st: VaultStatus| #[trigger]
                        found_status(before, user_data, Ok::<VaultStatus, CoreError>(st)) && sign_up_blocked(before, st)),
                }
            }),
    {
        let ghost before = self.p_obj.repo.events();
        let vault_status = match (PersistentVault { p_obj: &mut *self.p_obj }).find(user_data) {
            Ok(s) => s,
            Err(e) => return Err(e),
        };
        match sign_up_step(&vault_status) {
            SignUpStep::CreateVault(user) => {
                match (PersistentDeviceLog { p_obj: &mut *self.p_obj }).save_create_vault_request(&user) {
                    Ok(()) => {},
                    Err(e) => return Err(e),
                }
            },
            SignUpStep::JoinRequest(user) => {
                match (PersistentDeviceLog { p_obj: &mut *self.p_obj }).save_join_request(&user) {
                    Ok(()) => {},
                    Err(e) => return Err(e),
                }
            },
            SignUpStep::Nothing => {},
        }
        Ok(vault_status)
    }
}

/// A member's answer to a join request, sent through its device log.
pub struct JoinAction<'a, Repo: KvLogEventRepo> {
    pub p_obj: &'a mut PersistentObject<Repo>,
    pub member: VaultMember,
}

impl<'a, Repo: KvLogEventRepo> JoinAction<'a, Repo> {
    /// Accept or decline the candidate: the answer goes to the member's device log; a
    /// candidate who is a member or was declined cannot be answered.
    pub fn update(self, join_request: JoinClusterEvent, upd: JoinActionUpdate) -> (r: Result<(), CoreError>)
        ensures
            ({
                let before = old(self.p_obj).repo.events();
                let after = final(self.p_obj).repo.events();
                ||| exists|e: CoreError| #[trigger]
                    join_answer(self.member, join_request, upd, Err::<UpdateMembershipEvent, CoreError>(e)) && r
                        == Err::<(), CoreError>(e) && after == before
                ||| exists|ev: UpdateMembershipEvent| #[trigger]
                    join_answer(self.member, join_request, upd, Ok::<UpdateMembershipEvent, CoreError>(ev)) && appended(
                        before,
                        after,
                        self.member.member.user_data.device.device_id@,
                        VaultActionEvent::Update(VaultActionUpdateEvent::UpdateMembership(ev)),
                        r,
                    )
            }),
    {
        let update_event = match join_update(&self.member, join_request, upd) {
            Ok(ev) => ev,
            Err(e) => return Err(e),
        };
        PersistentDeviceLog { p_obj: self.p_obj }.save_updated_membership_event(update_event)
    }
}

proof fn lemma_saved_log_keeps_contiguous(
    before: Map<IdView, GenericKvLogEvent>,
    after: Map<IdView, GenericKvLogEvent>,
    name: Seq<char>,
    value: VaultActionEventsView,
)
    requires
        contiguous(before),
        before.contains_key(vault_log_first(name)),
        has_next_id(tail_id(before.dom(), vault_log_first(name))),
        saved_vault_log(before, after, next_id(tail_id(before.dom(), vault_log_first(name))), value),
    ensures
        contiguous(after),
{
    let k = next_id(tail_id(before.dom(), vault_log_first(name)));
    law_saved_at_free_id_is_read_back(before, vault_log_first(name), after[k]);
}

proof fn lemma_vault_updated_keeps_contiguous(
    before: Map<IdView, GenericKvLogEvent>,
    after: Map<IdView, GenericKvLogEvent>,
    upd: UpdateView,
)
    requires
        contiguous(before),
        update_error(before, upd) is None,
        vault_updated(before, after, upd),
    ensures
        contiguous(after),
{
    let n = update_user(upd).vault_name;
    let vf = vault_first(n);
    let lf = vault_log_first(n);
    let vk = next_id(tail_id(before.dom(), vf));
    let lk = next_id(tail_id(before.dom(), lf));
    reveal_strlit("VaultLog");
    reveal_strlit("Vault");
    reveal_strlit("VaultStatus");
    let m1 = before.insert(vk, after[vk]);
    law_saved_at_free_id_is_read_back(before, vf, after[vk]);
    lemma_tail_id_object(before.dom(), vf);
    assert(vk.0 != lf.0) by {
        assert(vk.0.0.len() != lf.0.0.len());
    }
    lemma_tail_event_other_insert(before, lf, vk, after[vk]);
    let m2 = m1.insert(lk, after[lk]);
    law_saved_at_free_id_is_read_back(m1, lf, after[lk]);
    match status_update_of(upd) {
        None => {
            assert(after == m2);
        },
        Some(m) => {
            let sf = vault_status_first(m.user().device.device_id);
            let sk = free_id(before, sf);
            assert(vk.0 != sf.0) by {
                assert(vk.0.0.len() != sf.0.0.len());
            }
            lemma_tail_id_object(before.dom(), lf);
            assert(lk.0 != sf.0) by {
                assert(lk.0.0.len() != sf.0.0.len());
            }
            lemma_tail_event_other_insert(before, sf, vk, after[vk]);
            lemma_tail_event_other_insert(m1, sf, lk, after[lk]);
            law_saved_at_free_id_is_read_back(m2, sf, after[sk]);
            assert(after == m2.insert(sk, after[sk]));
        },
    }
}

proof fn lemma_update_outcome_keeps_contiguous(
    before: Map<IdView, GenericKvLogEvent>,
    after: Map<IdView, GenericKvLogEvent>,
    upd: UpdateView,
    r: Result<(), CoreError>,
)
    requires
        contiguous(before),
        update_outcome(before, after, upd, r),
    ensures
        contiguous(after),
{
    if update_error(before, upd) is None {
        lemma_vault_updated_keeps_contiguous(before, after, upd);
    }
}

/// Whatever the server makes of an event of a vault, a store whose objects are stored one
/// after the other from their first ids stays so: every event it stores goes under the
/// free id of its object, or is an object's first.
pub proof fn law_processing_keeps_store_contiguous(
    before: Map<IdView, GenericKvLogEvent>,
    after: Map<IdView, GenericKvLogEvent>,
    event: VaultActionEvent,
    r: Result<(), CoreError>,
)
    requires
        contiguous(before),
        processed(before, after, event, r),
    ensures
        contiguous(after),
{
    match event {
        VaultActionEvent::Init(VaultActionInitEvent::CreateVault(e)) => {
            let n = e.owner.user_data.vault_name@;
            if tail_event(before, vault_first(n)) is None {
                let m1 = before.insert(vault_log_first(n), after[vault_log_first(n)]);
                lemma_first_or_replace_keeps_contiguous(before, vault_log_first(n), after[vault_log_first(n)]);
                lemma_first_or_replace_keeps_contiguous(m1, vault_first(n), after[vault_first(n)]);
            }
        },
        VaultActionEvent::Update(u) => {
            lemma_update_outcome_keeps_contiguous(before, after, u@, r);
        },
        VaultActionEvent::Request(VaultActionRequestEvent::JoinCluster(j)) => {
            let q = VaultActionRequestEvent::JoinCluster(j)@;
            let n = request_user(q).vault_name;
            if log_append_error(before, n) is None {
                let mid = choose|mid: Map<IdView, GenericKvLogEvent>| #[trigger] logged_request(before, mid, q)
                    && update_outcome(mid, after, UpdateView::AddToPending(j.candidate@), r);
                let o = as_vault_log(tail_event(before, vault_log_first(n))->0)->0;
                lemma_saved_log_keeps_contiguous(
                    before,
                    mid,
                    n,
                    VaultActionEventsView { requests: o.0.value@.requests.insert(q), updates: o.0.value@.updates },
                );
                lemma_update_outcome_keeps_contiguous(mid, after, UpdateView::AddToPending(j.candidate@), r);
            }
        },
        VaultActionEvent::Request(VaultActionRequestEvent::AddMetaPass(p)) => {
            let q = VaultActionRequestEvent::AddMetaPass(p)@;
            let u = VaultActionUpdateEvent::AddMetaPass(p)@;
            let n = request_user(q).vault_name;
            if log_append_error(before, n) is None {
                let mid = choose|mid: Map<IdView, GenericKvLogEvent>| #[trigger] logged_request(before, mid, q)
                    && meta_pass_outcome(mid, after, u, r);
                let o = as_vault_log(tail_event(before, vault_log_first(n))->0)->0;
                lemma_saved_log_keeps_contiguous(
                    before,
                    mid,
                    n,
                    VaultActionEventsView { requests: o.0.value@.requests.insert(q), updates: o.0.value@.updates },
                );
                if log_append_error(mid, update_user(u).vault_name) is None {
                    let mid2 = choose|mid2: Map<IdView, GenericKvLogEvent>| #[trigger] logged_update(mid, mid2, u)
                        && update_outcome(mid2, after, u, r);
                    let o2 = as_vault_log(tail_event(mid, vault_log_first(n))->0)->0;
                    lemma_saved_log_keeps_contiguous(mid, mid2, n, apply_update(o2.0.value@, u));
                    lemma_update_outcome_keeps_contiguous(mid2, after, u, r);
                }
            }
        },
    }
}

} // verus!
