//! What the server does with the events devices send it.
use vstd::prelude::*;
use crate::actions::vault_actions::{processed, ServerVaultAction};
use crate::collections::ViewClone;
use crate::api::{ServerTailRequest, ServerTailResponse, VaultRequest, VaultTail};
use crate::db::events::{same_event, GenericKvLogEvent, SsKvLogEvent, VaultKvLogEvent};
use crate::db::generic_db::FindOneQuery;
use crate::db::object_id::ArtifactId;
use crate::db::objects::persistent_vault::{status_refreshed, PersistentVault};
use crate::db::store::{chain_ids, lemma_chain_ids_object, lemma_chain_ids_stored, tail_event};
use crate::actions::vault_actions::{law_created_vault_counts_owner_as_member, status_view_in};
use crate::db::events::DeviceLogObject;
use crate::db::objects::persistent_vault::{as_vault, vault_first};
use crate::events::vault_log::{CreateVaultEvent, VaultActionEvent, VaultActionInitEvent};
use crate::model::keys::device_id_of;
use crate::model::user::{UserData, UserDataMember};
use crate::model::vault::VaultStatusView;
use crate::model::vault::VaultStatus;
use crate::db::generic_db::{KvLogEventRepo, SaveCommand};
use crate::db::objects::persistent_shared_secret::{claim_logged, PersistentSharedSecret};
use crate::db::store::{free_id, has_free_id, save_all, IdView, PersistentObject};
use crate::db::object_id::Next;
use crate::db::objects::persistent_device_log::{device_log_first, PersistentDeviceLog};
use crate::db::objects::persistent_shared_secret::ss_device_log_first;
use crate::error::CoreError;
use crate::model::device::DeviceData;

verus! {

/// What writing an event a device sent does to the server's store: a device log entry is
/// stored and then processed; a claim is stored and recorded in its vault's claims log; a
/// share is stored; any other event is refused and nothing changes.
pub open spec fn written(
    before: Map<IdView, GenericKvLogEvent>,
    after: Map<IdView, GenericKvLogEvent>,
    event: GenericKvLogEvent,
    r: Result<(), CoreError>,
) -> bool {
    let stored = before.insert(event.key_of().obj_id@, event);
    match event {
        GenericKvLogEvent::Vault(VaultKvLogEvent::DeviceLog(obj)) => processed(stored, after, obj.0.value, r),
        GenericKvLogEvent::Ss(SsKvLogEvent::SsDeviceLog(obj)) => claim_logged(stored, after, obj.0.value@, r),
        GenericKvLogEvent::Ss(SsKvLogEvent::SsWorkflow(_)) => r is Ok && after == stored,
        _ => r == Err::<(), CoreError>(CoreError::WrongEventType) && after == before,
    }
}

/// The server's side of the synchronisation.
pub struct ServerSyncGateway<'a, Repo: KvLogEventRepo> {
    pub p_obj: &'a mut PersistentObject<Repo>,
}

impl<'a, Repo: KvLogEventRepo> ServerSyncGateway<'a, Repo> {
    /// Store and act on an event a device sent.
    pub fn handle_write(self, server_device: DeviceData, generic_event: GenericKvLogEvent) -> (r: Result<(), CoreError>)
        ensures
            written(old(self.p_obj).repo.events(), final(self.p_obj).repo.events(), generic_event, r),
    {
        Self::server_write_processing(self.p_obj, server_device, generic_event)
    }

    fn server_write_processing(
        p_obj: &mut PersistentObject<Repo>,
        server_device: DeviceData,
        generic_event: GenericKvLogEvent,
    ) -> (r: Result<(), CoreError>)
        ensures
            written(old(p_obj).repo.events(), final(p_obj).repo.events(), generic_event, r),
    {
        match generic_event {
            GenericKvLogEvent::Vault(VaultKvLogEvent::DeviceLog(device_log_obj)) => {
                let vault_action = device_log_obj.0.value.clone();
                let _ = p_obj.repo.save(GenericKvLogEvent::Vault(VaultKvLogEvent::DeviceLog(device_log_obj)));
                ServerVaultAction { p_obj, server_device }.do_processing(vault_action)
            },
            GenericKvLogEvent::Ss(SsKvLogEvent::SsDeviceLog(ss_device_log_obj)) => {
                let ss_claim = ss_device_log_obj.0.value.view_clone();
                let _ = p_obj.repo.save(GenericKvLogEvent::Ss(SsKvLogEvent::SsDeviceLog(ss_device_log_obj)));
                PersistentSharedSecret { p_obj }.save_ss_log_event(ss_claim)
            },
            GenericKvLogEvent::Ss(SsKvLogEvent::SsWorkflow(ss_object)) => {
                let _ = p_obj.repo.save(GenericKvLogEvent::Ss(SsKvLogEvent::SsWorkflow(ss_object)));
                Ok(())
            },
            _ => Err(CoreError::WrongEventType),
        }
    }
}

/// `v` holds the events stored under `ids`, in order, each as a copy of the stored event.
pub open spec fn copies_of(events: Map<IdView, GenericKvLogEvent>, ids: Seq<IdView>, v: Seq<GenericKvLogEvent>) -> bool {
    &&& v.len() == ids.len()
    &&& forall|i: int| 0 <= i < v.len() ==> (#[trigger] v[i]).key_of().obj_id@ == ids[i] && same_event(v[i], events[ids[i]])
}

/// The events a vault request gets: those of the user's status from the id the request
/// names; for a member also those of the vault's log and of the vault from the ids it names.
pub open spec fn replicated(events: Map<IdView, GenericKvLogEvent>, tail: VaultTail, member: bool, v: Seq<GenericKvLogEvent>) -> bool {
    let status_ids = chain_ids(events.dom(), tail.vault_status@);
    let ids = if member {
        status_ids + chain_ids(events.dom(), tail.vault_log@) + chain_ids(events.dom(), tail.vault@)
    } else {
        status_ids
    };
    copies_of(events, ids, v)
}

impl<'a, Repo: KvLogEventRepo> ServerSyncGateway<'a, Repo> {
    /// Copies of the events stored one after the other from the id.
    fn events_from(p_obj: &PersistentObject<Repo>, id: &ArtifactId) -> (r: Vec<GenericKvLogEvent>)
        ensures
            copies_of(p_obj.repo.events(), chain_ids(p_obj.repo.events().dom(), id@), r@),
    {
        let ids = p_obj.find_object_events(id);
        let ghost chain = chain_ids(p_obj.repo.events().dom(), id@);
        proof {
            lemma_chain_ids_stored(p_obj.repo.events().dom(), id@);
        }
        let mut commit_log: Vec<GenericKvLogEvent> = Vec::new();
        let mut i: usize = 0;
        while i < ids.len()
            invariant
                i <= ids.len(),
                ids@.map_values(|x: ArtifactId| x@) == chain,
                chain == chain_ids(p_obj.repo.events().dom(), id@),
                forall|j: int| 0 <= j < chain.len() ==> p_obj.repo.events().dom().contains(#[trigger] chain[j]),
                commit_log@.len() == i,
                forall|j: int| 0 <= j < i ==> (#[trigger] commit_log@[j]).key_of().obj_id@ == chain[j] && same_event(
                    commit_log@[j],
                    p_obj.repo.events()[chain[j]],
                ),
            decreases ids.len() - i,
        {
            assert(ids@.map_values(|x: ArtifactId| x@)[i as int] == ids@[i as int]@);
            match p_obj.repo.find_one(&ids[i]) {
                Some(event) => {
                    commit_log.push(event.clone());
                },
                None => {
                    assert(false);
                },
            }
            i = i + 1;
        }
        commit_log
    }

    /// The events a member of the vault gets: its status, then the vault's log and the
    /// vault; anyone else gets its status only. The status is brought up to date first.
    pub fn vault_replication(self, request: VaultRequest) -> (r: Result<Vec<GenericKvLogEvent>, CoreError>)
        ensures
            exists|st: Result<VaultStatus, CoreError>| #[trigger]
                status_refreshed(old(self.p_obj).repo.events(), final(self.p_obj).repo.events(), request.sender, st)
                    && match st {
                    Err(e) => r == Err::<Vec<GenericKvLogEvent>, CoreError>(e),
                    Ok(s) => r matches Ok(v) && replicated(final(self.p_obj).repo.events(), request.tail, s is Member, v@),
                },
    {
        Self::replicate(self.p_obj, request)
    }

    fn replicate(p_obj: &mut PersistentObject<Repo>, request: VaultRequest) -> (r: Result<Vec<GenericKvLogEvent>, CoreError>)
        ensures
            exists|st: Result<VaultStatus, CoreError>| #[trigger]
                status_refreshed(old(p_obj).repo.events(), final(p_obj).repo.events(), request.sender, st)
                    && match st {
                    Err(e) => r == Err::<Vec<GenericKvLogEvent>, CoreError>(e),
                    Ok(s) => r matches Ok(v) && replicated(final(p_obj).repo.events(), request.tail, s is Member, v@),
                },
    {
        let refreshed = (PersistentVault { p_obj: &mut *p_obj }).update_vault_membership_info_for_user(request.sender.clone());
        let ghost st = refreshed;
        let vault_status = match refreshed {
            Ok(s) => s,
            Err(e) => return Err(e),
        };
        let mut commit_log = Self::events_from(&*p_obj, &request.tail.vault_status);
        let ghost status_part = commit_log@;
        match vault_status {
            VaultStatus::Member(_) => {
                let mut vault_log_events = Self::events_from(&*p_obj, &request.tail.vault_log);
                let mut vault_events = Self::events_from(&*p_obj, &request.tail.vault);
                let ghost log_part = vault_log_events@;
                let ghost vault_part = vault_events@;
                commit_log.append(&mut vault_log_events);
                commit_log.append(&mut vault_events);
                proof {
                    let events = p_obj.repo.events();
                    let a = chain_ids(events.dom(), request.tail.vault_status@);
                    let b = chain_ids(events.dom(), request.tail.vault_log@);
                    let c = chain_ids(events.dom(), request.tail.vault@);
                    assert(commit_log@ =~= status_part + log_part + vault_part);
                    assert forall|i: int| 0 <= i < commit_log@.len() implies (#[trigger] commit_log@[i]).key_of().obj_id@
                        == (a + b + c)[i] && same_event(commit_log@[i], events[(a + b + c)[i]]) by {
                        if i < a.len() {
                            assert(commit_log@[i] == status_part[i]);
                        } else if i < a.len() + b.len() {
                            assert(commit_log@[i] == log_part[i - a.len()]);
                        } else {
                            assert(commit_log@[i] == vault_part[i - a.len() - b.len()]);
                        }
                    }
                }
            },
            _ => {},
        }
        Ok(commit_log)
    }
}

/// The id the next event of an object gets, as the server tells a device: none while the
/// object has no event, the id after its last event otherwise.
pub open spec fn next_free_id(events: Map<IdView, GenericKvLogEvent>, first: IdView, t: Option<ArtifactId>) -> bool {
    &&& t is None <==> !events.contains_key(first)
    &&& t matches Some(a) ==> a@ == free_id(events, first)
}

impl<'a, Repo: KvLogEventRepo> ServerSyncGateway<'a, Repo> {
    /// Where the device's next events go on the server: the ids after the last event of
    /// the device's log and of its claims log, none for a log it has not written to. A log
    /// whose last event has the greatest id has no next one.
    pub fn server_tail(self, request: ServerTailRequest) -> (r: Result<ServerTailResponse, CoreError>)
        ensures
            *final(self.p_obj) == *old(self.p_obj),
            ({
                let events = old(self.p_obj).repo.events();
                let device_first = device_log_first(request.sender.device.device_id@);
                let ss_first = ss_device_log_first(request.sender.device.device_id@);
                &&& r is Ok <==> has_free_id(events, device_first) && has_free_id(events, ss_first)
                &&& r is Err ==> r == Err::<ServerTailResponse, CoreError>(CoreError::IdExhausted)
                &&& r matches Ok(t) ==> next_free_id(events, device_first, t.device_log_tail) && next_free_id(
                    events,
                    ss_first,
                    t.ss_device_log_tail,
                )
            }),
    {
        let user_id = request.sender.user_id();
        let device_tail = (PersistentDeviceLog { p_obj: &mut *self.p_obj }).find_tail_id(&user_id);
        let device_log_tail = match device_tail {
            None => None,
            Some(tail) => {
                if tail.can_advance() {
                    Some(tail.next())
                } else {
                    return Err(CoreError::IdExhausted);
                }
            },
        };
        let ss_tail = (PersistentSharedSecret { p_obj: &mut *self.p_obj }).find_ss_device_log_tail_id(
            &request.sender.device.device_id,
        );
        let ss_device_log_tail = match ss_tail {
            None => None,
            Some(tail) => {
                if tail.can_advance() {
                    Some(tail.next())
                } else {
                    return Err(CoreError::IdExhausted);
                }
            },
        };
        Ok(ServerTailResponse { device_log_tail, ss_device_log_tail })
    }
}

/// After saving the events in order, the store holds under each of their ids the last of
/// them with that id.
proof fn lemma_save_all_holds_last(m: Map<IdView, GenericKvLogEvent>, v: Seq<GenericKvLogEvent>, id: IdView)
    requires
        exists|i: int| 0 <= i < v.len() && (#[trigger] v[i]).key_of().obj_id@ == id,
    ensures
        save_all(m, v).contains_key(id),
        exists|j: int| 0 <= j < v.len() && (#[trigger] v[j]).key_of().obj_id@ == id && save_all(m, v)[id] == v[j],
    decreases v.len(),
{
    let last = v.len() - 1;
    if v[last].key_of().obj_id@ == id {
        assert(save_all(m, v)[id] == v[last]);
    } else {
        let i = choose|i: int| 0 <= i < v.len() && (#[trigger] v[i]).key_of().obj_id@ == id;
        let rest = v.drop_last();
        assert(i < last);
        assert(rest[i] == v[i]);
        lemma_save_all_holds_last(m, rest, id);
        let j = choose|j: int| 0 <= j < rest.len() && (#[trigger] rest[j]).key_of().obj_id@ == id && save_all(m, rest)[id]
            == rest[j];
        assert(v[j] == rest[j]);
    }
}

/// A device that stores the events the server replicated to it, in the order they came,
/// holds under each of their ids the same event as the server: what a device reads back
/// is what the server stored.
pub proof fn law_replicated_events_are_copied(
    server: Map<IdView, GenericKvLogEvent>,
    tail: VaultTail,
    member: bool,
    v: Seq<GenericKvLogEvent>,
    device: Map<IdView, GenericKvLogEvent>,
    id: IdView,
)
    requires
        replicated(server, tail, member, v),
        exists|i: int| 0 <= i < v.len() && (#[trigger] v[i]).key_of().obj_id@ == id,
    ensures
        save_all(device, v).contains_key(id),
        same_event(save_all(device, v)[id], server[id]),
{
    lemma_save_all_holds_last(device, v, id);
}

/// A user who is not a member of the vault gets the events of one object only: the one
/// whose id its request names for its status.
pub proof fn law_non_members_get_one_object_only(
    events: Map<IdView, GenericKvLogEvent>,
    tail: VaultTail,
    v: Seq<GenericKvLogEvent>,
)
    requires
        replicated(events, tail, false, v),
    ensures
        forall|i: int| 0 <= i < v.len() ==> (#[trigger] v[i]).key_of().obj_id@.0 == tail.vault_status@.0,
{
    lemma_chain_ids_object(events.dom(), tail.vault_status@);
}

/// A sign-up request of a device whose vault the server has no event of yet makes the
/// server create the vault, with the device's user as a member.
pub proof fn law_sign_up_request_creates_the_vault(
    before: Map<IdView, GenericKvLogEvent>,
    after: Map<IdView, GenericKvLogEvent>,
    entry: DeviceLogObject,
    owner: UserData,
    r: Result<(), CoreError>,
)
    requires
        entry.0.value == VaultActionEvent::Init(
            VaultActionInitEvent::CreateVault(CreateVaultEvent { owner: UserDataMember { user_data: owner } }),
        ),
        entry.0.key.obj_id@.0.0 == "DeviceLog"@,
        owner.device.device_id@ == device_id_of(owner.device.keys.transport_pk@),
        forall|k: IdView| #[trigger] before.contains_key(k) ==> k.0 != vault_first(owner.vault_name@).0,
        written(before, after, GenericKvLogEvent::Vault(VaultKvLogEvent::DeviceLog(Box::new(entry))), r),
    ensures
        r is Ok,
        tail_event(after, vault_first(owner.vault_name@)) matches Some(e) && as_vault(e) matches Some(v)
            && status_view_in(v.0.value@, owner@) == VaultStatusView::Member(owner@),
{
    let event = GenericKvLogEvent::Vault(VaultKvLogEvent::DeviceLog(Box::new(entry)));
    let stored = before.insert(event.key_of().obj_id@, event);
    let n = owner.vault_name@;
    reveal_strlit("DeviceLog");
    reveal_strlit("Vault");
    assert(event.key_of().obj_id@.0 != vault_first(n).0) by {
        assert(event.key_of().obj_id@.0.0.len() != vault_first(n).0.0.len());
    }
    assert forall|k: IdView| #[trigger] stored.contains_key(k) implies k.0 != vault_first(n).0 by {
        if k != event.key_of().obj_id@ {
            assert(before.contains_key(k));
        }
    }
    assert(!stored.contains_key(vault_first(n)));
    law_created_vault_counts_owner_as_member(stored, after, UserDataMember { user_data: owner });
}

} // verus!
