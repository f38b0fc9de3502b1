//! The device log of a user: the events a device sends to the server, in order.
use vstd::prelude::*;
use crate::db::descriptors::{DeviceLogDescriptor, ToObjectDescriptor};
use crate::db::events::{DeviceLogObject, GenericKvLogEvent, ToGenericEvent, VaultKvLogEvent};
use crate::db::generic_db::{KvLogEventRepo, SaveCommand};
use crate::db::object_id::{ArtifactId, KvKey, KvLogEvent, SeqId};
use crate::db::store::{free_id, has_free_id, tail_id, IdView, PersistentObject};
use crate::error::CoreError;
use crate::events::vault_log::{
    AddMetaPassEvent, CreateVaultEvent, JoinClusterEvent, UpdateMembershipEvent, VaultActionEvent,
    VaultActionInitEvent, VaultActionRequestEvent, VaultActionUpdateEvent,
};
use crate::model::user::{UserData, UserDataMember, UserDataOutsider, UserId, UserMembership};

verus! {

/// The first id of the device log of a device.
pub open spec fn device_log_first(device: Seq<char>) -> IdView {
    (("DeviceLog"@, device), SeqId { curr: 1, prev: 0 })
}

/// The device log entry an event holds, if it holds one.
pub open spec fn as_device_log(e: GenericKvLogEvent) -> Option<DeviceLogObject> {
    match e {
        GenericKvLogEvent::Vault(VaultKvLogEvent::DeviceLog(o)) => Some(*o),
        _ => None,
    }
}

/// `after` is `before` with one more device log entry, at `k`, holding `value`.
pub open spec fn saved_device_log(
    before: Map<IdView, GenericKvLogEvent>,
    after: Map<IdView, GenericKvLogEvent>,
    k: IdView,
    value: VaultActionEvent,
) -> bool {
    &&& after == before.insert(k, after[k])
    &&& as_device_log(after[k]) matches Some(o)
    &&& o.0.key.obj_id@ == k
    &&& o.0.value == value
}

/// What appending `value` to the device log of `device` does to the store: the entry at
/// the log's free id, or nothing and an error when the log has no free id.
pub open spec fn appended(
    before: Map<IdView, GenericKvLogEvent>,
    after: Map<IdView, GenericKvLogEvent>,
    device: Seq<char>,
    value: VaultActionEvent,
    r: Result<(), CoreError>,
) -> bool {
    &&& r is Ok <==> has_free_id(before, device_log_first(device))
    &&& r is Ok ==> saved_device_log(before, after, free_id(before, device_log_first(device)), value)
    &&& r is Err ==> (r == Err::<(), CoreError>(CoreError::IdExhausted) && after == before)
}

/// The device log of the store.
pub struct PersistentDeviceLog<'a, Repo: KvLogEventRepo> {
    pub p_obj: &'a mut PersistentObject<Repo>,
}

impl<'a, Repo: KvLogEventRepo> PersistentDeviceLog<'a, Repo> {
    /// The id of the last entry of the user's device log.
    pub fn find_tail_id(self, user_id: &UserId) -> (r: Option<ArtifactId>)
        ensures
            *final(self.p_obj) == *old(self.p_obj),
            r is None <==> !old(self.p_obj).repo.events().contains_key(device_log_first(user_id.device_id@)),
            r matches Some(t) ==> t@ == tail_id(
                old(self.p_obj).repo.events().dom(),
                device_log_first(user_id.device_id@),
            ),
    {
        self.p_obj.find_tail_id_by_obj_desc(DeviceLogDescriptor::from(user_id.clone()))
    }

    /// The key of the next entry of the user's device log.
    fn get_device_log_free_key(p_obj: &PersistentObject<Repo>, user: &UserData) -> (r: Result<KvKey, CoreError>)
        ensures
            r is Ok <==> has_free_id(p_obj.repo.events(), device_log_first(user.device.device_id@)),
            r matches Ok(k) ==> k.obj_id@ == free_id(p_obj.repo.events(), device_log_first(user.device.device_id@)),
            r is Err ==> r == Err::<KvKey, CoreError>(CoreError::IdExhausted),
    {
        let obj_desc = DeviceLogDescriptor::from(user.user_id());
        match p_obj.find_free_id_by_obj_desc(obj_desc.clone()) {
            Ok(free_id) => Ok(KvKey::artifact(obj_desc.to_obj_desc(), free_id)),
            Err(e) => Err(e),
        }
    }

    /// Append an event to the device log of the user.
    fn append(p_obj: &mut PersistentObject<Repo>, user: &UserData, value: VaultActionEvent) -> (r: Result<(), CoreError>)
        ensures
            appended(old(p_obj).repo.events(), final(p_obj).repo.events(), user.device.device_id@, value, r),
    {
        let key = match Self::get_device_log_free_key(&*p_obj, user) {
            Ok(k) => k,
            Err(e) => return Err(e),
        };
        let entry = DeviceLogObject(KvLogEvent { key, value });
        let _ = p_obj.repo.save(entry.to_generic());
        Ok(())
    }

    /// Ask the server to create the user's vault.
    pub fn save_create_vault_request(self, user: &UserData) -> (r: Result<(), CoreError>)
        ensures
            appended(
                old(self.p_obj).repo.events(),
                final(self.p_obj).repo.events(),
                user.device.device_id@,
                VaultActionEvent::Init(
                    VaultActionInitEvent::CreateVault(CreateVaultEvent { owner: UserDataMember { user_data: *user } }),
                ),
                r,
            ),
    {
        let create_action = VaultActionInitEvent::CreateVault(
            CreateVaultEvent { owner: UserDataMember::from(user.clone()) },
        );
        Self::append(self.p_obj, user, VaultActionEvent::Init(create_action))
    }

    /// Ask to join the user's vault.
    pub fn save_join_request(self, user: &UserData) -> (r: Result<(), CoreError>)
        ensures
            appended(
                old(self.p_obj).repo.events(),
                final(self.p_obj).repo.events(),
                user.device.device_id@,
                VaultActionEvent::Request(VaultActionRequestEvent::JoinCluster(JoinClusterEvent { candidate: *user })),
                r,
            ),
    {
        let request = VaultActionRequestEvent::JoinCluster(JoinClusterEvent::from(user.clone()));
        Self::append(self.p_obj, user, VaultActionEvent::Request(request))
    }

    /// Ask to add a password to the sender's vault.
    pub fn save_add_meta_pass_request(self, meta_pass_event: AddMetaPassEvent) -> (r: Result<(), CoreError>)
        ensures
            appended(
                old(self.p_obj).repo.events(),
                final(self.p_obj).repo.events(),
                meta_pass_event.sender.user_data.device.device_id@,
                VaultActionEvent::Request(VaultActionRequestEvent::AddMetaPass(meta_pass_event)),
                r,
            ),
    {
        let sender = meta_pass_event.sender.user_data.clone();
        let add_meta_pass = VaultActionRequestEvent::AddMetaPass(meta_pass_event);
        Self::append(self.p_obj, &sender, VaultActionEvent::Request(add_meta_pass))
    }

    /// A member accepts the candidate of a join request as a member.
    pub fn save_accept_join_request_event(
        self,
        join_request: JoinClusterEvent,
        member: UserDataMember,
        candidate: UserDataOutsider,
    ) -> (r: Result<(), CoreError>)
        ensures
            appended(
                old(self.p_obj).repo.events(),
                final(self.p_obj).repo.events(),
                member.user_data.device.device_id@,
                VaultActionEvent::Update(
                    VaultActionUpdateEvent::UpdateMembership(
                        UpdateMembershipEvent {
                            request: join_request,
                            sender: member,
                            update: UserMembership::Member(UserDataMember { user_data: candidate.user_data }),
                        },
                    ),
                ),
                r,
            ),
    {
        let member_user = member.user().clone();
        let update = VaultActionUpdateEvent::UpdateMembership(
            UpdateMembershipEvent {
                request: join_request,
                sender: member,
                update: UserMembership::Member(UserDataMember::from_outsider(candidate)),
            },
        );
        Self::append(self.p_obj, &member_user, VaultActionEvent::Update(update))
    }

    /// A member's answer to a join request.
    pub fn save_updated_membership_event(self, update_event: UpdateMembershipEvent) -> (r: Result<(), CoreError>)
        ensures
            appended(
                old(self.p_obj).repo.events(),
                final(self.p_obj).repo.events(),
                update_event.sender.user_data.device.device_id@,
                VaultActionEvent::Update(VaultActionUpdateEvent::UpdateMembership(update_event)),
                r,
            ),
    {
        let sender = update_event.sender.user_data.clone();
        Self::append(
            self.p_obj,
            &sender,
            VaultActionEvent::Update(VaultActionUpdateEvent::UpdateMembership(update_event)),
        )
    }
}

} // verus!
