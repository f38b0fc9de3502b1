//! The vault objects of the event store: the vault, its log and the status of each user.
use vstd::prelude::*;
use crate::actions::vault_actions::{find_status, refresh_status, st_differs, status_in_vault};
use crate::api::VaultTail;
use crate::db::descriptors::{VaultDescriptor, VaultLogDescriptor, VaultStatusDescriptor};
use crate::db::events::{GenericKvLogEvent, KeyExtractor, ToGenericEvent, VaultKvLogEvent, VaultLogObject, VaultObject, VaultStatusObject};
use crate::db::generic_db::{FindOneQuery, KvLogEventRepo, SaveCommand};
use crate::db::object_id::{KvKey, KvLogEvent, Next, SeqId};
use crate::db::store::{free_id, has_free_id, has_next_id, next_id, tail_event, tail_id, IdView, PersistentObject};
use crate::error::CoreError;
use crate::events::vault_log::{VaultActionEvents, VaultActionRequestEvent};
use crate::model::user::UserData;
use crate::model::vault::{VaultName, VaultStatus};

verus! {

/// The first id of a vault.
pub open spec fn vault_first(name: Seq<char>) -> IdView {
    (("Vault"@, name), SeqId { curr: 1, prev: 0 })
}

/// The first id of a vault's log.
pub open spec fn vault_log_first(name: Seq<char>) -> IdView {
    (("VaultLog"@, name), SeqId { curr: 1, prev: 0 })
}

/// The first id of the status of the user of a device.
pub open spec fn vault_status_first(device: Seq<char>) -> IdView {
    (("VaultStatus"@, device), SeqId { curr: 1, prev: 0 })
}

/// The vault an event holds, if it holds one.
pub open spec fn as_vault(e: GenericKvLogEvent) -> Option<VaultObject> {
    match e {
        GenericKvLogEvent::Vault(VaultKvLogEvent::Vault(o)) => Some(o),
        _ => None,
    }
}

/// The vault log an event holds, if it holds one.
pub open spec fn as_vault_log(e: GenericKvLogEvent) -> Option<VaultLogObject> {
    match e {
        GenericKvLogEvent::Vault(VaultKvLogEvent::VaultLog(o)) => Some(o),
        _ => None,
    }
}

/// The status an event holds, if it holds one.
pub open spec fn as_vault_status(e: GenericKvLogEvent) -> Option<VaultStatusObject> {
    match e {
        GenericKvLogEvent::Vault(VaultKvLogEvent::VaultStatus(o)) => Some(o),
        _ => None,
    }
}

/// Whether the last event of the object is of another type than the one it should have.
pub open spec fn ill_typed(tail: Option<GenericKvLogEvent>, typed: spec_fn(GenericKvLogEvent) -> bool) -> bool {
    tail matches Some(e) && !typed(e)
}

pub open spec fn is_vault(e: GenericKvLogEvent) -> bool {
    as_vault(e) is Some
}

pub open spec fn is_vault_log(e: GenericKvLogEvent) -> bool {
    as_vault_log(e) is Some
}

pub open spec fn is_vault_status(e: GenericKvLogEvent) -> bool {
    as_vault_status(e) is Some
}

/// The last stored state of the vault, as read back: nothing when there is none.
pub open spec fn read_vault(events: Map<IdView, GenericKvLogEvent>, name: Seq<char>, r: Option<VaultObject>) -> bool {
    match tail_event(events, vault_first(name)) {
        None => r is None,
        Some(e) => r matches Some(c) && as_vault(e) matches Some(o) && c.0.key.obj_id@ == o.0.key.obj_id@
            && c.0.key.obj_id@ == tail_id(events.dom(), vault_first(name))
            && c.0.key.obj_desc == o.0.key.obj_desc && c.0.value@ == o.0.value@,
    }
}

/// The last stored log of the vault, as read back: nothing when there is none.
pub open spec fn read_vault_log(events: Map<IdView, GenericKvLogEvent>, name: Seq<char>, r: Option<VaultLogObject>) -> bool {
    match tail_event(events, vault_log_first(name)) {
        None => r is None,
        Some(e) => r matches Some(c) && as_vault_log(e) matches Some(o) && c.0.key.obj_id@ == o.0.key.obj_id@
            && c.0.key.obj_id@ == tail_id(events.dom(), vault_log_first(name))
            && c.0.key.obj_desc == o.0.key.obj_desc && c.0.value@ == o.0.value@,
    }
}

/// The last stored status of the user of the device, as read back: nothing when there is none.
pub open spec fn read_vault_status(
    events: Map<IdView, GenericKvLogEvent>,
    device: Seq<char>,
    r: Option<VaultStatusObject>,
) -> bool {
    match tail_event(events, vault_status_first(device)) {
        None => r is None,
        Some(e) => r matches Some(c) && as_vault_status(e) matches Some(o) && c.0.key.obj_id@ == o.0.key.obj_id@
            && c.0.key.obj_id@ == tail_id(events.dom(), vault_status_first(device))
            && c.0.key.obj_desc == o.0.key.obj_desc && c.0.value == o.0.value,
    }
}

/// `after` is `before` with one more vault log, at `k`, holding `value`.
pub open spec fn saved_vault_log(
    before: Map<IdView, GenericKvLogEvent>,
    after: Map<IdView, GenericKvLogEvent>,
    k: IdView,
    value: crate::events::vault_log::VaultActionEventsView,
) -> bool {
    &&& after == before.insert(k, after[k])
    &&& as_vault_log(after[k]) matches Some(o)
    &&& o.0.key.obj_id@ == k
    &&& o.0.value@ == value
}

/// `after` is `before` with one more status, at `k`, holding a status whose view is `value`.
pub open spec fn saved_vault_status(
    before: Map<IdView, GenericKvLogEvent>,
    after: Map<IdView, GenericKvLogEvent>,
    k: IdView,
    value: crate::model::vault::VaultStatusView,
) -> bool {
    &&& after == before.insert(k, after[k])
    &&& as_vault_status(after[k]) matches Some(o)
    &&& o.0.key.obj_id@ == k
    &&& o.0.value@ == value
}

/// The status of the user as read from the store: the vault decides when it is there;
/// without it the stored status does; a missing status is an error.
pub open spec fn found_status(events: Map<IdView, GenericKvLogEvent>, user: UserData, r: Result<VaultStatus, CoreError>) -> bool {
    let vt = tail_event(events, vault_first(user.vault_name@));
    let st = tail_event(events, vault_status_first(user.device.device_id@));
    &&& ill_typed(vt, |e| is_vault(e)) ==> r == Err::<VaultStatus, CoreError>(CoreError::WrongEventType)
    &&& (!ill_typed(vt, |e| is_vault(e)) && ill_typed(st, |e| is_vault_status(e))) ==> r == Err::<VaultStatus, CoreError>(
        CoreError::WrongEventType,
    )
    &&& (!ill_typed(vt, |e| is_vault(e)) && !ill_typed(st, |e| is_vault_status(e))) ==> match (vt, st) {
        (None, None) => r == Err::<VaultStatus, CoreError>(CoreError::VaultStatusMissing),
        (Some(_), None) => r == Err::<VaultStatus, CoreError>(CoreError::VaultWithoutStatus),
        (None, Some(e)) => as_vault_status(e) matches Some(o) && r == Ok::<VaultStatus, CoreError>(o.0.value),
        (Some(v), Some(_)) => as_vault(v) matches Some(o) && r matches Ok(s) && status_in_vault(o.0.value@, user, s),
    }
}

/// What bringing the user's status up to date does to the server's store, and its answer.
pub open spec fn status_refreshed(
    before: Map<IdView, GenericKvLogEvent>,
    after: Map<IdView, GenericKvLogEvent>,
    user: UserData,
    r: Result<VaultStatus, CoreError>,
) -> bool {
    let sf = vault_status_first(user.device.device_id@);
    let vt = tail_event(before, vault_first(user.vault_name@));
    let st = tail_event(before, sf);
    let k = free_id(before, sf);
    &&& r is Err ==> after == before
    &&& ill_typed(vt, |e| is_vault(e)) ==> r == Err::<VaultStatus, CoreError>(CoreError::WrongEventType)
    &&& (!ill_typed(vt, |e| is_vault(e)) && ill_typed(st, |e| is_vault_status(e))) ==> r == Err::<
        VaultStatus,
        CoreError,
    >(CoreError::WrongEventType)
    &&& (!ill_typed(vt, |e| is_vault(e)) && !ill_typed(st, |e| is_vault_status(e))) ==> match (vt, st) {
        (None, None) => r == Ok::<VaultStatus, CoreError>(VaultStatus::NotExists(user)) && saved_vault_status(
            before,
            after,
            k,
            VaultStatus::NotExists(user)@,
        ),
        (None, Some(e)) => as_vault_status(e) matches Some(o) && (o.0.value is NotExists ==> (r == Ok::<
            VaultStatus,
            CoreError,
        >(o.0.value) && after == before)) && (!(o.0.value is NotExists) ==> r == Err::<VaultStatus, CoreError>(
            CoreError::InvalidMembershipState,
        )),
        (Some(v), None) => as_vault(v) matches Some(ov) && r matches Ok(s) && status_in_vault(
            ov.0.value@,
            user,
            s,
        ) && saved_vault_status(before, after, k, s@),
        (Some(v), Some(e)) => as_vault(v) matches Some(ov) && as_vault_status(e) matches Some(o) && ((
        st_differs(ov.0.value@, user, o.0.value@) && !has_next_id(tail_id(before.dom(), sf))) ==> r
            == Err::<VaultStatus, CoreError>(CoreError::IdExhausted)) && ((!st_differs(
            ov.0.value@,
            user,
            o.0.value@,
        ) || has_next_id(tail_id(before.dom(), sf))) ==> (r matches Ok(s) && status_in_vault(
            ov.0.value@,
            user,
            s,
        ) && (s@ == o.0.value@ ==> after == before) && (s@ != o.0.value@ ==> saved_vault_status(
            before,
            after,
            k,
            s@,
        )))),
    }
}

/// The vault objects of the store.
pub struct PersistentVault<'a, Repo: KvLogEventRepo> {
    pub p_obj: &'a mut PersistentObject<Repo>,
}

impl<'a, Repo: KvLogEventRepo> PersistentVault<'a, Repo> {
    fn vault_object_in(p_obj: &PersistentObject<Repo>, vault_name: VaultName) -> (r: Result<Option<VaultObject>, CoreError>)
        ensures
            ill_typed(tail_event(p_obj.repo.events(), vault_first(vault_name@)), |e| is_vault(e)) ==> r
                == Err::<Option<VaultObject>, CoreError>(CoreError::WrongEventType),
            !ill_typed(tail_event(p_obj.repo.events(), vault_first(vault_name@)), |e| is_vault(e)) ==> (r matches Ok(
                v,
            ) && read_vault(p_obj.repo.events(), vault_name@, v)),
    {
        match p_obj.find_tail_event(VaultDescriptor::from(vault_name)) {
            None => Ok(None),
            Some(GenericKvLogEvent::Vault(VaultKvLogEvent::Vault(obj))) => Ok(Some(obj.clone())),
            Some(_) => Err(CoreError::WrongEventType),
        }
    }

    fn vault_log_in(p_obj: &PersistentObject<Repo>, vault_name: VaultName) -> (r: Result<Option<VaultLogObject>, CoreError>)
        ensures
            ill_typed(tail_event(p_obj.repo.events(), vault_log_first(vault_name@)), |e| is_vault_log(e)) ==> r
                == Err::<Option<VaultLogObject>, CoreError>(CoreError::WrongEventType),
            !ill_typed(tail_event(p_obj.repo.events(), vault_log_first(vault_name@)), |e| is_vault_log(e)) ==> (r matches Ok(
                v,
            ) && read_vault_log(p_obj.repo.events(), vault_name@, v)),
    {
        match p_obj.find_tail_event(VaultLogDescriptor::from(vault_name)) {
            None => Ok(None),
            Some(GenericKvLogEvent::Vault(VaultKvLogEvent::VaultLog(obj))) => Ok(Some(obj.clone())),
            Some(_) => Err(CoreError::WrongEventType),
        }
    }

    fn vault_status_in(p_obj: &PersistentObject<Repo>, user: &UserData) -> (r: Result<Option<VaultStatusObject>, CoreError>)
        ensures
            ill_typed(tail_event(p_obj.repo.events(), vault_status_first(user.device.device_id@)), |e| is_vault_status(e))
                ==> r == Err::<Option<VaultStatusObject>, CoreError>(CoreError::WrongEventType),
            !ill_typed(tail_event(p_obj.repo.events(), vault_status_first(user.device.device_id@)), |e| is_vault_status(e))
                ==> (r matches Ok(v) && read_vault_status(p_obj.repo.events(), user.device.device_id@, v)),
    {
        match p_obj.find_tail_event(VaultStatusDescriptor::from(user.user_id())) {
            None => Ok(None),
            Some(GenericKvLogEvent::Vault(VaultKvLogEvent::VaultStatus(obj))) => Ok(Some(obj.clone())),
            Some(_) => Err(CoreError::WrongEventType),
        }
    }
}

impl<'a, Repo: KvLogEventRepo> PersistentVault<'a, Repo> {
    /// The last log of the vault, when it has one.
    pub fn vault_log(self, vault_name: VaultName) -> (r: Result<Option<VaultLogObject>, CoreError>)
        ensures
            *final(self.p_obj) == *old(self.p_obj),
            ill_typed(tail_event(old(self.p_obj).repo.events(), vault_log_first(vault_name@)), |e| is_vault_log(e))
                ==> r == Err::<Option<VaultLogObject>, CoreError>(CoreError::WrongEventType),
            !ill_typed(tail_event(old(self.p_obj).repo.events(), vault_log_first(vault_name@)), |e| is_vault_log(e))
                ==> (r matches Ok(v) && read_vault_log(old(self.p_obj).repo.events(), vault_name@, v)),
    {
        Self::vault_log_in(&*self.p_obj, vault_name)
    }

    /// The last log of the vault, which must be there.
    pub fn get_vault_log_artifact(self, vault_name: VaultName) -> (r: Result<VaultLogObject, CoreError>)
        ensures
            *final(self.p_obj) == *old(self.p_obj),
            ill_typed(tail_event(old(self.p_obj).repo.events(), vault_log_first(vault_name@)), |e| is_vault_log(e))
                ==> r == Err::<VaultLogObject, CoreError>(CoreError::WrongEventType),
            tail_event(old(self.p_obj).repo.events(), vault_log_first(vault_name@)) is None ==> r == Err::<
                VaultLogObject,
                CoreError,
            >(CoreError::ObjectNotFound),
            r matches Ok(v) ==> read_vault_log(old(self.p_obj).repo.events(), vault_name@, Some(v)),
            (tail_event(old(self.p_obj).repo.events(), vault_log_first(vault_name@)) matches Some(e) && is_vault_log(e))
                ==> r is Ok,
    {
        match Self::vault_log_in(&*self.p_obj, vault_name) {
            Ok(Some(obj)) => Ok(obj),
            Ok(None) => Err(CoreError::ObjectNotFound),
            Err(e) => Err(e),
        }
    }

    /// The last state of the vault, which must be there.
    pub fn get_vault(self, vault_name: VaultName) -> (r: Result<VaultObject, CoreError>)
        ensures
            *final(self.p_obj) == *old(self.p_obj),
            ill_typed(tail_event(old(self.p_obj).repo.events(), vault_first(vault_name@)), |e| is_vault(e)) ==> r
                == Err::<VaultObject, CoreError>(CoreError::WrongEventType),
            tail_event(old(self.p_obj).repo.events(), vault_first(vault_name@)) is None ==> r == Err::<
                VaultObject,
                CoreError,
            >(CoreError::ObjectNotFound),
            r matches Ok(v) ==> read_vault(old(self.p_obj).repo.events(), vault_name@, Some(v)),
            (tail_event(old(self.p_obj).repo.events(), vault_first(vault_name@)) matches Some(e) && is_vault(e))
                ==> r is Ok,
    {
        match Self::vault_object_in(&*self.p_obj, vault_name) {
            Ok(Some(obj)) => Ok(obj),
            Ok(None) => Err(CoreError::ObjectNotFound),
            Err(e) => Err(e),
        }
    }

    /// Whether the vault has been created.
    pub fn vault_exists(self, vault_name: VaultName) -> (r: Result<bool, CoreError>)
        ensures
            *final(self.p_obj) == *old(self.p_obj),
            ill_typed(tail_event(old(self.p_obj).repo.events(), vault_first(vault_name@)), |e| is_vault(e)) ==> r
                == Err::<bool, CoreError>(CoreError::WrongEventType),
            !ill_typed(tail_event(old(self.p_obj).repo.events(), vault_first(vault_name@)), |e| is_vault(e)) ==> r
                == Ok::<bool, CoreError>(tail_event(old(self.p_obj).repo.events(), vault_first(vault_name@)) is Some),
    {
        match Self::vault_object_in(&*self.p_obj, vault_name) {
            Ok(maybe_vault) => Ok(maybe_vault.is_some()),
            Err(e) => Err(e),
        }
    }

    /// The status of the user, once the store has been synchronised: the vault decides
    /// when it is there; without it the stored status does. A vault or a status that is
    /// missing means no synchronisation has happened.
    pub fn find(self, user: UserData) -> (r: Result<VaultStatus, CoreError>)
        ensures
            *final(self.p_obj) == *old(self.p_obj),
            found_status(old(self.p_obj).repo.events(), user, r),
    {
        let vault = match Self::vault_object_in(&*self.p_obj, user.vault_name()) {
            Ok(v) => v,
            Err(e) => return Err(e),
        };
        let status = match Self::vault_status_in(&*self.p_obj, &user) {
            Ok(s) => s,
            Err(e) => return Err(e),
        };
        find_status(vault, status, user)
    }
}

impl<'a, Repo: KvLogEventRepo> PersistentVault<'a, Repo> {
    /// Append the events to the vault's log, after its last entry.
    pub fn save_vault_log_events(self, events: VaultActionEvents, vault_name: VaultName) -> (r: Result<(), CoreError>)
        ensures
            ({
                let before = old(self.p_obj).repo.events();
                let after = final(self.p_obj).repo.events();
                let first = vault_log_first(vault_name@);
                let t = tail_event(before, first);
                &&& r is Err ==> after == before
                &&& ill_typed(t, |e| is_vault_log(e)) ==> r == Err::<(), CoreError>(CoreError::WrongEventType)
                &&& t is None ==> r == Err::<(), CoreError>(CoreError::ObjectNotFound)
                &&& (t matches Some(e) && is_vault_log(e)) ==> {
                    &&& has_next_id(tail_id(before.dom(), first)) ==> (r is Ok && saved_vault_log(
                        before,
                        after,
                        next_id(tail_id(before.dom(), first)),
                        events@,
                    ))
                    &&& !has_next_id(tail_id(before.dom(), first)) ==> r == Err::<(), CoreError>(CoreError::IdExhausted)
                }
            }),
    {
        let kv = match Self::vault_log_in(&*self.p_obj, vault_name) {
            Ok(Some(obj)) => obj,
            Ok(None) => return Err(CoreError::ObjectNotFound),
            Err(e) => return Err(e),
        };
        let key = kv.key();
        if !key.obj_id.can_advance() {
            return Err(CoreError::IdExhausted);
        }
        let vault_log_event = VaultLogObject(KvLogEvent { key: key.next(), value: events });
        let _ = self.p_obj.repo.save(vault_log_event.to_generic());
        Ok(())
    }

    /// Record a request in the vault's log: the log after its last entry, with the request added.
    pub fn save_vault_log_request_event(self, action_event: VaultActionRequestEvent) -> (r: Result<(), CoreError>)
        ensures
            ({
                let before = old(self.p_obj).repo.events();
                let after = final(self.p_obj).repo.events();
                let first = vault_log_first(crate::events::vault_log::request_user(action_event@).vault_name);
                let t = tail_event(before, first);
                &&& r is Err ==> after == before
                &&& ill_typed(t, |e| is_vault_log(e)) ==> r == Err::<(), CoreError>(CoreError::WrongEventType)
                &&& t is None ==> r == Err::<(), CoreError>(CoreError::ObjectNotFound)
                &&& match t {
                    Some(e) => match as_vault_log(e) {
                        Some(o) => {
                            &&& has_next_id(tail_id(before.dom(), first)) ==> (r is Ok && saved_vault_log(
                                before,
                                after,
                                next_id(tail_id(before.dom(), first)),
                                crate::events::vault_log::VaultActionEventsView {
                                    requests: o.0.value@.requests.insert(action_event@),
                                    updates: o.0.value@.updates,
                                },
                            ))
                            &&& !has_next_id(tail_id(before.dom(), first)) ==> r == Err::<(), CoreError>(
                                CoreError::IdExhausted,
                            )
                        },
                        None => true,
                    },
                    None => true,
                }
            }),
    {
        let vault_name = action_event.vault_name();
        let kv = match Self::vault_log_in(&*self.p_obj, vault_name) {
            Ok(Some(obj)) => obj,
            Ok(None) => return Err(CoreError::ObjectNotFound),
            Err(e) => return Err(e),
        };
        let key = kv.key();
        if !key.obj_id.can_advance() {
            return Err(CoreError::IdExhausted);
        }
        let VaultLogObject(KvLogEvent { key: _, value }) = kv;
        let vault_log_event = VaultLogObject(KvLogEvent { key: key.next(), value: value.request(action_event) });
        let _ = self.p_obj.repo.save(vault_log_event.to_generic());
        Ok(())
    }

    /// The ids the next events of the vault's log, the vault and the user's status get.
    pub fn vault_tail(self, user: UserData) -> (r: Result<VaultTail, CoreError>)
        ensures
            *final(self.p_obj) == *old(self.p_obj),
            ({
                let events = old(self.p_obj).repo.events();
                &&& r is Ok <==> (has_free_id(events, vault_log_first(user.vault_name@)) && has_free_id(
                    events,
                    vault_first(user.vault_name@),
                ) && has_free_id(events, vault_status_first(user.device.device_id@)))
                &&& r is Err ==> r == Err::<VaultTail, CoreError>(CoreError::IdExhausted)
                &&& r matches Ok(t) ==> t.vault_log@ == free_id(events, vault_log_first(user.vault_name@))
                    && t.vault@ == free_id(events, vault_first(user.vault_name@)) && t.vault_status@ == free_id(
                    events,
                    vault_status_first(user.device.device_id@),
                )
            }),
    {
        let vault_log = match self.p_obj.find_free_id_by_obj_desc(VaultLogDescriptor::from(user.vault_name())) {
            Ok(id) => id,
            Err(e) => return Err(e),
        };
        let vault = match self.p_obj.find_free_id_by_obj_desc(VaultDescriptor::from(user.vault_name())) {
            Ok(id) => id,
            Err(e) => return Err(e),
        };
        let vault_status = match self.p_obj.find_free_id_by_obj_desc(VaultStatusDescriptor::from(user.user_id())) {
            Ok(id) => id,
            Err(e) => return Err(e),
        };
        Ok(VaultTail { vault_log, vault, vault_status })
    }
}

impl<'a, Repo: KvLogEventRepo> PersistentVault<'a, Repo> {
    /// The status of the user as the server keeps it: the vault decides when it is there,
    /// and the stored status is brought up to date (saved when missing or different); with
    /// no vault, a missing status is recorded as "the vault does not exist", and a stored
    /// status other than that is an invalid state.
    pub fn update_vault_membership_info_for_user(self, user: UserData) -> (r: Result<VaultStatus, CoreError>)
        ensures
            status_refreshed(old(self.p_obj).repo.events(), final(self.p_obj).repo.events(), user, r),
    {
        let vault = match Self::vault_object_in(&*self.p_obj, user.vault_name()) {
            Ok(v) => v,
            Err(e) => return Err(e),
        };
        let stored = match Self::vault_status_in(&*self.p_obj, &user) {
            Ok(s) => s,
            Err(e) => return Err(e),
        };
        let first_key = KvKey::from(VaultStatusDescriptor::from(user.user_id()));
        match refresh_status(vault, stored, user, first_key) {
            Err(e) => Err(e),
            Ok((status, saved)) => {
                match saved {
                    Some(obj) => {
                        let _ = self.p_obj.repo.save(obj.to_generic());
                    },
                    None => {},
                }
                Ok(status)
            },
        }
    }
}

} // verus!
