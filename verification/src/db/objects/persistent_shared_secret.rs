//! The secret-sharing objects of the event store: the claims log of a vault, the claims a
//! device sends, and the shares on their way between devices.
use vstd::prelude::*;
use crate::collections::{VecMap, ViewClone};
use crate::db::descriptors::{ObjectDescriptor, SsDeviceLogDescriptor, SsLogDescriptor, SsWorkflowDescriptor, ToObjectDescriptor};
use crate::db::events::{GenericKvLogEvent, SsDeviceLogObject, SsKvLogEvent, SsLogObject, SsWorkflowObject, ToGenericEvent};
use crate::db::generic_db::{KvLogEventRepo, SaveCommand};
use crate::db::object_id::{ArtifactId, KvKey, KvLogEvent, SeqId};
use crate::db::objects::persistent_vault::ill_typed;
use crate::db::store::{first_id_of, free_id, has_free_id, tail_event, tail_id, IdView, PersistentObject};
use crate::error::CoreError;
use crate::model::device::DeviceId;
use crate::model::secret::{SsClaim, SsClaimView, SsDistributionId, SsLogData, SsRecoveryId};
use crate::model::vault::VaultName;

verus! {

/// The first id of the claims log of a vault.
pub open spec fn ss_log_first(name: Seq<char>) -> IdView {
    (("SsLog"@, name), SeqId { curr: 1, prev: 0 })
}

/// The first id of the claims log of a device.
pub open spec fn ss_device_log_first(device: Seq<char>) -> IdView {
    (("SsDeviceLog"@, device), SeqId { curr: 1, prev: 0 })
}

/// The claims log an event holds, if it holds one.
pub open spec fn as_ss_log(e: GenericKvLogEvent) -> Option<SsLogObject> {
    match e {
        GenericKvLogEvent::Ss(SsKvLogEvent::SsLog(o)) => Some(o),
        _ => None,
    }
}

/// The device claim an event holds, if it holds one.
pub open spec fn as_ss_device_log(e: GenericKvLogEvent) -> Option<SsDeviceLogObject> {
    match e {
        GenericKvLogEvent::Ss(SsKvLogEvent::SsDeviceLog(o)) => Some(o),
        _ => None,
    }
}

/// The share an event holds, if it holds one.
pub open spec fn as_ss_workflow(e: GenericKvLogEvent) -> Option<SsWorkflowObject> {
    match e {
        GenericKvLogEvent::Ss(SsKvLogEvent::SsWorkflow(o)) => Some(o),
        _ => None,
    }
}

pub open spec fn is_ss_log(e: GenericKvLogEvent) -> bool {
    as_ss_log(e) is Some
}

pub open spec fn is_ss_device_log(e: GenericKvLogEvent) -> bool {
    as_ss_device_log(e) is Some
}

pub open spec fn is_ss_workflow(e: GenericKvLogEvent) -> bool {
    as_ss_workflow(e) is Some
}

/// Whether `c` is the share `o` as read back.
pub open spec fn same_workflow(c: SsWorkflowObject, o: SsWorkflowObject) -> bool {
    match (c, o) {
        (SsWorkflowObject::Distribution(a), SsWorkflowObject::Distribution(b)) => a.key.obj_id@ == b.key.obj_id@
            && a.key.obj_desc == b.key.obj_desc && a.value == b.value,
        (SsWorkflowObject::Recovery(a), SsWorkflowObject::Recovery(b)) => a.key.obj_id@ == b.key.obj_id@
            && a.key.obj_desc == b.key.obj_desc && a.value == b.value,
        _ => false,
    }
}

/// The claims of the vault as stored last: no claim when the vault has no claims log.
pub open spec fn stored_claims(events: Map<IdView, GenericKvLogEvent>, name: Seq<char>) -> Map<Seq<char>, SsClaimView> {
    match tail_event(events, ss_log_first(name)) {
        Some(e) => match as_ss_log(e) {
            Some(o) => o.0.value@,
            None => Map::empty(),
        },
        None => Map::empty(),
    }
}

/// The last shares stored for the objects whose first ids are `firsts`, in order, skipping
/// those with none.
pub open spec fn tails_of(events: Map<IdView, GenericKvLogEvent>, firsts: Seq<IdView>) -> Seq<GenericKvLogEvent>
    decreases firsts.len(),
{
    if firsts.len() == 0 {
        Seq::empty()
    } else {
        let rest = tails_of(events, firsts.drop_last());
        match tail_event(events, firsts.last()) {
            Some(e) => rest.push(e),
            None => rest,
        }
    }
}

/// Whether some of the objects whose first ids are `firsts` ends with an event that is not a share.
pub open spec fn some_ill_typed(events: Map<IdView, GenericKvLogEvent>, firsts: Seq<IdView>) -> bool {
    exists|i: int| 0 <= i < firsts.len() && ill_typed(tail_event(events, #[trigger] firsts[i]), |e| is_ss_workflow(e))
}

/// Whether `r` holds the shares `tails`, as read back.
pub open spec fn read_workflows(tails: Seq<GenericKvLogEvent>, r: Seq<SsWorkflowObject>) -> bool {
    &&& r.len() == tails.len()
    &&& forall|i: int| 0 <= i < r.len() ==> (as_ss_workflow(#[trigger] tails[i]) matches Some(o) && same_workflow(r[i], o))
}

/// The first ids of the shares sent back to the sender of the claim, one per receiver.
pub open spec fn recovery_firsts(c: SsClaim) -> Seq<IdView> {
    Seq::new(
        c.receivers@.len(),
        |i: int|
            first_id_of(
                ObjectDescriptor::SharedSecret(
                    SsWorkflowDescriptor::Recovery(
                        SsRecoveryId {
                            claim_id: c.dist_claim_id,
                            sender: c.sender,
                            distribution_id: SsDistributionId {
                                pass_id: c.dist_claim_id.pass_id,
                                receiver: c.receivers@[i],
                            },
                        },
                    ),
                ),
            ),
    )
}

/// The first ids of the shares kept for the claim's password, one per receiver.
pub open spec fn distribution_firsts(c: SsClaim) -> Seq<IdView> {
    Seq::new(
        c.receivers@.len(),
        |i: int|
            first_id_of(
                ObjectDescriptor::SharedSecret(
                    SsWorkflowDescriptor::Distribution(
                        SsDistributionId { pass_id: c.dist_claim_id.pass_id, receiver: c.receivers@[i] },
                    ),
                ),
            ),
    )
}

/// What recording the claim in its vault's claims log does to the store: the next log holds
/// the last one's claims and this one (replacing a claim with the same id), under the log's
/// free id; nothing changes when the log's last event has another type or no free id is left.
pub open spec fn claim_logged(
    before: Map<IdView, GenericKvLogEvent>,
    after: Map<IdView, GenericKvLogEvent>,
    c: SsClaimView,
    r: Result<(), CoreError>,
) -> bool {
    let first = ss_log_first(c.vault_name);
    let k = free_id(before, first);
    &&& r is Err ==> after == before
    &&& ill_typed(tail_event(before, first), |e| is_ss_log(e)) ==> r == Err::<(), CoreError>(CoreError::WrongEventType)
    &&& !ill_typed(tail_event(before, first), |e| is_ss_log(e)) ==> {
        &&& !has_free_id(before, first) ==> r == Err::<(), CoreError>(CoreError::IdExhausted)
        &&& has_free_id(before, first) ==> {
            &&& r is Ok
            &&& after == before.insert(k, after[k])
            &&& as_ss_log(after[k]) matches Some(o)
            &&& o.0.key.obj_id@ == k
            &&& o.0.value@ == stored_claims(before, c.vault_name).insert(c.id, c)
        }
    }
}

/// The secret-sharing objects of the store.
pub struct PersistentSharedSecret<'a, Repo: KvLogEventRepo> {
    pub p_obj: &'a mut PersistentObject<Repo>,
}

impl<'a, Repo: KvLogEventRepo> PersistentSharedSecret<'a, Repo> {
    fn ss_log_in(p_obj: &PersistentObject<Repo>, vault_name: VaultName) -> (r: Result<Option<SsLogObject>, CoreError>)
        ensures
            ({
                let t = tail_event(p_obj.repo.events(), ss_log_first(vault_name@));
                &&& ill_typed(t, |e| is_ss_log(e)) ==> r == Err::<Option<SsLogObject>, CoreError>(CoreError::WrongEventType)
                &&& t is None ==> r == Ok::<Option<SsLogObject>, CoreError>(None)
                &&& match t {
                    Some(e) => match as_ss_log(e) {
                        Some(o) => r matches Ok(Some(c)) && c.0.key.obj_id@ == o.0.key.obj_id@ && c.0.key.obj_desc
                            == o.0.key.obj_desc && c.0.value@ == o.0.value@,
                        None => true,
                    },
                    None => true,
                }
            }),
    {
        match p_obj.find_tail_event(SsLogDescriptor::from(vault_name)) {
            None => Ok(None),
            Some(GenericKvLogEvent::Ss(SsKvLogEvent::SsLog(obj))) => Ok(Some(obj.clone())),
            Some(_) => Err(CoreError::WrongEventType),
        }
    }

    /// The last claims log of the vault, when it has one.
    pub fn find_ss_log_tail_event(self, vault_name: VaultName) -> (r: Result<Option<SsLogObject>, CoreError>)
        ensures
            *final(self.p_obj) == *old(self.p_obj),
            ({
                let t = tail_event(old(self.p_obj).repo.events(), ss_log_first(vault_name@));
                &&& ill_typed(t, |e| is_ss_log(e)) ==> r == Err::<Option<SsLogObject>, CoreError>(CoreError::WrongEventType)
                &&& t is None ==> r == Ok::<Option<SsLogObject>, CoreError>(None)
                &&& match t {
                    Some(e) => match as_ss_log(e) {
                        Some(o) => r matches Ok(Some(c)) && c.0.key.obj_id@ == o.0.key.obj_id@ && c.0.key.obj_desc
                            == o.0.key.obj_desc && c.0.value@ == o.0.value@,
                        None => true,
                    },
                    None => true,
                }
            }),
    {
        Self::ss_log_in(&*self.p_obj, vault_name)
    }

    /// The last claim the device sent, when it sent one.
    pub fn find_ss_device_log_tail_event(self, device_id: DeviceId) -> (r: Result<Option<SsDeviceLogObject>, CoreError>)
        ensures
            *final(self.p_obj) == *old(self.p_obj),
            ({
                let t = tail_event(old(self.p_obj).repo.events(), ss_device_log_first(device_id@));
                &&& ill_typed(t, |e| is_ss_device_log(e)) ==> r == Err::<Option<SsDeviceLogObject>, CoreError>(
                    CoreError::WrongEventType,
                )
                &&& t is None ==> r == Ok::<Option<SsDeviceLogObject>, CoreError>(None)
                &&& match t {
                    Some(e) => match as_ss_device_log(e) {
                        Some(o) => r matches Ok(Some(c)) && c.0.key.obj_id@ == o.0.key.obj_id@ && c.0.key.obj_desc
                            == o.0.key.obj_desc && c.0.value@ == o.0.value@,
                        None => true,
                    },
                    None => true,
                }
            }),
    {
        match self.p_obj.find_tail_event(SsDeviceLogDescriptor::from(device_id)) {
            None => Ok(None),
            Some(GenericKvLogEvent::Ss(SsKvLogEvent::SsDeviceLog(obj))) => Ok(Some(obj.clone())),
            Some(_) => Err(CoreError::WrongEventType),
        }
    }

    /// The id of the last claim the device sent.
    pub fn find_ss_device_log_tail_id(self, device_id: &DeviceId) -> (r: Option<ArtifactId>)
        ensures
            *final(self.p_obj) == *old(self.p_obj),
            r is None <==> !old(self.p_obj).repo.events().contains_key(ss_device_log_first(device_id@)),
            r matches Some(t) ==> t@ == tail_id(old(self.p_obj).repo.events().dom(), ss_device_log_first(device_id@)),
    {
        self.p_obj.find_tail_id_by_obj_desc(SsDeviceLogDescriptor::from(device_id.clone()))
    }

    /// The claims of the vault: those of its last claims log, or none.
    pub fn get_ss_log_obj(self, vault_name: VaultName) -> (r: Result<SsLogData, CoreError>)
        ensures
            *final(self.p_obj) == *old(self.p_obj),
            ill_typed(tail_event(old(self.p_obj).repo.events(), ss_log_first(vault_name@)), |e| is_ss_log(e)) ==> r
                == Err::<SsLogData, CoreError>(CoreError::WrongEventType),
            !ill_typed(tail_event(old(self.p_obj).repo.events(), ss_log_first(vault_name@)), |e| is_ss_log(e)) ==> (r matches Ok(
                d,
            ) && d@ == stored_claims(old(self.p_obj).repo.events(), vault_name@)),
    {
        match Self::ss_log_in(&*self.p_obj, vault_name) {
            Ok(Some(obj)) => Ok(obj.to_data()),
            Ok(None) => Ok(SsLogData { claims: VecMap::new() }),
            Err(e) => Err(e),
        }
    }

    /// The next claims log of the vault, with the claims given, under its free id.
    pub fn create_new_ss_log_object(self, ss_log_data: SsLogData, vault_name: VaultName) -> (r: Result<
        SsLogObject,
        CoreError,
    >)
        ensures
            *final(self.p_obj) == *old(self.p_obj),
            r is Ok <==> has_free_id(old(self.p_obj).repo.events(), ss_log_first(vault_name@)),
            r matches Ok(o) ==> o.0.key.obj_id@ == free_id(old(self.p_obj).repo.events(), ss_log_first(vault_name@))
                && o.0.key.obj_desc == ObjectDescriptor::SsLog(SsLogDescriptor(vault_name)) && o.0.value == ss_log_data,
            r is Err ==> r == Err::<SsLogObject, CoreError>(CoreError::IdExhausted),
    {
        Self::new_ss_log_object(&*self.p_obj, ss_log_data, vault_name)
    }

    fn new_ss_log_object(p_obj: &PersistentObject<Repo>, ss_log_data: SsLogData, vault_name: VaultName) -> (r: Result<
        SsLogObject,
        CoreError,
    >)
        ensures
            r is Ok <==> has_free_id(p_obj.repo.events(), ss_log_first(vault_name@)),
            r matches Ok(o) ==> o.0.key.obj_id@ == free_id(p_obj.repo.events(), ss_log_first(vault_name@))
                && o.0.key.obj_desc == ObjectDescriptor::SsLog(SsLogDescriptor(vault_name)) && o.0.value == ss_log_data,
            r is Err ==> r == Err::<SsLogObject, CoreError>(CoreError::IdExhausted),
    {
        let obj_desc = SsLogDescriptor::from(vault_name);
        match p_obj.find_free_id_by_obj_desc(obj_desc.clone()) {
            Ok(free_id) => Ok(SsLogObject(KvLogEvent { key: KvKey::artifact(obj_desc.to_obj_desc(), free_id), value: ss_log_data })),
            Err(e) => Err(e),
        }
    }

    /// Record a claim in the vault's claims log: the next log holds the last one's claims
    /// and this one, replacing a claim with the same id.
    pub fn save_ss_log_event(self, claim: SsClaim) -> (r: Result<(), CoreError>)
        ensures
            claim_logged(old(self.p_obj).repo.events(), final(self.p_obj).repo.events(), claim@, r),
    {
        let vault_name = claim.vault_name.clone();
        let maybe_ss_log_event = match Self::ss_log_in(&*self.p_obj, vault_name.clone()) {
            Ok(m) => m,
            Err(e) => return Err(e),
        };
        let new_log_data = match maybe_ss_log_event {
            None => SsLogData::new(claim),
            Some(ss_log_event) => ss_log_event.0.value.insert(claim),
        };
        let new_ss_log_event = match Self::new_ss_log_object(&*self.p_obj, new_log_data, vault_name) {
            Ok(o) => o,
            Err(e) => return Err(e),
        };
        let _ = self.p_obj.repo.save(new_ss_log_event.to_generic());
        Ok(())
    }

    /// Record a claim in the claims log of its sender, after its last claim.
    pub fn save_claim_in_ss_device_log(self, claim: SsClaim) -> (r: Result<(), CoreError>)
        ensures
            ({
                let before = old(self.p_obj).repo.events();
                let after = final(self.p_obj).repo.events();
                let first = ss_device_log_first(claim.sender@);
                let k = free_id(before, first);
                &&& r is Ok <==> has_free_id(before, first)
                &&& r is Err ==> (r == Err::<(), CoreError>(CoreError::IdExhausted) && after == before)
                &&& r is Ok ==> {
                    &&& after == before.insert(k, after[k])
                    &&& as_ss_device_log(after[k]) matches Some(o)
                    &&& o.0.key.obj_id@ == k
                    &&& o.0.value == claim
                }
            }),
    {
        let obj_desc = SsDeviceLogDescriptor::from(claim.sender.clone());
        let free_id = match self.p_obj.find_free_id_by_obj_desc(obj_desc.clone()) {
            Ok(id) => id,
            Err(e) => return Err(e),
        };
        let obj = SsDeviceLogObject(KvLogEvent { key: KvKey::artifact(obj_desc.to_obj_desc(), free_id), value: claim });
        let _ = self.p_obj.repo.save(obj.to_generic());
        Ok(())
    }
}

impl<'a, Repo: KvLogEventRepo> PersistentSharedSecret<'a, Repo> {
    /// The share kept under the distribution id, which must be there.
    pub fn get_ss_distribution_event_by_id(self, id: SsDistributionId) -> (r: Result<SsWorkflowObject, CoreError>)
        ensures
            *final(self.p_obj) == *old(self.p_obj),
            ({
                let t = tail_event(
                    old(self.p_obj).repo.events(),
                    first_id_of(ObjectDescriptor::SharedSecret(SsWorkflowDescriptor::Distribution(id))),
                );
                &&& t is None ==> r == Err::<SsWorkflowObject, CoreError>(CoreError::ObjectNotFound)
                &&& ill_typed(t, |e| is_ss_workflow(e)) ==> r == Err::<SsWorkflowObject, CoreError>(
                    CoreError::WrongEventType,
                )
                &&& match t {
                    Some(e) => match as_ss_workflow(e) {
                        Some(o) => r matches Ok(c) && same_workflow(c, o),
                        None => true,
                    },
                    None => true,
                }
            }),
    {
        match self.p_obj.find_tail_event(SsWorkflowDescriptor::Distribution(id)) {
            None => Err(CoreError::ObjectNotFound),
            Some(GenericKvLogEvent::Ss(SsKvLogEvent::SsWorkflow(obj))) => Ok(obj.clone()),
            Some(_) => Err(CoreError::WrongEventType),
        }
    }

    /// The shares kept for the claim's password, one per receiver that keeps one, in
    /// receiver order.
    pub fn get_distributions(self, ss_claim: SsClaim) -> (r: Result<Vec<SsWorkflowObject>, CoreError>)
        ensures
            *final(self.p_obj) == *old(self.p_obj),
            some_ill_typed(old(self.p_obj).repo.events(), distribution_firsts(ss_claim)) ==> r == Err::<
                Vec<SsWorkflowObject>,
                CoreError,
            >(CoreError::WrongEventType),
            !some_ill_typed(old(self.p_obj).repo.events(), distribution_firsts(ss_claim)) ==> (r matches Ok(v)
                && read_workflows(tails_of(old(self.p_obj).repo.events(), distribution_firsts(ss_claim)), v@)),
    {
        Self::distributions_in(&*self.p_obj, &ss_claim)
    }

    /// The shares of the claim: those kept for its password, then those sent back to its sender.
    pub fn get_ss_workflow_events(self, ss_claim: SsClaim) -> (r: Result<Vec<SsWorkflowObject>, CoreError>)
        ensures
            *final(self.p_obj) == *old(self.p_obj),
            ({
                let events = old(self.p_obj).repo.events();
                &&& some_ill_typed(events, distribution_firsts(ss_claim)) ==> r == Err::<Vec<SsWorkflowObject>, CoreError>(
                    CoreError::WrongEventType,
                )
                &&& (!some_ill_typed(events, distribution_firsts(ss_claim)) && some_ill_typed(
                    events,
                    recovery_firsts(ss_claim),
                )) ==> r == Err::<Vec<SsWorkflowObject>, CoreError>(CoreError::WrongEventType)
                &&& (!some_ill_typed(events, distribution_firsts(ss_claim)) && !some_ill_typed(
                    events,
                    recovery_firsts(ss_claim),
                )) ==> (r matches Ok(v) && read_workflows(
                    tails_of(events, distribution_firsts(ss_claim)) + tails_of(events, recovery_firsts(ss_claim)),
                    v@,
                ))
            }),
    {
        let mut events = match Self::distributions_in(&*self.p_obj, &ss_claim) {
            Ok(d) => d,
            Err(e) => return Err(e),
        };
        let mut recoveries = match Self::recoveries_in(&*self.p_obj, &ss_claim) {
            Ok(r) => r,
            Err(e) => return Err(e),
        };
        let ghost d = events@;
        let ghost rc = recoveries@;
        events.append(&mut recoveries);
        proof {
            let ev = self.p_obj.repo.events();
            let td = tails_of(ev, distribution_firsts(ss_claim));
            let tr = tails_of(ev, recovery_firsts(ss_claim));
            assert(events@ =~= d + rc);
            assert forall|i: int| 0 <= i < events@.len() implies (as_ss_workflow(#[trigger] (td + tr)[i]) matches Some(o)
                && same_workflow(events@[i], o)) by {
                if i < d.len() {
                    assert((td + tr)[i] == td[i]);
                    assert(events@[i] == d[i]);
                } else {
                    assert((td + tr)[i] == tr[i - d.len()]);
                    assert(events@[i] == rc[i - d.len()]);
                }
            }
        }
        Ok(events)
    }

    /// The shares sent back to the sender of the claim, one per receiver that sent one, in
    /// receiver order.
    pub fn get_recoveries(self, ss_claim: SsClaim) -> (r: Result<Vec<SsWorkflowObject>, CoreError>)
        ensures
            *final(self.p_obj) == *old(self.p_obj),
            some_ill_typed(old(self.p_obj).repo.events(), recovery_firsts(ss_claim)) ==> r == Err::<
                Vec<SsWorkflowObject>,
                CoreError,
            >(CoreError::WrongEventType),
            !some_ill_typed(old(self.p_obj).repo.events(), recovery_firsts(ss_claim)) ==> (r matches Ok(v)
                && read_workflows(tails_of(old(self.p_obj).repo.events(), recovery_firsts(ss_claim)), v@)),
    {
        Self::recoveries_in(&*self.p_obj, &ss_claim)
    }

    pub(crate) fn recoveries_in(p_obj: &PersistentObject<Repo>, ss_claim: &SsClaim) -> (r: Result<Vec<SsWorkflowObject>, CoreError>)
        ensures
            some_ill_typed(p_obj.repo.events(), recovery_firsts(*ss_claim)) ==> r == Err::<
                Vec<SsWorkflowObject>,
                CoreError,
            >(CoreError::WrongEventType),
            !some_ill_typed(p_obj.repo.events(), recovery_firsts(*ss_claim)) ==> (r matches Ok(v) && read_workflows(
                tails_of(p_obj.repo.events(), recovery_firsts(*ss_claim)),
                v@,
            )),
    {
        let ghost events_map = p_obj.repo.events();
        let ghost firsts = recovery_firsts(*ss_claim);
        let ids = ss_claim.recovery_db_ids();
        let mut events: Vec<SsWorkflowObject> = Vec::new();
        let mut i: usize = 0;
        while i < ids.len()
            invariant
                ids@.len() == firsts.len(),
                firsts == recovery_firsts(*ss_claim),
                events_map == p_obj.repo.events(),
                i <= ids.len(),
                forall|j: int| 0 <= j < ids@.len() ==> (#[trigger] ids@[j]).claim_id == ss_claim.dist_claim_id
                    && ids@[j].sender == ss_claim.sender && ids@[j].distribution_id.pass_id
                    == ss_claim.dist_claim_id.pass_id && ids@[j].distribution_id.receiver == ss_claim.receivers@[j],
                !some_ill_typed(events_map, firsts.take(i as int)),
                read_workflows(tails_of(events_map, firsts.take(i as int)), events@),
            decreases ids.len() - i,
        {
            let desc = SsWorkflowDescriptor::Recovery(ids[i].clone());
            proof {
                assert(first_id_of(desc.descriptor()) == firsts[i as int]);
                assert(firsts.take(i + 1).drop_last() =~= firsts.take(i as int));
                assert(firsts.take(i + 1).last() == firsts[i as int]);
            }
            match p_obj.find_tail_event(desc) {
                None => {},
                Some(GenericKvLogEvent::Ss(SsKvLogEvent::SsWorkflow(obj))) => {
                    events.push(obj.clone());
                },
                Some(_) => {
                    proof {
                        assert(ill_typed(tail_event(events_map, firsts[i as int]), |e| is_ss_workflow(e)));
                    }
                    return Err(CoreError::WrongEventType);
                },
            }
            proof {
                assert forall|j: int| 0 <= j < firsts.take(i + 1).len() implies !ill_typed(
                    tail_event(events_map, #[trigger] firsts.take(i + 1)[j]),
                    |e| is_ss_workflow(e),
                ) by {
                    if j < i {
                        assert(firsts.take(i + 1)[j] == firsts.take(i as int)[j]);
                    }
                }
            }
            i = i + 1;
        }
        proof {
            assert(firsts.take(i as int) =~= firsts);
        }
        Ok(events)
    }

    pub(crate) fn distributions_in(p_obj: &PersistentObject<Repo>, ss_claim: &SsClaim) -> (r: Result<Vec<SsWorkflowObject>, CoreError>)
        ensures
            some_ill_typed(p_obj.repo.events(), distribution_firsts(*ss_claim)) ==> r == Err::<
                Vec<SsWorkflowObject>,
                CoreError,
            >(CoreError::WrongEventType),
            !some_ill_typed(p_obj.repo.events(), distribution_firsts(*ss_claim)) ==> (r matches Ok(v) && read_workflows(
                tails_of(p_obj.repo.events(), distribution_firsts(*ss_claim)),
                v@,
            )),
    {
        let ghost events_map = p_obj.repo.events();
        let ghost firsts = distribution_firsts(*ss_claim);
        let ids = ss_claim.distribution_ids();
        let mut events: Vec<SsWorkflowObject> = Vec::new();
        let mut i: usize = 0;
        while i < ids.len()
            invariant
                ids@.len() == firsts.len(),
                firsts == distribution_firsts(*ss_claim),
                events_map == p_obj.repo.events(),
                i <= ids.len(),
                forall|j: int| 0 <= j < ids@.len() ==> (#[trigger] ids@[j]).pass_id == ss_claim.dist_claim_id.pass_id
                    && ids@[j].receiver == ss_claim.receivers@[j],
                !some_ill_typed(events_map, firsts.take(i as int)),
                read_workflows(tails_of(events_map, firsts.take(i as int)), events@),
            decreases ids.len() - i,
        {
            let desc = SsWorkflowDescriptor::Distribution(ids[i].clone());
            proof {
                assert(first_id_of(desc.descriptor()) == firsts[i as int]);
                assert(firsts.take(i + 1).drop_last() =~= firsts.take(i as int));
                assert(firsts.take(i + 1).last() == firsts[i as int]);
            }
            match p_obj.find_tail_event(desc) {
                None => {},
                Some(GenericKvLogEvent::Ss(SsKvLogEvent::SsWorkflow(obj))) => {
                    events.push(obj.clone());
                },
                Some(_) => {
                    proof {
                        assert(ill_typed(tail_event(events_map, firsts[i as int]), |e| is_ss_workflow(e)));
                    }
                    return Err(CoreError::WrongEventType);
                },
            }
            proof {
                assert forall|j: int| 0 <= j < firsts.take(i + 1).len() implies !ill_typed(
                    tail_event(events_map, #[trigger] firsts.take(i + 1)[j]),
                    |e| is_ss_workflow(e),
                ) by {
                    if j < i {
                        assert(firsts.take(i + 1)[j] == firsts.take(i as int)[j]);
                    }
                }
            }
            i = i + 1;
        }
        proof {
            assert(firsts.take(i as int) =~= firsts);
        }
        Ok(events)
    }
}

} // verus!
