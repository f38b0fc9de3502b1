//! The vault part of a synchronisation: where to resume the upload of the device's logs,
//! how the device stores the events the server sends, and which members joined since the
//! last synchronisation.
use vstd::prelude::*;
use crate::collections::{views_of, KeyEq};
use crate::db::descriptors::{DeviceLogDescriptor, SsDeviceLogDescriptor, VaultDescriptor};
use crate::db::events::{GenericKvLogEvent, VaultKvLogEvent};
use crate::db::generic_db::{KvLogEventRepo, SaveCommand};
use crate::db::object_id::{ArtifactId, SeqId};
use crate::db::objects::persistent_vault::{as_vault, vault_first};
use crate::db::store::{save_all, tail_event, PersistentObject};
use crate::error::CoreError;
use crate::model::device::DeviceId;
use crate::model::secret::contains_device;
use crate::model::user::{UserDataMember, UserId};
use crate::model::vault::VaultName;
use crate::model::vault_data::member_users;

verus! {

/// The server's last known event of the device log, or the first event of that log.
pub fn device_log_tail(server_tail: Option<ArtifactId>, user_id: UserId) -> (r: ArtifactId)
    ensures
        server_tail matches Some(t) ==> r == t,
        server_tail is None ==> r.fqdn.obj_type@ == "DeviceLog"@ && r.fqdn.obj_instance@ == user_id.device_id@
            && r.id == (SeqId { curr: 1, prev: 0 }),
{
    match server_tail {
        Some(tail) => tail,
        None => ArtifactId::from_descriptor(DeviceLogDescriptor::from(user_id)),
    }
}

/// The server's last known event of the device's claim log, or the first event of that log.
pub fn ss_device_log_tail(server_tail: Option<ArtifactId>, device_id: DeviceId) -> (r: ArtifactId)
    ensures
        server_tail matches Some(t) ==> r == t,
        server_tail is None ==> r.fqdn.obj_type@ == "SsDeviceLog"@ && r.fqdn.obj_instance@ == device_id@
            && r.id == (SeqId { curr: 1, prev: 0 }),
{
    match server_tail {
        Some(tail) => tail,
        None => ArtifactId::from_descriptor(SsDeviceLogDescriptor::from(device_id)),
    }
}

pub open spec fn member_device() -> spec_fn(UserDataMember) -> Seq<char> {
    |m: UserDataMember| m.user_data.device.device_id@
}

/// The members of `current` whose device is not among `previous`, in order.
pub open spec fn joined_since(previous: Seq<Seq<char>>, current: Seq<UserDataMember>) -> Seq<UserDataMember>
    decreases current.len(),
{
    if current.len() == 0 {
        Seq::empty()
    } else {
        let rest = joined_since(previous, current.drop_last());
        if previous.contains(current.last().user_data.device.device_id@) {
            rest
        } else {
            rest.push(current.last())
        }
    }
}

fn member_devices(members: &Vec<UserDataMember>) -> (r: Vec<DeviceId>)
    ensures
        views_of(r@) == members@.map_values(member_device()),
{
    let mut out: Vec<DeviceId> = Vec::new();
    let mut i: usize = 0;
    while i < members.len()
        invariant
            i <= members.len(),
            views_of(out@) == members@.take(i as int).map_values(member_device()),
        decreases members.len() - i,
    {
        let ghost before = out@;
        out.push(members[i].user_data.device.device_id.clone());
        proof {
            assert(views_of(out@) =~= views_of(before).push(members@[i as int].user_data.device.device_id@));
            assert(members@.take(i + 1).map_values(member_device()) =~= members@.take(i as int).map_values(
                member_device(),
            ).push(members@[i as int].user_data.device.device_id@));
        }
        i = i + 1;
        proof {
            assert(views_of(out@) =~= members@.take(i as int).map_values(member_device()));
        }
    }
    proof {
        assert(members@.take(i as int) =~= members@);
    }
    out
}

/// The members that joined the vault since the previous synchronisation: each gets its
/// shares of the existing passwords.
pub fn newly_joined_members(previous: &Vec<UserDataMember>, current: &Vec<UserDataMember>) -> (r: Vec<UserDataMember>)
    ensures
        r@ == joined_since(previous@.map_values(member_device()), current@),
{
    let previous_ids = member_devices(previous);
    let ghost prev = previous@.map_values(member_device());
    let mut out: Vec<UserDataMember> = Vec::new();
    let mut i: usize = 0;
    while i < current.len()
        invariant
            i <= current.len(),
            views_of(previous_ids@) == prev,
            out@ == joined_since(prev, current@.take(i as int)),
        decreases current.len() - i,
    {
        proof {
            assert(current@.take(i + 1).drop_last() =~= current@.take(i as int));
        }
        if !contains_device(&previous_ids, &current[i].user_data.device.device_id) {
            out.push(current[i].clone());
        }
        i = i + 1;
    }
    proof {
        assert(current@.take(i as int) =~= current@);
    }
    out
}

/// The members of the vault as this device last stored it; nobody when it has not
/// stored the vault yet.
pub fn local_vault_members<Repo: KvLogEventRepo>(
    p_obj: &PersistentObject<Repo>,
    vault_name: VaultName,
) -> (r: Result<Vec<UserDataMember>, CoreError>)
    ensures
        match tail_event(p_obj.repo.events(), vault_first(vault_name@)) {
            None => r matches Ok(v) && v@.len() == 0,
            Some(e) => match as_vault(e) {
                Some(o) => r matches Ok(v) && views_of(v@) == member_users(o.0.value.users.entry_seq()),
                None => r == Err::<Vec<UserDataMember>, CoreError>(CoreError::WrongEventType),
            },
        },
{
    match p_obj.find_tail_event(VaultDescriptor::from(vault_name)) {
        None => Ok(Vec::new()),
        Some(GenericKvLogEvent::Vault(VaultKvLogEvent::Vault(obj))) => Ok(obj.0.value.members()),
        Some(_) => Err(CoreError::WrongEventType),
    }
}

/// Store the events that the server sent, in the order it sent them.
pub fn save_server_events<Repo: KvLogEventRepo>(p_obj: &mut PersistentObject<Repo>, events: Vec<GenericKvLogEvent>)
    ensures
        final(p_obj).repo.events() == save_all(old(p_obj).repo.events(), events@),
{
    let ghost start = p_obj.repo.events();
    let ghost all = events@;
    assert(all.len() == events.len());
    let mut rest = events;
    let mut k: usize = 0;
    while rest.len() > 0
        invariant
            k <= all.len() <= usize::MAX,
            rest@ == all.skip(k as int),
            p_obj.repo.events() == save_all(start, all.take(k as int)),
        decreases rest.len(),
    {
        assert(rest@.len() == all.len() - k);
        let event = rest.remove(0);
        proof {
            assert(all.take(k + 1).drop_last() =~= all.take(k as int));
            assert(all.take(k + 1).last() == event);
        }
        p_obj.repo.save(event);
        k = k + 1;
        proof {
            assert(rest@ =~= all.skip(k as int));
        }
    }
    proof {
        assert(all.take(k as int) =~= all);
    }
}

} // verus!
