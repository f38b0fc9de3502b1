use meta_secret_core::actions::orchestration::{
    claims_to_accept, decline_claim, has_join_request, local_recovery_id, pending_join_requests, recover_claim_to_accept,
};
use meta_secret_core::actions::recovery::{
    first_sent_receiver, mark_delivered, recovery_claims_for, require_member_status, retire_stale_claim,
    stale_recovery_claims,
};
use meta_secret_core::actions::redistribution::{
    add_joined_receiver, find_split_claim, find_split_claim_in, recovery_candidates, redistribution_done,
    shares_needed,
};
use meta_secret_core::actions::vault_actions::{
    find_status, join_update, plan_vault_update, refresh_status, request_update, sign_up_step, vault_status_event,
    JoinActionUpdate, SignUpAction, SignUpStep,
};
use meta_secret_core::db::descriptors::{ObjectDescriptor, VaultDescriptor, VaultStatusDescriptor};
use meta_secret_core::db::events::{GenericKvLogEvent, VaultKvLogEvent, VaultObject};
use meta_secret_core::db::object_id::{ArtifactId, KvKey};
use meta_secret_core::error::CoreError;
use meta_secret_core::events::vault_log::{
    AddMetaPassEvent, JoinClusterEvent, VaultActionEvents, VaultActionRequestEvent, VaultActionUpdateEvent,
};
use meta_secret_core::ids::{Base64Text, Id48bit, U64IdUrlEnc};
use meta_secret_core::model::creds::{DeviceCredsBuilder, UserCreds, UserCredsBuilder};
use meta_secret_core::model::device::{DeviceId, DeviceName};
use meta_secret_core::model::keys::{DsaPk, DsaSk, KeyManager, TransportPk, TransportSk};
use meta_secret_core::model::meta_pass::MetaPasswordId;
use meta_secret_core::model::secret::{
    ClaimId, RecoveryClientStatus, SecretDistributionType, SsClaim, SsClaimId, SsDistributionCompositeStatus,
    SsDistributionStatus, SsLogData,
};
use meta_secret_core::model::user::{UserDataMember, UserDataOutsider, UserDataOutsiderStatus, UserMembership};
use meta_secret_core::model::vault::{VaultMember, VaultName, VaultStatus};
use meta_secret_core::model::vault_data::VaultData;

fn key_manager(name: &str) -> KeyManager {
    KeyManager {
        dsa_pk: DsaPk(Base64Text(format!("dsa-pk-{}", name))),
        dsa_sk: DsaSk(Base64Text(format!("dsa-sk-{}", name))),
        transport_pk: TransportPk(Base64Text(format!("transport-pk-{}", name))),
        transport_sk: TransportSk(Base64Text(format!("transport-sk-{}", name))),
    }
}

fn user_creds(name: &str) -> UserCreds {
    let device_creds = DeviceCredsBuilder::init(key_manager(name)).build(DeviceName::from(name)).creds;
    UserCredsBuilder::init(device_creds).build(VaultName::test()).creds
}

fn device(name: &str) -> DeviceId {
    user_creds(name).device_creds.device.device_id
}

fn pass(name: &str) -> MetaPasswordId {
    MetaPasswordId { id: U64IdUrlEnc::from_text(name), name: name.to_string() }
}

fn claim(sender: DeviceId, pass_id: MetaPasswordId, kind: SecretDistributionType, receivers: Vec<DeviceId>) -> SsClaim {
    let claim_id = ClaimId::from(Id48bit::generate());
    SsClaim {
        id: claim_id.clone(),
        dist_claim_id: SsClaimId { id: claim_id, pass_id },
        vault_name: VaultName::test(),
        sender,
        distribution_type: kind,
        receivers: receivers.clone(),
        status: SsDistributionCompositeStatus::from(receivers),
        client_status: None,
    }
}

fn vault_of(names: &[&str]) -> VaultData {
    let mut vault = VaultData::from(UserDataMember::from(user_creds(names[0]).user()));
    for name in &names[1..] {
        vault = vault.update_membership(UserMembership::Member(UserDataMember::from(user_creds(name).user())));
    }
    vault
}

#[test]
fn split_claim_is_found_in_the_log_and_in_sent_claims() {
    let local = device("a");
    let other = device("b");
    let split = claim(local.clone(), pass("p1"), SecretDistributionType::Split, vec![other.clone()]);
    let foreign = claim(other.clone(), pass("p1"), SecretDistributionType::Split, vec![local.clone()]);
    let recover = claim(local.clone(), pass("p1"), SecretDistributionType::Recover, vec![other.clone()]);
    let log = SsLogData::new(foreign.clone()).insert(recover.clone()).insert(split.clone());

    let found = find_split_claim(&log, &local, &pass("p1")).unwrap();
    assert_eq!(found.id, split.id);
    assert!(find_split_claim(&log, &local, &pass("p2")).is_none());

    let sent = vec![foreign, recover, split.clone()];
    assert_eq!(find_split_claim_in(&sent, &local, &pass("p1")).unwrap().id, split.id);
    assert!(find_split_claim_in(&sent, &other, &pass("p2")).is_none());
}

#[test]
fn redistribution_is_done_only_with_share_and_receiver() {
    let local = device("a");
    let joined = device("c");
    let c = claim(local.clone(), pass("p"), SecretDistributionType::Split, vec![device("b")]);
    assert!(!redistribution_done(true, &c, &joined));
    let c = add_joined_receiver(c, joined.clone());
    assert!(redistribution_done(true, &c, &joined));
    assert!(!redistribution_done(false, &c, &joined));
}

#[test]
fn joined_receiver_is_added_once_and_pending() {
    let joined = device("c");
    let c = claim(device("a"), pass("p"), SecretDistributionType::Split, vec![device("b")]);
    let c = c.clone();
    let mut c = c;
    c.status = c.status.sent(device("b"));
    let once = add_joined_receiver(c, joined.clone());
    assert_eq!(once.receivers, vec![device("b"), joined.clone()]);
    assert_eq!(once.status.get(&joined), Some(&SsDistributionStatus::Pending));
    assert_eq!(once.status.get(&device("b")), Some(&SsDistributionStatus::Sent));
    let twice = add_joined_receiver(once.clone(), joined.clone());
    assert_eq!(twice.receivers, once.receivers);
}

#[test]
fn shares_needed_is_at_least_one() {
    assert_eq!(shares_needed(None), 1);
    assert_eq!(shares_needed(Some(0)), 1);
    assert_eq!(shares_needed(Some(3)), 3);
}

#[test]
fn recovery_candidates_are_sorted_unique_and_exclude_local() {
    let vault = vault_of(&["a", "b", "c", "d"]);
    let mut members = vault.members();
    members.push(members[1].clone());
    let local = device("c");
    let candidates = recovery_candidates(&members, &local);
    let mut expected: Vec<String> =
        ["a", "b", "d"].iter().map(|n| device(n).to_string()).collect();
    expected.sort();
    let got: Vec<String> = candidates.iter().map(|d| d.to_string()).collect();
    assert_eq!(got, expected);
}

#[test]
fn stale_recovery_claims_are_retired_by_declining_sent_receivers() {
    let sender = device("a");
    let (r1, r2) = (device("b"), device("c"));
    let mut stale = claim(sender.clone(), pass("p"), SecretDistributionType::Recover, vec![r1.clone(), r2.clone()]);
    stale.status = stale.status.sent(r1.clone());
    let fresh = claim(sender.clone(), pass("p"), SecretDistributionType::Recover, vec![r1.clone()]);
    let other_pass = {
        let mut c = claim(sender.clone(), pass("q"), SecretDistributionType::Recover, vec![r1.clone()]);
        c.status = c.status.sent(r1.clone());
        c
    };
    let log = SsLogData::new(stale.clone()).insert(fresh).insert(other_pass);

    let found = stale_recovery_claims(&log, &sender, &pass("p"));
    assert_eq!(found.len(), 1);
    assert_eq!(found[0].id, stale.id);

    let retired = retire_stale_claim(found[0].clone());
    assert_eq!(retired.status.get(&r1), Some(&SsDistributionStatus::Declined));
    assert_eq!(retired.status.get(&r2), Some(&SsDistributionStatus::Pending));
    assert_ne!(retired.compute_client_status(&sender), Some(RecoveryClientStatus::Done));

    assert_eq!(recovery_claims_for(&log, &pass("p")).len(), 2);
}

#[test]
fn delivered_marking_completes_a_sent_receiver() {
    let sender = device("a");
    let r1 = device("b");
    let c = claim(sender.clone(), pass("p"), SecretDistributionType::Recover, vec![r1.clone()]);
    assert!(first_sent_receiver(&c.status).is_none());
    assert!(mark_delivered(&c).is_none());
    let mut c = c;
    c.status = c.status.sent(r1.clone());
    assert_eq!(first_sent_receiver(&c.status), Some(r1.clone()));
    let done = mark_delivered(&c).unwrap();
    assert_eq!(done.status.get(&r1), Some(&SsDistributionStatus::Delivered));
    assert_eq!(done.compute_client_status(&sender), Some(RecoveryClientStatus::Done));
}

#[test]
fn only_members_request_recovery() {
    let user = user_creds("a").user();
    assert_eq!(require_member_status(VaultStatus::NotExists(user.clone())).unwrap_err(), CoreError::NotAVaultMember);
    assert_eq!(
        require_member_status(VaultStatus::Outsider(UserDataOutsider::non_member(user.clone()))).unwrap_err(),
        CoreError::NotAVaultMember
    );
    assert!(require_member_status(VaultStatus::Member(UserDataMember::from(user))).is_ok());
}

#[test]
fn orchestrator_finds_join_requests_and_claims() {
    let candidate = JoinClusterEvent::from(user_creds("b").user());
    let events = VaultActionEvents::default()
        .request(VaultActionRequestEvent::JoinCluster(candidate.clone()))
        .request(VaultActionRequestEvent::AddMetaPass(AddMetaPassEvent {
            sender: UserDataMember::from(user_creds("a").user()),
            meta_pass_id: pass("p"),
        }));
    let joins = pending_join_requests(&events);
    assert_eq!(joins, vec![candidate.clone()]);
    assert!(has_join_request(&events, &candidate));
    assert!(!has_join_request(&events, &JoinClusterEvent::from(user_creds("c").user())));

    let local = device("b");
    let recover = claim(device("a"), pass("p"), SecretDistributionType::Recover, vec![local.clone()]);
    let split = claim(device("a"), pass("p"), SecretDistributionType::Split, vec![local.clone()]);
    let log = SsLogData::new(recover.clone()).insert(split.clone());
    assert!(recover_claim_to_accept(&log, &recover.id).is_some());
    assert!(recover_claim_to_accept(&log, &split.id).is_none());

    let declined = decline_claim(&log, &recover.id, local.clone()).unwrap();
    assert_eq!(declined.status.get(&local), Some(&SsDistributionStatus::Declined));
    let missing = ClaimId::from(Id48bit::generate());
    assert_eq!(decline_claim(&log, &missing, local.clone()).unwrap_err(), CoreError::ClaimNotFound);

    let id = local_recovery_id(&recover, &local).unwrap();
    assert_eq!(id.distribution_id.receiver, local);
    assert_eq!(id.sender, device("a"));
    assert!(local_recovery_id(&recover, &device("z")).is_none());
}

#[test]
fn join_update_accepts_or_declines_candidates() {
    let vault = vault_of(&["a"]);
    let member = VaultMember { member: UserDataMember::from(user_creds("a").user()), vault };
    let request = JoinClusterEvent::from(user_creds("b").user());

    let accepted = join_update(&member, request.clone(), JoinActionUpdate::Accept).unwrap();
    assert!(matches!(accepted.update, UserMembership::Member(_)));
    assert_eq!(accepted.sender, member.member);

    let declined = join_update(&member, request.clone(), JoinActionUpdate::Decline).unwrap();
    match declined.update {
        UserMembership::Outsider(o) => assert_eq!(o.status, UserDataOutsiderStatus::Declined),
        _ => panic!("expected an outsider"),
    }

    let own = JoinClusterEvent::from(user_creds("a").user());
    assert_eq!(join_update(&member, own, JoinActionUpdate::Accept).unwrap_err(), CoreError::AlreadyMember);

    let vault = vault_of(&["a"]).update_membership(UserMembership::Outsider(UserDataOutsider {
        user_data: user_creds("b").user(),
        status: UserDataOutsiderStatus::Declined,
    }));
    let member = VaultMember { member: UserDataMember::from(user_creds("a").user()), vault };
    assert_eq!(join_update(&member, request, JoinActionUpdate::Accept).unwrap_err(), CoreError::JoinRequestDeclined);
}

#[test]
fn sign_up_steps_follow_the_status() {
    let user = user_creds("a").user();
    assert!(matches!(sign_up_step(&VaultStatus::NotExists(user.clone())), SignUpStep::CreateVault(_)));
    assert!(matches!(
        sign_up_step(&VaultStatus::Outsider(UserDataOutsider::non_member(user.clone()))),
        SignUpStep::JoinRequest(_)
    ));
    assert!(matches!(
        sign_up_step(&VaultStatus::Outsider(UserDataOutsider::pending(user.clone()))),
        SignUpStep::Nothing
    ));
    assert!(matches!(sign_up_step(&VaultStatus::Member(UserDataMember::from(user))), SignUpStep::Nothing));
}

#[test]
fn test_sing_up() {
    let member = UserDataMember::from(user_creds("a").user());
    let events = SignUpAction.accept(member.clone());
    assert_eq!(events.len(), 2);
    match &events[0] {
        GenericKvLogEvent::Vault(VaultKvLogEvent::VaultLog(obj)) => {
            assert!(obj.0.key.obj_id.fqdn.obj_instance.contains(&member.user_data.vault_name.to_string()));
        }
        _ => panic!("VaultLog should be the first event"),
    }
    match &events[1] {
        GenericKvLogEvent::Vault(VaultKvLogEvent::Vault(obj)) => {
            assert_eq!(obj.0.value.users.len(), 1);
        }
        _ => panic!("Vault should be the second event"),
    }
}

#[test]
fn server_update_plan_applies_join_and_records_status() {
    let owner = UserDataMember::from(user_creds("a").user());
    let vault_obj = VaultObject::sign_up(VaultName::test(), owner.clone());
    let candidate = user_creds("b").user();
    let request = VaultActionRequestEvent::JoinCluster(JoinClusterEvent::from(candidate.clone()));
    let update = request_update(&request);
    assert!(matches!(update, VaultActionUpdateEvent::AddToPending { .. }));

    let plan = plan_vault_update(vault_obj, VaultActionEvents::default(), update);
    assert_eq!(plan.vault.0.key.obj_id.id.curr, 2);
    assert_eq!(plan.vault.0.value.outsiders().len(), 1);
    assert_eq!(plan.events.updates.len(), 0);
    let status_update = plan.status_update.unwrap();
    let free_id = ArtifactId::from_descriptor(VaultStatusDescriptor::from(candidate.user_id()));
    let status_obj = vault_status_event(&plan.vault.0.value, &status_update, free_id);
    match status_obj.0.value {
        VaultStatus::Outsider(o) => assert_eq!(o.status, UserDataOutsiderStatus::Pending),
        _ => panic!("expected a pending outsider"),
    }
}

#[test]
fn vault_status_is_found_and_refreshed() {
    let owner = user_creds("a").user();
    let stranger = user_creds("b").user();
    let vault_obj = || VaultObject::sign_up(VaultName::test(), UserDataMember::from(owner.clone()));
    let first_key = || KvKey::from(VaultStatusDescriptor::from(owner.user_id()));

    assert_eq!(find_status(None, None, owner.clone()).unwrap_err(), CoreError::VaultStatusMissing);
    assert_eq!(find_status(Some(vault_obj()), None, owner.clone()).unwrap_err(), CoreError::VaultWithoutStatus);

    let (status, saved) = refresh_status(None, None, owner.clone(), first_key()).unwrap();
    assert!(matches!(status, VaultStatus::NotExists(_)));
    let saved = saved.unwrap();
    assert!(matches!(saved.0.value, VaultStatus::NotExists(_)));

    let found = find_status(None, Some(saved), owner.clone()).unwrap();
    assert!(matches!(found, VaultStatus::NotExists(_)));

    let (status, saved) = refresh_status(Some(vault_obj()), None, owner.clone(), first_key()).unwrap();
    assert!(matches!(status, VaultStatus::Member(_)));
    let saved = saved.unwrap();

    let (_, again) = refresh_status(Some(vault_obj()), Some(saved), owner.clone(), first_key()).unwrap();
    assert!(again.is_none());

    let stale = meta_secret_core::db::events::VaultStatusObject(meta_secret_core::db::object_id::KvLogEvent {
        key: first_key(),
        value: VaultStatus::NotExists(owner.clone()),
    });
    let (status, updated) = refresh_status(Some(vault_obj()), Some(stale), owner.clone(), first_key()).unwrap();
    assert!(matches!(status, VaultStatus::Member(_)));
    assert_eq!(updated.unwrap().0.key.obj_id.id.curr, 2);

    let outsider = find_status(Some(vault_obj()), Some(outsider_status_object(&stranger)), stranger.clone()).unwrap();
    assert!(matches!(outsider, VaultStatus::Outsider(_)));

    let member_status = meta_secret_core::db::events::VaultStatusObject(meta_secret_core::db::object_id::KvLogEvent {
        key: first_key(),
        value: VaultStatus::Member(UserDataMember::from(owner.clone())),
    });
    assert_eq!(refresh_status(None, Some(member_status), owner.clone(), first_key()).unwrap_err(), CoreError::InvalidMembershipState);
    let _ = ObjectDescriptor::Vault(VaultDescriptor::from(VaultName::test()));
}

fn outsider_status_object(user: &meta_secret_core::model::user::UserData) -> meta_secret_core::db::events::VaultStatusObject {
    meta_secret_core::db::events::VaultStatusObject(meta_secret_core::db::object_id::KvLogEvent {
        key: KvKey::from(VaultStatusDescriptor::from(user.user_id())),
        value: VaultStatus::Outsider(UserDataOutsider::non_member(user.clone())),
    })
}

#[test]
fn every_claim_of_the_log_is_offered_for_approval() {
    let first = claim(device("a"), pass("p"), SecretDistributionType::Recover, vec![device("b")]);
    let second = claim(device("b"), pass("q"), SecretDistributionType::Split, vec![device("a")]);
    let log = SsLogData::new(first.clone()).insert(second.clone());
    let ids = claims_to_accept(&log);
    assert_eq!(ids.len(), 2);
    assert_eq!(ids[0], first.id);
    assert_eq!(ids[1], second.id);
}
