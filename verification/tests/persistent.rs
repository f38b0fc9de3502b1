use meta_secret_core::actions::orchestration::MetaOrchestrator;
use meta_secret_core::actions::recovery::{recovery_answers, save_recovery_answer, RecoveryAction, RecoveryHandler};
use meta_secret_core::model::secret::SsDistributionStatus;
use meta_secret_core::actions::vault_actions::{
    CreateVaultAction, JoinAction, JoinActionUpdate, ServerVaultAction, SignUpClaim,
};
use meta_secret_core::db::descriptors::{
    DeviceLogDescriptor, SsDeviceLogDescriptor, SsWorkflowDescriptor, VaultDescriptor, VaultStatusDescriptor,
};
use meta_secret_core::db::events::{
    GenericKvLogEvent, SsKvLogEvent, SsWorkflowObject, ToGenericEvent, VaultKvLogEvent, VaultObject,
    VaultStatusObject,
};
use meta_secret_core::db::generic_db::{DbCleanUpCommand, DeleteCommand, FindOneQuery, SaveCommand};
use meta_secret_core::db::object_id::{ArtifactId, KvKey, KvLogEvent, Next};
use meta_secret_core::db::objects::persistent_device_log::PersistentDeviceLog;
use meta_secret_core::db::objects::persistent_shared_secret::PersistentSharedSecret;
use meta_secret_core::db::objects::persistent_vault::PersistentVault;
use meta_secret_core::db::store::{InMemKvLogEventRepo, PersistentObject};
use meta_secret_core::server::ServerSyncGateway;
use meta_secret_core::model::app_state::{
    client_request_plan, read_app_state, ApplicationState, ClientAction, GenericAppStateRequest, UserCredsSource,
    VaultFullInfo,
};
use meta_secret_core::actions::redistribution::{
    candidate_shares, redistribution_start, store_redistribution, RedistributionStart,
};
use meta_secret_core::sync::ss_sync::{
    cleanup_foreign_sender_distributions, local_recovery_uploads, save_server_ss_events, ss_log_uploads,
};
use meta_secret_core::sync::vault_sync::{local_vault_members, save_server_events};
use meta_secret_core::error::CoreError;
use meta_secret_core::events::vault_log::{
    AddMetaPassEvent, CreateVaultEvent, JoinClusterEvent, VaultActionEvent, VaultActionInitEvent,
    VaultActionRequestEvent,
};
use meta_secret_core::ids::{Base64Text, Id48bit, U64IdUrlEnc};
use meta_secret_core::model::aead::{AeadCipherText, EncryptedMessage};
use meta_secret_core::model::creds::{DeviceCredsBuilder, UserCreds, UserCredsBuilder};
use meta_secret_core::model::device::{DeviceData, DeviceName};
use meta_secret_core::model::keys::{DsaPk, DsaSk, KeyManager, TransportPk, TransportSk};
use meta_secret_core::model::meta_pass::MetaPasswordId;
use meta_secret_core::model::secret::{
    ClaimId, SecretDistributionData, SecretDistributionType, SsClaim, SsClaimId, SsDistributionCompositeStatus,
    SsDistributionId, SsRecoveryId,
};
use meta_secret_core::model::user::{UserData, UserDataMember, UserDataOutsider, UserDataOutsiderStatus};
use meta_secret_core::model::vault::{VaultMember, VaultName, VaultStatus};

fn key_manager(name: &str) -> KeyManager {
    KeyManager {
        dsa_pk: DsaPk(Base64Text(format!("dsa-pk-{}", name))),
        dsa_sk: DsaSk(Base64Text(format!("dsa-sk-{}", name))),
        transport_pk: TransportPk(Base64Text(format!("transport-pk-{}", name))),
        transport_sk: TransportSk(Base64Text(format!("transport-sk-{}", name))),
    }
}

fn creds(name: &str) -> UserCreds {
    let device_creds = DeviceCredsBuilder::init(key_manager(name)).build(DeviceName::from(name)).creds;
    UserCredsBuilder::init(device_creds).build(VaultName::test()).creds
}

fn user(name: &str) -> UserData {
    creds(name).user()
}

fn server_device() -> DeviceData {
    creds("server").device_creds.device
}

fn store() -> PersistentObject<InMemKvLogEventRepo> {
    PersistentObject::new(InMemKvLogEventRepo::new())
}

fn status_of(p_obj: &mut PersistentObject<InMemKvLogEventRepo>, u: &UserData) -> Result<VaultStatus, CoreError> {
    PersistentVault { p_obj }.update_vault_membership_info_for_user(u.clone())
}

fn create_vault(p_obj: &mut PersistentObject<InMemKvLogEventRepo>, owner: &UserData) {
    let event = VaultActionEvent::Init(VaultActionInitEvent::CreateVault(CreateVaultEvent {
        owner: UserDataMember::from(owner.clone()),
    }));
    ServerVaultAction { p_obj, server_device: server_device() }.do_processing(event).unwrap();
}

#[test]
fn test_in_mem_repo_basic_operations() {
    let mut repo = InMemKvLogEventRepo::new();
    let owner = UserDataMember::from(user("a"));
    let vault = VaultObject::sign_up(VaultName::test(), owner);
    let id = repo.save(vault.to_generic());
    assert!(repo.find_one(&id).is_some());
    assert_eq!(repo.get_key(&id), Some(id.clone()));
    repo.delete(&id);
    assert!(repo.find_one(&id).is_none());
    assert_eq!(repo.get_key(&id), None);
}

#[test]
fn test_db_clean_up() {
    let mut repo = InMemKvLogEventRepo::new();
    let owner = UserDataMember::from(user("a"));
    repo.save(VaultObject::sign_up(VaultName::test(), owner).to_generic());
    assert_eq!(repo.len(), 1);
    repo.db_clean_up();
    assert_eq!(repo.len(), 0);
}

#[test]
fn test_find_non_existent_vault_and_status() {
    let mut p_obj = store();
    let result = PersistentVault { p_obj: &mut p_obj }.find(user("a"));
    assert_eq!(result.unwrap_err(), CoreError::VaultStatusMissing);
}

#[test]
fn test_find_existing_vault_no_status() {
    let mut p_obj = store();
    let owner = user("a");
    p_obj.repo.save(VaultObject::sign_up(VaultName::test(), UserDataMember::from(owner.clone())).to_generic());
    let result = PersistentVault { p_obj: &mut p_obj }.find(owner);
    assert_eq!(result.unwrap_err(), CoreError::VaultWithoutStatus);
}

#[test]
fn test_find_status_no_vault() {
    let mut p_obj = store();
    let u = user("a");
    let status_id = ArtifactId::from_descriptor(VaultStatusDescriptor::from(u.user_id()));
    p_obj.repo.save(VaultStatusObject::new(VaultStatus::NotExists(u.clone()), status_id).to_generic());
    let result = PersistentVault { p_obj: &mut p_obj }.find(u).unwrap();
    assert!(matches!(result, VaultStatus::NotExists(_)));
}

#[test]
fn test_find_with_outsider_status() {
    let mut p_obj = store();
    let u = user("a");
    let status_id = ArtifactId::from_descriptor(VaultStatusDescriptor::from(u.user_id()));
    let outsider = VaultStatus::Outsider(UserDataOutsider::non_member(u.clone()));
    p_obj.repo.save(VaultStatusObject::new(outsider, status_id).to_generic());
    let result = PersistentVault { p_obj: &mut p_obj }.find(u).unwrap();
    assert!(matches!(result, VaultStatus::Outsider(_)));
}

#[test]
fn test_find_with_vault_and_status() {
    let mut p_obj = store();
    let u = user("a");
    let member = UserDataMember::from(u.clone());
    p_obj.repo.save(VaultObject::sign_up(VaultName::test(), member.clone()).to_generic());
    let status_id = ArtifactId::from_descriptor(VaultStatusDescriptor::from(u.user_id()));
    p_obj.repo.save(VaultStatusObject::new(VaultStatus::Member(member), status_id).to_generic());
    let result = PersistentVault { p_obj: &mut p_obj }.find(u).unwrap();
    assert!(matches!(result, VaultStatus::Member(_)));
}

#[test]
fn test_create_vault() {
    let mut p_obj = store();
    let owner = user("a");
    assert!(!PersistentVault { p_obj: &mut p_obj }.vault_exists(VaultName::test()).unwrap());
    create_vault(&mut p_obj, &owner);
    assert!(PersistentVault { p_obj: &mut p_obj }.vault_exists(VaultName::test()).unwrap());
    assert_eq!(p_obj.repo.len(), 2);
    let status = status_of(&mut p_obj, &owner).unwrap();
    assert!(matches!(status, VaultStatus::Member(_)));
    // the status is recorded now: reading it again writes nothing more
    assert_eq!(p_obj.repo.len(), 3);
    assert!(matches!(status_of(&mut p_obj, &owner).unwrap(), VaultStatus::Member(_)));
    assert_eq!(p_obj.repo.len(), 3);
    // creating it again changes nothing
    CreateVaultAction { p_obj: &mut p_obj, server_device: server_device() }
        .create(UserDataMember::from(owner.clone()))
        .unwrap();
    assert_eq!(p_obj.repo.len(), 3);
}

#[test]
fn status_of_a_user_without_vault_is_recorded_as_not_exists() {
    let mut p_obj = store();
    let u = user("a");
    assert!(matches!(status_of(&mut p_obj, &u).unwrap(), VaultStatus::NotExists(_)));
    assert_eq!(p_obj.repo.len(), 1);
    let tail = PersistentVault { p_obj: &mut p_obj }.vault_tail(u.clone()).unwrap();
    assert_eq!(tail.vault_status.id.curr, 2);
    assert_eq!(tail.vault.id.curr, 1);
    assert_eq!(tail.vault_log.id.curr, 1);
}

#[test]
fn test_handle_vault_membership_update() {
    let mut p_obj = store();
    let owner = user("a");
    let candidate = user("b");
    create_vault(&mut p_obj, &owner);

    let join = VaultActionEvent::Request(VaultActionRequestEvent::JoinCluster(JoinClusterEvent::from(candidate.clone())));
    ServerVaultAction { p_obj: &mut p_obj, server_device: server_device() }.do_processing(join).unwrap();
    let status = PersistentVault { p_obj: &mut p_obj }.find(candidate.clone()).unwrap();
    match status {
        VaultStatus::Outsider(o) => assert_eq!(o.status, UserDataOutsiderStatus::Pending),
        _ => panic!("the candidate waits for an answer"),
    }
    let log = PersistentVault { p_obj: &mut p_obj }.get_vault_log_artifact(VaultName::test()).unwrap();
    assert_eq!(log.0.value.requests.len(), 1);

    // the owner accepts: the answer goes to the owner's device log, then to the server
    let vault = PersistentVault { p_obj: &mut p_obj }.get_vault(VaultName::test()).unwrap().to_data();
    let member = VaultMember { member: UserDataMember::from(owner.clone()), vault };
    JoinAction { p_obj: &mut p_obj, member }
        .update(JoinClusterEvent::from(candidate.clone()), JoinActionUpdate::Accept)
        .unwrap();
    let owner_log = PersistentDeviceLog { p_obj: &mut p_obj }.find_tail_id(&owner.user_id()).unwrap();
    let answer = match p_obj.repo.find_one(&owner_log) {
        Some(GenericKvLogEvent::Vault(VaultKvLogEvent::DeviceLog(entry))) => entry.0.value.clone(),
        _ => panic!("the answer is in the device log"),
    };
    ServerVaultAction { p_obj: &mut p_obj, server_device: server_device() }.do_processing(answer).unwrap();
    let status = PersistentVault { p_obj: &mut p_obj }.find(candidate.clone()).unwrap();
    assert!(matches!(status, VaultStatus::Member(_)));
    let log = PersistentVault { p_obj: &mut p_obj }.get_vault_log_artifact(VaultName::test()).unwrap();
    assert_eq!(log.0.value.requests.len(), 0);
    assert_eq!(log.0.value.updates.len(), 0);
}

#[test]
fn test_add_meta_pass() {
    let mut p_obj = store();
    let owner = user("a");
    create_vault(&mut p_obj, &owner);
    let pass_id = MetaPasswordId { id: U64IdUrlEnc::from_text("p"), name: "p".to_string() };
    let add = VaultActionEvent::Request(VaultActionRequestEvent::AddMetaPass(AddMetaPassEvent {
        sender: UserDataMember::from(owner.clone()),
        meta_pass_id: pass_id.clone(),
    }));
    ServerVaultAction { p_obj: &mut p_obj, server_device: server_device() }.do_processing(add).unwrap();
    let vault = PersistentVault { p_obj: &mut p_obj }.get_vault(VaultName::test()).unwrap().to_data();
    assert_eq!(vault.secrets.len(), 1);
    let log = PersistentVault { p_obj: &mut p_obj }.get_vault_log_artifact(VaultName::test()).unwrap();
    assert_eq!(log.0.value.requests.len(), 0);
}

#[test]
fn updates_of_a_missing_vault_are_refused() {
    let mut p_obj = store();
    let join = VaultActionEvent::Request(VaultActionRequestEvent::JoinCluster(JoinClusterEvent::from(user("b"))));
    let result = ServerVaultAction { p_obj: &mut p_obj, server_device: server_device() }.do_processing(join);
    assert_eq!(result.unwrap_err(), CoreError::ObjectNotFound);
    assert_eq!(p_obj.repo.len(), 0);
}

#[test]
fn sign_up_asks_to_create_or_to_join() {
    let mut p_obj = store();
    let owner = user("a");
    // no status yet: nothing to decide on
    assert_eq!(SignUpClaim { p_obj: &mut p_obj }.sign_up(owner.clone()).unwrap_err(), CoreError::VaultStatusMissing);
    status_of(&mut p_obj, &owner).unwrap();
    let status = SignUpClaim { p_obj: &mut p_obj }.sign_up(owner.clone()).unwrap();
    assert!(matches!(status, VaultStatus::NotExists(_)));
    let tail = PersistentDeviceLog { p_obj: &mut p_obj }.find_tail_id(&owner.user_id()).unwrap();
    match p_obj.repo.find_one(&tail) {
        Some(GenericKvLogEvent::Vault(VaultKvLogEvent::DeviceLog(entry))) => {
            assert!(matches!(entry.0.value, VaultActionEvent::Init(_)))
        }
        _ => panic!("a create request"),
    }

    create_vault(&mut p_obj, &owner);
    let candidate = user("b");
    status_of(&mut p_obj, &candidate).unwrap();
    let status = SignUpClaim { p_obj: &mut p_obj }.sign_up(candidate.clone()).unwrap();
    assert!(matches!(status, VaultStatus::Outsider(_)));
    let tail = PersistentDeviceLog { p_obj: &mut p_obj }.find_tail_id(&candidate.user_id()).unwrap();
    match p_obj.repo.find_one(&tail) {
        Some(GenericKvLogEvent::Vault(VaultKvLogEvent::DeviceLog(entry))) => {
            assert!(matches!(entry.0.value, VaultActionEvent::Request(VaultActionRequestEvent::JoinCluster(_))))
        }
        _ => panic!("a join request"),
    }
    let _ = DeviceLogDescriptor::from(candidate.user_id());
}

fn claim(sender: &UserData, receivers: Vec<meta_secret_core::model::device::DeviceId>) -> SsClaim {
    let claim_id = ClaimId::from(Id48bit::generate());
    let pass_id = MetaPasswordId { id: U64IdUrlEnc::from_text("p"), name: "p".to_string() };
    SsClaim {
        id: claim_id.clone(),
        dist_claim_id: SsClaimId { id: claim_id, pass_id },
        vault_name: VaultName::test(),
        sender: sender.device.device_id.clone(),
        distribution_type: SecretDistributionType::Recover,
        receivers: receivers.clone(),
        status: SsDistributionCompositeStatus::from(receivers),
        client_status: None,
    }
}

#[test]
fn test_save_claim_in_ss_device_log() {
    let mut p_obj = store();
    let sender = user("a");
    let c = claim(&sender, vec![user("b").device.device_id]);
    PersistentSharedSecret { p_obj: &mut p_obj }.save_claim_in_ss_device_log(c.clone()).unwrap();
    let found = PersistentSharedSecret { p_obj: &mut p_obj }
        .find_ss_device_log_tail_event(sender.device.device_id.clone())
        .unwrap()
        .unwrap();
    assert_eq!(found.0.value.id, c.id);
    assert!(PersistentSharedSecret { p_obj: &mut p_obj }.find_ss_device_log_tail_id(&sender.device.device_id).is_some());
    let _ = SsDeviceLogDescriptor::from(sender.device.device_id.clone());
}

#[test]
fn claims_log_keeps_every_claim_by_id() {
    let mut p_obj = store();
    let sender = user("a");
    assert_eq!(PersistentSharedSecret { p_obj: &mut p_obj }.get_ss_log_obj(VaultName::test()).unwrap().claims.len(), 0);
    let first = claim(&sender, vec![user("b").device.device_id]);
    let second = claim(&sender, vec![user("c").device.device_id]);
    PersistentSharedSecret { p_obj: &mut p_obj }.save_ss_log_event(first.clone()).unwrap();
    PersistentSharedSecret { p_obj: &mut p_obj }.save_ss_log_event(second.clone()).unwrap();
    PersistentSharedSecret { p_obj: &mut p_obj }.save_ss_log_event(first.clone()).unwrap();
    let log = PersistentSharedSecret { p_obj: &mut p_obj }.get_ss_log_obj(VaultName::test()).unwrap();
    assert_eq!(log.claims.len(), 2);
    let tail = PersistentSharedSecret { p_obj: &mut p_obj }.find_ss_log_tail_event(VaultName::test()).unwrap().unwrap();
    assert_eq!(tail.0.key.obj_id.id.curr, 3);
}

#[test]
fn shares_of_a_claim_are_read_in_receiver_order() {
    let mut p_obj = store();
    let sender = user("a");
    let b = user("b").device.device_id;
    let c_dev = user("c").device.device_id;
    let c = claim(&sender, vec![b.clone(), c_dev.clone()]);
    let data = SecretDistributionData {
        vault_name: VaultName::test(),
        claim_id: c.dist_claim_id.clone(),
        secret_message: EncryptedMessage::CipherShare {
            share: AeadCipherText { msg: Base64Text("cipher".to_string()), channel: meta_secret_core::model::channel::CommunicationChannel::build(TransportPk(Base64Text("x".to_string())), TransportPk(Base64Text("y".to_string()))) },
        },
    };
    let dist_id = SsDistributionId { pass_id: c.dist_claim_id.pass_id.clone(), receiver: c_dev.clone() };
    let dist = SsWorkflowObject::Distribution(KvLogEvent {
        key: KvKey::from(SsWorkflowDescriptor::Distribution(dist_id.clone())),
        value: data.clone(),
    });
    p_obj.repo.save(dist.to_generic());
    let rec_id = SsRecoveryId { claim_id: c.dist_claim_id.clone(), sender: c.sender.clone(), distribution_id: SsDistributionId { pass_id: c.dist_claim_id.pass_id.clone(), receiver: b.clone() } };
    let rec = SsWorkflowObject::Recovery(KvLogEvent { key: KvKey::from(SsWorkflowDescriptor::Recovery(rec_id)), value: data });
    p_obj.repo.save(rec.to_generic());

    assert_eq!(PersistentSharedSecret { p_obj: &mut p_obj }.get_distributions(c.clone()).unwrap().len(), 1);
    assert_eq!(PersistentSharedSecret { p_obj: &mut p_obj }.get_recoveries(c.clone()).unwrap().len(), 1);
    let all = PersistentSharedSecret { p_obj: &mut p_obj }.get_ss_workflow_events(c.clone()).unwrap();
    assert_eq!(all.len(), 2);
    assert!(matches!(all[0], SsWorkflowObject::Distribution(_)));
    assert!(matches!(all[1], SsWorkflowObject::Recovery(_)));
    assert!(PersistentSharedSecret { p_obj: &mut p_obj }.get_ss_distribution_event_by_id(dist_id).is_ok());
    let missing = SsDistributionId { pass_id: c.dist_claim_id.pass_id.clone(), receiver: b };
    assert_eq!(
        PersistentSharedSecret { p_obj: &mut p_obj }.get_ss_distribution_event_by_id(missing).unwrap_err(),
        CoreError::ObjectNotFound
    );
    let _ = SsKvLogEvent::SsWorkflow;
}

#[test]
fn recovery_request_retires_stale_claims_and_files_a_new_one() {
    let mut p_obj = store();
    let owner_creds = creds("a");
    let owner = owner_creds.user();
    let other = user("b");
    create_vault(&mut p_obj, &owner);
    let vault = PersistentVault { p_obj: &mut p_obj }.get_vault(VaultName::test()).unwrap().to_data();
    let vault = vault.update_membership(meta_secret_core::model::user::UserMembership::Member(UserDataMember::from(other.clone())));
    let key = PersistentVault { p_obj: &mut p_obj }.get_vault(VaultName::test()).unwrap().0.key;
    p_obj.repo.save(VaultObject(KvLogEvent { key: key.next(), value: vault }).to_generic());
    status_of(&mut p_obj, &owner).unwrap();

    // a stale claim: the other member sent its share, the owner never completed it
    let mut stale = claim(&owner, vec![other.device.device_id.clone()]);
    stale.status = stale.status.sent(other.device.device_id.clone());
    PersistentSharedSecret { p_obj: &mut p_obj }.save_ss_log_event(stale.clone()).unwrap();

    let pass_id = stale.dist_claim_id.pass_id.clone();
    RecoveryAction { p_obj: &mut p_obj }.recovery_request(owner_creds.clone(), pass_id.clone()).unwrap();
    let log = PersistentSharedSecret { p_obj: &mut p_obj }.get_ss_log_obj(VaultName::test()).unwrap();
    let retired = log.claims.get(&stale.id).unwrap();
    assert!(matches!(retired.status.get(&other.device.device_id), Some(SsDistributionStatus::Declined)));
    let filed = PersistentSharedSecret { p_obj: &mut p_obj }
        .find_ss_device_log_tail_event(owner.device.device_id.clone())
        .unwrap()
        .unwrap();
    assert_eq!(filed.0.value.distribution_type, SecretDistributionType::Recover);
    assert_eq!(filed.0.value.receivers, vec![other.device.device_id.clone()]);

    // an outsider cannot ask
    let outsider = creds("c");
    status_of(&mut p_obj, &outsider.user()).unwrap();
    assert_eq!(
        RecoveryAction { p_obj: &mut p_obj }.recovery_request(outsider, pass_id).unwrap_err(),
        CoreError::NotAVaultMember
    );
}

#[test]
fn delivered_marking_reaches_every_recovery_claim_for_the_password() {
    let mut p_obj = store();
    let owner_creds = creds("a");
    let owner = owner_creds.user();
    let other = user("b");
    let mut first = claim(&owner, vec![other.device.device_id.clone()]);
    first.status = first.status.sent(other.device.device_id.clone());
    let mut second = claim(&owner, vec![other.device.device_id.clone()]);
    second.status = second.status.sent(other.device.device_id.clone());
    PersistentSharedSecret { p_obj: &mut p_obj }.save_ss_log_event(first.clone()).unwrap();
    PersistentSharedSecret { p_obj: &mut p_obj }.save_ss_log_event(second.clone()).unwrap();

    RecoveryHandler { p_obj: &mut p_obj }.mark_claim_delivered(&owner_creds, &second.id).unwrap();
    let log = PersistentSharedSecret { p_obj: &mut p_obj }.get_ss_log_obj(VaultName::test()).unwrap();
    for c in [&first, &second] {
        let stored = log.claims.get(&c.id).unwrap();
        assert!(matches!(stored.status.get(&other.device.device_id), Some(SsDistributionStatus::Delivered)));
    }
    // an unknown claim changes nothing
    let before = p_obj.repo.len();
    let unknown = ClaimId::from(Id48bit::generate());
    RecoveryHandler { p_obj: &mut p_obj }.mark_claim_delivered(&owner_creds, &unknown).unwrap();
    assert_eq!(p_obj.repo.len(), before);
}

#[test]
fn server_gateway_stores_and_processes_device_events() {
    let mut p_obj = store();
    let owner = user("a");
    // the device asks for its vault through its device log
    PersistentDeviceLog { p_obj: &mut p_obj }.save_create_vault_request(&owner).unwrap();
    let tail = PersistentDeviceLog { p_obj: &mut p_obj }.find_tail_id(&owner.user_id()).unwrap();
    let entry = p_obj.repo.find_one(&tail).unwrap().clone();

    let mut server = store();
    ServerSyncGateway { p_obj: &mut server }.handle_write(server_device(), entry).unwrap();
    // the entry, the vault log and the vault
    assert_eq!(server.repo.len(), 3);
    assert!(PersistentVault { p_obj: &mut server }.vault_exists(VaultName::test()).unwrap());

    // a vault event cannot be written by a device
    let vault_event = VaultObject::sign_up(VaultName::test(), UserDataMember::from(owner.clone())).to_generic();
    assert_eq!(
        ServerSyncGateway { p_obj: &mut server }.handle_write(server_device(), vault_event).unwrap_err(),
        CoreError::WrongEventType
    );
    assert_eq!(server.repo.len(), 3);
}

#[test]
fn vault_replication_sends_vault_events_to_members_only() {
    let mut server = store();
    let owner = user("a");
    create_vault(&mut server, &owner);
    let owner_tail = PersistentVault { p_obj: &mut server }.vault_tail(owner.clone()).unwrap();
    let first_tail = meta_secret_core::api::VaultTail {
        vault_log: ArtifactId::from_descriptor(meta_secret_core::db::descriptors::VaultLogDescriptor::from(VaultName::test())),
        vault: ArtifactId::from_descriptor(meta_secret_core::db::descriptors::VaultDescriptor::from(VaultName::test())),
        vault_status: ArtifactId::from_descriptor(VaultStatusDescriptor::from(owner.user_id())),
    };
    let events = ServerSyncGateway { p_obj: &mut server }
        .vault_replication(meta_secret_core::api::VaultRequest { sender: owner.clone(), tail: first_tail })
        .unwrap();
    // the owner's status, the vault log and the vault
    assert_eq!(events.len(), 3);
    let _ = owner_tail;

    let stranger = user("c");
    let stranger_tail = meta_secret_core::api::VaultTail {
        vault_log: ArtifactId::from_descriptor(meta_secret_core::db::descriptors::VaultLogDescriptor::from(VaultName::test())),
        vault: ArtifactId::from_descriptor(meta_secret_core::db::descriptors::VaultDescriptor::from(VaultName::test())),
        vault_status: ArtifactId::from_descriptor(VaultStatusDescriptor::from(stranger.user_id())),
    };
    let events = ServerSyncGateway { p_obj: &mut server }
        .vault_replication(meta_secret_core::api::VaultRequest { sender: stranger, tail: stranger_tail })
        .unwrap();
    assert_eq!(events.len(), 1);
    assert!(matches!(events[0], GenericKvLogEvent::Vault(VaultKvLogEvent::VaultStatus(_))));
}

#[test]
fn vault_replication_hands_back_the_stored_events() {
    let mut server = store();
    let owner = user("a");
    create_vault(&mut server, &owner);
    let tail = meta_secret_core::api::VaultTail {
        vault_log: ArtifactId::from_descriptor(meta_secret_core::db::descriptors::VaultLogDescriptor::from(VaultName::test())),
        vault: ArtifactId::from_descriptor(meta_secret_core::db::descriptors::VaultDescriptor::from(VaultName::test())),
        vault_status: ArtifactId::from_descriptor(VaultStatusDescriptor::from(owner.user_id())),
    };
    let events = ServerSyncGateway { p_obj: &mut server }
        .vault_replication(meta_secret_core::api::VaultRequest { sender: owner.clone(), tail })
        .unwrap();
    assert_eq!(events.len(), 3);
    match &events[0] {
        GenericKvLogEvent::Vault(VaultKvLogEvent::VaultStatus(status)) => match &status.0.value {
            meta_secret_core::model::vault::VaultStatus::Member(member) => {
                assert_eq!(member.user_data.vault_name, VaultName::test());
            },
            _ => panic!("the owner's status is not membership"),
        },
        _ => panic!("the first event is not the owner's status"),
    }
    match &events[2] {
        GenericKvLogEvent::Vault(VaultKvLogEvent::Vault(vault)) => {
            assert_eq!(vault.0.value.vault_name, VaultName::test());
            assert_eq!(vault.0.value.users.len(), 1);
        },
        _ => panic!("the last event is not the vault"),
    }

    let stranger = user("c");
    let stranger_tail = meta_secret_core::api::VaultTail {
        vault_log: ArtifactId::from_descriptor(meta_secret_core::db::descriptors::VaultLogDescriptor::from(VaultName::test())),
        vault: ArtifactId::from_descriptor(meta_secret_core::db::descriptors::VaultDescriptor::from(VaultName::test())),
        vault_status: ArtifactId::from_descriptor(VaultStatusDescriptor::from(stranger.user_id())),
    };
    let events = ServerSyncGateway { p_obj: &mut server }
        .vault_replication(meta_secret_core::api::VaultRequest { sender: stranger, tail: stranger_tail })
        .unwrap();
    match &events[0] {
        GenericKvLogEvent::Vault(VaultKvLogEvent::VaultStatus(status)) => {
            assert!(matches!(status.0.value, meta_secret_core::model::vault::VaultStatus::Outsider(_)));
        },
        _ => panic!("the stranger's event is not its status"),
    }
}

#[test]
fn vault_reads_report_missing_objects() {
    let mut p_obj = store();
    assert_eq!(
        PersistentVault { p_obj: &mut p_obj }.get_vault(VaultName::test()).unwrap_err(),
        CoreError::ObjectNotFound
    );
    assert_eq!(
        PersistentVault { p_obj: &mut p_obj }.get_vault_log_artifact(VaultName::test()).unwrap_err(),
        CoreError::ObjectNotFound
    );
    assert!(PersistentVault { p_obj: &mut p_obj }.vault_log(VaultName::test()).unwrap().is_none());
    let request = VaultActionRequestEvent::JoinCluster(JoinClusterEvent::from(user("b")));
    assert_eq!(
        PersistentVault { p_obj: &mut p_obj }.save_vault_log_request_event(request).unwrap_err(),
        CoreError::ObjectNotFound
    );
    assert_eq!(p_obj.repo.len(), 0);
}

#[test]
fn a_status_stored_under_the_vault_id_is_a_wrong_event_type() {
    let mut p_obj = store();
    let u = user("a");
    // a status event stored where the vault should be
    let vault_id = ArtifactId::from_descriptor(meta_secret_core::db::descriptors::VaultDescriptor::from(VaultName::test()));
    p_obj.repo.save(VaultStatusObject::new(VaultStatus::NotExists(u.clone()), vault_id).to_generic());
    assert_eq!(PersistentVault { p_obj: &mut p_obj }.get_vault(VaultName::test()).unwrap_err(), CoreError::WrongEventType);
    assert_eq!(PersistentVault { p_obj: &mut p_obj }.find(u).unwrap_err(), CoreError::WrongEventType);
}

#[test]
fn requests_are_appended_to_the_vault_log() {
    let mut p_obj = store();
    let owner = user("a");
    create_vault(&mut p_obj, &owner);
    let request = VaultActionRequestEvent::JoinCluster(JoinClusterEvent::from(user("b")));
    PersistentVault { p_obj: &mut p_obj }.save_vault_log_request_event(request).unwrap();
    let log = PersistentVault { p_obj: &mut p_obj }.vault_log(VaultName::test()).unwrap().unwrap();
    assert_eq!(log.0.key.obj_id.id.curr, 2);
    assert_eq!(log.0.value.requests.len(), 1);
}

#[test]
fn device_log_entries_follow_one_another() {
    let mut p_obj = store();
    let owner = user("a");
    let member = UserDataMember::from(owner.clone());
    let candidate = UserDataOutsider::non_member(user("b"));
    PersistentDeviceLog { p_obj: &mut p_obj }
        .save_add_meta_pass_request(AddMetaPassEvent {
            sender: member.clone(),
            meta_pass_id: MetaPasswordId { id: U64IdUrlEnc::from_text("p"), name: "p".to_string() },
        })
        .unwrap();
    PersistentDeviceLog { p_obj: &mut p_obj }
        .save_accept_join_request_event(JoinClusterEvent::from(user("b")), member, candidate)
        .unwrap();
    let tail = PersistentDeviceLog { p_obj: &mut p_obj }.find_tail_id(&owner.user_id()).unwrap();
    assert_eq!(tail.id.curr, 2);
    match p_obj.repo.find_one(&tail) {
        Some(GenericKvLogEvent::Vault(VaultKvLogEvent::DeviceLog(entry))) => {
            assert!(matches!(entry.0.value, VaultActionEvent::Update(_)))
        }
        _ => panic!("an update"),
    }
}

#[test]
fn join_answers_are_refused_for_members_and_declined_candidates() {
    let mut p_obj = store();
    let owner = user("a");
    let member_data = UserDataMember::from(owner.clone());
    let declined = user("b");
    let vault = meta_secret_core::model::vault_data::VaultData::from(member_data.clone()).update_membership(
        meta_secret_core::model::user::UserMembership::Outsider(UserDataOutsider {
            user_data: declined.clone(),
            status: UserDataOutsiderStatus::Declined,
        }),
    );
    let member = VaultMember { member: member_data.clone(), vault };
    assert_eq!(
        JoinAction { p_obj: &mut p_obj, member: member.clone() }
            .update(JoinClusterEvent::from(declined), JoinActionUpdate::Accept)
            .unwrap_err(),
        CoreError::JoinRequestDeclined
    );
    assert_eq!(
        JoinAction { p_obj: &mut p_obj, member: member.clone() }
            .update(JoinClusterEvent::from(owner.clone()), JoinActionUpdate::Decline)
            .unwrap_err(),
        CoreError::AlreadyMember
    );
    assert_eq!(p_obj.repo.len(), 0);
    JoinAction { p_obj: &mut p_obj, member }
        .update(JoinClusterEvent::from(user("c")), JoinActionUpdate::Decline)
        .unwrap();
    assert_eq!(p_obj.repo.len(), 1);
}

#[test]
fn a_saved_event_is_read_back_as_the_last_one() {
    let mut p_obj = store();
    let sender = user("a");
    let first = claim(&sender, vec![user("b").device.device_id]);
    let second = claim(&sender, vec![user("c").device.device_id]);
    PersistentSharedSecret { p_obj: &mut p_obj }.save_claim_in_ss_device_log(first).unwrap();
    PersistentSharedSecret { p_obj: &mut p_obj }.save_claim_in_ss_device_log(second.clone()).unwrap();
    let last = PersistentSharedSecret { p_obj: &mut p_obj }
        .find_ss_device_log_tail_event(sender.device.device_id.clone())
        .unwrap()
        .unwrap();
    assert_eq!(last.0.value.id, second.id);
    assert_eq!(last.0.key.obj_id.id.curr, 2);
    let next = PersistentSharedSecret { p_obj: &mut p_obj }
        .create_new_ss_log_object(meta_secret_core::model::secret::SsLogData::new(second), VaultName::test())
        .unwrap();
    assert_eq!(next.0.key.obj_id.id.curr, 1);
}

fn full_membership(names: &[&str]) -> meta_secret_core::model::vault_data::VaultData {
    let mut vault = meta_secret_core::model::vault_data::VaultData::from(UserDataMember::from(user(names[0])));
    for name in &names[1..] {
        vault = vault.update_membership(meta_secret_core::model::user::UserMembership::Member(UserDataMember::from(user(name))));
    }
    vault
}

#[test]
fn test_accept_join_request_success() {
    let mut p_obj = store();
    let candidate = user("vd");
    let vault = full_membership(&["client", "client_b"])
        .update_membership(meta_secret_core::model::user::UserMembership::Outsider(UserDataOutsider::non_member(candidate.clone())));
    let member = VaultMember { member: UserDataMember::from(user("client")), vault };
    let result = JoinAction { p_obj: &mut p_obj, member: member.clone() }
        .update(JoinClusterEvent { candidate }, JoinActionUpdate::Accept);
    assert!(result.is_ok(), "Accept join request should succeed");
    let tail = PersistentDeviceLog { p_obj: &mut p_obj }.find_tail_id(&member.member.user().user_id());
    assert!(tail.is_some(), "Expected device log to have an entry after accepting join request");
}

#[test]
fn test_accept_join_request_already_declined() {
    let mut p_obj = store();
    let candidate = user("vd");
    let mut outsider = UserDataOutsider::non_member(candidate.clone());
    outsider.status = UserDataOutsiderStatus::Declined;
    let vault = full_membership(&["client", "client_b"])
        .update_membership(meta_secret_core::model::user::UserMembership::Outsider(outsider));
    let member = VaultMember { member: UserDataMember::from(user("client")), vault };
    let result = JoinAction { p_obj: &mut p_obj, member }.update(JoinClusterEvent { candidate }, JoinActionUpdate::Accept);
    assert!(result.is_err(), "Accept join request should fail for declined user");
    assert_eq!(result.unwrap_err(), CoreError::JoinRequestDeclined);
}

#[test]
fn test_accept_join_request_already_member() {
    let mut p_obj = store();
    let candidate = user("client_b");
    let member = VaultMember { member: UserDataMember::from(user("client")), vault: full_membership(&["client", "client_b"]) };
    let result = JoinAction { p_obj: &mut p_obj, member }.update(JoinClusterEvent { candidate }, JoinActionUpdate::Accept);
    assert!(result.is_err(), "Accept join request should fail for existing member");
    assert_eq!(result.unwrap_err(), CoreError::AlreadyMember);
}

#[test]
fn recover_fails_when_no_recovery_and_no_local_distribution() {
    let mut p_obj = store();
    let sender_creds = creds("a");
    let sender = sender_creds.user();
    let c = claim(&sender, vec![user("b").device.device_id]);
    PersistentSharedSecret { p_obj: &mut p_obj }.save_ss_log_event(c.clone()).unwrap();
    let pass_id = c.dist_claim_id.pass_id.clone();
    let err = RecoveryHandler { p_obj: &mut p_obj }.recovery_shares(&sender_creds, &c.id, &pass_id).unwrap_err();
    assert_eq!(err, CoreError::NoRecoveryShares);
}

fn share_data(c: &SsClaim, text: &str) -> SecretDistributionData {
    SecretDistributionData {
        vault_name: VaultName::test(),
        claim_id: c.dist_claim_id.clone(),
        secret_message: EncryptedMessage::CipherShare {
            share: AeadCipherText {
                msg: Base64Text(text.to_string()),
                channel: meta_secret_core::model::channel::CommunicationChannel::build(
                    key_manager("b").transport_pk,
                    key_manager("a").transport_pk,
                ),
            },
        },
    }
}

#[test]
fn recover_works_without_local_distribution_when_recovery_shares_exist() {
    let mut p_obj = store();
    let sender_creds = creds("a");
    let sender = sender_creds.user();
    let c = claim(&sender, vec![user("b").device.device_id, user("c").device.device_id]);
    PersistentSharedSecret { p_obj: &mut p_obj }.save_ss_log_event(c.clone()).unwrap();
    for (i, recovery_id) in c.recovery_db_ids().into_iter().enumerate() {
        let wf = SsWorkflowObject::Recovery(KvLogEvent {
            key: KvKey::from(SsWorkflowDescriptor::Recovery(recovery_id)),
            value: share_data(&c, &format!("share-{}", i)),
        });
        p_obj.repo.save(wf.to_generic());
    }
    let pass_id = c.dist_claim_id.pass_id.clone();
    let shares = RecoveryHandler { p_obj: &mut p_obj }.recovery_shares(&sender_creds, &c.id, &pass_id).unwrap();
    assert_eq!(shares.len(), 2);
    assert_eq!(shares[0].secret_message.cipher_text().msg, Base64Text("share-0".to_string()));
    assert_eq!(shares[1].secret_message.cipher_text().msg, Base64Text("share-1".to_string()));

    // the device's own share comes last
    let own = SsWorkflowObject::Distribution(KvLogEvent {
        key: KvKey::from(SsWorkflowDescriptor::Distribution(SsDistributionId {
            pass_id: pass_id.clone(),
            receiver: sender.device.device_id.clone(),
        })),
        value: share_data(&c, "own"),
    });
    p_obj.repo.save(own.to_generic());
    let shares = RecoveryHandler { p_obj: &mut p_obj }.recovery_shares(&sender_creds, &c.id, &pass_id).unwrap();
    assert_eq!(shares.len(), 3);
    assert_eq!(shares[2].secret_message.cipher_text().msg, Base64Text("own".to_string()));

    // an unknown claim is refused
    let unknown = ClaimId::from(Id48bit::generate());
    let err = RecoveryHandler { p_obj: &mut p_obj }.recovery_shares(&sender_creds, &unknown, &pass_id).unwrap_err();
    assert_eq!(err, CoreError::ClaimNotFound);
}

#[test]
fn stale_copies_of_own_split_shares_are_removed() {
    let mut p_obj = store();
    let sender = user("a");
    let a = sender.device.device_id.clone();
    let b = user("b").device.device_id;
    let c_dev = user("c").device.device_id;
    let mut c = claim(&sender, vec![a.clone(), b.clone(), c_dev.clone()]);
    c.distribution_type = SecretDistributionType::Split;
    c.status = c.status.complete(b.clone());
    let dist_id = |receiver: &meta_secret_core::model::device::DeviceId| SsDistributionId {
        pass_id: c.dist_claim_id.pass_id.clone(),
        receiver: receiver.clone(),
    };
    for (name, receiver) in [("a", &a), ("b", &b), ("c", &c_dev)] {
        let data = SecretDistributionData {
            vault_name: VaultName::test(),
            claim_id: c.dist_claim_id.clone(),
            secret_message: EncryptedMessage::CipherShare {
                share: AeadCipherText {
                    msg: Base64Text("cipher".to_string()),
                    channel: meta_secret_core::model::channel::CommunicationChannel::build(
                        key_manager("a").transport_pk,
                        key_manager(name).transport_pk,
                    ),
                },
            },
        };
        let dist = SsWorkflowObject::Distribution(KvLogEvent {
            key: KvKey::from(SsWorkflowDescriptor::Distribution(dist_id(receiver))),
            value: data,
        });
        p_obj.repo.save(dist.to_generic());
    }
    PersistentSharedSecret { p_obj: &mut p_obj }.save_ss_log_event(c.clone()).unwrap();
    let ss_log = PersistentSharedSecret { p_obj: &mut p_obj }
        .find_ss_log_tail_event(VaultName::test())
        .unwrap()
        .unwrap();

    cleanup_foreign_sender_distributions(&mut p_obj, &sender, &ss_log).unwrap();

    // the delivered share of b is a stale copy; a's own share and c's pending one stay
    assert_eq!(
        PersistentSharedSecret { p_obj: &mut p_obj }.get_ss_distribution_event_by_id(dist_id(&b)).unwrap_err(),
        CoreError::ObjectNotFound
    );
    assert!(PersistentSharedSecret { p_obj: &mut p_obj }.get_ss_distribution_event_by_id(dist_id(&a)).is_ok());
    assert!(PersistentSharedSecret { p_obj: &mut p_obj }.get_ss_distribution_event_by_id(dist_id(&c_dev)).is_ok());

    // another device's log leaves everything in place
    let other = user("b");
    let before = p_obj.repo.len();
    cleanup_foreign_sender_distributions(&mut p_obj, &other, &ss_log).unwrap();
    assert_eq!(p_obj.repo.len(), before);
}

#[test]
fn vault_members_are_read_from_the_local_store() {
    let mut p_obj = store();
    let owner = user("owner");
    assert_eq!(local_vault_members(&p_obj, VaultName::test()).unwrap().len(), 0);
    create_vault(&mut p_obj, &owner);
    let members = local_vault_members(&p_obj, VaultName::test()).unwrap();
    assert_eq!(members.len(), 1);
    assert_eq!(members[0].user_data.device.device_id, owner.device.device_id);

    // a client that receives the vault from the server sees the same members
    let vault_event = p_obj.find_tail_event(VaultDescriptor::from(VaultName::test())).unwrap().clone();
    let mut client = store();
    save_server_events(&mut client, vec![vault_event]);
    let client_members = local_vault_members(&client, VaultName::test()).unwrap();
    assert_eq!(client_members.len(), 1);
    assert_eq!(client_members[0].user_data.device.device_id, owner.device.device_id);
}

#[test]
fn a_share_from_the_server_replaces_the_local_copy() {
    let mut p_obj = store();
    let sender = user("a");
    let b = user("b").device.device_id;
    let c = claim(&sender, vec![b.clone()]);
    let dist_id = SsDistributionId { pass_id: c.dist_claim_id.pass_id.clone(), receiver: b.clone() };
    let share = |text: &str| {
        SsWorkflowObject::Distribution(KvLogEvent {
            key: KvKey::from(SsWorkflowDescriptor::Distribution(dist_id.clone())),
            value: SecretDistributionData {
                vault_name: VaultName::test(),
                claim_id: c.dist_claim_id.clone(),
                secret_message: EncryptedMessage::CipherShare {
                    share: AeadCipherText {
                        msg: Base64Text(text.to_string()),
                        channel: meta_secret_core::model::channel::CommunicationChannel::build(
                            key_manager("a").transport_pk,
                            key_manager("b").transport_pk,
                        ),
                    },
                },
            },
        })
        .to_generic()
    };
    p_obj.repo.save(share("old"));
    save_server_ss_events(&mut p_obj, vec![share("fresh")]);
    let stored = PersistentSharedSecret { p_obj: &mut p_obj }.get_ss_distribution_event_by_id(dist_id).unwrap();
    match stored {
        SsWorkflowObject::Distribution(event) => {
            assert_eq!(event.value.secret_message.cipher_text().msg, Base64Text("fresh".to_string()));
        }
        _ => panic!("a share was expected"),
    }
    assert_eq!(p_obj.repo.len(), 1);
}

#[test]
fn a_receiver_answers_a_recovery_with_its_share_for_the_sender() {
    let mut p_obj = store();
    let sender = user("a");
    let b = user("b");
    let c = claim(&sender, vec![b.device.device_id.clone()]);
    let vault = meta_secret_core::model::vault_data::VaultData::from(UserDataMember::from(sender.clone()));

    // the local device is not a receiver: nothing to answer
    assert_eq!(recovery_answers(&p_obj, &vault, &c, &sender.device.device_id).unwrap().len(), 0);
    // the receiver's share is missing
    assert_eq!(
        recovery_answers(&p_obj, &vault, &c, &b.device.device_id).unwrap_err(),
        CoreError::ObjectNotFound
    );

    let dist = SsWorkflowObject::Distribution(KvLogEvent {
        key: KvKey::from(SsWorkflowDescriptor::Distribution(SsDistributionId {
            pass_id: c.dist_claim_id.pass_id.clone(),
            receiver: b.device.device_id.clone(),
        })),
        value: share_data(&c, "kept by b"),
    });
    p_obj.repo.save(dist.to_generic());
    let answers = recovery_answers(&p_obj, &vault, &c, &b.device.device_id).unwrap();
    assert_eq!(answers.len(), 1);
    assert_eq!(answers[0].0.distribution_id.receiver, b.device.device_id);
    assert_eq!(answers[0].1.secret_message.cipher_text().msg, Base64Text("kept by b".to_string()));
    assert_eq!(answers[0].2, key_manager("a").transport_pk);

    // a sender that the vault does not count as a member gets no answer
    let other_vault = meta_secret_core::model::vault_data::VaultData::from(UserDataMember::from(user("z")));
    assert_eq!(
        recovery_answers(&p_obj, &other_vault, &c, &b.device.device_id).unwrap_err(),
        CoreError::NotAVaultMember
    );

    // the answer is recorded under the recovery id
    let (id, data, _) = answers.into_iter().next().unwrap();
    let before = p_obj.repo.len();
    save_recovery_answer(&mut p_obj, id.clone(), VaultName::test(), data.secret_message);
    assert_eq!(p_obj.repo.len(), before + 1);
    let stored = p_obj.find_tail_event(SsWorkflowDescriptor::Recovery(id)).unwrap();
    assert!(matches!(stored, GenericKvLogEvent::Ss(_)));
}

#[test]
fn a_receiver_pushes_its_own_recovery_answers_first() {
    let mut p_obj = store();
    let sender = user("a");
    let b = user("b");
    let c = claim(&sender, vec![b.device.device_id.clone()]);
    PersistentSharedSecret { p_obj: &mut p_obj }.save_ss_log_event(c.clone()).unwrap();
    assert_eq!(local_recovery_uploads(&mut p_obj, &b).unwrap().len(), 0);

    let recovery_id = c.recovery_db_ids().into_iter().next().unwrap();
    let wf = SsWorkflowObject::Recovery(KvLogEvent {
        key: KvKey::from(SsWorkflowDescriptor::Recovery(recovery_id)),
        value: share_data(&c, "answer of b"),
    });
    p_obj.repo.save(wf.to_generic());
    let uploads = local_recovery_uploads(&mut p_obj, &b).unwrap();
    assert_eq!(uploads.len(), 1);
    assert!(matches!(uploads[0], SsWorkflowObject::Recovery(_)));
    // the sender of the claim has nothing of its own to push for it
    assert_eq!(local_recovery_uploads(&mut p_obj, &sender).unwrap().len(), 0);
}

#[test]
fn shares_still_waited_for_are_uploaded_and_foreign_copies_dropped_after() {
    let mut p_obj = store();
    let sender = user("a");
    let a = sender.device.device_id.clone();
    let b = user("b").device.device_id;
    let c_dev = user("c").device.device_id;
    let mut c = claim(&sender, vec![a.clone(), b.clone(), c_dev.clone()]);
    c.distribution_type = SecretDistributionType::Split;
    c.status = c.status.sent(b.clone());
    for (name, receiver) in [("a", &a), ("b", &b), ("c", &c_dev)] {
        let dist = SsWorkflowObject::Distribution(KvLogEvent {
            key: KvKey::from(SsWorkflowDescriptor::Distribution(SsDistributionId {
                pass_id: c.dist_claim_id.pass_id.clone(),
                receiver: receiver.clone(),
            })),
            value: SecretDistributionData {
                vault_name: VaultName::test(),
                claim_id: c.dist_claim_id.clone(),
                secret_message: EncryptedMessage::CipherShare {
                    share: AeadCipherText {
                        msg: Base64Text(format!("for {}", name)),
                        channel: meta_secret_core::model::channel::CommunicationChannel::build(
                            key_manager("a").transport_pk,
                            key_manager(name).transport_pk,
                        ),
                    },
                },
            },
        });
        p_obj.repo.save(dist.to_generic());
    }
    PersistentSharedSecret { p_obj: &mut p_obj }.save_ss_log_event(c.clone()).unwrap();

    let uploads = ss_log_uploads(&mut p_obj, &sender).unwrap();
    assert_eq!(uploads.len(), 2);
    let text = |wf: &SsWorkflowObject| match wf {
        SsWorkflowObject::Distribution(e) => e.value.secret_message.cipher_text().msg.clone(),
        SsWorkflowObject::Recovery(e) => e.value.secret_message.cipher_text().msg.clone(),
    };
    // a's own share stays after the upload, c's copy goes; b already has its share
    assert_eq!(text(&uploads[0].0), Base64Text("for a".to_string()));
    assert!(!uploads[0].1);
    assert_eq!(text(&uploads[1].0), Base64Text("for c".to_string()));
    assert!(uploads[1].1);
    // another device uploads nothing for a split it did not make
    assert_eq!(ss_log_uploads(&mut p_obj, &user("b")).unwrap().len(), 0);
}

#[test]
fn a_stored_redistribution_is_not_done_twice() {
    let mut p_obj = store();
    let sender = user("a");
    let a = sender.device.device_id.clone();
    let b = user("b").device.device_id;
    let joined = user("c").device.device_id;
    let mut c = claim(&sender, vec![a.clone(), b.clone()]);
    c.distribution_type = SecretDistributionType::Split;
    PersistentSharedSecret { p_obj: &mut p_obj }.save_ss_log_event(c.clone()).unwrap();

    // no share of its own yet: nothing to start from
    assert!(matches!(redistribution_start(&p_obj, &c, &a, &joined), RedistributionStart::NoSource));
    let own = SsWorkflowObject::Distribution(KvLogEvent {
        key: KvKey::from(SsWorkflowDescriptor::Distribution(SsDistributionId {
            pass_id: c.dist_claim_id.pass_id.clone(),
            receiver: a.clone(),
        })),
        value: share_data(&c, "old share of a"),
    });
    p_obj.repo.save(own.to_generic());
    assert!(matches!(redistribution_start(&p_obj, &c, &a, &joined), RedistributionStart::Source(_)));

    let msg = |text: &str| share_data(&c, text).secret_message;
    let shares = vec![(a.clone(), msg("new a")), (b.clone(), msg("new b")), (joined.clone(), msg("new c"))];
    store_redistribution(&mut p_obj, c.clone(), joined.clone(), VaultName::test(), shares).unwrap();

    let log = PersistentSharedSecret { p_obj: &mut p_obj }.get_ss_log_obj(VaultName::test()).unwrap();
    let updated = log.claims.get(&c.id).unwrap().clone();
    assert_eq!(updated.receivers.len(), 3);
    assert!(matches!(updated.status.get(&joined), Some(SsDistributionStatus::Pending)));
    assert!(matches!(redistribution_start(&p_obj, &updated, &a, &joined), RedistributionStart::Done));
    let new_own = PersistentSharedSecret { p_obj: &mut p_obj }
        .get_ss_distribution_event_by_id(SsDistributionId { pass_id: c.dist_claim_id.pass_id.clone(), receiver: a })
        .unwrap();
    match new_own {
        SsWorkflowObject::Distribution(e) => {
            assert_eq!(e.value.secret_message.cipher_text().msg, Base64Text("new a".to_string()))
        }
        _ => panic!("a share was expected"),
    }
    // the claim went to the sender's claims log too
    let tail = PersistentSharedSecret { p_obj: &mut p_obj }
        .find_ss_device_log_tail_event(sender.device.device_id.clone())
        .unwrap()
        .unwrap();
    assert_eq!(tail.0.value.receivers.len(), 3);
}

#[test]
fn the_app_state_follows_the_local_store() {
    let mut p_obj = store();
    let owner_creds = creds("owner");
    let owner = owner_creds.user();
    let device = owner.device.clone();

    let local = read_app_state(&mut p_obj, device.clone(), None).unwrap();
    assert!(matches!(local, ApplicationState::Local(_)));

    // credentials but a store that was never synchronised
    assert_eq!(
        read_app_state(&mut p_obj, device.clone(), Some(owner_creds.clone())).unwrap_err(),
        CoreError::VaultStatusMissing
    );

    create_vault(&mut p_obj, &owner);
    status_of(&mut p_obj, &owner).unwrap();
    let state = read_app_state(&mut p_obj, device, Some(owner_creds)).unwrap();
    match state {
        ApplicationState::Vault(VaultFullInfo::Member(info)) => {
            assert_eq!(info.member.member.user_data.device.device_id, owner.device.device_id);
            assert_eq!(info.member.vault.users.len(), 1);
            assert_eq!(info.ss_claims.claims.len(), 0);
        }
        _ => panic!("the owner is a member"),
    }
}

#[test]
fn client_requests_are_planned_between_synchronisations() {
    let owner = user("owner");
    let local_state = ApplicationState::Local(owner.device.clone());
    let plan = client_request_plan(&local_state, GenericAppStateRequest::GetState);
    assert_eq!(plan.len(), 1);
    assert!(matches!(plan[0], ClientAction::RefreshState));

    let plan = client_request_plan(&local_state, GenericAppStateRequest::SignUp(VaultName::test()));
    assert_eq!(plan.len(), 7);
    assert!(matches!(plan[0], ClientAction::GetUserCreds(UserCredsSource::GetOrGenerate(_))));
    assert!(matches!(plan[3], ClientAction::SignUp));
    assert!(matches!(plan[6], ClientAction::RefreshState));

    let pending = ApplicationState::Vault(VaultFullInfo::Outsider(UserDataOutsider::pending(owner.clone())));
    let plan = client_request_plan(&pending, GenericAppStateRequest::SignUp(VaultName::test()));
    assert_eq!(plan.len(), 4);
    assert!(matches!(plan[3], ClientAction::Fail(CoreError::SignUpNotAllowed)));

    let pass_id = MetaPasswordId::build("p");
    let plan = client_request_plan(&local_state, GenericAppStateRequest::Recover(pass_id));
    assert_eq!(plan.len(), 7);
    assert!(matches!(plan[3], ClientAction::RequestRecovery(_)));
}

#[test]
fn shares_of_other_members_are_read_in_candidate_order() {
    let mut p_obj = store();
    let sender = user("a");
    let b = user("b").device.device_id;
    let c_dev = user("c").device.device_id;
    let c = claim(&sender, vec![b.clone(), c_dev.clone()]);
    let pass_id = c.dist_claim_id.pass_id.clone();
    let dist = SsWorkflowObject::Distribution(KvLogEvent {
        key: KvKey::from(SsWorkflowDescriptor::Distribution(SsDistributionId { pass_id: pass_id.clone(), receiver: c_dev.clone() })),
        value: share_data(&c, "kept for c"),
    });
    p_obj.repo.save(dist.to_generic());
    let shares = candidate_shares(&p_obj, &pass_id, &vec![b.clone(), c_dev.clone()]);
    assert_eq!(shares.len(), 1);
    assert_eq!(shares[0].0, c_dev);
    assert_eq!(shares[0].1.secret_message.cipher_text().msg, Base64Text("kept for c".to_string()));
}

#[test]
fn decline_recover_records_this_device_as_declined() {
    let mut p_obj = store();
    let sender = user("a");
    let receiver = creds("b");
    let c = claim(&sender, vec![receiver.device_id().clone(), user("c").device.device_id]);
    PersistentSharedSecret { p_obj: &mut p_obj }.save_ss_log_event(c.clone()).unwrap();

    let missing = ClaimId::from(Id48bit::generate());
    assert_eq!(
        MetaOrchestrator { p_obj: &mut p_obj, user_creds: receiver.clone() }.decline_recover(missing).unwrap_err(),
        CoreError::ClaimNotFound
    );

    MetaOrchestrator { p_obj: &mut p_obj, user_creds: receiver.clone() }.decline_recover(c.id.clone()).unwrap();
    let log = PersistentSharedSecret { p_obj: &mut p_obj }.get_ss_log_obj(VaultName::test()).unwrap();
    let stored = log.claims.get(&c.id).unwrap();
    assert!(matches!(stored.status.get(receiver.device_id()), Some(SsDistributionStatus::Declined)));
    assert!(matches!(stored.status.get(&user("c").device.device_id), Some(SsDistributionStatus::Pending)));
    let tail = PersistentSharedSecret { p_obj: &mut p_obj }.find_ss_log_tail_event(VaultName::test()).unwrap().unwrap();
    assert_eq!(tail.0.key.obj_id.id.curr, 2);
}

#[test]
fn server_tail_names_the_next_free_ids() {
    let mut p_obj = store();
    let owner = user("a");
    let empty = ServerSyncGateway { p_obj: &mut p_obj }
        .server_tail(meta_secret_core::api::ServerTailRequest { sender: owner.clone() })
        .unwrap();
    assert!(empty.device_log_tail.is_none());
    assert!(empty.ss_device_log_tail.is_none());

    PersistentDeviceLog { p_obj: &mut p_obj }.save_create_vault_request(&owner).unwrap();
    let c = claim(&owner, vec![user("b").device.device_id]);
    PersistentSharedSecret { p_obj: &mut p_obj }.save_claim_in_ss_device_log(c).unwrap();
    let tails = ServerSyncGateway { p_obj: &mut p_obj }
        .server_tail(meta_secret_core::api::ServerTailRequest { sender: owner.clone() })
        .unwrap();
    let device_tail = tails.device_log_tail.unwrap();
    let last = PersistentDeviceLog { p_obj: &mut p_obj }.find_tail_id(&owner.user_id()).unwrap();
    assert_eq!(device_tail.id.curr, last.id.curr + 1);
    assert_eq!(device_tail.id.prev, last.id.prev + 1);
    assert_eq!(tails.ss_device_log_tail.unwrap().id.curr, 2);
}

fn store_with_pending_join(owner: &UserData, candidate: &UserData) -> PersistentObject<InMemKvLogEventRepo> {
    let mut p_obj = store();
    create_vault(&mut p_obj, owner);
    let join = VaultActionEvent::Request(VaultActionRequestEvent::JoinCluster(JoinClusterEvent::from(candidate.clone())));
    ServerVaultAction { p_obj: &mut p_obj, server_device: server_device() }.do_processing(join).unwrap();
    status_of(&mut p_obj, owner).unwrap();
    p_obj
}

#[test]
fn update_membership_answers_a_pending_join_request() {
    let owner = user("a");
    let candidate = user("b");
    let mut p_obj = store_with_pending_join(&owner, &candidate);
    assert!(PersistentDeviceLog { p_obj: &mut p_obj }.find_tail_id(&owner.user_id()).is_none());
    let vault = MetaOrchestrator { p_obj: &mut p_obj, user_creds: creds("a") }
        .update_membership(JoinClusterEvent::from(candidate.clone()), JoinActionUpdate::Accept)
        .unwrap()
        .unwrap();
    // the vault to redistribute over counts the candidate as a member
    assert_eq!(vault.users.len(), 2);
    assert!(PersistentDeviceLog { p_obj: &mut p_obj }.find_tail_id(&owner.user_id()).is_some());

    let mut p_obj = store_with_pending_join(&owner, &candidate);
    let declined = MetaOrchestrator { p_obj: &mut p_obj, user_creds: creds("a") }
        .update_membership(JoinClusterEvent::from(candidate.clone()), JoinActionUpdate::Decline)
        .unwrap();
    assert!(declined.is_none());
    assert!(PersistentDeviceLog { p_obj: &mut p_obj }.find_tail_id(&owner.user_id()).is_some());

    // a request that is not in the log is passed over
    let stranger = user("c");
    let before = p_obj.repo.len();
    let passed = MetaOrchestrator { p_obj: &mut p_obj, user_creds: creds("a") }
        .update_membership(JoinClusterEvent::from(stranger), JoinActionUpdate::Accept)
        .unwrap();
    assert!(passed.is_none());
    assert_eq!(p_obj.repo.len(), before);
}

#[test]
fn update_membership_needs_a_member() {
    let owner = user("a");
    let candidate = user("b");
    let mut p_obj = store_with_pending_join(&owner, &candidate);
    status_of(&mut p_obj, &candidate).unwrap();
    let result = MetaOrchestrator { p_obj: &mut p_obj, user_creds: creds("b") }
        .update_membership(JoinClusterEvent::from(candidate.clone()), JoinActionUpdate::Accept);
    assert_eq!(result.unwrap_err(), CoreError::NotAVaultMember);
    let mut empty = store();
    let result = MetaOrchestrator { p_obj: &mut empty, user_creds: creds("a") }
        .update_membership(JoinClusterEvent::from(candidate), JoinActionUpdate::Decline);
    assert_eq!(result.unwrap_err(), CoreError::VaultStatusMissing);
}

#[test]
fn device_copy_of_replicated_events_matches_the_server() {
    let mut server = store();
    let owner = user("a");
    create_vault(&mut server, &owner);
    let tail = meta_secret_core::api::VaultTail {
        vault_log: ArtifactId::from_descriptor(meta_secret_core::db::descriptors::VaultLogDescriptor::from(VaultName::test())),
        vault: ArtifactId::from_descriptor(meta_secret_core::db::descriptors::VaultDescriptor::from(VaultName::test())),
        vault_status: ArtifactId::from_descriptor(VaultStatusDescriptor::from(owner.user_id())),
    };
    let events = ServerSyncGateway { p_obj: &mut server }
        .vault_replication(meta_secret_core::api::VaultRequest { sender: owner.clone(), tail })
        .unwrap();
    let mut device = store();
    save_server_events(&mut device, events);
    let on_device = PersistentVault { p_obj: &mut device }.get_vault(VaultName::test()).unwrap();
    let on_server = PersistentVault { p_obj: &mut server }.get_vault(VaultName::test()).unwrap();
    assert_eq!(on_device.0.key.obj_id, on_server.0.key.obj_id);
    assert_eq!(on_device.0.value.users.len(), on_server.0.value.users.len());
    assert!(matches!(
        PersistentVault { p_obj: &mut device }.find(owner.clone()).unwrap(),
        meta_secret_core::model::vault::VaultStatus::Member(_)
    ));
}
