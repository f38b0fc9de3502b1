use meta_secret_core::api::{DataEventsResponse, DataSyncResponse, ServerTailResponse, SignedActionPayload, SsRecoveryCompletion};
use meta_secret_core::db::descriptors::{
    DeviceCredsDescriptor, ObjectDescriptor, SsWorkflowDescriptor, VaultDescriptor, VaultLogDescriptor,
};
use meta_secret_core::db::events::{
    GenericKvLogEvent, SsKvLogEvent, SsWorkflowObject, ToGenericEvent, VaultLogObject, VaultObject,
};
use meta_secret_core::db::object_id::{ArtifactId, KvKey, KvLogEvent, Next};
use meta_secret_core::db::generic_db::{DbCleanUpCommand, DeleteCommand, FindOneQuery, SaveCommand};
use meta_secret_core::db::store::{InMemKvLogEventRepo, PersistentObject};
use meta_secret_core::error::CoreError;
use meta_secret_core::ids::{Base64Text, Id48bit, IdString, U64IdUrlEnc};
use meta_secret_core::model::aead::{AeadCipherText, EncryptedMessage};
use meta_secret_core::model::app_state::{
    find_recovery_claim_id_from_state, require_member, resolve_signup_vault_name, ApplicationState,
    ApplicationStateInfo, UserMemberFullInfo, VaultFullInfo, WasmApplicationState,
};
use meta_secret_core::model::channel::CommunicationChannel;
use meta_secret_core::model::creds::{DeviceCredsBuilder, UserCreds, UserCredsBuilder};
use meta_secret_core::model::device::{DeviceId, DeviceName};
use meta_secret_core::model::keys::{DsaPk, DsaSk, KeyManager, TransportPk, TransportSk};
use meta_secret_core::model::meta_pass::MetaPasswordId;
use meta_secret_core::model::secret::{
    ClaimId, SecretDistributionData, SecretDistributionType, SsClaim, SsClaimId, SsDistributionCompositeStatus,
    SsDistributionId, SsDistributionStatus, SsLogData, SsRecoveryId,
};
use meta_secret_core::model::user::{UserDataMember, UserDataOutsider, UserDataOutsiderStatus};
use meta_secret_core::model::vault::{VaultMember, VaultName};
use meta_secret_core::model::vault_data::VaultData;
use meta_secret_core::events::vault_log::VaultActionEvents;
use meta_secret_core::security::{event_stream, unsigned_event_action, unsigned_recovery_completion};
use meta_secret_core::sync::ss_sync::{
    claim_upload, has_pending_split_receiver, is_stale_foreign_distribution, keep_after_upload,
    local_recovery_upload, own_claim_needs_upload, own_workflow_needs_upload, recovery_workflow_is_local,
    replaces_local_copy, split_workflow_has_pending_receiver, split_workflow_receiver, ClaimUpload,
    LocalRecoveryUpload,
};
use meta_secret_core::sync::vault_sync::{device_log_tail, newly_joined_members, ss_device_log_tail};

fn key_manager(name: &str) -> KeyManager {
    KeyManager {
        dsa_pk: DsaPk(Base64Text(format!("dsa-pk-{}", name))),
        dsa_sk: DsaSk(Base64Text(format!("dsa-sk-{}", name))),
        transport_pk: TransportPk(Base64Text(format!("transport-pk-{}", name))),
        transport_sk: TransportSk(Base64Text(format!("transport-sk-{}", name))),
    }
}

fn user_creds(name: &str) -> UserCreds {
    let device_creds = DeviceCredsBuilder::init(key_manager(name)).build(DeviceName::from(name)).creds;
    UserCredsBuilder::init(device_creds).build(VaultName::test()).creds
}

fn device(name: &str) -> DeviceId {
    user_creds(name).device_creds.device.device_id
}

fn pass(name: &str) -> MetaPasswordId {
    MetaPasswordId { id: U64IdUrlEnc::from_text(name), name: name.to_string() }
}

fn claim(sender: DeviceId, kind: SecretDistributionType, receivers: Vec<DeviceId>) -> SsClaim {
    let claim_id = ClaimId::from(Id48bit::generate());
    SsClaim {
        id: claim_id.clone(),
        dist_claim_id: SsClaimId { id: claim_id, pass_id: pass("p") },
        vault_name: VaultName::test(),
        sender,
        distribution_type: kind,
        receivers: receivers.clone(),
        status: SsDistributionCompositeStatus::from(receivers),
        client_status: None,
    }
}

fn share_for(claim: &SsClaim, sender: &str, receiver: &str) -> SsWorkflowObject {
    let channel = CommunicationChannel::build(key_manager(sender).transport_pk, key_manager(receiver).transport_pk);
    let dist_id = SsDistributionId { pass_id: pass("p"), receiver: device(receiver) };
    SsWorkflowObject::Distribution(KvLogEvent {
        key: KvKey::from(SsWorkflowDescriptor::Distribution(dist_id)),
        value: SecretDistributionData {
            vault_name: VaultName::test(),
            claim_id: claim.dist_claim_id.clone(),
            secret_message: EncryptedMessage::CipherShare {
                share: AeadCipherText { msg: Base64Text::from_text("share"), channel },
            },
        },
    })
}

#[test]
fn split_shares_are_uploaded_while_their_receiver_is_pending() {
    let local = device("a");
    let mut split = claim(local.clone(), SecretDistributionType::Split, vec![device("b"), device("c")]);
    assert!(has_pending_split_receiver(&split));
    assert_eq!(claim_upload(&split, &local), ClaimUpload::SplitDistributions);
    assert_eq!(claim_upload(&split, &device("b")), ClaimUpload::Skip);

    let to_b = share_for(&split, "a", "b");
    let to_a = share_for(&split, "a", "a");
    assert_eq!(split_workflow_receiver(&to_b), Some(device("b")));
    assert!(split_workflow_has_pending_receiver(&split, &to_b));
    assert!(!keep_after_upload(&to_b, &local));
    assert!(keep_after_upload(&to_a, &local));

    split.status = split.status.sent(device("b"));
    assert!(!split_workflow_has_pending_receiver(&split, &to_b));
    assert!(is_stale_foreign_distribution(&split, &to_b, &local));
    assert!(!is_stale_foreign_distribution(&split, &to_a, &local));

    split.status = split.status.complete(device("b")).complete(device("c"));
    assert_eq!(claim_upload(&split, &local), ClaimUpload::Skip);
}

#[test]
fn recovery_answers_are_uploaded_by_receivers() {
    let sender = device("a");
    let receiver = device("b");
    let mut recover = claim(sender.clone(), SecretDistributionType::Recover, vec![receiver.clone(), device("c")]);
    assert_eq!(claim_upload(&recover, &sender), ClaimUpload::Skip);
    assert_eq!(claim_upload(&recover, &receiver), ClaimUpload::RecoveryWorkflows { with_declines: false });
    assert_eq!(local_recovery_upload(&recover, &receiver), LocalRecoveryUpload::Approvals);
    assert_eq!(local_recovery_upload(&recover, &sender), LocalRecoveryUpload::Skip);

    recover.status = recover.status.decline(device("c"));
    assert_eq!(claim_upload(&recover, &receiver), ClaimUpload::RecoveryWorkflows { with_declines: true });
    assert_eq!(local_recovery_upload(&recover, &receiver), LocalRecoveryUpload::Declines);

    let recovery_id = SsRecoveryId {
        claim_id: recover.dist_claim_id.clone(),
        sender: sender.clone(),
        distribution_id: SsDistributionId { pass_id: pass("p"), receiver: receiver.clone() },
    };
    let wf = SsWorkflowObject::Recovery(KvLogEvent {
        key: KvKey::from(SsWorkflowDescriptor::Recovery(recovery_id)),
        value: SecretDistributionData {
            vault_name: VaultName::test(),
            claim_id: recover.dist_claim_id.clone(),
            secret_message: EncryptedMessage::CipherShare {
                share: AeadCipherText {
                    msg: Base64Text::from_text("share"),
                    channel: CommunicationChannel::build(key_manager("b").transport_pk, key_manager("a").transport_pk),
                },
            },
        },
    });
    assert!(recovery_workflow_is_local(&wf, &receiver));
    assert!(!recovery_workflow_is_local(&wf, &sender));
    assert_eq!(split_workflow_receiver(&wf), None);
}

#[test]
fn own_claims_are_uploaded_unless_the_log_says_otherwise() {
    let local = device("a");
    let split = claim(local.clone(), SecretDistributionType::Split, vec![device("b")]);
    let share = share_for(&split, "a", "b");
    assert!(own_claim_needs_upload(&split, None));
    assert!(own_workflow_needs_upload(None, &share));
    let mut current = split.clone();
    current.status = current.status.sent(device("b"));
    assert!(!own_claim_needs_upload(&split, Some(&current)));
    assert!(!own_workflow_needs_upload(Some(&current), &share));
    let recover = claim(local.clone(), SecretDistributionType::Recover, vec![device("b")]);
    assert!(!own_claim_needs_upload(&recover, None));
}

#[test]
fn server_copies_replace_shares_and_claim_logs() {
    let split = claim(device("a"), SecretDistributionType::Split, vec![device("b")]);
    let share = share_for(&split, "a", "b").to_generic();
    assert!(replaces_local_copy(&share));
    let log = meta_secret_core::db::events::SsLogObject(KvLogEvent {
        key: KvKey::from(meta_secret_core::db::descriptors::SsLogDescriptor::from(VaultName::test())),
        value: SsLogData::new(split),
    })
    .to_generic();
    assert!(replaces_local_copy(&log));
    let vault = VaultObject::sign_up(VaultName::test(), UserDataMember::from(user_creds("a").user())).to_generic();
    assert!(!replaces_local_copy(&vault));
    assert!(matches!(log, GenericKvLogEvent::Ss(SsKvLogEvent::SsLog(_))));
}

#[test]
fn log_tails_resume_where_the_server_stopped() {
    let user = user_creds("a").user();
    let first = device_log_tail(None, user.user_id());
    assert_eq!(first.clone().id_str(), format!("DeviceLog:{}::1", user.device.device_id.to_string()));
    let later = first.clone().next();
    assert_eq!(device_log_tail(Some(later.clone()), user.user_id()), later);
    let ss = ss_device_log_tail(None, user.device.device_id.clone());
    assert_eq!(ss.id_str(), format!("SsDeviceLog:{}::1", user.device.device_id.to_string()));
}

#[test]
fn newly_joined_members_are_those_not_seen_before() {
    let before = VaultData::from(UserDataMember::from(user_creds("a").user()));
    let after = before.clone().update_membership(meta_secret_core::model::user::UserMembership::Member(
        UserDataMember::from(user_creds("b").user()),
    ));
    let joined = newly_joined_members(&before.members(), &after.members());
    assert_eq!(joined.len(), 1);
    assert_eq!(joined[0].user_data.device.device_id, device("b"));
    assert!(newly_joined_members(&after.members(), &after.members()).is_empty());
}

#[test]
fn store_saves_finds_and_walks_an_object() {
    let mut repo = InMemKvLogEventRepo::new();
    let owner = UserDataMember::from(user_creds("a").user());
    let log0 = VaultLogObject::create(owner.clone());
    let key0 = log0.0.key.clone();
    let key1 = key0.clone().next();
    let key2 = key1.clone().next();
    let id0 = repo.save(log0.to_generic());
    repo.save(VaultLogObject(KvLogEvent { key: key1.clone(), value: VaultActionEvents::default() }).to_generic());
    repo.save(VaultLogObject(KvLogEvent { key: key2.clone(), value: VaultActionEvents::default() }).to_generic());
    assert_eq!(repo.len(), 3);
    assert!(repo.find_one(&id0).is_some());
    assert_eq!(repo.get_key(&key2.obj_id), Some(key2.obj_id.clone()));

    let p_obj = PersistentObject::new(repo);
    let tail = p_obj.find_tail_id(&id0).unwrap();
    assert_eq!(tail, key2.obj_id);
    let ids = p_obj.find_object_events(&id0);
    assert_eq!(ids.len(), 3);
    let from_desc = p_obj.get_object_events_from_beginning(VaultLogDescriptor::from(VaultName::test()));
    assert_eq!(from_desc.len(), 3);
    assert_eq!(
        p_obj.find_tail_id_by_obj_desc(VaultLogDescriptor::from(VaultName::test())),
        Some(key2.obj_id.clone())
    );
    assert_eq!(p_obj.find_free_id(&id0).id.curr, 4);

    let missing = ArtifactId::from_descriptor(VaultDescriptor::from(VaultName::test()));
    assert!(p_obj.find_tail_id(&missing).is_none());
    assert_eq!(p_obj.find_free_id(&missing).id.curr, 1);
    assert!(p_obj.find_object_events(&missing).is_empty());

    let mut repo = p_obj.repo;
    repo.delete(&key1.obj_id);
    let p_obj = PersistentObject::new(repo);
    assert_eq!(p_obj.find_tail_id(&id0), Some(id0.clone()));
    let mut repo = p_obj.repo;
    repo.db_clean_up();
    assert_eq!(repo.len(), 0);
    let _ = DeviceCredsDescriptor;
}

#[test]
fn app_state_decisions() {
    let user = user_creds("a").user();
    let local = ApplicationState::Local(user.device.clone());
    assert_eq!(resolve_signup_vault_name(&local).unwrap_err(), CoreError::SignUpInLocalState);
    let not_exists = ApplicationState::Vault(VaultFullInfo::NotExists(user.clone()));
    assert_eq!(resolve_signup_vault_name(&not_exists).unwrap(), VaultName::test());
    let non_member = ApplicationState::Vault(VaultFullInfo::Outsider(UserDataOutsider::non_member(user.clone())));
    assert_eq!(resolve_signup_vault_name(&non_member).unwrap(), VaultName::test());
    let pending = ApplicationState::Vault(VaultFullInfo::Outsider(UserDataOutsider::pending(user.clone())));
    assert_eq!(resolve_signup_vault_name(&pending).unwrap_err(), CoreError::SignUpInPendingState);
    let declined = ApplicationState::Vault(VaultFullInfo::Outsider(UserDataOutsider {
        user_data: user.clone(),
        status: UserDataOutsiderStatus::Declined,
    }));
    assert_eq!(resolve_signup_vault_name(&declined).unwrap_err(), CoreError::SignUpInDeclinedState);

    let vault = VaultData::from(UserDataMember::from(user.clone()));
    let member_info = UserMemberFullInfo {
        member: VaultMember { member: UserDataMember::from(user.clone()), vault },
        ss_claims: SsLogData::default(),
        vault_events: VaultActionEvents::default(),
    };
    let member = ApplicationState::Vault(VaultFullInfo::Member(member_info));
    assert_eq!(resolve_signup_vault_name(&member).unwrap_err(), CoreError::SignUpInVaultState);
    assert!(require_member(&member).is_ok());
    assert_eq!(require_member(&local).unwrap_err(), CoreError::NotAVaultMember);
    assert!(find_recovery_claim_id_from_state(&member, &pass("p")).is_none());
    assert!(find_recovery_claim_id_from_state(&local, &pass("p")).is_none());

    let wasm = WasmApplicationState::from(member);
    assert_eq!(wasm.as_info(), ApplicationStateInfo::Member);
    assert!(wasm.is_vault());
    let full = wasm.as_vault();
    assert!(full.is_member());
    assert_eq!(full.vault_name(), "q");
    assert_eq!(full.as_member().vault_data().vault_name(), VaultName::test());
    let wasm_local = WasmApplicationState::from(local);
    assert!(wasm_local.is_local());
    assert_eq!(wasm_local.as_local().device_id, user.device.device_id);
}

#[test]
fn responses_and_signed_actions() {
    assert!(DataSyncResponse::Empty.ensure_success().is_ok());
    assert_eq!(
        DataSyncResponse::Error { msg: "x".to_string() }.ensure_success().unwrap_err(),
        CoreError::ServerError { msg: "x".to_string() }
    );
    assert_eq!(
        DataSyncResponse::Data(DataEventsResponse(vec![])).ensure_success().unwrap_err(),
        CoreError::InvalidResponseType
    );
    assert!(DataSyncResponse::Data(DataEventsResponse(vec![])).to_data().is_ok());
    assert!(DataSyncResponse::Empty.to_data().is_err());
    let tail = ServerTailResponse { device_log_tail: None, ss_device_log_tail: None };
    assert!(DataSyncResponse::ServerTailResponse(tail).to_server_tail().is_ok());
    assert!(DataSyncResponse::Empty.to_server_tail().is_err());

    let event = VaultObject::sign_up(VaultName::from("v"), UserDataMember::from(user_creds("a").user())).to_generic();
    assert_eq!(event_stream(&event), "Vault:v");
    let action = unsigned_event_action(event, device("a"));
    assert_eq!(action.stream, "Vault:v");
    assert_eq!(action.nonce, 1);
    assert!(action.event().is_ok());
    assert_eq!(action.completion().unwrap_err(), CoreError::WrongEventType);

    let claim_id = SsClaimId { id: ClaimId::from(Id48bit::generate()), pass_id: pass("p") };
    let recovery_id = SsRecoveryId {
        claim_id,
        sender: device("a"),
        distribution_id: SsDistributionId { pass_id: pass("p"), receiver: device("b") },
    };
    let expected_stream = recovery_id.clone().id_str();
    let completion = SsRecoveryCompletion {
        vault_name: VaultName::test(),
        recovery_id,
        receiver_status: SsDistributionStatus::Sent,
    };
    let action = unsigned_recovery_completion(completion, device("b"));
    assert_eq!(action.stream, expected_stream);
    assert_eq!(action.nonce, 1);
    assert!(matches!(action.payload, SignedActionPayload::RecoveryCompletion(_)));
    assert!(action.completion().is_ok());
    let _ = ObjectDescriptor::Vault(VaultDescriptor::from(VaultName::test()));
}
