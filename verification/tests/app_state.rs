use meta_secret_core::actions::orchestration::claim_sender_member;
use meta_secret_core::actions::recovery::{claim_for_recovery, require_shares};
use meta_secret_core::collections::VecMap;
use meta_secret_core::error::CoreError;
use meta_secret_core::events::vault_log::{JoinClusterEvent, VaultActionEvents, VaultActionRequestEvent};
use meta_secret_core::ids::{Base64Text, Id48bit, U64IdUrlEnc};
use meta_secret_core::model::app_state::{
    member_state, require_user_creds, sign_up_check, state_of_status, user_creds_source, ApplicationState,
    GenericAppStateRequest, StatusState, UserCredsSource, VaultFullInfo,
};
use meta_secret_core::model::creds::{DeviceCredsBuilder, UserCreds, UserCredsBuilder};
use meta_secret_core::model::device::DeviceName;
use meta_secret_core::model::keys::{DsaPk, DsaSk, KeyManager, TransportPk, TransportSk};
use meta_secret_core::model::meta_pass::{MetaPasswordId, PassInfo};
use meta_secret_core::model::secret::{
    ClaimId, SecretDistributionType, SsClaim, SsClaimId, SsDistributionCompositeStatus, SsLogData,
};
use meta_secret_core::model::user::{UserDataMember, UserDataOutsider, UserDataOutsiderStatus, UserMembership};
use meta_secret_core::model::vault::{VaultName, VaultStatus};
use meta_secret_core::model::vault_data::VaultData;

fn key_manager(name: &str) -> KeyManager {
    KeyManager {
        dsa_pk: DsaPk(Base64Text(format!("dsa-pk-{}", name))),
        dsa_sk: DsaSk(Base64Text(format!("dsa-sk-{}", name))),
        transport_pk: TransportPk(Base64Text(format!("transport-pk-{}", name))),
        transport_sk: TransportSk(Base64Text(format!("transport-sk-{}", name))),
    }
}

fn creds(name: &str) -> UserCreds {
    let device_creds = DeviceCredsBuilder::init(key_manager(name)).build(DeviceName::from(name)).creds;
    UserCredsBuilder::init(device_creds).build(VaultName::test()).creds
}

fn outsider(name: &str, status: UserDataOutsiderStatus) -> ApplicationState {
    ApplicationState::Vault(VaultFullInfo::Outsider(UserDataOutsider { user_data: creds(name).user(), status }))
}

fn member_app_state(name: &str) -> ApplicationState {
    let user = creds(name).user();
    let member = UserDataMember::from(user.clone());
    member_state(member.clone(), VaultData::from(member), SsLogData { claims: VecMap::new() }, None)
}

#[test]
fn sign_up_goes_on_for_local_absent_and_non_member_states() {
    let device = creds("a").device_creds.device;
    assert_eq!(sign_up_check(&ApplicationState::Local(device)), Ok(()));
    let absent = ApplicationState::Vault(VaultFullInfo::NotExists(creds("a").user()));
    assert_eq!(sign_up_check(&absent), Ok(()));
    assert_eq!(sign_up_check(&outsider("a", UserDataOutsiderStatus::NonMember)), Ok(()));
}

#[test]
fn sign_up_is_refused_to_members_pending_and_declined_devices() {
    assert_eq!(sign_up_check(&member_app_state("a")), Err(CoreError::AlreadyMember));
    assert_eq!(sign_up_check(&outsider("a", UserDataOutsiderStatus::Pending)), Err(CoreError::SignUpNotAllowed));
    assert_eq!(sign_up_check(&outsider("a", UserDataOutsiderStatus::Declined)), Err(CoreError::JoinRequestDeclined));
}

#[test]
fn requests_take_their_user_credentials_from_the_right_place() {
    assert_eq!(user_creds_source(&GenericAppStateRequest::GetState).unwrap_err(), CoreError::InvalidRequest);
    match user_creds_source(&GenericAppStateRequest::SignUp(VaultName::from("v1"))).unwrap() {
        UserCredsSource::GetOrGenerate(name) => assert_eq!(name, VaultName::from("v1")),
        UserCredsSource::Existing => panic!("sign up makes credentials"),
    }
    match user_creds_source(&GenericAppStateRequest::GenerateUserCreds(VaultName::from("v2"))).unwrap() {
        UserCredsSource::GetOrGenerate(name) => assert_eq!(name, VaultName::from("v2")),
        UserCredsSource::Existing => panic!("generation makes credentials"),
    }
    let pass_id = MetaPasswordId { id: U64IdUrlEnc::from_text("p"), name: "p".to_string() };
    let dist = GenericAppStateRequest::ClusterDistribution(PassInfo { pass_id: pass_id.clone(), pass: "secret".to_string() });
    assert!(matches!(user_creds_source(&dist).unwrap(), UserCredsSource::Existing));
    assert!(matches!(user_creds_source(&GenericAppStateRequest::Recover(pass_id)).unwrap(), UserCredsSource::Existing));
}

#[test]
fn missing_user_credentials_are_an_error() {
    assert_eq!(require_user_creds(None).unwrap_err(), CoreError::UserCredsMissing);
    let found = require_user_creds(Some(creds("a"))).unwrap();
    assert_eq!(found.vault_name, VaultName::test());
}

#[test]
fn app_state_follows_the_vault_status() {
    let device = creds("a").device_creds.device;
    assert!(matches!(state_of_status(device.clone(), None), StatusState::Ready(ApplicationState::Local(_))));
    let absent = state_of_status(device.clone(), Some(VaultStatus::NotExists(creds("a").user())));
    assert!(matches!(absent, StatusState::Ready(ApplicationState::Vault(VaultFullInfo::NotExists(_)))));
    let out = state_of_status(device.clone(), Some(VaultStatus::Outsider(UserDataOutsider::non_member(creds("a").user()))));
    assert!(matches!(out, StatusState::Ready(ApplicationState::Vault(VaultFullInfo::Outsider(_)))));
    let member = UserDataMember::from(creds("a").user());
    match state_of_status(device, Some(VaultStatus::Member(member.clone()))) {
        StatusState::NeedsVault(m) => assert_eq!(m, member),
        StatusState::Ready(_) => panic!("a member needs its vault"),
    }
}

#[test]
fn member_state_keeps_the_vault_log_or_starts_empty() {
    let member = UserDataMember::from(creds("a").user());
    let request = VaultActionRequestEvent::JoinCluster(JoinClusterEvent::from(creds("b").user()));
    let events = VaultActionEvents::default().request(request);
    let state = member_state(member.clone(), VaultData::from(member.clone()), SsLogData { claims: VecMap::new() }, Some(events));
    match state {
        ApplicationState::Vault(VaultFullInfo::Member(info)) => {
            assert_eq!(info.member.member, member);
            assert_eq!(info.vault_events.requests.len(), 1);
        }
        _ => panic!("a member state"),
    }
    match member_app_state("a") {
        ApplicationState::Vault(VaultFullInfo::Member(info)) => {
            assert_eq!(info.vault_events.requests.len(), 0);
            assert_eq!(info.vault_events.updates.len(), 0);
        }
        _ => panic!("a member state"),
    }
}

#[test]
fn recovery_needs_a_known_claim_and_some_share() {
    let sender = creds("a").device_creds.device.device_id;
    let claim_id = ClaimId::from(Id48bit::generate());
    let pass_id = MetaPasswordId { id: U64IdUrlEnc::from_text("p"), name: "p".to_string() };
    let claim = SsClaim {
        id: claim_id.clone(),
        dist_claim_id: SsClaimId { id: claim_id.clone(), pass_id },
        vault_name: VaultName::test(),
        sender,
        distribution_type: SecretDistributionType::Recover,
        receivers: vec![],
        status: SsDistributionCompositeStatus::from(vec![]),
        client_status: None,
    };
    let log = SsLogData::new(claim);
    assert_eq!(claim_for_recovery(&log, &claim_id).unwrap().id, claim_id);
    let other = ClaimId::from(Id48bit::generate());
    assert_eq!(claim_for_recovery(&log, &other).unwrap_err(), CoreError::ClaimNotFound);

    assert_eq!(require_shares(0, 0), Err(CoreError::NoRecoveryShares));
    assert_eq!(require_shares(2, 0), Ok(()));
    assert_eq!(require_shares(0, 1), Ok(()));
}

#[test]
fn shares_are_re_encrypted_only_for_member_senders() {
    let owner = UserDataMember::from(creds("a").user());
    let vault = VaultData::from(owner.clone())
        .update_membership(UserMembership::Outsider(UserDataOutsider::non_member(creds("b").user())));
    assert_eq!(claim_sender_member(&vault, &creds("a").device_creds.device.device_id).unwrap(), owner);
    assert_eq!(
        claim_sender_member(&vault, &creds("b").device_creds.device.device_id).unwrap_err(),
        CoreError::NotAVaultMember
    );
    assert_eq!(
        claim_sender_member(&vault, &creds("c").device_creds.device.device_id).unwrap_err(),
        CoreError::NotAVaultMember
    );
}
