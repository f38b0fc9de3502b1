use meta_secret_core::events::vault_log::{
    AddMetaPassEvent, JoinClusterEvent, UpdateMembershipEvent, VaultActionEvent, VaultActionEvents,
    VaultActionRequestEvent, VaultActionUpdateEvent,
};
use meta_secret_core::ids::Base64Text;
use meta_secret_core::model::creds::{DeviceCredsBuilder, UserCreds, UserCredsBuilder};
use meta_secret_core::model::device::DeviceName;
use meta_secret_core::model::keys::{DsaPk, DsaSk, KeyManager, TransportPk, TransportSk};
use meta_secret_core::model::meta_pass::MetaPasswordId;
use meta_secret_core::model::user::{UserDataMember, UserDataOutsider, UserMembership};
use meta_secret_core::model::vault::{VaultMember, VaultName, VaultStatus};
use meta_secret_core::model::vault_data::{VaultAggregate, VaultData};

fn key_manager(name: &str) -> KeyManager {
    KeyManager {
        dsa_pk: DsaPk(Base64Text(format!("dsa-pk-{}", name))),
        dsa_sk: DsaSk(Base64Text(format!("dsa-sk-{}", name))),
        transport_pk: TransportPk(Base64Text(format!("transport-pk-{}", name))),
        transport_sk: TransportSk(Base64Text(format!("transport-sk-{}", name))),
    }
}

fn user_creds(name: &str, device_name: DeviceName) -> UserCreds {
    let device_creds = DeviceCredsBuilder::init(key_manager(name)).build(device_name).creds;
    UserCredsBuilder::init(device_creds).build(VaultName::test()).creds
}

fn client_creds() -> UserCreds {
    user_creds("client", DeviceName::client())
}

fn client_b_creds() -> UserCreds {
    user_creds("client_b", DeviceName::client_b())
}

fn vd_creds() -> UserCreds {
    user_creds("vd", DeviceName::virtual_device())
}

#[test]
fn test_sss_cfg() {
    let client_creds = client_creds();

    let vd_membership = UserMembership::Member(UserDataMember { user_data: vd_creds().user() });
    let client_b_membership = UserMembership::Outsider(UserDataOutsider::pending(client_b_creds().user()));

    let vault_data = VaultData::from(UserDataMember::from(client_creds.user()));
    let cfg = vault_data.sss_cfg();
    assert_eq!(cfg.threshold, 1);
    assert_eq!(cfg.number_of_shares, 1);

    let vault_data = vault_data.update_membership(vd_membership);
    let cfg = vault_data.sss_cfg();
    assert_eq!(cfg.threshold, 1);
    assert_eq!(cfg.number_of_shares, 2);

    let vault_data = vault_data.update_membership(client_b_membership);
    let cfg = vault_data.sss_cfg();
    assert_eq!(cfg.threshold, 1);
    assert_eq!(cfg.number_of_shares, 2);

    assert_eq!(2, vault_data.members().len());
    assert_eq!(1, vault_data.outsiders().len());
}

#[test]
fn test_vault_aggregate() {
    let client_creds = client_creds();
    let vault_data = VaultData::from(UserDataMember::from(client_creds.user()));

    let join_request = JoinClusterEvent::from(client_b_creds().user());
    let join_request_event = VaultActionEvent::Request(VaultActionRequestEvent::JoinCluster(join_request.clone()));

    let update_membership = VaultActionUpdateEvent::UpdateMembership(UpdateMembershipEvent {
        request: join_request.clone(),
        sender: UserDataMember { user_data: client_creds.user() },
        update: UserMembership::Member(UserDataMember { user_data: join_request.candidate.clone() }),
    });

    let update_membership_event = VaultActionEvent::Update(update_membership);

    let events = VaultActionEvents::default().apply_event(join_request_event).apply_event(update_membership_event);

    let vault_aggregate = VaultAggregate::build_from(events, vault_data);
    assert_eq!(2, vault_aggregate.vault.users.len());
}

#[test]
fn test_vault_aggregate_complete_method() {
    let client_creds = client_creds();
    let vault_data = VaultData::from(UserDataMember::from(client_creds.user()));

    let events = VaultActionEvents::default();
    let aggregate = VaultAggregate::build_from(events, vault_data);

    assert_eq!(aggregate.events.updates.len(), 0);
    assert_eq!(aggregate.vault.members().len(), 1);
}

#[test]
fn test_vault_aggregate_with_add_meta_pass_event() {
    let client_creds = client_creds();
    let client_member = UserDataMember::from(client_creds.user());
    let vault_data = VaultData::from(client_member.clone());

    let meta_pass_id = MetaPasswordId::build_from_str("Test Password");
    let add_meta_pass = AddMetaPassEvent { sender: client_member.clone(), meta_pass_id: meta_pass_id.clone() };

    let request_event = VaultActionRequestEvent::AddMetaPass(add_meta_pass.clone());
    let update_event = VaultActionUpdateEvent::AddMetaPass(add_meta_pass);

    let events = VaultActionEvents::default().request(request_event).apply(update_event);
    let aggregate = VaultAggregate::build_from(events, vault_data);

    assert!(aggregate.vault.secrets.contains(&meta_pass_id));
    assert_eq!(aggregate.events.updates.len(), 0);
}

#[test]
fn test_vault_aggregate_sender_not_member() {
    let client_creds = client_creds();
    let vault_data = VaultData::from(UserDataMember::from(client_creds.user()));

    let meta_pass_id = MetaPasswordId::build_from_str("Another Test Password");
    let non_member_sender = UserDataMember { user_data: client_b_creds().user() };
    let add_meta_pass = AddMetaPassEvent { sender: non_member_sender, meta_pass_id: meta_pass_id.clone() };

    let update_event = VaultActionUpdateEvent::AddMetaPass(add_meta_pass);
    let events = VaultActionEvents::default().apply(update_event);
    let aggregate = VaultAggregate::build_from(events, vault_data);

    assert!(!aggregate.vault.secrets.contains(&meta_pass_id));
    assert_eq!(aggregate.events.updates.len(), 0);
}

#[test]
fn test_vault_aggregate_add_member_update() {
    let client_creds = client_creds();
    let client_b_creds = client_b_creds();
    let vault_data = VaultData::from(UserDataMember::from(client_creds.user()));

    let join_request = JoinClusterEvent::from(client_b_creds.user());
    let request_event = VaultActionRequestEvent::JoinCluster(join_request.clone());

    let update_membership = VaultActionUpdateEvent::UpdateMembership(UpdateMembershipEvent {
        request: join_request.clone(),
        sender: UserDataMember::from(client_creds.user()),
        update: UserMembership::Member(UserDataMember::from(client_b_creds.user())),
    });

    let events = VaultActionEvents::default().request(request_event).apply(update_membership);
    let aggregate = VaultAggregate::build_from(events, vault_data);

    assert_eq!(aggregate.vault.members().len(), 2);
    assert!(aggregate.vault.is_member(&client_b_creds.user().device.device_id));
    assert_eq!(aggregate.events.updates.len(), 0);
}

#[test]
fn test_vault_aggregate_multiple_events() {
    let client_creds = client_creds();
    let client_b_creds = client_b_creds();
    let vd_creds = vd_creds();
    let vault_data = VaultData::from(UserDataMember::from(client_creds.user()));

    let join_request_b = JoinClusterEvent::from(client_b_creds.user());
    let request_event_b = VaultActionRequestEvent::JoinCluster(join_request_b.clone());
    let update_membership_b = VaultActionUpdateEvent::UpdateMembership(UpdateMembershipEvent {
        request: join_request_b.clone(),
        sender: UserDataMember::from(client_creds.user()),
        update: UserMembership::Member(UserDataMember::from(client_b_creds.user())),
    });

    let join_request_vd = JoinClusterEvent::from(vd_creds.user());
    let request_event_vd = VaultActionRequestEvent::JoinCluster(join_request_vd.clone());
    let update_membership_vd = VaultActionUpdateEvent::UpdateMembership(UpdateMembershipEvent {
        request: join_request_vd.clone(),
        sender: UserDataMember::from(client_creds.user()),
        update: UserMembership::Member(UserDataMember::from(vd_creds.user())),
    });

    let events = VaultActionEvents::default()
        .request(request_event_b)
        .apply(update_membership_b)
        .request(request_event_vd)
        .apply(update_membership_vd);

    let aggregate = VaultAggregate::build_from(events, vault_data);

    assert_eq!(aggregate.vault.members().len(), 3);
    assert!(aggregate.vault.is_member(&client_b_creds.user().device.device_id));
    assert!(aggregate.vault.is_member(&vd_creds.user().device.device_id));
    assert_eq!(aggregate.events.updates.len(), 0);
}

#[test]
fn test_vault_status() {
    let client_creds = client_creds();
    let client_membership = UserMembership::Member(UserDataMember { user_data: client_creds.user() });

    let vd_membership = UserMembership::Member(UserDataMember { user_data: vd_creds().user() });

    let vault_data = VaultData::from(UserDataMember::from(client_creds.user())).update_membership(vd_membership.clone());

    let vault_member = VaultMember { member: client_membership.user_data_member(), vault: vault_data };

    let pass_id = MetaPasswordId::build("test_password");
    let claim = vault_member.create_split_claim(pass_id);
    assert_eq!(1, claim.receivers.len());
}

#[test]
fn test_create_vault_action_progression() {
    let client_creds = client_creds();
    let client_b_creds = client_b_creds();

    let join_request = JoinClusterEvent { candidate: client_creds.user() };
    let event = VaultActionEvent::Request(VaultActionRequestEvent::JoinCluster(join_request.clone()));

    let actions = VaultActionEvents::default().apply_event(event);
    assert_eq!(actions.requests.len(), 1);

    let update = VaultActionUpdateEvent::UpdateMembership(UpdateMembershipEvent {
        request: join_request,
        sender: UserDataMember { user_data: client_creds.user() },
        update: UserMembership::Member(UserDataMember { user_data: client_b_creds.user() }),
    });
    let event = VaultActionEvent::Update(update);
    let with_update_vault_request = actions.apply_event(event);
    assert_eq!(with_update_vault_request.requests.len(), 0);
    assert_eq!(with_update_vault_request.updates.len(), 1);
}

#[test]
fn sss_cfg_of_larger_vaults_needs_a_majority() {
    let mut vault_data = VaultData::from(UserDataMember::from(client_creds().user()));
    for name in ["m2", "m3", "m4", "m5"] {
        let member = UserMembership::Member(UserDataMember { user_data: user_creds(name, DeviceName::client()).user() });
        vault_data = vault_data.update_membership(member);
    }
    let cfg = vault_data.sss_cfg();
    assert_eq!(cfg.number_of_shares, 5);
    assert_eq!(cfg.threshold, 3);
}

#[test]
fn recovery_claim_goes_to_the_other_members_and_all_are_pending() {
    let client = client_creds();
    let vd = vd_creds();
    let vault_data = VaultData::from(UserDataMember::from(client.user()))
        .update_membership(UserMembership::Member(UserDataMember::from(vd.user())));
    let member = UserDataMember::from(client.user());
    let vault_member = vault_data.to_vault_member(member).unwrap();
    let claim = vault_member.create_recovery_claim(MetaPasswordId::build("pw"));
    assert_eq!(claim.receivers, vec![vd.user().device.device_id.clone()]);
    assert_eq!(claim.sender, client.user().device.device_id);
    assert_eq!(claim.status.status(), meta_secret_core::model::secret::SsDistributionStatus::Pending);
    assert!(claim.client_status.is_none());
}

#[test]
fn non_member_cannot_become_a_vault_member() {
    let vault_data = VaultData::from(UserDataMember::from(client_creds().user()));
    let result = vault_data.to_vault_member(UserDataMember::from(client_b_creds().user()));
    assert!(result.is_err());
}

#[test]
fn status_of_unknown_user_is_non_member_outsider() {
    let vault_data = VaultData::from(UserDataMember::from(client_creds().user()));
    let status = vault_data.status(client_b_creds().user());
    assert!(matches!(status, VaultStatus::Outsider(_)));
    let status = vault_data.status(client_creds().user());
    assert!(matches!(status, VaultStatus::Member(_)));
}

#[test]
fn pending_candidate_is_added_as_outsider() {
    let vault_data = VaultData::from(UserDataMember::from(client_creds().user()));
    let events = VaultActionEvents::default()
        .apply(VaultActionUpdateEvent::AddToPending { candidate: client_b_creds().user() });
    let aggregate = VaultAggregate::build_from(events, vault_data);
    assert_eq!(aggregate.vault.outsiders().len(), 1);
    assert!(!aggregate.vault.is_member(&client_b_creds().user().device.device_id));
}
