use meta_secret_core::ids::{Base64Text, Id48bit, U64IdUrlEnc};
use meta_secret_core::model::device::DeviceId;
use meta_secret_core::model::keys::TransportPk;
use meta_secret_core::model::meta_pass::MetaPasswordId;
use meta_secret_core::model::secret::{
    ClaimId, RecoveryClientStatus, SecretDistributionType, SsClaim, SsClaimId, SsDistributionCompositeStatus,
    SsDistributionStatus, SsLogData,
};
use meta_secret_core::model::vault::VaultName;

fn device(name: &str) -> DeviceId {
    TransportPk(Base64Text(format!("transport-pk-{}", name))).to_device_id()
}

fn client() -> DeviceId {
    device("client")
}

fn client_b() -> DeviceId {
    device("client_b")
}

fn vd() -> DeviceId {
    device("vd")
}

fn pass(name: &str) -> MetaPasswordId {
    MetaPasswordId { id: U64IdUrlEnc::from_text(name), name: name.to_string() }
}

fn claim_of(
    claim_id: ClaimId,
    pass_id: MetaPasswordId,
    sender: DeviceId,
    distribution_type: SecretDistributionType,
    receivers: Vec<DeviceId>,
) -> SsClaim {
    SsClaim {
        id: claim_id.clone(),
        dist_claim_id: SsClaimId { id: claim_id, pass_id },
        vault_name: VaultName::test(),
        sender,
        distribution_type,
        receivers: receivers.clone(),
        status: SsDistributionCompositeStatus::from(receivers),
        client_status: None,
    }
}

fn make_recover_claim(sender: DeviceId, receivers: Vec<DeviceId>) -> (SsClaim, ClaimId) {
    let claim_id = ClaimId::from(Id48bit::generate());
    let claim = claim_of(claim_id.clone(), pass("pass_id"), sender, SecretDistributionType::Recover, receivers);
    (claim, claim_id)
}

#[test]
fn test_distribution_ids() {
    let claim_id = ClaimId::from(Id48bit::generate());
    let receivers = vec![vd(), client_b()];
    let claim = claim_of(claim_id, pass("pass_id"), client(), SecretDistributionType::Split, receivers);

    let dist_ids = claim.distribution_ids();
    assert_eq!(2, dist_ids.len());
}

#[test]
fn test_recovery_db_ids() {
    let claim_id = ClaimId::from(Id48bit::generate());
    let pass_id = pass("test_pass_id");
    let receivers = vec![client_b(), vd()];
    let claim = claim_of(claim_id, pass_id.clone(), client(), SecretDistributionType::Split, receivers.clone());

    let recovery_ids = claim.recovery_db_ids();
    assert_eq!(recovery_ids.len(), 2);

    for (idx, recovery_id) in recovery_ids.iter().enumerate() {
        assert_eq!(recovery_id.claim_id.id, claim.dist_claim_id.id);
        assert_eq!(recovery_id.claim_id.pass_id.id, pass_id.id);
        assert_eq!(recovery_id.sender, client());
        assert_eq!(recovery_id.distribution_id.pass_id.id, pass_id.id);
        assert_eq!(recovery_id.distribution_id.receiver, receivers[idx]);
    }
}

#[test]
fn test_ss_distribution_composite_status() {
    let devices = vec![client_b(), vd()];
    let status = SsDistributionCompositeStatus::from(devices);

    assert_eq!(status.statuses.len(), 2);
    for (_, device_status) in status.statuses.as_vec().iter() {
        assert!(matches!(device_status, SsDistributionStatus::Pending));
    }

    let updated_status = status.sent(client_b());
    assert!(matches!(updated_status.get(&client_b()), Some(SsDistributionStatus::Sent)));
    assert!(matches!(updated_status.get(&vd()), Some(SsDistributionStatus::Pending)));

    let final_status = updated_status.complete(client_b());
    assert!(matches!(final_status.get(&client_b()), Some(SsDistributionStatus::Delivered)));
    assert!(matches!(final_status.get(&vd()), Some(SsDistributionStatus::Pending)));

    let non_existent_device = DeviceId(U64IdUrlEnc::from_text("non_existent_device"));
    assert_eq!(final_status.get(&non_existent_device), None);

    let all_pending = SsDistributionCompositeStatus::from(vec![client_b(), vd()]);
    assert!(matches!(all_pending.status(), SsDistributionStatus::Pending));

    let mixed_statuses = all_pending.clone().sent(client_b());
    assert!(matches!(mixed_statuses.status(), SsDistributionStatus::Sent));

    let all_sent = mixed_statuses.clone().sent(vd());
    assert!(matches!(all_sent.status(), SsDistributionStatus::Sent));

    let partially_delivered = all_sent.clone().complete(client_b());
    assert!(matches!(partially_delivered.status(), SsDistributionStatus::Sent));

    let all_delivered = partially_delivered.complete(vd());
    assert!(matches!(all_delivered.status(), SsDistributionStatus::Delivered));
}

#[test]
fn test_ss_log_data_sent_and_complete() {
    let claim_id = ClaimId::from(Id48bit::generate());
    let receivers = vec![client_b(), vd()];
    let claim = claim_of(claim_id.clone(), pass("pass_id"), client(), SecretDistributionType::Split, receivers.clone());

    let log_data = SsLogData::new(claim.clone());
    assert_eq!(log_data.claims.len(), 1);
    assert!(log_data.claims.contains_key(&claim_id));

    let stored_claim = log_data.claims.get(&claim_id).unwrap();
    for receiver in &receivers {
        let status = stored_claim.status.get(receiver).unwrap();
        assert!(matches!(status, SsDistributionStatus::Pending));
    }

    let log_data_sent = log_data.sent(claim_id.clone(), client_b());
    assert!(log_data_sent.claims.contains_key(&claim_id));
    let updated_claim = log_data_sent.claims.get(&claim_id).unwrap();
    assert!(matches!(updated_claim.status.get(&client_b()).unwrap(), SsDistributionStatus::Sent));
    assert!(matches!(updated_claim.status.get(&vd()).unwrap(), SsDistributionStatus::Pending));

    let log_data_complete = log_data_sent.complete(claim_id.clone(), client_b());
    assert!(log_data_complete.claims.contains_key(&claim_id));
    let completed_claim = log_data_complete.claims.get(&claim_id).unwrap();
    assert!(matches!(completed_claim.status.get(&client_b()).unwrap(), SsDistributionStatus::Delivered));
    assert!(matches!(completed_claim.status.get(&vd()).unwrap(), SsDistributionStatus::Pending));

    let non_existent_id = ClaimId::from(Id48bit::generate());
    let log_data_non_existent = log_data_complete.sent(non_existent_id.clone(), client_b());
    assert_eq!(log_data_non_existent.claims.len(), 1);
    assert!(!log_data_non_existent.claims.contains_key(&non_existent_id));
}

#[test]
fn test_compute_client_status_split_returns_none() {
    let sender = client();
    let receiver = client_b();
    let claim_id = ClaimId::from(Id48bit::generate());
    let split_claim = claim_of(claim_id, pass("p"), sender.clone(), SecretDistributionType::Split, vec![receiver.clone()]);

    assert_eq!(split_claim.compute_client_status(&sender), None);
    assert_eq!(split_claim.compute_client_status(&receiver), None);
}

#[test]
fn test_compute_client_status_sender_pending() {
    let sender = client();
    let (claim, _) = make_recover_claim(sender.clone(), vec![client_b(), vd()]);
    assert_eq!(claim.compute_client_status(&sender), Some(RecoveryClientStatus::Pending));
}

#[test]
fn test_compute_client_status_sender_accepted_when_one_sent() {
    let sender = client();
    let (recv_a, recv_b) = (client_b(), vd());
    let claim_id = ClaimId::from(Id48bit::generate());
    let mut claim =
        claim_of(claim_id, pass("p"), sender.clone(), SecretDistributionType::Recover, vec![recv_a.clone(), recv_b]);
    claim.status = claim.status.sent(recv_a);

    assert_eq!(claim.compute_client_status(&sender), Some(RecoveryClientStatus::Accepted));
}

#[test]
fn test_compute_client_status_sender_done_when_one_delivered() {
    let sender = client();
    let (recv_a, recv_b) = (client_b(), vd());
    let claim_id = ClaimId::from(Id48bit::generate());
    let mut claim =
        claim_of(claim_id, pass("p"), sender.clone(), SecretDistributionType::Recover, vec![recv_a.clone(), recv_b]);
    claim.status = claim.status.complete(recv_a);

    assert_eq!(claim.compute_client_status(&sender), Some(RecoveryClientStatus::Done));
}

#[test]
fn test_compute_client_status_sender_declined_when_all_declined() {
    let sender = client();
    let (recv_a, recv_b) = (client_b(), vd());
    let claim_id = ClaimId::from(Id48bit::generate());
    let mut claim = claim_of(
        claim_id,
        pass("p"),
        sender.clone(),
        SecretDistributionType::Recover,
        vec![recv_a.clone(), recv_b.clone()],
    );
    claim.status = claim.status.decline(recv_a).decline(recv_b);

    assert_eq!(claim.compute_client_status(&sender), Some(RecoveryClientStatus::Declined));
}

#[test]
fn test_compute_client_status_sender_pending_when_only_some_declined() {
    let sender = client();
    let (recv_a, recv_b) = (client_b(), vd());
    let claim_id = ClaimId::from(Id48bit::generate());
    let mut claim =
        claim_of(claim_id, pass("p"), sender.clone(), SecretDistributionType::Recover, vec![recv_a.clone(), recv_b]);
    claim.status = claim.status.decline(recv_a);

    assert_eq!(claim.compute_client_status(&sender), Some(RecoveryClientStatus::Pending));
}

#[test]
fn test_compute_client_status_receiver_need_approve() {
    let (recv_a, recv_b) = (client_b(), vd());
    let (claim, _) = make_recover_claim(client(), vec![recv_a.clone(), recv_b]);
    assert_eq!(claim.compute_client_status(&recv_a), Some(RecoveryClientStatus::NeedApprove));
}

#[test]
fn test_compute_client_status_receiver_done_when_claim_resolved() {
    let (recv_a, recv_b) = (client_b(), vd());
    let claim_id = ClaimId::from(Id48bit::generate());
    let mut claim =
        claim_of(claim_id, pass("p"), client(), SecretDistributionType::Recover, vec![recv_a.clone(), recv_b.clone()]);
    claim.status = claim.status.sent(recv_a.clone());

    assert_eq!(claim.compute_client_status(&recv_b), Some(RecoveryClientStatus::Done));
    assert_eq!(claim.compute_client_status(&recv_a), Some(RecoveryClientStatus::Done));
}

#[test]
fn test_compute_client_status_receiver_done_after_own_decline() {
    let (recv_a, recv_b) = (client_b(), vd());
    let claim_id = ClaimId::from(Id48bit::generate());
    let mut claim =
        claim_of(claim_id, pass("p"), client(), SecretDistributionType::Recover, vec![recv_a.clone(), recv_b]);
    claim.status = claim.status.decline(recv_a.clone());

    assert_eq!(claim.compute_client_status(&recv_a), Some(RecoveryClientStatus::Done));
}

#[test]
fn test_compute_client_status_unknown_device_returns_none() {
    let (claim, _) = make_recover_claim(client(), vec![client_b()]);

    let outsider = DeviceId(U64IdUrlEnc::from_text("unknown_device"));
    assert_eq!(claim.compute_client_status(&outsider), None);
}

#[test]
fn test_with_client_status_populates_all_recover_claims() {
    let sender = client();
    let (recv_a, recv_b) = (client_b(), vd());

    let (claim1, _) = make_recover_claim(sender.clone(), vec![recv_a.clone(), recv_b]);
    let split_id = ClaimId::from(Id48bit::generate());
    let split_claim = claim_of(split_id, pass("s"), sender.clone(), SecretDistributionType::Split, vec![recv_a]);

    let log = SsLogData::new(claim1).insert(split_claim);
    let log = log.with_client_status(&sender);

    for (_, claim) in log.claims.as_vec().iter() {
        match claim.distribution_type {
            SecretDistributionType::Recover => {
                assert!(claim.client_status.is_some());
                assert_eq!(claim.client_status, Some(RecoveryClientStatus::Pending));
            }
            SecretDistributionType::Split => {
                assert!(claim.client_status.is_none());
            }
        }
    }
}

#[test]
fn test_has_active_recovery_claim_pending_is_active() {
    let sender = client();
    let pass_id = pass("secret1");
    let (mut claim, _) = make_recover_claim(sender.clone(), vec![client_b()]);
    claim.dist_claim_id.pass_id = pass_id.clone();

    let log = SsLogData::new(claim).with_client_status(&sender);
    assert!(log.has_active_recovery_claim(&sender, &pass_id));
}

#[test]
fn test_has_active_recovery_claim_accepted_is_active() {
    let sender = client();
    let recv = client_b();
    let pass_id = pass("secret1");
    let (mut claim, claim_id) = make_recover_claim(sender.clone(), vec![recv.clone()]);
    claim.dist_claim_id.pass_id = pass_id.clone();

    let log = SsLogData::new(claim).sent(claim_id, recv);
    let log = log.with_client_status(&sender);
    assert!(log.has_active_recovery_claim(&sender, &pass_id));
}

#[test]
fn test_has_active_recovery_claim_done_is_not_active() {
    let sender = client();
    let recv = client_b();
    let pass_id = pass("secret1");
    let (mut claim, claim_id) = make_recover_claim(sender.clone(), vec![recv.clone()]);
    claim.dist_claim_id.pass_id = pass_id.clone();

    let log = SsLogData::new(claim).complete(claim_id, recv);
    let log = log.with_client_status(&sender);
    assert!(!log.has_active_recovery_claim(&sender, &pass_id));
}

#[test]
fn test_has_active_recovery_claim_declined_is_not_active() {
    let sender = client();
    let (recv_a, recv_b) = (client_b(), vd());
    let pass_id = pass("secret1");
    let (mut claim, claim_id) = make_recover_claim(sender.clone(), vec![recv_a.clone(), recv_b.clone()]);
    claim.dist_claim_id.pass_id = pass_id.clone();

    let log = SsLogData::new(claim).decline(claim_id.clone(), recv_a).decline(claim_id, recv_b);
    let log = log.with_client_status(&sender);
    assert!(!log.has_active_recovery_claim(&sender, &pass_id));
}

#[test]
fn test_has_active_recovery_claim_different_pass_id_is_ignored() {
    let sender = client();
    let pass_id = pass("secret1");
    let other_pass_id = pass("secret2");
    let (mut claim, _) = make_recover_claim(sender.clone(), vec![client_b()]);
    claim.dist_claim_id.pass_id = pass_id.clone();

    let log = SsLogData::new(claim).with_client_status(&sender);
    assert!(log.has_active_recovery_claim(&sender, &pass_id));
    assert!(!log.has_active_recovery_claim(&sender, &other_pass_id));
}

#[test]
fn test_find_recovery_claim_id_returns_accepted_claim() {
    let sender = client();
    let recv = client_b();
    let pass_id = pass("secret1");
    let (mut claim, claim_id) = make_recover_claim(sender.clone(), vec![recv.clone()]);
    claim.dist_claim_id.pass_id = pass_id.clone();

    let log = SsLogData::new(claim).sent(claim_id, recv).with_client_status(&sender);
    let found = log.find_recovery_claim_id(&pass_id);
    assert!(found.is_some());
}

#[test]
fn test_find_recovery_claim_id_skips_done_claim_prefers_accepted() {
    let sender = client();
    let (recv_a, recv_b) = (client_b(), vd());
    let pass_id = pass("secret1");

    let (mut claim1, claim_id1) = make_recover_claim(sender.clone(), vec![recv_a.clone()]);
    claim1.dist_claim_id.pass_id = pass_id.clone();
    let log = SsLogData::new(claim1).complete(claim_id1, recv_a.clone());

    let (mut claim2, claim_id2) = make_recover_claim(sender.clone(), vec![recv_b.clone()]);
    claim2.dist_claim_id.pass_id = pass_id.clone();
    let log = log.insert(claim2).sent(claim_id2.clone(), recv_b.clone()).with_client_status(&sender);

    let found = log.find_recovery_claim_id(&pass_id);
    assert_eq!(found, Some(claim_id2));
}

#[test]
fn test_find_recovery_claim_id_returns_none_when_all_done() {
    let sender = client();
    let recv = client_b();
    let pass_id = pass("secret1");
    let (mut claim, claim_id) = make_recover_claim(sender.clone(), vec![recv.clone()]);
    claim.dist_claim_id.pass_id = pass_id.clone();
    let log = SsLogData::new(claim).complete(claim_id, recv).with_client_status(&sender);

    let found = log.find_recovery_claim_id(&pass_id);
    assert!(found.is_none());
}

#[test]
fn test_find_recovery_claim_id_skips_declined_claim_prefers_pending() {
    let sender = client();
    let (recv_a, recv_b) = (client_b(), vd());
    let pass_id = pass("secret1");

    let (mut claim1, claim_id1) = make_recover_claim(sender.clone(), vec![recv_a.clone()]);
    claim1.dist_claim_id.pass_id = pass_id.clone();
    let log = SsLogData::new(claim1).decline(claim_id1, recv_a.clone());

    let (mut claim2, claim_id2) = make_recover_claim(sender.clone(), vec![recv_b.clone()]);
    claim2.dist_claim_id.pass_id = pass_id.clone();
    let log = log.insert(claim2).with_client_status(&sender);

    let found = log.find_recovery_claim_id(&pass_id);
    assert_eq!(found, Some(claim_id2));
}

#[test]
fn test_has_active_recovery_claim_different_sender_is_ignored() {
    let sender = client();
    let other_sender = vd();
    let pass_id = pass("secret1");
    let (mut claim, _) = make_recover_claim(sender.clone(), vec![client_b()]);
    claim.dist_claim_id.pass_id = pass_id.clone();

    let log = SsLogData::new(claim).with_client_status(&sender);
    assert!(log.has_active_recovery_claim(&sender, &pass_id));
    assert!(!log.has_active_recovery_claim(&other_sender, &pass_id));
}

#[test]
fn stale_sweep_declines_sent_receiver_not_completes() {
    let sender = client();
    let recv_a = client_b();
    let pass_id = MetaPasswordId::build_from_str("stale_sweep_test");

    let claim_id = ClaimId::from(Id48bit::generate());
    let mut claim = claim_of(claim_id, pass_id, sender.clone(), SecretDistributionType::Recover, vec![recv_a.clone()]);
    claim.status = claim.status.sent(recv_a.clone());

    let mut retired = claim.clone();
    let sent_receivers: Vec<DeviceId> = retired
        .status
        .statuses
        .as_vec()
        .iter()
        .filter(|(_, s)| matches!(s, SsDistributionStatus::Sent))
        .map(|(id, _)| id.clone())
        .collect();
    for receiver_id in sent_receivers {
        retired.status = retired.status.decline(receiver_id);
    }

    let recv_status = retired.status.statuses.get(&recv_a).unwrap();
    assert!(matches!(recv_status, SsDistributionStatus::Declined));

    let log = SsLogData::new(retired).with_client_status(&sender);
    for (_, c) in log.claims.as_vec().iter() {
        assert_ne!(c.client_status, Some(RecoveryClientStatus::Done));
    }
}

#[test]
fn decline_remaining_pending_declines_only_pending() {
    let status = SsDistributionCompositeStatus::from(vec![client_b(), vd()]).sent(client_b());
    let status = status.decline_remaining_pending();
    assert_eq!(status.get(&client_b()), Some(&SsDistributionStatus::Sent));
    assert_eq!(status.get(&vd()), Some(&SsDistributionStatus::Declined));
}
