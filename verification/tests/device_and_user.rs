use meta_secret_core::ids::{Base64Text, IdString, U64IdUrlEnc};
use meta_secret_core::model::device::{DeviceData, DeviceId, DeviceName, DeviceType};
use meta_secret_core::model::keys::{DsaPk, OpenBox, TransportPk};
use meta_secret_core::model::meta_pass::MetaPasswordId;
use meta_secret_core::model::user::{
    UserData, UserDataMember, UserDataOutsider, UserDataOutsiderStatus, UserMembership, WasmUserMembership,
};
use meta_secret_core::model::vault::VaultName;

fn create_test_device_id() -> DeviceId {
    let text = Base64Text::from_text("test123");
    let id = U64IdUrlEnc { text };
    DeviceId(id)
}

fn create_test_device_data() -> DeviceData {
    let device_id = create_test_device_id();
    let device_name = DeviceName::from("test_device");

    let dsa_pk = DsaPk(Base64Text::from_text("test_dsa_pk"));
    let transport_pk = TransportPk(Base64Text::from_text("test_transport"));

    let open_box = OpenBox { dsa_pk, transport_pk };

    DeviceData { device_id, device_name, device_type: DeviceType::default(), keys: open_box }
}

fn create_test_user_data() -> UserData {
    let vault_name = VaultName::from("test_vault");
    let device = create_test_device_data();

    UserData { vault_name, device }
}

#[test]
fn device_type_default_is_other() {
    assert_eq!(DeviceType::default().as_str(), "Other");
}

#[test]
fn device_type_named_constructors_are_stable() {
    assert_eq!(DeviceType::android().as_str(), "Android");
    assert_eq!(DeviceType::iphone().as_str(), "iPhone");
    assert_eq!(DeviceType::tablet().as_str(), "Tablet");
    assert_eq!(DeviceType::web().as_str(), "Web");
    assert_eq!(DeviceType::cli().as_str(), "CLI");
    assert_eq!(DeviceType::desktop().as_str(), "Desktop");
}

#[test]
fn test_meta_password_id_build() {
    let name = "Test Password";
    let password_id = MetaPasswordId::build(name);

    assert_eq!(password_id.name, name);
    assert!(!password_id.id().is_empty());

    let password_id2 = MetaPasswordId::build(name);
    assert_eq!(password_id.id(), password_id2.id());
}

#[test]
fn test_meta_password_id_different_names() {
    let password_id1 = MetaPasswordId::build("Password 1");
    let password_id2 = MetaPasswordId::build("Password 2");

    assert_ne!(password_id1.id(), password_id2.id());
}

#[test]
fn test_meta_password_id_cloning() {
    let original = MetaPasswordId::build("Original Password");
    let cloned = original.clone();

    assert_eq!(original, cloned);
    assert_eq!(original.id(), cloned.id());
    assert_eq!(original.name, cloned.name);
}

#[test]
fn test_meta_password_id_equality() {
    let password1 = MetaPasswordId::build("Test Password");
    let password2 = MetaPasswordId::build("Test Password");
    let password3 = MetaPasswordId::build("Different Password");

    assert_eq!(password1, password2);
    assert_ne!(password1, password3);
}

#[test]
fn meta_password_id() {
    let pass_id = MetaPasswordId::build_from_str("test");
    assert_eq!(pass_id.id.id_str(), "n4bQgYhMfWU".to_string())
}

#[test]
fn test_user_data_methods() {
    let user_data = create_test_user_data();

    let vault_name = user_data.vault_name();
    assert_eq!(vault_name.0, "test_vault");

    let user_id = user_data.user_id();
    assert_eq!(user_id.vault_name.0, "test_vault");
    assert_eq!(user_id.device_id.0.text.base64_str(), user_data.device.device_id.0.text.base64_str());
}

#[test]
fn test_user_membership_member() {
    let user_data = create_test_user_data();
    let member = UserDataMember { user_data: user_data.clone() };
    let membership = UserMembership::Member(member.clone());

    assert!(matches!(membership, UserMembership::Member(_)));
    assert_eq!(membership.user_data(), user_data.clone());
    assert_eq!(membership.device_id().0.text.base64_str(), user_data.device.device_id.0.text.base64_str());

    let wasm_membership = WasmUserMembership::from(membership);
    assert!(wasm_membership.is_member());
    assert!(!wasm_membership.is_outsider());

    let member_data = wasm_membership.as_member();
    assert_eq!(member_data.user_data, user_data);
}

#[test]
fn test_user_membership_outsider() {
    let user_data = create_test_user_data();
    let outsider = UserDataOutsider { user_data: user_data.clone(), status: UserDataOutsiderStatus::NonMember };
    let membership = UserMembership::Outsider(outsider.clone());

    assert!(matches!(membership, UserMembership::Outsider(_)));
    assert_eq!(membership.user_data(), user_data.clone());

    let wasm_membership = WasmUserMembership::from(membership);
    assert!(wasm_membership.is_outsider());
    assert!(!wasm_membership.is_member());

    let outsider_data = wasm_membership.as_outsider();
    assert_eq!(outsider_data.user_data, user_data);
    assert_eq!(outsider_data.status, UserDataOutsiderStatus::NonMember);
}

#[test]
fn test_user_data_outsider_methods() {
    let user_data = create_test_user_data();

    let outsider = UserDataOutsider::non_member(user_data.clone());
    assert_eq!(outsider.user_data, user_data);
    assert_eq!(outsider.status, UserDataOutsiderStatus::NonMember);

    assert!(outsider.is_non_member());
}

#[test]
fn test_user_data_member_from_outsider() {
    let user_data = create_test_user_data();
    let outsider = UserDataOutsider::non_member(user_data.clone());

    let member = UserDataMember::from_outsider(outsider);
    assert_eq!(member.user_data, user_data);

    assert_eq!(member.user(), &user_data);
}

#[test]
fn test_user_membership_user_data_member() {
    let user_data = create_test_user_data();

    let member = UserDataMember { user_data: user_data.clone() };
    let membership = UserMembership::Member(member.clone());
    let result = membership.user_data_member();
    assert_eq!(result.user_data, user_data);

    let outsider = UserDataOutsider { user_data: user_data.clone(), status: UserDataOutsiderStatus::NonMember };
    let membership = UserMembership::Outsider(outsider);
    let result = membership.user_data_member();
    assert_eq!(result.user_data, user_data);
}

#[test]
fn pending_outsider_is_not_a_non_member() {
    let outsider = UserDataOutsider::pending(create_test_user_data());
    assert_eq!(outsider.status, UserDataOutsiderStatus::Pending);
    assert!(!outsider.is_non_member());
}

#[test]
fn device_data_takes_its_id_from_the_transport_key() {
    let keys = OpenBox {
        dsa_pk: DsaPk(Base64Text::from_text("dsa")),
        transport_pk: TransportPk(Base64Text::from_text("transport")),
    };
    let expected = keys.transport_pk.to_device_id();
    let device = DeviceData::from(DeviceName::client(), keys);
    assert_eq!(device.device_id, expected);
    assert_eq!(device.device_type.as_str(), "Other");
}
