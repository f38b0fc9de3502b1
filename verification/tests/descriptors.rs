use meta_secret_core::db::descriptors::{
    CredentialsDescriptor, DeviceCredsDescriptor, DeviceLogDescriptor, ObjectDescriptor, ObjectName, ObjectType, ToObjectDescriptor,
    UserCredsDescriptor, VaultDescriptor, VaultLogDescriptor,
};
use meta_secret_core::db::events::{
    DeviceCredsObject, GenericKvLogEventConvertible, KeyExtractor, ObjIdExtractor, ToGenericEvent, UserCredsObject,
    VaultObject,
};
use meta_secret_core::db::object_id::{ArtifactId, GenesisId, Next, SeqId};
use meta_secret_core::db::descriptors::ObjectFqdn;
use meta_secret_core::ids::{Base64Text, IdString};
use meta_secret_core::model::aead::AeadCipherText;
use meta_secret_core::model::channel::CommunicationChannel;
use meta_secret_core::model::creds::{
    DeviceCreds, DeviceCredsBuilder, SecureDeviceCreds, SecureUserCreds, UserCreds, UserCredsBuilder,
};
use meta_secret_core::model::device::DeviceName;
use meta_secret_core::model::keys::{DsaPk, DsaSk, KeyManager, SecureSecretBox, TransportPk, TransportSk};
use meta_secret_core::model::user::UserDataMember;
use meta_secret_core::model::vault::VaultName;

fn key_manager(name: &str) -> KeyManager {
    KeyManager {
        dsa_pk: DsaPk(Base64Text(format!("dsa-pk-{}", name))),
        dsa_sk: DsaSk(Base64Text(format!("dsa-sk-{}", name))),
        transport_pk: TransportPk(Base64Text(format!("transport-pk-{}", name))),
        transport_sk: TransportSk(Base64Text(format!("transport-sk-{}", name))),
    }
}

fn create_test_device_credentials() -> DeviceCreds {
    DeviceCredsBuilder::init(key_manager("test_device")).build(DeviceName::from("test_device")).creds
}

fn create_test_user_credentials() -> UserCreds {
    let device_creds = create_test_device_credentials();
    UserCredsBuilder::init(device_creds).build(VaultName::from("test_vault")).creds
}

/// Device credentials sealed for a master key (the sealed box is opaque here).
fn secure_device_creds(device_creds: DeviceCreds, master_pk: TransportPk) -> SecureDeviceCreds {
    let channel = CommunicationChannel::single_device(master_pk).to_channel();
    SecureDeviceCreds {
        secret_box: SecureSecretBox {
            secret_box: AeadCipherText { msg: Base64Text::from_text("sealed"), channel },
        },
        device: device_creds.device,
    }
}

fn secure_user_creds(user_creds: UserCreds, master_pk: TransportPk) -> SecureUserCreds {
    SecureUserCreds {
        vault_name: user_creds.vault_name.clone(),
        device_creds: secure_device_creds(user_creds.device_creds, master_pk),
    }
}

#[test]
fn test_device_creds_descriptor_to_obj_desc() {
    let device_desc = DeviceCredsDescriptor;
    let obj_desc = device_desc.to_obj_desc();

    match obj_desc {
        ObjectDescriptor::DeviceCreds(desc) => {
            assert_eq!(desc.object_type(), "DeviceCreds");
            assert_eq!(desc.object_name(), "index");
        }
        _ => panic!("Expected DeviceCreds variant"),
    }
}

#[test]
fn test_user_creds_descriptor_to_obj_desc() {
    let user_desc = UserCredsDescriptor;
    let obj_desc = user_desc.to_obj_desc();

    match obj_desc {
        ObjectDescriptor::UserCreds(desc) => {
            assert_eq!(desc.object_type(), "UserCreds");
            assert_eq!(desc.object_name(), "index");
        }
        _ => panic!("Expected UserCreds variant"),
    }
}

#[test]
fn test_object_fqdn() {
    let obj_desc = DeviceCredsDescriptor.to_obj_desc();
    let fqdn = obj_desc.fqdn();

    assert_eq!(fqdn.obj_type, "DeviceCreds");
    assert_eq!(fqdn.obj_instance, "index");
    assert_eq!(fqdn.id_str(), "DeviceCreds:index");

    let obj_desc = UserCredsDescriptor.to_obj_desc();
    let fqdn = obj_desc.fqdn();

    assert_eq!(fqdn.obj_type, "UserCreds");
    assert_eq!(fqdn.obj_instance, "index");
    assert_eq!(fqdn.id_str(), "UserCreds:index");
}

#[test]
fn test_seq_id_first() {
    let first_id = SeqId::first();
    assert_eq!(first_id.curr, 1);
    assert_eq!(first_id.prev, 0);
}

#[test]
fn test_seq_id_next() {
    let first_id = SeqId::first();
    let next_id = first_id.next();

    assert_eq!(next_id.curr, 2);
    assert_eq!(next_id.prev, 1);

    let third_id = next_id.next();
    assert_eq!(third_id.curr, 3);
    assert_eq!(third_id.prev, 2);
}

#[test]
fn test_genesis_to_seq_id() {
    let genesis = GenesisId;
    let seq_id = genesis.next();

    assert_eq!(seq_id.curr, 1);
    assert_eq!(seq_id.prev, 0);
}

#[test]
fn test_object_fqdn_id_string() {
    {
        let creds_descriptor = CredentialsDescriptor::Device.to_obj_desc();
        let creds_fqdn = creds_descriptor.fqdn();
        assert_eq!(creds_fqdn.id_str(), "DeviceCreds:index");
    }

    {
        let vault_name = VaultName::from("test_vault");
        let vault_descriptor = VaultDescriptor::from(vault_name).to_obj_desc();
        let vault_fqdn = vault_descriptor.fqdn();
        assert_eq!(vault_fqdn.id_str(), "Vault:test_vault");
    }

    {
        let creds_descriptor = CredentialsDescriptor::Device.to_obj_desc();
        let creds_fqdn = creds_descriptor.fqdn();
        assert_eq!(creds_fqdn.id_str(), "DeviceCreds:index");
    }
}

#[test]
fn test_vault_naming() {
    let vault_name = VaultName::test();
    let descriptor = VaultDescriptor(vault_name.clone());
    assert_eq!(descriptor.object_type(), "Vault");
    assert_eq!(descriptor.object_name(), vault_name.to_string());
}

#[test]
fn test_vault_log_naming() {
    let vault_name = VaultName::from("test");
    let descriptor = VaultLogDescriptor(vault_name.clone());
    assert_eq!(descriptor.object_type(), "VaultLog");
    assert_eq!(descriptor.object_name(), vault_name.to_string());
}

#[test]
fn test_artifact_id_id_str() {
    let obj_type = "test_namespace".to_string();
    let obj_instance = "test_object".to_string();
    let fqdn = ObjectFqdn { obj_type, obj_instance };

    let artifact_id = ArtifactId::from(fqdn.clone());

    let expected_id_str = "test_namespace:test_object::1";
    assert_eq!(artifact_id.clone().id_str(), expected_id_str);

    let mut seq_id = SeqId::first();
    seq_id.curr = 100;

    let artifact_id2 = ArtifactId { fqdn: fqdn.clone(), id: seq_id };

    let expected_id_str2 = "test_namespace:test_object::100";
    assert_eq!(artifact_id2.id_str(), expected_id_str2);
}

#[test]
fn test_device_creds_object_key_extraction() {
    let device_creds = create_test_device_credentials();
    let master_pk = key_manager("master").transport_pk;
    let secure_device_creds = secure_device_creds(device_creds.clone(), master_pk);

    let device_creds_obj = DeviceCredsObject::from(secure_device_creds);

    let key = device_creds_obj.key();
    let obj_id = device_creds_obj.obj_id();

    assert_eq!(key.obj_id, obj_id);
    assert!(matches!(key.obj_desc, ObjectDescriptor::DeviceCreds(_)));
}

#[test]
fn test_user_creds_object_key_extraction() {
    let user_creds = create_test_user_credentials();
    let master_pk = key_manager("master").transport_pk;
    let secure_user_creds = secure_user_creds(user_creds, master_pk);
    let user_creds_obj = UserCredsObject::from(secure_user_creds);

    let key = user_creds_obj.key();
    let obj_id = user_creds_obj.obj_id();

    assert_eq!(key.obj_id, obj_id);
    assert!(matches!(key.obj_desc, ObjectDescriptor::UserCreds(_)));
}

#[test]
fn test_device_creds_object_to_generic_event() {
    let device_creds = create_test_device_credentials();
    let master_pk = key_manager("master").transport_pk;
    let secure_device_creds = secure_device_creds(device_creds.clone(), master_pk);
    let device_creds_obj = DeviceCredsObject::from(secure_device_creds);
    let generic_event = device_creds_obj.clone().to_generic();

    let recovered_object = DeviceCredsObject::try_from_event(generic_event).unwrap();

    let original_key = device_creds_obj.key();
    let recovered_key = recovered_object.key();

    assert_eq!(original_key.obj_id, recovered_key.obj_id);
    assert!(matches!(recovered_key.obj_desc, ObjectDescriptor::DeviceCreds(_)));
}

#[test]
fn test_user_creds_object_to_generic_event() {
    let user_creds = create_test_user_credentials();
    let master_pk = key_manager("master").transport_pk;
    let secure_user_creds = secure_user_creds(user_creds, master_pk);
    let user_creds_obj = UserCredsObject::from(secure_user_creds);
    let generic_event = user_creds_obj.clone().to_generic();

    let recovered_object = UserCredsObject::try_from_event(generic_event).unwrap();

    let original_key = user_creds_obj.key();
    let recovered_key = recovered_object.key();

    assert_eq!(original_key.obj_id, recovered_key.obj_id);
    assert!(matches!(recovered_key.obj_desc, ObjectDescriptor::UserCreds(_)));
}

#[test]
fn test_try_from_wrong_event_type() {
    let device_creds = create_test_device_credentials();
    let master_pk = key_manager("master").transport_pk;
    let secure_device_creds = secure_device_creds(device_creds.clone(), master_pk);
    let device_creds_obj = DeviceCredsObject::from(secure_device_creds);
    let generic_event = device_creds_obj.to_generic();

    let result = UserCredsObject::try_from_event(generic_event);
    assert!(result.is_err());
}

#[test]
fn test_vault_object_sign_up() {
    let user_creds = create_test_user_credentials();
    let sign_up = VaultObject::sign_up(VaultName::test(), UserDataMember::from(user_creds.user()));
    assert_eq!(1, sign_up.0.value.users.len());
}

#[test]
fn artifact_id_next_keeps_the_object() {
    let id = ArtifactId::from_descriptor(VaultDescriptor::from(VaultName::from("v")));
    let next = id.next();
    assert_eq!(next.clone().id_str(), "Vault:v::2");
    assert_eq!(next.first().id_str(), "Vault:v::1");
}

#[test]
fn generic_event_vault_name() {
    let user_creds = create_test_user_credentials();
    let obj = VaultObject::sign_up(VaultName::from("vault_x"), UserDataMember::from(user_creds.user()));
    let event = obj.to_generic();
    assert_eq!(event.vault_name().unwrap(), VaultName::from("test_vault"));

    let creds_event = DeviceCredsObject::from(secure_device_creds(create_test_device_credentials(), key_manager("m").transport_pk)).to_generic();
    assert!(creds_event.vault_name().is_err());
}

#[test]
fn test_device_log_naming() {
    let user_creds = create_test_user_credentials();
    let user_id = user_creds.user_id();

    let descriptor = DeviceLogDescriptor::from(user_id.clone());
    let device_log_type = String::from("DeviceLog");

    assert_eq!(descriptor.object_type(), device_log_type);
    assert_eq!(descriptor.object_name(), user_id.device_id.to_string());

    let unit_id = ArtifactId::from_descriptor(descriptor);
    // {"fqdn": {"objType": "DeviceLog", "objInstance": <device id>}, "id": {"curr": 1, "prev": 0}}
    assert_eq!(unit_id.fqdn.obj_type, device_log_type);
    assert_eq!(unit_id.fqdn.obj_instance, user_id.device_id.to_string());
    assert_eq!(unit_id.id.curr, 1);
    assert_eq!(unit_id.id.prev, 0);
}
