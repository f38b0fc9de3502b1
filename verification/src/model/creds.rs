//! The credentials of a device (its key pairs and public data) and of a user
//! (a device in a vault).
use vstd::prelude::*;
use crate::error::CoreError;
use crate::model::device::{DeviceData, DeviceId, DeviceName};
use crate::model::keys::{device_id_of, KeyManager, SecretBox, SecureSecretBox};
use crate::model::user::{UserData, UserId};
use crate::model::vault::VaultName;

verus! {

/// The device credentials, with the secret box encrypted for a master key.
#[derive(Debug)]
pub struct SecureDeviceCreds {
    pub secret_box: SecureSecretBox,
    pub device: DeviceData,
}

impl Clone for SecureDeviceCreds {
    fn clone(&self) -> (r: Self)
        ensures
            r == *self,
    {
        SecureDeviceCreds { secret_box: self.secret_box.clone(), device: self.device.clone() }
    }
}

/// Contains full information about device (private keys and device id)
#[derive(Debug)]
pub struct DeviceCreds {
    pub secret_box: SecretBox,
    pub device: DeviceData,
}

impl Clone for DeviceCreds {
    fn clone(&self) -> (r: Self)
        ensures
            r == *self,
    {
        DeviceCreds { secret_box: self.secret_box.clone(), device: self.device.clone() }
    }
}

impl DeviceCreds {
    /// The key pairs kept in the secret box.
    pub fn key_manager(&self) -> (r: Result<KeyManager, CoreError>)
        ensures
            r matches Ok(km) && km.dsa_pk == self.secret_box.dsa_pk && km.dsa_sk == self.secret_box.dsa_sk
                && km.transport_pk == self.secret_box.transport_pk && km.transport_sk
                == self.secret_box.transport_sk,
    {
        Ok(self.secret_box.to_key_manager())
    }
}

/// Builds credentials step by step: first the keys, then the device.
#[derive(Debug)]
pub struct DeviceCredsBuilder<S> {
    pub creds: S,
}

impl DeviceCredsBuilder<KeyManager> {
    pub fn init(key_manager: KeyManager) -> (r: Self)
        ensures
            r.creds == key_manager,
    {
        DeviceCredsBuilder { creds: key_manager }
    }

    /// The credentials of a device with these keys and this name; its id comes from its keys.
    pub fn build(self, device_name: DeviceName) -> (r: DeviceCredsBuilder<DeviceCreds>)
        ensures
            r.creds.secret_box.dsa_pk == self.creds.dsa_pk,
            r.creds.secret_box.dsa_sk == self.creds.dsa_sk,
            r.creds.secret_box.transport_pk == self.creds.transport_pk,
            r.creds.secret_box.transport_sk == self.creds.transport_sk,
            r.creds.device.device_name == device_name,
            r.creds.device.device_type@ == "Other"@,
            r.creds.device.keys.dsa_pk == self.creds.dsa_pk,
            r.creds.device.keys.transport_pk == self.creds.transport_pk,
            r.creds.device.device_id@ == device_id_of(self.creds.transport_pk@),
    {
        let secret_box = SecretBox::from_key_manager(&self.creds);
        let device = DeviceData::from(device_name, secret_box.open_box());
        DeviceCredsBuilder { creds: DeviceCreds { secret_box, device } }
    }
}

/// The user credentials, with the device credentials encrypted for a master key.
#[derive(Debug)]
pub struct SecureUserCreds {
    pub vault_name: VaultName,
    pub device_creds: SecureDeviceCreds,
}

impl Clone for SecureUserCreds {
    fn clone(&self) -> (r: Self)
        ensures
            r == *self,
    {
        SecureUserCreds { vault_name: self.vault_name.clone(), device_creds: self.device_creds.clone() }
    }
}

/// A device and the vault it belongs to.
#[derive(Debug)]
pub struct UserCreds {
    pub vault_name: VaultName,
    pub device_creds: DeviceCreds,
}

impl Clone for UserCreds {
    fn clone(&self) -> (r: Self)
        ensures
            r == *self,
    {
        UserCreds { vault_name: self.vault_name.clone(), device_creds: self.device_creds.clone() }
    }
}

impl UserCreds {
    pub fn device(&self) -> (r: DeviceData)
        ensures
            r == self.device_creds.device,
    {
        self.device_creds.device.clone()
    }

    pub fn user(&self) -> (r: UserData)
        ensures
            r.vault_name == self.vault_name,
            r.device == self.device_creds.device,
    {
        UserData { vault_name: self.vault_name.clone(), device: self.device() }
    }

    pub fn user_id(&self) -> (r: UserId)
        ensures
            r.vault_name == self.vault_name,
            r.device_id == self.device_creds.device.device_id,
    {
        UserId { vault_name: self.vault_name.clone(), device_id: self.device().device_id }
    }

    pub fn device_id(&self) -> (r: &DeviceId)
        ensures
            *r == self.device_creds.device.device_id,
    {
        &self.device_creds.device.device_id
    }
}

/// Builds user credentials from device credentials and a vault name.
#[derive(Debug)]
pub struct UserCredsBuilder<Creds> {
    pub creds: Creds,
}

impl UserCredsBuilder<DeviceCreds> {
    pub fn init(creds: DeviceCreds) -> (r: Self)
        ensures
            r.creds == creds,
    {
        UserCredsBuilder { creds }
    }

    pub fn build(self, vault_name: VaultName) -> (r: UserCredsBuilder<UserCreds>)
        ensures
            r.creds.vault_name == vault_name,
            r.creds.device_creds == self.creds,
    {
        UserCredsBuilder { creds: UserCreds { vault_name, device_creds: self.creds } }
    }
}

} // verus!
