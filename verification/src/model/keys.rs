//! Public and secret key material, carried as base64 text.
use vstd::prelude::*;
use crate::collections::KeyEq;
use crate::ids::{Base64Text, U64IdUrlEnc, hashed_id};
use crate::model::aead::AeadCipherText;
use crate::model::device::DeviceId;

verus! {

/// Public key of the transport (encryption) key pair.
#[derive(Debug)]
pub struct TransportPk(pub Base64Text);

/// Secret key of the transport (encryption) key pair.
#[derive(Debug)]
pub struct TransportSk(pub Base64Text);

/// Public key of the signing key pair.
#[derive(Debug)]
pub struct DsaPk(pub Base64Text);

/// Secret key of the signing key pair.
#[derive(Debug)]
pub struct DsaSk(pub Base64Text);

impl View for TransportPk {
    type V = Seq<char>;

    open spec fn view(&self) -> Seq<char> {
        self.0@
    }
}

impl View for TransportSk {
    type V = Seq<char>;

    open spec fn view(&self) -> Seq<char> {
        self.0@
    }
}

impl View for DsaPk {
    type V = Seq<char>;

    open spec fn view(&self) -> Seq<char> {
        self.0@
    }
}

impl View for DsaSk {
    type V = Seq<char>;

    open spec fn view(&self) -> Seq<char> {
        self.0@
    }
}

impl Clone for TransportPk {
    fn clone(&self) -> (r: Self)
        ensures
            r == *self,
    {
        TransportPk(self.0.clone())
    }
}

impl Clone for TransportSk {
    fn clone(&self) -> (r: Self)
        ensures
            r == *self,
    {
        TransportSk(self.0.clone())
    }
}

impl Clone for DsaPk {
    fn clone(&self) -> (r: Self)
        ensures
            r == *self,
    {
        DsaPk(self.0.clone())
    }
}

impl Clone for DsaSk {
    fn clone(&self) -> (r: Self)
        ensures
            r == *self,
    {
        DsaSk(self.0.clone())
    }
}

impl PartialEq for TransportPk {
    fn eq(&self, other: &Self) -> (r: bool) {
        self.0.0 == other.0.0
    }
}

impl vstd::std_specs::cmp::PartialEqSpecImpl for TransportPk {
    open spec fn obeys_eq_spec() -> bool {
        true
    }

    open spec fn eq_spec(&self, other: &Self) -> bool {
        self@ == other@
    }
}

impl PartialEq for DsaPk {
    fn eq(&self, other: &Self) -> (r: bool) {
        self.0.0 == other.0.0
    }
}

impl vstd::std_specs::cmp::PartialEqSpecImpl for DsaPk {
    open spec fn obeys_eq_spec() -> bool {
        true
    }

    open spec fn eq_spec(&self, other: &Self) -> bool {
        self@ == other@
    }
}

impl KeyEq for TransportPk {
    fn key_eq(&self, other: &Self) -> (r: bool) {
        self.0.0 == other.0.0
    }
}

/// The device id that belongs to a transport public key.
pub open spec fn device_id_of(pk: Seq<char>) -> Seq<char> {
    hashed_id(pk, 8)
}

impl TransportPk {
    pub fn to_device_id(&self) -> (r: DeviceId)
        ensures
            r@ == device_id_of(self@),
    {
        DeviceId(U64IdUrlEnc::from_text(self.0.0.as_str()))
    }
}

/// The public keys of a device.
#[derive(Debug)]
pub struct OpenBox {
    pub dsa_pk: DsaPk,
    pub transport_pk: TransportPk,
}

impl View for OpenBox {
    type V = (Seq<char>, Seq<char>);

    open spec fn view(&self) -> (Seq<char>, Seq<char>) {
        (self.dsa_pk@, self.transport_pk@)
    }
}

impl Clone for OpenBox {
    fn clone(&self) -> (r: Self)
        ensures
            r == *self,
    {
        OpenBox { dsa_pk: self.dsa_pk.clone(), transport_pk: self.transport_pk.clone() }
    }
}

impl PartialEq for OpenBox {
    fn eq(&self, other: &Self) -> (r: bool) {
        self.dsa_pk == other.dsa_pk && self.transport_pk == other.transport_pk
    }
}

impl vstd::std_specs::cmp::PartialEqSpecImpl for OpenBox {
    open spec fn obeys_eq_spec() -> bool {
        true
    }

    open spec fn eq_spec(&self, other: &Self) -> bool {
        self@ == other@
    }
}

/// The key pairs of a device: its public keys and the secret keys that go with them.
#[derive(Debug)]
pub struct KeyManager {
    pub dsa_pk: DsaPk,
    pub dsa_sk: DsaSk,
    pub transport_pk: TransportPk,
    pub transport_sk: TransportSk,
}

impl Clone for KeyManager {
    fn clone(&self) -> (r: Self)
        ensures
            r == *self,
    {
        KeyManager {
            dsa_pk: self.dsa_pk.clone(),
            dsa_sk: self.dsa_sk.clone(),
            transport_pk: self.transport_pk.clone(),
            transport_sk: self.transport_sk.clone(),
        }
    }
}

/// The secret keys of a device together with its public keys.
#[derive(Debug)]
pub struct SecretBox {
    pub dsa_pk: DsaPk,
    pub dsa_sk: DsaSk,
    pub transport_pk: TransportPk,
    pub transport_sk: TransportSk,
}

impl Clone for SecretBox {
    fn clone(&self) -> (r: Self)
        ensures
            r == *self,
    {
        SecretBox {
            dsa_pk: self.dsa_pk.clone(),
            dsa_sk: self.dsa_sk.clone(),
            transport_pk: self.transport_pk.clone(),
            transport_sk: self.transport_sk.clone(),
        }
    }
}

impl SecretBox {
    pub fn from_key_manager(km: &KeyManager) -> (r: Self)
        ensures
            r.dsa_pk == km.dsa_pk,
            r.dsa_sk == km.dsa_sk,
            r.transport_pk == km.transport_pk,
            r.transport_sk == km.transport_sk,
    {
        SecretBox {
            dsa_pk: km.dsa_pk.clone(),
            dsa_sk: km.dsa_sk.clone(),
            transport_pk: km.transport_pk.clone(),
            transport_sk: km.transport_sk.clone(),
        }
    }

    pub fn to_key_manager(&self) -> (r: KeyManager)
        ensures
            r.dsa_pk == self.dsa_pk,
            r.dsa_sk == self.dsa_sk,
            r.transport_pk == self.transport_pk,
            r.transport_sk == self.transport_sk,
    {
        KeyManager {
            dsa_pk: self.dsa_pk.clone(),
            dsa_sk: self.dsa_sk.clone(),
            transport_pk: self.transport_pk.clone(),
            transport_sk: self.transport_sk.clone(),
        }
    }

    /// The public half of the key pairs.
    pub fn open_box(&self) -> (r: OpenBox)
        ensures
            r.dsa_pk == self.dsa_pk,
            r.transport_pk == self.transport_pk,
    {
        OpenBox { dsa_pk: self.dsa_pk.clone(), transport_pk: self.transport_pk.clone() }
    }
}

/// A secret box encrypted for a master key.
#[derive(Debug)]
pub struct SecureSecretBox {
    pub secret_box: AeadCipherText,
}

impl Clone for SecureSecretBox {
    fn clone(&self) -> (r: Self)
        ensures
            r == *self,
    {
        SecureSecretBox { secret_box: self.secret_box.clone() }
    }
}

} // verus!
