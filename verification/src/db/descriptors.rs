//! Descriptors of the objects kept in the event store: what an object is
//! (its type) and which one it is (its instance name).
use vstd::prelude::*;
use crate::ids::IdString;
use crate::model::device::DeviceId;
use crate::model::secret::{SsDistributionId, SsRecoveryId};
use crate::model::user::UserId;
use crate::model::vault::VaultName;
use crate::text::concat3;

verus! {

/// The credentials of this device.
#[derive(Debug, Clone, Copy, PartialEq, Eq, Structural)]
pub struct DeviceCredsDescriptor;

/// The credentials of this device as a user of a vault.
#[derive(Debug, Clone, Copy, PartialEq, Eq, Structural)]
pub struct UserCredsDescriptor;

/// Either kind of local credentials.
#[derive(Debug, Clone, Copy, PartialEq, Eq, Structural)]
pub enum CredentialsDescriptor {
    Device,
    User,
}

/// The log of requests that a device sends to a vault.
#[derive(Debug)]
pub struct DeviceLogDescriptor(pub UserId);

/// The log of a vault.
#[derive(Debug)]
pub struct VaultLogDescriptor(pub VaultName);

/// The vault itself.
#[derive(Debug)]
pub struct VaultDescriptor(pub VaultName);

/// The status of a user in a vault.
#[derive(Debug)]
pub struct VaultStatusDescriptor(pub UserId);

/// One step of the distribution (split) or the recovery of a secret.
#[derive(Debug)]
pub enum SsWorkflowDescriptor {
    Recovery(SsRecoveryId),
    /// Allows devices distributing their shares (split operation)
    Distribution(SsDistributionId),
}

/// The secret-sharing claims a device sends.
#[derive(Debug)]
pub struct SsDeviceLogDescriptor(pub DeviceId);

/// The secret-sharing claims of a vault.
#[derive(Debug)]
pub struct SsLogDescriptor(pub VaultName);

impl Clone for DeviceLogDescriptor {
    fn clone(&self) -> (r: Self)
        ensures
            r == *self,
    {
        DeviceLogDescriptor(self.0.clone())
    }
}

impl Clone for VaultLogDescriptor {
    fn clone(&self) -> (r: Self)
        ensures
            r == *self,
    {
        VaultLogDescriptor(self.0.clone())
    }
}

impl Clone for VaultDescriptor {
    fn clone(&self) -> (r: Self)
        ensures
            r == *self,
    {
        VaultDescriptor(self.0.clone())
    }
}

impl Clone for VaultStatusDescriptor {
    fn clone(&self) -> (r: Self)
        ensures
            r == *self,
    {
        VaultStatusDescriptor(self.0.clone())
    }
}

impl Clone for SsWorkflowDescriptor {
    fn clone(&self) -> (r: Self)
        ensures
            r == *self,
    {
        match self {
            SsWorkflowDescriptor::Recovery(id) => SsWorkflowDescriptor::Recovery(id.clone()),
            SsWorkflowDescriptor::Distribution(id) => SsWorkflowDescriptor::Distribution(id.clone()),
        }
    }
}

impl Clone for SsDeviceLogDescriptor {
    fn clone(&self) -> (r: Self)
        ensures
            r == *self,
    {
        SsDeviceLogDescriptor(self.0.clone())
    }
}

impl Clone for SsLogDescriptor {
    fn clone(&self) -> (r: Self)
        ensures
            r == *self,
    {
        SsLogDescriptor(self.0.clone())
    }
}

impl DeviceLogDescriptor {
    pub fn from(user_id: UserId) -> (r: Self)
        ensures
            r.0 == user_id,
    {
        DeviceLogDescriptor(user_id)
    }
}

impl VaultLogDescriptor {
    pub fn from(vault_name: VaultName) -> (r: Self)
        ensures
            r.0 == vault_name,
    {
        VaultLogDescriptor(vault_name)
    }
}

impl VaultDescriptor {
    pub fn from(vault_name: VaultName) -> (r: Self)
        ensures
            r.0 == vault_name,
    {
        VaultDescriptor(vault_name)
    }
}

impl VaultStatusDescriptor {
    pub fn from(user_id: UserId) -> (r: Self)
        ensures
            r.0 == user_id,
    {
        VaultStatusDescriptor(user_id)
    }
}

impl SsDeviceLogDescriptor {
    pub fn from(device_id: DeviceId) -> (r: Self)
        ensures
            r.0 == device_id,
    {
        SsDeviceLogDescriptor(device_id)
    }
}

impl SsLogDescriptor {
    pub fn from(vault_name: VaultName) -> (r: Self)
        ensures
            r.0 == vault_name,
    {
        SsLogDescriptor(vault_name)
    }
}

/// Every kind of object of the event store.
#[derive(Debug)]
pub enum ObjectDescriptor {
    DeviceCreds(DeviceCredsDescriptor),
    UserCreds(UserCredsDescriptor),
    DeviceLog(DeviceLogDescriptor),
    VaultLog(VaultLogDescriptor),
    Vault(VaultDescriptor),
    VaultStatus(VaultStatusDescriptor),
    /// Secret distribution (split, recover, recovery request and so on)
    SsLog(SsLogDescriptor),
    SsDeviceLog(SsDeviceLogDescriptor),
    SharedSecret(SsWorkflowDescriptor),
}

impl Clone for ObjectDescriptor {
    fn clone(&self) -> (r: Self)
        ensures
            r == *self,
    {
        match self {
            ObjectDescriptor::DeviceCreds(d) => ObjectDescriptor::DeviceCreds(*d),
            ObjectDescriptor::UserCreds(d) => ObjectDescriptor::UserCreds(*d),
            ObjectDescriptor::DeviceLog(d) => ObjectDescriptor::DeviceLog(d.clone()),
            ObjectDescriptor::VaultLog(d) => ObjectDescriptor::VaultLog(d.clone()),
            ObjectDescriptor::Vault(d) => ObjectDescriptor::Vault(d.clone()),
            ObjectDescriptor::VaultStatus(d) => ObjectDescriptor::VaultStatus(d.clone()),
            ObjectDescriptor::SsLog(d) => ObjectDescriptor::SsLog(d.clone()),
            ObjectDescriptor::SsDeviceLog(d) => ObjectDescriptor::SsDeviceLog(d.clone()),
            ObjectDescriptor::SharedSecret(d) => ObjectDescriptor::SharedSecret(d.clone()),
        }
    }
}

impl ObjectDescriptor {
    /// The type of the object.
    pub open spec fn obj_type(&self) -> Seq<char> {
        match self {
            ObjectDescriptor::DeviceCreds(_) => "DeviceCreds"@,
            ObjectDescriptor::UserCreds(_) => "UserCreds"@,
            ObjectDescriptor::DeviceLog(_) => "DeviceLog"@,
            ObjectDescriptor::VaultLog(_) => "VaultLog"@,
            ObjectDescriptor::Vault(_) => "Vault"@,
            ObjectDescriptor::VaultStatus(_) => "VaultStatus"@,
            ObjectDescriptor::SsLog(_) => "SsLog"@,
            ObjectDescriptor::SsDeviceLog(_) => "SsDeviceLog"@,
            ObjectDescriptor::SharedSecret(SsWorkflowDescriptor::Distribution(_)) => "SsDistribution"@,
            ObjectDescriptor::SharedSecret(SsWorkflowDescriptor::Recovery(_)) => "SsRecovery"@,
        }
    }

    /// Which object of its type it is.
    pub open spec fn obj_instance(&self) -> Seq<char> {
        match self {
            ObjectDescriptor::DeviceCreds(_) => "index"@,
            ObjectDescriptor::UserCreds(_) => "index"@,
            ObjectDescriptor::DeviceLog(d) => d.0.device_id@,
            ObjectDescriptor::VaultLog(d) => d.0@,
            ObjectDescriptor::Vault(d) => d.0@,
            ObjectDescriptor::VaultStatus(d) => d.0.device_id@,
            ObjectDescriptor::SsLog(d) => d.0@,
            ObjectDescriptor::SsDeviceLog(d) => d.0@,
            ObjectDescriptor::SharedSecret(d) => d.id_view(),
        }
    }

    /// Fully Qualified Domain Name - unique domain name of an object
    pub fn fqdn(&self) -> (r: ObjectFqdn)
        ensures
            r.obj_type@ == self.obj_type(),
            r.obj_instance@ == self.obj_instance(),
    {
        ObjectFqdn { obj_type: self.object_type(), obj_instance: self.object_name() }
    }
}

/// Anything that names one object of the event store.
pub trait ToObjectDescriptor: Sized {
    spec fn descriptor(&self) -> ObjectDescriptor;

    fn to_obj_desc(self) -> (r: ObjectDescriptor)
        ensures
            r == self.descriptor(),
    ;
}

/// The type of an object.
pub trait ObjectType {
    fn object_type(&self) -> String;
}

/// The instance name of an object.
pub trait ObjectName {
    fn object_name(&self) -> String;
}

impl ToObjectDescriptor for DeviceCredsDescriptor {
    open spec fn descriptor(&self) -> ObjectDescriptor {
        ObjectDescriptor::DeviceCreds(*self)
    }

    fn to_obj_desc(self) -> (r: ObjectDescriptor) {
        ObjectDescriptor::DeviceCreds(self)
    }
}

impl ToObjectDescriptor for UserCredsDescriptor {
    open spec fn descriptor(&self) -> ObjectDescriptor {
        ObjectDescriptor::UserCreds(*self)
    }

    fn to_obj_desc(self) -> (r: ObjectDescriptor) {
        ObjectDescriptor::UserCreds(self)
    }
}

impl ToObjectDescriptor for CredentialsDescriptor {
    open spec fn descriptor(&self) -> ObjectDescriptor {
        match self {
            CredentialsDescriptor::Device => ObjectDescriptor::DeviceCreds(DeviceCredsDescriptor),
            CredentialsDescriptor::User => ObjectDescriptor::UserCreds(UserCredsDescriptor),
        }
    }

    fn to_obj_desc(self) -> (r: ObjectDescriptor) {
        match self {
            CredentialsDescriptor::Device => ObjectDescriptor::DeviceCreds(DeviceCredsDescriptor),
            CredentialsDescriptor::User => ObjectDescriptor::UserCreds(UserCredsDescriptor),
        }
    }
}

impl ToObjectDescriptor for DeviceLogDescriptor {
    open spec fn descriptor(&self) -> ObjectDescriptor {
        ObjectDescriptor::DeviceLog(*self)
    }

    fn to_obj_desc(self) -> (r: ObjectDescriptor) {
        ObjectDescriptor::DeviceLog(self)
    }
}

impl ToObjectDescriptor for VaultLogDescriptor {
    open spec fn descriptor(&self) -> ObjectDescriptor {
        ObjectDescriptor::VaultLog(*self)
    }

    fn to_obj_desc(self) -> (r: ObjectDescriptor) {
        ObjectDescriptor::VaultLog(self)
    }
}

impl ToObjectDescriptor for VaultDescriptor {
    open spec fn descriptor(&self) -> ObjectDescriptor {
        ObjectDescriptor::Vault(*self)
    }

    fn to_obj_desc(self) -> (r: ObjectDescriptor) {
        ObjectDescriptor::Vault(self)
    }
}

impl ToObjectDescriptor for VaultStatusDescriptor {
    open spec fn descriptor(&self) -> ObjectDescriptor {
        ObjectDescriptor::VaultStatus(*self)
    }

    fn to_obj_desc(self) -> (r: ObjectDescriptor) {
        ObjectDescriptor::VaultStatus(self)
    }
}

impl ToObjectDescriptor for SsWorkflowDescriptor {
    open spec fn descriptor(&self) -> ObjectDescriptor {
        ObjectDescriptor::SharedSecret(*self)
    }

    fn to_obj_desc(self) -> (r: ObjectDescriptor) {
        ObjectDescriptor::SharedSecret(self)
    }
}

impl ToObjectDescriptor for SsLogDescriptor {
    open spec fn descriptor(&self) -> ObjectDescriptor {
        ObjectDescriptor::SsLog(*self)
    }

    fn to_obj_desc(self) -> (r: ObjectDescriptor) {
        ObjectDescriptor::SsLog(self)
    }
}

impl ToObjectDescriptor for SsDeviceLogDescriptor {
    open spec fn descriptor(&self) -> ObjectDescriptor {
        ObjectDescriptor::SsDeviceLog(*self)
    }

    fn to_obj_desc(self) -> (r: ObjectDescriptor) {
        ObjectDescriptor::SsDeviceLog(self)
    }
}

impl ObjectType for DeviceCredsDescriptor {
    fn object_type(&self) -> (r: String)
        ensures
            r@ == "DeviceCreds"@,
    {
        String::from_str("DeviceCreds")
    }
}

impl ObjectName for DeviceCredsDescriptor {
    fn object_name(&self) -> (r: String)
        ensures
            r@ == "index"@,
    {
        String::from_str("index")
    }
}

impl ObjectType for UserCredsDescriptor {
    fn object_type(&self) -> (r: String)
        ensures
            r@ == "UserCreds"@,
    {
        String::from_str("UserCreds")
    }
}

impl ObjectName for UserCredsDescriptor {
    fn object_name(&self) -> (r: String)
        ensures
            r@ == "index"@,
    {
        String::from_str("index")
    }
}

impl ObjectType for DeviceLogDescriptor {
    fn object_type(&self) -> (r: String)
        ensures
            r@ == "DeviceLog"@,
    {
        String::from_str("DeviceLog")
    }
}

impl ObjectName for DeviceLogDescriptor {
    fn object_name(&self) -> (r: String)
        ensures
            r@ == self.0.device_id@,
    {
        self.0.device_id.to_string()
    }
}

impl ObjectType for VaultLogDescriptor {
    fn object_type(&self) -> (r: String)
        ensures
            r@ == "VaultLog"@,
    {
        String::from_str("VaultLog")
    }
}

impl ObjectName for VaultLogDescriptor {
    fn object_name(&self) -> (r: String)
        ensures
            r@ == self.0@,
    {
        self.0.to_string()
    }
}

impl ObjectType for VaultDescriptor {
    fn object_type(&self) -> (r: String)
        ensures
            r@ == "Vault"@,
    {
        String::from_str("Vault")
    }
}

impl ObjectName for VaultDescriptor {
    fn object_name(&self) -> (r: String)
        ensures
            r@ == self.0@,
    {
        self.0.to_string()
    }
}

impl ObjectType for VaultStatusDescriptor {
    fn object_type(&self) -> (r: String)
        ensures
            r@ == "VaultStatus"@,
    {
        String::from_str("VaultStatus")
    }
}

impl ObjectName for VaultStatusDescriptor {
    fn object_name(&self) -> (r: String)
        ensures
            r@ == self.0.device_id@,
    {
        self.0.device_id.to_string()
    }
}

impl ObjectType for SsWorkflowDescriptor {
    fn object_type(&self) -> (r: String)
        ensures
            self is Distribution ==> r@ == "SsDistribution"@,
            self is Recovery ==> r@ == "SsRecovery"@,
    {
        match self {
            SsWorkflowDescriptor::Distribution(_) => String::from_str("SsDistribution"),
            SsWorkflowDescriptor::Recovery(_) => String::from_str("SsRecovery"),
        }
    }
}

impl IdString for SsWorkflowDescriptor {
    open spec fn id_view(&self) -> Seq<char> {
        match self {
            SsWorkflowDescriptor::Distribution(id) => id.id_view(),
            SsWorkflowDescriptor::Recovery(id) => id.id_view(),
        }
    }

    fn id_str(self) -> (r: String) {
        match self {
            SsWorkflowDescriptor::Distribution(id) => id.id_str(),
            SsWorkflowDescriptor::Recovery(id) => id.id_str(),
        }
    }
}

impl ObjectName for SsWorkflowDescriptor {
    fn object_name(&self) -> (r: String)
        ensures
            r@ == self.id_view(),
    {
        self.clone().id_str()
    }
}

impl ObjectType for SsDeviceLogDescriptor {
    fn object_type(&self) -> (r: String)
        ensures
            r@ == "SsDeviceLog"@,
    {
        String::from_str("SsDeviceLog")
    }
}

impl IdString for SsDeviceLogDescriptor {
    open spec fn id_view(&self) -> Seq<char> {
        self.0@
    }

    fn id_str(self) -> (r: String) {
        self.0.to_string()
    }
}

impl ObjectType for SsLogDescriptor {
    fn object_type(&self) -> (r: String)
        ensures
            r@ == "SsLog"@,
    {
        String::from_str("SsLog")
    }
}

impl IdString for SsLogDescriptor {
    open spec fn id_view(&self) -> Seq<char> {
        self.0@
    }

    fn id_str(self) -> (r: String) {
        self.0.to_string()
    }
}

impl ObjectName for ObjectDescriptor {
    fn object_name(&self) -> (r: String)
        ensures
            r@ == self.obj_instance(),
    {
        match self {
            ObjectDescriptor::DeviceCreds(desc) => desc.object_name(),
            ObjectDescriptor::UserCreds(desc) => desc.object_name(),
            ObjectDescriptor::Vault(desc) => desc.object_name(),
            ObjectDescriptor::DeviceLog(desc) => desc.object_name(),
            ObjectDescriptor::VaultLog(desc) => desc.object_name(),
            ObjectDescriptor::VaultStatus(desc) => desc.object_name(),
            ObjectDescriptor::SharedSecret(desc) => desc.clone().id_str(),
            ObjectDescriptor::SsLog(desc) => desc.clone().id_str(),
            ObjectDescriptor::SsDeviceLog(desc) => desc.clone().id_str(),
        }
    }
}

impl ObjectType for ObjectDescriptor {
    fn object_type(&self) -> (r: String)
        ensures
            r@ == self.obj_type(),
    {
        match self {
            ObjectDescriptor::DeviceCreds(desc) => desc.object_type(),
            ObjectDescriptor::UserCreds(desc) => desc.object_type(),
            ObjectDescriptor::Vault(desc) => desc.object_type(),
            ObjectDescriptor::SharedSecret(desc) => desc.object_type(),
            ObjectDescriptor::DeviceLog(desc) => desc.object_type(),
            ObjectDescriptor::VaultLog(desc) => desc.object_type(),
            ObjectDescriptor::VaultStatus(desc) => desc.object_type(),
            ObjectDescriptor::SsLog(desc) => desc.object_type(),
            ObjectDescriptor::SsDeviceLog(desc) => desc.object_type(),
        }
    }
}

/// The unique name of an object: its type and its instance.
#[derive(Debug)]
pub struct ObjectFqdn {
    pub obj_type: String,
    pub obj_instance: String,
}

impl View for ObjectFqdn {
    type V = (Seq<char>, Seq<char>);

    open spec fn view(&self) -> (Seq<char>, Seq<char>) {
        (self.obj_type@, self.obj_instance@)
    }
}

impl Clone for ObjectFqdn {
    fn clone(&self) -> (r: Self)
        ensures
            r@ == self@,
    {
        ObjectFqdn { obj_type: self.obj_type.clone(), obj_instance: self.obj_instance.clone() }
    }
}

impl PartialEq for ObjectFqdn {
    fn eq(&self, other: &Self) -> (r: bool) {
        self.obj_type == other.obj_type && self.obj_instance == other.obj_instance
    }
}

impl vstd::std_specs::cmp::PartialEqSpecImpl for ObjectFqdn {
    open spec fn obeys_eq_spec() -> bool {
        true
    }

    open spec fn eq_spec(&self, other: &Self) -> bool {
        self@ == other@
    }
}

impl IdString for ObjectFqdn {
    open spec fn id_view(&self) -> Seq<char> {
        self.obj_type@ + ":"@ + self.obj_instance@
    }

    fn id_str(self) -> (r: String) {
        concat3(self.obj_type.as_str(), ":", self.obj_instance.as_str())
    }
}

} // verus!
