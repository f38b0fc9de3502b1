//! The objects of the event store and the event type that carries any of them.
use vstd::prelude::*;
use crate::db::descriptors::{
    DeviceCredsDescriptor, ObjectDescriptor, ToObjectDescriptor, UserCredsDescriptor, VaultDescriptor,
    VaultLogDescriptor, VaultStatusDescriptor,
};
use crate::db::object_id::{ArtifactId, KvKey, KvLogEvent, SeqId};
use crate::error::CoreError;
use crate::events::vault_log::{VaultActionEvent, VaultActionEvents};
use crate::model::creds::{SecureDeviceCreds, SecureUserCreds};
use crate::model::device::DeviceData;
use crate::model::secret::{SecretDistributionData, SsClaim, SsLogData};
use crate::model::user::{UserDataMember, UserMembershipView};
use crate::model::vault::{VaultName, VaultStatus};
use crate::model::vault_data::VaultData;
use crate::collections::ViewClone;

verus! {

/// The messages of an error, outermost first.
#[derive(Debug)]
pub struct ErrorMessage {
    pub stacktrace: Vec<String>,
}

impl Clone for ErrorMessage {
    fn clone(&self) -> (r: Self)
        ensures
            r.stacktrace@.len() == self.stacktrace@.len(),
            forall|i: int| 0 <= i < self.stacktrace@.len() ==> #[trigger] r.stacktrace@[i]@ == self.stacktrace@[i]@,
    {
        let mut stacktrace: Vec<String> = Vec::new();
        let mut i: usize = 0;
        while i < self.stacktrace.len()
            invariant
                i <= self.stacktrace.len(),
                stacktrace@.len() == i,
                forall|j: int| 0 <= j < i ==> #[trigger] stacktrace@[j]@ == self.stacktrace@[j]@,
            decreases self.stacktrace.len() - i,
        {
            stacktrace.push(self.stacktrace[i].clone());
            i = i + 1;
        }
        ErrorMessage { stacktrace }
    }
}

/// Each device has its own unique device_log table, to prevent conflicts in updates vault state
#[derive(Debug)]
pub struct DeviceLogObject(pub KvLogEvent<VaultActionEvent>);

/// VaultLog keeps incoming events in order, the log is a queue for incoming messages and used to
/// recreate the vault state from events (event sourcing)
#[derive(Debug)]
pub struct VaultLogObject(pub KvLogEvent<VaultActionEvents>);

/// The state of a vault.
#[derive(Debug)]
pub struct VaultObject(pub KvLogEvent<VaultData>);

/// The status of a user in a vault.
#[derive(Debug)]
pub struct VaultStatusObject(pub KvLogEvent<VaultStatus>);

/// The device credentials of this device.
#[derive(Debug)]
pub struct DeviceCredsObject(pub KvLogEvent<SecureDeviceCreds>);

/// The user credentials of this device.
#[derive(Debug)]
pub struct UserCredsObject(pub KvLogEvent<SecureUserCreds>);

/// A share in transit or kept by a device.
#[derive(Debug)]
pub enum SsWorkflowObject {
    /// A share on its way back to the sender of a recovery claim.
    Recovery(KvLogEvent<SecretDistributionData>),
    /// A share that a device keeps for a password.
    Distribution(KvLogEvent<SecretDistributionData>),
}

/// A claim sent by a device.
#[derive(Debug)]
pub struct SsDeviceLogObject(pub KvLogEvent<SsClaim>);

/// The claims of a vault.
#[derive(Debug)]
pub struct SsLogObject(pub KvLogEvent<SsLogData>);

#[derive(Debug)]
pub enum LocalKvLogEvent {
    DeviceCreds(DeviceCredsObject),
    UserCreds(UserCredsObject),
}

#[derive(Debug)]
pub enum VaultKvLogEvent {
    DeviceLog(Box<DeviceLogObject>),
    VaultLog(VaultLogObject),
    Vault(VaultObject),
    VaultStatus(VaultStatusObject),
}

#[derive(Debug)]
pub enum SsKvLogEvent {
    SsDeviceLog(SsDeviceLogObject),
    SsLog(SsLogObject),
    SsWorkflow(SsWorkflowObject),
}

/// Any event of the event store.
#[derive(Debug)]
pub enum GenericKvLogEvent {
    Local(LocalKvLogEvent),
    Vault(VaultKvLogEvent),
    Ss(SsKvLogEvent),
    DbError(KvLogEvent<ErrorMessage>),
}

impl View for GenericKvLogEvent {
    type V = GenericKvLogEvent;

    open spec fn view(&self) -> GenericKvLogEvent {
        *self
    }
}

/// Why an event is not the object that was asked for.
#[derive(Debug)]
pub enum LogEventCastError {
    InvalidGlobalIndex(GenericKvLogEvent),
    InvalidCredentials(GenericKvLogEvent),
    InvalidDbTail(GenericKvLogEvent),
    InvalidDeviceLog(GenericKvLogEvent),
    InvalidVaultLog(GenericKvLogEvent),
    InvalidVault(GenericKvLogEvent),
    InvalidVaultMembership(GenericKvLogEvent),
    InvalidSharedSecret(GenericKvLogEvent),
    InvalidSsDeviceLog(GenericKvLogEvent),
    InvalidSsLog(GenericKvLogEvent),
    WrongSsLog(SsLogObject),
    WrongSsLogId(SsLogObject),
    WrongSsDeviceLog(SsDeviceLogObject),
    WrongDeviceLog(DeviceLogObject),
    WrongVaultAction(String, VaultActionEvent),
}

/// The object put into the generic event type.
pub trait ToGenericEvent: Sized {
    fn to_generic(self) -> GenericKvLogEvent;
}

/// The object taken out of the generic event type.
pub trait GenericKvLogEventConvertible: Sized {
    fn try_from_event(event: GenericKvLogEvent) -> Result<Self, LogEventCastError>;
}

/// The id of the event.
pub trait ObjIdExtractor {
    fn obj_id(&self) -> ArtifactId;
}

/// The key of the event.
pub trait KeyExtractor {
    fn key(&self) -> KvKey;
}

impl KeyExtractor for DeviceCredsObject {
    fn key(&self) -> (r: KvKey)
        ensures
            r.obj_id@ == self.0.key.obj_id@,
            r.obj_desc == self.0.key.obj_desc,
    {
        self.0.key.clone()
    }
}

impl ObjIdExtractor for DeviceCredsObject {
    fn obj_id(&self) -> (r: ArtifactId)
        ensures
            r@ == self.0.key.obj_id@,
    {
        self.0.key.obj_id.clone()
    }
}

impl ToGenericEvent for DeviceCredsObject {
    fn to_generic(self) -> (r: GenericKvLogEvent)
        ensures
            r == GenericKvLogEvent::Local(LocalKvLogEvent::DeviceCreds(self)),
    {
        GenericKvLogEvent::Local(LocalKvLogEvent::DeviceCreds(self))
    }
}

impl GenericKvLogEventConvertible for DeviceCredsObject {
    fn try_from_event(event: GenericKvLogEvent) -> (r: Result<Self, LogEventCastError>)
        ensures
            event matches GenericKvLogEvent::Local(LocalKvLogEvent::DeviceCreds(obj)) ==> r == Ok::<
                Self,
                LogEventCastError,
            >(obj),
            !(event matches GenericKvLogEvent::Local(LocalKvLogEvent::DeviceCreds(_))) ==> r == Err::<
                Self,
                LogEventCastError,
            >(LogEventCastError::InvalidCredentials(event)),
    {
        match event {
            GenericKvLogEvent::Local(LocalKvLogEvent::DeviceCreds(obj)) => Ok(obj),
            _ => Err(LogEventCastError::InvalidCredentials(event)),
        }
    }
}

impl Clone for DeviceCredsObject {
    fn clone(&self) -> (r: Self)
        ensures
            r.0.key.obj_id@ == self.0.key.obj_id@,
            r.0.key.obj_desc == self.0.key.obj_desc,
            r.0.value == self.0.value,
    {
        DeviceCredsObject(KvLogEvent { key: self.0.key.clone(), value: self.0.value.clone() })
    }
}

impl DeviceCredsObject {
    /// The credentials stored under the key of the device credentials.
    pub fn from(creds: SecureDeviceCreds) -> (r: Self)
        ensures
            r.0.key.obj_desc == ObjectDescriptor::DeviceCreds(DeviceCredsDescriptor),
            r.0.key.obj_id.fqdn.obj_type@ == "DeviceCreds"@,
            r.0.key.obj_id.fqdn.obj_instance@ == "index"@,
            r.0.key.obj_id.id == (SeqId { curr: 1, prev: 0 }),
            r.0.value == creds,
    {
        DeviceCredsObject(KvLogEvent { key: KvKey::from(DeviceCredsDescriptor), value: creds })
    }

    pub fn device(&self) -> (r: DeviceData)
        ensures
            r == self.0.value.device,
    {
        self.0.value.device.clone()
    }

    pub fn value(self) -> (r: SecureDeviceCreds)
        ensures
            r == self.0.value,
    {
        self.0.value
    }
}

impl KeyExtractor for UserCredsObject {
    fn key(&self) -> (r: KvKey)
        ensures
            r.obj_id@ == self.0.key.obj_id@,
            r.obj_desc == self.0.key.obj_desc,
    {
        self.0.key.clone()
    }
}

impl ObjIdExtractor for UserCredsObject {
    fn obj_id(&self) -> (r: ArtifactId)
        ensures
            r@ == self.0.key.obj_id@,
    {
        self.0.key.obj_id.clone()
    }
}

impl ToGenericEvent for UserCredsObject {
    fn to_generic(self) -> (r: GenericKvLogEvent)
        ensures
            r == GenericKvLogEvent::Local(LocalKvLogEvent::UserCreds(self)),
    {
        GenericKvLogEvent::Local(LocalKvLogEvent::UserCreds(self))
    }
}

impl GenericKvLogEventConvertible for UserCredsObject {
    fn try_from_event(event: GenericKvLogEvent) -> (r: Result<Self, LogEventCastError>)
        ensures
            event matches GenericKvLogEvent::Local(LocalKvLogEvent::UserCreds(obj)) ==> r == Ok::<
                Self,
                LogEventCastError,
            >(obj),
            !(event matches GenericKvLogEvent::Local(LocalKvLogEvent::UserCreds(_))) ==> r == Err::<
                Self,
                LogEventCastError,
            >(LogEventCastError::InvalidCredentials(event)),
    {
        match event {
            GenericKvLogEvent::Local(LocalKvLogEvent::UserCreds(obj)) => Ok(obj),
            _ => Err(LogEventCastError::InvalidCredentials(event)),
        }
    }
}

impl Clone for UserCredsObject {
    fn clone(&self) -> (r: Self)
        ensures
            r.0.key.obj_id@ == self.0.key.obj_id@,
            r.0.key.obj_desc == self.0.key.obj_desc,
            r.0.value == self.0.value,
    {
        UserCredsObject(KvLogEvent { key: self.0.key.clone(), value: self.0.value.clone() })
    }
}

impl UserCredsObject {
    /// The credentials stored under the key of the user credentials.
    pub fn from(creds: SecureUserCreds) -> (r: Self)
        ensures
            r.0.key.obj_desc == ObjectDescriptor::UserCreds(UserCredsDescriptor),
            r.0.key.obj_id.fqdn.obj_type@ == "UserCreds"@,
            r.0.key.obj_id.fqdn.obj_instance@ == "index"@,
            r.0.key.obj_id.id == (SeqId { curr: 1, prev: 0 }),
            r.0.value == creds,
    {
        UserCredsObject(KvLogEvent { key: KvKey::from(UserCredsDescriptor), value: creds })
    }

    pub fn device(&self) -> (r: DeviceData)
        ensures
            r == self.0.value.device_creds.device,
    {
        self.0.value.device_creds.device.clone()
    }

    pub fn value(&self) -> (r: SecureUserCreds)
        ensures
            r == self.0.value,
    {
        self.0.value.clone()
    }

    pub fn device_creds(&self) -> (r: SecureDeviceCreds)
        ensures
            r == self.0.value.device_creds,
    {
        self.0.value.device_creds.clone()
    }
}

impl KeyExtractor for DeviceLogObject {
    fn key(&self) -> (r: KvKey)
        ensures
            r.obj_id@ == self.0.key.obj_id@,
            r.obj_desc == self.0.key.obj_desc,
    {
        self.0.key.clone()
    }
}

impl ObjIdExtractor for DeviceLogObject {
    fn obj_id(&self) -> (r: ArtifactId)
        ensures
            r@ == self.0.key.obj_id@,
    {
        self.0.key.obj_id.clone()
    }
}

impl ToGenericEvent for DeviceLogObject {
    fn to_generic(self) -> (r: GenericKvLogEvent)
        ensures
            r == GenericKvLogEvent::Vault(VaultKvLogEvent::DeviceLog(Box::new(self))),
    {
        GenericKvLogEvent::Vault(VaultKvLogEvent::DeviceLog(Box::new(self)))
    }
}

impl GenericKvLogEventConvertible for DeviceLogObject {
    fn try_from_event(event: GenericKvLogEvent) -> (r: Result<Self, LogEventCastError>)
        ensures
            event matches GenericKvLogEvent::Vault(VaultKvLogEvent::DeviceLog(obj)) ==> r == Ok::<
                Self,
                LogEventCastError,
            >(*obj),
            !(event matches GenericKvLogEvent::Vault(VaultKvLogEvent::DeviceLog(_))) ==> r == Err::<
                Self,
                LogEventCastError,
            >(LogEventCastError::InvalidDeviceLog(event)),
    {
        match event {
            GenericKvLogEvent::Vault(VaultKvLogEvent::DeviceLog(obj)) => Ok(*obj),
            _ => Err(LogEventCastError::InvalidDeviceLog(event)),
        }
    }
}

impl KeyExtractor for VaultLogObject {
    fn key(&self) -> (r: KvKey)
        ensures
            r.obj_id@ == self.0.key.obj_id@,
            r.obj_desc == self.0.key.obj_desc,
    {
        self.0.key.clone()
    }
}

impl ObjIdExtractor for VaultLogObject {
    fn obj_id(&self) -> (r: ArtifactId)
        ensures
            r@ == self.0.key.obj_id@,
    {
        self.0.key.obj_id.clone()
    }
}

impl ToGenericEvent for VaultLogObject {
    fn to_generic(self) -> (r: GenericKvLogEvent)
        ensures
            r == GenericKvLogEvent::Vault(VaultKvLogEvent::VaultLog(self)),
    {
        GenericKvLogEvent::Vault(VaultKvLogEvent::VaultLog(self))
    }
}

impl GenericKvLogEventConvertible for VaultLogObject {
    fn try_from_event(event: GenericKvLogEvent) -> (r: Result<Self, LogEventCastError>)
        ensures
            event matches GenericKvLogEvent::Vault(VaultKvLogEvent::VaultLog(obj)) ==> r == Ok::<
                Self,
                LogEventCastError,
            >(obj),
            !(event matches GenericKvLogEvent::Vault(VaultKvLogEvent::VaultLog(_))) ==> r == Err::<
                Self,
                LogEventCastError,
            >(LogEventCastError::InvalidVaultLog(event)),
    {
        match event {
            GenericKvLogEvent::Vault(VaultKvLogEvent::VaultLog(obj)) => Ok(obj),
            _ => Err(LogEventCastError::InvalidVaultLog(event)),
        }
    }
}

impl VaultLogObject {
    /// The empty log of the owner's vault.
    pub fn create(owner: UserDataMember) -> (r: Self)
        ensures
            r.0.key.obj_desc == ObjectDescriptor::VaultLog(VaultLogDescriptor(owner.user_data.vault_name)),
            r.0.key.obj_id.fqdn.obj_type@ == "VaultLog"@,
            r.0.key.obj_id.fqdn.obj_instance@ == owner.user_data.vault_name@,
            r.0.key.obj_id.id == (SeqId { curr: 1, prev: 0 }),
            r.0.value@.requests.is_empty(),
            r.0.value@.updates.is_empty(),
    {
        VaultLogObject(KvLogEvent {
            key: KvKey::from(VaultLogDescriptor::from(owner.user_data.vault_name())),
            value: VaultActionEvents::default(),
        })
    }
}

impl KeyExtractor for VaultObject {
    fn key(&self) -> (r: KvKey)
        ensures
            r.obj_id@ == self.0.key.obj_id@,
            r.obj_desc == self.0.key.obj_desc,
    {
        self.0.key.clone()
    }
}

impl ObjIdExtractor for VaultObject {
    fn obj_id(&self) -> (r: ArtifactId)
        ensures
            r@ == self.0.key.obj_id@,
    {
        self.0.key.obj_id.clone()
    }
}

impl ToGenericEvent for VaultObject {
    fn to_generic(self) -> (r: GenericKvLogEvent)
        ensures
            r == GenericKvLogEvent::Vault(VaultKvLogEvent::Vault(self)),
    {
        GenericKvLogEvent::Vault(VaultKvLogEvent::Vault(self))
    }
}

impl GenericKvLogEventConvertible for VaultObject {
    fn try_from_event(event: GenericKvLogEvent) -> (r: Result<Self, LogEventCastError>)
        ensures
            event matches GenericKvLogEvent::Vault(VaultKvLogEvent::Vault(obj)) ==> r == Ok::<
                Self,
                LogEventCastError,
            >(obj),
            !(event matches GenericKvLogEvent::Vault(VaultKvLogEvent::Vault(_))) ==> r == Err::<
                Self,
                LogEventCastError,
            >(LogEventCastError::InvalidVault(event)),
    {
        match event {
            GenericKvLogEvent::Vault(VaultKvLogEvent::Vault(obj)) => Ok(obj),
            _ => Err(LogEventCastError::InvalidVault(event)),
        }
    }
}

impl VaultObject {
    /// The first state of a new vault: the candidate as its only member.
    pub fn sign_up(vault_name: VaultName, candidate: UserDataMember) -> (r: Self)
        ensures
            r.0.key.obj_desc == ObjectDescriptor::Vault(VaultDescriptor(vault_name)),
            r.0.key.obj_id.fqdn.obj_type@ == "Vault"@,
            r.0.key.obj_id.fqdn.obj_instance@ == vault_name@,
            r.0.key.obj_id.id == (SeqId { curr: 1, prev: 0 }),
            r.0.value@.vault_name == candidate.user_data.vault_name@,
            r.0.value@.users == map![crate::model::keys::device_id_of(candidate.user_data.device.keys.transport_pk@)
                => UserMembershipView::Member(candidate.user_data@)],
            r.0.value@.secrets.is_empty(),
    {
        let desc = VaultDescriptor::from(vault_name);
        let vault_data = VaultData::from(candidate);
        VaultObject(KvLogEvent { key: KvKey::from(desc), value: vault_data })
    }

    pub fn to_data(self) -> (r: VaultData)
        ensures
            r == self.0.value,
    {
        self.0.value
    }
}

impl KeyExtractor for VaultStatusObject {
    fn key(&self) -> (r: KvKey)
        ensures
            r.obj_id@ == self.0.key.obj_id@,
            r.obj_desc == self.0.key.obj_desc,
    {
        self.0.key.clone()
    }
}

impl ObjIdExtractor for VaultStatusObject {
    fn obj_id(&self) -> (r: ArtifactId)
        ensures
            r@ == self.0.key.obj_id@,
    {
        self.0.key.obj_id.clone()
    }
}

impl ToGenericEvent for VaultStatusObject {
    fn to_generic(self) -> (r: GenericKvLogEvent)
        ensures
            r == GenericKvLogEvent::Vault(VaultKvLogEvent::VaultStatus(self)),
    {
        GenericKvLogEvent::Vault(VaultKvLogEvent::VaultStatus(self))
    }
}

impl GenericKvLogEventConvertible for VaultStatusObject {
    fn try_from_event(event: GenericKvLogEvent) -> (r: Result<Self, LogEventCastError>)
        ensures
            event matches GenericKvLogEvent::Vault(VaultKvLogEvent::VaultStatus(obj)) ==> r == Ok::<
                Self,
                LogEventCastError,
            >(obj),
            !(event matches GenericKvLogEvent::Vault(VaultKvLogEvent::VaultStatus(_))) ==> r == Err::<
                Self,
                LogEventCastError,
            >(LogEventCastError::InvalidVaultMembership(event)),
    {
        match event {
            GenericKvLogEvent::Vault(VaultKvLogEvent::VaultStatus(obj)) => Ok(obj),
            _ => Err(LogEventCastError::InvalidVaultMembership(event)),
        }
    }
}

impl VaultStatusObject {
    /// The status of its user, stored under the given event id.
    pub fn new(status: VaultStatus, event_id: ArtifactId) -> (r: Self)
        ensures
            r.0.key.obj_id == event_id,
            r.0.key.obj_desc matches ObjectDescriptor::VaultStatus(d) && d.0.vault_name@ == status@.user().vault_name
                && d.0.device_id@ == status@.user().device.device_id,
            r.0.value == status,
    {
        let user_id = status.user().user_id();
        let desc = VaultStatusDescriptor::from(user_id).to_obj_desc();
        VaultStatusObject(KvLogEvent { key: KvKey { obj_id: event_id, obj_desc: desc }, value: status })
    }

    pub fn status(self) -> (r: VaultStatus)
        ensures
            r == self.0.value,
    {
        self.0.value
    }

    pub fn is_member(&self) -> (r: bool)
        ensures
            r == (self.0.value is Member),
    {
        match self.0.value {
            VaultStatus::Member(_) => true,
            _ => false,
        }
    }

    pub fn is_not_member(&self) -> (r: bool)
        ensures
            r == !(self.0.value is Member),
    {
        !self.is_member()
    }
}

impl KeyExtractor for SsWorkflowObject {
    fn key(&self) -> (r: KvKey)
        ensures
            self matches SsWorkflowObject::Distribution(e) ==> r.obj_id@ == e.key.obj_id@ && r.obj_desc
                == e.key.obj_desc,
            self matches SsWorkflowObject::Recovery(e) ==> r.obj_id@ == e.key.obj_id@ && r.obj_desc
                == e.key.obj_desc,
    {
        match self {
            SsWorkflowObject::Distribution(event) => event.key.clone(),
            SsWorkflowObject::Recovery(event) => event.key.clone(),
        }
    }
}

impl ObjIdExtractor for SsWorkflowObject {
    fn obj_id(&self) -> (r: ArtifactId)
        ensures
            self matches SsWorkflowObject::Distribution(e) ==> r@ == e.key.obj_id@,
            self matches SsWorkflowObject::Recovery(e) ==> r@ == e.key.obj_id@,
    {
        match self {
            SsWorkflowObject::Distribution(event) => event.key.obj_id.clone(),
            SsWorkflowObject::Recovery(event) => event.key.obj_id.clone(),
        }
    }
}

impl ToGenericEvent for SsWorkflowObject {
    fn to_generic(self) -> (r: GenericKvLogEvent)
        ensures
            r == GenericKvLogEvent::Ss(SsKvLogEvent::SsWorkflow(self)),
    {
        GenericKvLogEvent::Ss(SsKvLogEvent::SsWorkflow(self))
    }
}

impl GenericKvLogEventConvertible for SsWorkflowObject {
    fn try_from_event(event: GenericKvLogEvent) -> (r: Result<Self, LogEventCastError>)
        ensures
            event matches GenericKvLogEvent::Ss(SsKvLogEvent::SsWorkflow(obj)) ==> r == Ok::<
                Self,
                LogEventCastError,
            >(obj),
            !(event matches GenericKvLogEvent::Ss(SsKvLogEvent::SsWorkflow(_))) ==> r == Err::<
                Self,
                LogEventCastError,
            >(LogEventCastError::InvalidSharedSecret(event)),
    {
        match event {
            GenericKvLogEvent::Ss(SsKvLogEvent::SsWorkflow(obj)) => Ok(obj),
            _ => Err(LogEventCastError::InvalidSharedSecret(event)),
        }
    }
}

impl SsWorkflowObject {
    pub fn to_distribution_data(self) -> (r: SecretDistributionData)
        ensures
            self matches SsWorkflowObject::Distribution(e) ==> r == e.value,
            self matches SsWorkflowObject::Recovery(e) ==> r == e.value,
    {
        match self {
            SsWorkflowObject::Recovery(claim) => claim.value,
            SsWorkflowObject::Distribution(dist) => dist.value,
        }
    }
}

impl KeyExtractor for SsDeviceLogObject {
    fn key(&self) -> (r: KvKey)
        ensures
            r.obj_id@ == self.0.key.obj_id@,
            r.obj_desc == self.0.key.obj_desc,
    {
        self.0.key.clone()
    }
}

impl ObjIdExtractor for SsDeviceLogObject {
    fn obj_id(&self) -> (r: ArtifactId)
        ensures
            r@ == self.0.key.obj_id@,
    {
        self.0.key.obj_id.clone()
    }
}

impl ToGenericEvent for SsDeviceLogObject {
    fn to_generic(self) -> (r: GenericKvLogEvent)
        ensures
            r == GenericKvLogEvent::Ss(SsKvLogEvent::SsDeviceLog(self)),
    {
        GenericKvLogEvent::Ss(SsKvLogEvent::SsDeviceLog(self))
    }
}

impl GenericKvLogEventConvertible for SsDeviceLogObject {
    fn try_from_event(event: GenericKvLogEvent) -> (r: Result<Self, LogEventCastError>)
        ensures
            event matches GenericKvLogEvent::Ss(SsKvLogEvent::SsDeviceLog(obj)) ==> r == Ok::<
                Self,
                LogEventCastError,
            >(obj),
            !(event matches GenericKvLogEvent::Ss(SsKvLogEvent::SsDeviceLog(_))) ==> r == Err::<
                Self,
                LogEventCastError,
            >(LogEventCastError::InvalidSsDeviceLog(event)),
    {
        match event {
            GenericKvLogEvent::Ss(SsKvLogEvent::SsDeviceLog(obj)) => Ok(obj),
            _ => Err(LogEventCastError::InvalidSsDeviceLog(event)),
        }
    }
}

impl SsDeviceLogObject {
    pub fn to_distribution_request(self) -> (r: SsClaim)
        ensures
            r == self.0.value,
    {
        self.0.value
    }
}

impl KeyExtractor for SsLogObject {
    fn key(&self) -> (r: KvKey)
        ensures
            r.obj_id@ == self.0.key.obj_id@,
            r.obj_desc == self.0.key.obj_desc,
    {
        self.0.key.clone()
    }
}

impl ObjIdExtractor for SsLogObject {
    fn obj_id(&self) -> (r: ArtifactId)
        ensures
            r@ == self.0.key.obj_id@,
    {
        self.0.key.obj_id.clone()
    }
}

impl ToGenericEvent for SsLogObject {
    fn to_generic(self) -> (r: GenericKvLogEvent)
        ensures
            r == GenericKvLogEvent::Ss(SsKvLogEvent::SsLog(self)),
    {
        GenericKvLogEvent::Ss(SsKvLogEvent::SsLog(self))
    }
}

impl GenericKvLogEventConvertible for SsLogObject {
    fn try_from_event(event: GenericKvLogEvent) -> (r: Result<Self, LogEventCastError>)
        ensures
            event matches GenericKvLogEvent::Ss(SsKvLogEvent::SsLog(obj)) ==> r == Ok::<
                Self,
                LogEventCastError,
            >(obj),
            !(event matches GenericKvLogEvent::Ss(SsKvLogEvent::SsLog(_))) ==> r == Err::<
                Self,
                LogEventCastError,
            >(LogEventCastError::InvalidSsLog(event)),
    {
        match event {
            GenericKvLogEvent::Ss(SsKvLogEvent::SsLog(obj)) => Ok(obj),
            _ => Err(LogEventCastError::InvalidSsLog(event)),
        }
    }
}

impl SsLogObject {
    pub fn to_data(self) -> (r: SsLogData)
        ensures
            r == self.0.value,
    {
        self.0.value
    }

    pub fn as_data(&self) -> (r: &SsLogData)
        ensures
            *r == self.0.value,
    {
        &self.0.value
    }

    /// The log with the claim added (or put in place of the claim with its id).
    pub fn insert(self, claim: SsClaim) -> (r: Self)
        ensures
            r.0.key == self.0.key,
            r.0.value@ == self.0.value@.insert(claim.id@, claim@),
    {
        let SsLogObject(KvLogEvent { key, value }) = self;
        SsLogObject(KvLogEvent { key, value: value.insert(claim) })
    }
}

impl VaultKvLogEvent {
    /// The vault the event belongs to. A vault log is named after its vault.
    pub open spec fn vault_name_of(&self) -> Seq<char> {
        match self {
            VaultKvLogEvent::DeviceLog(obj) => obj.0.value.vault_name_of(),
            VaultKvLogEvent::VaultLog(obj) => obj.0.key.obj_id.fqdn.obj_instance@,
            VaultKvLogEvent::Vault(obj) => obj.0.value.vault_name@,
            VaultKvLogEvent::VaultStatus(obj) => obj.0.value@.user().vault_name,
        }
    }

    pub fn vault_name(&self) -> (r: VaultName)
        ensures
            r@ == self.vault_name_of(),
    {
        match self {
            VaultKvLogEvent::DeviceLog(obj) => obj.0.value.vault_name(),
            VaultKvLogEvent::VaultLog(obj) => VaultName::from_string(obj.0.key.obj_id.fqdn.obj_instance.clone()),
            VaultKvLogEvent::Vault(obj) => obj.0.value.vault_name.clone(),
            VaultKvLogEvent::VaultStatus(obj) => obj.0.value.user().vault_name(),
        }
    }
}

impl SsKvLogEvent {
    /// The vault the event belongs to. A claim log is named after its vault.
    pub open spec fn vault_name_of(&self) -> Seq<char> {
        match self {
            SsKvLogEvent::SsDeviceLog(obj) => obj.0.value.vault_name@,
            SsKvLogEvent::SsLog(obj) => obj.0.key.obj_id.fqdn.obj_instance@,
            SsKvLogEvent::SsWorkflow(SsWorkflowObject::Recovery(e)) => e.value.vault_name@,
            SsKvLogEvent::SsWorkflow(SsWorkflowObject::Distribution(e)) => e.value.vault_name@,
        }
    }

    pub fn vault_name(&self) -> (r: VaultName)
        ensures
            r@ == self.vault_name_of(),
    {
        match self {
            SsKvLogEvent::SsDeviceLog(obj) => obj.0.value.vault_name.clone(),
            SsKvLogEvent::SsLog(obj) => VaultName::from_string(obj.0.key.obj_id.fqdn.obj_instance.clone()),
            SsKvLogEvent::SsWorkflow(SsWorkflowObject::Recovery(e)) => e.value.vault_name.clone(),
            SsKvLogEvent::SsWorkflow(SsWorkflowObject::Distribution(e)) => e.value.vault_name.clone(),
        }
    }
}

impl GenericKvLogEvent {
    /// The vault of a vault or secret-sharing event; local events and errors belong to none.
    pub fn vault_name(&self) -> (r: Result<VaultName, CoreError>)
        ensures
            self matches GenericKvLogEvent::Vault(e) ==> (r matches Ok(n) && n@ == e.vault_name_of()),
            self matches GenericKvLogEvent::Ss(e) ==> (r matches Ok(n) && n@ == e.vault_name_of()),
            (self is Local || self is DbError) ==> r == Err::<VaultName, CoreError>(CoreError::WrongEventType),
    {
        match self {
            GenericKvLogEvent::Local(_) => Err(CoreError::WrongEventType),
            GenericKvLogEvent::Vault(evt) => Ok(evt.vault_name()),
            GenericKvLogEvent::Ss(evt) => Ok(evt.vault_name()),
            GenericKvLogEvent::DbError(_) => Err(CoreError::WrongEventType),
        }
    }

    pub fn device_creds(self) -> (r: Result<DeviceCredsObject, LogEventCastError>)
        ensures
            self matches GenericKvLogEvent::Local(LocalKvLogEvent::DeviceCreds(obj)) ==> r == Ok::<
                DeviceCredsObject,
                LogEventCastError,
            >(obj),
            !(self matches GenericKvLogEvent::Local(LocalKvLogEvent::DeviceCreds(_))) ==> r == Err::<
                DeviceCredsObject,
                LogEventCastError,
            >(LogEventCastError::InvalidCredentials(self)),
    {
        DeviceCredsObject::try_from_event(self)
    }

    pub fn user_creds(self) -> (r: Result<UserCredsObject, LogEventCastError>)
        ensures
            self matches GenericKvLogEvent::Local(LocalKvLogEvent::UserCreds(obj)) ==> r == Ok::<
                UserCredsObject,
                LogEventCastError,
            >(obj),
            !(self matches GenericKvLogEvent::Local(LocalKvLogEvent::UserCreds(_))) ==> r == Err::<
                UserCredsObject,
                LogEventCastError,
            >(LogEventCastError::InvalidCredentials(self)),
    {
        UserCredsObject::try_from_event(self)
    }

    pub fn device_log(self) -> (r: Result<DeviceLogObject, LogEventCastError>)
        ensures
            self matches GenericKvLogEvent::Vault(VaultKvLogEvent::DeviceLog(obj)) ==> r == Ok::<
                DeviceLogObject,
                LogEventCastError,
            >(*obj),
            !(self matches GenericKvLogEvent::Vault(VaultKvLogEvent::DeviceLog(_))) ==> r == Err::<
                DeviceLogObject,
                LogEventCastError,
            >(LogEventCastError::InvalidDeviceLog(self)),
    {
        DeviceLogObject::try_from_event(self)
    }

    pub fn vault_log(self) -> (r: Result<VaultLogObject, LogEventCastError>)
        ensures
            self matches GenericKvLogEvent::Vault(VaultKvLogEvent::VaultLog(obj)) ==> r == Ok::<
                VaultLogObject,
                LogEventCastError,
            >(obj),
            !(self matches GenericKvLogEvent::Vault(VaultKvLogEvent::VaultLog(_))) ==> r == Err::<
                VaultLogObject,
                LogEventCastError,
            >(LogEventCastError::InvalidVaultLog(self)),
    {
        VaultLogObject::try_from_event(self)
    }

    pub fn vault(self) -> (r: Result<VaultObject, LogEventCastError>)
        ensures
            self matches GenericKvLogEvent::Vault(VaultKvLogEvent::Vault(obj)) ==> r == Ok::<
                VaultObject,
                LogEventCastError,
            >(obj),
            !(self matches GenericKvLogEvent::Vault(VaultKvLogEvent::Vault(_))) ==> r == Err::<
                VaultObject,
                LogEventCastError,
            >(LogEventCastError::InvalidVault(self)),
    {
        VaultObject::try_from_event(self)
    }

    pub fn vault_membership(self) -> (r: Result<VaultStatusObject, LogEventCastError>)
        ensures
            self matches GenericKvLogEvent::Vault(VaultKvLogEvent::VaultStatus(obj)) ==> r == Ok::<
                VaultStatusObject,
                LogEventCastError,
            >(obj),
            !(self matches GenericKvLogEvent::Vault(VaultKvLogEvent::VaultStatus(_))) ==> r == Err::<
                VaultStatusObject,
                LogEventCastError,
            >(LogEventCastError::InvalidVaultMembership(self)),
    {
        VaultStatusObject::try_from_event(self)
    }

    pub fn shared_secret(self) -> (r: Result<SsWorkflowObject, LogEventCastError>)
        ensures
            self matches GenericKvLogEvent::Ss(SsKvLogEvent::SsWorkflow(obj)) ==> r == Ok::<
                SsWorkflowObject,
                LogEventCastError,
            >(obj),
            !(self matches GenericKvLogEvent::Ss(SsKvLogEvent::SsWorkflow(_))) ==> r == Err::<
                SsWorkflowObject,
                LogEventCastError,
            >(LogEventCastError::InvalidSharedSecret(self)),
    {
        SsWorkflowObject::try_from_event(self)
    }

    pub fn ss_device_log(self) -> (r: Result<SsDeviceLogObject, LogEventCastError>)
        ensures
            self matches GenericKvLogEvent::Ss(SsKvLogEvent::SsDeviceLog(obj)) ==> r == Ok::<
                SsDeviceLogObject,
                LogEventCastError,
            >(obj),
            !(self matches GenericKvLogEvent::Ss(SsKvLogEvent::SsDeviceLog(_))) ==> r == Err::<
                SsDeviceLogObject,
                LogEventCastError,
            >(LogEventCastError::InvalidSsDeviceLog(self)),
    {
        SsDeviceLogObject::try_from_event(self)
    }

    pub fn ss_log(self) -> (r: Result<SsLogObject, LogEventCastError>)
        ensures
            self matches GenericKvLogEvent::Ss(SsKvLogEvent::SsLog(obj)) ==> r == Ok::<
                SsLogObject,
                LogEventCastError,
            >(obj),
            !(self matches GenericKvLogEvent::Ss(SsKvLogEvent::SsLog(_))) ==> r == Err::<
                SsLogObject,
                LogEventCastError,
            >(LogEventCastError::InvalidSsLog(self)),
    {
        SsLogObject::try_from_event(self)
    }

    /// The key under which the event is stored.
    pub open spec fn key_of(&self) -> KvKey {
        match self {
            GenericKvLogEvent::DbError(e) => e.key,
            GenericKvLogEvent::Local(LocalKvLogEvent::DeviceCreds(o)) => o.0.key,
            GenericKvLogEvent::Local(LocalKvLogEvent::UserCreds(o)) => o.0.key,
            GenericKvLogEvent::Vault(VaultKvLogEvent::DeviceLog(o)) => o.0.key,
            GenericKvLogEvent::Vault(VaultKvLogEvent::VaultLog(o)) => o.0.key,
            GenericKvLogEvent::Vault(VaultKvLogEvent::Vault(o)) => o.0.key,
            GenericKvLogEvent::Vault(VaultKvLogEvent::VaultStatus(o)) => o.0.key,
            GenericKvLogEvent::Ss(SsKvLogEvent::SsDeviceLog(o)) => o.0.key,
            GenericKvLogEvent::Ss(SsKvLogEvent::SsLog(o)) => o.0.key,
            GenericKvLogEvent::Ss(SsKvLogEvent::SsWorkflow(SsWorkflowObject::Recovery(e))) => e.key,
            GenericKvLogEvent::Ss(SsKvLogEvent::SsWorkflow(SsWorkflowObject::Distribution(e))) => e.key,
        }
    }
}

impl ToGenericEvent for GenericKvLogEvent {
    fn to_generic(self) -> (r: GenericKvLogEvent)
        ensures
            r == self,
    {
        self
    }
}

impl GenericKvLogEventConvertible for GenericKvLogEvent {
    fn try_from_event(event: GenericKvLogEvent) -> (r: Result<Self, LogEventCastError>)
        ensures
            r == Ok::<Self, LogEventCastError>(event),
    {
        Ok(event)
    }
}

impl KeyExtractor for GenericKvLogEvent {
    fn key(&self) -> (r: KvKey)
        ensures
            r.obj_id@ == self.key_of().obj_id@,
            r.obj_desc == self.key_of().obj_desc,
    {
        match self {
            GenericKvLogEvent::DbError(event) => event.key.clone(),
            GenericKvLogEvent::Local(LocalKvLogEvent::DeviceCreds(obj)) => obj.key(),
            GenericKvLogEvent::Local(LocalKvLogEvent::UserCreds(obj)) => obj.key(),
            GenericKvLogEvent::Vault(VaultKvLogEvent::DeviceLog(obj)) => obj.key(),
            GenericKvLogEvent::Vault(VaultKvLogEvent::VaultLog(obj)) => obj.key(),
            GenericKvLogEvent::Vault(VaultKvLogEvent::Vault(obj)) => obj.key(),
            GenericKvLogEvent::Vault(VaultKvLogEvent::VaultStatus(obj)) => obj.key(),
            GenericKvLogEvent::Ss(SsKvLogEvent::SsDeviceLog(obj)) => obj.key(),
            GenericKvLogEvent::Ss(SsKvLogEvent::SsLog(obj)) => obj.key(),
            GenericKvLogEvent::Ss(SsKvLogEvent::SsWorkflow(obj)) => obj.key(),
        }
    }
}

impl ObjIdExtractor for GenericKvLogEvent {
    fn obj_id(&self) -> (r: ArtifactId)
        ensures
            r@ == self.key_of().obj_id@,
    {
        match self {
            GenericKvLogEvent::DbError(event) => event.key.obj_id.clone(),
            GenericKvLogEvent::Local(LocalKvLogEvent::DeviceCreds(obj)) => obj.obj_id(),
            GenericKvLogEvent::Local(LocalKvLogEvent::UserCreds(obj)) => obj.obj_id(),
            GenericKvLogEvent::Vault(VaultKvLogEvent::DeviceLog(obj)) => obj.obj_id(),
            GenericKvLogEvent::Vault(VaultKvLogEvent::VaultLog(obj)) => obj.obj_id(),
            GenericKvLogEvent::Vault(VaultKvLogEvent::Vault(obj)) => obj.obj_id(),
            GenericKvLogEvent::Vault(VaultKvLogEvent::VaultStatus(obj)) => obj.obj_id(),
            GenericKvLogEvent::Ss(SsKvLogEvent::SsDeviceLog(obj)) => obj.obj_id(),
            GenericKvLogEvent::Ss(SsKvLogEvent::SsLog(obj)) => obj.obj_id(),
            GenericKvLogEvent::Ss(SsKvLogEvent::SsWorkflow(obj)) => obj.obj_id(),
        }
    }
}

impl Clone for VaultObject {
    fn clone(&self) -> (r: Self)
        ensures
            r.0.key.obj_id@ == self.0.key.obj_id@,
            r.0.key.obj_desc == self.0.key.obj_desc,
            r.0.value@ == self.0.value@,
    {
        VaultObject(KvLogEvent { key: self.0.key.clone(), value: self.0.value.view_clone() })
    }
}

impl Clone for VaultLogObject {
    fn clone(&self) -> (r: Self)
        ensures
            r.0.key.obj_id@ == self.0.key.obj_id@,
            r.0.key.obj_desc == self.0.key.obj_desc,
            r.0.value@ == self.0.value@,
    {
        VaultLogObject(KvLogEvent { key: self.0.key.clone(), value: self.0.value.view_clone() })
    }
}

impl Clone for VaultStatusObject {
    fn clone(&self) -> (r: Self)
        ensures
            r.0.key.obj_id@ == self.0.key.obj_id@,
            r.0.key.obj_desc == self.0.key.obj_desc,
            r.0.value == self.0.value,
    {
        VaultStatusObject(KvLogEvent { key: self.0.key.clone(), value: self.0.value.clone() })
    }
}

impl Clone for SsLogObject {
    fn clone(&self) -> (r: Self)
        ensures
            r.0.key.obj_id@ == self.0.key.obj_id@,
            r.0.key.obj_desc == self.0.key.obj_desc,
            r.0.value@ == self.0.value@,
    {
        SsLogObject(KvLogEvent { key: self.0.key.clone(), value: self.0.value.view_clone() })
    }
}

impl Clone for SsDeviceLogObject {
    fn clone(&self) -> (r: Self)
        ensures
            r.0.key.obj_id@ == self.0.key.obj_id@,
            r.0.key.obj_desc == self.0.key.obj_desc,
            r.0.value@ == self.0.value@,
    {
        SsDeviceLogObject(KvLogEvent { key: self.0.key.clone(), value: self.0.value.view_clone() })
    }
}

impl Clone for SsWorkflowObject {
    fn clone(&self) -> (r: Self)
        ensures
            self matches SsWorkflowObject::Distribution(e) ==> (r matches SsWorkflowObject::Distribution(c)
                && c.key.obj_id@ == e.key.obj_id@ && c.key.obj_desc == e.key.obj_desc && c.value == e.value),
            self matches SsWorkflowObject::Recovery(e) ==> (r matches SsWorkflowObject::Recovery(c)
                && c.key.obj_id@ == e.key.obj_id@ && c.key.obj_desc == e.key.obj_desc && c.value == e.value),
    {
        match self {
            SsWorkflowObject::Distribution(e) => SsWorkflowObject::Distribution(
                KvLogEvent { key: e.key.clone(), value: e.value.clone() },
            ),
            SsWorkflowObject::Recovery(e) => SsWorkflowObject::Recovery(
                KvLogEvent { key: e.key.clone(), value: e.value.clone() },
            ),
        }
    }
}

impl Clone for DeviceLogObject {
    fn clone(&self) -> (r: Self)
        ensures
            r.0.key.obj_id@ == self.0.key.obj_id@,
            r.0.key.obj_desc == self.0.key.obj_desc,
            r.0.value == self.0.value,
    {
        DeviceLogObject(KvLogEvent { key: self.0.key.clone(), value: self.0.value.clone() })
    }
}

/// Whether two events are the same event: the same kind of object, under the same key,
/// holding the same value (compared by its view where the value has one).
pub open spec fn same_event(a: GenericKvLogEvent, b: GenericKvLogEvent) -> bool {
    &&& a.key_of().obj_id@ == b.key_of().obj_id@
    &&& a.key_of().obj_desc == b.key_of().obj_desc
    &&& match (a, b) {
        (GenericKvLogEvent::Local(LocalKvLogEvent::DeviceCreds(x)), GenericKvLogEvent::Local(LocalKvLogEvent::DeviceCreds(y))) => x.0.value == y.0.value,
        (GenericKvLogEvent::Local(LocalKvLogEvent::UserCreds(x)), GenericKvLogEvent::Local(LocalKvLogEvent::UserCreds(y))) => x.0.value == y.0.value,
        (GenericKvLogEvent::Vault(VaultKvLogEvent::DeviceLog(x)), GenericKvLogEvent::Vault(VaultKvLogEvent::DeviceLog(y))) => x.0.value == y.0.value,
        (GenericKvLogEvent::Vault(VaultKvLogEvent::VaultLog(x)), GenericKvLogEvent::Vault(VaultKvLogEvent::VaultLog(y))) => x.0.value@ == y.0.value@,
        (GenericKvLogEvent::Vault(VaultKvLogEvent::Vault(x)), GenericKvLogEvent::Vault(VaultKvLogEvent::Vault(y))) => x.0.value@ == y.0.value@,
        (GenericKvLogEvent::Vault(VaultKvLogEvent::VaultStatus(x)), GenericKvLogEvent::Vault(VaultKvLogEvent::VaultStatus(y))) => x.0.value == y.0.value,
        (GenericKvLogEvent::Ss(SsKvLogEvent::SsDeviceLog(x)), GenericKvLogEvent::Ss(SsKvLogEvent::SsDeviceLog(y))) => x.0.value@ == y.0.value@,
        (GenericKvLogEvent::Ss(SsKvLogEvent::SsLog(x)), GenericKvLogEvent::Ss(SsKvLogEvent::SsLog(y))) => x.0.value@ == y.0.value@,
        (GenericKvLogEvent::Ss(SsKvLogEvent::SsWorkflow(SsWorkflowObject::Distribution(x))), GenericKvLogEvent::Ss(SsKvLogEvent::SsWorkflow(SsWorkflowObject::Distribution(y)))) => x.value == y.value,
        (GenericKvLogEvent::Ss(SsKvLogEvent::SsWorkflow(SsWorkflowObject::Recovery(x))), GenericKvLogEvent::Ss(SsKvLogEvent::SsWorkflow(SsWorkflowObject::Recovery(y)))) => x.value == y.value,
        (GenericKvLogEvent::DbError(x), GenericKvLogEvent::DbError(y)) => {
            &&& x.value.stacktrace@.len() == y.value.stacktrace@.len()
            &&& forall|i: int| 0 <= i < x.value.stacktrace@.len() ==> #[trigger] x.value.stacktrace@[i]@ == y.value.stacktrace@[i]@
        },
        _ => false,
    }
}

impl Clone for GenericKvLogEvent {
    /// A copy of the event: the same kind of object, under the same key, with the same value.
    fn clone(&self) -> (r: Self)
        ensures
            same_event(r, *self),
    {
        match self {
            GenericKvLogEvent::Local(LocalKvLogEvent::DeviceCreds(o)) => GenericKvLogEvent::Local(
                LocalKvLogEvent::DeviceCreds(o.clone()),
            ),
            GenericKvLogEvent::Local(LocalKvLogEvent::UserCreds(o)) => GenericKvLogEvent::Local(
                LocalKvLogEvent::UserCreds(o.clone()),
            ),
            GenericKvLogEvent::Vault(VaultKvLogEvent::DeviceLog(o)) => GenericKvLogEvent::Vault(
                VaultKvLogEvent::DeviceLog(Box::new((**o).clone())),
            ),
            GenericKvLogEvent::Vault(VaultKvLogEvent::VaultLog(o)) => GenericKvLogEvent::Vault(
                VaultKvLogEvent::VaultLog(o.clone()),
            ),
            GenericKvLogEvent::Vault(VaultKvLogEvent::Vault(o)) => GenericKvLogEvent::Vault(VaultKvLogEvent::Vault(o.clone())),
            GenericKvLogEvent::Vault(VaultKvLogEvent::VaultStatus(o)) => GenericKvLogEvent::Vault(
                VaultKvLogEvent::VaultStatus(o.clone()),
            ),
            GenericKvLogEvent::Ss(SsKvLogEvent::SsDeviceLog(o)) => GenericKvLogEvent::Ss(SsKvLogEvent::SsDeviceLog(o.clone())),
            GenericKvLogEvent::Ss(SsKvLogEvent::SsLog(o)) => GenericKvLogEvent::Ss(SsKvLogEvent::SsLog(o.clone())),
            GenericKvLogEvent::Ss(SsKvLogEvent::SsWorkflow(o)) => GenericKvLogEvent::Ss(SsKvLogEvent::SsWorkflow(o.clone())),
            GenericKvLogEvent::DbError(e) => GenericKvLogEvent::DbError(
                KvLogEvent { key: e.key.clone(), value: e.value.clone() },
            ),
        }
    }
}

} // verus!
