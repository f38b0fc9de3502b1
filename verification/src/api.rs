//! Requests to the server and its answers.
use vstd::prelude::*;
use crate::db::events::GenericKvLogEvent;
use crate::db::object_id::ArtifactId;
use crate::error::CoreError;
use crate::ids::Base64Text;
use crate::model::device::DeviceId;
use crate::model::secret::{SsDistributionStatus, SsRecoveryId};
use crate::model::user::UserData;
use crate::model::vault::VaultName;

verus! {

/// The last known events of the objects of a vault.
#[derive(Debug)]
pub struct VaultTail {
    pub vault_log: ArtifactId,
    pub vault: ArtifactId,
    pub vault_status: ArtifactId,
}

#[derive(Debug)]
pub struct VaultRequest {
    pub sender: UserData,
    pub tail: VaultTail,
}

#[derive(Debug)]
pub struct SsRequest {
    pub sender: UserData,
    pub ss_log: ArtifactId,
}

#[derive(Debug)]
pub struct ServerTailRequest {
    pub sender: UserData,
}

#[derive(Debug)]
pub enum ReadSyncRequest {
    Vault(VaultRequest),
    SsRequest(SsRequest),
    SsRecoveryCompletion(SignedAction),
    ServerTail(ServerTailRequest),
}

#[derive(Debug)]
pub enum WriteSyncRequest {
    Event(SignedAction),
}

#[derive(Debug)]
pub enum SyncRequest {
    Read(Box<ReadSyncRequest>),
    Write(Box<WriteSyncRequest>),
}

/// A receiver's answer to a recovery claim.
#[derive(Debug)]
pub struct SsRecoveryCompletion {
    pub vault_name: VaultName,
    pub recovery_id: SsRecoveryId,
    /// Status to set for receiver (Sent for accept, Declined for decline)
    pub receiver_status: SsDistributionStatus,
}

/// What a signed action carries.
#[derive(Debug)]
pub enum SignedActionPayload {
    Event(GenericKvLogEvent),
    RecoveryCompletion(SsRecoveryCompletion),
}

/// A signed, replay-protected state-changing command.
#[derive(Debug)]
pub struct SignedAction {
    pub signer: DeviceId,
    /// Monotonic sequence within `stream` for this signer.
    pub nonce: u64,
    pub stream: String,
    pub signature: Base64Text,
    pub payload: SignedActionPayload,
}

impl SignedAction {
    /// The event the action carries.
    pub fn event(&self) -> (r: Result<&GenericKvLogEvent, CoreError>)
        ensures
            self.payload matches SignedActionPayload::Event(e) ==> r == Ok::<&GenericKvLogEvent, CoreError>(&e),
            self.payload is RecoveryCompletion ==> r == Err::<&GenericKvLogEvent, CoreError>(CoreError::WrongEventType),
    {
        match &self.payload {
            SignedActionPayload::Event(event) => Ok(event),
            SignedActionPayload::RecoveryCompletion(_) => Err(CoreError::WrongEventType),
        }
    }

    /// The recovery completion the action carries.
    pub fn completion(&self) -> (r: Result<&SsRecoveryCompletion, CoreError>)
        ensures
            self.payload matches SignedActionPayload::RecoveryCompletion(c) ==> r == Ok::<
                &SsRecoveryCompletion,
                CoreError,
            >(&c),
            self.payload is Event ==> r == Err::<&SsRecoveryCompletion, CoreError>(CoreError::WrongEventType),
    {
        match &self.payload {
            SignedActionPayload::RecoveryCompletion(completion) => Ok(completion),
            SignedActionPayload::Event(_) => Err(CoreError::WrongEventType),
        }
    }
}

/// The events the server sends back.
#[derive(Debug)]
pub struct DataEventsResponse(pub Vec<GenericKvLogEvent>);

/// The last events of the device's logs that the server has.
#[derive(Debug)]
pub struct ServerTailResponse {
    pub device_log_tail: Option<ArtifactId>,
    pub ss_device_log_tail: Option<ArtifactId>,
}

#[derive(Debug)]
pub enum DataSyncResponse {
    Empty,
    Data(DataEventsResponse),
    ServerTailResponse(ServerTailResponse),
    Error { msg: String },
}

impl DataSyncResponse {
    /// A write was accepted: the server answers nothing.
    pub fn ensure_success(&self) -> (r: Result<(), CoreError>)
        ensures
            self is Empty ==> r is Ok,
            self matches DataSyncResponse::Error { msg } ==> (r matches Err(CoreError::ServerError { msg: m })
                && m@ == msg@),
            (self is Data || self is ServerTailResponse) ==> r == Err::<(), CoreError>(
                CoreError::InvalidResponseType,
            ),
    {
        match self {
            DataSyncResponse::Empty => Ok(()),
            DataSyncResponse::Error { msg } => Err(CoreError::ServerError { msg: msg.clone() }),
            _ => Err(CoreError::InvalidResponseType),
        }
    }

    pub fn to_data(self) -> (r: Result<DataEventsResponse, CoreError>)
        ensures
            self matches DataSyncResponse::Data(d) ==> r == Ok::<DataEventsResponse, CoreError>(d),
            !(self is Data) ==> r == Err::<DataEventsResponse, CoreError>(CoreError::InvalidResponseType),
    {
        match self {
            DataSyncResponse::Data(data) => Ok(data),
            _ => Err(CoreError::InvalidResponseType),
        }
    }

    pub fn to_server_tail(self) -> (r: Result<ServerTailResponse, CoreError>)
        ensures
            self matches DataSyncResponse::ServerTailResponse(t) ==> r == Ok::<ServerTailResponse, CoreError>(t),
            !(self is ServerTailResponse) ==> r == Err::<ServerTailResponse, CoreError>(
                CoreError::InvalidResponseType,
            ),
    {
        match self {
            DataSyncResponse::ServerTailResponse(server_tail) => Ok(server_tail),
            _ => Err(CoreError::InvalidResponseType),
        }
    }
}

} // verus!
