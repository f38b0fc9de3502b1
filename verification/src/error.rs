//! Errors of the library.
use vstd::prelude::*;
use crate::model::keys::TransportPk;

verus! {

#[derive(Debug, Clone, PartialEq)]
pub enum CoreError {
    /// A peer-to-peer link needs two different devices.
    SameSenderAndReceiver,
    /// An end-to-end channel needs two different keys: the device's own key was given as
    /// the receiver.
    CommunicationChannelError { device: TransportPk },
    /// The key is neither end of the communication channel.
    ThirdPartyKey,
    /// The user is not a member of the vault.
    NotAVaultMember,
    /// The event has another type than the one asked for.
    WrongEventType,
    /// The vault action has another kind than the one asked for.
    WrongVaultAction,
    /// The response has another type than the one asked for.
    InvalidResponseType,
    /// The server answered with an error, with its message.
    ServerError { msg: String },
    /// The run mode is neither "dev" nor "prod"; it carries the mode that was given.
    UnknownRunMode { mode: String },
    /// Sign up is refused: the device's request to join the vault is already pending.
    SignUpNotAllowed,
    /// Sign up is not allowed in the local state, before the device knows of any vault.
    SignUpInLocalState,
    /// Sign up is not allowed while the device's join request is pending.
    SignUpInPendingState,
    /// Sign up is not allowed once the device's join request was declined.
    SignUpInDeclinedState,
    /// Sign up is not allowed to a member of the vault.
    SignUpInVaultState,
    /// The signed action carries another payload than the one asked for.
    WrongPayload,
    /// The claim is not in the log.
    ClaimNotFound,
    /// The join request was already declined.
    JoinRequestDeclined,
    /// The candidate is already a member of the vault.
    AlreadyMember,
    /// The local store has neither the vault nor the user's status in it: the store was
    /// never synchronised with the server.
    VaultStatusMissing,
    /// The local store has the vault but not the user's status in it; the two are stored
    /// together.
    VaultWithoutStatus,
    /// The stored status says the vault exists while the vault is missing.
    InvalidMembershipState,
    /// The request asks for the state alone and has no user credentials to act with.
    InvalidRequest,
    /// The local store holds no user credentials.
    UserCredsMissing,
    /// Neither a share sent by another member nor this device's own share is at hand.
    NoRecoveryShares,
    /// The object's last event has the greatest id: no event can follow it.
    IdExhausted,
    /// The object has no event yet.
    ObjectNotFound,
}

} // verus!
