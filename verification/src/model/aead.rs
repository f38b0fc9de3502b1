//! Encrypted and plain messages sent over a communication channel.
use vstd::prelude::*;
use crate::ids::Base64Text;
use crate::model::channel::CommunicationChannel;

verus! {

/// An encrypted message (base64) and the channel it was encrypted for.
#[derive(Debug)]
pub struct AeadCipherText {
    pub msg: Base64Text,
    pub channel: CommunicationChannel,
}

/// A plain message (base64) and the channel it is meant for.
#[derive(Debug)]
pub struct AeadPlainText {
    pub msg: Base64Text,
    pub channel: CommunicationChannel,
}

impl Clone for AeadCipherText {
    fn clone(&self) -> (r: Self)
        ensures
            r == *self,
    {
        AeadCipherText { msg: self.msg.clone(), channel: self.channel.clone() }
    }
}

impl Clone for AeadPlainText {
    fn clone(&self) -> (r: Self)
        ensures
            r == *self,
    {
        AeadPlainText { msg: self.msg.clone(), channel: self.channel.clone() }
    }
}

#[derive(Debug)]
pub enum EncryptedMessage {
    /// There is only one type of encrypted message for now, which is encrypted share of a secret,
    /// and that particular type of message has a device link,
    /// and it used to figure out which vault the message belongs to
    CipherShare { share: AeadCipherText },
}

impl Clone for EncryptedMessage {
    fn clone(&self) -> (r: Self)
        ensures
            r == *self,
    {
        match self {
            EncryptedMessage::CipherShare { share } => EncryptedMessage::CipherShare { share: share.clone() },
        }
    }
}

impl EncryptedMessage {
    pub fn cipher_text(&self) -> (r: &AeadCipherText)
        ensures
            self == (EncryptedMessage::CipherShare { share: *r }),
    {
        match self {
            EncryptedMessage::CipherShare { share } => share,
        }
    }
}

} // verus!
