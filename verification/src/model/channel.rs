//! Communication channels between transport keys.
use vstd::prelude::*;
use crate::error::CoreError;
use crate::model::keys::TransportPk;

verus! {

#[derive(Debug)]
pub struct End2EndChannel {
    pub sender: TransportPk,
    pub receiver: TransportPk,
}

#[derive(Debug)]
pub struct LoopbackChannel {
    pub device: TransportPk,
}

#[derive(Debug)]
pub enum CommunicationChannel {
    End2End(End2EndChannel),
    SingleDevice(LoopbackChannel),
}

impl Clone for End2EndChannel {
    fn clone(&self) -> (r: Self)
        ensures
            r == *self,
    {
        End2EndChannel { sender: self.sender.clone(), receiver: self.receiver.clone() }
    }
}

impl Clone for LoopbackChannel {
    fn clone(&self) -> (r: Self)
        ensures
            r == *self,
    {
        LoopbackChannel { device: self.device.clone() }
    }
}

impl Clone for CommunicationChannel {
    fn clone(&self) -> (r: Self)
        ensures
            r == *self,
    {
        match self {
            CommunicationChannel::End2End(c) => CommunicationChannel::End2End(c.clone()),
            CommunicationChannel::SingleDevice(c) => CommunicationChannel::SingleDevice(c.clone()),
        }
    }
}

impl PartialEq for End2EndChannel {
    fn eq(&self, other: &Self) -> (r: bool) {
        self.sender == other.sender && self.receiver == other.receiver
    }
}

impl vstd::std_specs::cmp::PartialEqSpecImpl for End2EndChannel {
    open spec fn obeys_eq_spec() -> bool {
        true
    }

    open spec fn eq_spec(&self, other: &Self) -> bool {
        self.sender@ == other.sender@ && self.receiver@ == other.receiver@
    }
}

impl PartialEq for LoopbackChannel {
    fn eq(&self, other: &Self) -> (r: bool) {
        self.device == other.device
    }
}

impl vstd::std_specs::cmp::PartialEqSpecImpl for LoopbackChannel {
    open spec fn obeys_eq_spec() -> bool {
        true
    }

    open spec fn eq_spec(&self, other: &Self) -> bool {
        self.device@ == other.device@
    }
}

impl PartialEq for CommunicationChannel {
    fn eq(&self, other: &Self) -> (r: bool) {
        match (self, other) {
            (CommunicationChannel::End2End(a), CommunicationChannel::End2End(b)) => a == b,
            (CommunicationChannel::SingleDevice(a), CommunicationChannel::SingleDevice(b)) => a == b,
            _ => false,
        }
    }
}

impl vstd::std_specs::cmp::PartialEqSpecImpl for CommunicationChannel {
    open spec fn obeys_eq_spec() -> bool {
        true
    }

    open spec fn eq_spec(&self, other: &Self) -> bool {
        self.sender_view() == other.sender_view() && self.receiver_view() == other.receiver_view()
            && (self is End2End) == (other is End2End)
    }
}

impl LoopbackChannel {
    /// A channel from this device to another; fails when the receiver is this device.
    pub fn build_end_2_end(self, receiver: TransportPk) -> (r: Result<End2EndChannel, CoreError>)
        ensures
            self.device@ == receiver@ <==> r is Err,
            r is Err ==> r == Err::<End2EndChannel, CoreError>(CoreError::CommunicationChannelError { device: self.device }),
            r matches Ok(c) ==> c.sender == self.device && c.receiver == receiver,
    {
        if self.device == receiver {
            Err(CoreError::CommunicationChannelError { device: self.device })
        } else {
            Ok(End2EndChannel { sender: self.device, receiver })
        }
    }

    pub fn to_channel(self) -> (r: CommunicationChannel)
        ensures
            r == CommunicationChannel::SingleDevice(self),
    {
        CommunicationChannel::SingleDevice(self)
    }
}

impl End2EndChannel {
    pub fn to_channel(self) -> (r: CommunicationChannel)
        ensures
            r == CommunicationChannel::End2End(self),
    {
        CommunicationChannel::End2End(self)
    }
}

impl CommunicationChannel {
    pub open spec fn sender_view(&self) -> Seq<char> {
        match self {
            CommunicationChannel::End2End(c) => c.sender@,
            CommunicationChannel::SingleDevice(c) => c.device@,
        }
    }

    pub open spec fn receiver_view(&self) -> Seq<char> {
        match self {
            CommunicationChannel::End2End(c) => c.receiver@,
            CommunicationChannel::SingleDevice(c) => c.device@,
        }
    }

    /// A loopback channel for equal keys, an end-to-end channel otherwise.
    pub fn build(sender: TransportPk, receiver: TransportPk) -> (r: CommunicationChannel)
        ensures
            sender@ == receiver@ ==> r == CommunicationChannel::SingleDevice(LoopbackChannel { device: sender }),
            sender@ != receiver@ ==> r == CommunicationChannel::End2End(End2EndChannel { sender, receiver }),
    {
        if sender == receiver {
            CommunicationChannel::SingleDevice(LoopbackChannel { device: sender })
        } else {
            CommunicationChannel::End2End(End2EndChannel { sender, receiver })
        }
    }

    pub fn single_device(device: TransportPk) -> (r: LoopbackChannel)
        ensures
            r.device == device,
    {
        LoopbackChannel { device }
    }

    /// The same channel with sender and receiver swapped.
    pub fn inverse(self) -> (r: Self)
        ensures
            r.sender_view() == self.receiver_view(),
            r.receiver_view() == self.sender_view(),
            (r is End2End) == (self is End2End),
            self is SingleDevice ==> r == self,
            self matches CommunicationChannel::End2End(c) ==> r == CommunicationChannel::End2End(
                End2EndChannel { sender: c.receiver, receiver: c.sender },
            ),
    {
        match self {
            CommunicationChannel::End2End(End2EndChannel { sender, receiver }) => {
                CommunicationChannel::End2End(End2EndChannel { sender: receiver, receiver: sender })
            },
            CommunicationChannel::SingleDevice(c) => CommunicationChannel::SingleDevice(c),
        }
    }

    pub fn sender(&self) -> (r: &TransportPk)
        ensures
            r@ == self.sender_view(),
    {
        match self {
            CommunicationChannel::End2End(c) => &c.sender,
            CommunicationChannel::SingleDevice(c) => &c.device,
        }
    }

    pub fn receiver(&self) -> (r: &TransportPk)
        ensures
            r@ == self.receiver_view(),
    {
        match self {
            CommunicationChannel::End2End(c) => &c.receiver,
            CommunicationChannel::SingleDevice(c) => &c.device,
        }
    }

    /// The other end of the channel from the given key; fails for a key that is neither end.
    pub fn peer(&self, initiator_pk: &TransportPk) -> (r: Result<&TransportPk, CoreError>)
        ensures
            initiator_pk@ == self.sender_view() ==> (r matches Ok(p) && p@ == self.receiver_view()),
            initiator_pk@ != self.sender_view() && initiator_pk@ == self.receiver_view() ==> (r matches Ok(p)
                && p@ == self.sender_view()),
            initiator_pk@ != self.sender_view() && initiator_pk@ != self.receiver_view() ==> r
                == Err::<&TransportPk, CoreError>(CoreError::ThirdPartyKey),
    {
        let sender = self.sender();
        let receiver = self.receiver();
        if *initiator_pk == *sender {
            Ok(receiver)
        } else if *initiator_pk == *receiver {
            Ok(sender)
        } else {
            Err(CoreError::ThirdPartyKey)
        }
    }

    /// Whether the key is an end of the channel.
    pub fn contains(&self, pk: &TransportPk) -> (r: bool)
        ensures
            r == (pk@ == self.sender_view() || pk@ == self.receiver_view()),
    {
        match self {
            CommunicationChannel::End2End(c) => c.sender == *pk || c.receiver == *pk,
            CommunicationChannel::SingleDevice(c) => c.device == *pk,
        }
    }

    /// The distinct keys of the channel, each once: the keys a message on it is encrypted to.
    pub fn recipient_keys(&self) -> (r: Vec<TransportPk>)
        ensures
            self.sender_view() == self.receiver_view() ==> r@.len() == 1 && r@[0]@ == self.sender_view(),
            self.sender_view() != self.receiver_view() ==> r@.len() == 2 && r@[0]@ == self.sender_view()
                && r@[1]@ == self.receiver_view(),
    {
        let mut keys: Vec<TransportPk> = Vec::new();
        keys.push(self.sender().clone());
        if *self.receiver() != *self.sender() {
            keys.push(self.receiver().clone());
        }
        keys
    }
}

/// Inverting a channel twice gives a channel with the same ends as the first one.
pub proof fn law_channel_inverse_twice(c: CommunicationChannel, once: CommunicationChannel, twice: CommunicationChannel)
    requires
        once.sender_view() == c.receiver_view() && once.receiver_view() == c.sender_view(),
        twice.sender_view() == once.receiver_view() && twice.receiver_view() == once.sender_view(),
    ensures
        twice.sender_view() == c.sender_view(),
        twice.receiver_view() == c.receiver_view(),
{
}

} // verus!
