//! Links between two devices (or a device and itself).
use vstd::prelude::*;
use crate::error::CoreError;
use crate::ids::{IdString, UuidUrlEnc, hashed_id};
use crate::model::channel::CommunicationChannel;
use crate::model::device::DeviceId;
use crate::model::keys::device_id_of;
use crate::text::{seq_lt, str_lt, prefix_chars, take_chars, concat2, lemma_lt_total};

verus! {

/// a <-> a
#[derive(Debug)]
pub struct LoopbackDeviceLink {
    pub device: DeviceId,
}

/// a <-> b
#[derive(Debug)]
pub struct PeerToPeerDeviceLink {
    pub sender: DeviceId,
    pub receiver: DeviceId,
}

#[derive(Debug)]
pub enum DeviceLink {
    Loopback(LoopbackDeviceLink),
    PeerToPeer(PeerToPeerDeviceLink),
}

impl Clone for LoopbackDeviceLink {
    fn clone(&self) -> (r: Self)
        ensures
            r == *self,
    {
        LoopbackDeviceLink { device: self.device.clone() }
    }
}

impl Clone for PeerToPeerDeviceLink {
    fn clone(&self) -> (r: Self)
        ensures
            r == *self,
    {
        PeerToPeerDeviceLink { sender: self.sender.clone(), receiver: self.receiver.clone() }
    }
}

impl Clone for DeviceLink {
    fn clone(&self) -> (r: Self)
        ensures
            r == *self,
    {
        match self {
            DeviceLink::Loopback(l) => DeviceLink::Loopback(l.clone()),
            DeviceLink::PeerToPeer(l) => DeviceLink::PeerToPeer(l.clone()),
        }
    }
}

/// A device link in the shape the user interface holds it.
#[derive(Debug)]
pub struct WasmDeviceLink(DeviceLink);

impl WasmDeviceLink {
    /// The link it holds.
    pub closed spec fn link(&self) -> DeviceLink {
        self.0
    }

    pub fn from(device_link: DeviceLink) -> (r: Self)
        ensures
            r.link() == device_link,
    {
        WasmDeviceLink(device_link)
    }
}

impl PartialEq for LoopbackDeviceLink {
    fn eq(&self, other: &Self) -> (r: bool) {
        self.device == other.device
    }
}

impl vstd::std_specs::cmp::PartialEqSpecImpl for LoopbackDeviceLink {
    open spec fn obeys_eq_spec() -> bool {
        true
    }

    open spec fn eq_spec(&self, other: &Self) -> bool {
        self.device@ == other.device@
    }
}

impl PartialEq for PeerToPeerDeviceLink {
    fn eq(&self, other: &Self) -> (r: bool) {
        self.sender == other.sender && self.receiver == other.receiver
    }
}

impl vstd::std_specs::cmp::PartialEqSpecImpl for PeerToPeerDeviceLink {
    open spec fn obeys_eq_spec() -> bool {
        true
    }

    open spec fn eq_spec(&self, other: &Self) -> bool {
        self.sender@ == other.sender@ && self.receiver@ == other.receiver@
    }
}

impl PartialEq for DeviceLink {
    fn eq(&self, other: &Self) -> (r: bool) {
        match (self, other) {
            (DeviceLink::Loopback(a), DeviceLink::Loopback(b)) => a == b,
            (DeviceLink::PeerToPeer(a), DeviceLink::PeerToPeer(b)) => a == b,
            _ => false,
        }
    }
}

impl vstd::std_specs::cmp::PartialEqSpecImpl for DeviceLink {
    open spec fn obeys_eq_spec() -> bool {
        true
    }

    open spec fn eq_spec(&self, other: &Self) -> bool {
        self.sender_view() == other.sender_view() && self.receiver_view() == other.receiver_view()
            && self.is_loopback_spec() == other.is_loopback_spec()
    }
}

impl LoopbackDeviceLink {
    pub fn from(device: DeviceId) -> (r: Self)
        ensures
            r.device == device,
    {
        LoopbackDeviceLink { device }
    }

    /// A link from this device to another one; fails when the receiver is this device.
    pub fn peer_to_peer(self, receiver: DeviceId) -> (r: Result<PeerToPeerDeviceLink, CoreError>)
        ensures
            self.device@ == receiver@ <==> r is Err,
            r is Err ==> r == Err::<PeerToPeerDeviceLink, CoreError>(CoreError::SameSenderAndReceiver),
            r matches Ok(link) ==> link.sender == self.device && link.receiver == receiver,
    {
        if self.device == receiver {
            return Err(CoreError::SameSenderAndReceiver);
        }
        Ok(PeerToPeerDeviceLink { sender: self.device, receiver })
    }

    pub fn to_device_link(self) -> (r: DeviceLink)
        ensures
            r == DeviceLink::Loopback(self),
    {
        DeviceLink::Loopback(self)
    }

    pub fn sender(&self) -> (r: &DeviceId)
        ensures
            *r == self.device,
    {
        &self.device
    }

    pub fn receiver(&self) -> (r: &DeviceId)
        ensures
            *r == self.device,
    {
        &self.device
    }
}

impl PeerToPeerDeviceLink {
    pub fn to_device_link(self) -> (r: DeviceLink)
        ensures
            r == DeviceLink::PeerToPeer(self),
    {
        DeviceLink::PeerToPeer(self)
    }

    pub fn sender(&self) -> (r: &DeviceId)
        ensures
            *r == self.sender,
    {
        &self.sender
    }

    pub fn receiver(&self) -> (r: &DeviceId)
        ensures
            *r == self.receiver,
    {
        &self.receiver
    }

    /// The same link in the other direction.
    pub fn inverse(&self) -> (r: PeerToPeerDeviceLink)
        ensures
            r.sender == self.receiver,
            r.receiver == self.sender,
    {
        PeerToPeerDeviceLink { sender: self.receiver.clone(), receiver: self.sender.clone() }
    }
}

/// Inverting a peer-to-peer link twice gives the link back.
pub proof fn law_inverse_twice(link: PeerToPeerDeviceLink, once: PeerToPeerDeviceLink, twice: PeerToPeerDeviceLink)
    requires
        once.sender == link.receiver && once.receiver == link.sender,
        twice.sender == once.receiver && twice.receiver == once.sender,
    ensures
        twice == link,
{
}

impl DeviceLink {
    pub open spec fn sender_view(&self) -> Seq<char> {
        match self {
            DeviceLink::Loopback(l) => l.device@,
            DeviceLink::PeerToPeer(l) => l.sender@,
        }
    }

    pub open spec fn receiver_view(&self) -> Seq<char> {
        match self {
            DeviceLink::Loopback(l) => l.device@,
            DeviceLink::PeerToPeer(l) => l.receiver@,
        }
    }

    pub open spec fn is_loopback_spec(&self) -> bool {
        self is Loopback
    }

    pub fn sender(&self) -> (r: DeviceId)
        ensures
            r@ == self.sender_view(),
    {
        match self {
            DeviceLink::Loopback(link) => link.sender().clone(),
            DeviceLink::PeerToPeer(link) => link.sender.clone(),
        }
    }

    pub fn receiver(&self) -> (r: DeviceId)
        ensures
            r@ == self.receiver_view(),
    {
        match self {
            DeviceLink::Loopback(link) => link.receiver().clone(),
            DeviceLink::PeerToPeer(link) => link.receiver().clone(),
        }
    }

    /// Whether the device is an end of this link.
    pub fn contains(&self, device_id: &DeviceId) -> (r: bool)
        ensures
            r == (device_id@ == self.sender_view() || device_id@ == self.receiver_view()),
    {
        match self {
            DeviceLink::Loopback(link) => link.device == *device_id,
            DeviceLink::PeerToPeer(link) => link.receiver == *device_id || link.sender == *device_id,
        }
    }

    pub fn is_loopback(&self) -> (r: bool)
        ensures
            r == self.is_loopback_spec(),
    {
        match self {
            DeviceLink::Loopback(_) => true,
            DeviceLink::PeerToPeer(_) => false,
        }
    }

    pub fn id(&self) -> (r: DeviceLinkId)
        ensures
            r.id@ == link_id_text(self.sender_view(), self.receiver_view()),
    {
        DeviceLinkId::from(self.clone())
    }

    /// The link between the two ends of a channel, from its sender to its receiver.
    pub fn try_from_channel(channel: &CommunicationChannel) -> (r: Result<DeviceLink, CoreError>)
        ensures
            r is Err <==> device_id_of(channel.sender_view()) == device_id_of(channel.receiver_view()),
            r matches Ok(link) ==> link is PeerToPeer
                && link.sender_view() == device_id_of(channel.sender_view())
                && link.receiver_view() == device_id_of(channel.receiver_view()),
    {
        let sender = channel.sender().to_device_id();
        let receiver = channel.receiver().to_device_id();
        let link = sender.loopback().peer_to_peer(receiver)?;
        Ok(link.to_device_link())
    }
}

/// The two ids in sorted order.
pub open spec fn sorted_pair(a: Seq<char>, b: Seq<char>) -> (Seq<char>, Seq<char>) {
    if seq_lt(b, a) {
        (b, a)
    } else {
        (a, b)
    }
}

/// The text of a link id: two-character prefixes of both device ids (in sorted
/// order) and a 128-bit hash of the concatenated ids, separated by `|`.
pub open spec fn link_id_text(sender: Seq<char>, receiver: Seq<char>) -> Seq<char> {
    let (first, second) = sorted_pair(sender, receiver);
    take_chars(first, 2) + "|"@ + take_chars(second, 2) + "|"@ + hashed_id(first + second, 16)
}

/// An id of a link that does not depend on its direction.
#[derive(Debug)]
pub struct DeviceLinkId {
    pub id: String,
}

impl DeviceLinkId {
    pub fn from(link: DeviceLink) -> (r: Self)
        ensures
            r.id@ == link_id_text(link.sender_view(), link.receiver_view()),
    {
        let s = link.sender().id_str();
        let rcv = link.receiver().id_str();
        let (first, second) = if str_lt(rcv.as_str(), s.as_str()) {
            (rcv, s)
        } else {
            (s, rcv)
        };
        let ids_str = concat2(first.as_str(), second.as_str());
        let uuid_str = UuidUrlEnc::from_text(ids_str.as_str()).id_str();
        let first_prefix = prefix_chars(first.as_str(), 2);
        let second_prefix = prefix_chars(second.as_str(), 2);
        let mut id = first_prefix;
        id.append("|");
        id.append(second_prefix.as_str());
        id.append("|");
        id.append(uuid_str.as_str());
        DeviceLinkId { id }
    }
}

impl IdString for DeviceLinkId {
    open spec fn id_view(&self) -> Seq<char> {
        self.id@
    }

    fn id_str(self) -> (r: String) {
        self.id
    }
}

/// A link and the link in the other direction have the same id.
pub proof fn law_link_id_symmetric(a: Seq<char>, b: Seq<char>)
    ensures
        link_id_text(a, b) == link_id_text(b, a),
{
    lemma_lt_total(a, b);
}

} // verus!
